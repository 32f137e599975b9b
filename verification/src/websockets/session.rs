//! One client's side of the fan-out: from what the broker sends to the
//! client's own view of the board.
//!
//! A session starts without a view and keeps what it is sent. The replay of
//! the log gives it its view; what it had kept or is sent later is applied to
//! the view if it continues the log where the view ends, and dropped if the
//! view covers it already.
use vstd::prelude::*;
use vstd::std_specs::cmp::PartialEqSpec;
use crate::command::event::{BoardModifiedEvent, BoardModifiedEventView};
use crate::command::BoardCommand;
use crate::util::entity;
use crate::util::entity::{EventSourced, HandleEvent};
use crate::util::transaction::retry::RetryStrategy;
use crate::util::use_case::UseCase;
use crate::util::view;
use crate::websockets::server::{
    BoardId, BoardModifiedMessage, BoardModifiedMessageView, ReplayMessage, SessionId,
};

verus! {

/// Whether a view that covers the log up to `next` takes `message` as the
/// next event: the message continues the log where the view ends.
pub open spec fn continues(next: nat, message: BoardModifiedMessageView) -> bool {
    message.position == next && next < usize::MAX
}

/// The view and what it covers after `message` was received: the event is
/// applied if it continues the log, and dropped otherwise.
pub open spec fn received<T: HandleEvent<Event = BoardModifiedEvent>>(
    live: (T::Model, nat),
    message: BoardModifiedMessageView,
) -> (T::Model, nat) {
    if continues(live.1, message) {
        (T::applied(live.0, message.event), live.1 + 1)
    } else {
        live
    }
}

/// The view and what it covers after `messages` were received in order.
pub open spec fn received_all<T: HandleEvent<Event = BoardModifiedEvent>>(
    live: (T::Model, nat),
    messages: Seq<BoardModifiedMessageView>,
) -> (T::Model, nat) {
    messages.fold_left(
        live,
        |live: (T::Model, nat), message: BoardModifiedMessageView| received::<T>(live, message),
    )
}

/// The view that a replay of `events` gives to a session that has kept
/// `queued`: the fold of the replayed log, and then of what was kept.
pub open spec fn replayed<T: HandleEvent<Event = BoardModifiedEvent>>(
    events: Seq<BoardModifiedEventView>,
    queued: Seq<BoardModifiedMessageView>,
) -> (T::Model, nat) {
    received_all::<T>((entity::replay::<T>(events), events.len()), queued)
}

/// Where a session stands.
#[derive(Debug)]
pub enum QueryState<T> {
    /// Before the replay: what was sent so far.
    Initial(Vec<BoardModifiedMessage>),
    /// After the replay: the view, and how far into the log it reaches.
    Live(T, usize),
}

/// Where a session stands, as mathematics.
pub enum QueryStateView<M> {
    Initial { queued: Seq<BoardModifiedMessageView> },
    Live { model: M, next: nat },
}

impl<T: HandleEvent<Event = BoardModifiedEvent>> QueryState<T> {
    /// The state as mathematics.
    pub open spec fn model(&self) -> QueryStateView<T::Model> {
        match self {
            QueryState::Initial(queued) => QueryStateView::Initial { queued: view::views(queued@) },
            QueryState::Live(state, next) => QueryStateView::Live {
                model: state.model(),
                next: *next as nat,
            },
        }
    }

    /// Whether the view takes as many events as there can be left in a log.
    pub open spec fn has_room(&self) -> bool {
        match self {
            QueryState::Initial(_) => true,
            QueryState::Live(state, next) => state.headroom() + *next >= usize::MAX,
        }
    }
}

/// The state after `message` was sent to the session.
pub open spec fn after_event<T: HandleEvent<Event = BoardModifiedEvent>>(
    state: QueryStateView<T::Model>,
    message: BoardModifiedMessageView,
) -> QueryStateView<T::Model> {
    match state {
        QueryStateView::Initial { queued } => QueryStateView::Initial {
            queued: queued.push(message),
        },
        QueryStateView::Live { model, next } => {
            let live = received::<T>((model, next), message);
            QueryStateView::Live { model: live.0, next: live.1 }
        },
    }
}

/// The state after the log `events` was replayed to the session. Only the
/// first replay counts.
pub open spec fn after_replay<T: HandleEvent<Event = BoardModifiedEvent>>(
    state: QueryStateView<T::Model>,
    events: Seq<BoardModifiedEventView>,
) -> QueryStateView<T::Model> {
    match state {
        QueryStateView::Initial { queued } => {
            let live = replayed::<T>(events, queued);
            QueryStateView::Live { model: live.0, next: live.1 }
        },
        QueryStateView::Live { .. } => state,
    }
}

fn receive<T: HandleEvent<Event = BoardModifiedEvent>>(
    state: &mut T,
    next: usize,
    message: &BoardModifiedMessage,
) -> (reached: usize)
    requires
        old(state).headroom() + next >= usize::MAX,
    ensures
        (final(state).model(), reached as nat) == received::<T>(
            (old(state).model(), next as nat),
            message@,
        ),
        final(state).headroom() + reached >= usize::MAX,
{
    if message.position == next && next < usize::MAX {
        state.apply(&message.event);
        next + 1
    } else {
        next
    }
}

/// A session that follows one board.
#[derive(Debug)]
pub struct CommandQuerySession<T: HandleEvent<Event = BoardModifiedEvent>> {
    board_id: BoardId,
    query: QueryState<T>,
    session_id: SessionId,
}

impl<T: HandleEvent<Event = BoardModifiedEvent>> CommandQuerySession<T> {
    #[verifier::type_invariant]
    closed spec fn well_formed(&self) -> bool {
        self.query.has_room()
    }

    /// Where the session stands.
    pub closed spec fn query(&self) -> QueryStateView<T::Model> {
        self.query.model()
    }

    /// The view of a session that has one.
    pub closed spec fn state(&self) -> T
        recommends
            self.query() is Live,
    {
        self.query->Live_0
    }

    /// The view of a session that has one is the view that its state speaks
    /// of.
    pub proof fn lemma_state(&self)
        requires
            self.query() is Live,
        ensures
            self.state().model() == self.query()->model,
    {
    }

    /// The board that the session follows.
    pub closed spec fn board(&self) -> Seq<char> {
        self.board_id@
    }

    /// The name of the session.
    pub closed spec fn id(&self) -> SessionId {
        self.session_id
    }

    /// A session of the board `board_id`, under a name drawn at random, that
    /// has been sent nothing.
    pub fn new(board_id: BoardId) -> (session: Self)
        ensures
            session.board() == board_id@,
            session.query() == (QueryStateView::<T::Model>::Initial { queued: Seq::empty() }),
    {
        Self::with_id(board_id, SessionId::new())
    }

    /// A session of the board `board_id` under the name `session_id` that has
    /// been sent nothing.
    pub fn with_id(board_id: BoardId, session_id: SessionId) -> (session: Self)
        ensures
            session.board() == board_id@,
            session.id() == session_id,
            session.query() == (QueryStateView::<T::Model>::Initial { queued: Seq::empty() }),
    {
        let session = Self { board_id, query: QueryState::Initial(Vec::new()), session_id };
        assert(session.query() =~= (QueryStateView::<T::Model>::Initial { queued: Seq::empty() }))
            by {
            assert(view::views(Seq::<BoardModifiedMessage>::empty()) =~= Seq::empty());
        }
        session
    }

    /// The board that the session follows.
    pub fn board_id(&self) -> (board_id: &BoardId)
        ensures
            board_id@ == self.board(),
    {
        &self.board_id
    }

    /// The name of the session.
    pub fn session_id(&self) -> (session_id: SessionId)
        ensures
            session_id == self.id(),
    {
        self.session_id
    }

    /// The view of the board, once the log has been replayed.
    pub fn live(&self) -> (state: Option<&T>)
        ensures
            match state {
                Some(state) => self.query() matches QueryStateView::Live { model, .. }
                    && state.model() == model,
                None => self.query() is Initial,
            },
    {
        match &self.query {
            QueryState::Initial(_) => None,
            QueryState::Live(state, _) => Some(state),
        }
    }

    fn take(&mut self) -> (query: QueryState<T>)
        ensures
            query == old(self).query,
            query.has_room(),
            final(self).board_id == old(self).board_id,
            final(self).session_id == old(self).session_id,
    {
        proof {
            use_type_invariant(&*self);
        }
        let mut query = QueryState::Initial(Vec::new());
        std::mem::swap(&mut self.query, &mut query);
        query
    }

    /// Takes one event of the board. Before the replay the event is kept;
    /// after it, the event is applied to the view if it is the next of the
    /// log, and dropped otherwise.
    pub fn handle_event(&mut self, message: BoardModifiedMessage)
        ensures
            final(self).query() == after_event::<T>(old(self).query(), message@),
            final(self).board() == old(self).board(),
            final(self).id() == old(self).id(),
    {
        let next = match self.take() {
            QueryState::Initial(queued) => {
                let mut queued = queued;
                proof {
                    view::lemma_views_push(queued@, message);
                }
                queued.push(message);
                QueryState::Initial(queued)
            },
            QueryState::Live(state, next) => {
                let mut state = state;
                let reached = receive(&mut state, next, &message);
                QueryState::Live(state, reached)
            },
        };
        self.query = next;
    }

    /// Takes the replay of the log. The first replay gives the session its
    /// view: the fold of the replayed log, continued by what the session had
    /// kept and the replay does not cover. A later replay changes nothing.
    pub fn replay(&mut self, events: ReplayMessage)
        ensures
            final(self).query() == after_replay::<T>(old(self).query(), events@),
            final(self).board() == old(self).board(),
            final(self).id() == old(self).id(),
    {
        let next = match self.take() {
            QueryState::Initial(queued) => {
                let mut state = T::source(events.0.as_slice());
                let mut reached: usize = events.0.len();
                let mut i: usize = 0;
                while i < queued.len()
                    invariant
                        i <= queued@.len(),
                        (state.model(), reached as nat) == received_all::<T>(
                            (entity::replay::<T>(events@), events@.len()),
                            view::views(queued@).take(i as int),
                        ),
                        state.headroom() + reached >= usize::MAX,
                    decreases queued@.len() - i,
                {
                    proof {
                        let kept = view::views(queued@);
                        assert(kept.take(i + 1).drop_last() =~= kept.take(i as int));
                    }
                    reached = receive(&mut state, reached, &queued[i]);
                    i += 1;
                }
                QueryState::Live(state, reached)
            },
            QueryState::Live(state, next) => QueryState::Live(state, next),
        };
        self.query = next;
    }
}

impl<T: HandleEvent<Event = BoardModifiedEvent> + Clone + PartialEq> CommandQuerySession<T> {
    /// Takes one event of the board, as `handle_event` does, and says what
    /// the client is to be sent: a copy of the view, if the session has one
    /// and the event changed it.
    pub fn handle_message(&mut self, message: BoardModifiedMessage) -> (update: Option<T>)
        ensures
            final(self).query() == after_event::<T>(old(self).query(), message@),
            final(self).board() == old(self).board(),
            final(self).id() == old(self).id(),
            update matches Some(copy) ==> final(self).query() is Live && cloned(
                final(self).state(),
                copy,
            ),
            old(self).query() is Initial ==> update is None,
            old(self).query() is Live && T::obeys_eq_spec() ==> exists|previous: T| #[trigger]
                cloned(old(self).state(), previous) && (update is None <==> previous.eq_spec(
                    &final(self).state(),
                )),
    {
        let (next, update) = match self.take() {
            QueryState::Initial(queued) => {
                let mut queued = queued;
                proof {
                    view::lemma_views_push(queued@, message);
                }
                queued.push(message);
                (QueryState::Initial(queued), None)
            },
            QueryState::Live(state, next) => {
                let previous = state.clone();
                let mut state = state;
                let reached = receive(&mut state, next, &message);
                let update = if previous == state {
                    None
                } else {
                    Some(state.clone())
                };
                assert(cloned(old(self).state(), previous) && (T::obeys_eq_spec() ==> (update
                    is None <==> previous.eq_spec(&state))));
                (QueryState::Live(state, reached), update)
            },
        };
        self.query = next;
        update
    }

    /// Takes the replay of the log, as `replay` does, and says what the client
    /// is to be sent: a copy of the view.
    pub fn handle_replay(&mut self, events: ReplayMessage) -> (update: T)
        ensures
            final(self).query() == after_replay::<T>(old(self).query(), events@),
            final(self).query() is Live,
            final(self).board() == old(self).board(),
            final(self).id() == old(self).id(),
            cloned(final(self).state(), update),
    {
        self.replay(events);
        match &self.query {
            QueryState::Initial(_) => {
                T::default()
            },
            QueryState::Live(state, _) => {
                state.clone()
            },
        }
    }
}

/// The answer to a command, for the session that sent it under `key`.
#[derive(Debug)]
pub enum CommandResultMessage {
    Success { events: Vec<BoardModifiedEvent>, key: usize },
    Error { key: usize },
}

impl CommandResultMessage {
    /// The answer to the command that was sent under `key` and came to
    /// `outcome`: the events of a command that was run, and an error without
    /// details for one that could not be run.
    pub fn from_outcome<E>(key: usize, outcome: Result<Vec<BoardModifiedEvent>, E>) -> (message: Self)
        ensures
            match outcome {
                Ok(events) => message == (CommandResultMessage::Success { events, key }),
                Err(_) => message == (CommandResultMessage::Error { key }),
            },
    {
        match outcome {
            Ok(events) => CommandResultMessage::Success { events, key },
            Err(_) => CommandResultMessage::Error { key },
        }
    }
}

/// A command as a client sends it: under a key of the client's choice, by
/// which the answer is told apart from others.
#[derive(Debug)]
pub struct Command {
    pub key: usize,
    pub command: BoardCommand,
}

/// A command on its way to the one who runs the commands.
#[derive(Debug)]
pub struct CommandMessage {
    pub board_id: BoardId,
    pub command: BoardCommand,
    pub key: usize,
    pub session_id: SessionId,
}

/// What a client is sent.
#[derive(Debug)]
pub enum Response<T> {
    Command(CommandResultMessage),
    QueryUpdate(T),
    Error(String),
}

impl<T: HandleEvent<Event = BoardModifiedEvent>> CommandQuerySession<T> {
    /// The message that carries a command of the client to the one who runs
    /// the commands: for the board of this session, to be answered to this
    /// session.
    pub fn command_message(&self, command: Command) -> (message: CommandMessage)
        ensures
            message.board_id@ == self.board(),
            message.session_id == self.id(),
            message.key == command.key,
            message.command == command.command,
    {
        CommandMessage {
            board_id: self.board_id.clone(),
            command: command.command,
            key: command.key,
            session_id: self.session_id,
        }
    }
}

/// The one who runs the commands of all sessions, one after another.
pub struct UseCaseServer<S> {
    use_case: UseCase<S>,
}

impl<S: RetryStrategy> UseCaseServer<S> {
    /// The use case that runs the commands.
    pub closed spec fn use_case(&self) -> UseCase<S> {
        self.use_case
    }

    pub fn new(use_case: UseCase<S>) -> (server: Self)
        ensures
            server.use_case() == use_case,
    {
        Self { use_case }
    }

    /// The use case that runs the commands.
    pub fn runner(&self) -> (use_case: &UseCase<S>)
        ensures
            *use_case == self.use_case(),
    {
        &self.use_case
    }

    /// What is sent to the session that sent `message`, once the command has
    /// come to `outcome`.
    pub fn respond<E>(&self, message: &CommandMessage, outcome: Result<Vec<BoardModifiedEvent>, E>) -> (answer: (
        SessionId,
        CommandResultMessage,
    ))
        ensures
            answer.0 == message.session_id,
            match outcome {
                Ok(events) => answer.1 == (CommandResultMessage::Success {
                    events,
                    key: message.key,
                }),
                Err(_) => answer.1 == (CommandResultMessage::Error { key: message.key }),
            },
    {
        (message.session_id, CommandResultMessage::from_outcome(message.key, outcome))
    }
}

/// Whether every message of `messages` carries the event that `log` holds at
/// the position of the message.
pub open spec fn taken_from(
    messages: Seq<BoardModifiedMessageView>,
    log: Seq<BoardModifiedEventView>,
) -> bool {
    forall|i: int|
        0 <= i < messages.len() ==> (#[trigger] messages[i]).position < log.len() && messages[i].event
            == log[messages[i].position as int]
}

/// The events at the positions from `from` on, as the messages that carry
/// them.
pub open spec fn messages_from(log: Seq<BoardModifiedEventView>, from: nat) -> Seq<
    BoardModifiedMessageView,
> {
    Seq::new(
        (log.len() - from) as nat,
        |i: int| BoardModifiedMessageView { position: (from + i) as nat, event: log[from + i] },
    )
}

/// The state of a session that was sent `messages` before any replay.
pub open spec fn after_events<T: HandleEvent<Event = BoardModifiedEvent>>(
    state: QueryStateView<T::Model>,
    messages: Seq<BoardModifiedMessageView>,
) -> QueryStateView<T::Model> {
    messages.fold_left(
        state,
        |state: QueryStateView<T::Model>, message: BoardModifiedMessageView|
            after_event::<T>(state, message),
    )
}

/// A view follows the log. If it is the fold of the first `next` events of
/// `log`, then after any messages that carry events of `log` it is the fold
/// of the first events of `log` again, of as many as it then covers: no event
/// is applied twice, none is left out, and the events are applied in the
/// order of the log.
pub proof fn lemma_view_follows_log<T: HandleEvent<Event = BoardModifiedEvent>>(
    log: Seq<BoardModifiedEventView>,
    next: nat,
    messages: Seq<BoardModifiedMessageView>,
)
    requires
        next <= log.len(),
        taken_from(messages, log),
    ensures
        ({
            let live = received_all::<T>(
                (entity::replay::<T>(log.take(next as int)), next),
                messages,
            );
            next <= live.1 <= log.len() && live.0 == entity::replay::<T>(log.take(live.1 as int))
        }),
    decreases messages.len(),
{
    if messages.len() > 0 {
        let earlier = messages.drop_last();
        lemma_view_follows_log::<T>(log, next, earlier);
        let before = received_all::<T>(
            (entity::replay::<T>(log.take(next as int)), next),
            earlier,
        );
        let message = messages.last();
        if continues(before.1, message) {
            assert(log.take(before.1 as int + 1) =~= log.take(before.1 as int).push(
                log[before.1 as int],
            ));
            entity::lemma_replay_push::<T>(log.take(before.1 as int), log[before.1 as int]);
        }
    }
}

/// What a session is sent before the replay is kept, in the order in which it
/// came.
pub proof fn lemma_events_before_replay_are_kept<T: HandleEvent<Event = BoardModifiedEvent>>(
    queued: Seq<BoardModifiedMessageView>,
    messages: Seq<BoardModifiedMessageView>,
)
    ensures
        after_events::<T>(QueryStateView::Initial { queued }, messages) == (
        QueryStateView::<T::Model>::Initial { queued: queued + messages }),
    decreases messages.len(),
{
    if messages.len() > 0 {
        lemma_events_before_replay_are_kept::<T>(queued, messages.drop_last());
        assert((queued + messages.drop_last()).push(messages.last()) =~= queued + messages);
    }
}

/// A session that is sent the events of a log from some position on and then
/// the log itself as a replay ends with the same view as a session that is
/// sent the replay alone: the fold of the log. The replay stands for the
/// positions that it covers.
pub proof fn lemma_replay_after_live_events<T: HandleEvent<Event = BoardModifiedEvent>>(
    log: Seq<BoardModifiedEventView>,
    from: nat,
)
    requires
        from <= log.len(),
    ensures
        after_replay::<T>(
            after_events::<T>(
                QueryStateView::Initial { queued: Seq::empty() },
                messages_from(log, from),
            ),
            log,
        ) == after_replay::<T>(QueryStateView::Initial { queued: Seq::empty() }, log),
        after_replay::<T>(QueryStateView::Initial { queued: Seq::empty() }, log) == (
        QueryStateView::<T::Model>::Live { model: entity::replay::<T>(log), next: log.len() }),
{
    let messages = messages_from(log, from);
    lemma_events_before_replay_are_kept::<T>(Seq::empty(), messages);
    lemma_covered_messages_are_dropped::<T>(entity::replay::<T>(log), log.len(), messages);
}

/// Messages for positions that a view covers already change nothing.
pub proof fn lemma_covered_messages_are_dropped<T: HandleEvent<Event = BoardModifiedEvent>>(
    model: T::Model,
    next: nat,
    messages: Seq<BoardModifiedMessageView>,
)
    requires
        forall|i: int| 0 <= i < messages.len() ==> (#[trigger] messages[i]).position < next,
    ensures
        received_all::<T>((model, next), messages) == (model, next),
    decreases messages.len(),
{
    if messages.len() > 0 {
        let earlier = messages.drop_last();
        lemma_covered_messages_are_dropped::<T>(model, next, earlier);
    }
}

/// A session that is sent a log as a replay after it was sent the events
/// that follow the log ends with the view of the whole: with the fold of the
/// log and of the events that follow it.
pub proof fn lemma_replay_before_live_events<T: HandleEvent<Event = BoardModifiedEvent>>(
    log: Seq<BoardModifiedEventView>,
    from: nat,
)
    requires
        from <= log.len(),
        log.len() <= usize::MAX,
    ensures
        after_replay::<T>(
            QueryStateView::Initial { queued: messages_from(log, from) },
            log.take(from as int),
        ) == (QueryStateView::<T::Model>::Live {
            model: entity::replay::<T>(log),
            next: log.len(),
        }),
{
    let messages = messages_from(log, from);
    lemma_messages_in_order_are_applied::<T>(log, from, messages.len());
}

/// Messages that carry the events of a log from where a view ends, in the
/// order of the log, are all applied.
pub proof fn lemma_messages_in_order_are_applied<T: HandleEvent<Event = BoardModifiedEvent>>(
    log: Seq<BoardModifiedEventView>,
    from: nat,
    count: nat,
)
    requires
        from + count <= log.len(),
        log.len() <= usize::MAX,
    ensures
        received_all::<T>(
            (entity::replay::<T>(log.take(from as int)), from),
            messages_from(log, from).take(count as int),
        ) == (entity::replay::<T>(log.take((from + count) as int)), from + count),
    decreases count,
{
    let messages = messages_from(log, from);
    if count > 0 {
        lemma_messages_in_order_are_applied::<T>(log, from, (count - 1) as nat);
        assert(messages.take(count as int).drop_last() =~= messages.take(count - 1));
        let reached = (from + count - 1) as nat;
        assert(log.take(reached as int + 1) =~= log.take(reached as int).push(log[reached as int]));
        entity::lemma_replay_push::<T>(log.take(reached as int), log[reached as int]);
    }
}

} // verus!
