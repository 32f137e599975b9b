//! The broker: the subscribers of every board and what they are owed.
use vstd::prelude::*;
use crate::command::event::{BoardModifiedEvent, BoardModifiedEventView};
use crate::util::keyed;
use crate::util::keyed::KeyedList;
use crate::util::view;

verus! {

/// Names one session for the lifetime of the process.
#[derive(Debug, Clone, Copy, PartialEq, Eq, Hash, Structural)]
pub struct SessionId(pub usize);

/// A random number.
///
/// Calls `rand::random::<usize>`. Every number may come back, so nothing is
/// claimed of the result.
#[verifier::external_body]
fn random_number() -> (number: usize) {
    rand::random::<usize>()
}

impl SessionId {
    /// An id drawn at random.
    pub fn new() -> (id: Self) {
        Self(random_number())
    }
}

/// Names one board.
#[derive(Debug, Hash)]
pub struct BoardId(String);

impl View for BoardId {
    type V = Seq<char>;

    closed spec fn view(&self) -> Seq<char> {
        self.0@
    }
}

impl BoardId {
    pub fn new(board_id: String) -> (id: Self)
        ensures
            id@ == board_id@,
    {
        Self(board_id)
    }

    /// The key of the board's log.
    pub fn to_string(&self) -> (key: String)
        ensures
            key@ == self@,
    {
        self.0.clone()
    }

    /// The key of the board's log.
    pub fn as_str(&self) -> (key: &str)
        ensures
            key@ == self@,
    {
        self.0.as_str()
    }
}

impl Clone for BoardId {
    fn clone(&self) -> (copy: Self)
        ensures
            copy@ == self@,
    {
        Self(self.0.clone())
    }
}

impl PartialEq for BoardId {
    fn eq(&self, other: &Self) -> (equal: bool) {
        self.0 == other.0
    }
}

impl vstd::std_specs::cmp::PartialEqSpecImpl for BoardId {
    open spec fn obeys_eq_spec() -> bool {
        true
    }

    open spec fn eq_spec(&self, other: &Self) -> bool {
        self@ == other@
    }
}

impl Eq for BoardId {

}

/// One event of a board's log on its way to a subscriber, with its position
/// in the log.
#[derive(Debug)]
pub struct BoardModifiedMessage {
    pub position: usize,
    pub event: BoardModifiedEvent,
}

/// A message as mathematics.
pub struct BoardModifiedMessageView {
    pub position: nat,
    pub event: BoardModifiedEventView,
}

impl View for BoardModifiedMessage {
    type V = BoardModifiedMessageView;

    open spec fn view(&self) -> BoardModifiedMessageView {
        BoardModifiedMessageView { position: self.position as nat, event: self.event@ }
    }
}

impl BoardModifiedMessage {
    pub fn new(position: usize, event: BoardModifiedEvent) -> (message: Self)
        ensures
            message@ == (BoardModifiedMessageView { position: position as nat, event: event@ }),
    {
        Self { position, event }
    }
}

impl Clone for BoardModifiedMessage {
    fn clone(&self) -> (copy: Self)
        ensures
            copy@ == self@,
    {
        Self { position: self.position, event: self.event.clone() }
    }
}

/// The log of a board from its first event, on its way to a subscriber that
/// asked for a replay.
#[derive(Debug)]
pub struct ReplayMessage(pub Vec<BoardModifiedEvent>);

impl View for ReplayMessage {
    type V = Seq<BoardModifiedEventView>;

    open spec fn view(&self) -> Seq<BoardModifiedEventView> {
        view::views(self.0@)
    }
}

/// A session subscribes to a board.
#[derive(Debug)]
pub struct Connect {
    pub session_id: SessionId,
    pub board_id: BoardId,
}

impl Connect {
    pub fn new(session_id: SessionId, board_id: BoardId) -> (message: Self)
        ensures
            message.session_id == session_id,
            message.board_id@ == board_id@,
    {
        Self { session_id, board_id }
    }
}

/// A session leaves every board.
#[derive(Debug, Clone, Copy)]
pub struct Disconnect {
    pub session_id: SessionId,
}

impl Disconnect {
    pub fn new(session_id: SessionId) -> (message: Self)
        ensures
            message.session_id == session_id,
    {
        Self { session_id }
    }
}

/// A session asks for the log of a board from its first event.
#[derive(Debug)]
pub struct Replay {
    pub board_id: BoardId,
    pub session_id: SessionId,
}

impl Replay {
    pub fn new(board_id: BoardId, session_id: SessionId) -> (message: Self)
        ensures
            message.session_id == session_id,
            message.board_id@ == board_id@,
    {
        Self { board_id, session_id }
    }
}

/// A copy of `events`.
pub fn clone_events(events: &Vec<BoardModifiedEvent>) -> (copy: Vec<BoardModifiedEvent>)
    ensures
        view::views(copy@) == view::views(events@),
{
    let mut copy: Vec<BoardModifiedEvent> = Vec::new();
    let mut i: usize = 0;
    while i < events.len()
        invariant
            i <= events@.len(),
            copy@.len() == i,
            forall|j: int| 0 <= j < i ==> copy@[j]@ == events@[j]@,
        decreases events@.len() - i,
    {
        copy.push(events[i].clone());
        i += 1;
    }
    copy
}

/// `message` once for every session, in the order of the sessions.
pub open spec fn fan(sessions: Seq<SessionId>, message: BoardModifiedMessageView) -> Seq<
    (SessionId, BoardModifiedMessageView),
> {
    Seq::new(sessions.len(), |i: int| (sessions[i], message))
}

/// What is sent to broadcast the events at the positions from `from` up to
/// `to`: the events in the order of the log, and each event to every session
/// before the next event is sent to anyone.
pub open spec fn broadcast(
    events: Seq<BoardModifiedEventView>,
    sessions: Seq<SessionId>,
    from: nat,
    to: nat,
) -> Seq<(SessionId, BoardModifiedMessageView)>
    decreases to,
{
    if to <= from || to > events.len() {
        Seq::empty()
    } else {
        broadcast(events, sessions, from, (to - 1) as nat) + fan(
            sessions,
            BoardModifiedMessageView { position: (to - 1) as nat, event: events[to - 1] },
        )
    }
}

/// `events` once for every session that waits for a replay, in their order.
pub open spec fn replays(waiters: Seq<SessionId>, events: Seq<BoardModifiedEventView>) -> Seq<
    (SessionId, Seq<BoardModifiedEventView>),
> {
    Seq::new(waiters.len(), |i: int| (waiters[i], events))
}

/// `sessions` with `session_id` among them.
pub open spec fn with_session(sessions: Seq<SessionId>, session_id: SessionId) -> Seq<SessionId> {
    if sessions.contains(session_id) {
        sessions
    } else {
        sessions.push(session_id)
    }
}

/// Whether a session is another one than `session_id`.
pub open spec fn other_than(session_id: SessionId) -> spec_fn(SessionId) -> bool {
    |session: SessionId| session != session_id
}

/// `sessions` without `session_id`.
pub open spec fn without_session(sessions: Seq<SessionId>, session_id: SessionId) -> Seq<
    SessionId,
> {
    sessions.filter(other_than(session_id))
}

/// What the broker knows of one board.
pub enum BoardStateView {
    /// No events are known and nobody has asked for a replay.
    Empty { sessions: Seq<SessionId> },
    /// No events are known, and `waiters` have asked for a replay.
    Replay { sessions: Seq<SessionId>, waiters: Seq<SessionId> },
    /// `events` are known, and those before `loc` have been broadcast.
    Loaded { sessions: Seq<SessionId>, events: Seq<BoardModifiedEventView>, loc: nat },
}

impl BoardStateView {
    /// The subscribers of the board.
    pub open spec fn sessions(self) -> Seq<SessionId> {
        match self {
            BoardStateView::Empty { sessions } => sessions,
            BoardStateView::Replay { sessions, .. } => sessions,
            BoardStateView::Loaded { sessions, .. } => sessions,
        }
    }

    /// The board with `sessions` as its subscribers and all else unchanged.
    pub open spec fn with_sessions(self, sessions: Seq<SessionId>) -> BoardStateView {
        match self {
            BoardStateView::Empty { .. } => BoardStateView::Empty { sessions },
            BoardStateView::Replay { waiters, .. } => BoardStateView::Replay { sessions, waiters },
            BoardStateView::Loaded { events, loc, .. } => BoardStateView::Loaded {
                sessions,
                events,
                loc,
            },
        }
    }

    /// The board once `events` are known to be its log. The first log that
    /// becomes known counts as broadcast already; a later one leaves the mark
    /// of what was broadcast where it is.
    pub open spec fn update_events(self, events: Seq<BoardModifiedEventView>) -> BoardStateView {
        match self {
            BoardStateView::Empty { sessions } => BoardStateView::Loaded {
                sessions,
                events,
                loc: events.len(),
            },
            BoardStateView::Replay { sessions, .. } => BoardStateView::Loaded {
                sessions,
                events,
                loc: events.len(),
            },
            BoardStateView::Loaded { sessions, loc, .. } => BoardStateView::Loaded {
                sessions,
                events,
                loc,
            },
        }
    }

    /// The replays that are sent when `events` become known: one to every
    /// session that waits for it.
    pub open spec fn replays_on_update(self, events: Seq<BoardModifiedEventView>) -> Seq<
        (SessionId, Seq<BoardModifiedEventView>),
    > {
        match self {
            BoardStateView::Replay { waiters, .. } => replays(waiters, events),
            _ => Seq::empty(),
        }
    }

    /// The board once everything known has been broadcast.
    pub open spec fn broadcast_changes(self) -> BoardStateView {
        match self {
            BoardStateView::Loaded { sessions, events, .. } => BoardStateView::Loaded {
                sessions,
                events,
                loc: events.len(),
            },
            _ => self,
        }
    }

    /// What is sent to broadcast the events that have not been broadcast yet.
    pub open spec fn changes(self) -> Seq<(SessionId, BoardModifiedMessageView)> {
        match self {
            BoardStateView::Loaded { sessions, events, loc } => broadcast(
                events,
                sessions,
                loc,
                events.len(),
            ),
            _ => Seq::empty(),
        }
    }

    /// The board once `session_id` has asked for a replay.
    pub open spec fn replay_onto(self, session_id: SessionId) -> BoardStateView {
        match self {
            BoardStateView::Empty { sessions } => BoardStateView::Replay {
                sessions,
                waiters: seq![session_id],
            },
            BoardStateView::Replay { sessions, waiters } => BoardStateView::Replay {
                sessions,
                waiters: waiters.push(session_id),
            },
            BoardStateView::Loaded { .. } => self,
        }
    }

    /// The replay that is sent at once when a session asks for one: the known
    /// log, if one is known.
    pub open spec fn replay_at_once(self) -> Option<Seq<BoardModifiedEventView>> {
        match self {
            BoardStateView::Loaded { events, .. } => Some(events),
            _ => None,
        }
    }
}

/// A board whose log is known.
#[derive(Debug)]
pub struct Board {
    events: Vec<BoardModifiedEvent>,
    sessions: Vec<SessionId>,
    loc: usize,
}

/// A board of which nothing is known yet.
#[derive(Debug)]
pub struct EmptyBoard {
    sessions: Vec<SessionId>,
}

/// A board of which nothing is known yet, with sessions that wait for its
/// log.
#[derive(Debug)]
pub struct ReplayBoard {
    sessions: Vec<SessionId>,
    replay_addr: Vec<SessionId>,
}

impl ReplayBoard {
    fn add_replay_addr(&mut self, addr: SessionId)
        ensures
            final(self).replay_addr@ == old(self).replay_addr@.push(addr),
            final(self).sessions@ == old(self).sessions@,
    {
        self.replay_addr.push(addr);
    }

    fn replay(&self, events: &Vec<BoardModifiedEvent>) -> (sent: Vec<(SessionId, ReplayMessage)>)
        ensures
            view_replays(sent@) == replays(self.replay_addr@, view::views(events@)),
    {
        let mut sent: Vec<(SessionId, ReplayMessage)> = Vec::new();
        let mut i: usize = 0;
        while i < self.replay_addr.len()
            invariant
                i <= self.replay_addr@.len(),
                sent@.len() == i,
                forall|j: int|
                    0 <= j < i ==> sent@[j].0 == self.replay_addr@[j] && sent@[j].1@
                        == view::views(events@),
            decreases self.replay_addr@.len() - i,
        {
            sent.push((self.replay_addr[i], ReplayMessage(clone_events(events))));
            i += 1;
        }
        sent
    }
}

/// The replays that are sent, as mathematics.
pub open spec fn view_replays(sent: Seq<(SessionId, ReplayMessage)>) -> Seq<
    (SessionId, Seq<BoardModifiedEventView>),
> {
    Seq::new(sent.len(), |i: int| (sent[i].0, sent[i].1@))
}

/// The messages that are sent, as mathematics.
pub open spec fn view_messages(sent: Seq<(SessionId, BoardModifiedMessage)>) -> Seq<
    (SessionId, BoardModifiedMessageView),
> {
    Seq::new(sent.len(), |i: int| (sent[i].0, sent[i].1@))
}

/// What the broker knows of one board.
#[derive(Debug)]
pub enum BoardState {
    Empty(EmptyBoard),
    Replay(ReplayBoard),
    Loaded(Board),
}

impl View for BoardState {
    type V = BoardStateView;

    closed spec fn view(&self) -> BoardStateView {
        match self {
            BoardState::Empty(board) => BoardStateView::Empty { sessions: board.sessions@ },
            BoardState::Replay(board) => BoardStateView::Replay {
                sessions: board.sessions@,
                waiters: board.replay_addr@,
            },
            BoardState::Loaded(board) => BoardStateView::Loaded {
                sessions: board.sessions@,
                events: view::views(board.events@),
                loc: board.loc as nat,
            },
        }
    }
}

impl Default for BoardState {
    fn default() -> (state: Self)
        ensures
            state@ == (BoardStateView::Empty { sessions: Seq::empty() }),
    {
        Self::new()
    }
}

fn sessions_with(sessions: Vec<SessionId>, session_id: SessionId) -> (added: Vec<SessionId>)
    ensures
        added@ == with_session(sessions@, session_id),
{
    let mut added = sessions;
    let mut i: usize = 0;
    while i < added.len()
        invariant
            added == sessions,
            i <= added@.len(),
            forall|j: int| 0 <= j < i ==> added@[j] != session_id,
        decreases added@.len() - i,
    {
        if added[i] == session_id {
            return added;
        }
        i += 1;
    }
    added.push(session_id);
    added
}

fn sessions_without(sessions: &Vec<SessionId>, session_id: SessionId) -> (kept: Vec<SessionId>)
    ensures
        kept@ == without_session(sessions@, session_id),
{
    let mut kept: Vec<SessionId> = Vec::new();
    let ghost other = other_than(session_id);
    let mut i: usize = 0;
    while i < sessions.len()
        invariant
            i <= sessions@.len(),
            other == other_than(session_id),
            kept@ == sessions@.take(i as int).filter(other),
        decreases sessions@.len() - i,
    {
        proof {
            assert(sessions@.take(i + 1) =~= sessions@.take(i as int).push(sessions@[i as int]));
            sessions@.take(i as int).lemma_filter_push(sessions@[i as int], other);
        }
        if sessions[i] != session_id {
            kept.push(sessions[i]);
        }
        i += 1;
    }
    assert(sessions@.take(i as int) =~= sessions@);
    kept
}

impl BoardState {
    /// A board without subscribers of which nothing is known.
    pub fn new() -> (state: Self)
        ensures
            state@ == (BoardStateView::Empty { sessions: Seq::empty() }),
    {
        Self::Empty(EmptyBoard { sessions: Vec::new() })
    }

    fn take(&mut self) -> (state: Self)
        ensures
            state == *old(self),
    {
        let mut state = BoardState::Empty(EmptyBoard { sessions: Vec::new() });
        std::mem::swap(self, &mut state);
        state
    }

    /// Makes `session_id` a subscriber of the board.
    pub fn add_session(&mut self, session_id: SessionId)
        ensures
            final(self)@ == old(self)@.with_sessions(
                with_session(old(self)@.sessions(), session_id),
            ),
    {
        let next = match self.take() {
            BoardState::Empty(board) => BoardState::Empty(
                EmptyBoard { sessions: sessions_with(board.sessions, session_id) },
            ),
            BoardState::Loaded(board) => BoardState::Loaded(
                Board {
                    events: board.events,
                    sessions: sessions_with(board.sessions, session_id),
                    loc: board.loc,
                },
            ),
            BoardState::Replay(board) => BoardState::Replay(
                ReplayBoard {
                    sessions: sessions_with(board.sessions, session_id),
                    replay_addr: board.replay_addr,
                },
            ),
        };
        *self = next;
    }

    /// Takes `session_id` from the subscribers of the board.
    pub fn remove_session(&mut self, session_id: &SessionId)
        ensures
            final(self)@ == old(self)@.with_sessions(
                without_session(old(self)@.sessions(), *session_id),
            ),
    {
        let next = match self.take() {
            BoardState::Empty(board) => BoardState::Empty(
                EmptyBoard { sessions: sessions_without(&board.sessions, *session_id) },
            ),
            BoardState::Loaded(board) => BoardState::Loaded(
                Board {
                    events: board.events,
                    sessions: sessions_without(&board.sessions, *session_id),
                    loc: board.loc,
                },
            ),
            BoardState::Replay(board) => BoardState::Replay(
                ReplayBoard {
                    sessions: sessions_without(&board.sessions, *session_id),
                    replay_addr: board.replay_addr,
                },
            ),
        };
        *self = next;
    }

    /// Whether the board has no subscriber left.
    pub fn is_orphaned(&self) -> (orphaned: bool)
        ensures
            orphaned == (self@.sessions().len() == 0),
    {
        match self {
            BoardState::Empty(board) => board.sessions.len() == 0,
            BoardState::Loaded(board) => board.sessions.len() == 0,
            BoardState::Replay(board) => board.sessions.len() == 0,
        }
    }

    /// Takes `events` as the log of the board, and says which replays are to
    /// be sent now: one to every session that has waited for the log.
    pub fn update_events(&mut self, events: Vec<BoardModifiedEvent>) -> (sent: Vec<
        (SessionId, ReplayMessage),
    >)
        ensures
            final(self)@ == old(self)@.update_events(view::views(events@)),
            view_replays(sent@) == old(self)@.replays_on_update(view::views(events@)),
    {
        let (next, sent) = match self.take() {
            BoardState::Empty(board) => {
                let loc = events.len();
                (
                    BoardState::Loaded(Board { events, sessions: board.sessions, loc }),
                    Vec::new(),
                )
            },
            BoardState::Replay(board) => {
                let sent = board.replay(&events);
                let loc = events.len();
                (BoardState::Loaded(Board { events, sessions: board.sessions, loc }), sent)
            },
            BoardState::Loaded(board) => (
                BoardState::Loaded(Board { events, sessions: board.sessions, loc: board.loc }),
                Vec::new(),
            ),
        };
        *self = next;
        sent
    }

    /// Says what is to be sent to broadcast the events that have not been
    /// broadcast yet, and marks them as broadcast.
    pub fn broadcast_changes(&mut self) -> (sent: Vec<(SessionId, BoardModifiedMessage)>)
        ensures
            final(self)@ == old(self)@.broadcast_changes(),
            view_messages(sent@) == old(self)@.changes(),
    {
        let (next, sent) = match self.take() {
            BoardState::Empty(board) => (BoardState::Empty(board), Vec::new()),
            BoardState::Replay(board) => (BoardState::Replay(board), Vec::new()),
            BoardState::Loaded(board) => {
                let mut sent: Vec<(SessionId, BoardModifiedMessage)> = Vec::new();
                let ghost events = view::views(board.events@);
                let ghost from = board.loc as nat;
                let mut position: usize = board.loc;
                while position < board.events.len()
                    invariant
                        board.loc <= position,
                        events == view::views(board.events@),
                        from == board.loc,
                        view_messages(sent@) == broadcast(
                            events,
                            board.sessions@,
                            from,
                            if position <= events.len() {
                                position as nat
                            } else {
                                events.len()
                            },
                        ),
                    decreases board.events@.len() - position,
                {
                    let ghost before = view_messages(sent@);
                    let ghost message = BoardModifiedMessageView {
                        position: position as nat,
                        event: events[position as int],
                    };
                    let mut i: usize = 0;
                    while i < board.sessions.len()
                        invariant
                            i <= board.sessions@.len(),
                            position < board.events@.len(),
                            events == view::views(board.events@),
                            message == (BoardModifiedMessageView {
                                position: position as nat,
                                event: events[position as int],
                            }),
                            view_messages(sent@) == before + fan(board.sessions@, message).take(
                                i as int,
                            ),
                        decreases board.sessions@.len() - i,
                    {
                        let ghost so_far = sent@;
                        let next = BoardModifiedMessage::new(
                            position,
                            board.events[position].clone(),
                        );
                        sent.push((board.sessions[i], next));
                        i += 1;
                        assert(view_messages(sent@) =~= view_messages(so_far).push(
                            (board.sessions@[i - 1], message),
                        ));
                    }
                    position += 1;
                }
                let loc = board.events.len();
                (
                    BoardState::Loaded(
                        Board { events: board.events, sessions: board.sessions, loc },
                    ),
                    sent,
                )
            },
        };
        *self = next;
        sent
    }

    /// Takes the request of `session_id` for a replay. Where the log is known
    /// the replay is to be sent at once; otherwise the session waits for the
    /// log.
    pub fn replay_onto(&mut self, session_id: SessionId) -> (sent: Option<ReplayMessage>)
        ensures
            final(self)@ == old(self)@.replay_onto(session_id),
            match sent {
                Some(message) => old(self)@.replay_at_once() == Some(message@),
                None => old(self)@.replay_at_once() is None,
            },
    {
        let (next, sent) = match self.take() {
            BoardState::Empty(board) => {
                let mut replay_addr: Vec<SessionId> = Vec::new();
                replay_addr.push(session_id);
                (BoardState::Replay(ReplayBoard { sessions: board.sessions, replay_addr }), None)
            },
            BoardState::Replay(board) => {
                let mut board = board;
                board.add_replay_addr(session_id);
                (BoardState::Replay(board), None)
            },
            BoardState::Loaded(board) => {
                let message = ReplayMessage(clone_events(&board.events));
                (BoardState::Loaded(board), Some(message))
            },
        };
        *self = next;
        sent
    }
}

/// The boards after `session_id` has left: it subscribes to none of them, and
/// the boards that are left without a subscriber are gone.
pub open spec fn disconnected(
    boards: Seq<(Seq<char>, BoardStateView)>,
    session_id: SessionId,
) -> Seq<(Seq<char>, BoardStateView)>
    decreases boards.len(),
{
    if boards.len() == 0 {
        Seq::empty()
    } else {
        let earlier = disconnected(boards.drop_last(), session_id);
        let sessions = without_session(boards.last().1.sessions(), session_id);
        if sessions.len() == 0 {
            earlier
        } else {
            earlier.push((boards.last().0, boards.last().1.with_sessions(sessions)))
        }
    }
}

/// What is sent to broadcast what is new on all `boards`: board after board.
pub open spec fn all_changes(boards: Seq<(Seq<char>, BoardStateView)>) -> Seq<
    (SessionId, BoardModifiedMessageView),
>
    decreases boards.len(),
{
    if boards.len() == 0 {
        Seq::empty()
    } else {
        all_changes(boards.drop_last()) + boards.last().1.changes()
    }
}

/// The boards once everything known has been broadcast.
pub open spec fn all_broadcast(boards: Seq<(Seq<char>, BoardStateView)>) -> Seq<
    (Seq<char>, BoardStateView),
> {
    Seq::new(boards.len(), |i: int| (boards[i].0, boards[i].1.broadcast_changes()))
}

/// Whether every board has a subscriber.
pub open spec fn no_orphans(boards: Seq<(Seq<char>, BoardStateView)>) -> bool {
    forall|i: int| 0 <= i < boards.len() ==> (#[trigger] boards[i]).1.sessions().len() > 0
}

/// The board under `board_id`, or a fresh one.
pub open spec fn board_or_fresh(boards: Seq<(Seq<char>, BoardStateView)>, board_id: Seq<char>) -> BoardStateView {
    match keyed::lookup(boards, board_id) {
        Some(board) => board,
        None => BoardStateView::Empty { sessions: Seq::empty() },
    }
}

/// The broker: every board that has subscribers.
#[derive(Debug)]
pub struct WsServer {
    state: KeyedList<BoardState>,
}

impl View for WsServer {
    type V = Seq<(Seq<char>, BoardStateView)>;

    closed spec fn view(&self) -> Seq<(Seq<char>, BoardStateView)> {
        self.state@
    }
}

impl WsServer {
    /// A broker without boards.
    pub fn new() -> (server: Self)
        ensures
            server@ == Seq::<(Seq<char>, BoardStateView)>::empty(),
    {
        Self { state: KeyedList::new() }
    }

    /// The boards that have subscribers, in the order in which they got
    /// their first.
    pub fn boards(&self) -> (boards: Vec<BoardId>)
        ensures
            boards@.len() == self@.len(),
            forall|i: int| 0 <= i < boards@.len() ==> (#[trigger] boards@[i])@ == self@[i].0,
            keyed::distinct_keys(self@),
    {
        let mut boards: Vec<BoardId> = Vec::new();
        let count = self.state.len();
        let mut i: usize = 0;
        while i < count
            invariant
                i <= count,
                count == self@.len(),
                boards@.len() == i,
                forall|j: int| 0 <= j < i ==> (#[trigger] boards@[j])@ == self@[j].0,
            decreases count - i,
        {
            boards.push(BoardId::new(self.state.key_at(i).clone()));
            i += 1;
        }
        boards
    }

    /// Makes `session_id` a subscriber of the board `board_id`. The first
    /// subscriber of a board creates it.
    pub fn insert_session(&mut self, board_id: BoardId, session_id: SessionId)
        ensures
            final(self)@ == keyed::upsert(
                old(self)@,
                board_id@,
                board_or_fresh(old(self)@, board_id@).with_sessions(
                    with_session(board_or_fresh(old(self)@, board_id@).sessions(), session_id),
                ),
            ),
            no_orphans(old(self)@) ==> no_orphans(final(self)@),
    {
        match self.state.find(board_id.as_str()) {
            Some(i) => {
                let mut board = self.state.exchange_at(i, BoardState::new());
                board.add_session(session_id);
                self.state.replace_at(i, board);
            },
            None => {
                let mut board = BoardState::new();
                board.add_session(session_id);
                self.state.insert(board_id.to_string(), board);
            },
        }
    }

    /// Takes `session_id` from every board, and drops the boards that are left
    /// without a subscriber.
    pub fn remove_session(&mut self, session_id: &SessionId)
        ensures
            final(self)@ == disconnected(old(self)@, *session_id),
            no_orphans(final(self)@),
    {
        let mut boards: KeyedList<BoardState> = KeyedList::new();
        std::mem::swap(&mut self.state, &mut boards);
        let count = boards.len();
        let ghost before = boards@;
        let mut i: usize = 0;
        while i < count
            invariant
                i <= count,
                count == before.len(),
                before == old(self)@,
                keyed::distinct_keys(before),
                boards@.len() == count,
                forall|j: int| i <= j < count ==> boards@[j] == before[j],
                self@ == disconnected(before.take(i as int), *session_id),
                no_orphans(self@),
                forall|j: int|
                    0 <= j < self@.len() ==> exists|k: int|
                        0 <= k < i && before[k].0 == (#[trigger] self@[j]).0,
            decreases count - i,
        {
            let key = boards.key_at(i).clone();
            let mut board = boards.exchange_at(i, BoardState::new());
            board.remove_session(session_id);
            proof {
                assert(before.take(i + 1).drop_last() =~= before.take(i as int));
            }
            if !board.is_orphaned() {
                self.state.insert(key, board);
            }
            i += 1;
        }
        assert(before.take(i as int) =~= before);
    }

    /// Takes `events` as the log of the board `board_id`, if the board has
    /// subscribers, and says which replays are to be sent now.
    pub fn update_events(&mut self, board_id: &BoardId, events: Vec<BoardModifiedEvent>) -> (sent: Vec<
        (SessionId, ReplayMessage),
    >)
        ensures
            match keyed::lookup(old(self)@, board_id@) {
                Some(board) => final(self)@ == keyed::upsert(
                    old(self)@,
                    board_id@,
                    board.update_events(view::views(events@)),
                ) && view_replays(sent@) == board.replays_on_update(view::views(events@)),
                None => final(self)@ == old(self)@ && sent@.len() == 0,
            },
            no_orphans(old(self)@) ==> no_orphans(final(self)@),
    {
        match self.state.find(board_id.as_str()) {
            Some(i) => {
                let mut board = self.state.exchange_at(i, BoardState::new());
                let sent = board.update_events(events);
                self.state.replace_at(i, board);
                sent
            },
            None => Vec::new(),
        }
    }

    /// Takes the request of `session_id` for a replay of the board
    /// `board_id`. A board without subscribers replays nothing.
    pub fn replay_board_onto(&mut self, board_id: &BoardId, session_id: SessionId) -> (sent: Option<
        ReplayMessage,
    >)
        ensures
            match keyed::lookup(old(self)@, board_id@) {
                Some(board) => final(self)@ == keyed::upsert(
                    old(self)@,
                    board_id@,
                    board.replay_onto(session_id),
                ) && match sent {
                    Some(message) => board.replay_at_once() == Some(message@),
                    None => board.replay_at_once() is None,
                },
                None => final(self)@ == old(self)@ && sent is None,
            },
            no_orphans(old(self)@) ==> no_orphans(final(self)@),
    {
        match self.state.find(board_id.as_str()) {
            Some(i) => {
                let mut board = self.state.exchange_at(i, BoardState::new());
                let sent = board.replay_onto(session_id);
                self.state.replace_at(i, board);
                sent
            },
            None => None,
        }
    }

    /// Says what is to be sent to broadcast what is new on every board, board
    /// after board, and marks it as broadcast.
    pub fn broadcast_changes(&mut self) -> (sent: Vec<(SessionId, BoardModifiedMessage)>)
        ensures
            final(self)@ == all_broadcast(old(self)@),
            view_messages(sent@) == all_changes(old(self)@),
            no_orphans(old(self)@) ==> no_orphans(final(self)@),
    {
        let mut sent: Vec<(SessionId, BoardModifiedMessage)> = Vec::new();
        let count = self.state.len();
        let mut i: usize = 0;
        while i < count
            invariant
                i <= count,
                count == old(self)@.len(),
                self@.len() == count,
                forall|j: int| 0 <= j < i ==> self@[j] == all_broadcast(old(self)@)[j],
                forall|j: int| i <= j < count ==> self@[j] == old(self)@[j],
                view_messages(sent@) == all_changes(old(self)@.take(i as int)),
            decreases count - i,
        {
            let mut board = self.state.exchange_at(i, BoardState::new());
            let mut changes = board.broadcast_changes();
            self.state.replace_at(i, board);
            proof {
                assert(old(self)@.take(i + 1).drop_last() =~= old(self)@.take(i as int));
            }
            sent.append(&mut changes);
            i += 1;
        }
        assert(old(self)@.take(i as int) =~= old(self)@);
        sent
    }
}

/// The message that carries the event of `events` at `position`.
pub open spec fn message_at(events: Seq<BoardModifiedEventView>, position: nat) -> BoardModifiedMessageView {
    BoardModifiedMessageView { position, event: events[position as int] }
}

/// What is sent in a broadcast, in three parts.
///
/// Every message carries an event of the log at its position, between the
/// two ends of the broadcast, and goes to a subscriber. Every subscriber is
/// sent every event between the two ends. And of two messages to the same
/// subscriber, the earlier one carries the event at the lower position: every
/// subscriber is sent the events in the order of the log.
pub proof fn lemma_broadcast_reaches_everyone_in_order(
    events: Seq<BoardModifiedEventView>,
    sessions: Seq<SessionId>,
    from: nat,
    to: nat,
)
    requires
        sessions.no_duplicates(),
        from <= to <= events.len(),
    ensures
        forall|a: int|
            0 <= a < broadcast(events, sessions, from, to).len() ==> {
                let sent = #[trigger] broadcast(events, sessions, from, to)[a];
                sessions.contains(sent.0) && from <= sent.1.position < to && sent.1 == message_at(
                    events,
                    sent.1.position,
                )
            },
        forall|session: SessionId, position: nat|
            #![trigger sessions.contains(session), message_at(events, position)]
            sessions.contains(session) && from <= position < to ==> broadcast(
                events,
                sessions,
                from,
                to,
            ).contains((session, message_at(events, position))),
        forall|a: int, b: int|
            0 <= a < b < broadcast(events, sessions, from, to).len() && (#[trigger] broadcast(
                events,
                sessions,
                from,
                to,
            )[a]).0 == (#[trigger] broadcast(events, sessions, from, to)[b]).0 ==> broadcast(
                events,
                sessions,
                from,
                to,
            )[a].1.position < broadcast(events, sessions, from, to)[b].1.position,
    decreases to,
{
    let all = broadcast(events, sessions, from, to);
    if to > from {
        let earlier = broadcast(events, sessions, from, (to - 1) as nat);
        let message = message_at(events, (to - 1) as nat);
        let last = fan(sessions, message);
        lemma_broadcast_reaches_everyone_in_order(events, sessions, from, (to - 1) as nat);
        assert forall|session: SessionId, position: nat|
            #![trigger sessions.contains(session), message_at(events, position)]
            sessions.contains(session) && from <= position < to implies all.contains(
            (session, message_at(events, position)),
        ) by {
            if position < to - 1 {
                let sent = (session, message_at(events, position));
                let a = choose|a: int| 0 <= a < earlier.len() && earlier[a] == sent;
                assert(all[a] == sent);
            } else {
                let i = choose|i: int| 0 <= i < sessions.len() && sessions[i] == session;
                assert(all[earlier.len() + i] == last[i]);
            }
        }
    }
}

/// Every subscriber is sent the events in the order of the log: of two
/// messages of a broadcast to the same subscriber, the earlier one carries
/// the event at the lower position.
pub proof fn lemma_broadcast_order(
    events: Seq<BoardModifiedEventView>,
    sessions: Seq<SessionId>,
    from: nat,
    to: nat,
)
    requires
        sessions.no_duplicates(),
    ensures
        forall|a: int, b: int|
            0 <= a < b < broadcast(events, sessions, from, to).len() && (#[trigger] broadcast(
                events,
                sessions,
                from,
                to,
            )[a]).0 == (#[trigger] broadcast(events, sessions, from, to)[b]).0 ==> broadcast(
                events,
                sessions,
                from,
                to,
            )[a].1.position < broadcast(events, sessions, from, to)[b].1.position && broadcast(
                events,
                sessions,
                from,
                to,
            )[a].1.event == events[broadcast(events, sessions, from, to)[a].1.position as int]
                && broadcast(events, sessions, from, to)[b].1.event == events[broadcast(
                events,
                sessions,
                from,
                to,
            )[b].1.position as int],
{
    if from <= to <= events.len() {
        lemma_broadcast_reaches_everyone_in_order(events, sessions, from, to);
    }
}

/// What was broadcast is not broadcast again: after a broadcast nothing is
/// left to send until the log grows, and what is sent then starts where the
/// broadcast ended.
pub proof fn lemma_broadcast_once(state: BoardStateView, events: Seq<BoardModifiedEventView>)
    requires
        state is Loaded,
        state->events.len() <= events.len(),
    ensures
        state.broadcast_changes().changes() == Seq::<(SessionId, BoardModifiedMessageView)>::empty(),
        state.broadcast_changes().update_events(events).changes() == broadcast(
            events,
            state.sessions(),
            state->events.len(),
            events.len(),
        ),
{
}

/// A subscriber is among the subscribers once, however often it subscribes.
pub proof fn lemma_with_session_no_duplicates(sessions: Seq<SessionId>, session_id: SessionId)
    requires
        sessions.no_duplicates(),
    ensures
        with_session(sessions, session_id).no_duplicates(),
        with_session(sessions, session_id).contains(session_id),
{
    if !sessions.contains(session_id) {
        let added = sessions.push(session_id);
        assert(added[sessions.len() as int] == session_id);
    }
}

/// A subscriber that has left is not among the subscribers, and the others
/// are, in their order.
pub proof fn lemma_without_session(sessions: Seq<SessionId>, session_id: SessionId)
    requires
        sessions.no_duplicates(),
    ensures
        without_session(sessions, session_id).no_duplicates(),
        !without_session(sessions, session_id).contains(session_id),
        forall|other: SessionId|
            other != session_id ==> (without_session(sessions, session_id).contains(other)
                <==> sessions.contains(other)),
    decreases sessions.len(),
{
    reveal(Seq::filter);
    let kept = without_session(sessions, session_id);
    if sessions.len() > 0 {
        let rest = sessions.drop_last();
        let last = sessions.last();
        let kept_rest = without_session(rest, session_id);
        lemma_without_session(rest, session_id);
        assert forall|other: SessionId| other != session_id implies (kept.contains(other)
            <==> sessions.contains(other)) by {
            if kept.contains(other) {
                let i = choose|i: int| 0 <= i < kept.len() && kept[i] == other;
                if last == session_id || i < kept_rest.len() {
                    assert(kept_rest.contains(other) <==> rest.contains(other));
                }
            }
        }
        if last != session_id {
            assert(!rest.contains(last));
        }
    }
}

/// Whether no session subscribes twice to the board of `state`.
pub open spec fn subscribes_once(state: BoardStateView) -> bool {
    state.sessions().no_duplicates()
}

/// No session ever subscribes twice to a board: a fresh board has no
/// subscriber, and whatever happens to a board on which no session
/// subscribes twice leaves such a board.
pub proof fn lemma_sessions_subscribe_once(
    state: BoardStateView,
    session_id: SessionId,
    events: Seq<BoardModifiedEventView>,
)
    requires
        subscribes_once(state),
    ensures
        subscribes_once(BoardStateView::Empty { sessions: Seq::empty() }),
        subscribes_once(state.with_sessions(with_session(state.sessions(), session_id))),
        subscribes_once(state.with_sessions(without_session(state.sessions(), session_id))),
        subscribes_once(state.update_events(events)),
        subscribes_once(state.broadcast_changes()),
        subscribes_once(state.replay_onto(session_id)),
{
    lemma_with_session_no_duplicates(state.sessions(), session_id);
    lemma_without_session(state.sessions(), session_id);
}

} // verus!
