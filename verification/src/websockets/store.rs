//! The store of the boards' logs, with readers that wait for new events.
//!
//! A log only grows. A reader that has read a log to its end may wait there:
//! the next events that are saved are handed to everyone who waits.
use vstd::prelude::*;
use crate::command::event::{BoardModifiedEvent, BoardModifiedEventView};
use crate::util::keyed;
use crate::util::keyed::KeyedList;
use crate::util::view;
use crate::websockets::message::{LoadEvents, SaveEvents};
use crate::websockets::server::clone_events;

verus! {

/// A reader asked for events behind the end of the log.
#[derive(Debug, Clone, Copy, PartialEq, Eq, Structural)]
pub struct InvalidPosition {
    /// The position that was asked for.
    pub last_event: usize,
    /// The length of the log.
    pub len: usize,
}

/// A reader behind the end of the log has lost track of the log: the error is
/// fatal.
impl crate::util::transaction::Failure for InvalidPosition {
    open spec fn kind_of(&self) -> crate::util::transaction::ErrorKind {
        crate::util::transaction::ErrorKind::Fatal
    }

    fn kind(&self) -> (kind: crate::util::transaction::ErrorKind) {
        crate::util::transaction::ErrorKind::Fatal
    }
}

/// Wait for the events of the log under `key` from the position `last_event`
/// on.
#[derive(Debug)]
pub struct WaitForEvents {
    pub key: String,
    pub last_event: usize,
}

/// The answer to a reader that asks for the events from some position on.
#[derive(Debug)]
pub enum UpdateRequest {
    /// There are none yet; they will be sent.
    Pending,
    /// These are the events.
    Fulfilled(Vec<BoardModifiedEvent>),
}

/// Something that the events of a log from some position on can be loaded
/// from, as soon as there are any.
pub trait LoadUpdate<T> {
    type Key;

    type Error;

    /// Whether `outcome` is what loading what is stored under `key` from the
    /// position `last_version` on can come to. Unless an implementation says
    /// more, anything can happen.
    open spec fn loads_update(
        &self,
        key: &Self::Key,
        last_version: usize,
        outcome: Result<T, Self::Error>,
    ) -> bool {
        true
    }

    fn load_update(&self, key: &Self::Key, last_version: usize) -> (outcome: Result<T, Self::Error>)
        ensures
            self.loads_update(key, last_version, outcome),
    ;
}

/// A reader that waits: where to send the events, and from which position on
/// the reader wants them.
#[derive(Debug)]
pub struct UpdateChannel<W> {
    update_sender: W,
    position: usize,
}

impl<W> UpdateChannel<W> {
    fn new(update_sender: W, position: usize) -> (channel: Self)
        ensures
            channel.update_sender == update_sender,
            channel.position == position,
    {
        Self { update_sender, position }
    }
}

/// The log of one board and the readers that wait at its end.
#[derive(Debug)]
pub struct Board<W> {
    events: Vec<BoardModifiedEvent>,
    update_senders: Vec<UpdateChannel<W>>,
}

/// A board as mathematics.
pub struct BoardView<W> {
    pub events: Seq<BoardModifiedEventView>,
    /// Who waits, and from which position on they want the events.
    pub waiting: Seq<(W, nat)>,
}

/// The log `stored` after `events` was saved: what `events` has beyond the
/// length of `stored` is added at the end.
pub open spec fn extended(
    stored: Seq<BoardModifiedEventView>,
    events: Seq<BoardModifiedEventView>,
) -> Seq<BoardModifiedEventView> {
    if events.len() > stored.len() {
        stored + events.skip(stored.len() as int)
    } else {
        stored
    }
}

/// What is sent to those who wait once the log is `events`: to each, in the
/// order in which they came, the events from the position they asked for.
pub open spec fn updates<W>(waiting: Seq<(W, nat)>, events: Seq<BoardModifiedEventView>) -> Seq<
    (W, Seq<BoardModifiedEventView>),
> {
    Seq::new(
        waiting.len(),
        |i: int|
            (
                waiting[i].0,
                if waiting[i].1 <= events.len() {
                    events.skip(waiting[i].1 as int)
                } else {
                    Seq::empty()
                },
            ),
    )
}

/// The events that are sent, as mathematics.
pub open spec fn view_updates<W>(sent: Seq<(W, Vec<BoardModifiedEvent>)>) -> Seq<
    (W, Seq<BoardModifiedEventView>),
> {
    Seq::new(sent.len(), |i: int| (sent[i].0, view::views(sent[i].1@)))
}

fn events_from(events: &Vec<BoardModifiedEvent>, position: usize) -> (tail: Vec<BoardModifiedEvent>)
    ensures
        view::views(tail@) == if position <= events@.len() {
            view::views(events@).skip(position as int)
        } else {
            Seq::empty()
        },
{
    let mut tail: Vec<BoardModifiedEvent> = Vec::new();
    if position > events.len() {
        return tail;
    }
    let mut i: usize = position;
    while i < events.len()
        invariant
            position <= i <= events@.len(),
            tail@.len() == i - position,
            forall|j: int| 0 <= j < tail@.len() ==> tail@[j]@ == events@[position + j]@,
        decreases events@.len() - i,
    {
        tail.push(events[i].clone());
        i += 1;
    }
    tail
}

impl<W> Board<W> {
    /// The board as mathematics.
    pub closed spec fn view(&self) -> BoardView<W> {
        BoardView {
            events: view::views(self.events@),
            waiting: Seq::new(
                self.update_senders@.len(),
                |i: int| (self.update_senders@[i].update_sender, self.update_senders@[i].position as nat),
            ),
        }
    }

    /// A board with an empty log that nobody waits for.
    pub fn new() -> (board: Self)
        ensures
            board.view().events == Seq::<BoardModifiedEventView>::empty(),
            board.view().waiting == Seq::<(W, nat)>::empty(),
    {
        let board = Self { events: Vec::new(), update_senders: Vec::new() };
        board
    }

    /// A copy of the log.
    pub fn events(&self) -> (events: Vec<BoardModifiedEvent>)
        ensures
            view::views(events@) == self.view().events,
    {
        clone_events(&self.events)
    }

    /// Takes `events` as the log that was saved: what it has beyond the
    /// stored log is added to it. Says what is to be sent to those who wait,
    /// who then wait no longer.
    pub fn update_events(&mut self, events: Vec<BoardModifiedEvent>) -> (sent: Vec<
        (W, Vec<BoardModifiedEvent>),
    >)
        ensures
            final(self).view().events == extended(old(self).view().events, view::views(events@)),
            final(self).view().waiting == Seq::<(W, nat)>::empty(),
            view_updates(sent@) == updates(old(self).view().waiting, final(self).view().events),
    {
        let ghost stored = view::views(self.events@);
        let ghost waiting = self.view().waiting;
        let start = self.events.len();
        if events.len() > start {
            let mut i: usize = start;
            while i < events.len()
                invariant
                    self.update_senders == old(self).update_senders,
                    start == stored.len(),
                    start <= i <= events@.len(),
                    self.events@.len() == i,
                    forall|j: int| 0 <= j < start ==> self.events@[j]@ == stored[j],
                    forall|j: int| start <= j < i ==> self.events@[j]@ == events@[j]@,
                decreases events@.len() - i,
            {
                self.events.push(events[i].clone());
                i += 1;
            }
        }
        let mut senders: Vec<UpdateChannel<W>> = Vec::new();
        std::mem::swap(&mut self.update_senders, &mut senders);
        let mut sent: Vec<(W, Vec<BoardModifiedEvent>)> = Vec::new();
        let ghost log = view::views(self.events@);
        let ghost count = senders@.len();
        while senders.len() > 0
            invariant
                log == view::views(self.events@),
                waiting.len() == count,
                sent@.len() + senders@.len() == count,
                forall|j: int|
                    0 <= j < senders@.len() ==> (#[trigger] senders@[j]).update_sender
                        == waiting[sent@.len() + j].0 && senders@[j].position
                        == waiting[sent@.len() + j].1,
                forall|j: int|
                    0 <= j < sent@.len() ==> (#[trigger] sent@[j]).0 == waiting[j].0 && view::views(
                        sent@[j].1@,
                    ) == updates(waiting, log)[j].1,
            decreases senders@.len(),
        {
            let channel = senders.remove(0);
            let tail = events_from(&self.events, channel.position);
            sent.push((channel.update_sender, tail));
        }
        sent
    }

    /// The events from the position `last_event` on, as far as there are any
    /// yet. A position behind the end of the log is an error.
    pub fn events_since(&self, last_event: usize) -> (events: Result<
        Vec<BoardModifiedEvent>,
        InvalidPosition,
    >)
        ensures
            match events {
                Ok(events) => last_event <= self.view().events.len() && view::views(events@)
                    == self.view().events.skip(last_event as int),
                Err(error) => last_event > self.view().events.len() && error == (
                InvalidPosition { last_event, len: self.view().events.len() as usize }),
            },
    {
        let len = self.events.len();
        if last_event <= len {
            Ok(events_from(&self.events, last_event))
        } else {
            Err(InvalidPosition { last_event, len })
        }
    }

    /// Answers a reader that asks for the events from the position
    /// `last_event` on. If there are such events, they are the answer. If the
    /// reader has read the log to its end, the reader waits: `update_sender`
    /// is kept to send the next events to. A position behind the end of the
    /// log is an error.
    pub fn get_update(&mut self, last_event: usize, update_sender: W) -> (answer: Result<
        UpdateRequest,
        InvalidPosition,
    >)
        ensures
            final(self).view().events == old(self).view().events,
            match answer {
                Ok(UpdateRequest::Fulfilled(events)) => last_event < old(self).view().events.len()
                    && view::views(events@) == old(self).view().events.skip(last_event as int)
                    && final(self).view().waiting == old(self).view().waiting,
                Ok(UpdateRequest::Pending) => last_event == old(self).view().events.len()
                    && final(self).view().waiting == old(self).view().waiting.push(
                    (update_sender, last_event as nat),
                ),
                Err(error) => last_event > old(self).view().events.len() && error == (
                InvalidPosition { last_event, len: old(self).view().events.len() as usize })
                    && final(self).view().waiting == old(self).view().waiting,
            },
    {
        let len = self.events.len();
        if len > last_event {
            Ok(UpdateRequest::Fulfilled(events_from(&self.events, last_event)))
        } else if len == last_event {
            self.update_senders.push(UpdateChannel::new(update_sender, last_event));
            Ok(UpdateRequest::Pending)
        } else {
            Err(InvalidPosition { last_event, len })
        }
    }
}

impl<W> View for Board<W> {
    type V = BoardView<W>;

    open spec fn view(&self) -> BoardView<W> {
        Board::view(self)
    }
}

/// The store: the logs of all boards, and who waits for what.
#[derive(Debug)]
pub struct EventUpdates<W> {
    store: KeyedList<Board<W>>,
}

/// The board under `key`, or a fresh one.
pub open spec fn board_or_fresh<W>(boards: Seq<(Seq<char>, BoardView<W>)>, key: Seq<char>) -> BoardView<
    W,
> {
    match keyed::lookup(boards, key) {
        Some(board) => board,
        None => BoardView { events: Seq::empty(), waiting: Seq::empty() },
    }
}

impl<W> EventUpdates<W> {
    /// The boards with their logs, as mathematics.
    pub closed spec fn boards(&self) -> Seq<(Seq<char>, BoardView<W>)> {
        self.store@
    }

    /// A store without boards.
    pub fn new() -> (store: Self)
        ensures
            store.boards() == Seq::<(Seq<char>, BoardView<W>)>::empty(),
    {
        Self { store: KeyedList::new() }
    }

    fn entry(&mut self, key: &String) -> (index: usize)
        ensures
            index < final(self).boards().len(),
            keyed::lookup(final(self).boards(), key@) == Some(
                board_or_fresh(old(self).boards(), key@),
            ),
            keyed::position(final(self).boards(), key@) == index,
            keyed::holds_key(final(self).boards(), key@),
            final(self).boards()[index as int].0 == key@,
            keyed::distinct_keys(final(self).boards()),
            keyed::distinct_keys(old(self).boards()),
            index == if keyed::holds_key(old(self).boards(), key@) {
                keyed::position(old(self).boards(), key@)
            } else {
                old(self).boards().len() as int
            },
            final(self).boards() == keyed::upsert(
                old(self).boards(),
                key@,
                board_or_fresh(old(self).boards(), key@),
            ),
    {
        match self.store.find(key.as_str()) {
            Some(index) => {
                index
            },
            None => {
                let index = self.store.len();
                self.store.insert(key.clone(), Board::new());
                proof {
                    keyed::lemma_position_unique(self.boards(), key@, index as int);
                }
                index
            },
        }
    }

    /// The log under the key of `msg`, if the board is known.
    pub fn load_events(&self, msg: &LoadEvents) -> (log: Option<Vec<BoardModifiedEvent>>)
        ensures
            match log {
                Some(events) => keyed::lookup(self.boards(), msg.key@) matches Some(board)
                    && view::views(events@) == board.events,
                None => keyed::lookup(self.boards(), msg.key@) is None,
            },
    {
        match self.store.get(msg.key.as_str()) {
            Some(board) => Some(board.events()),
            None => None,
        }
    }

    /// Saves the log of `msg` under its key: what it has beyond the stored
    /// log is added to the stored log. Says what is to be sent to the readers
    /// that waited for it.
    pub fn save_events(&mut self, msg: &SaveEvents) -> (sent: Vec<(W, Vec<BoardModifiedEvent>)>)
        ensures
            final(self).boards() == keyed::upsert(
                old(self).boards(),
                msg.key@,
                BoardView {
                    events: extended(
                        board_or_fresh(old(self).boards(), msg.key@).events,
                        view::views(msg.event@),
                    ),
                    waiting: Seq::empty(),
                },
            ),
            view_updates(sent@) == updates(
                board_or_fresh(old(self).boards(), msg.key@).waiting,
                extended(
                    board_or_fresh(old(self).boards(), msg.key@).events,
                    view::views(msg.event@),
                ),
            ),
    {
        let index = self.entry(&msg.key);
        let mut board = self.store.exchange_at(index, Board::new());
        let sent = board.update_events(clone_events(&msg.event));
        self.store.replace_at(index, board);
        sent
    }

    /// Answers the reader that sends `msg`; see `Board::get_update`. A board
    /// that is not known yet has an empty log.
    pub fn wait_for_events(&mut self, msg: &WaitForEvents, update_sender: W) -> (answer: Result<
        UpdateRequest,
        InvalidPosition,
    >)
        ensures
            match answer {
                Ok(UpdateRequest::Fulfilled(events)) => msg.last_event < board_or_fresh(
                    old(self).boards(),
                    msg.key@,
                ).events.len() && view::views(events@) == board_or_fresh(
                    old(self).boards(),
                    msg.key@,
                ).events.skip(msg.last_event as int) && final(self).boards() == keyed::upsert(
                    old(self).boards(),
                    msg.key@,
                    board_or_fresh(old(self).boards(), msg.key@),
                ),
                Ok(UpdateRequest::Pending) => msg.last_event == board_or_fresh(
                    old(self).boards(),
                    msg.key@,
                ).events.len() && final(self).boards() == keyed::upsert(
                    old(self).boards(),
                    msg.key@,
                    BoardView {
                        events: board_or_fresh(old(self).boards(), msg.key@).events,
                        waiting: board_or_fresh(old(self).boards(), msg.key@).waiting.push(
                            (update_sender, msg.last_event as nat),
                        ),
                    },
                ),
                Err(error) => msg.last_event > board_or_fresh(
                    old(self).boards(),
                    msg.key@,
                ).events.len() && error.last_event == msg.last_event && error.len
                    == board_or_fresh(old(self).boards(), msg.key@).events.len()
                    && final(self).boards() == keyed::upsert(
                    old(self).boards(),
                    msg.key@,
                    board_or_fresh(old(self).boards(), msg.key@),
                ),
            },
    {
        let index = self.entry(&msg.key);
        let mut board = self.store.exchange_at(index, Board::new());
        let answer = board.get_update(msg.last_event, update_sender);
        self.store.replace_at(index, board);
        answer
    }
}

/// A stored log only grows: whatever is saved, the log holds afterwards what
/// it held before, at the same positions, and no event of it is changed or
/// lost.
pub proof fn lemma_log_only_grows(
    stored: Seq<BoardModifiedEventView>,
    events: Seq<BoardModifiedEventView>,
)
    ensures
        stored.is_prefix_of(extended(stored, events)),
        extended(stored, events).len() >= events.len(),
        events.len() <= stored.len() ==> extended(stored, events) == stored,
        stored.is_prefix_of(events) ==> extended(stored, events) == events,
{
}

impl<W> LoadUpdate<Vec<BoardModifiedEvent>> for EventUpdates<W> {
    type Key = String;

    type Error = InvalidPosition;

    /// The store answers at once: with the events from the position on, as
    /// far as there are any yet, and with an error for a position behind the
    /// end of the log. A board that is not known has an empty log.
    open spec fn loads_update(
        &self,
        key: &String,
        last_version: usize,
        outcome: Result<Vec<BoardModifiedEvent>, InvalidPosition>,
    ) -> bool {
        let log = board_or_fresh(self.boards(), key@).events;
        match outcome {
            Ok(events) => last_version <= log.len() && view::views(events@) == log.skip(
                last_version as int,
            ),
            Err(error) => last_version > log.len() && error == (InvalidPosition {
                last_event: last_version,
                len: log.len() as usize,
            }),
        }
    }

    fn load_update(&self, key: &String, last_version: usize) -> (outcome: Result<
        Vec<BoardModifiedEvent>,
        InvalidPosition,
    >) {
        match self.store.get(key.as_str()) {
            Some(board) => board.events_since(last_version),
            None => {
                if last_version == 0 {
                    let events: Vec<BoardModifiedEvent> = Vec::new();
                    assert(view::views(events@) =~= Seq::<BoardModifiedEventView>::empty().skip(0));
                    Ok(events)
                } else {
                    Err(InvalidPosition { last_event: last_version, len: 0 })
                }
            },
        }
    }
}

} // verus!
