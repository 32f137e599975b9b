//! The query side of a board: what clients are shown.
//!
//! Every subscriber folds the log into a board of its own. Besides the
//! participants the board follows each participant's latest numeric vote and
//! whether the round of voting is complete.
use vstd::prelude::*;
use vstd::std_specs::cmp::PartialEqSpecImpl;
use crate::command::event::{BoardModifiedEvent, BoardModifiedEventView, VoteValue, VoteValueView};
use crate::util::entity::HandleEvent;
use crate::util::keyed;
use crate::util::keyed::KeyedList;

pub mod presentation;

verus! {

/// A participant as clients see them: the name and the latest numeric vote.
#[derive(Debug)]
pub struct Participant {
    pub name: String,
    pub vote: Option<u8>,
}

/// A participant as mathematics.
pub struct ParticipantView {
    pub name: Seq<char>,
    pub vote: Option<u8>,
}

impl View for Participant {
    type V = ParticipantView;

    open spec fn view(&self) -> ParticipantView {
        ParticipantView { name: self.name@, vote: self.vote }
    }
}

impl Participant {
    /// A participant who has not voted.
    pub fn new(name: String) -> (participant: Self)
        ensures
            participant@ == (ParticipantView { name: name@, vote: None }),
    {
        Self { name, vote: None }
    }
}

impl Clone for Participant {
    fn clone(&self) -> (copy: Self)
        ensures
            copy@ == self@,
    {
        Self { name: self.name.clone(), vote: self.vote }
    }
}

impl PartialEq for Participant {
    fn eq(&self, other: &Self) -> (equal: bool) {
        self.name == other.name && self.vote == other.vote
    }
}

impl PartialEqSpecImpl for Participant {
    open spec fn obeys_eq_spec() -> bool {
        true
    }

    open spec fn eq_spec(&self, other: &Self) -> bool {
        self@ == other@
    }
}

/// The vote that a participant is shown with after voting `value`: the number
/// of a numeric vote, nothing for any other.
pub open spec fn shown_vote(value: VoteValueView) -> Option<u8> {
    match value {
        VoteValueView::Number(number) => Some(number),
        VoteValueView::String(_) => None,
    }
}

/// The participants with every vote taken back.
pub open spec fn without_votes(participants: Seq<(Seq<char>, ParticipantView)>) -> Seq<
    (Seq<char>, ParticipantView),
> {
    Seq::new(
        participants.len(),
        |i: int| (participants[i].0, ParticipantView { name: participants[i].1.name, vote: None }),
    )
}

/// A board as mathematics.
pub struct BoardView {
    /// The participants under their ids, in the order in which they joined.
    pub participants: Seq<(Seq<char>, ParticipantView)>,
    /// Whether the round of voting is complete.
    pub voting_complete: bool,
    /// How many votes of participants without a vote were counted in this
    /// round.
    pub number_voted: nat,
}

impl BoardView {
    /// The board that nobody has joined.
    pub open spec fn empty() -> BoardView {
        BoardView { participants: Seq::empty(), voting_complete: false, number_voted: 0 }
    }

    /// Whether no id stands for two participants.
    pub open spec fn well_formed(self) -> bool {
        keyed::distinct_keys(self.participants)
    }

    /// The board after the vote `value` of the participant under
    /// `participant_id`.
    ///
    /// A participant of the board gets the vote, and counts as one more voter
    /// if they had no vote. Then the round is complete if as many votes were
    /// counted as there are participants. A complete round stays complete.
    pub open spec fn voted(self, participant_id: Seq<char>, value: VoteValueView) -> BoardView {
        let (participants, number_voted) = match keyed::lookup(self.participants, participant_id) {
            Some(participant) => (
                keyed::upsert(
                    self.participants,
                    participant_id,
                    ParticipantView { name: participant.name, vote: shown_vote(value) },
                ),
                if participant.vote is None {
                    self.number_voted + 1
                } else {
                    self.number_voted
                },
            ),
            None => (self.participants, self.number_voted),
        };
        BoardView {
            participants,
            voting_complete: self.voting_complete || number_voted == participants.len(),
            number_voted,
        }
    }

    /// The board after `event`.
    ///
    /// A participant who is added has no vote; adding and removing leave the
    /// count of votes and the completeness of the round alone. Clearing the
    /// votes starts a new round. The negative events change nothing.
    pub open spec fn apply(self, event: BoardModifiedEventView) -> BoardView {
        match event {
            BoardModifiedEventView::ParticipantAdded { participant_id, participant_name } =>
                BoardView {
                    participants: keyed::upsert(
                        self.participants,
                        participant_id,
                        ParticipantView { name: participant_name, vote: None },
                    ),
                    ..self
                },
            BoardModifiedEventView::ParticipantRemoved { participant_id } => BoardView {
                participants: keyed::without(self.participants, participant_id),
                ..self
            },
            BoardModifiedEventView::ParticipantVoted { participant_id, vote } => self.voted(
                participant_id,
                vote.value,
            ),
            BoardModifiedEventView::VotesCleared => BoardView {
                participants: without_votes(self.participants),
                voting_complete: false,
                number_voted: 0,
            },
            _ => self,
        }
    }
}

/// The board that a subscriber's view is rendered from.
#[derive(Debug)]
pub struct Board {
    participants: KeyedList<Participant>,
    voting_complete: bool,
    number_voted: usize,
}

impl View for Board {
    type V = BoardView;

    closed spec fn view(&self) -> BoardView {
        BoardView {
            participants: self.participants@,
            voting_complete: self.voting_complete,
            number_voted: self.number_voted as nat,
        }
    }
}

impl Board {
    pub fn new() -> (board: Self)
        ensures
            board@ == BoardView::empty(),
    {
        Self { participants: KeyedList::new(), voting_complete: false, number_voted: 0 }
    }

    /// The number of participants.
    pub fn len(&self) -> (len: usize)
        ensures
            len == self@.participants.len(),
            self@.well_formed(),
    {
        self.participants.len()
    }

    /// The participant under `participant_id`.
    pub fn participant(&self, participant_id: &str) -> (participant: Option<&Participant>)
        ensures
            match participant {
                Some(held) => keyed::lookup(self@.participants, participant_id@) == Some(held@),
                None => keyed::lookup(self@.participants, participant_id@) is None,
            },
    {
        self.participants.get(participant_id)
    }

    /// The participants in the order in which they joined.
    pub fn participants(&self) -> (participants: Vec<Participant>)
        ensures
            crate::util::view::views(participants@) == presentation::shown_participants(
                self@.participants,
            ),
    {
        let mut participants: Vec<Participant> = Vec::new();
        let count = self.participants.len();
        let mut i: usize = 0;
        while i < count
            invariant
                i <= count,
                count == self@.participants.len(),
                participants@.len() == i,
                forall|j: int| 0 <= j < i ==> participants@[j]@ == self@.participants[j].1,
            decreases count - i,
        {
            participants.push(self.participants.value_at(i).clone());
            i += 1;
        }
        participants
    }

    /// Whether the round of voting is complete.
    pub fn voting_complete(&self) -> (complete: bool)
        ensures
            complete == self@.voting_complete,
    {
        self.voting_complete
    }

    /// How many votes were counted in this round.
    pub fn number_voted(&self) -> (number: usize)
        ensures
            number == self@.number_voted,
    {
        self.number_voted
    }

    fn vote(&mut self, participant_id: &String, value: &VoteValue)
        requires
            old(self)@.number_voted < usize::MAX,
        ensures
            final(self)@ == old(self)@.voted(participant_id@, value@),
    {
        match self.participants.find(participant_id.as_str()) {
            Some(i) => {
                let participant = self.participants.value_at(i);
                if participant.vote.is_none() {
                    self.number_voted += 1;
                }
                let vote = match value {
                    VoteValue::Number(number) => Some(*number),
                    VoteValue::String(_) => None,
                };
                let voted = Participant { name: participant.name.clone(), vote };
                self.participants.replace_at(i, voted);
            },
            None => {},
        }
        if self.number_voted == self.participants.len() {
            self.voting_complete = true;
        }
    }

    fn clear_votes(&mut self)
        ensures
            final(self)@ == (BoardView {
                participants: without_votes(old(self)@.participants),
                voting_complete: false,
                number_voted: 0,
            }),
    {
        let count = self.participants.len();
        let mut i: usize = 0;
        while i < count
            invariant
                i <= count,
                count == old(self)@.participants.len(),
                self@.participants.len() == count,
                forall|j: int|
                    0 <= j < i ==> self@.participants[j] == without_votes(
                        old(self)@.participants,
                    )[j],
                forall|j: int| i <= j < count ==> self@.participants[j] == old(self)@.participants[j],
            decreases count - i,
        {
            let name = self.participants.value_at(i).name.clone();
            self.participants.replace_at(i, Participant { name, vote: None });
            i += 1;
        }
        self.number_voted = 0;
        self.voting_complete = false;
        assert(self@.participants =~= without_votes(old(self)@.participants));
    }
}

impl Default for Board {
    fn default() -> (board: Self)
        ensures
            board@ == BoardView::empty(),
    {
        Self::new()
    }
}

impl Clone for Board {
    fn clone(&self) -> (copy: Self)
        ensures
            copy@ == self@,
    {
        let mut copy = Self::new();
        let count = self.participants.len();
        let mut i: usize = 0;
        while i < count
            invariant
                i <= count,
                count == self@.participants.len(),
                keyed::distinct_keys(self@.participants),
                copy@.participants == self@.participants.take(i as int),
            decreases count - i,
        {
            let key = self.participants.key_at(i).clone();
            let participant = self.participants.value_at(i).clone();
            copy.participants.insert(key, participant);
            i += 1;
        }
        assert(self@.participants.take(i as int) =~= self@.participants);
        copy.voting_complete = self.voting_complete;
        copy.number_voted = self.number_voted;
        copy
    }
}

impl PartialEq for Board {
    fn eq(&self, other: &Self) -> (equal: bool) {
        if self.voting_complete != other.voting_complete || self.number_voted
            != other.number_voted {
            return false;
        }
        let count = self.participants.len();
        if count != other.participants.len() {
            return false;
        }
        let mut i: usize = 0;
        while i < count
            invariant
                i <= count,
                count == self@.participants.len(),
                count == other@.participants.len(),
                forall|j: int| 0 <= j < i ==> self@.participants[j] == other@.participants[j],
            decreases count - i,
        {
            let same_key = crate::util::text::same_text(
                self.participants.key_at(i).as_str(),
                other.participants.key_at(i).as_str(),
            );
            if !same_key || !(*self.participants.value_at(i) == *other.participants.value_at(i)) {
                return false;
            }
            i += 1;
        }
        assert(self@.participants =~= other@.participants);
        true
    }
}

impl PartialEqSpecImpl for Board {
    open spec fn obeys_eq_spec() -> bool {
        true
    }

    open spec fn eq_spec(&self, other: &Self) -> bool {
        self@ == other@
    }
}

impl HandleEvent for Board {
    type Event = BoardModifiedEvent;

    type Model = BoardView;

    open spec fn model(&self) -> BoardView {
        self@
    }

    open spec fn initial() -> BoardView {
        BoardView::empty()
    }

    open spec fn applied(model: BoardView, event: BoardModifiedEventView) -> BoardView {
        model.apply(event)
    }

    open spec fn headroom(&self) -> nat {
        (usize::MAX - self@.number_voted) as nat
    }

    proof fn default_is_initial(state: Self) {
    }

    fn apply(&mut self, event: &BoardModifiedEvent) {
        match event {
            BoardModifiedEvent::ParticipantAdded { participant_id, participant_name } => {
                let participant = Participant::new(participant_name.clone());
                self.participants.insert(participant_id.clone(), participant);
            },
            BoardModifiedEvent::ParticipantRemoved { participant_id } => {
                self.participants.remove(participant_id.as_str());
            },
            BoardModifiedEvent::ParticipantCouldNotBeRemoved { .. } => {},
            BoardModifiedEvent::ParticipantVoted { participant_id, vote } => {
                self.vote(participant_id, &vote.value);
            },
            BoardModifiedEvent::ParticipantCouldNotVote { .. } => {},
            BoardModifiedEvent::VotesCleared => {
                self.clear_votes();
            },
            BoardModifiedEvent::ParticipantNotAdded { .. } => {},
        }
    }
}

/// Events keep the board well formed: no id ever stands for two participants.
pub proof fn lemma_apply_keeps_well_formed(board: BoardView, event: BoardModifiedEventView)
    requires
        board.well_formed(),
    ensures
        BoardView::empty().well_formed(),
        board.apply(event).well_formed(),
{
}

/// A round of voting that is complete stays complete until the votes are
/// cleared, and clearing the votes starts a round that is not complete and
/// in which nobody has a vote.
pub proof fn lemma_round_stays_complete(board: BoardView, event: BoardModifiedEventView)
    ensures
        board.voting_complete && !(event is VotesCleared) ==> board.apply(event).voting_complete,
        event is VotesCleared ==> !board.apply(event).voting_complete && board.apply(
            event,
        ).number_voted == 0 && forall|i: int|
            0 <= i < board.apply(event).participants.len() ==> (#[trigger] board.apply(
                event,
            ).participants[i]).1.vote is None,
{
}

} // verus!
