//! The events of a board's log.
//!
//! An event records one change of one board, or one command that the board
//! turned down. Events are never edited once they stand in a log.
use vstd::prelude::*;
use vstd::std_specs::cmp::PartialEqSpecImpl;
use vstd::std_specs::convert::FromSpecImpl;
use crate::util::view;

verus! {

/// How the value of a vote of some type is checked.
#[derive(Debug, Clone, Copy, PartialEq, Eq, Structural)]
pub enum VoteValidation {
    AnyNumber,
}

/// Why a participant was not added.
#[derive(Debug, Clone, Copy, PartialEq, Eq, Structural)]
pub enum ParticipantNotAddedReason {
    AlreadyExists,
}

/// Why a participant was not removed.
#[derive(Debug, Clone, Copy, PartialEq, Eq, Structural)]
pub enum ParticipantNotRemovedReason {
    DoesNotExist,
}

/// What a participant voted.
#[derive(Debug)]
pub enum VoteValue {
    Number(u8),
    String(String),
}

/// A vote value as mathematics.
pub enum VoteValueView {
    Number(u8),
    String(Seq<char>),
}

impl View for VoteValue {
    type V = VoteValueView;

    open spec fn view(&self) -> VoteValueView {
        match self {
            VoteValue::Number(number) => VoteValueView::Number(*number),
            VoteValue::String(text) => VoteValueView::String(text@),
        }
    }
}

impl Clone for VoteValue {
    fn clone(&self) -> (copy: Self)
        ensures
            copy@ == self@,
    {
        match self {
            VoteValue::Number(number) => VoteValue::Number(*number),
            VoteValue::String(text) => VoteValue::String(text.clone()),
        }
    }
}

impl PartialEq for VoteValue {
    fn eq(&self, other: &Self) -> (equal: bool) {
        match (self, other) {
            (VoteValue::Number(a), VoteValue::Number(b)) => *a == *b,
            (VoteValue::String(a), VoteValue::String(b)) => *a == *b,
            _ => false,
        }
    }
}

impl PartialEqSpecImpl for VoteValue {
    open spec fn obeys_eq_spec() -> bool {
        true
    }

    open spec fn eq_spec(&self, other: &Self) -> bool {
        self@ == other@
    }
}

/// A vote: its value and the vote type it was cast for.
#[derive(Debug)]
pub struct Vote {
    pub vote_type_id: String,
    pub value: VoteValue,
}

/// A vote as mathematics.
pub struct VoteView {
    pub vote_type_id: Seq<char>,
    pub value: VoteValueView,
}

impl View for Vote {
    type V = VoteView;

    open spec fn view(&self) -> VoteView {
        VoteView { vote_type_id: self.vote_type_id@, value: self.value@ }
    }
}

impl Vote {
    pub fn new(vote_type_id: String, value: VoteValue) -> (vote: Self)
        ensures
            vote@ == (VoteView { vote_type_id: vote_type_id@, value: value@ }),
    {
        Self { vote_type_id, value }
    }
}

impl Clone for Vote {
    fn clone(&self) -> (copy: Self)
        ensures
            copy@ == self@,
    {
        Self { vote_type_id: self.vote_type_id.clone(), value: self.value.clone() }
    }
}

impl PartialEq for Vote {
    fn eq(&self, other: &Self) -> (equal: bool) {
        self.vote_type_id == other.vote_type_id && self.value == other.value
    }
}

impl PartialEqSpecImpl for Vote {
    open spec fn obeys_eq_spec() -> bool {
        true
    }

    open spec fn eq_spec(&self, other: &Self) -> bool {
        self@ == other@
    }
}

/// Why a vote was turned down.
#[derive(Debug)]
pub enum ParticipantNotVotedReason {
    DoesNotExist,
    VoteTypeDoesNotExist(String),
    InvalidVote { expected: VoteValidation, received: VoteValue },
}

/// A reason for turning a vote down, as mathematics.
pub enum ParticipantNotVotedReasonView {
    DoesNotExist,
    VoteTypeDoesNotExist(Seq<char>),
    InvalidVote { expected: VoteValidation, received: VoteValueView },
}

impl View for ParticipantNotVotedReason {
    type V = ParticipantNotVotedReasonView;

    open spec fn view(&self) -> ParticipantNotVotedReasonView {
        match self {
            ParticipantNotVotedReason::DoesNotExist => ParticipantNotVotedReasonView::DoesNotExist,
            ParticipantNotVotedReason::VoteTypeDoesNotExist(vote_type_id) =>
                ParticipantNotVotedReasonView::VoteTypeDoesNotExist(vote_type_id@),
            ParticipantNotVotedReason::InvalidVote { expected, received } =>
                ParticipantNotVotedReasonView::InvalidVote {
                    expected: *expected,
                    received: received@,
                },
        }
    }
}

impl Clone for ParticipantNotVotedReason {
    fn clone(&self) -> (copy: Self)
        ensures
            copy@ == self@,
    {
        match self {
            ParticipantNotVotedReason::DoesNotExist => ParticipantNotVotedReason::DoesNotExist,
            ParticipantNotVotedReason::VoteTypeDoesNotExist(vote_type_id) =>
                ParticipantNotVotedReason::VoteTypeDoesNotExist(vote_type_id.clone()),
            ParticipantNotVotedReason::InvalidVote { expected, received } =>
                ParticipantNotVotedReason::InvalidVote {
                    expected: *expected,
                    received: received.clone(),
                },
        }
    }
}

impl PartialEq for ParticipantNotVotedReason {
    fn eq(&self, other: &Self) -> (equal: bool) {
        match (self, other) {
            (
                ParticipantNotVotedReason::DoesNotExist,
                ParticipantNotVotedReason::DoesNotExist,
            ) => true,
            (
                ParticipantNotVotedReason::VoteTypeDoesNotExist(a),
                ParticipantNotVotedReason::VoteTypeDoesNotExist(b),
            ) => *a == *b,
            (
                ParticipantNotVotedReason::InvalidVote { expected: expected_a, received: a },
                ParticipantNotVotedReason::InvalidVote { expected: expected_b, received: b },
            ) => *expected_a == *expected_b && *a == *b,
            _ => false,
        }
    }
}

impl PartialEqSpecImpl for ParticipantNotVotedReason {
    open spec fn obeys_eq_spec() -> bool {
        true
    }

    open spec fn eq_spec(&self, other: &Self) -> bool {
        self@ == other@
    }
}

fn clone_reasons(reasons: &Vec<ParticipantNotVotedReason>) -> (copy: Vec<
    ParticipantNotVotedReason,
>)
    ensures
        view::views(copy@) == view::views(reasons@),
{
    let mut copy: Vec<ParticipantNotVotedReason> = Vec::new();
    let mut i: usize = 0;
    while i < reasons.len()
        invariant
            i <= reasons@.len(),
            copy@.len() == i,
            forall|j: int| 0 <= j < i ==> copy@[j]@ == reasons@[j]@,
        decreases reasons@.len() - i,
    {
        copy.push(reasons[i].clone());
        i += 1;
    }
    copy
}

fn same_reasons(left: &Vec<ParticipantNotVotedReason>, right: &Vec<ParticipantNotVotedReason>) -> (equal:
    bool)
    ensures
        equal == (view::views(left@) == view::views(right@)),
{
    if left.len() != right.len() {
        assert(view::views(left@).len() != view::views(right@).len());
        return false;
    }
    let mut i: usize = 0;
    while i < left.len()
        invariant
            i <= left@.len(),
            left@.len() == right@.len(),
            forall|j: int| 0 <= j < i ==> left@[j]@ == right@[j]@,
        decreases left@.len() - i,
    {
        if !(left[i] == right[i]) {
            assert(view::views(left@)[i as int] != view::views(right@)[i as int]);
            return false;
        }
        i += 1;
    }
    assert(view::views(left@) =~= view::views(right@));
    true
}

/// One entry of a board's log.
///
/// `ParticipantNotAdded`, `ParticipantCouldNotBeRemoved` and
/// `ParticipantCouldNotVote` are the negative events: each records a command
/// that was turned down and changes no state.
#[derive(Debug)]
#[allow(inconsistent_fields)]
pub enum BoardModifiedEvent {
    ParticipantAdded { participant_id: String, participant_name: String },
    ParticipantNotAdded { participant_id: String, reason: ParticipantNotAddedReason },
    ParticipantRemoved { participant_id: String },
    ParticipantCouldNotBeRemoved { participant_id: String, reason: ParticipantNotRemovedReason },
    ParticipantVoted { participant_id: String, vote: Vote },
    ParticipantCouldNotVote { participant_id: String, reasons: Vec<ParticipantNotVotedReason> },
    VotesCleared,
}

/// An entry of a board's log as mathematics.
#[allow(inconsistent_fields)]
pub enum BoardModifiedEventView {
    ParticipantAdded { participant_id: Seq<char>, participant_name: Seq<char> },
    ParticipantNotAdded { participant_id: Seq<char>, reason: ParticipantNotAddedReason },
    ParticipantRemoved { participant_id: Seq<char> },
    ParticipantCouldNotBeRemoved { participant_id: Seq<char>, reason: ParticipantNotRemovedReason },
    ParticipantVoted { participant_id: Seq<char>, vote: VoteView },
    ParticipantCouldNotVote {
        participant_id: Seq<char>,
        reasons: Seq<ParticipantNotVotedReasonView>,
    },
    VotesCleared,
}

impl BoardModifiedEventView {
    /// Whether the event records a command that was turned down.
    pub open spec fn is_negative(self) -> bool {
        self is ParticipantNotAdded || self is ParticipantCouldNotBeRemoved
            || self is ParticipantCouldNotVote
    }
}

impl View for BoardModifiedEvent {
    type V = BoardModifiedEventView;

    open spec fn view(&self) -> BoardModifiedEventView {
        match self {
            BoardModifiedEvent::ParticipantAdded { participant_id, participant_name } =>
                BoardModifiedEventView::ParticipantAdded {
                    participant_id: participant_id@,
                    participant_name: participant_name@,
                },
            BoardModifiedEvent::ParticipantNotAdded { participant_id, reason } =>
                BoardModifiedEventView::ParticipantNotAdded {
                    participant_id: participant_id@,
                    reason: *reason,
                },
            BoardModifiedEvent::ParticipantRemoved { participant_id } =>
                BoardModifiedEventView::ParticipantRemoved { participant_id: participant_id@ },
            BoardModifiedEvent::ParticipantCouldNotBeRemoved { participant_id, reason } =>
                BoardModifiedEventView::ParticipantCouldNotBeRemoved {
                    participant_id: participant_id@,
                    reason: *reason,
                },
            BoardModifiedEvent::ParticipantVoted { participant_id, vote } =>
                BoardModifiedEventView::ParticipantVoted {
                    participant_id: participant_id@,
                    vote: vote@,
                },
            BoardModifiedEvent::ParticipantCouldNotVote { participant_id, reasons } =>
                BoardModifiedEventView::ParticipantCouldNotVote {
                    participant_id: participant_id@,
                    reasons: view::views(reasons@),
                },
            BoardModifiedEvent::VotesCleared => BoardModifiedEventView::VotesCleared,
        }
    }
}

impl BoardModifiedEvent {
    /// Whether the event records a command that was turned down.
    pub fn is_negative(&self) -> (negative: bool)
        ensures
            negative == self@.is_negative(),
    {
        match self {
            BoardModifiedEvent::ParticipantNotAdded { .. } => true,
            BoardModifiedEvent::ParticipantCouldNotBeRemoved { .. } => true,
            BoardModifiedEvent::ParticipantCouldNotVote { .. } => true,
            _ => false,
        }
    }
}

impl Clone for BoardModifiedEvent {
    fn clone(&self) -> (copy: Self)
        ensures
            copy@ == self@,
    {
        match self {
            BoardModifiedEvent::ParticipantAdded { participant_id, participant_name } =>
                BoardModifiedEvent::ParticipantAdded {
                    participant_id: participant_id.clone(),
                    participant_name: participant_name.clone(),
                },
            BoardModifiedEvent::ParticipantNotAdded { participant_id, reason } =>
                BoardModifiedEvent::ParticipantNotAdded {
                    participant_id: participant_id.clone(),
                    reason: *reason,
                },
            BoardModifiedEvent::ParticipantRemoved { participant_id } =>
                BoardModifiedEvent::ParticipantRemoved { participant_id: participant_id.clone() },
            BoardModifiedEvent::ParticipantCouldNotBeRemoved { participant_id, reason } =>
                BoardModifiedEvent::ParticipantCouldNotBeRemoved {
                    participant_id: participant_id.clone(),
                    reason: *reason,
                },
            BoardModifiedEvent::ParticipantVoted { participant_id, vote } =>
                BoardModifiedEvent::ParticipantVoted {
                    participant_id: participant_id.clone(),
                    vote: vote.clone(),
                },
            BoardModifiedEvent::ParticipantCouldNotVote { participant_id, reasons } =>
                BoardModifiedEvent::ParticipantCouldNotVote {
                    participant_id: participant_id.clone(),
                    reasons: clone_reasons(reasons),
                },
            BoardModifiedEvent::VotesCleared => BoardModifiedEvent::VotesCleared,
        }
    }
}

impl PartialEq for BoardModifiedEvent {
    fn eq(&self, other: &Self) -> (equal: bool) {
        match (self, other) {
            (
                BoardModifiedEvent::ParticipantAdded { participant_id: a, participant_name: name_a },
                BoardModifiedEvent::ParticipantAdded { participant_id: b, participant_name: name_b },
            ) => *a == *b && *name_a == *name_b,
            (
                BoardModifiedEvent::ParticipantNotAdded { participant_id: a, reason: reason_a },
                BoardModifiedEvent::ParticipantNotAdded { participant_id: b, reason: reason_b },
            ) => *a == *b && *reason_a == *reason_b,
            (
                BoardModifiedEvent::ParticipantRemoved { participant_id: a },
                BoardModifiedEvent::ParticipantRemoved { participant_id: b },
            ) => *a == *b,
            (
                BoardModifiedEvent::ParticipantCouldNotBeRemoved {
                    participant_id: a,
                    reason: reason_a,
                },
                BoardModifiedEvent::ParticipantCouldNotBeRemoved {
                    participant_id: b,
                    reason: reason_b,
                },
            ) => *a == *b && *reason_a == *reason_b,
            (
                BoardModifiedEvent::ParticipantVoted { participant_id: a, vote: vote_a },
                BoardModifiedEvent::ParticipantVoted { participant_id: b, vote: vote_b },
            ) => *a == *b && *vote_a == *vote_b,
            (
                BoardModifiedEvent::ParticipantCouldNotVote { participant_id: a, reasons: reasons_a },
                BoardModifiedEvent::ParticipantCouldNotVote { participant_id: b, reasons: reasons_b },
            ) => *a == *b && same_reasons(reasons_a, reasons_b),
            (BoardModifiedEvent::VotesCleared, BoardModifiedEvent::VotesCleared) => true,
            _ => false,
        }
    }
}

impl PartialEqSpecImpl for BoardModifiedEvent {
    open spec fn obeys_eq_spec() -> bool {
        true
    }

    open spec fn eq_spec(&self, other: &Self) -> bool {
        self@ == other@
    }
}

/// A change of the vote types that a board offers.
#[derive(Debug)]
pub enum VoteTypeEvent {
    VoteTypeAdded { vote_type_id: String, vote_validation: VoteValidation },
}

/// A change of the vote types as mathematics.
pub enum VoteTypeEventView {
    VoteTypeAdded { vote_type_id: Seq<char>, vote_validation: VoteValidation },
}

impl View for VoteTypeEvent {
    type V = VoteTypeEventView;

    open spec fn view(&self) -> VoteTypeEventView {
        match self {
            VoteTypeEvent::VoteTypeAdded { vote_type_id, vote_validation } =>
                VoteTypeEventView::VoteTypeAdded {
                    vote_type_id: vote_type_id@,
                    vote_validation: *vote_validation,
                },
        }
    }
}

impl Clone for VoteTypeEvent {
    fn clone(&self) -> (copy: Self)
        ensures
            copy@ == self@,
    {
        match self {
            VoteTypeEvent::VoteTypeAdded { vote_type_id, vote_validation } =>
                VoteTypeEvent::VoteTypeAdded {
                    vote_type_id: vote_type_id.clone(),
                    vote_validation: *vote_validation,
                },
        }
    }
}

impl PartialEq for VoteTypeEvent {
    fn eq(&self, other: &Self) -> (equal: bool) {
        match (self, other) {
            (
                VoteTypeEvent::VoteTypeAdded { vote_type_id: a, vote_validation: validation_a },
                VoteTypeEvent::VoteTypeAdded { vote_type_id: b, vote_validation: validation_b },
            ) => *a == *b && *validation_a == *validation_b,
        }
    }
}

impl PartialEqSpecImpl for VoteTypeEvent {
    open spec fn obeys_eq_spec() -> bool {
        true
    }

    open spec fn eq_spec(&self, other: &Self) -> bool {
        self@ == other@
    }
}

/// An entry of the combined log of a board: its vote types and its own events.
#[derive(Debug)]
pub enum CombinedEvent {
    BoardModifiedEvent(BoardModifiedEvent),
    VoteTypeEvent(VoteTypeEvent),
}

/// An entry of the combined log as mathematics.
pub enum CombinedEventView {
    BoardModifiedEvent(BoardModifiedEventView),
    VoteTypeEvent(VoteTypeEventView),
}

impl View for CombinedEvent {
    type V = CombinedEventView;

    open spec fn view(&self) -> CombinedEventView {
        match self {
            CombinedEvent::BoardModifiedEvent(event) => CombinedEventView::BoardModifiedEvent(
                event@,
            ),
            CombinedEvent::VoteTypeEvent(event) => CombinedEventView::VoteTypeEvent(event@),
        }
    }
}

impl Clone for CombinedEvent {
    fn clone(&self) -> (copy: Self)
        ensures
            copy@ == self@,
    {
        match self {
            CombinedEvent::BoardModifiedEvent(event) => CombinedEvent::BoardModifiedEvent(
                event.clone(),
            ),
            CombinedEvent::VoteTypeEvent(event) => CombinedEvent::VoteTypeEvent(event.clone()),
        }
    }
}

impl PartialEq for CombinedEvent {
    fn eq(&self, other: &Self) -> (equal: bool) {
        match (self, other) {
            (CombinedEvent::BoardModifiedEvent(a), CombinedEvent::BoardModifiedEvent(b)) => *a
                == *b,
            (CombinedEvent::VoteTypeEvent(a), CombinedEvent::VoteTypeEvent(b)) => *a == *b,
            _ => false,
        }
    }
}

impl PartialEqSpecImpl for CombinedEvent {
    open spec fn obeys_eq_spec() -> bool {
        true
    }

    open spec fn eq_spec(&self, other: &Self) -> bool {
        self@ == other@
    }
}

impl From<BoardModifiedEvent> for CombinedEvent {
    fn from(event: BoardModifiedEvent) -> (combined: Self) {
        Self::BoardModifiedEvent(event)
    }
}

impl FromSpecImpl<BoardModifiedEvent> for CombinedEvent {
    open spec fn obeys_from_spec() -> bool {
        true
    }

    open spec fn from_spec(event: BoardModifiedEvent) -> Self {
        CombinedEvent::BoardModifiedEvent(event)
    }
}

impl From<VoteTypeEvent> for CombinedEvent {
    fn from(event: VoteTypeEvent) -> (combined: Self) {
        Self::VoteTypeEvent(event)
    }
}

impl FromSpecImpl<VoteTypeEvent> for CombinedEvent {
    open spec fn obeys_from_spec() -> bool {
        true
    }

    open spec fn from_spec(event: VoteTypeEvent) -> Self {
        CombinedEvent::VoteTypeEvent(event)
    }
}

} // verus!
