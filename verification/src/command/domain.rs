//! The aggregate that commands are validated against.
//!
//! It is folded from the log and never stored. Of a board it remembers who
//! takes part; of the vote types, which there are. Everything else in the log,
//! the negative events among it, leaves it as it is.
use vstd::prelude::*;
use crate::command::event::{
    BoardModifiedEvent, BoardModifiedEventView, CombinedEvent, CombinedEventView, VoteTypeEvent,
    VoteTypeEventView, VoteValidation,
};
use crate::util::entity::HandleEvent;
use crate::util::keyed;
use crate::util::keyed::KeyedList;

pub mod add_participant;
pub mod clear_votes;
pub mod remove_participant;
pub mod vote;

verus! {

/// Someone who takes part in a board.
#[derive(Debug)]
pub struct Participant {
    name: String,
}

/// A participant as mathematics.
pub struct ParticipantView {
    pub name: Seq<char>,
}

impl View for Participant {
    type V = ParticipantView;

    closed spec fn view(&self) -> ParticipantView {
        ParticipantView { name: self.name@ }
    }
}

impl Participant {
    pub fn new(name: String) -> (participant: Self)
        ensures
            participant@ == (ParticipantView { name: name@ }),
    {
        Self { name }
    }

    /// The participant's name.
    pub fn name(&self) -> (name: &String)
        ensures
            name@ == self@.name,
    {
        &self.name
    }
}

impl Clone for Participant {
    fn clone(&self) -> (copy: Self)
        ensures
            copy@ == self@,
    {
        Self { name: self.name.clone() }
    }
}

impl PartialEq for Participant {
    fn eq(&self, other: &Self) -> (equal: bool) {
        self.name == other.name
    }
}

impl vstd::std_specs::cmp::PartialEqSpecImpl for Participant {
    open spec fn obeys_eq_spec() -> bool {
        true
    }

    open spec fn eq_spec(&self, other: &Self) -> bool {
        self@ == other@
    }
}

/// The participants of a board, each under their id.
#[derive(Debug)]
pub struct Board {
    participants: KeyedList<Participant>,
}

/// A board as mathematics: the participants under their ids, in the order in
/// which they joined.
pub struct BoardView {
    pub participants: Seq<(Seq<char>, ParticipantView)>,
}

impl BoardView {
    /// The board that nobody has joined.
    pub open spec fn empty() -> BoardView {
        BoardView { participants: Seq::empty() }
    }

    /// Whether no id stands for two participants.
    pub open spec fn well_formed(self) -> bool {
        keyed::distinct_keys(self.participants)
    }

    /// Whether a participant stands under `participant_id`.
    pub open spec fn has_participant(self, participant_id: Seq<char>) -> bool {
        keyed::holds_key(self.participants, participant_id)
    }

    /// The board after `event`. Only `ParticipantAdded` and
    /// `ParticipantRemoved` change it.
    pub open spec fn apply(self, event: BoardModifiedEventView) -> BoardView {
        match event {
            BoardModifiedEventView::ParticipantAdded { participant_id, participant_name } =>
                BoardView {
                    participants: keyed::upsert(
                        self.participants,
                        participant_id,
                        ParticipantView { name: participant_name },
                    ),
                },
            BoardModifiedEventView::ParticipantRemoved { participant_id } => BoardView {
                participants: keyed::without(self.participants, participant_id),
            },
            _ => self,
        }
    }
}

impl View for Board {
    type V = BoardView;

    closed spec fn view(&self) -> BoardView {
        BoardView { participants: self.participants@ }
    }
}

impl Board {
    pub fn new() -> (board: Self)
        ensures
            board@ == BoardView::empty(),
    {
        Self { participants: KeyedList::new() }
    }

    /// The number of participants.
    pub fn len(&self) -> (len: usize)
        ensures
            len == self@.participants.len(),
            self@.well_formed(),
    {
        self.participants.len()
    }

    /// Whether a participant stands under `participant_id`.
    pub fn has_participant(&self, participant_id: &str) -> (held: bool)
        ensures
            held == self@.has_participant(participant_id@),
    {
        self.participants.contains_key(participant_id)
    }

    /// The participant under `participant_id`.
    pub fn participant(&self, participant_id: &str) -> (participant: Option<&Participant>)
        ensures
            match participant {
                Some(held) => keyed::lookup(self@.participants, participant_id@) == Some(held@),
                None => keyed::lookup(self@.participants, participant_id@) is None,
            },
    {
        self.participants.get(participant_id)
    }
}

impl Default for Board {
    fn default() -> (board: Self)
        ensures
            board@ == BoardView::empty(),
    {
        Self::new()
    }
}

impl Clone for Board {
    fn clone(&self) -> (copy: Self)
        ensures
            copy@ == self@,
    {
        let mut copy = Self::new();
        let count = self.participants.len();
        let mut i: usize = 0;
        while i < count
            invariant
                i <= count,
                count == self@.participants.len(),
                keyed::distinct_keys(self@.participants),
                copy@.participants == self@.participants.take(i as int),
            decreases count - i,
        {
            let key = self.participants.key_at(i).clone();
            let participant = self.participants.value_at(i).clone();
            copy.participants.insert(key, participant);
            i += 1;
        }
        assert(self@.participants.take(i as int) =~= self@.participants);
        copy
    }
}

impl PartialEq for Board {
    fn eq(&self, other: &Self) -> (equal: bool) {
        let count = self.participants.len();
        if count != other.participants.len() {
            return false;
        }
        let mut i: usize = 0;
        while i < count
            invariant
                i <= count,
                count == self@.participants.len(),
                count == other@.participants.len(),
                forall|j: int| 0 <= j < i ==> self@.participants[j] == other@.participants[j],
            decreases count - i,
        {
            let same_key = crate::util::text::same_text(
                self.participants.key_at(i).as_str(),
                other.participants.key_at(i).as_str(),
            );
            if !same_key || !(*self.participants.value_at(i) == *other.participants.value_at(i)) {
                return false;
            }
            i += 1;
        }
        assert(self@.participants =~= other@.participants);
        true
    }
}

impl vstd::std_specs::cmp::PartialEqSpecImpl for Board {
    open spec fn obeys_eq_spec() -> bool {
        true
    }

    open spec fn eq_spec(&self, other: &Self) -> bool {
        self@ == other@
    }
}

impl HandleEvent for Board {
    type Event = BoardModifiedEvent;

    type Model = BoardView;

    open spec fn model(&self) -> BoardView {
        self@
    }

    open spec fn initial() -> BoardView {
        BoardView::empty()
    }

    open spec fn applied(model: BoardView, event: BoardModifiedEventView) -> BoardView {
        model.apply(event)
    }

    open spec fn headroom(&self) -> nat {
        usize::MAX as nat
    }

    proof fn default_is_initial(state: Self) {
    }

    fn apply(&mut self, event: &BoardModifiedEvent) {
        match event {
            BoardModifiedEvent::ParticipantAdded { participant_id, participant_name } => {
                let participant = Participant::new(participant_name.clone());
                self.participants.insert(participant_id.clone(), participant);
            },
            BoardModifiedEvent::ParticipantRemoved { participant_id } => {
                self.participants.remove(participant_id.as_str());
            },
            BoardModifiedEvent::ParticipantCouldNotBeRemoved { .. } => {},
            BoardModifiedEvent::ParticipantVoted { .. } => {},
            BoardModifiedEvent::ParticipantCouldNotVote { .. } => {},
            BoardModifiedEvent::VotesCleared => {},
            BoardModifiedEvent::ParticipantNotAdded { .. } => {},
        }
    }
}

/// A kind of vote that participants may cast, and how its values are checked.
#[derive(Debug)]
pub struct VoteType {
    pub id: String,
    pub validation: VoteValidation,
}

/// A vote type as mathematics.
pub struct VoteTypeView {
    pub id: Seq<char>,
    pub validation: VoteValidation,
}

impl View for VoteType {
    type V = VoteTypeView;

    open spec fn view(&self) -> VoteTypeView {
        VoteTypeView { id: self.id@, validation: self.validation }
    }
}

impl VoteType {
    pub fn new(id: String, validation: VoteValidation) -> (vote_type: Self)
        ensures
            vote_type@ == (VoteTypeView { id: id@, validation }),
    {
        Self { id, validation }
    }
}

impl Clone for VoteType {
    fn clone(&self) -> (copy: Self)
        ensures
            copy@ == self@,
    {
        Self { id: self.id.clone(), validation: self.validation }
    }
}

/// The vote types of a board, each under its id.
#[derive(Debug)]
pub struct VoteTypeList {
    pub vote_types: KeyedList<VoteType>,
}

/// The vote types as mathematics, in the order in which they were added.
pub struct VoteTypeListView {
    pub vote_types: Seq<(Seq<char>, VoteTypeView)>,
}

impl VoteTypeListView {
    /// The list without any vote type.
    pub open spec fn empty() -> VoteTypeListView {
        VoteTypeListView { vote_types: Seq::empty() }
    }

    /// Whether no id stands for two vote types.
    pub open spec fn well_formed(self) -> bool {
        keyed::distinct_keys(self.vote_types)
    }

    /// The list with `vote_type` under its own id.
    pub open spec fn add_vote_type(self, vote_type: VoteTypeView) -> VoteTypeListView {
        VoteTypeListView { vote_types: keyed::upsert(self.vote_types, vote_type.id, vote_type) }
    }

    /// The list after `event`.
    pub open spec fn apply(self, event: VoteTypeEventView) -> VoteTypeListView {
        match event {
            VoteTypeEventView::VoteTypeAdded { vote_type_id, vote_validation } =>
                self.add_vote_type(VoteTypeView { id: vote_type_id, validation: vote_validation }),
        }
    }
}

impl View for VoteTypeList {
    type V = VoteTypeListView;

    open spec fn view(&self) -> VoteTypeListView {
        VoteTypeListView { vote_types: self.vote_types@ }
    }
}

impl VoteTypeList {
    /// Puts `vote_type` under its own id, in the place of an older vote type
    /// of that id if there is one.
    pub fn add_vote_type(&mut self, vote_type: VoteType)
        ensures
            final(self)@ == old(self)@.add_vote_type(vote_type@),
    {
        self.vote_types.insert(vote_type.id.clone(), vote_type);
    }
}

impl Default for VoteTypeList {
    fn default() -> (list: Self)
        ensures
            list@ == VoteTypeListView::empty(),
    {
        Self { vote_types: KeyedList::new() }
    }
}

impl Clone for VoteTypeList {
    fn clone(&self) -> (copy: Self)
        ensures
            copy@ == self@,
    {
        let mut copy = Self::default();
        let count = self.vote_types.len();
        let mut i: usize = 0;
        while i < count
            invariant
                i <= count,
                count == self@.vote_types.len(),
                keyed::distinct_keys(self@.vote_types),
                copy@.vote_types == self@.vote_types.take(i as int),
            decreases count - i,
        {
            let key = self.vote_types.key_at(i).clone();
            let vote_type = self.vote_types.value_at(i).clone();
            copy.vote_types.insert(key, vote_type);
            i += 1;
        }
        assert(self@.vote_types.take(i as int) =~= self@.vote_types);
        copy
    }
}

impl HandleEvent for VoteTypeList {
    type Event = VoteTypeEvent;

    type Model = VoteTypeListView;

    open spec fn model(&self) -> VoteTypeListView {
        self@
    }

    open spec fn initial() -> VoteTypeListView {
        VoteTypeListView::empty()
    }

    open spec fn applied(model: VoteTypeListView, event: VoteTypeEventView) -> VoteTypeListView {
        model.apply(event)
    }

    open spec fn headroom(&self) -> nat {
        usize::MAX as nat
    }

    proof fn default_is_initial(state: Self) {
    }

    fn apply(&mut self, event: &VoteTypeEvent) {
        match event {
            VoteTypeEvent::VoteTypeAdded { vote_type_id, vote_validation } => {
                self.add_vote_type(VoteType::new(vote_type_id.clone(), *vote_validation));
            },
        }
    }
}

/// The whole aggregate of a board: its vote types and its participants.
#[derive(Debug)]
pub struct CombinedDomain(VoteTypeList, Board);

/// The whole aggregate as mathematics.
pub struct CombinedDomainView {
    pub vote_type_list: VoteTypeListView,
    pub board: BoardView,
}

impl CombinedDomainView {
    /// The aggregate of a board without vote types and participants.
    pub open spec fn empty() -> CombinedDomainView {
        CombinedDomainView { vote_type_list: VoteTypeListView::empty(), board: BoardView::empty() }
    }

    /// Whether both parts are well formed.
    pub open spec fn well_formed(self) -> bool {
        self.vote_type_list.well_formed() && self.board.well_formed()
    }

    /// The aggregate after `event`: each event goes to the part it is about.
    pub open spec fn apply(self, event: CombinedEventView) -> CombinedDomainView {
        match event {
            CombinedEventView::VoteTypeEvent(event) => CombinedDomainView {
                vote_type_list: self.vote_type_list.apply(event),
                board: self.board,
            },
            CombinedEventView::BoardModifiedEvent(event) => CombinedDomainView {
                vote_type_list: self.vote_type_list,
                board: self.board.apply(event),
            },
        }
    }
}

impl View for CombinedDomain {
    type V = CombinedDomainView;

    closed spec fn view(&self) -> CombinedDomainView {
        CombinedDomainView { vote_type_list: self.0@, board: self.1@ }
    }
}

impl CombinedDomain {
    /// The aggregate made of `vote_type_list` and `board`.
    pub fn new(vote_type_list: VoteTypeList, board: Board) -> (domain: Self)
        ensures
            domain@ == (CombinedDomainView { vote_type_list: vote_type_list@, board: board@ }),
    {
        Self(vote_type_list, board)
    }

    pub fn vote_type_list(&self) -> (vote_type_list: &VoteTypeList)
        ensures
            vote_type_list@ == self@.vote_type_list,
    {
        &self.0
    }

    pub fn board(&self) -> (board: &Board)
        ensures
            board@ == self@.board,
    {
        &self.1
    }
}

impl Default for CombinedDomain {
    fn default() -> (domain: Self)
        ensures
            domain@ == CombinedDomainView::empty(),
    {
        Self(VoteTypeList::default(), Board::default())
    }
}

impl Clone for CombinedDomain {
    fn clone(&self) -> (copy: Self)
        ensures
            copy@ == self@,
    {
        Self(self.0.clone(), self.1.clone())
    }
}

impl HandleEvent for CombinedDomain {
    type Event = CombinedEvent;

    type Model = CombinedDomainView;

    open spec fn model(&self) -> CombinedDomainView {
        self@
    }

    open spec fn initial() -> CombinedDomainView {
        CombinedDomainView::empty()
    }

    open spec fn applied(model: CombinedDomainView, event: CombinedEventView) -> CombinedDomainView {
        model.apply(event)
    }

    open spec fn headroom(&self) -> nat {
        usize::MAX as nat
    }

    proof fn default_is_initial(state: Self) {
    }

    fn apply(&mut self, event: &CombinedEvent) {
        match event {
            CombinedEvent::VoteTypeEvent(vote_type_event) => {
                self.0.apply(vote_type_event);
            },
            CombinedEvent::BoardModifiedEvent(board_modified_event) => {
                self.1.apply(board_modified_event);
            },
        }
    }
}

/// A negative event leaves the board as it is.
pub proof fn lemma_negative_event_leaves_board(board: BoardView, event: BoardModifiedEventView)
    requires
        event.is_negative(),
    ensures
        board.apply(event) == board,
{
}

/// A negative event leaves the whole aggregate as it is.
pub proof fn lemma_negative_event_leaves_domain(
    domain: CombinedDomainView,
    event: BoardModifiedEventView,
)
    requires
        event.is_negative(),
    ensures
        domain.apply(CombinedEventView::BoardModifiedEvent(event)) == domain,
{
}

/// Only the adding and the removing of participants change the board: votes
/// and cleared votes leave it as it is, as the negative events do.
pub proof fn lemma_board_follows_participants_only(board: BoardView, event: BoardModifiedEventView)
    requires
        !(event is ParticipantAdded),
        !(event is ParticipantRemoved),
    ensures
        board.apply(event) == board,
{
}

/// Events keep the aggregate well formed.
pub proof fn lemma_apply_keeps_well_formed(domain: CombinedDomainView, event: CombinedEventView)
    requires
        domain.well_formed(),
    ensures
        domain.apply(event).well_formed(),
{
    match event {
        CombinedEventView::VoteTypeEvent(VoteTypeEventView::VoteTypeAdded {
            vote_type_id,
            vote_validation,
        }) => {
        },
        CombinedEventView::BoardModifiedEvent(event) => {
            match event {
                BoardModifiedEventView::ParticipantAdded { participant_id, participant_name } => {
                },
                BoardModifiedEventView::ParticipantRemoved { participant_id } => {
                },
                _ => {},
            }
        },
    }
}

} // verus!
