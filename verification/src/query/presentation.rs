//! The view of a board that is sent to clients.
//!
//! It lists the participants with their votes and says whether the round is
//! complete. Once it is, the view carries the statistics of the votes.
use vstd::prelude::*;
use vstd::relations::{sorted_by, total_ordering};
use vstd::std_specs::cmp::PartialEqSpecImpl;
use crate::query::{Board, Participant, ParticipantView};
use crate::util::query::PresentationOf;
use crate::util::view;

verus! {

/// The participants as they are shown: in order, without their ids.
pub open spec fn shown_participants(participants: Seq<(Seq<char>, ParticipantView)>) -> Seq<
    ParticipantView,
> {
    Seq::new(participants.len(), |i: int| participants[i].1)
}

/// The votes that count for the statistics: the votes other than zero, in the
/// order of the participants.
pub open spec fn counted_votes(participants: Seq<ParticipantView>) -> Seq<u8>
    decreases participants.len(),
{
    if participants.len() == 0 {
        Seq::empty()
    } else {
        match participants.last().vote {
            Some(vote) if vote != 0 => counted_votes(participants.drop_last()).push(vote),
            _ => counted_votes(participants.drop_last()),
        }
    }
}

/// The order in which votes are sorted.
pub open spec fn at_most() -> spec_fn(u8, u8) -> bool {
    |a: u8, b: u8| a <= b
}

/// `votes` in ascending order.
pub open spec fn ascending(votes: Seq<u8>) -> Seq<u8> {
    votes.sort_by(at_most())
}

/// The vote in the middle of `votes` once they are sorted: the one at half
/// their number, rounded down.
pub open spec fn median(votes: Seq<u8>) -> u8
    recommends
        votes.len() > 0,
{
    ascending(votes)[votes.len() as int / 2]
}

/// The statistics of a round of voting.
#[derive(Debug, Clone, Copy, PartialEq, Eq, Structural, Default)]
pub struct Stats {
    pub average: usize,
    pub max: usize,
    pub min: usize,
}

/// The statistics of `participants`: none unless some vote counts; else the
/// median, the largest and the smallest of the votes that count.
pub open spec fn stats_of(participants: Seq<ParticipantView>) -> Option<Stats> {
    let votes = counted_votes(participants);
    if votes.len() == 0 {
        None
    } else {
        Some(
            Stats {
                average: median(votes) as usize,
                max: ascending(votes).last() as usize,
                min: ascending(votes).first() as usize,
            },
        )
    }
}

/// Sorting rearranges the votes and adds or loses none.
pub proof fn lemma_ascending(votes: Seq<u8>)
    ensures
        ascending(votes).len() == votes.len(),
        ascending(votes).to_multiset() == votes.to_multiset(),
        forall|i: int, j: int|
            0 <= i < j < votes.len() ==> ascending(votes)[i] <= ascending(votes)[j],
        forall|i: int| 0 <= i < votes.len() ==> votes.contains(#[trigger] ascending(votes)[i]),
{
    votes.lemma_sort_by_ensures(at_most());
    let sorted = ascending(votes);
    vstd::seq_lib::to_multiset_len(sorted);
    vstd::seq_lib::to_multiset_len(votes);
    assert forall|i: int, j: int| 0 <= i < j < votes.len() implies sorted[i] <= sorted[j] by {
        assert(at_most()(sorted[i], sorted[j]));
    }
    assert forall|i: int| 0 <= i < votes.len() implies votes.contains(#[trigger] sorted[i]) by {
        assert(sorted.contains(sorted[i]));
    }
}

fn sorted_votes(votes: &Vec<u8>) -> (sorted: Vec<u8>)
    ensures
        sorted@ == ascending(votes@),
{
    let mut sorted: Vec<u8> = Vec::new();
    let mut i: usize = 0;
    assert(votes@.take(0) =~= sorted@);
    while i < votes.len()
        invariant
            i <= votes@.len(),
            sorted@.len() == i,
            sorted_by(sorted@, at_most()),
            sorted@.to_multiset() == votes@.take(i as int).to_multiset(),
        decreases votes@.len() - i,
    {
        let vote = votes[i];
        let mut place: usize = 0;
        while place < sorted.len() && sorted[place] <= vote
            invariant
                place <= sorted@.len(),
                forall|j: int| 0 <= j < place ==> sorted@[j] <= vote,
            decreases sorted@.len() - place,
        {
            place += 1;
        }
        proof {
            let before = sorted@;
            let after = before.insert(place as int, vote);
            vstd::seq_lib::to_multiset_insert(before, place as int, vote);
            vstd::seq_lib::to_multiset_build(votes@.take(i as int), vote);
            assert(votes@.take(i as int).push(vote) =~= votes@.take(i + 1));
            assert forall|a: int, b: int| 0 <= a < b < after.len() implies #[trigger] at_most()(
                after[a],
                after[b],
            ) by {
                let from_b = if b < place { b } else { b - 1 };
                if a == place {
                    assert(at_most()(before[place as int], before[from_b]));
                }
            }
        }
        sorted.insert(place, vote);
        i += 1;
    }
    proof {
        assert(votes@.take(i as int) =~= votes@);
        votes@.lemma_sort_by_ensures(at_most());
        vstd::seq_lib::lemma_sorted_unique(sorted@, ascending(votes@), at_most());
    }
    sorted
}

/// The vote in the middle of the sorted `votes`, if there are any.
pub fn average(votes: &Vec<u8>) -> (middle: Option<u8>)
    ensures
        middle == if votes@.len() == 0 {
            None
        } else {
            Some(median(votes@))
        },
{
    if votes.len() == 0 {
        None
    } else {
        let sorted = sorted_votes(votes);
        proof {
            lemma_ascending(votes@);
        }
        let middle = votes.len() / 2;
        Some(sorted[middle])
    }
}

/// The statistics of the votes of `participants`. Votes of zero and
/// participants without a vote are left out.
pub fn stats(participants: Vec<Participant>) -> (stats: Option<Stats>)
    ensures
        stats == stats_of(view::views(participants@)),
{
    let mut votes: Vec<u8> = Vec::new();
    let mut i: usize = 0;
    while i < participants.len()
        invariant
            i <= participants@.len(),
            votes@ == counted_votes(view::views(participants@).take(i as int)),
        decreases participants@.len() - i,
    {
        proof {
            let shown = view::views(participants@);
            assert(shown.take(i + 1).drop_last() =~= shown.take(i as int));
        }
        match participants[i].vote {
            Some(vote) => {
                if vote != 0 {
                    votes.push(vote);
                }
            },
            None => {},
        }
        i += 1;
    }
    assert(view::views(participants@).take(i as int) =~= view::views(participants@));
    if votes.len() == 0 {
        return None;
    }
    let sorted = sorted_votes(&votes);
    proof {
        lemma_ascending(votes@);
    }
    let max = sorted[sorted.len() - 1];
    let min = sorted[0];
    let middle = sorted[votes.len() / 2];
    Some(Stats { average: middle as usize, max: max as usize, min: min as usize })
}

/// What clients are shown of a board.
#[derive(Debug)]
pub struct BoardPresentation {
    participants: Vec<Participant>,
    stats: Option<Stats>,
    voting_complete: bool,
}

/// A presentation as mathematics.
pub struct BoardPresentationView {
    pub participants: Seq<ParticipantView>,
    pub stats: Option<Stats>,
    pub voting_complete: bool,
}

impl BoardPresentationView {
    /// The presentation of `participants`: the statistics are part of it only
    /// when the round is complete.
    pub open spec fn of(participants: Seq<ParticipantView>, voting_complete: bool) -> Self {
        BoardPresentationView {
            participants,
            stats: if voting_complete {
                stats_of(participants)
            } else {
                None
            },
            voting_complete,
        }
    }
}

impl View for BoardPresentation {
    type V = BoardPresentationView;

    closed spec fn view(&self) -> BoardPresentationView {
        BoardPresentationView {
            participants: view::views(self.participants@),
            stats: self.stats,
            voting_complete: self.voting_complete,
        }
    }
}

fn clone_participants(participants: &Vec<Participant>) -> (copy: Vec<Participant>)
    ensures
        view::views(copy@) == view::views(participants@),
{
    let mut copy: Vec<Participant> = Vec::new();
    let mut i: usize = 0;
    while i < participants.len()
        invariant
            i <= participants@.len(),
            copy@.len() == i,
            forall|j: int| 0 <= j < i ==> copy@[j]@ == participants@[j]@,
        decreases participants@.len() - i,
    {
        copy.push(participants[i].clone());
        i += 1;
    }
    copy
}

impl BoardPresentation {
    pub fn new(participants: Vec<Participant>, voting_complete: bool) -> (presentation: Self)
        ensures
            presentation@ == BoardPresentationView::of(
                view::views(participants@),
                voting_complete,
            ),
    {
        let stats = if voting_complete {
            stats(clone_participants(&participants))
        } else {
            None
        };
        Self { stats, participants, voting_complete }
    }

    /// The participants with their votes.
    pub fn participants(&self) -> (participants: &Vec<Participant>)
        ensures
            view::views(participants@) == self@.participants,
    {
        &self.participants
    }

    /// The statistics of the round, once it is complete and some vote counts.
    pub fn stats(&self) -> (stats: Option<Stats>)
        ensures
            stats == self@.stats,
    {
        self.stats
    }

    /// Whether the round of voting is complete.
    pub fn voting_complete(&self) -> (complete: bool)
        ensures
            complete == self@.voting_complete,
    {
        self.voting_complete
    }
}

impl Default for BoardPresentation {
    fn default() -> (presentation: Self)
        ensures
            presentation@ == BoardPresentationView::of(Seq::empty(), false),
    {
        let presentation = Self { participants: Vec::new(), stats: None, voting_complete: false };
        assert(presentation@.participants =~= Seq::empty());
        presentation
    }
}

impl Clone for BoardPresentation {
    fn clone(&self) -> (copy: Self)
        ensures
            copy@ == self@,
    {
        Self {
            participants: clone_participants(&self.participants),
            stats: self.stats,
            voting_complete: self.voting_complete,
        }
    }
}

impl PartialEq for BoardPresentation {
    fn eq(&self, other: &Self) -> (equal: bool) {
        if self.voting_complete != other.voting_complete || self.stats != other.stats {
            return false;
        }
        if self.participants.len() != other.participants.len() {
            assert(self@.participants.len() != other@.participants.len());
            return false;
        }
        let mut i: usize = 0;
        while i < self.participants.len()
            invariant
                i <= self.participants@.len(),
                self.participants@.len() == other.participants@.len(),
                forall|j: int| 0 <= j < i ==> self.participants@[j]@ == other.participants@[j]@,
            decreases self.participants@.len() - i,
        {
            if !(self.participants[i] == other.participants[i]) {
                assert(self@.participants[i as int] != other@.participants[i as int]);
                return false;
            }
            i += 1;
        }
        assert(self@.participants =~= other@.participants);
        true
    }
}

impl PartialEqSpecImpl for BoardPresentation {
    open spec fn obeys_eq_spec() -> bool {
        true
    }

    open spec fn eq_spec(&self, other: &Self) -> bool {
        self@ == other@
    }
}

impl PresentationOf for BoardPresentation {
    type Model = Board;

    open spec fn presents(model: &Board, presentation: Self) -> bool {
        presentation@ == BoardPresentationView::of(
            shown_participants(model@.participants),
            model@.voting_complete,
        )
    }

    fn from_model(model: &Board) -> (presentation: Self) {
        BoardPresentation::new(model.participants(), model.voting_complete())
    }
}

/// The votes that count are the votes other than zero that were cast.
pub proof fn lemma_counted_votes(participants: Seq<ParticipantView>)
    ensures
        forall|vote: u8| #[trigger]
            counted_votes(participants).contains(vote) <==> vote != 0 && exists|i: int|
                0 <= i < participants.len() && (#[trigger] participants[i]).vote == Some(vote),
    decreases participants.len(),
{
    let votes = counted_votes(participants);
    if participants.len() > 0 {
        let earlier = participants.drop_last();
        let counted = counted_votes(earlier);
        lemma_counted_votes(earlier);
        assert forall|vote: u8| #[trigger]
            votes.contains(vote) <==> vote != 0 && exists|i: int|
                0 <= i < participants.len() && (#[trigger] participants[i]).vote == Some(
                    vote,
                ) by {
            if votes.contains(vote) {
                let k = choose|k: int| 0 <= k < votes.len() && votes[k] == vote;
                if k < counted.len() {
                    assert(counted.contains(vote));
                }
            }
            if vote != 0 && exists|i: int|
                0 <= i < participants.len() && (#[trigger] participants[i]).vote == Some(vote) {
                let i = choose|i: int|
                    0 <= i < participants.len() && (#[trigger] participants[i]).vote == Some(vote);
                if i < earlier.len() {
                    assert(earlier[i].vote == Some(vote));
                    assert(counted.contains(vote));
                    let k = choose|k: int| 0 <= k < counted.len() && counted[k] == vote;
                    assert(votes[k] == vote);
                } else {
                    assert(votes[votes.len() - 1] == vote);
                }
            }
        }
    }
}

/// A presentation carries statistics exactly when the round is complete and
/// some vote other than zero was cast. The statistics are then votes that
/// were cast, other than zero, and the smallest of them is at most the one
/// in the middle, which is at most the largest.
pub proof fn lemma_stats_gating(participants: Seq<ParticipantView>, voting_complete: bool)
    ensures
        BoardPresentationView::of(participants, voting_complete).stats is Some <==> voting_complete
            && exists|i: int|
            0 <= i < participants.len() && (#[trigger] participants[i]).vote is Some
                && participants[i].vote->0 != 0,
        BoardPresentationView::of(participants, voting_complete).stats matches Some(stats) ==> {
            &&& stats.min <= stats.average <= stats.max
            &&& exists|i: int|
                0 <= i < participants.len() && (#[trigger] participants[i]).vote is Some
                    && participants[i].vote->0 != 0 && participants[i].vote->0 == stats.min
            &&& exists|i: int|
                0 <= i < participants.len() && (#[trigger] participants[i]).vote is Some
                    && participants[i].vote->0 != 0 && participants[i].vote->0 == stats.average
            &&& exists|i: int|
                0 <= i < participants.len() && (#[trigger] participants[i]).vote is Some
                    && participants[i].vote->0 != 0 && participants[i].vote->0 == stats.max
        },
{
    let votes = counted_votes(participants);
    lemma_counted_votes(participants);
    lemma_ascending(votes);
    if votes.len() == 0 && exists|i: int|
        0 <= i < participants.len() && (#[trigger] participants[i]).vote is Some
            && participants[i].vote->0 != 0 {
        let i = choose|i: int|
            0 <= i < participants.len() && (#[trigger] participants[i]).vote is Some
                && participants[i].vote->0 != 0;
        assert(votes.contains(participants[i].vote->0));
    }
}

} // verus!
