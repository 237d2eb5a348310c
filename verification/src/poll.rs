//! The loop that keeps the application list fresh, as a machine of states.
//!
//! A round lists the application directory, pauses, and lists it again. Where
//! the two listings differ the application list is rebuilt; then the next
//! round begins. The machine decides; whoever drives it lists, sleeps and
//! rebuilds, and tells the machine when that is done.

use crate::text::texts;
use vstd::prelude::*;

verus! {

/// The length of the pause between the two listings of a round, in seconds.
pub const PAUSE_SECONDS: u64 = 1;

/// What the driver of the loop is asked to do.
#[derive(Clone, Copy, Debug, PartialEq, Eq)]
pub enum PollAction {
    /// List the entries of the application directory.
    List,
    /// Sleep for so many seconds.
    Pause { seconds: u64 },
    /// Run the discovery and replace the application list with what it
    /// found.
    Refresh,
}

/// What the driver of the loop reports.
#[derive(Clone, Debug, PartialEq, Eq)]
pub enum PollEvent {
    /// The application directory was listed and held these entries.
    Listed { entries: Vec<String> },
    /// The pause is over.
    Paused,
    /// The application list was replaced.
    Refreshed,
}

/// What a [`PollEvent`] holds.
pub enum PollEventView {
    Listed { entries: Seq<Seq<char>> },
    Paused,
    Refreshed,
}

impl View for PollEvent {
    type V = PollEventView;

    open spec fn view(&self) -> PollEventView {
        match self {
            PollEvent::Listed { entries } => PollEventView::Listed { entries: texts(entries@) },
            PollEvent::Paused => PollEventView::Paused,
            PollEvent::Refreshed => PollEventView::Refreshed,
        }
    }
}

/// Where the loop stands.
#[derive(Clone, Debug, PartialEq, Eq)]
pub enum PollState {
    /// A round begins: the first listing is awaited.
    ListingBefore,
    /// The first listing is held and the pause runs.
    Pausing { before: Vec<String> },
    /// The first listing is held and the second is awaited.
    ListingAfter { before: Vec<String> },
    /// The listings differed: the new application list is awaited.
    Refreshing,
}

/// What a [`PollState`] holds.
pub enum PollStateView {
    ListingBefore,
    Pausing { before: Seq<Seq<char>> },
    ListingAfter { before: Seq<Seq<char>> },
    Refreshing,
}

impl View for PollState {
    type V = PollStateView;

    open spec fn view(&self) -> PollStateView {
        match self {
            PollState::ListingBefore => PollStateView::ListingBefore,
            PollState::Pausing { before } => PollStateView::Pausing { before: texts(before@) },
            PollState::ListingAfter { before } => PollStateView::ListingAfter {
                before: texts(before@),
            },
            PollState::Refreshing => PollStateView::Refreshing,
        }
    }
}

/// What a state asks of the driver.
pub open spec fn pending(state: PollStateView) -> PollAction {
    match state {
        PollStateView::ListingBefore => PollAction::List,
        PollStateView::Pausing { .. } => PollAction::Pause { seconds: PAUSE_SECONDS },
        PollStateView::ListingAfter { .. } => PollAction::List,
        PollStateView::Refreshing => PollAction::Refresh,
    }
}

/// The state after `event`. The event that a state waits for moves the loop
/// on; any other event leaves the state as it is. Two listings are compared
/// as sequences, so the same entries in another order count as a change.
pub open spec fn next_state(state: PollStateView, event: PollEventView) -> PollStateView {
    match (state, event) {
        (PollStateView::ListingBefore, PollEventView::Listed { entries }) => PollStateView::Pausing {
            before: entries,
        },
        (PollStateView::Pausing { before }, PollEventView::Paused) => PollStateView::ListingAfter {
            before,
        },
        (PollStateView::ListingAfter { before }, PollEventView::Listed { entries }) => {
            if before == entries {
                PollStateView::ListingBefore
            } else {
                PollStateView::Refreshing
            }
        },
        (PollStateView::Refreshing, PollEventView::Refreshed) => PollStateView::ListingBefore,
        _ => state,
    }
}

/// Whether two listings hold the same names in the same order.
pub fn same_entries(a: &Vec<String>, b: &Vec<String>) -> (same: bool)
    ensures
        same == (texts(a@) == texts(b@)),
{
    if a.len() != b.len() {
        assert(texts(a@).len() != texts(b@).len());
        return false;
    }
    let mut i: usize = 0;
    while i < a.len()
        invariant
            i <= a.len(),
            a.len() == b.len(),
            forall|j: int| 0 <= j < i ==> a@[j]@ == b@[j]@,
        decreases a.len() - i,
    {
        if a[i] != b[i] {
            assert(texts(a@)[i as int] != texts(b@)[i as int]);
            return false;
        }
        i += 1;
    }
    assert(texts(a@) =~= texts(b@));
    true
}

impl PollState {
    /// The state in which the loop starts.
    pub fn start() -> (state: PollState)
        ensures
            state@ == PollStateView::ListingBefore,
    {
        PollState::ListingBefore
    }

    /// What the driver is to do in this state.
    pub fn action(&self) -> (action: PollAction)
        ensures
            action == pending(self@),
    {
        match self {
            PollState::ListingBefore => PollAction::List,
            PollState::Pausing { .. } => PollAction::Pause { seconds: PAUSE_SECONDS },
            PollState::ListingAfter { .. } => PollAction::List,
            PollState::Refreshing => PollAction::Refresh,
        }
    }

    /// Moves the loop on by one event.
    pub fn step(self, event: PollEvent) -> (next: PollState)
        ensures
            next@ == next_state(self@, event@),
    {
        match self {
            PollState::ListingBefore => match event {
                PollEvent::Listed { entries } => PollState::Pausing { before: entries },
                _ => PollState::ListingBefore,
            },
            PollState::Pausing { before } => match event {
                PollEvent::Paused => PollState::ListingAfter { before },
                _ => PollState::Pausing { before },
            },
            PollState::ListingAfter { before } => match event {
                PollEvent::Listed { entries } => {
                    if same_entries(&before, &entries) {
                        PollState::ListingBefore
                    } else {
                        PollState::Refreshing
                    }
                },
                _ => PollState::ListingAfter { before },
            },
            PollState::Refreshing => match event {
                PollEvent::Refreshed => PollState::ListingBefore,
                _ => PollState::Refreshing,
            },
        }
    }
}

/// A refresh is asked for only after two listings of one round that differ:
/// the step into the state that asks for it is the second listing of a
/// round, with entries other than the first listing's. In particular, where
/// the two listings of a round are equal no discovery runs and the
/// application list stays as it is.
pub proof fn lemma_refresh_only_after_change(state: PollStateView, event: PollEventView)
    requires
        !(state is Refreshing),
        pending(next_state(state, event)) == PollAction::Refresh,
    ensures
        state is ListingAfter,
        event is Listed,
        state->ListingAfter_before != event->entries,
{
}

/// Two equal listings end the round: the next state awaits the first
/// listing of a new round, and asks for a listing, not for a refresh.
pub proof fn lemma_equal_listings_skip_refresh(before: Seq<Seq<char>>, after: Seq<Seq<char>>)
    requires
        before == after,
    ensures
        next_state(
            PollStateView::ListingAfter { before },
            PollEventView::Listed { entries: after },
        ) == PollStateView::ListingBefore,
        pending(PollStateView::ListingBefore) == PollAction::List,
{
}

/// Two listings that differ are followed by exactly one refresh: the next
/// state asks for it, and once it is reported done the state after that
/// begins a new round with a listing.
pub proof fn lemma_changed_listings_refresh_once(before: Seq<Seq<char>>, after: Seq<Seq<char>>)
    requires
        before != after,
    ensures
        ({
            let refreshing = next_state(
                PollStateView::ListingAfter { before },
                PollEventView::Listed { entries: after },
            );
            let resumed = next_state(refreshing, PollEventView::Refreshed);
            &&& pending(refreshing) == PollAction::Refresh
            &&& resumed == PollStateView::ListingBefore
            &&& pending(resumed) == PollAction::List
        }),
{
}

/// A round as it runs: a listing, a pause of one second, a second listing.
pub proof fn lemma_round_lists_pauses_lists(before: Seq<Seq<char>>)
    ensures
        ({
            let pausing = next_state(
                PollStateView::ListingBefore,
                PollEventView::Listed { entries: before },
            );
            let listing = next_state(pausing, PollEventView::Paused);
            &&& pending(PollStateView::ListingBefore) == PollAction::List
            &&& pending(pausing) == PollAction::Pause { seconds: 1 }
            &&& listing == PollStateView::ListingAfter { before }
            &&& pending(listing) == PollAction::List
        }),
{
}

} // verus!
