use lwtray::poll::{same_entries, PollAction, PollEvent, PollState, PAUSE_SECONDS};

fn names(entries: &[&str]) -> Vec<String> {
    entries.iter().map(|e| e.to_string()).collect()
}

fn listed(entries: &[&str]) -> PollEvent {
    PollEvent::Listed { entries: names(entries) }
}

/// Drives the machine as a front end would, answering each listing from
/// `listings` in turn, and returns the actions it was asked for.
fn drive(listings: &[&[&str]]) -> Vec<PollAction> {
    let mut state = PollState::start();
    let mut actions = Vec::new();
    let mut next = 0;
    while next < listings.len() {
        let action = state.action();
        actions.push(action);
        let event = match action {
            PollAction::List => {
                next += 1;
                listed(listings[next - 1])
            }
            PollAction::Pause { .. } => PollEvent::Paused,
            PollAction::Refresh => PollEvent::Refreshed,
        };
        state = state.step(event);
    }
    actions.push(state.action());
    actions
}

#[test]
fn loop_starts_with_a_listing() {
    assert_eq!(PollState::start(), PollState::ListingBefore);
    assert_eq!(PollState::start().action(), PollAction::List);
}

#[test]
fn pause_is_one_second() {
    let state = PollState::start().step(listed(&["a"]));
    assert_eq!(state, PollState::Pausing { before: names(&["a"]) });
    assert_eq!(state.action(), PollAction::Pause { seconds: 1 });
    assert_eq!(PAUSE_SECONDS, 1);
}

#[test]
fn second_listing_follows_the_pause() {
    let state = PollState::start().step(listed(&["a", "b"])).step(PollEvent::Paused);
    assert_eq!(state, PollState::ListingAfter { before: names(&["a", "b"]) });
    assert_eq!(state.action(), PollAction::List);
}

#[test]
fn equal_listings_trigger_no_discovery() {
    let actions = drive(&[&["a", "b"], &["a", "b"], &["a", "b"], &["a", "b"]]);
    assert!(!actions.contains(&PollAction::Refresh));
    assert_eq!(
        actions,
        vec![
            PollAction::List,
            PollAction::Pause { seconds: 1 },
            PollAction::List,
            PollAction::List,
            PollAction::Pause { seconds: 1 },
            PollAction::List,
            PollAction::List,
        ]
    );
}

#[test]
fn equal_empty_listings_trigger_no_discovery() {
    let actions = drive(&[&[], &[]]);
    assert!(!actions.contains(&PollAction::Refresh));
}

#[test]
fn added_entry_triggers_exactly_one_discovery() {
    let actions = drive(&[&["a", "b"], &["a", "b", "c"]]);
    assert_eq!(
        actions,
        vec![
            PollAction::List,
            PollAction::Pause { seconds: 1 },
            PollAction::List,
            PollAction::Refresh,
        ]
    );
    let state = PollState::ListingAfter { before: names(&["a", "b"]) }
        .step(listed(&["a", "b", "c"]));
    assert_eq!(state, PollState::Refreshing);
    let resumed = state.step(PollEvent::Refreshed);
    assert_eq!(resumed, PollState::ListingBefore);
    assert_eq!(resumed.action(), PollAction::List);
}

#[test]
fn removed_entry_triggers_discovery() {
    let state = PollState::ListingAfter { before: names(&["a", "b"]) }.step(listed(&["a"]));
    assert_eq!(state.action(), PollAction::Refresh);
}

#[test]
fn reordered_entries_count_as_a_change() {
    let state = PollState::ListingAfter { before: names(&["a", "b"]) }.step(listed(&["b", "a"]));
    assert_eq!(state, PollState::Refreshing);
}

#[test]
fn change_between_rounds_is_not_compared() {
    let actions = drive(&[&["a"], &["a"], &["b"], &["b"]]);
    assert!(!actions.contains(&PollAction::Refresh));
}

#[test]
fn unexpected_events_leave_the_state() {
    assert_eq!(PollState::ListingBefore.step(PollEvent::Paused), PollState::ListingBefore);
    assert_eq!(PollState::ListingBefore.step(PollEvent::Refreshed), PollState::ListingBefore);
    let pausing = PollState::Pausing { before: names(&["a"]) };
    assert_eq!(pausing.clone().step(listed(&["b"])), pausing);
    assert_eq!(pausing.clone().step(PollEvent::Refreshed), pausing);
    let listing = PollState::ListingAfter { before: names(&["a"]) };
    assert_eq!(listing.clone().step(PollEvent::Paused), listing);
    assert_eq!(listing.clone().step(PollEvent::Refreshed), listing);
    assert_eq!(PollState::Refreshing.step(PollEvent::Paused), PollState::Refreshing);
    assert_eq!(PollState::Refreshing.step(listed(&["a"])), PollState::Refreshing);
}

#[test]
fn listings_compare_in_order() {
    assert!(same_entries(&names(&[]), &names(&[])));
    assert!(same_entries(&names(&["a", "b"]), &names(&["a", "b"])));
    assert!(!same_entries(&names(&["a", "b"]), &names(&["b", "a"])));
    assert!(!same_entries(&names(&["a"]), &names(&["a", "b"])));
    assert!(!same_entries(&names(&["a", "b"]), &names(&["a"])));
    assert!(!same_entries(&names(&["a", "b"]), &names(&["a", "c"])));
}
