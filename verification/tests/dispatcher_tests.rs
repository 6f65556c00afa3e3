use muzak::dispatcher::{Invocation, MMBSEvent, MMBSList, ServiceCall};
use muzak::events::{Metadata, PlaybackState};

fn sorted_services(plan: &[Invocation]) -> Vec<u64> {
    let mut services: Vec<u64> = plan.iter().map(|unit| unit.service).collect();
    services.sort();
    services
}

#[test]
fn empty_list_owes_no_call() {
    let list = MMBSList::new();
    assert_eq!(list.len(), 0);
    assert!(list.dispatch(&MMBSEvent::PositionChanged(1)).is_empty());
    assert_eq!(list.handle_of("lastfm"), None);
}

#[test]
fn three_services_each_get_new_track_once() {
    let mut list = MMBSList::new();
    assert_eq!(list.register(String::from("one"), 11), None);
    assert_eq!(list.register(String::from("two"), 22), None);
    assert_eq!(list.register(String::from("three"), 33), None);
    assert_eq!(list.len(), 3);
    let plan = list.dispatch(&MMBSEvent::NewTrack(String::from("a.mp3")));
    assert_eq!(plan.len(), 3);
    assert_eq!(sorted_services(&plan), vec![11, 22, 33]);
    for unit in &plan {
        assert_eq!(unit.call, ServiceCall::NewTrack(String::from("a.mp3")));
    }
}

#[test]
fn a_failing_service_does_not_keep_the_others_from_their_call() {
    let mut list = MMBSList::new();
    list.register(String::from("one"), 1);
    list.register(String::from("two"), 2);
    list.register(String::from("three"), 3);
    let plan = list.dispatch(&MMBSEvent::NewTrack(String::from("a.mp3")));
    let mut calls = vec![0u32; 4];
    let mut failures = 0;
    for unit in &plan {
        calls[unit.service as usize] += 1;
        let outcome: Result<(), String> =
            if unit.service == 2 { Err(String::from("offline")) } else { Ok(()) };
        if outcome.is_err() {
            failures += 1;
        }
    }
    assert_eq!(calls, vec![0, 1, 1, 1]);
    assert_eq!(failures, 1);
}

#[test]
fn registering_a_name_again_replaces_its_service() {
    let mut list = MMBSList::new();
    assert_eq!(list.register(String::from("lastfm"), 5), None);
    assert_eq!(list.register(String::from("lastfm"), 9), Some(5));
    assert_eq!(list.len(), 1);
    assert_eq!(list.handle_of("lastfm"), Some(9));
    let plan = list.dispatch(&MMBSEvent::DurationChanged(1000));
    assert_eq!(plan, vec![Invocation { service: 9, call: ServiceCall::DurationChanged(1000) }]);
}

#[test]
fn a_plan_is_not_changed_by_a_later_registration() {
    let mut list = MMBSList::new();
    list.register(String::from("one"), 1);
    let plan = list.dispatch(&MMBSEvent::PositionChanged(250));
    list.register(String::from("two"), 2);
    assert_eq!(plan, vec![Invocation { service: 1, call: ServiceCall::PositionChanged(250) }]);
    assert_eq!(list.dispatch(&MMBSEvent::PositionChanged(251)).len(), 2);
}

#[test]
fn unregistering_takes_the_service_out() {
    let mut list = MMBSList::new();
    list.register(String::from("one"), 1);
    list.register(String::from("two"), 2);
    assert_eq!(list.unregister("one"), Some(1));
    assert_eq!(list.unregister("one"), None);
    assert_eq!(list.len(), 1);
    assert_eq!(list.handle_of("one"), None);
    assert_eq!(sorted_services(&list.dispatch(&MMBSEvent::PositionChanged(0))), vec![2]);
}

#[test]
fn two_names_may_share_a_handle() {
    let mut list = MMBSList::new();
    list.register(String::from("one"), 7);
    list.register(String::from("two"), 7);
    assert_eq!(sorted_services(&list.dispatch(&MMBSEvent::PositionChanged(0))), vec![7, 7]);
}

#[test]
fn every_event_has_its_call() {
    let metadata = Metadata {
        name: Some(String::from("Song")),
        artist: None,
        album: Some(String::from("Album")),
    };
    assert_eq!(
        MMBSEvent::NewTrack(String::from("/m/a.flac")).call(),
        ServiceCall::NewTrack(String::from("/m/a.flac"))
    );
    assert_eq!(
        MMBSEvent::MetadataRecieved(metadata.clone()).call(),
        ServiceCall::MetadataReceived(metadata)
    );
    assert_eq!(
        MMBSEvent::StateChanged(PlaybackState::Paused).call(),
        ServiceCall::StateChanged(PlaybackState::Paused)
    );
    assert_eq!(MMBSEvent::PositionChanged(u64::MAX).call(), ServiceCall::PositionChanged(u64::MAX));
    assert_eq!(MMBSEvent::DurationChanged(0).call(), ServiceCall::DurationChanged(0));
}
