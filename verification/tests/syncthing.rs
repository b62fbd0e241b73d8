//! The remote-index variant: id bookkeeping and the folder summary.

use rusty_hooks::syncthing::api::SyncthingApi;
use rusty_hooks::syncthing::configs::Configs;
use rusty_hooks::syncthing::errors::SyncthingError;
use rusty_hooks::syncthing::event_structs::{
    EventTypes, FolderState, FolderSummary, LocalIndexUpdated, Starting, Summary, SyncthingEvent,
};

fn configs() -> Configs {
    Configs::load(Some("k".to_string()), None, None, None, None, None).unwrap()
}

fn event(id: u16, kind: &str, data: EventTypes) -> SyncthingEvent {
    SyncthingEvent {
        id,
        globalID: id,
        event_type: kind.to_string(),
        time: "t".to_string(),
        data,
    }
}

fn index_event(id: u16) -> SyncthingEvent {
    event(id, "LocalIndexUpdated", EventTypes::LocalIndexUpdated(LocalIndexUpdated::default()))
}

fn summary_event(id: u16, state: &str) -> SyncthingEvent {
    let mut summary = Summary::default();
    summary.state = state.to_string();
    event(
        id,
        "FolderSummary",
        EventTypes::FolderSummary(FolderSummary { folder: "f".to_string(), summary }),
    )
}

/// Two batches of ids come out as one climbing sequence, nothing twice.
#[test]
fn merge_ids_sorts_and_dedups() {
    let api = SyncthingApi::new(configs());
    let mut old_ids = vec![3, 1];
    let mut new_ids = vec![2, 3];
    let merged = api.merge_ids(&mut old_ids, &mut new_ids);
    assert_eq!(merged, vec![1, 2, 3]);
    assert!(old_ids.is_empty());
    assert!(new_ids.is_empty());
}

/// The ids of a batch, in feed order.
#[test]
fn map_ids_in_feed_order() {
    let api = SyncthingApi::new(configs());
    let events = vec![index_event(5), index_event(2)];
    assert_eq!(api.map_ids(&events), vec![5, 2]);
}

/// Seen ids accumulate sorted and the newest becomes the resume point.
#[test]
fn update_seen_accumulates() {
    let mut api = SyncthingApi::new(configs());
    api.update_seen(&vec![index_event(4), index_event(2)]);
    assert_eq!(api.seen, vec![2, 4]);
    assert_eq!(api.last_seen, Some(4));
    api.update_seen(&vec![index_event(3), index_event(2)]);
    assert_eq!(api.seen, vec![2, 3, 4]);
    assert_eq!(api.last_seen, Some(4));
}

/// Past one hundred ids, the oldest fall out.
#[test]
fn update_seen_trims_to_newest_hundred() {
    let mut api = SyncthingApi::new(configs());
    let batch: Vec<SyncthingEvent> = (1..=150).map(index_event).collect();
    api.update_seen(&batch);
    assert_eq!(api.seen.len(), 100);
    assert_eq!(api.seen[0], 51);
    assert_eq!(api.seen[99], 150);
    assert_eq!(api.last_seen, Some(150));
}

/// Filtering keeps only the named kind, in feed order.
#[test]
fn filter_events_by_kind() {
    let api = SyncthingApi::new(configs());
    let events = vec![
        index_event(1),
        summary_event(2, "idle"),
        index_event(3),
    ];
    let filtered = api.filter_events(
        &events,
        &EventTypes::LocalIndexUpdated(LocalIndexUpdated::default()),
    );
    assert_eq!(filtered.len(), 2);
    assert_eq!(filtered[0].id, 1);
    assert_eq!(filtered[1].id, 3);
}

/// The newest folder summary decides the folder state.
#[test]
fn folder_summary_reports_last_state() {
    let api = SyncthingApi::new(configs());
    let events = vec![summary_event(1, "syncing"), index_event(2), summary_event(3, "idle")];
    let state = api.examine_folder_summary(&events).unwrap();
    assert_eq!(state, FolderState::Idle);
}

/// A feed without a summary has nothing to say.
#[test]
fn folder_summary_missing() {
    let api = SyncthingApi::new(configs());
    let r = api.examine_folder_summary(&vec![index_event(1)]);
    assert!(matches!(r, Err(SyncthingError::NoNewEvents)));
}

/// A summary whose state is not a known word is refused.
#[test]
fn folder_summary_unknown_state() {
    let api = SyncthingApi::new(configs());
    let r = api.examine_folder_summary(&vec![summary_event(1, "scanning")]);
    assert!(matches!(r, Err(SyncthingError::EventTypeError(_))));
}

/// A summary event carrying the wrong payload is refused.
#[test]
fn folder_summary_wrong_payload() {
    let api = SyncthingApi::new(configs());
    let odd = event(1, "FolderSummary", EventTypes::Starting(Starting::default()));
    let r = api.examine_folder_summary(&vec![odd]);
    assert!(matches!(r, Err(SyncthingError::GenericMessage(_))));
}

/// Kind names and the state words round-trip.
#[test]
fn kind_names_and_states() {
    assert_eq!(
        EventTypes::FolderSummary(FolderSummary::default()).kind_name(),
        "FolderSummary"
    );
    assert_eq!(FolderState::from_str("idle"), Some(FolderState::Idle));
    assert_eq!(FolderState::from_str("syncing"), Some(FolderState::Syncing));
    assert_eq!(FolderState::from_str("Idle"), None);
}
