use aish::app_state_file::AppStateFile;
use std::collections::HashMap;

#[test]
fn into_last_connected_converts_valid_uuid() {
    let id: u128 = uuid::Uuid::new_v4().as_u128();
    let secs = 1715174400u64;
    let mut state = AppStateFile::default();
    state.recent.push((uuid::Uuid::from_u128(id).to_string(), secs));
    let lc = state.into_last_connected();
    assert_eq!(lc.get(&id), Some(&(secs as u128 * 1_000_000_000)));
}

#[test]
fn into_last_connected_drops_invalid_keys() {
    let mut state = AppStateFile::default();
    state.recent.push(("not-a-uuid".into(), 5));
    assert!(state.into_last_connected().is_empty());
}

#[test]
fn merge_last_connected_snapshot() {
    let id: u128 = uuid::Uuid::new_v4().as_u128();
    let mut lc = HashMap::new();
    lc.insert(id, 1715174400_123_456_789u128);
    let state = AppStateFile::default().merge_last_connected(&lc);
    let key = uuid::Uuid::from_u128(id).to_string();
    assert_eq!(state.recent, vec![(key, 1715174400u64)]);
}

#[test]
fn merge_keeps_preferences_and_round_trips() {
    let mut lc = HashMap::new();
    lc.insert(1u128, 10_000_000_000u128);
    lc.insert(u128::MAX, 20_000_000_000u128);
    let mut file = AppStateFile::default();
    file.theme = Some("light".into());
    file.reduced_motion = Some(true);
    file.recent.push(("stale".into(), 1));
    let merged = file.merge_last_connected(&lc);
    assert_eq!(merged.theme.as_deref(), Some("light"));
    assert_eq!(merged.reduced_motion, Some(true));
    assert_eq!(merged.recent.len(), 2);
    assert_eq!(merged.into_last_connected(), lc);
}

#[test]
fn reduced_motion_default_none() {
    let loaded = AppStateFile::default();
    assert_eq!(loaded.reduced_motion, None);
}

#[test]
fn round_trip_cuts_times_to_the_second() {
    let mut lc = HashMap::new();
    lc.insert(7u128, 3_999_999_999u128);
    let back = AppStateFile::default().merge_last_connected(&lc).into_last_connected();
    assert_eq!(back.get(&7), Some(&3_000_000_000u128));
}
