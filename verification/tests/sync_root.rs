use wincs::root::register::{
    HydrationType, PopulationType, ProtectionMode, Registration, DEFAULT_ICON,
};
use wincs::root::sync_root::{SYNC_ROOT_ID_SEPARATOR, MAX_PROVIDER_NAME_LENGTH};
use wincs::root::session::{WatchAction, WatchEvent, WatchState, WATCH_POLL_INTERVAL_MS};
use wincs::root::{SecurityId, SyncRootId, SyncRootIdBuilder};
use wincs::utility::win32_error_to_hresult;

const CF_MAX_PROVIDER_NAME_LENGTH: u32 = 255u32;

fn units(text: &str) -> Vec<u16> {
    text.encode_utf16().collect()
}

#[test]
fn built_ids_join_their_components_with_exclamation_points() {
    let id = SyncRootIdBuilder::new(units("wincs"))
        .user_security_id(SecurityId::new_unchecked(units("S-1-5-21-1")))
        .account_name(units("user@example.com"))
        .build();
    assert_eq!(id.as_u16str(), &units("wincs!S-1-5-21-1!user@example.com")[..]);
    assert_eq!(SYNC_ROOT_ID_SEPARATOR, '!' as u16);
    assert_eq!(
        MAX_PROVIDER_NAME_LENGTH,
        CF_MAX_PROVIDER_NAME_LENGTH as usize
    );
}

#[test]
fn components_come_back_from_a_built_id() {
    let id = SyncRootIdBuilder::new(units("provider"))
        .user_security_id(SecurityId::new_unchecked(units("sid")))
        .account_name(units("account!with!marks"))
        .build();
    let (provider, security, account) = id.to_components();
    assert_eq!(provider, units("provider"));
    assert_eq!(security, units("sid"));
    assert_eq!(account, units("account!with!marks"));
}

#[test]
fn components_of_an_id_with_empty_parts() {
    let id = SyncRootIdBuilder::new(units("p")).build();
    assert_eq!(id.as_u16str(), &units("p!!")[..]);
    let (provider, security, account) = id.to_components();
    assert_eq!(provider, units("p"));
    assert!(security.is_empty());
    assert!(account.is_empty());
    let parsed = SyncRootId::from_units(units("a!b!c"));
    assert_eq!(parsed.to_components(), (units("a"), units("b"), units("c")));
}

#[test]
fn registration_lookups() {
    let not_found = win32_error_to_hresult(1168);
    assert!(SyncRootId::is_registered_from_lookup(Ok(())));
    assert!(!SyncRootId::is_registered_from_lookup(Err(not_found)));
    assert!(SyncRootId::is_registered_from_lookup(Err(-5)));
}

#[test]
fn registration_defaults() {
    let id = SyncRootId::from_units(units("a!b!c"));
    let registration = Registration::from_sync_root_id(&id);
    assert_eq!(registration.sync_root_id.as_u16str(), &units("a!b!c")[..]);
    assert_eq!(registration.display_name, units("a!b!c"));
    assert_eq!(registration.icon, units(DEFAULT_ICON));
    assert_eq!(registration.icon, units("C:\\Windows\\System32\\imageres.dll,1525"));
    assert_eq!(registration.hydration_type, HydrationType::Progressive);
    assert_eq!(registration.population_type, PopulationType::Full);
    assert_eq!(registration.protection_mode, ProtectionMode::Unknown);
    assert!(!registration.allow_hardlinks);
    assert!(!registration.allow_pinning);
    assert!(!registration.show_siblings_as_group);
    assert!(registration.version.is_none());
    assert!(registration.recycle_bin_uri.is_none());
    assert!(registration.blob.is_none());
    assert_eq!(registration.hydration_policy.bits, 0);
    assert_eq!(registration.supported_attributes.bits, 0);
    assert_eq!(registration.hardlink_policy(), 0);
}

#[test]
fn registration_builders() {
    let id = SyncRootId::from_units(units("a!b!c"));
    let registration = Registration::from_sync_root_id(&id)
        .hydration_type(HydrationType::Full)
        .population_type(PopulationType::AlwaysFull)
        .protection_mode(ProtectionMode::Personal)
        .allow_pinning()
        .allow_hardlinks()
        .show_siblings_as_group()
        .display_name(units("Mirror"))
        .recycle_bin_uri(units("https://example.com/bin"))
        .version(units("1.2"))
        .icon(units("C:\\icons.dll"), 42)
        .blob(vec![1, 2, 3]);
    assert_eq!(registration.hydration_type, HydrationType::Full);
    assert_eq!(registration.population_type, PopulationType::AlwaysFull);
    assert_eq!(registration.protection_mode, ProtectionMode::Personal);
    assert!(registration.allow_pinning);
    assert!(registration.allow_hardlinks);
    assert_eq!(registration.hardlink_policy(), 1);
    assert!(registration.show_siblings_as_group);
    assert_eq!(registration.display_name, units("Mirror"));
    assert_eq!(registration.recycle_bin_uri, Some(units("https://example.com/bin")));
    assert_eq!(registration.version, Some(units("1.2")));
    assert_eq!(registration.icon, units("C:\\icons.dll,42"));
    assert_eq!(registration.blob, Some(vec![1, 2, 3]));
}

#[test]
fn the_watcher_reads_until_a_stop_is_asked_for() {
    assert_eq!(WATCH_POLL_INTERVAL_MS, 300);
    let (state, action) = WatchState::Idle.step(WatchEvent::Checked { stop: false });
    assert_eq!((state, action), (WatchState::Reading, WatchAction::StartRead));
    let (state, action) = state.step(WatchEvent::Pending { stop: false });
    assert_eq!((state, action), (WatchState::Reading, WatchAction::Sleep));
    let (state, action) = state.step(WatchEvent::Completed { transferred: 64 });
    assert_eq!((state, action), (WatchState::Idle, WatchAction::Report));
    let (state, action) = state.step(WatchEvent::Checked { stop: false });
    assert_eq!(action, WatchAction::StartRead);
    let (state, action) = state.step(WatchEvent::Completed { transferred: 0 });
    assert_eq!((state, action), (WatchState::Idle, WatchAction::Check));
    assert_eq!(state.step(WatchEvent::Checked { stop: true }), (WatchState::Idle, WatchAction::Stop));
    assert_eq!(
        WatchState::Reading.step(WatchEvent::Pending { stop: true }),
        (WatchState::Idle, WatchAction::CancelAndStop)
    );
}
