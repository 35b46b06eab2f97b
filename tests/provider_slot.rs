use whaswapp::session::{get_session_config, SessionConfig};
use whaswapp::slot::{
    choose_backend, wants_browser, BackendChoice, BackendKind, ProviderSlot, SetupFailure, SlotStep,
};

#[test]
fn switching_disconnects_the_old_provider_once_first() {
    let mut slot = ProviderSlot::new();
    let first = slot.begin_setup(choose_backend("baileys"));
    assert_eq!(first, vec![SlotStep::Initialize(BackendKind::Baileys)]);
    assert_eq!(slot.finish_setup(true), Ok(()));
    assert_eq!(slot.active, Some(BackendKind::Baileys));
    let second = slot.begin_setup(choose_backend("rust"));
    assert_eq!(
        second,
        vec![SlotStep::Disconnect(BackendKind::Baileys), SlotStep::Initialize(BackendKind::Rust)]
    );
    assert_eq!(slot.active, None);
    assert_eq!(slot.finish_setup(true), Ok(()));
    assert_eq!(slot.active, Some(BackendKind::Rust));
}

#[test]
fn reset_of_an_empty_slot_succeeds() {
    let mut slot = ProviderSlot::new();
    assert_eq!(slot.reset(), None);
    assert_eq!(slot.active, None);
}

#[test]
fn failed_initialization_leaves_the_slot_empty() {
    let mut slot = ProviderSlot::new();
    slot.begin_setup(BackendChoice::Provider(BackendKind::Rust));
    assert_eq!(slot.finish_setup(false), Err(SetupFailure::InitializeFailed(BackendKind::Rust)));
    assert_eq!(slot.active, None);
}

#[test]
fn unsupported_backend_still_retires_the_occupant() {
    let mut slot = ProviderSlot::new();
    slot.begin_setup(BackendChoice::Provider(BackendKind::Baileys));
    slot.finish_setup(true);
    let steps = slot.begin_setup(choose_backend("telegram"));
    assert_eq!(steps, vec![SlotStep::Disconnect(BackendKind::Baileys)]);
    assert_eq!(slot.finish_setup(true), Err(SetupFailure::Unsupported));
    assert_eq!(slot.active, None);
}

#[test]
fn backend_and_frontend_names() {
    assert_eq!(choose_backend("baileys"), BackendChoice::Provider(BackendKind::Baileys));
    assert_eq!(choose_backend("rust"), BackendChoice::Provider(BackendKind::Rust));
    assert_eq!(choose_backend("wwebjs"), BackendChoice::Announced);
    assert_eq!(choose_backend("whatsapp-web.js"), BackendChoice::Announced);
    assert_eq!(choose_backend("Rust"), BackendChoice::Unsupported);
    assert!(wants_browser("chrome"));
    assert!(!wants_browser("tauri"));
    let mut slot = ProviderSlot::new();
    assert!(slot.begin_setup(BackendChoice::Announced).is_empty());
    assert_eq!(slot.finish_setup(true), Ok(()));
    assert_eq!(slot.active, None);
}

#[test]
fn session_config_is_reported() {
    let cfg = SessionConfig { backend: "baileys".to_string(), frontend: "tauri".to_string() };
    let r = get_session_config(&cfg).unwrap();
    assert_eq!(r.backend(), "baileys");
    assert_eq!(r.frontend(), "tauri");
}
