use breve::activation::{
    model_status, validate_model, Activation, ActivationError, Controller, Installed, ModelStatus,
    NotReady, SessionSlot,
};
use breve::catalog::{default_models, GEMMA_3_1B, LLAMA_3_2_1B};

#[test]
fn activating_twice_builds_once() {
    let catalog = default_models();
    let mut c = Controller::new("");
    let first = c.activate(&catalog, LLAMA_3_2_1B, true);
    assert_eq!(first, Ok(Activation::Build { ticket: 0 }));
    let second = c.activate(&catalog, LLAMA_3_2_1B, true);
    assert_eq!(second, Ok(Activation::AlreadyActive));
    assert_eq!(c.slot, SessionSlot::Loading { ticket: 0 });
    assert_eq!(c.install(0, true), Installed::Installed);
    assert_eq!(c.activate(&catalog, LLAMA_3_2_1B, true), Ok(Activation::AlreadyActive));
    assert_eq!(c.slot, SessionSlot::Ready);
}

#[test]
fn model_not_on_disk_is_refused_without_change() {
    let catalog = default_models();
    let mut c = Controller::new(GEMMA_3_1B);
    c.ensure_session();
    c.install(0, true);
    let r = c.activate(&catalog, LLAMA_3_2_1B, false);
    assert_eq!(r, Err(ActivationError::ModelNotDownloaded));
    assert_eq!(c.active_model, GEMMA_3_1B);
    assert_eq!(c.slot, SessionSlot::Ready);
}

#[test]
fn unknown_model_is_not_available() {
    let catalog = default_models();
    let mut c = Controller::new("");
    assert_eq!(c.activate(&catalog, "model-not-on-disk", false), Err(ActivationError::ModelNotAvailable));
    assert_eq!(c.slot, SessionSlot::Absent);
    assert_eq!(validate_model(&catalog, "nope.gguf", true), Err(ActivationError::ModelNotAvailable));
    assert_eq!(validate_model(&catalog, LLAMA_3_2_1B, false), Err(ActivationError::ModelNotDownloaded));
    assert_eq!(validate_model(&catalog, LLAMA_3_2_1B, true), Ok(()));
}

#[test]
fn generate_without_session_is_not_ready() {
    let mut c = Controller::new(LLAMA_3_2_1B);
    assert_eq!(c.begin_generate(), Err(NotReady::NoSession));
    assert_eq!(c.slot, SessionSlot::Absent);
    let catalog = default_models();
    c.activate(&catalog, GEMMA_3_1B, true).unwrap();
    assert_eq!(c.begin_generate(), Err(NotReady::NoSession));
}

#[test]
fn generation_claims_and_releases_the_session() {
    let mut c = Controller::new(LLAMA_3_2_1B);
    assert_eq!(c.ensure_session(), Some(0));
    assert_eq!(c.ensure_session(), None);
    assert_eq!(c.install(0, true), Installed::Installed);
    assert_eq!(c.begin_generate(), Ok(()));
    assert_eq!(c.slot, SessionSlot::Generating);
    assert_eq!(c.begin_generate(), Err(NotReady::Busy));
    assert_eq!(c.slot, SessionSlot::Generating);
    c.end_generate();
    assert_eq!(c.slot, SessionSlot::Ready);
}

#[test]
fn superseded_build_is_not_installed() {
    let catalog = default_models();
    let mut c = Controller::new("");
    assert_eq!(c.activate(&catalog, LLAMA_3_2_1B, true), Ok(Activation::Build { ticket: 0 }));
    assert_eq!(c.activate(&catalog, GEMMA_3_1B, true), Ok(Activation::Build { ticket: 1 }));
    assert_eq!(c.install(0, true), Installed::Superseded);
    assert_eq!(c.slot, SessionSlot::Loading { ticket: 1 });
    assert_eq!(c.install(1, false), Installed::Failed);
    assert_eq!(c.slot, SessionSlot::Absent);
    assert_eq!(c.active_model, GEMMA_3_1B);
}

#[test]
fn deleting_the_active_model_clears_the_selection() {
    let mut c = Controller::new(LLAMA_3_2_1B);
    c.ensure_session();
    c.install(0, true);
    assert!(!c.model_deleted(GEMMA_3_1B));
    assert_eq!(c.slot, SessionSlot::Ready);
    assert!(c.model_deleted(LLAMA_3_2_1B));
    assert_eq!(c.active_model, "");
    assert_eq!(c.slot, SessionSlot::Absent);
    assert_eq!(c.ensure_session(), None);
}

#[test]
fn status_needs_a_selected_present_model() {
    assert_eq!(model_status("", true), ModelStatus::Unset);
    assert_eq!(model_status(LLAMA_3_2_1B, false), ModelStatus::Unset);
    assert_eq!(model_status(LLAMA_3_2_1B, true), ModelStatus::Selected);
}
