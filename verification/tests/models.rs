use runtrol_daemon::models::{
    mode_within_manifest_vocabulary, mode_within_provider_vocabulary, model_catalogue,
    model_is_current, reasoning_effort_is_current, validate_model_selection,
    validate_permission_selection, validate_reasoning_selection, ModelCatalog, ModelChoice,
    ReasoningChoice,
};
use runtrol_daemon::kinds::ErrorKind;

fn partial() -> ModelCatalog {
    ModelCatalog::Partial {
        aliases: vec!["provider-alias".into()],
        models: vec![ModelChoice {
            id: "provider-model".into(),
            display_name: "Provider Model".into(),
            description: "Provider description".into(),
            is_default: true,
            reasoning_efforts: vec![ReasoningChoice { id: "model-effort".into(), description: "Model effort".into() }],
        }],
        reasoning_efforts: vec![ReasoningChoice { id: "global-effort".into(), description: "Global effort".into() }],
        why: "the provider reports a partial list".into(),
    }
}

#[test]
fn reasoning_effort_validation_uses_the_current_provider_catalogue() {
    let catalogue = partial();
    assert!(reasoning_effort_is_current(&catalogue, Some("provider-model"), "model-effort"));
    assert!(!reasoning_effort_is_current(&catalogue, Some("provider-model"), "global-effort"));
    assert!(reasoning_effort_is_current(&catalogue, Some("provider-alias"), "global-effort"));
    assert!(!reasoning_effort_is_current(&catalogue, Some("provider-alias"), "missing-effort"));
}

#[test]
fn provider_model_catalogue_preserves_opaque_choices_and_coverage() {
    let catalogue = model_catalogue(ModelCatalog::Partial {
        aliases: vec!["provider-alias".into()],
        models: vec![ModelChoice {
            id: "provider-model".into(),
            display_name: "Provider Model".into(),
            description: "Provider description".into(),
            is_default: true,
            reasoning_efforts: vec![ReasoningChoice { id: "provider-effort".into(), description: "Provider effort".into() }],
        }],
        reasoning_efforts: vec![ReasoningChoice {
            id: "provider-global-effort".into(),
            description: "Provider global effort".into(),
        }],
        why: "the provider reports a partial list".into(),
    });
    let ModelCatalog::Partial { aliases, models, reasoning_efforts, why } = catalogue else {
        panic!("coverage must remain partial");
    };
    assert_eq!(aliases, ["provider-alias"]);
    assert_eq!(
        reasoning_efforts.first().expect("one mapped global reasoning effort").id,
        "provider-global-effort"
    );
    let model = models.first().expect("one mapped model");
    assert_eq!(model.id, "provider-model");
    assert_eq!(model.reasoning_efforts.first().expect("one mapped reasoning effort").id, "provider-effort");
    assert_eq!(why, "the provider reports a partial list");

    assert!(matches!(
        model_catalogue(ModelCatalog::Unsupported { why: "no official discovery surface".into() }),
        ModelCatalog::Unsupported { why } if why == "no official discovery surface"
    ));
    assert!(matches!(
        model_catalogue(ModelCatalog::Unrecognized),
        ModelCatalog::Unknown { why } if why == "the provider returned catalogue coverage unsupported by this Runtime"
    ));
}

#[test]
fn a_model_is_current_when_the_catalogue_lists_it() {
    let catalogue = partial();
    assert!(model_is_current(&catalogue, "provider-alias"));
    assert!(model_is_current(&catalogue, "provider-model"));
    assert!(!model_is_current(&catalogue, "other"));
    assert!(!model_is_current(&ModelCatalog::Unknown { why: "?".into() }, "provider-model"));
    let known = ModelCatalog::Known { models: Vec::new() };
    assert!(!reasoning_effort_is_current(&known, Some("provider-model"), "model-effort"));
}

#[test]
fn a_mode_travels_only_within_the_provider_vocabulary() {
    let manifest_modes = vec!["default".to_owned(), "plan".to_owned(), "acceptEdits".to_owned()];
    assert!(mode_within_manifest_vocabulary(Some(&manifest_modes), "acceptEdits").is_ok(), "a manifest-listed mode travels");
    assert!(
        mode_within_manifest_vocabulary(Some(&manifest_modes), "bypassPermissions").is_err(),
        "the mode that removes every question must be unreachable through runtrol"
    );
    assert!(mode_within_provider_vocabulary(false, Some(&manifest_modes), "default").is_err(), "an unidentifiable session fails closed");
    let announced_per_session: Vec<String> = Vec::new();
    assert!(
        mode_within_manifest_vocabulary(Some(&announced_per_session), "anything").is_ok(),
        "an empty manifest list defers to the driver's session-announcement gate"
    );
    assert_eq!(mode_within_manifest_vocabulary(None, "plan"), Err("the session's provider is not registered in this build"));
}

#[test]
fn starting_at_a_permission_mode_passes_the_exact_switch_boundary() {
    let manifest_modes = vec!["default".to_owned(), "plan".to_owned(), "acceptEdits".to_owned()];
    assert!(mode_within_manifest_vocabulary(Some(&manifest_modes), "plan").is_ok(), "a session can start in plan mode");
    for dangerous in ["bypassPermissions", "dontAsk", "auto"] {
        assert!(
            mode_within_manifest_vocabulary(Some(&manifest_modes), dangerous).is_err(),
            "{dangerous} must be unreachable at start exactly as it is at switch"
        );
    }
}

#[test]
fn selections_must_be_present_bounded_and_safe() {
    assert_eq!(validate_model_selection("model-large".into()), Ok("model-large".to_owned()));
    assert_eq!(validate_model_selection(String::new()).expect_err("empty").kind, ErrorKind::InvalidRequest);
    assert!(validate_model_selection("m".repeat(257)).is_err());
    assert!(validate_reasoning_selection("high".into()).is_ok());
    assert!(validate_reasoning_selection("x\u{1}".into()).is_err());
    assert!(validate_permission_selection("p".repeat(64)).is_ok());
    assert!(validate_permission_selection("p".repeat(65)).is_err());
}
