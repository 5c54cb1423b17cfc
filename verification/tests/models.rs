use mimo_bridge::{known_models, MODEL_DEFAULT};

#[test]
fn migrated_model_manifest_includes_provider_qualified_v25_ids() {
    let ids: Vec<String> = known_models().into_iter().map(|model| model.id).collect();
    assert!(ids.contains(&"xiaomi/mimo-v2.5".to_string()));
    assert!(ids.contains(&"xiaomi/mimo-v2.5-pro".to_string()));
    assert!(!ids.contains(&"mimo-v2.5".to_string()));
    assert!(!ids.contains(&"mimo-v2.5-pro".to_string()));
}

#[test]
fn models_are_listed_in_order() {
    let ids: Vec<String> = known_models().into_iter().map(|model| model.id).collect();
    assert_eq!(
        ids,
        vec![
            "xiaomi/mimo",
            "xiaomi/mimo-pro",
            "xiaomi/mimo-v2.5",
            "xiaomi/mimo-v2.5-pro",
            "xiaomi/mimo-claw-0301",
            "xiaomi/MiniMax-M2.5",
            "xiaomi/kimi-k2.5",
            "xiaomi/glm-5",
            "mimo",
            "mimo-omni",
            "mimo-pro",
        ]
    );
    assert!(ids.contains(&MODEL_DEFAULT.to_string()));
}

#[test]
fn model_entries_hold_owner_and_family() {
    let models = known_models();
    assert!(models.iter().all(|model| model.object == "model"));
    assert!(models.iter().all(|model| model.owned_by == "xiaomi"));
    assert_eq!(
        models[0].family,
        "multimodal (text+vision+tools+thinking, 1M ctx, 128K out) [upstream: mimo]"
    );
    assert_eq!(models[4].family, "legacy reasoning snapshot [upstream: mimo-pro]");
    assert_eq!(models[10].family, "alias → xiaomi/mimo-pro [upstream: mimo-pro]");
}

#[test]
fn every_id_is_listed_once() {
    let mut ids: Vec<String> = known_models().into_iter().map(|model| model.id).collect();
    ids.sort();
    ids.dedup();
    assert_eq!(ids.len(), 11);
}
