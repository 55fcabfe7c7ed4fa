use codex_nano_manager::config::{AppConfig, ProviderConfig};
use codex_nano_manager::envkey::{env_key_candidate, env_key_if_free, free_env_key_from};
use codex_nano_manager::provider::{
    apply_edit, default_template_provider_name, insert_provider, mask_api_key,
    new_provider_input_from_template, remove_provider, render_provider_lines, EditProviderInput,
    NewProviderInput,
};
use codex_nano_manager::provider_templates::ProviderTemplate;

fn sample_provider() -> ProviderConfig {
    ProviderConfig {
        name: "router-a".into(),
        base_url: "https://router.example.com/v1".into(),
        env_key: "ROUTER_A_API_KEY".into(),
        api_key: "secret-1234".into(),
        model: Some("gpt-5.4".into()),
        last_used_at: None,
        notes: None,
    }
}

fn new_input(name: &str, base_url: &str, api_key: &str) -> NewProviderInput {
    NewProviderInput {
        name: name.into(),
        base_url: base_url.into(),
        api_key: api_key.into(),
        model: None,
        notes: None,
    }
}

#[test]
fn rejects_duplicate_provider_names() {
    let mut config = AppConfig::default();
    config.providers.insert("router-a".into(), sample_provider());

    let err = insert_provider(
        &mut config,
        NewProviderInput {
            name: "router-a".into(),
            base_url: "https://another.example.com/v1".into(),
            api_key: "secret".into(),
            model: None,
            notes: None,
        },
    )
    .unwrap_err();

    assert!(err.message().contains("already exists"));
}

#[test]
fn preserves_api_key_when_edit_secret_is_blank() {
    let existing = sample_provider();

    let updated = apply_edit(
        &existing,
        EditProviderInput {
            name: None,
            base_url: Some("https://updated.example.com/v1".into()),
            api_key: Some(String::new()),
            model: Some("gpt-5.4".into()),
            notes: Some("updated".into()),
        },
    )
    .unwrap();

    assert_eq!(updated.api_key, "secret-1234");
    assert_eq!(updated.env_key, "ROUTER_A_API_KEY");
}

#[test]
fn generated_env_key_is_valid() {
    let mut config = AppConfig::default();

    insert_provider(
        &mut config,
        NewProviderInput {
            name: "router-a".into(),
            base_url: "https://router.example.com/v1".into(),
            api_key: "secret".into(),
            model: None,
            notes: None,
        },
    )
    .unwrap();

    assert!(config.providers.get("router-a").unwrap().env_key.starts_with("CXCM_KEY_"));
}

#[test]
fn masks_api_keys_in_list_output() {
    assert_eq!(mask_api_key("secret-1234"), "********1234");
}

#[test]
fn remove_provider_fails_for_missing_name() {
    let mut config = AppConfig::default();
    let err = remove_provider(&mut config, "missing").unwrap_err();
    assert!(err.message().contains("not found"));
}

#[test]
fn insert_provider_generates_internal_env_key() {
    let mut config = AppConfig::default();

    insert_provider(
        &mut config,
        NewProviderInput {
            name: "openai".into(),
            base_url: "https://api.openai.com/v1".into(),
            api_key: "secret".into(),
            model: Some("gpt-5.4".into()),
            notes: None,
        },
    )
    .unwrap();

    let provider = config.providers.get("openai").unwrap();
    assert!(provider.env_key.starts_with("CXCM_KEY_"));
    assert_eq!(provider.env_key.len(), 17);
}

#[test]
fn edit_provider_preserves_existing_internal_env_key() {
    let existing = ProviderConfig {
        name: "openai".into(),
        base_url: "https://api.openai.com/v1".into(),
        env_key: "CXCM_KEY_7F3A91C2".into(),
        api_key: "secret".into(),
        model: Some("gpt-5.4".into()),
        last_used_at: None,
        notes: None,
    };

    let updated = apply_edit(
        &existing,
        EditProviderInput {
            name: None,
            base_url: Some("https://api.openai.com/v1".into()),
            api_key: Some("updated".into()),
            model: Some("gpt-5.4".into()),
            notes: Some("updated".into()),
        },
    )
    .unwrap();

    assert_eq!(updated.env_key, "CXCM_KEY_7F3A91C2");
}

#[test]
fn edit_provider_can_rename_name_when_supplied() {
    let existing = sample_provider();

    let updated = apply_edit(
        &existing,
        EditProviderInput {
            name: Some("router-b".into()),
            base_url: Some(existing.base_url.clone()),
            api_key: Some(String::new()),
            model: existing.model.clone(),
            notes: Some("renamed".into()),
        },
    )
    .unwrap();

    assert_eq!(updated.name, "router-b");
    assert_eq!(updated.env_key, "ROUTER_A_API_KEY");
}

#[test]
fn builds_new_provider_input_from_template_defaults() {
    let template = ProviderTemplate {
        id: "ggboom".into(),
        display_name: "GGBoom".into(),
        base_url: "https://ai.qaq.al".into(),
        default_model: None,
        notes: Some("GGBoom OpenAI-compatible endpoint".into()),
    };

    let input = new_provider_input_from_template(&template, "ggboom".into(), "sk-test".into());

    assert_eq!(input.name, "ggboom");
    assert_eq!(input.base_url, "https://ai.qaq.al");
    assert_eq!(input.api_key, "sk-test");
}

#[test]
fn template_default_name_uses_template_id() {
    let template = ProviderTemplate {
        id: "quickly".into(),
        display_name: "Quickly".into(),
        base_url: "https://sub.jlypx.de".into(),
        default_model: None,
        notes: None,
    };

    assert_eq!(default_template_provider_name(&template), "quickly");
}

#[test]
fn insert_refuses_blank_fields_in_order() {
    let mut config = AppConfig::default();
    let err = insert_provider(&mut config, new_input("  ", "", "")).unwrap_err();
    assert_eq!(err.message(), "name cannot be empty");
    let err = insert_provider(&mut config, new_input("a", " \t", "")).unwrap_err();
    assert_eq!(err.message(), "base_url cannot be empty");
    let err = insert_provider(&mut config, new_input("a", "u", "\n")).unwrap_err();
    assert_eq!(err.message(), "api_key cannot be empty");
    assert!(config.providers.is_empty());
}

#[test]
fn duplicate_message_names_the_provider() {
    let mut config = AppConfig::default();
    config.providers.insert("router-a".into(), sample_provider());
    let err = insert_provider(&mut config, new_input("router-a", "u", "k")).unwrap_err();
    assert_eq!(err.message(), "provider 'router-a' already exists");
    assert_eq!(config.providers.len(), 1);
}

#[test]
fn inserted_provider_keeps_input_fields_and_gets_fresh_key() {
    let mut config = AppConfig::default();
    config.providers.insert("router-a".into(), sample_provider());
    let mut input = new_input("openai", "https://api.openai.com/v1", "sk");
    input.notes = Some("n".into());
    insert_provider(&mut config, input).unwrap();
    let p = config.providers.get("openai").unwrap();
    assert_eq!(p.name, "openai");
    assert_eq!(p.base_url, "https://api.openai.com/v1");
    assert_eq!(p.api_key, "sk");
    assert_eq!(p.model, None);
    assert_eq!(p.notes.as_deref(), Some("n"));
    assert_eq!(p.last_used_at, None);
    assert_ne!(p.env_key, "ROUTER_A_API_KEY");
    assert!(p.env_key[9..].chars().all(|c| c.is_ascii_digit() || ('A'..='F').contains(&c)));
}

#[test]
fn many_inserts_get_distinct_keys() {
    let mut config = AppConfig::default();
    for i in 0..20 {
        insert_provider(&mut config, new_input(&format!("p{i}"), "u", "k")).unwrap();
    }
    let mut keys: Vec<String> = (0..config.providers.len())
        .map(|i| config.providers.value_at(i).env_key.clone())
        .collect();
    keys.sort();
    keys.dedup();
    assert_eq!(keys.len(), 20);
}

#[test]
fn env_key_candidate_is_upper_hex_of_value() {
    assert_eq!(env_key_candidate(0x7F3A91C2), "CXCM_KEY_7F3A91C2");
    assert_eq!(env_key_candidate(0), "CXCM_KEY_00000000");
    assert_eq!(env_key_candidate(u32::MAX), "CXCM_KEY_FFFFFFFF");
    assert_eq!(env_key_candidate(0xAB), "CXCM_KEY_000000AB");
}

#[test]
fn free_env_key_skips_names_in_use_and_wraps_around() {
    let mut config = AppConfig::default();
    assert_eq!(free_env_key_from(&config, 0x2A), "CXCM_KEY_0000002A");
    for (name, key) in [("a", "CXCM_KEY_0000002A"), ("b", "CXCM_KEY_0000002B"), ("c", "CXCM_KEY_FFFFFFFF")] {
        let mut p = sample_provider();
        p.name = name.into();
        p.env_key = key.into();
        config.providers.insert(name.into(), p);
    }
    assert_eq!(free_env_key_from(&config, 0x2A), "CXCM_KEY_0000002C");
    assert_eq!(free_env_key_from(&config, 0x2B), "CXCM_KEY_0000002C");
    assert_eq!(free_env_key_from(&config, 0x29), "CXCM_KEY_00000029");
    assert_eq!(free_env_key_from(&config, u32::MAX), "CXCM_KEY_00000000");
}

#[test]
fn drawn_env_key_is_kept_only_when_free() {
    let mut config = AppConfig::default();
    assert_eq!(env_key_if_free(&config, 0x2A).as_deref(), Some("CXCM_KEY_0000002A"));
    let mut p = sample_provider();
    p.env_key = "CXCM_KEY_0000002A".into();
    config.providers.insert("router-a".into(), p);
    assert_eq!(env_key_if_free(&config, 0x2A), None);
    assert_eq!(env_key_if_free(&config, 0x2B).as_deref(), Some("CXCM_KEY_0000002B"));
}

#[test]
fn removing_a_provider_just_added_restores_the_config() {
    let mut config = AppConfig::default();
    config.providers.insert("router-a".into(), sample_provider());
    let before = render_provider_lines(&config);
    let version = config.version;

    insert_provider(&mut config, new_input("router-b", "https://b.example.com", "key")).unwrap();
    assert_eq!(config.providers.len(), 2);
    remove_provider(&mut config, "router-b").unwrap();

    assert_eq!(render_provider_lines(&config), before);
    assert_eq!(config.version, version);
}

#[test]
fn edit_refuses_blank_name_and_base_url() {
    let existing = sample_provider();
    let err = apply_edit(
        &existing,
        EditProviderInput { name: Some(" ".into()), base_url: None, api_key: None, model: None, notes: None },
    )
    .unwrap_err();
    assert_eq!(err.message(), "name cannot be empty");
    let err = apply_edit(
        &existing,
        EditProviderInput { name: None, base_url: Some("".into()), api_key: None, model: None, notes: None },
    )
    .unwrap_err();
    assert_eq!(err.message(), "base_url cannot be empty");
}

#[test]
fn edit_without_changes_keeps_everything() {
    let mut existing = sample_provider();
    existing.last_used_at = Some("2026-03-25T14:00:00Z".into());
    existing.notes = Some("old".into());
    let updated = apply_edit(
        &existing,
        EditProviderInput { name: None, base_url: None, api_key: None, model: None, notes: None },
    )
    .unwrap();
    assert_eq!(updated, existing);
}

#[test]
fn remove_provider_drops_only_that_name() {
    let mut config = AppConfig::default();
    config.providers.insert("router-a".into(), sample_provider());
    let mut other = sample_provider();
    other.name = "backup".into();
    config.providers.insert("backup".into(), other);
    remove_provider(&mut config, "router-a").unwrap();
    assert!(!config.providers.contains_key("router-a"));
    assert!(config.providers.contains_key("backup"));
    let err = remove_provider(&mut config, "router-a").unwrap_err();
    assert_eq!(err.message(), "provider 'router-a' not found");
}

#[test]
fn mask_keeps_short_keys_whole() {
    assert_eq!(mask_api_key("abc"), "********abc");
    assert_eq!(mask_api_key(""), "********");
    assert_eq!(mask_api_key("été-clé"), "********-clé");
}

#[test]
fn provider_lines_list_fields_in_name_order() {
    let mut config = AppConfig::default();
    config.providers.insert("router-a".into(), sample_provider());
    let mut other = sample_provider();
    other.name = "backup".into();
    other.model = None;
    other.notes = Some("spare".into());
    other.last_used_at = Some("2026-01-01T00:00:00Z".into());
    config.providers.insert("backup".into(), other);
    assert_eq!(
        render_provider_lines(&config),
        vec![
            "backup | https://router.example.com/v1 | ROUTER_A_API_KEY | - | 2026-01-01T00:00:00Z | spare"
                .to_string(),
            "router-a | https://router.example.com/v1 | ROUTER_A_API_KEY | gpt-5.4 | - | -".to_string(),
        ]
    );
}
