use codex_nano_manager::provider_templates::{load_builtin_templates, template_choices, TemplateChoice};

#[test]
fn parses_builtin_templates_and_preserves_ggboom_fields() {
    let templates = load_builtin_templates().unwrap();
    let ggboom = templates.iter().find(|template| template.id == "ggboom").unwrap();

    assert_eq!(ggboom.display_name, "GGBoom");
    assert_eq!(ggboom.base_url, "https://ai.qaq.al");
    assert_eq!(ggboom.default_model.as_deref(), None);
}

#[test]
fn parses_builtin_templates_without_env_key() {
    let templates = load_builtin_templates().unwrap();
    let quickly = templates.iter().find(|template| template.id == "quickly").unwrap();

    assert_eq!(quickly.display_name, "Quickly");
    assert_eq!(quickly.base_url, "https://sub.jlypx.de");
    assert_eq!(quickly.default_model.as_deref(), None);
}

#[test]
fn appends_custom_choice_last() {
    let choices = template_choices().unwrap();

    assert!(matches!(choices.last(), Some(TemplateChoice::Custom)));
}

#[test]
fn choices_list_every_template_before_custom() {
    let templates = load_builtin_templates().unwrap();
    let choices = template_choices().unwrap();
    assert_eq!(choices.len(), templates.len() + 1);
    for (choice, template) in choices.iter().zip(templates.iter()) {
        assert_eq!(choice, &TemplateChoice::BuiltIn(template.clone()));
    }
}
