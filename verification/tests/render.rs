use codex_nano_manager::config::ProviderConfig;
use codex_nano_manager::provider_templates::{ProviderTemplate, TemplateChoice};
use codex_nano_manager::ui::input::{handle_key, KeyCode};
use codex_nano_manager::ui::render::{
    add_form_rows, cursor_in_range, delete_confirm_text, edit_form_rows, empty_list_text, filtered_providers,
    filtered_templates, footer_hints, footer_line, form_label, hint_line, line_marker, provider_rows,
    provider_viewport_height, screen_title, search_bar_text, secret_field_display,
    selected_filtered_provider_index, selected_filtered_template_index, show_search_bar,
    table_widths, template_rows, text_field_display, FieldRow, HintToken, PartKind, Rect,
    TableRow,
};
use codex_nano_manager::ui::state::{
    AddFormState, EditFormState, provider_matches_search, template_matches_search, AddTemplateState, SearchState, UiMode,
    UiScreen, UiState,
};

fn named(name: &str, base_url: &str, notes: Option<&str>) -> ProviderConfig {
    ProviderConfig {
        name: name.into(),
        base_url: base_url.into(),
        env_key: "CXCM_KEY_12345678".into(),
        api_key: "secret".into(),
        model: None,
        last_used_at: None,
        notes: notes.map(|n| n.to_string()),
    }
}

fn provider() -> ProviderConfig {
    ProviderConfig {
        name: "router-a".into(),
        base_url: "https://router.example.com/v1".into(),
        env_key: "CXCM_KEY_12345678".into(),
        api_key: "secret".into(),
        model: Some("gpt-5.4".into()),
        last_used_at: None,
        notes: Some("internal relay".into()),
    }
}

fn table_lines(rows: Vec<TableRow>) -> Vec<String> {
    rows.into_iter().map(|r| format!("{} {} {}", r.marker, r.name, r.base_url)).collect()
}

fn form_lines(rows: Vec<FieldRow>) -> Vec<String> {
    rows.into_iter()
        .map(|r| format!("{}{} {}", line_marker(r.active), form_label(&r.label), r.value))
        .collect()
}

fn footer_text(state: &UiState) -> String {
    footer_line(state).into_iter().map(|p| p.text).collect()
}

/// The text of a page as the terminal shows it, put together from the
/// library's pieces: title, search bar, body and footer.
fn screen_text(state: &UiState) -> String {
    let mut lines = vec![screen_title(state).to_string()];
    match &state.screen {
        UiScreen::List(list) => {
            if show_search_bar(&list.search) {
                lines.push(search_bar_text(&list.search));
            }
            let shown = filtered_providers(state);
            if shown.is_empty() {
                lines.push(empty_list_text(state));
            } else {
                let selected = selected_filtered_provider_index(state, &shown);
                lines.extend(table_lines(provider_rows(&shown, selected)));
            }
        }
        UiScreen::AddTemplate(picker) => {
            if show_search_bar(&picker.search) {
                lines.push(search_bar_text(&picker.search));
            }
            let shown = filtered_templates(picker);
            let selected = selected_filtered_template_index(picker, &shown);
            lines.extend(table_lines(template_rows(&shown, selected)));
        }
        UiScreen::AddForm(form) => lines.extend(form_lines(add_form_rows(form))),
        UiScreen::EditForm(form) => lines.extend(form_lines(edit_form_rows(form))),
        UiScreen::DeleteConfirm => lines.push(delete_confirm_text(state)),
    }
    lines.push(footer_text(state));
    lines.join("\n")
}

#[test]
fn viewport_height_is_clamped() {
    assert_eq!(provider_viewport_height(0), 10);
    assert_eq!(provider_viewport_height(5), 11);
    assert_eq!(provider_viewport_height(10), 16);
    assert_eq!(provider_viewport_height(20), 16);
    assert_eq!(provider_viewport_height(65536), 10);
}

#[test]
fn provider_search_filters_non_matching_rows() {
    let mut state = UiState::new(
        UiMode::Run,
        vec![
            provider(),
            ProviderConfig {
                name: "other".into(),
                base_url: "https://example.com".into(),
                env_key: "CXCM_KEY_22222222".into(),
                api_key: "secret-2".into(),
                model: None,
                last_used_at: None,
                notes: Some("backup".into()),
            },
        ],
    );
    let _ = handle_key(&mut state, KeyCode::Char('/'));
    for c in "router".chars() {
        let _ = handle_key(&mut state, KeyCode::Char(c));
    }
    let output = screen_text(&state);

    assert!(output.contains("router-a"));
    assert!(!output.contains("https://example.com"));
}

#[test]
fn search_keeps_only_matching_rows_and_their_selection() {
    let mut state = UiState::new(
        UiMode::Run,
        vec![
            named("router-a", "https://router.example.com/v1", Some("internal relay")),
            named("other", "https://example.com", Some("backup")),
        ],
    );
    let _ = handle_key(&mut state, KeyCode::Char('/'));
    for c in "router".chars() {
        let _ = handle_key(&mut state, KeyCode::Char(c));
    }
    let shown = filtered_providers(&state);
    assert_eq!(shown.len(), 1);
    assert_eq!(shown[0].name, "router-a");
    assert_eq!(selected_filtered_provider_index(&state, &shown), Some(0));
}

#[test]
fn search_matches_name_url_and_notes_ignoring_case() {
    let p = named("Router-A", "https://ROUTER.example.com", Some("Internal Relay"));
    assert!(provider_matches_search(&p, "  "));
    assert!(provider_matches_search(&p, "router-a"));
    assert!(provider_matches_search(&p, " EXAMPLE "));
    assert!(provider_matches_search(&p, "relay"));
    assert!(!provider_matches_search(&p, "backup"));
    assert!(!provider_matches_search(&named("x", "y", None), "z"));
}

#[test]
fn template_search_filters_to_custom_row() {
    let mut state = UiState::new(UiMode::Run, vec![]);
    let _ = handle_key(&mut state, KeyCode::Char('n'));
    let _ = handle_key(&mut state, KeyCode::Char('/'));
    let _ = handle_key(&mut state, KeyCode::Char('c'));
    let output = screen_text(&state);

    assert!(output.contains("Custom"));
    let UiScreen::AddTemplate(picker) = &state.screen else {
        panic!("expected template screen");
    };
    assert!(filtered_templates(picker).iter().any(|c| matches!(c, TemplateChoice::Custom)));
}

#[test]
fn custom_row_matches_its_words_both_ways() {
    assert!(template_matches_search(&TemplateChoice::Custom, "MAN"));
    assert!(template_matches_search(&TemplateChoice::Custom, "custom endpoint"));
    assert!(template_matches_search(&TemplateChoice::Custom, "my-endpoint-x"));
    assert!(!template_matches_search(&TemplateChoice::Custom, "zzz"));
}

#[test]
fn selected_template_is_highlighted_among_shown() {
    let t = |id: &str| {
        TemplateChoice::BuiltIn(ProviderTemplate {
            id: id.into(),
            display_name: id.into(),
            base_url: "https://x".into(),
            default_model: None,
            notes: None,
        })
    };
    let mut picker = AddTemplateState::new(vec![t("alpha"), t("beta"), TemplateChoice::Custom]);
    picker.selected = 1;
    let shown = filtered_templates(&picker);
    assert_eq!(selected_filtered_template_index(&picker, &shown), Some(1));
    picker.search = SearchState { query: "custom".into(), active: false };
    let shown = filtered_templates(&picker);
    assert_eq!(shown.len(), 1);
    assert_eq!(selected_filtered_template_index(&picker, &shown), Some(0));
    assert!(show_search_bar(&picker.search));
    assert!(!show_search_bar(&SearchState { query: String::new(), active: false }));
}

#[test]
fn field_displays() {
    assert_eq!(text_field_display("", false), "-");
    assert_eq!(text_field_display("", true), "");
    assert_eq!(text_field_display("abc", false), "abc");
    assert_eq!(secret_field_display("", "required", false), "required");
    assert_eq!(secret_field_display("", "required", true), "");
    assert_eq!(secret_field_display("sk-é", "required", false), "****");
}

#[test]
fn screen_texts() {
    let mut state = UiState::new(UiMode::Run, vec![named("router-a", "u", None)]);
    state.screen = UiScreen::DeleteConfirm;
    assert_eq!(delete_confirm_text(&state), "Delete provider router-a?");
    state.selected = 3;
    assert_eq!(delete_confirm_text(&state), "Delete provider provider?");
    let mut state = UiState::new(UiMode::Run, vec![]);
    assert_eq!(empty_list_text(&state), "No providers configured");
    let _ = handle_key(&mut state, KeyCode::Char('/'));
    let _ = handle_key(&mut state, KeyCode::Char('z'));
    assert_eq!(empty_list_text(&state), "No providers match the current search");
    assert_eq!(table_widths(120), (2, 22, 24));
    assert_eq!(table_widths(80), (2, 16, 18));
}

#[test]
fn provider_search_renders_no_match_empty_state() {
    let mut state = UiState::new(UiMode::Run, vec![provider()]);
    let _ = handle_key(&mut state, KeyCode::Char('/'));
    let _ = handle_key(&mut state, KeyCode::Char('z'));
    let output = screen_text(&state);

    assert!(output.contains("No providers match the current search"));
    assert!(filtered_providers(&state).is_empty());
}

#[test]
fn render_add_form_screen_shows_fields_and_prefilled_values() {
    let mut state = UiState::new(UiMode::Run, vec![]);
    let _ = handle_key(&mut state, KeyCode::Char('n'));
    let _ = handle_key(&mut state, KeyCode::Enter);

    let output = screen_text(&state);

    assert!(output.contains("Add Provider"));
    assert!(output.contains("Name"));
    assert!(output.contains("ggboom"));
}

#[test]
fn template_prefills_the_add_form() {
    let mut state = UiState::new(UiMode::Run, vec![]);
    let _ = handle_key(&mut state, KeyCode::Char('n'));
    let _ = handle_key(&mut state, KeyCode::Enter);

    let UiScreen::AddForm(form) = &state.screen else {
        panic!("expected add form");
    };
    assert_eq!(form.name, "ggboom");
    assert_eq!(form.base_url, "https://ai.qaq.al");
    assert_eq!(form.notes, "GGBoom OpenAI-compatible endpoint");
    assert_eq!(form.model, "");
    assert_eq!(form.active_field, 2);
}

#[test]
fn render_add_form_marks_active_field() {
    let mut state = UiState::new(UiMode::Run, vec![]);
    let _ = handle_key(&mut state, KeyCode::Char('n'));
    let _ = handle_key(&mut state, KeyCode::Enter);

    let output = screen_text(&state);

    assert!(output.contains("› API Key"));
    assert!(output.contains("[Tab]"));
    assert!(output.contains("[Shift+Tab]"));
}

#[test]
fn form_labels_take_eight_columns() {
    assert_eq!(form_label("Name"), "Name    ");
    assert_eq!(form_label("Base URL"), "Base URL");
    assert_eq!(form_label("Very long label"), "Very long label");
    assert_eq!(line_marker(false), "  ");
}

#[test]
fn table_rows_mark_the_selection() {
    let rows = provider_rows(&vec![named("a", "u1", None), named("b", "u2", None)], Some(1));
    assert_eq!(
        rows.iter().map(|r| (r.marker.as_str(), r.name.as_str(), r.base_url.as_str())).collect::<Vec<_>>(),
        vec![(" ", "a", "u1"), (">", "b", "u2")]
    );
    let rows = template_rows(
        &vec![
            TemplateChoice::BuiltIn(ProviderTemplate {
                id: "ggboom".into(),
                display_name: "GGBoom".into(),
                base_url: "https://ai.qaq.al".into(),
                default_model: None,
                notes: None,
            }),
            TemplateChoice::Custom,
        ],
        None,
    );
    assert_eq!(rows[0].name, "GGBoom");
    assert!(!rows[0].custom);
    assert_eq!((rows[1].name.as_str(), rows[1].base_url.as_str()), ("Custom", "Manual endpoint setup"));
    assert!(rows[1].custom);
    assert_eq!(rows[1].marker, " ");
}

#[test]
fn form_rows_show_values_and_placeholders() {
    let form = AddFormState::ready_to_submit("n", "", "");
    let rows = add_form_rows(&form);
    let values: Vec<&str> = rows.iter().map(|r| r.value.as_str()).collect();
    assert_eq!(values, vec!["n", "", "required", "-", "-"]);
    assert!(rows.iter().all(|r| !r.active));
    let edit = EditFormState::from_provider(&named("router-a", "u", Some("note")));
    let rows = edit_form_rows(&edit);
    let values: Vec<&str> = rows.iter().map(|r| r.value.as_str()).collect();
    assert_eq!(values, vec!["router-a", "u", "(keep current)", "-", "note"]);
    assert!(rows[0].active);
    assert_eq!(rows[2].label, "API Key");
}

#[test]
fn provider_search_bar_renders_when_active() {
    let mut state = UiState::new(UiMode::Run, vec![provider()]);
    let _ = handle_key(&mut state, KeyCode::Char('/'));
    let _ = handle_key(&mut state, KeyCode::Char('r'));
    let output = screen_text(&state);

    assert!(output.contains("Search:"));
    assert!(output.contains("r"));
    assert!(output.contains("[Enter]"));
    assert!(output.contains("[Esc]"));
}

#[test]
fn search_bar_text_is_label_then_query() {
    let search = SearchState { query: "rôute".into(), active: true };
    assert_eq!(search_bar_text(&search), "Search: rôute");
    let empty = SearchState { query: String::new(), active: true };
    assert_eq!(search_bar_text(&empty), "Search: ");
}

#[test]
fn render_list_screen_shows_provider_table_and_help() {
    let state = UiState::new(UiMode::Run, vec![provider()]);
    let output = screen_text(&state);

    assert!(output.contains("Providers"));
    assert!(output.contains("router-a"));
    assert!(output.contains("[Enter]"));
    assert!(output.contains("run"));
}

#[test]
fn render_delete_confirm_screen_replaces_table_content() {
    let mut state = UiState::new(UiMode::Run, vec![provider()]);
    state.screen = UiScreen::DeleteConfirm;

    let output = screen_text(&state);

    assert!(output.contains("Delete Provider"));
    assert!(!output.contains("internal relay"));
}

#[test]
fn render_add_template_screen_shows_builtin_choices() {
    let mut state = UiState::new(UiMode::Run, vec![]);
    let _ = handle_key(&mut state, KeyCode::Char('n'));

    let output = screen_text(&state);

    assert!(output.contains("Provider Templates"));
    assert!(output.contains("GGBoom"));
}

#[test]
fn render_edit_form_screen_shows_fields_without_provider_table() {
    let mut state = UiState::new(UiMode::Run, vec![provider()]);
    let _ = handle_key(&mut state, KeyCode::Char('e'));

    let output = screen_text(&state);

    assert!(output.contains("Edit Provider"));
    assert!(output.contains("Base URL"));
    assert!(!output.contains("Providers"));
}

#[test]
fn each_screen_has_its_title() {
    let mut state = UiState::new(UiMode::Run, vec![provider()]);
    assert_eq!(screen_title(&state), "Providers");
    state.screen = UiScreen::DeleteConfirm;
    assert_eq!(screen_title(&state), "Delete Provider");
    let mut state = UiState::new(UiMode::Run, vec![provider()]);
    let _ = handle_key(&mut state, KeyCode::Char('e'));
    assert_eq!(screen_title(&state), "Edit Provider");
    let mut state = UiState::new(UiMode::Run, vec![]);
    let _ = handle_key(&mut state, KeyCode::Char('n'));
    assert_eq!(screen_title(&state), "Provider Templates");
    let _ = handle_key(&mut state, KeyCode::Enter);
    assert_eq!(screen_title(&state), "Add Provider");
}

#[test]
fn footer_reads_keys_in_brackets_with_wide_gaps() {
    let mut state = UiState::new(UiMode::Run, vec![]);
    let _ = handle_key(&mut state, KeyCode::Char('/'));
    assert_eq!(footer_text(&state), "[Type] filter   [Enter] close   [Esc] clear");
    let state = UiState::new(UiMode::Exec, vec![provider()]);
    assert_eq!(
        footer_text(&state),
        "[Enter] exec   [/] search   [N] new   [E] edit   [D] delete   [Q] quit"
    );
}

#[test]
fn hint_line_pieces_and_their_kinds() {
    assert!(hint_line(&vec![]).is_empty());
    let tokens = vec![
        HintToken { key: "Y".into(), description: "confirm".into() },
        HintToken { key: "Esc".into(), description: "cancel".into() },
    ];
    let parts: Vec<(PartKind, String)> = hint_line(&tokens).into_iter().map(|p| (p.kind, p.text)).collect();
    assert_eq!(
        parts,
        vec![
            (PartKind::Keycap, "[Y]".to_string()),
            (PartKind::Gap, " ".to_string()),
            (PartKind::Description, "confirm".to_string()),
            (PartKind::Gap, "   ".to_string()),
            (PartKind::Keycap, "[Esc]".to_string()),
            (PartKind::Gap, " ".to_string()),
            (PartKind::Description, "cancel".to_string()),
        ]
    );
}

#[test]
fn cursor_range_check_matches_the_cursor() {
    let mut state = UiState::new(UiMode::Run, vec![provider()]);
    let _ = handle_key(&mut state, KeyCode::Char('/'));
    let _ = handle_key(&mut state, KeyCode::Char('o'));
    assert!(cursor_in_range(&state, Rect { x: 0, y: 0, width: 120, height: 11 }));
    assert!(cursor_in_range(&state, Rect { x: 65526, y: 0, width: 1, height: 1 }));
    assert!(!cursor_in_range(&state, Rect { x: 65527, y: 0, width: 1, height: 1 }));
    let state = UiState::new(UiMode::Run, vec![provider()]);
    assert!(cursor_in_range(&state, Rect { x: 65535, y: 65535, width: 1, height: 1 }));
}
