use codex_nano_manager::config::ProviderConfig;
use codex_nano_manager::ui::action::UiAction;
use codex_nano_manager::ui::input::{handle_key, KeyCode};
use codex_nano_manager::ui::render::{
    footer_hints, provider_viewport_height, screen_cursor_position, Rect,
};
use codex_nano_manager::ui::state::{AddFormState, EditFormState, UiMode, UiScreen, UiState};

fn provider() -> ProviderConfig {
    ProviderConfig {
        name: "router-a".into(),
        base_url: "https://router.example.com/v1".into(),
        env_key: "CXCM_KEY_12345678".into(),
        api_key: "secret".into(),
        model: Some("gpt-5.4".into()),
        last_used_at: None,
        notes: Some("internal relay".into()),
    }
}

fn named(name: &str, base_url: &str, notes: Option<&str>) -> ProviderConfig {
    ProviderConfig {
        name: name.into(),
        base_url: base_url.into(),
        env_key: "CXCM_KEY_22222222".into(),
        api_key: "secret-2".into(),
        model: None,
        last_used_at: None,
        notes: notes.map(|n| n.to_string()),
    }
}

#[test]
fn ui_mode_supports_manage_run_and_exec() {
    let modes = [UiMode::Manage, UiMode::Run, UiMode::Exec];
    assert_eq!(modes.len(), 3);
}

#[test]
fn ui_screen_starts_in_list_mode() {
    let state = UiState::new(UiMode::Run, Vec::new());
    let UiScreen::List(list) = state.screen else {
        panic!("expected list screen");
    };
    assert_eq!(list.search.query, "");
    assert!(!list.search.active);
}

#[test]
fn list_screen_enter_runs_in_manage_and_run_modes() {
    let providers = vec![provider()];
    let mut state = UiState::new(UiMode::Run, providers);

    let action = handle_key(&mut state, KeyCode::Enter);

    assert!(matches!(action, UiAction::RunSelected(name) if name == "router-a"));
}

#[test]
fn list_screen_enter_execs_in_exec_mode() {
    let providers = vec![provider()];
    let mut state = UiState::new(UiMode::Exec, providers);

    let action = handle_key(&mut state, KeyCode::Enter);

    assert!(matches!(action, UiAction::ExecSelected(name) if name == "router-a"));
}

#[test]
fn list_screen_n_switches_to_add_template_screen() {
    let mut state = UiState::new(UiMode::Run, vec![provider()]);

    let action = handle_key(&mut state, KeyCode::Char('n'));

    assert!(matches!(action, UiAction::Continue));
    assert!(matches!(state.screen, UiScreen::AddTemplate(_)));
}

#[test]
fn slash_enters_search_mode_on_provider_list() {
    let mut state = UiState::new(UiMode::Run, vec![provider()]);

    let action = handle_key(&mut state, KeyCode::Char('/'));

    let UiScreen::List(list) = &state.screen else {
        panic!("expected list screen");
    };

    assert!(matches!(action, UiAction::Continue));
    assert!(list.search.active);
}

#[test]
fn typing_updates_provider_list_search_query() {
    let mut state = UiState::new(UiMode::Run, vec![provider()]);
    let _ = handle_key(&mut state, KeyCode::Char('/'));

    let _ = handle_key(&mut state, KeyCode::Char('r'));
    let _ = handle_key(&mut state, KeyCode::Char('o'));

    let UiScreen::List(list) = &state.screen else {
        panic!("expected list screen");
    };

    assert_eq!(list.search.query, "ro");
}

#[test]
fn escape_clears_provider_list_search_and_exits_mode() {
    let mut state = UiState::new(UiMode::Run, vec![provider()]);
    let _ = handle_key(&mut state, KeyCode::Char('/'));
    let _ = handle_key(&mut state, KeyCode::Char('r'));

    let action = handle_key(&mut state, KeyCode::Esc);

    let UiScreen::List(list) = &state.screen else {
        panic!("expected list screen");
    };

    assert!(matches!(action, UiAction::Continue));
    assert_eq!(list.search.query, "");
    assert!(!list.search.active);
}

#[test]
fn slash_enters_search_mode_on_template_list() {
    let mut state = UiState::new(UiMode::Run, vec![]);
    let _ = handle_key(&mut state, KeyCode::Char('n'));

    let action = handle_key(&mut state, KeyCode::Char('/'));

    let UiScreen::AddTemplate(template) = &state.screen else {
        panic!("expected template screen");
    };

    assert!(matches!(action, UiAction::Continue));
    assert!(template.search.active);
}

#[test]
fn typing_updates_template_search_query() {
    let mut state = UiState::new(UiMode::Run, vec![]);
    let _ = handle_key(&mut state, KeyCode::Char('n'));
    let _ = handle_key(&mut state, KeyCode::Char('/'));
    let _ = handle_key(&mut state, KeyCode::Char('o'));

    let UiScreen::AddTemplate(template) = &state.screen else {
        panic!("expected template screen");
    };

    assert_eq!(template.search.query, "o");
}

#[test]
fn provider_search_cursor_points_to_end_of_query() {
    let mut state = UiState::new(UiMode::Run, vec![provider()]);
    let _ = handle_key(&mut state, KeyCode::Char('/'));
    let _ = handle_key(&mut state, KeyCode::Char('o'));
    let _ = handle_key(&mut state, KeyCode::Char('p'));

    let pos = screen_cursor_position(&state, Rect { x: 0, y: 0, width: 120, height: 11 });

    assert_eq!(pos.map(|p| (p.x, p.y)), Some((10, 0)));
}

#[test]
fn provider_runtime_viewport_stays_compact() {
    assert!(provider_viewport_height(20) <= 16);
}

#[test]
fn add_template_selects_builtin_and_enters_add_form() {
    let mut state = UiState::new(UiMode::Run, vec![]);
    let _ = handle_key(&mut state, KeyCode::Char('n'));

    let action = handle_key(&mut state, KeyCode::Enter);

    assert!(matches!(action, UiAction::Continue));
    assert!(matches!(state.screen, UiScreen::AddForm(_)));
}

#[test]
fn add_form_escape_returns_to_list() {
    let mut state = UiState::new(UiMode::Run, vec![]);
    state.screen = UiScreen::AddForm(AddFormState::custom());

    let action = handle_key(&mut state, KeyCode::Esc);

    assert!(matches!(action, UiAction::Continue));
    assert!(matches!(state.screen, UiScreen::List(_)));
}

#[test]
fn add_form_submit_emits_submit_add_action() {
    let mut state = UiState::new(UiMode::Run, vec![]);
    state.screen = UiScreen::AddForm(AddFormState::ready_to_submit(
        "ggboom",
        "https://ai.qaq.al",
        "sk-test",
    ));

    let action = handle_key(&mut state, KeyCode::Enter);

    assert!(matches!(action, UiAction::SubmitAdd(input) if input.name == "ggboom"));
}

#[test]
fn add_form_cursor_position_points_to_active_input() {
    let mut state = UiState::new(UiMode::Run, vec![]);
    let _ = handle_key(&mut state, KeyCode::Char('n'));
    let _ = handle_key(&mut state, KeyCode::Enter);

    let pos = screen_cursor_position(&state, Rect { x: 0, y: 0, width: 120, height: 11 });

    assert_eq!(pos.map(|p| (p.x, p.y)), Some((12, 3)));
}

#[test]
fn edit_key_enters_edit_form_with_selected_provider_values() {
    let mut state = UiState::new(UiMode::Run, vec![provider()]);

    let action = handle_key(&mut state, KeyCode::Char('e'));

    assert!(matches!(action, UiAction::Continue));
    assert!(matches!(state.screen, UiScreen::EditForm(_)));
}

#[test]
fn edit_form_submit_emits_submit_edit_action() {
    let mut state = UiState::new(UiMode::Run, vec![provider()]);
    state.screen = UiScreen::EditForm(EditFormState::ready_to_submit(&provider(), "router-b"));

    let action = handle_key(&mut state, KeyCode::Enter);

    assert!(
        matches!(action, UiAction::SubmitEdit { original_name, .. } if original_name == "router-a")
    );
}

#[test]
fn list_screen_d_enters_delete_confirm() {
    let mut state = UiState::new(UiMode::Run, vec![provider()]);

    let action = handle_key(&mut state, KeyCode::Char('d'));

    assert!(matches!(action, UiAction::Continue));
    assert!(matches!(state.screen, UiScreen::DeleteConfirm));
}

#[test]
fn delete_confirm_y_emits_delete_selected() {
    let mut state = UiState::new(UiMode::Run, vec![provider()]);
    state.screen = UiScreen::DeleteConfirm;

    let action = handle_key(&mut state, KeyCode::Char('y'));

    assert!(matches!(action, UiAction::DeleteSelected(name) if name == "router-a"));
}

#[test]
fn delete_confirm_escape_returns_to_list() {
    let mut state = UiState::new(UiMode::Run, vec![provider()]);
    state.screen = UiScreen::DeleteConfirm;

    let action = handle_key(&mut state, KeyCode::Esc);

    assert!(matches!(action, UiAction::Continue));
    assert!(matches!(state.screen, UiScreen::List(_)));
}

#[test]
fn moving_down_and_up_follows_visible_rows_and_stops_at_ends() {
    let mut state = UiState::new(
        UiMode::Run,
        vec![provider(), named("other", "https://example.com", None), named("router-b", "https://b", None)],
    );
    let _ = handle_key(&mut state, KeyCode::Down);
    assert_eq!(state.selected, 1);
    let _ = handle_key(&mut state, KeyCode::Char('j'));
    let _ = handle_key(&mut state, KeyCode::Char('j'));
    assert_eq!(state.selected, 2);
    let _ = handle_key(&mut state, KeyCode::Up);
    let _ = handle_key(&mut state, KeyCode::Char('k'));
    let _ = handle_key(&mut state, KeyCode::Char('k'));
    assert_eq!(state.selected, 0);

    let _ = handle_key(&mut state, KeyCode::Char('/'));
    for c in "router".chars() {
        let _ = handle_key(&mut state, KeyCode::Char(c));
    }
    let _ = handle_key(&mut state, KeyCode::Enter);
    let _ = handle_key(&mut state, KeyCode::Down);
    assert_eq!(state.selected, 2);
    let action = handle_key(&mut state, KeyCode::Enter);
    assert!(matches!(action, UiAction::RunSelected(name) if name == "router-b"));
}

#[test]
fn search_that_hides_the_selection_moves_it_to_the_first_match() {
    let mut state = UiState::new(
        UiMode::Run,
        vec![provider(), named("other", "https://example.com", Some("Backup"))],
    );
    let _ = handle_key(&mut state, KeyCode::Char('/'));
    for c in " BACK ".chars() {
        let _ = handle_key(&mut state, KeyCode::Char(c));
    }
    assert_eq!(state.selected, 1);
    let _ = handle_key(&mut state, KeyCode::Backspace);
    let UiScreen::List(list) = &state.screen else {
        panic!("expected list screen");
    };
    assert_eq!(list.search.query, " BACK");
    let _ = handle_key(&mut state, KeyCode::Char('z'));
    assert_eq!(state.selected, 0);
    let action = handle_key(&mut state, KeyCode::Enter);
    assert!(matches!(action, UiAction::Continue));
    let action = handle_key(&mut state, KeyCode::Enter);
    assert!(matches!(action, UiAction::Continue));
}

#[test]
fn add_form_walks_fields_and_reports_problems() {
    let mut state = UiState::new(UiMode::Run, vec![provider()]);
    state.screen = UiScreen::AddForm(AddFormState::custom());
    for c in "router-a".chars() {
        let _ = handle_key(&mut state, KeyCode::Char(c));
    }
    let _ = handle_key(&mut state, KeyCode::Tab);
    for c in "https://x".chars() {
        let _ = handle_key(&mut state, KeyCode::Char(c));
    }
    let _ = handle_key(&mut state, KeyCode::Enter);
    for c in "key".chars() {
        let _ = handle_key(&mut state, KeyCode::Char(c));
    }
    for _ in 0..10 {
        let _ = handle_key(&mut state, KeyCode::Down);
    }
    let action = handle_key(&mut state, KeyCode::Enter);
    assert!(matches!(action, UiAction::Continue));
    let UiScreen::AddForm(form) = &state.screen else {
        panic!("expected add form");
    };
    assert_eq!(form.active_field, 5);
    assert_eq!(form.error.as_deref(), Some("provider 'router-a' already exists"));
    assert_eq!(form.api_key, "key");

    let _ = handle_key(&mut state, KeyCode::BackTab);
    let _ = handle_key(&mut state, KeyCode::Up);
    let _ = handle_key(&mut state, KeyCode::Up);
    let _ = handle_key(&mut state, KeyCode::Up);
    let _ = handle_key(&mut state, KeyCode::Up);
    let _ = handle_key(&mut state, KeyCode::Up);
    let _ = handle_key(&mut state, KeyCode::Backspace);
    let UiScreen::AddForm(form) = &state.screen else {
        panic!("expected add form");
    };
    assert_eq!(form.active_field, 0);
    assert_eq!(form.name, "router-");
    assert_eq!(form.error, None);
}

#[test]
fn add_form_submission_normalizes_blank_optional_fields() {
    let mut state = UiState::new(UiMode::Run, vec![]);
    let mut form = AddFormState::ready_to_submit("n", "u", "k");
    form.model = "  ".into();
    form.notes = "note".into();
    state.screen = UiScreen::AddForm(form);
    let action = handle_key(&mut state, KeyCode::Enter);
    let UiAction::SubmitAdd(input) = action else {
        panic!("expected submit");
    };
    assert_eq!(input.model, None);
    assert_eq!(input.notes.as_deref(), Some("note"));
}

#[test]
fn footer_hints_follow_screen_and_mode() {
    let state = UiState::new(UiMode::Exec, vec![provider()]);
    let hints = footer_hints(&state);
    assert_eq!(hints.len(), 6);
    assert_eq!((hints[0].key.as_str(), hints[0].description.as_str()), ("Enter", "exec"));
    let mut state = UiState::new(UiMode::Run, vec![provider()]);
    assert_eq!(footer_hints(&state)[0].description, "run");
    let _ = handle_key(&mut state, KeyCode::Char('/'));
    let keys: Vec<String> = footer_hints(&state).into_iter().map(|h| h.key).collect();
    assert_eq!(keys, vec!["Type", "Enter", "Esc"]);
    state.screen = UiScreen::DeleteConfirm;
    let keys: Vec<String> = footer_hints(&state).into_iter().map(|h| h.key).collect();
    assert_eq!(keys, vec!["Y", "Esc"]);
    state.screen = UiScreen::AddForm(AddFormState::custom());
    let keys: Vec<String> = footer_hints(&state).into_iter().map(|h| h.key).collect();
    assert_eq!(keys, vec!["Tab", "Shift+Tab", "Enter", "Esc"]);
}

#[test]
fn delete_confirm_without_providers_does_nothing() {
    let mut state = UiState::new(UiMode::Run, vec![]);
    state.screen = UiScreen::DeleteConfirm;
    let action = handle_key(&mut state, KeyCode::Char('y'));
    assert!(matches!(action, UiAction::Continue));
    assert!(matches!(state.screen, UiScreen::DeleteConfirm));
    let action = handle_key(&mut state, KeyCode::Char('q'));
    assert!(matches!(action, UiAction::Continue));
    assert!(matches!(state.screen, UiScreen::List(_)));
}

#[test]
fn quit_keys_on_the_list() {
    let mut state = UiState::new(UiMode::Run, vec![]);
    assert!(matches!(handle_key(&mut state, KeyCode::Char('q')), UiAction::Quit));
    assert!(matches!(handle_key(&mut state, KeyCode::Esc), UiAction::Quit));
    assert!(matches!(handle_key(&mut state, KeyCode::Enter), UiAction::Continue));
    assert!(matches!(handle_key(&mut state, KeyCode::Char('e')), UiAction::Continue));
    assert!(matches!(state.screen, UiScreen::List(_)));
}

#[test]
fn form_cursor_at_the_largest_value_still_takes_other_keys() {
    let mut state = UiState::new(UiMode::Run, vec![]);
    let mut form = AddFormState::custom();
    form.active_field = usize::MAX;
    state.screen = UiScreen::AddForm(form);
    assert!(matches!(handle_key(&mut state, KeyCode::Up), UiAction::Continue));
    let UiScreen::AddForm(form) = &state.screen else {
        panic!("expected add form");
    };
    assert_eq!(form.active_field, usize::MAX - 1);
    assert!(matches!(handle_key(&mut state, KeyCode::Enter), UiAction::Continue));
    let UiScreen::AddForm(form) = &state.screen else {
        panic!("expected add form");
    };
    assert_eq!(form.error.as_deref(), Some("name cannot be empty"));
    let _ = handle_key(&mut state, KeyCode::Esc);
    assert!(matches!(state.screen, UiScreen::List(_)));
}

#[test]
fn delete_confirm_with_selection_past_the_list_still_cancels() {
    let mut state = UiState::new(UiMode::Run, vec![provider()]);
    state.screen = UiScreen::DeleteConfirm;
    state.selected = 5;
    assert!(matches!(handle_key(&mut state, KeyCode::Char('x')), UiAction::Continue));
    assert!(matches!(handle_key(&mut state, KeyCode::Char('n')), UiAction::Continue));
    assert!(matches!(state.screen, UiScreen::List(_)));
}
