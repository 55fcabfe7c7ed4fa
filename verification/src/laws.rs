use vstd::prelude::*;
use crate::config::ProviderView;
use crate::launcher::{launch_args, model_args, override_args, user_specified_model};
use crate::provider::{
    edit_problem, edited_view, new_provider_problem, new_provider_view, masked, EditInputView,
};
use crate::provider_templates::template_choice_views;
use crate::text::is_blank;
use crate::ui::input::{
    add_form_input, add_form_problem, choice_flags, edit_form_input, edit_form_problem, key_ready,
    key_step, kept_selection, lemma_hits, list_query, matching, moved_selection, provider_flags,
    search_step,
};
use crate::ui::state::{EditFormView, FormView, ScreenView, StateView};
use crate::ui::action::ActionView;
use crate::ui::render::delete_prompt;
use crate::cli::{classify, DispatchView};
use crate::{edit_outcome, launched};

verus! {

/// Every provider is stored under its own name.
pub open spec fn names_are_keys(m: Map<Seq<char>, ProviderView>) -> bool {
    forall|k: Seq<char>| m.contains_key(k) ==> (#[trigger] m[k]).name == k
}

/// An edit never changes the environment variable name nor the last-use time.
pub proof fn law_edit_keeps_env_key_and_last_use(existing: ProviderView, input: EditInputView)
    ensures
        edited_view(existing, input).env_key == existing.env_key,
        edited_view(existing, input).last_used_at == existing.last_used_at,
{
}

/// A blank API key in an edit keeps the current key.
pub proof fn law_blank_secret_keeps_api_key(
    existing: ProviderView,
    input: EditInputView,
    typed: Seq<char>,
)
    requires
        input.api_key == Some(typed),
        is_blank(typed),
    ensures
        edited_view(existing, input).api_key == existing.api_key,
{
}

/// The user's arguments reach codex unchanged, as the last arguments.
pub proof fn law_passthrough_args_last(p: ProviderView, args: Seq<Seq<char>>)
    ensures
        launch_args(p, args).len() >= args.len(),
        launch_args(p, args).subrange(
            launch_args(p, args).len() - args.len(),
            launch_args(p, args).len() as int,
        ) == args,
{
    let l = launch_args(p, args);
    let pre = override_args(p) + model_args(p, args);
    assert(l == pre + args);
    assert(l.subrange(pre.len() as int, l.len() as int) =~= args);
}

/// When the user names a model, no default model is added; otherwise the
/// provider's default model, if any, is passed with `-m`.
pub proof fn law_default_model_only_when_unspecified(p: ProviderView, args: Seq<Seq<char>>)
    ensures
        user_specified_model(args) ==> launch_args(p, args) == override_args(p) + args,
        !user_specified_model(args) && p.model is Some ==> launch_args(p, args) == override_args(
            p,
        ) + seq!["-m"@, p.model->0] + args,
        !user_specified_model(args) && p.model is None ==> launch_args(p, args) == override_args(
            p,
        ) + args,
{
    if user_specified_model(args) || p.model is None {
        assert(override_args(p) + Seq::<Seq<char>>::empty() =~= override_args(p));
    }
}

/// The add form accepts exactly what adding the provider accepts, with the
/// same message, when the page lists the configured names.
pub proof fn law_add_form_agrees_with_insert(names: Seq<Seq<char>>, taken: Set<Seq<char>>, f: FormView)
    requires
        names.to_set() == taken,
    ensures
        add_form_problem(names, f) == new_provider_problem(taken, add_form_input(f)),
{
    assert(names.contains(f.name) == taken.contains(f.name));
}

/// An edit that the edit form accepts is accepted by the application when
/// the page lists the configured providers, each stored under its name.
pub proof fn law_edit_form_agrees_with_edit(
    m: Map<Seq<char>, ProviderView>,
    names: Seq<Seq<char>>,
    e: EditFormView,
)
    requires
        names_are_keys(m),
        names.to_set() == m.dom(),
        m.contains_key(e.original_name),
        edit_form_problem(names, e) is None,
    ensures
        edit_outcome(m, e.original_name, edit_form_input(e)) is Ok,
{
    let input = edit_form_input(e);
    let u = edited_view(m[e.original_name], input);
    assert(u.name == e.form.name);
    assert(u.base_url == e.form.base_url);
    assert(edit_problem(m[e.original_name], input) is None);
    if u.name != e.original_name && m.contains_key(u.name) {
        assert(names.to_set().contains(u.name));
        assert(names.contains(u.name));
    }
}

/// Adding a provider keeps every provider under its own name.
pub proof fn law_insert_keeps_names(
    m: Map<Seq<char>, ProviderView>,
    input: crate::provider::NewInputView,
    env_key: Seq<char>,
)
    requires
        names_are_keys(m),
    ensures
        names_are_keys(m.insert(input.name, new_provider_view(input, env_key))),
{
}

/// Editing a provider keeps every provider under its own name.
pub proof fn law_edit_keeps_names(
    m: Map<Seq<char>, ProviderView>,
    orig: Seq<char>,
    input: EditInputView,
)
    requires
        names_are_keys(m),
    ensures
        edit_outcome(m, orig, input) matches Ok(m2) ==> names_are_keys(m2),
{
}

/// Removing a provider keeps every other one under its own name.
pub proof fn law_remove_keeps_names(m: Map<Seq<char>, ProviderView>, name: Seq<char>)
    requires
        names_are_keys(m),
    ensures
        names_are_keys(m.remove(name)),
{
}

/// Removing a provider right after adding it succeeds and gives back the
/// providers as they were before the add.
pub proof fn law_remove_undoes_insert(
    m: Map<Seq<char>, ProviderView>,
    input: crate::provider::NewInputView,
    env_key: Seq<char>,
)
    requires
        new_provider_problem(m.dom(), input) is None,
    ensures
        m.insert(input.name, new_provider_view(input, env_key)).contains_key(input.name),
        m.insert(input.name, new_provider_view(input, env_key)).remove(input.name) == m,
{
    assert(m.insert(input.name, new_provider_view(input, env_key)).remove(input.name) =~= m);
}

/// Recording a launch changes only the launched provider's last-use time.
pub proof fn law_launch_touches_only_last_use(
    m: Map<Seq<char>, ProviderView>,
    name: Seq<char>,
    now: Seq<char>,
)
    requires
        names_are_keys(m),
    ensures
        names_are_keys(launched(m, name, now)),
        launched(m, name, now).dom() == m.dom(),
        forall|k: Seq<char>| #[trigger] m.contains_key(k) && k != name ==> launched(m, name, now)[k]
            == m[k],
        m.contains_key(name) ==> launched(m, name, now)[name] == (ProviderView {
            last_used_at: Some(now),
            ..m[name]
        }),
{
    if m.contains_key(name) {
        assert(launched(m, name, now).dom() =~= m.dom());
    }
}

/// A masked key shows eight asterisks and at most the last four characters.
pub proof fn law_mask_shows_at_most_four(value: Seq<char>)
    ensures
        masked(value).len() == 8 + if value.len() < 4 {
            value.len() as int
        } else {
            4
        },
        masked(value).subrange(0, 8) == "********"@,
{
    reveal_strlit("********");
    let m = masked(value);
    assert(m.subrange(0, 8) =~= "********"@);
}

/// The page is well formed: the highlighted provider and template exist when
/// there are any, and a form cursor is at most on the save button.
pub open spec fn page_ok(s: StateView) -> bool {
    &&& (s.providers.len() > 0 ==> 0 <= s.selected < s.providers.len())
    &&& s.selected >= 0
    &&& match s.screen {
        ScreenView::AddTemplate(p) => p.selected >= 0 && (p.choices.len() > 0 ==> p.selected
            < p.choices.len()),
        ScreenView::AddForm(f) => 0 <= f.active_field <= 5,
        ScreenView::EditForm(e) => 0 <= e.form.active_field <= 5,
        _ => true,
    }
}

proof fn lemma_selection_in_range(flags: Seq<bool>, sel: int, len: int, down: bool)
    requires
        flags.len() == len,
        sel >= 0,
        len > 0 ==> sel < len,
    ensures
        0 <= kept_selection(sel, matching(flags)),
        len > 0 ==> kept_selection(sel, matching(flags)) < len,
        0 <= moved_selection(sel, matching(flags), down),
        len > 0 ==> moved_selection(sel, matching(flags), down) < len,
{
    lemma_hits(flags, len);
    let f = matching(flags);
    if f.len() > 0 {
        assert(0 <= f[0] < len);
        let pos = if f.contains(sel) {
            f.index_of(sel)
        } else {
            0
        };
        let next = if down {
            if pos + 1 < f.len() {
                pos + 1
            } else {
                f.len() - 1
            }
        } else if pos > 0 {
            pos - 1
        } else {
            0
        };
        assert(0 <= f[next] < len);
    }
}

/// A well-formed page stays well formed whatever key is pressed, and can take
/// any next key.
pub proof fn law_key_step_keeps_page_ok(s: StateView, code: crate::ui::input::KeyCode)
    requires
        page_ok(s),
    ensures
        page_ok(key_step(s, code).0),
        forall|next: crate::ui::input::KeyCode| key_ready(key_step(s, code).0, next),
        key_step(s, code).0.providers == s.providers,
{
    let n = s.providers.len() as int;
    match s.screen {
        ScreenView::List(search) => {
            let (ns, _) = search_step(search, code);
            lemma_selection_in_range(provider_flags(s.providers, ns.query), s.selected, n, true);
            lemma_selection_in_range(provider_flags(s.providers, list_query(s)), s.selected, n, true);
            lemma_selection_in_range(
                provider_flags(s.providers, list_query(s)),
                s.selected,
                n,
                false,
            );
            reveal_strlit("custom");
            assert(template_choice_views().len() == 3);
        },
        ScreenView::AddTemplate(p) => {
            let c = p.choices.len() as int;
            let (ns, _) = search_step(p.search, code);
            lemma_selection_in_range(choice_flags(p.choices, ns.query), p.selected, c, true);
            lemma_selection_in_range(choice_flags(p.choices, p.search.query), p.selected, c, true);
            lemma_selection_in_range(choice_flags(p.choices, p.search.query), p.selected, c, false);
        },
        _ => {},
    }
}

/// A key keeps the mode and the providers, and keeps the highlighted row on a
/// provider when there are any; the row moves only on the list screen.
pub proof fn law_key_step_keeps_selection(s: StateView, code: crate::ui::input::KeyCode)
    requires
        s.selected >= 0,
        s.providers.len() > 0 ==> s.selected < s.providers.len(),
        key_ready(s, code),
    ensures
        key_step(s, code).0.mode == s.mode,
        key_step(s, code).0.providers == s.providers,
        key_step(s, code).0.selected >= 0,
        s.providers.len() > 0 ==> key_step(s, code).0.selected < s.providers.len(),
        !(s.screen is List) ==> key_step(s, code).0.selected == s.selected,
{
    let n = s.providers.len() as int;
    match s.screen {
        ScreenView::List(search) => {
            let (ns, _) = search_step(search, code);
            lemma_selection_in_range(provider_flags(s.providers, ns.query), s.selected, n, true);
            lemma_selection_in_range(provider_flags(s.providers, list_query(s)), s.selected, n, true);
            lemma_selection_in_range(
                provider_flags(s.providers, list_query(s)),
                s.selected,
                n,
                false,
            );
        },
        _ => {},
    }
}

/// An added provider keeps every field it was given: its name, base URL, API
/// key, model and notes are the input's, whatever environment variable name
/// it gets, and it has not been used yet.
pub proof fn law_added_provider_keeps_input(input: crate::provider::NewInputView, env_key: Seq<char>)
    ensures
        new_provider_view(input, env_key).name == input.name,
        new_provider_view(input, env_key).base_url == input.base_url,
        new_provider_view(input, env_key).api_key == input.api_key,
        new_provider_view(input, env_key).model == input.model,
        new_provider_view(input, env_key).notes == input.notes,
        new_provider_view(input, env_key).env_key == env_key,
        new_provider_view(input, env_key).last_used_at is None,
{
}

/// In an edit, a supplied field replaces the current one and a missing field
/// keeps it; a supplied API key replaces the current one unless it is blank.
pub proof fn law_edit_supplied_fields_replace(existing: ProviderView, input: EditInputView)
    ensures
        input.name matches Some(v) ==> edited_view(existing, input).name == v,
        input.name is None ==> edited_view(existing, input).name == existing.name,
        input.base_url matches Some(v) ==> edited_view(existing, input).base_url == v,
        input.base_url is None ==> edited_view(existing, input).base_url == existing.base_url,
        input.model matches Some(v) ==> edited_view(existing, input).model == Some(v),
        input.model is None ==> edited_view(existing, input).model == existing.model,
        input.notes matches Some(v) ==> edited_view(existing, input).notes == Some(v),
        input.notes is None ==> edited_view(existing, input).notes == existing.notes,
        input.api_key matches Some(v) ==> (!is_blank(v) ==> edited_view(existing, input).api_key == v),
        input.api_key is None ==> edited_view(existing, input).api_key == existing.api_key,
{
}

/// Confirming a delete names the highlighted provider, the one the
/// confirmation asks about, and leaves the page as it is.
pub proof fn law_delete_confirm_names_highlighted(s: StateView)
    requires
        s.screen is DeleteConfirm,
        0 <= s.selected < s.providers.len(),
    ensures
        key_step(s, crate::ui::input::KeyCode::Char('y')).1 == ActionView::DeleteSelected(
            s.providers[s.selected].name,
        ),
        key_step(s, crate::ui::input::KeyCode::Char('y')).0 == s,
        delete_prompt(s) == "Delete provider "@ + s.providers[s.selected].name + "?"@,
{
}

/// A lone version word after the program name (`version`, `--version` or
/// `-V`) asks for the manager's version; a lone help word (`help`, `--help`
/// or `-h`) for its help.
pub proof fn law_lone_help_and_version_words(program: Option<Seq<char>>, word: Seq<char>)
    ensures
        word == "version"@ || word == "--version"@ || word == "-V"@ ==> classify(
            seq![program, Some(word)],
        ) == Ok::<DispatchView, Seq<char>>(DispatchView::ManagerVersion),
        word == "help"@ || word == "--help"@ || word == "-h"@ ==> classify(
            seq![program, Some(word)],
        ) == Ok::<DispatchView, Seq<char>>(DispatchView::ManagerHelp),
{
    reveal_strlit("+");
    reveal_strlit("version");
    reveal_strlit("--version");
    reveal_strlit("-V");
    reveal_strlit("help");
    reveal_strlit("--help");
    reveal_strlit("-h");
    let args = seq![program, Some(word)];
    let tail = args.drop_first();
    assert(tail =~= seq![Some(word)]);
    assert(tail.len() == 1 && tail[0] == Some(word));
    if word == "version"@ || word == "--version"@ || word == "-V"@ {
        assert(word != "+"@) by {
            if word == "+"@ {
                assert(word.len() == 1);
                assert(word[0] == '+');
            }
        }
        assert(!crate::cli::is_help(Some(word))) by {
            if word == "help"@ || word == "--help"@ || word == "-h"@ {
                assert(false) by {
                    if word.len() == 2 {
                        assert(word == "-V"@ || word == "-h"@);
                        assert(word[1] == 'V' || word[1] == 'h');
                    }
                }
            }
        }
        assert(crate::cli::is_version(Some(word)));
    }
    if word == "help"@ || word == "--help"@ || word == "-h"@ {
        assert(word != "+"@) by {
            if word == "+"@ {
                assert(word.len() == 1);
            }
        }
        assert(crate::cli::is_help(Some(word)));
    }
}

/// When any user argument, wherever it stands, is `-m`, `--model` or starts
/// with `--model=`, codex gets the overrides and then exactly the user's
/// arguments: no default model is added.
pub proof fn law_user_model_flag_anywhere_drops_default(
    p: ProviderView,
    args: Seq<Seq<char>>,
    i: int,
)
    requires
        0 <= i < args.len(),
        args[i] == "-m"@ || args[i] == "--model"@ || (args[i].len() >= 8 && args[i].subrange(0, 8)
            == "--model="@),
    ensures
        launch_args(p, args) == override_args(p) + args,
{
    reveal_strlit("--model=");
    assert(crate::launcher::is_model_flag(args[i]));
    assert(user_specified_model(args));
    assert(override_args(p) + Seq::<Seq<char>>::empty() =~= override_args(p));
}

/// When no user argument picks a model, the provider's default model, if
/// any, comes right after the overrides as `-m <model>`.
pub proof fn law_default_model_when_no_flag(p: ProviderView, args: Seq<Seq<char>>)
    requires
        forall|i: int|
            0 <= i < args.len() ==> #[trigger] args[i] != "-m"@ && args[i] != "--model"@ && !(
            args[i].len() >= 8 && args[i].subrange(0, 8) == "--model="@),
    ensures
        p.model matches Some(m) ==> launch_args(p, args) == override_args(p) + seq!["-m"@, m]
            + args,
        p.model is None ==> launch_args(p, args) == override_args(p) + args,
{
    reveal_strlit("--model=");
    assert(!user_specified_model(args));
    assert(override_args(p) + Seq::<Seq<char>>::empty() =~= override_args(p));
}

} // verus!
