use vstd::prelude::*;
use crate::config::ProviderConfig;
use crate::provider_templates::{
    template_choice_views, template_choices, ChoiceView, TemplateChoice,
};
use crate::config::ProviderView;
use crate::provider::{
    exists_text, required_text, EditInputView, EditProviderInput, NewInputView, NewProviderInput,
};
use crate::text::{blank, is_blank, is_control, is_control_char, pop_char, push_char};
use crate::ui::state::{
    provider_matches, provider_matches_search, template_matches, template_matches_search,
    AddFormState, AddTemplateState, EditFormState, FormView, EditFormView, SearchState,
    SearchView, UiScreen, UiState, ScreenView, StateView, PickView, UiMode, ListScreenState,
    custom_form, edit_form_for, empty_search, list_screen_view, text_or_empty, provider_views,
    choice_views,
};
use crate::ui::action::{ActionView, UiAction};
use vstd::string::StringExecFns;

verus! {

/// The positions among the first `n` whose flag is set, ascending.
pub open spec fn hits(flags: Seq<bool>, n: int) -> Seq<int>
    decreases n,
{
    if n <= 0 {
        Seq::empty()
    } else if flags[n - 1] {
        hits(flags, n - 1).push(n - 1)
    } else {
        hits(flags, n - 1)
    }
}

/// The positions whose flag is set, ascending.
pub open spec fn matching(flags: Seq<bool>) -> Seq<int> {
    hits(flags, flags.len() as int)
}

pub open spec fn provider_flags(ps: Seq<ProviderView>, query: Seq<char>) -> Seq<bool> {
    ps.map_values(|p: ProviderView| provider_matches(p, query))
}

pub open spec fn choice_flags(cs: Seq<ChoiceView>, query: Seq<char>) -> Seq<bool> {
    cs.map_values(|c: ChoiceView| template_matches(c, query))
}

/// The selection once the visible rows are `f`: kept if visible, else the
/// first visible row, else 0.
pub open spec fn kept_selection(sel: int, f: Seq<int>) -> int {
    if f.len() == 0 {
        0
    } else if f.contains(sel) {
        sel
    } else {
        f[0]
    }
}

/// The row that Enter acts on: the selection if visible, else the first
/// visible row; none when nothing is visible.
pub open spec fn acted_row(sel: int, f: Seq<int>) -> Option<int> {
    if f.len() == 0 {
        None
    } else if f.contains(sel) {
        Some(sel)
    } else {
        Some(f[0])
    }
}

/// One step down (or up) through the visible rows `f`, stopping at the ends;
/// a hidden selection counts as the first visible row.
pub open spec fn moved_selection(sel: int, f: Seq<int>, down: bool) -> int {
    if f.len() == 0 {
        0
    } else {
        let pos = if f.contains(sel) {
            f.index_of(sel)
        } else {
            0
        };
        let next = if down {
            if pos + 1 < f.len() {
                pos + 1
            } else {
                f.len() - 1
            }
        } else if pos > 0 {
            pos - 1
        } else {
            0
        };
        f[next]
    }
}

pub open spec fn ascending(f: Seq<int>) -> bool {
    forall|i: int, j: int| 0 <= i < j < f.len() ==> f[i] < f[j]
}

pub proof fn lemma_hits(flags: Seq<bool>, n: int)
    requires
        0 <= n <= flags.len(),
    ensures
        ascending(hits(flags, n)),
        forall|i: int| 0 <= i < hits(flags, n).len() ==> 0 <= #[trigger] hits(flags, n)[i] < n
            && flags[hits(flags, n)[i]],
        forall|k: int| 0 <= k < n && flags[k] ==> hits(flags, n).contains(k),
        hits(flags, n).len() <= n,
    decreases n,
{
    if n > 0 {
        lemma_hits(flags, n - 1);
        let h = hits(flags, n - 1);
        if flags[n - 1] {
            assert(hits(flags, n) == h.push(n - 1));
            assert(hits(flags, n)[h.len() as int] == n - 1);
        }
        assert forall|k: int| 0 <= k < n && flags[k] implies hits(flags, n).contains(k) by {
            if k < n - 1 {
                let j = choose|j: int| 0 <= j < h.len() && h[j] == k;
                if flags[n - 1] {
                    assert(hits(flags, n)[j] == k);
                }
            } else {
                assert(hits(flags, n)[h.len() as int] == n - 1);
            }
        }
    }
}

pub proof fn lemma_ascending_index_of(f: Seq<int>, p: int)
    requires
        ascending(f),
        0 <= p < f.len(),
    ensures
        f.contains(f[p]),
        f.index_of(f[p]) == p,
{
    let x = f[p];
    assert(f[p] == x);
    let q = f.index_of(x);
    assert(f[q] == x);
}

pub open spec fn ints(v: Seq<usize>) -> Seq<int> {
    v.map_values(|u: usize| u as int)
}

/// Position of `x` in an ascending list.
fn position_of(f: &Vec<usize>, x: usize) -> (r: Option<usize>)
    requires
        ascending(ints(f@)),
    ensures
        r matches Some(p) ==> p < f@.len() && f@[p as int] == x && ints(f@).index_of(x as int)
            == p,
        r is Some == ints(f@).contains(x as int),
{
    let mut i: usize = 0;
    while i < f.len()
        invariant
            i <= f@.len(),
            ascending(ints(f@)),
            forall|j: int| 0 <= j < i ==> f@[j] != x,
        decreases f@.len() - i,
    {
        if f[i] == x {
            proof {
                assert(ints(f@)[i as int] == x as int);
                lemma_ascending_index_of(ints(f@), i as int);
            }
            return Some(i);
        }
        i = i + 1;
    }
    proof {
        if ints(f@).contains(x as int) {
            let j = choose|j: int| 0 <= j < ints(f@).len() && ints(f@)[j] == x as int;
            assert(f@[j] == x);
        }
    }
    None
}

/// Positions of the providers that match `query`.
fn matching_providers(providers: &Vec<ProviderConfig>, query: &str) -> (r: Vec<usize>)
    ensures
        ints(r@) == matching(provider_flags(provider_views(providers@), query@)),
        ascending(ints(r@)),
        forall|i: int| 0 <= i < r@.len() ==> #[trigger] r@[i] < providers@.len(),
{
    let ghost flags = provider_flags(provider_views(providers@), query@);
    let mut r: Vec<usize> = Vec::new();
    let mut i: usize = 0;
    while i < providers.len()
        invariant
            i <= providers@.len(),
            flags == provider_flags(provider_views(providers@), query@),
            ints(r@) == hits(flags, i as int),
        decreases providers@.len() - i,
    {
        if provider_matches_search(&providers[i], query) {
            assert(flags[i as int]);
            r.push(i);
            assert(ints(r@) =~= hits(flags, i as int).push(i as int));
        } else {
            assert(!flags[i as int]);
        }
        i = i + 1;
    }
    proof {
        lemma_hits(flags, flags.len() as int);
        assert forall|k: int| 0 <= k < r@.len() implies #[trigger] r@[k] < providers@.len() by {
            assert(ints(r@)[k] == r@[k] as int);
        }
    }
    r
}

/// Positions of the template choices that match `query`.
fn matching_choices(choices: &Vec<TemplateChoice>, query: &str) -> (r: Vec<usize>)
    ensures
        ints(r@) == matching(choice_flags(choice_views(choices@), query@)),
        ascending(ints(r@)),
        forall|i: int| 0 <= i < r@.len() ==> #[trigger] r@[i] < choices@.len(),
{
    let ghost flags = choice_flags(choice_views(choices@), query@);
    let mut r: Vec<usize> = Vec::new();
    let mut i: usize = 0;
    while i < choices.len()
        invariant
            i <= choices@.len(),
            flags == choice_flags(choice_views(choices@), query@),
            ints(r@) == hits(flags, i as int),
        decreases choices@.len() - i,
    {
        if template_matches_search(&choices[i], query) {
            assert(flags[i as int]);
            r.push(i);
            assert(ints(r@) =~= hits(flags, i as int).push(i as int));
        } else {
            assert(!flags[i as int]);
        }
        i = i + 1;
    }
    proof {
        lemma_hits(flags, flags.len() as int);
        assert forall|k: int| 0 <= k < r@.len() implies #[trigger] r@[k] < choices@.len() by {
            assert(ints(r@)[k] == r@[k] as int);
        }
    }
    r
}

fn kept(sel: usize, f: &Vec<usize>) -> (r: usize)
    requires
        ascending(ints(f@)),
    ensures
        r as int == kept_selection(sel as int, ints(f@)),
{
    if f.len() == 0 {
        0
    } else if position_of(f, sel).is_some() {
        sel
    } else {
        f[0]
    }
}

fn acted(sel: usize, f: &Vec<usize>) -> (r: Option<usize>)
    requires
        ascending(ints(f@)),
    ensures
        acted_row(sel as int, ints(f@)) == match r {
            Some(i) => Some(i as int),
            None => None::<int>,
        },
        r matches Some(i) ==> exists|k: int| 0 <= k < f@.len() && f@[k] == i,
{
    if f.len() == 0 {
        None
    } else if let Some(p) = position_of(f, sel) {
        Some(sel)
    } else {
        Some(f[0])
    }
}

fn moved(sel: usize, f: &Vec<usize>, down: bool) -> (r: usize)
    requires
        ascending(ints(f@)),
    ensures
        r as int == moved_selection(sel as int, ints(f@), down),
        f@.len() > 0 ==> exists|k: int| 0 <= k < f@.len() && f@[k] == r,
{
    if f.len() == 0 {
        return 0;
    }
    let pos = match position_of(f, sel) {
        Some(p) => p,
        None => 0,
    };
    let next = if down {
        if pos + 1 < f.len() {
            pos + 1
        } else {
            f.len() - 1
        }
    } else if pos > 0 {
        pos - 1
    } else {
        0
    };
    f[next]
}

} // verus!

verus! {

/// The keys the provider page reacts to; every other key is `Other`.
#[derive(Debug, Clone, Copy, PartialEq, Eq)]
pub enum KeyCode {
    Up,
    Down,
    Enter,
    Esc,
    Tab,
    BackTab,
    Backspace,
    Char(char),
    Other,
}

/// A key typed into a search box, and whether the text changed.
pub open spec fn search_step(s: SearchView, code: KeyCode) -> (SearchView, bool) {
    match code {
        KeyCode::Enter => (SearchView { query: s.query, active: false }, false),
        KeyCode::Esc => (SearchView { query: Seq::empty(), active: false }, true),
        KeyCode::Backspace => (
            SearchView {
                query: if s.query.len() > 0 {
                    s.query.drop_last()
                } else {
                    s.query
                },
                active: s.active,
            },
            true,
        ),
        KeyCode::Char(c) => if !is_control(c) {
            (SearchView { query: s.query.push(c), active: s.active }, true)
        } else {
            (s, false)
        },
        _ => (s, false),
    }
}

fn handle_search_key(search: &mut SearchState, code: KeyCode) -> (changed: bool)
    ensures
        (final(search)@, changed) == search_step(old(search)@, code),
{
    match code {
        KeyCode::Enter => {
            search.active = false;
            false
        },
        KeyCode::Esc => {
            search.query = String::new();
            search.active = false;
            true
        },
        KeyCode::Backspace => {
            pop_char(&mut search.query);
            true
        },
        KeyCode::Char(c) => {
            if !is_control_char(c) {
                push_char(&mut search.query, c);
                true
            } else {
                false
            }
        },
        _ => false,
    }
}

pub open spec fn drop_last_if_any(s: Seq<char>) -> Seq<char> {
    if s.len() > 0 {
        s.drop_last()
    } else {
        s
    }
}

/// The form with `edit` applied to the field under the cursor (fields past
/// the notes edit the notes).
pub open spec fn edit_active(f: FormView, push: bool, c: char) -> FormView {
    let e = |s: Seq<char>|
        if push {
            s.push(c)
        } else {
            drop_last_if_any(s)
        };
    if f.active_field == 0 {
        FormView { name: e(f.name), error: None, ..f }
    } else if f.active_field == 1 {
        FormView { base_url: e(f.base_url), error: None, ..f }
    } else if f.active_field == 2 {
        FormView { api_key: e(f.api_key), error: None, ..f }
    } else if f.active_field == 3 {
        FormView { model: e(f.model), error: None, ..f }
    } else {
        FormView { notes: e(f.notes), error: None, ..f }
    }
}

/// Keys on a form other than Enter and Esc: move between fields (stopping at
/// the save button, field 5), or edit the active field and clear the error.
pub open spec fn form_step(f: FormView, code: KeyCode) -> FormView {
    match code {
        KeyCode::Tab | KeyCode::Down => FormView {
            active_field: if f.active_field + 1 < 5 {
                f.active_field + 1
            } else {
                5
            },
            ..f
        },
        KeyCode::BackTab | KeyCode::Up => FormView {
            active_field: if f.active_field > 0 {
                f.active_field - 1
            } else {
                0
            },
            ..f
        },
        KeyCode::Backspace => edit_active(f, false, 'x'),
        KeyCode::Char(c) => if !is_control(c) {
            edit_active(f, true, c)
        } else {
            f
        },
        _ => f,
    }
}

fn edit_text(s: &mut String, push: bool, c: char)
    ensures
        final(s)@ == if push {
            old(s)@.push(c)
        } else {
            drop_last_if_any(old(s)@)
        },
{
    if push {
        push_char(s, c);
    } else {
        pop_char(s);
    }
}

fn add_form_edit(f: &mut AddFormState, push: bool, c: char)
    ensures
        final(f)@ == edit_active(old(f)@, push, if push {
            c
        } else {
            'x'
        }),
{
    f.error = None;
    match f.active_field {
        0 => edit_text(&mut f.name, push, c),
        1 => edit_text(&mut f.base_url, push, c),
        2 => edit_text(&mut f.api_key, push, c),
        3 => edit_text(&mut f.model, push, c),
        _ => edit_text(&mut f.notes, push, c),
    }
}

fn edit_form_edit(f: &mut EditFormState, push: bool, c: char)
    ensures
        final(f)@ == (EditFormView {
            original_name: old(f)@.original_name,
            form: edit_active(old(f)@.form, push, if push {
                c
            } else {
                'x'
            }),
        }),
{
    f.error = None;
    match f.active_field {
        0 => edit_text(&mut f.name, push, c),
        1 => edit_text(&mut f.base_url, push, c),
        2 => edit_text(&mut f.api_key, push, c),
        3 => edit_text(&mut f.model, push, c),
        _ => edit_text(&mut f.notes, push, c),
    }
}

/// Blank optional text becomes absent.
pub open spec fn normalized(s: Seq<char>) -> Option<Seq<char>> {
    if is_blank(s) {
        None
    } else {
        Some(s)
    }
}

fn normalize_optional(value: &String) -> (r: Option<String>)
    ensures
        crate::config::opt_view(r) == normalized(value@),
{
    if blank(value.as_str()) {
        None
    } else {
        Some(value.clone())
    }
}

pub open spec fn provider_names(ps: Seq<ProviderView>) -> Seq<Seq<char>> {
    ps.map_values(|p: ProviderView| p.name)
}

/// Why the add form cannot be saved, checks in this order.
pub open spec fn add_form_problem(names: Seq<Seq<char>>, f: FormView) -> Option<Seq<char>> {
    if is_blank(f.name) {
        Some(required_text("name"@))
    } else if is_blank(f.base_url) {
        Some(required_text("base_url"@))
    } else if is_blank(f.api_key) {
        Some(required_text("api_key"@))
    } else if names.contains(f.name) {
        Some(exists_text(f.name))
    } else {
        None
    }
}

/// The new-provider input a saved add form gives.
pub open spec fn add_form_input(f: FormView) -> NewInputView {
    NewInputView {
        name: f.name,
        base_url: f.base_url,
        api_key: f.api_key,
        model: normalized(f.model),
        notes: normalized(f.notes),
    }
}

/// Why the edit form cannot be saved, checks in this order; keeping the
/// provider's own name is no clash.
pub open spec fn edit_form_problem(names: Seq<Seq<char>>, e: EditFormView) -> Option<Seq<char>> {
    let f = e.form;
    if is_blank(f.name) {
        Some(required_text("name"@))
    } else if is_blank(f.base_url) {
        Some(required_text("base_url"@))
    } else if names.contains(f.name) && f.name != e.original_name {
        Some(exists_text(f.name))
    } else {
        None
    }
}

/// The edit input a saved edit form gives: every text field is handed on.
pub open spec fn edit_form_input(e: EditFormView) -> EditInputView {
    EditInputView {
        name: Some(e.form.name),
        base_url: Some(e.form.base_url),
        api_key: Some(e.form.api_key),
        model: normalized(e.form.model),
        notes: normalized(e.form.notes),
    }
}

fn name_taken(providers: &Vec<ProviderConfig>, name: &String, except: Option<&String>) -> (b: bool)
    ensures
        b == exists|j: int|
            0 <= j < providers@.len() && #[trigger] providers@[j].name@ == name@ && match except {
                Some(o) => providers@[j].name@ != o@,
                None => true,
            },
{
    let mut i: usize = 0;
    while i < providers.len()
        invariant
            i <= providers@.len(),
            forall|j: int|
                0 <= j < i ==> !(#[trigger] providers@[j].name@ == name@ && match except {
                    Some(o) => providers@[j].name@ != o@,
                    None => true,
                }),
        decreases providers@.len() - i,
    {
        let hit = providers[i].name == *name && match except {
            Some(o) => !(providers[i].name == *o),
            None => true,
        };
        if hit {
            return true;
        }
        i = i + 1;
    }
    false
}

proof fn lemma_names_contains(ps: Seq<ProviderConfig>, name: Seq<char>)
    ensures
        provider_names(provider_views(ps)).contains(name) == exists|j: int|
            0 <= j < ps.len() && #[trigger] ps[j].name@ == name,
{
    let names = provider_names(provider_views(ps));
    if names.contains(name) {
        let j = choose|j: int| 0 <= j < names.len() && names[j] == name;
        assert(ps[j].name@ == name);
    }
    if exists|j: int| 0 <= j < ps.len() && #[trigger] ps[j].name@ == name {
        let j = choose|j: int| 0 <= j < ps.len() && #[trigger] ps[j].name@ == name;
        assert(names[j] == name);
    }
}

fn validate_add_form(providers: &Vec<ProviderConfig>, add_form: &AddFormState) -> (r: Result<
    NewProviderInput,
    String,
>)
    ensures
        match r {
            Ok(input) => add_form_problem(
                provider_names(provider_views(providers@)),
                add_form@,
            ) is None && input@ == add_form_input(add_form@),
            Err(m) => add_form_problem(
                provider_names(provider_views(providers@)),
                add_form@,
            ) == Some(m@),
        },
{
    proof {
        lemma_names_contains(providers@, add_form.name@);
    }
    if blank(add_form.name.as_str()) {
        return Err(String::from_str("name").concat(" cannot be empty"));
    }
    if blank(add_form.base_url.as_str()) {
        return Err(String::from_str("base_url").concat(" cannot be empty"));
    }
    if blank(add_form.api_key.as_str()) {
        return Err(String::from_str("api_key").concat(" cannot be empty"));
    }
    if name_taken(providers, &add_form.name, None) {
        return Err(
            String::from_str("provider '").concat(add_form.name.as_str()).concat(
                "' already exists",
            ),
        );
    }
    Ok(
        NewProviderInput {
            name: add_form.name.clone(),
            base_url: add_form.base_url.clone(),
            api_key: add_form.api_key.clone(),
            model: normalize_optional(&add_form.model),
            notes: normalize_optional(&add_form.notes),
        },
    )
}

fn validate_edit_form(providers: &Vec<ProviderConfig>, edit_form: &EditFormState) -> (r: Result<
    (String, EditProviderInput),
    String,
>)
    ensures
        match r {
            Ok((orig, input)) => edit_form_problem(
                provider_names(provider_views(providers@)),
                edit_form@,
            ) is None && orig@ == edit_form@.original_name && input@ == edit_form_input(
                edit_form@,
            ),
            Err(m) => edit_form_problem(
                provider_names(provider_views(providers@)),
                edit_form@,
            ) == Some(m@),
        },
{
    proof {
        lemma_names_contains(providers@, edit_form.name@);
    }
    if blank(edit_form.name.as_str()) {
        return Err(String::from_str("name").concat(" cannot be empty"));
    }
    if blank(edit_form.base_url.as_str()) {
        return Err(String::from_str("base_url").concat(" cannot be empty"));
    }
    if name_taken(providers, &edit_form.name, Some(&edit_form.original_name)) {
        return Err(
            String::from_str("provider '").concat(edit_form.name.as_str()).concat(
                "' already exists",
            ),
        );
    }
    Ok(
        (
            edit_form.original_name.clone(),
            EditProviderInput {
                name: Some(edit_form.name.clone()),
                base_url: Some(edit_form.base_url.clone()),
                api_key: Some(edit_form.api_key.clone()),
                model: normalize_optional(&edit_form.model),
                notes: normalize_optional(&edit_form.notes),
            },
        ),
    )
}

} // verus!

verus! {

/// The provider search text (empty off the list screen).
pub open spec fn list_query(s: StateView) -> Seq<char> {
    match s.screen {
        ScreenView::List(search) => search.query,
        _ => Seq::empty(),
    }
}

/// Positions of the providers shown on the list screen.
pub open spec fn visible_providers(s: StateView) -> Seq<int> {
    matching(provider_flags(s.providers, list_query(s)))
}

/// Positions of the templates shown in the picker.
pub open spec fn visible_choices(p: PickView) -> Seq<int> {
    matching(choice_flags(p.choices, p.search.query))
}

/// The first provider called `name`.
pub open spec fn first_named(ps: Seq<ProviderView>, name: Seq<char>) -> int {
    choose|j: int|
        0 <= j < ps.len() && ps[j].name == name && forall|k: int| 0 <= k < j ==> ps[k].name != name
}

/// The add form a template starts: its id as the name, its endpoint, model
/// and notes, the cursor on the API key; the custom row starts empty.
pub open spec fn form_from_choice(c: ChoiceView) -> FormView {
    match c {
        ChoiceView::BuiltIn(t) => FormView {
            active_field: 2,
            name: t.id,
            base_url: t.base_url,
            api_key: Seq::empty(),
            model: text_or_empty(t.default_model),
            notes: text_or_empty(t.notes),
            error: None,
        },
        ChoiceView::Custom => custom_form(),
    }
}

pub open spec fn is_key(code: KeyCode, a: KeyCode, c: char) -> bool {
    code == a || code == KeyCode::Char(c)
}

pub open spec fn with_screen(s: StateView, screen: ScreenView) -> StateView {
    StateView { screen, ..s }
}

pub open spec fn list_step(s: StateView, search: SearchView, code: KeyCode) -> (StateView, ActionView) {
    let f = visible_providers(s);
    if search.active {
        let (ns, changed) = search_step(search, code);
        let sel = if changed {
            kept_selection(s.selected, matching(provider_flags(s.providers, ns.query)))
        } else {
            s.selected
        };
        (StateView { selected: sel, screen: ScreenView::List(ns), ..s }, ActionView::Continue)
    } else if is_key(code, KeyCode::Down, 'j') {
        (StateView { selected: moved_selection(s.selected, f, true), ..s }, ActionView::Continue)
    } else if is_key(code, KeyCode::Up, 'k') {
        (StateView { selected: moved_selection(s.selected, f, false), ..s }, ActionView::Continue)
    } else if code == KeyCode::Enter {
        match acted_row(s.selected, f) {
            Some(i) => (
                s,
                if s.mode == UiMode::Exec {
                    ActionView::ExecSelected(s.providers[i].name)
                } else {
                    ActionView::RunSelected(s.providers[i].name)
                },
            ),
            None => (s, ActionView::Continue),
        }
    } else if code == KeyCode::Char('/') {
        (with_screen(s, ScreenView::List(SearchView { active: true, ..search })), ActionView::Continue)
    } else if code == KeyCode::Char('n') {
        (
            with_screen(
                s,
                ScreenView::AddTemplate(
                    PickView { choices: template_choice_views(), selected: 0, search: empty_search() },
                ),
            ),
            ActionView::Continue,
        )
    } else if code == KeyCode::Char('e') {
        match acted_row(s.selected, f) {
            Some(i) => (
                with_screen(
                    s,
                    ScreenView::EditForm(
                        edit_form_for(s.providers[first_named(s.providers, s.providers[i].name)]),
                    ),
                ),
                ActionView::Continue,
            ),
            None => (s, ActionView::Continue),
        }
    } else if code == KeyCode::Char('d') {
        if acted_row(s.selected, f) is Some {
            (with_screen(s, ScreenView::DeleteConfirm), ActionView::Continue)
        } else {
            (s, ActionView::Continue)
        }
    } else if is_key(code, KeyCode::Esc, 'q') {
        (s, ActionView::Quit)
    } else {
        (s, ActionView::Continue)
    }
}

pub open spec fn pick_step(p: PickView, code: KeyCode) -> ScreenView {
    let f = visible_choices(p);
    if p.search.active {
        let (ns, changed) = search_step(p.search, code);
        let sel = if changed {
            kept_selection(p.selected, matching(choice_flags(p.choices, ns.query)))
        } else {
            p.selected
        };
        ScreenView::AddTemplate(PickView { selected: sel, search: ns, ..p })
    } else if is_key(code, KeyCode::Down, 'j') {
        ScreenView::AddTemplate(PickView { selected: moved_selection(p.selected, f, true), ..p })
    } else if is_key(code, KeyCode::Up, 'k') {
        ScreenView::AddTemplate(PickView { selected: moved_selection(p.selected, f, false), ..p })
    } else if code == KeyCode::Char('/') {
        ScreenView::AddTemplate(PickView { search: SearchView { active: true, ..p.search }, ..p })
    } else if code == KeyCode::Enter {
        match acted_row(p.selected, f) {
            Some(i) => ScreenView::AddForm(form_from_choice(p.choices[i])),
            None => ScreenView::AddTemplate(p),
        }
    } else if code == KeyCode::Esc {
        list_screen_view()
    } else {
        ScreenView::AddTemplate(p)
    }
}

/// The cursor one field further, stopping at the save button.
pub open spec fn next_field(f: FormView) -> FormView {
    FormView {
        active_field: if f.active_field + 1 < 5 {
            f.active_field + 1
        } else {
            5
        },
        ..f
    }
}

pub open spec fn add_form_step(s: StateView, f: FormView, code: KeyCode) -> (StateView, ActionView) {
    if code == KeyCode::Esc {
        (with_screen(s, list_screen_view()), ActionView::Continue)
    } else if code == KeyCode::Enter {
        if f.active_field >= 5 {
            match add_form_problem(provider_names(s.providers), f) {
                None => (s, ActionView::SubmitAdd(add_form_input(f))),
                Some(m) => (
                    with_screen(s, ScreenView::AddForm(FormView { error: Some(m), ..f })),
                    ActionView::Continue,
                ),
            }
        } else {
            (with_screen(s, ScreenView::AddForm(next_field(f))), ActionView::Continue)
        }
    } else {
        (with_screen(s, ScreenView::AddForm(form_step(f, code))), ActionView::Continue)
    }
}

pub open spec fn edit_form_step(s: StateView, e: EditFormView, code: KeyCode) -> (StateView, ActionView) {
    if code == KeyCode::Esc {
        (with_screen(s, list_screen_view()), ActionView::Continue)
    } else if code == KeyCode::Enter {
        if e.form.active_field >= 5 {
            match edit_form_problem(provider_names(s.providers), e) {
                None => (
                    s,
                    ActionView::SubmitEdit {
                        original_name: e.original_name,
                        input: edit_form_input(e),
                    },
                ),
                Some(m) => (
                    with_screen(
                        s,
                        ScreenView::EditForm(
                            EditFormView { form: FormView { error: Some(m), ..e.form }, ..e },
                        ),
                    ),
                    ActionView::Continue,
                ),
            }
        } else {
            (
                with_screen(s, ScreenView::EditForm(EditFormView { form: next_field(e.form), ..e })),
                ActionView::Continue,
            )
        }
    } else {
        (
            with_screen(
                s,
                ScreenView::EditForm(EditFormView { form: form_step(e.form, code), ..e }),
            ),
            ActionView::Continue,
        )
    }
}

pub open spec fn delete_step(s: StateView, code: KeyCode) -> (StateView, ActionView) {
    if code == KeyCode::Char('y') && s.providers.len() > 0 {
        (s, ActionView::DeleteSelected(s.providers[s.selected].name))
    } else if code == KeyCode::Esc || code == KeyCode::Char('q') || code == KeyCode::Char('n') {
        (with_screen(s, list_screen_view()), ActionView::Continue)
    } else {
        (s, ActionView::Continue)
    }
}

/// One keystroke on the provider page: the next page state and what the
/// application should do.
pub open spec fn key_step(s: StateView, code: KeyCode) -> (StateView, ActionView) {
    match s.screen {
        ScreenView::List(search) => list_step(s, search, code),
        ScreenView::AddTemplate(p) => (with_screen(s, pick_step(p, code)), ActionView::Continue),
        ScreenView::AddForm(f) => add_form_step(s, f, code),
        ScreenView::EditForm(e) => edit_form_step(s, e, code),
        ScreenView::DeleteConfirm => delete_step(s, code),
    }
}

/// Whether `code` moves a form cursor down (`Tab` or `Down`).
pub open spec fn moves_down(code: KeyCode) -> bool {
    code is Tab || code is Down
}

/// What `handle_key` needs of the state for the key `code`: a confirmed
/// delete (`y`) points at a provider, and a form cursor that moves down can
/// move on.
pub open spec fn key_ready(s: StateView, code: KeyCode) -> bool {
    match s.screen {
        ScreenView::DeleteConfirm => code == KeyCode::Char('y') && s.providers.len() > 0 ==> 0
            <= s.selected < s.providers.len(),
        ScreenView::AddForm(f) => moves_down(code) ==> f.active_field < usize::MAX,
        ScreenView::EditForm(e) => moves_down(code) ==> e.form.active_field < usize::MAX,
        _ => true,
    }
}

} // verus!

verus! {

fn list_query_str(state: &UiState) -> (q: &str)
    ensures
        q@ == list_query(state@),
{
    match &state.screen {
        UiScreen::List(list) => list.search.query.as_str(),
        _ => {
            proof {
                reveal_strlit("");
            }
            ""
        },
    }
}

fn filtered_provider_indices(state: &UiState) -> (r: Vec<usize>)
    ensures
        ints(r@) == visible_providers(state@),
        ascending(ints(r@)),
        forall|i: int| 0 <= i < r@.len() ==> #[trigger] r@[i] < state.providers@.len(),
{
    matching_providers(&state.providers, list_query_str(state))
}

fn adjust_provider_selection(state: &mut UiState)
    ensures
        final(state)@ == (StateView {
            selected: kept_selection(old(state)@.selected, visible_providers(old(state)@)),
            ..old(state)@
        }),
{
    let filtered = filtered_provider_indices(state);
    state.selected = kept(state.selected, &filtered);
}

fn selected_provider_name(state: &UiState) -> (r: Option<String>)
    ensures
        match acted_row(state@.selected, visible_providers(state@)) {
            Some(i) => r matches Some(n) && 0 <= i < state@.providers.len() && n@
                == state@.providers[i].name,
            None => r is None,
        },
{
    let filtered = filtered_provider_indices(state);
    match acted(state.selected, &filtered) {
        Some(i) => {
            assert(state@.providers[i as int] == state.providers@[i as int]@);
            Some(state.providers[i].name.clone())
        },
        None => None,
    }
}

fn move_provider_selection(state: &mut UiState, delta: isize)
    ensures
        final(state)@ == (StateView {
            selected: moved_selection(old(state)@.selected, visible_providers(old(state)@), delta > 0),
            ..old(state)@
        }),
{
    let filtered = filtered_provider_indices(state);
    state.selected = moved(state.selected, &filtered, delta > 0);
}

fn first_provider_named(providers: &Vec<ProviderConfig>, name: &String) -> (j: usize)
    requires
        exists|k: int| 0 <= k < providers@.len() && #[trigger] providers@[k].name@ == name@,
    ensures
        j < providers@.len(),
        j as int == first_named(provider_views(providers@), name@),
{
    let ghost ps = provider_views(providers@);
    let mut i: usize = 0;
    while i < providers.len()
        invariant
            i <= providers@.len(),
            ps == provider_views(providers@),
            exists|k: int| 0 <= k < providers@.len() && #[trigger] providers@[k].name@ == name@,
            forall|k: int| 0 <= k < i ==> ps[k].name != name@,
        decreases providers@.len() - i,
    {
        if providers[i].name == *name {
            proof {
                let c = first_named(ps, name@);
                assert(ps[i as int].name == name@);
                assert(0 <= c < ps.len() && ps[c].name == name@ && forall|k: int|
                    0 <= k < c ==> ps[k].name != name@);
                if c < i {
                } else if c > i {
                    assert(ps[i as int].name != name@);
                }
            }
            return i;
        }
        i = i + 1;
    }
    proof {
        let k = choose|k: int| 0 <= k < providers@.len() && #[trigger] providers@[k].name@ == name@;
        assert(ps[k].name == name@);
    }
    0
}

fn list_screen() -> (s: UiScreen)
    ensures
        s@ == list_screen_view(),
{
    UiScreen::List(ListScreenState::default())
}

fn default_template_choices() -> (r: Vec<TemplateChoice>)
    ensures
        choice_views(r@) == template_choice_views(),
{
    match template_choices() {
        Ok(cs) => cs,
        Err(_) => {
            let mut v: Vec<TemplateChoice> = Vec::new();
            v.push(TemplateChoice::Custom);
            v
        },
    }
}

fn handle_list_search_key(state: &mut UiState, code: KeyCode) -> (r: UiAction)
    requires
        old(state)@.screen matches ScreenView::List(search) && search.active,
    ensures
        old(state)@.screen matches ScreenView::List(search) && (final(state)@, r@) == list_step(
            old(state)@,
            search,
            code,
        ),
{
    let changed = match &mut state.screen {
        UiScreen::List(list) => handle_search_key(&mut list.search, code),
        _ => false,
    };
    if changed {
        adjust_provider_selection(state);
    }
    UiAction::Continue
}

fn handle_list_key(state: &mut UiState, code: KeyCode) -> (r: UiAction)
    requires
        old(state)@.screen is List,
    ensures
        old(state)@.screen matches ScreenView::List(search) && (final(state)@, r@) == list_step(
            old(state)@,
            search,
            code,
        ),
{
    let active = match &state.screen {
        UiScreen::List(list) => list.search.active,
        _ => false,
    };
    if active {
        return handle_list_search_key(state, code);
    }
    match code {
        KeyCode::Down | KeyCode::Char('j') => {
            move_provider_selection(state, 1);
            UiAction::Continue
        },
        KeyCode::Up | KeyCode::Char('k') => {
            move_provider_selection(state, -1);
            UiAction::Continue
        },
        KeyCode::Enter => match selected_provider_name(state) {
            Some(name) => match state.mode {
                UiMode::Exec => UiAction::ExecSelected(name),
                UiMode::Manage | UiMode::Run => UiAction::RunSelected(name),
            },
            None => UiAction::Continue,
        },
        KeyCode::Char('/') => {
            match &mut state.screen {
                UiScreen::List(list) => {
                    list.search.active = true;
                },
                _ => {},
            }
            UiAction::Continue
        },
        KeyCode::Char('n') => {
            state.screen = UiScreen::AddTemplate(AddTemplateState::new(default_template_choices()));
            UiAction::Continue
        },
        KeyCode::Char('e') => match selected_provider_name(state) {
            Some(name) => {
                let selected = first_provider_named(&state.providers, &name);
                state.screen = UiScreen::EditForm(
                    EditFormState::from_provider(&state.providers[selected]),
                );
                UiAction::Continue
            },
            None => UiAction::Continue,
        },
        KeyCode::Char('d') => match selected_provider_name(state) {
            Some(_) => {
                state.screen = UiScreen::DeleteConfirm;
                UiAction::Continue
            },
            None => UiAction::Continue,
        },
        KeyCode::Esc | KeyCode::Char('q') => UiAction::Quit,
        _ => UiAction::Continue,
    }
}

} // verus!

verus! {

fn filtered_template_indices(add_template: &AddTemplateState) -> (r: Vec<usize>)
    ensures
        ints(r@) == visible_choices(add_template@),
        ascending(ints(r@)),
        forall|i: int| 0 <= i < r@.len() ==> #[trigger] r@[i] < add_template.choices@.len(),
{
    matching_choices(&add_template.choices, add_template.search.query.as_str())
}

fn adjust_template_selection(add_template: &mut AddTemplateState)
    ensures
        final(add_template)@ == (PickView {
            selected: kept_selection(old(add_template)@.selected, visible_choices(old(add_template)@)),
            ..old(add_template)@
        }),
{
    let filtered = filtered_template_indices(add_template);
    add_template.selected = kept(add_template.selected, &filtered);
}

fn move_template_selection(add_template: &mut AddTemplateState, delta: isize)
    ensures
        final(add_template)@ == (PickView {
            selected: moved_selection(
                old(add_template)@.selected,
                visible_choices(old(add_template)@),
                delta > 0,
            ),
            ..old(add_template)@
        }),
{
    let filtered = filtered_template_indices(add_template);
    add_template.selected = moved(add_template.selected, &filtered, delta > 0);
}

fn selected_template_choice(add_template: &AddTemplateState) -> (r: Option<TemplateChoice>)
    ensures
        match acted_row(add_template@.selected, visible_choices(add_template@)) {
            Some(i) => r matches Some(c) && 0 <= i < add_template@.choices.len() && c@
                == add_template@.choices[i],
            None => r is None,
        },
{
    let filtered = filtered_template_indices(add_template);
    match acted(add_template.selected, &filtered) {
        Some(i) => {
            assert(add_template@.choices[i as int] == add_template.choices@[i as int]@);
            Some(add_template.choices[i].copy())
        },
        None => None,
    }
}

fn opt_text(o: Option<String>) -> (s: String)
    ensures
        s@ == text_or_empty(crate::config::opt_view(o)),
{
    match o {
        Some(s) => s,
        None => String::new(),
    }
}

fn form_for_choice(choice: TemplateChoice) -> (f: AddFormState)
    ensures
        f@ == form_from_choice(choice@),
{
    match choice {
        TemplateChoice::BuiltIn(template) => AddFormState {
            active_field: 2,
            name: template.id,
            base_url: template.base_url,
            api_key: String::new(),
            model: opt_text(template.default_model),
            notes: opt_text(template.notes),
            error: None,
        },
        TemplateChoice::Custom => AddFormState::custom(),
    }
}

fn handle_add_template_key(state: &mut UiState, code: KeyCode) -> (r: UiAction)
    requires
        old(state)@.screen is AddTemplate,
    ensures
        old(state)@.screen matches ScreenView::AddTemplate(p) && final(state)@ == with_screen(
            old(state)@,
            pick_step(p, code),
        ) && r@ == ActionView::Continue,
{
    let active = match &state.screen {
        UiScreen::AddTemplate(t) => t.search.active,
        _ => false,
    };
    if active {
        match &mut state.screen {
            UiScreen::AddTemplate(add_template) => {
                let changed = handle_search_key(&mut add_template.search, code);
                if changed {
                    adjust_template_selection(add_template);
                }
            },
            _ => {},
        }
        return UiAction::Continue;
    }
    match code {
        KeyCode::Down | KeyCode::Char('j') => {
            match &mut state.screen {
                UiScreen::AddTemplate(add_template) => move_template_selection(add_template, 1),
                _ => {},
            }
            UiAction::Continue
        },
        KeyCode::Up | KeyCode::Char('k') => {
            match &mut state.screen {
                UiScreen::AddTemplate(add_template) => move_template_selection(add_template, -1),
                _ => {},
            }
            UiAction::Continue
        },
        KeyCode::Char('/') => {
            match &mut state.screen {
                UiScreen::AddTemplate(add_template) => {
                    add_template.search.active = true;
                },
                _ => {},
            }
            UiAction::Continue
        },
        KeyCode::Enter => {
            let selected = match &state.screen {
                UiScreen::AddTemplate(add_template) => selected_template_choice(add_template),
                _ => None,
            };
            match selected {
                Some(choice) => {
                    state.screen = UiScreen::AddForm(form_for_choice(choice));
                },
                None => {},
            }
            UiAction::Continue
        },
        KeyCode::Esc => {
            state.screen = list_screen();
            UiAction::Continue
        },
        _ => UiAction::Continue,
    }
}

fn handle_add_form_key(state: &mut UiState, code: KeyCode) -> (r: UiAction)
    requires
        old(state)@.screen matches ScreenView::AddForm(f) && (moves_down(code) ==> f.active_field
            < usize::MAX),
    ensures
        old(state)@.screen matches ScreenView::AddForm(f) && (final(state)@, r@) == add_form_step(
            old(state)@,
            f,
            code,
        ),
{
    match code {
        KeyCode::Esc => {
            state.screen = list_screen();
            UiAction::Continue
        },
        KeyCode::Enter => {
            let should_submit = match &state.screen {
                UiScreen::AddForm(add_form) => add_form.active_field >= 5,
                _ => false,
            };
            if should_submit {
                let result = match &state.screen {
                    UiScreen::AddForm(add_form) => validate_add_form(&state.providers, add_form),
                    _ => {
                        return UiAction::Continue;
                    },
                };
                match result {
                    Ok(input) => UiAction::SubmitAdd(input),
                    Err(error) => {
                        match &mut state.screen {
                            UiScreen::AddForm(add_form) => {
                                add_form.error = Some(error);
                            },
                            _ => {},
                        }
                        UiAction::Continue
                    },
                }
            } else {
                match &mut state.screen {
                    UiScreen::AddForm(add_form) => {
                        add_form.active_field = if add_form.active_field + 1 < 5 {
                            add_form.active_field + 1
                        } else {
                            5
                        };
                    },
                    _ => {},
                }
                UiAction::Continue
            }
        },
        KeyCode::Tab | KeyCode::Down => {
            match &mut state.screen {
                UiScreen::AddForm(add_form) => {
                    add_form.active_field = if add_form.active_field + 1 < 5 {
                        add_form.active_field + 1
                    } else {
                        5
                    };
                },
                _ => {},
            }
            UiAction::Continue
        },
        KeyCode::BackTab | KeyCode::Up => {
            match &mut state.screen {
                UiScreen::AddForm(add_form) => {
                    add_form.active_field = if add_form.active_field > 0 {
                        add_form.active_field - 1
                    } else {
                        0
                    };
                },
                _ => {},
            }
            UiAction::Continue
        },
        KeyCode::Backspace => {
            match &mut state.screen {
                UiScreen::AddForm(add_form) => add_form_edit(add_form, false, 'x'),
                _ => {},
            }
            UiAction::Continue
        },
        KeyCode::Char(c) => {
            if !is_control_char(c) {
                match &mut state.screen {
                    UiScreen::AddForm(add_form) => add_form_edit(add_form, true, c),
                    _ => {},
                }
            }
            UiAction::Continue
        },
        _ => UiAction::Continue,
    }
}

fn handle_edit_form_key(state: &mut UiState, code: KeyCode) -> (r: UiAction)
    requires
        old(state)@.screen matches ScreenView::EditForm(e) && (moves_down(code)
            ==> e.form.active_field < usize::MAX),
    ensures
        old(state)@.screen matches ScreenView::EditForm(e) && (final(state)@, r@) == edit_form_step(
            old(state)@,
            e,
            code,
        ),
{
    match code {
        KeyCode::Esc => {
            state.screen = list_screen();
            UiAction::Continue
        },
        KeyCode::Enter => {
            let should_submit = match &state.screen {
                UiScreen::EditForm(edit_form) => edit_form.active_field >= 5,
                _ => false,
            };
            if should_submit {
                let result = match &state.screen {
                    UiScreen::EditForm(edit_form) => validate_edit_form(&state.providers, edit_form),
                    _ => {
                        return UiAction::Continue;
                    },
                };
                match result {
                    Ok((original_name, input)) => UiAction::SubmitEdit { original_name, input },
                    Err(error) => {
                        match &mut state.screen {
                            UiScreen::EditForm(edit_form) => {
                                edit_form.error = Some(error);
                            },
                            _ => {},
                        }
                        UiAction::Continue
                    },
                }
            } else {
                match &mut state.screen {
                    UiScreen::EditForm(edit_form) => {
                        edit_form.active_field = if edit_form.active_field + 1 < 5 {
                            edit_form.active_field + 1
                        } else {
                            5
                        };
                    },
                    _ => {},
                }
                UiAction::Continue
            }
        },
        KeyCode::Tab | KeyCode::Down => {
            match &mut state.screen {
                UiScreen::EditForm(edit_form) => {
                    edit_form.active_field = if edit_form.active_field + 1 < 5 {
                        edit_form.active_field + 1
                    } else {
                        5
                    };
                },
                _ => {},
            }
            UiAction::Continue
        },
        KeyCode::BackTab | KeyCode::Up => {
            match &mut state.screen {
                UiScreen::EditForm(edit_form) => {
                    edit_form.active_field = if edit_form.active_field > 0 {
                        edit_form.active_field - 1
                    } else {
                        0
                    };
                },
                _ => {},
            }
            UiAction::Continue
        },
        KeyCode::Backspace => {
            match &mut state.screen {
                UiScreen::EditForm(edit_form) => edit_form_edit(edit_form, false, 'x'),
                _ => {},
            }
            UiAction::Continue
        },
        KeyCode::Char(c) => {
            if !is_control_char(c) {
                match &mut state.screen {
                    UiScreen::EditForm(edit_form) => edit_form_edit(edit_form, true, c),
                    _ => {},
                }
            }
            UiAction::Continue
        },
        _ => UiAction::Continue,
    }
}

fn handle_delete_confirm_key(state: &mut UiState, code: KeyCode) -> (r: UiAction)
    requires
        old(state)@.screen is DeleteConfirm,
        code == KeyCode::Char('y') && old(state)@.providers.len() > 0 ==> old(state)@.selected
            < old(state)@.providers.len(),
    ensures
        (final(state)@, r@) == delete_step(old(state)@, code),
{
    match code {
        KeyCode::Char('y') => {
            if state.providers.len() > 0 {
                assert(state@.providers[state.selected as int] == state.providers@[state.selected as int]@);
                UiAction::DeleteSelected(state.providers[state.selected].name.clone())
            } else {
                UiAction::Continue
            }
        },
        KeyCode::Esc | KeyCode::Char('q') | KeyCode::Char('n') => {
            state.screen = list_screen();
            UiAction::Continue
        },
        _ => UiAction::Continue,
    }
}

/// Applies one keystroke to the provider page.
pub fn handle_key(state: &mut UiState, code: KeyCode) -> (r: UiAction)
    requires
        key_ready(old(state)@, code),
    ensures
        (final(state)@, r@) == key_step(old(state)@, code),
{
    match &state.screen {
        UiScreen::List(_) => handle_list_key(state, code),
        UiScreen::AddTemplate(_) => handle_add_template_key(state, code),
        UiScreen::AddForm(_) => handle_add_form_key(state, code),
        UiScreen::EditForm(_) => handle_edit_form_key(state, code),
        UiScreen::DeleteConfirm => handle_delete_confirm_key(state, code),
    }
}

} // verus!
