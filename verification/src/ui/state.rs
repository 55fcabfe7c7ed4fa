use vstd::prelude::*;
use vstd::string::StringExecFns;
use crate::config::{opt_view, ProviderConfig, ProviderView};
use crate::provider_templates::{ChoiceView, TemplateChoice};
use crate::text::{chars_of, contains_chars, is_infix, lower, lower_chars, trim, trimmed_chars};

verus! {

/// What Enter on a provider does: manage and run run it, exec execs it.
#[derive(Debug, Clone, Copy, PartialEq, Eq)]
pub enum UiMode {
    Manage,
    Run,
    Exec,
}

/// A search box: its text and whether it takes keystrokes.
#[derive(Debug)]
pub struct SearchState {
    pub query: String,
    pub active: bool,
}

impl Default for SearchState {
    fn default() -> (s: SearchState)
        ensures
            s@ == empty_search(),
    {
        SearchState { query: String::new(), active: false }
    }
}

#[derive(Debug)]
pub struct ListScreenState {
    pub search: SearchState,
}

impl Default for ListScreenState {
    fn default() -> (s: ListScreenState)
        ensures
            s.search@ == empty_search(),
    {
        ListScreenState { search: SearchState::default() }
    }
}

/// The new-provider form; field 5 is the save button.
#[derive(Debug)]
pub struct AddFormState {
    pub active_field: usize,
    pub name: String,
    pub base_url: String,
    pub api_key: String,
    pub model: String,
    pub notes: String,
    pub error: Option<String>,
}

/// The edit form for the provider first called `original_name`.
#[derive(Debug)]
pub struct EditFormState {
    pub original_name: String,
    pub active_field: usize,
    pub name: String,
    pub base_url: String,
    pub api_key: String,
    pub model: String,
    pub notes: String,
    pub error: Option<String>,
}

/// The template picker.
#[derive(Debug)]
pub struct AddTemplateState {
    pub choices: Vec<TemplateChoice>,
    pub selected: usize,
    pub search: SearchState,
}

#[derive(Debug)]
pub enum UiScreen {
    List(ListScreenState),
    AddTemplate(AddTemplateState),
    AddForm(AddFormState),
    EditForm(EditFormState),
    DeleteConfirm,
}

/// The provider page: mode, highlighted row, providers shown, and screen.
#[derive(Debug)]
pub struct UiState {
    pub mode: UiMode,
    pub selected: usize,
    pub providers: Vec<ProviderConfig>,
    pub screen: UiScreen,
}

pub struct SearchView {
    pub query: Seq<char>,
    pub active: bool,
}

pub open spec fn empty_search() -> SearchView {
    SearchView { query: Seq::empty(), active: false }
}

impl View for SearchState {
    type V = SearchView;

    open spec fn view(&self) -> SearchView {
        SearchView { query: self.query@, active: self.active }
    }
}

/// The five text fields and the cursor of a form.
pub struct FormView {
    pub active_field: int,
    pub name: Seq<char>,
    pub base_url: Seq<char>,
    pub api_key: Seq<char>,
    pub model: Seq<char>,
    pub notes: Seq<char>,
    pub error: Option<Seq<char>>,
}

impl View for AddFormState {
    type V = FormView;

    open spec fn view(&self) -> FormView {
        FormView {
            active_field: self.active_field as int,
            name: self.name@,
            base_url: self.base_url@,
            api_key: self.api_key@,
            model: self.model@,
            notes: self.notes@,
            error: opt_view(self.error),
        }
    }
}

pub struct EditFormView {
    pub original_name: Seq<char>,
    pub form: FormView,
}

impl View for EditFormState {
    type V = EditFormView;

    open spec fn view(&self) -> EditFormView {
        EditFormView {
            original_name: self.original_name@,
            form: FormView {
                active_field: self.active_field as int,
                name: self.name@,
                base_url: self.base_url@,
                api_key: self.api_key@,
                model: self.model@,
                notes: self.notes@,
                error: opt_view(self.error),
            },
        }
    }
}

pub open spec fn choice_views(cs: Seq<TemplateChoice>) -> Seq<ChoiceView> {
    cs.map_values(|c: TemplateChoice| c@)
}

pub struct PickView {
    pub choices: Seq<ChoiceView>,
    pub selected: int,
    pub search: SearchView,
}

impl View for AddTemplateState {
    type V = PickView;

    open spec fn view(&self) -> PickView {
        PickView {
            choices: choice_views(self.choices@),
            selected: self.selected as int,
            search: self.search@,
        }
    }
}

pub enum ScreenView {
    List(SearchView),
    AddTemplate(PickView),
    AddForm(FormView),
    EditForm(EditFormView),
    DeleteConfirm,
}

impl View for UiScreen {
    type V = ScreenView;

    open spec fn view(&self) -> ScreenView {
        match self {
            UiScreen::List(l) => ScreenView::List(l.search@),
            UiScreen::AddTemplate(t) => ScreenView::AddTemplate(t@),
            UiScreen::AddForm(f) => ScreenView::AddForm(f@),
            UiScreen::EditForm(f) => ScreenView::EditForm(f@),
            UiScreen::DeleteConfirm => ScreenView::DeleteConfirm,
        }
    }
}

pub struct StateView {
    pub mode: UiMode,
    pub selected: int,
    pub providers: Seq<ProviderView>,
    pub screen: ScreenView,
}

pub open spec fn provider_views(ps: Seq<ProviderConfig>) -> Seq<ProviderView> {
    ps.map_values(|p: ProviderConfig| p@)
}

impl View for UiState {
    type V = StateView;

    open spec fn view(&self) -> StateView {
        StateView {
            mode: self.mode,
            selected: self.selected as int,
            providers: provider_views(self.providers@),
            screen: self.screen@,
        }
    }
}

/// The list screen with an empty, inactive search.
pub open spec fn list_screen_view() -> ScreenView {
    ScreenView::List(empty_search())
}

/// The empty form for a custom endpoint.
pub open spec fn custom_form() -> FormView {
    FormView {
        active_field: 0,
        name: Seq::empty(),
        base_url: Seq::empty(),
        api_key: Seq::empty(),
        model: Seq::empty(),
        notes: Seq::empty(),
        error: None,
    }
}

pub open spec fn text_or_empty(o: Option<Seq<char>>) -> Seq<char> {
    match o {
        Some(s) => s,
        None => Seq::empty(),
    }
}

/// The edit form for `p`, cursor on the name, API key left blank.
pub open spec fn edit_form_for(p: ProviderView) -> EditFormView {
    EditFormView {
        original_name: p.name,
        form: FormView {
            active_field: 0,
            name: p.name,
            base_url: p.base_url,
            api_key: Seq::empty(),
            model: text_or_empty(p.model),
            notes: text_or_empty(p.notes),
            error: None,
        },
    }
}

impl UiState {
    pub fn new(mode: UiMode, providers: Vec<ProviderConfig>) -> (s: UiState)
        ensures
            s@ == (StateView {
                mode,
                selected: 0,
                providers: provider_views(providers@),
                screen: list_screen_view(),
            }),
    {
        UiState { mode, selected: 0, providers, screen: UiScreen::List(ListScreenState::default()) }
    }
}

impl AddTemplateState {
    pub fn new(choices: Vec<TemplateChoice>) -> (s: AddTemplateState)
        ensures
            s@ == (PickView {
                choices: choice_views(choices@),
                selected: 0,
                search: empty_search(),
            }),
    {
        AddTemplateState { choices, selected: 0, search: SearchState::default() }
    }
}

impl AddFormState {
    pub fn custom() -> (s: AddFormState)
        ensures
            s@ == custom_form(),
    {
        AddFormState {
            active_field: 0,
            name: String::new(),
            base_url: String::new(),
            api_key: String::new(),
            model: String::new(),
            notes: String::new(),
            error: None,
        }
    }

    /// A filled form with the cursor on the save button.
    pub fn ready_to_submit(name: &str, base_url: &str, api_key: &str) -> (s: AddFormState)
        ensures
            s@ == (FormView {
                active_field: 5,
                name: name@,
                base_url: base_url@,
                api_key: api_key@,
                model: Seq::empty(),
                notes: Seq::empty(),
                error: None,
            }),
    {
        AddFormState {
            active_field: 5,
            name: String::from_str(name),
            base_url: String::from_str(base_url),
            api_key: String::from_str(api_key),
            model: String::new(),
            notes: String::new(),
            error: None,
        }
    }
}

fn text_or_empty_exec(o: &Option<String>) -> (s: String)
    ensures
        s@ == text_or_empty(opt_view(*o)),
{
    match o {
        Some(s) => s.clone(),
        None => String::new(),
    }
}

impl EditFormState {
    pub fn from_provider(provider: &ProviderConfig) -> (s: EditFormState)
        ensures
            s@ == edit_form_for(provider@),
    {
        EditFormState {
            original_name: provider.name.clone(),
            active_field: 0,
            name: provider.name.clone(),
            base_url: provider.base_url.clone(),
            api_key: String::new(),
            model: text_or_empty_exec(&provider.model),
            notes: text_or_empty_exec(&provider.notes),
            error: None,
        }
    }

    /// The edit form for `provider` with `name` typed in and the cursor on save.
    pub fn ready_to_submit(provider: &ProviderConfig, name: &str) -> (s: EditFormState)
        ensures
            s@ == (EditFormView {
                original_name: provider.name@,
                form: FormView { active_field: 5, name: name@, ..edit_form_for(provider@).form },
            }),
    {
        let base = EditFormState::from_provider(provider);
        EditFormState { active_field: 5, name: String::from_str(name), ..base }
    }
}

/// The search text as it is matched: trimmed and in lower case.
pub open spec fn normalized_query(query: Seq<char>) -> Seq<char> {
    lower(trim(query))
}

/// A provider matches when the query is blank or occurs, ignoring ASCII
/// case, in its name, base URL or notes.
pub open spec fn provider_matches(p: ProviderView, query: Seq<char>) -> bool {
    let q = normalized_query(query);
    q.len() == 0 || is_infix(q, lower(p.name)) || is_infix(q, lower(p.base_url)) || is_infix(
        q,
        lower(text_or_empty(p.notes)),
    )
}

/// A built-in template matches on its display name, base URL or notes; the
/// custom row matches when one of `custom`, `manual`, `endpoint` and the
/// query occurs in the other.
pub open spec fn template_matches(c: ChoiceView, query: Seq<char>) -> bool {
    let q = normalized_query(query);
    q.len() == 0 || match c {
        ChoiceView::BuiltIn(t) => is_infix(q, lower(t.display_name)) || is_infix(
            q,
            lower(t.base_url),
        ) || is_infix(q, lower(text_or_empty(t.notes))),
        ChoiceView::Custom => is_infix(q, "custom"@) || is_infix("custom"@, q) || is_infix(
            q,
            "manual"@,
        ) || is_infix("manual"@, q) || is_infix(q, "endpoint"@) || is_infix("endpoint"@, q),
    }
}

fn infix_lower(q: &Vec<char>, hay: &str) -> (b: bool)
    ensures
        b == is_infix(q@, lower(hay@)),
{
    let h = lower_chars(&chars_of(hay));
    contains_chars(&h, q)
}

fn opt_str(o: &Option<String>) -> (s: &str)
    ensures
        s@ == text_or_empty(opt_view(*o)),
{
    match o {
        Some(s) => s.as_str(),
        None => {
            proof {
                reveal_strlit("");
            }
            ""
        },
    }
}

pub fn provider_matches_search(provider: &ProviderConfig, query: &str) -> (b: bool)
    ensures
        b == provider_matches(provider@, query@),
{
    let q = lower_chars(&trimmed_chars(query));
    if q.len() == 0 {
        return true;
    }
    infix_lower(&q, provider.name.as_str()) || infix_lower(&q, provider.base_url.as_str())
        || infix_lower(&q, opt_str(&provider.notes))
}

fn token_overlaps(q: &Vec<char>, token: &str) -> (b: bool)
    ensures
        b == (is_infix(q@, token@) || is_infix(token@, q@)),
{
    let t = chars_of(token);
    contains_chars(&t, q) || contains_chars(q, &t)
}

pub fn template_matches_search(choice: &TemplateChoice, query: &str) -> (b: bool)
    ensures
        b == template_matches(choice@, query@),
{
    let q = lower_chars(&trimmed_chars(query));
    if q.len() == 0 {
        return true;
    }
    match choice {
        TemplateChoice::BuiltIn(template) => {
            infix_lower(&q, template.display_name.as_str()) || infix_lower(
                &q,
                template.base_url.as_str(),
            ) || infix_lower(&q, opt_str(&template.notes))
        },
        TemplateChoice::Custom => {
            token_overlaps(&q, "custom") || token_overlaps(&q, "manual") || token_overlaps(
                &q,
                "endpoint",
            )
        },
    }
}

} // verus!
