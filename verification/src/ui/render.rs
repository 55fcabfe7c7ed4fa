use vstd::prelude::*;
use vstd::string::{StrSliceExecFns, StringExecFns};
use crate::config::{opt_view, ProviderConfig, ProviderView};
use crate::provider_templates::{ChoiceView, TemplateChoice};
use crate::text::push_char;
use crate::ui::input::{
    ascending, choice_flags, lemma_hits, list_query, provider_flags, visible_choices,
    visible_providers,
};
use crate::ui::state::{
    choice_views, provider_views, AddTemplateState, FormView, PickView, ScreenView, SearchState,
    StateView, UiMode, UiScreen, UiState,
};

verus! {

/// Height of the inline provider page for `row_count` rows: six lines of
/// chrome added, kept between 10 and 16 (the count is taken as a `u16`).
pub open spec fn viewport_height(row_count: usize) -> int {
    let r = (row_count as int) % 0x1_0000;
    let h = if r + 6 <= 0xFFFF {
        r + 6
    } else {
        0xFFFF
    };
    if h < 10 {
        10
    } else if h > 16 {
        16
    } else {
        h
    }
}

pub fn provider_viewport_height(row_count: usize) -> (h: u16)
    ensures
        h as int == viewport_height(row_count),
        10 <= h <= 16,
{
    let r: u16 = (row_count % 0x1_0000) as u16;
    let h: u16 = if r <= 0xFFFF - 6 {
        r + 6
    } else {
        0xFFFF
    };
    if h < 10 {
        10
    } else if h > 16 {
        16
    } else {
        h
    }
}

/// A key and what it does, for the footer.
#[derive(Debug, Clone, PartialEq, Eq)]
pub struct HintToken {
    pub key: String,
    pub description: String,
}

pub open spec fn hint_views(v: Seq<HintToken>) -> Seq<(Seq<char>, Seq<char>)> {
    v.map_values(|t: HintToken| (t.key@, t.description@))
}

pub open spec fn filter_hints() -> Seq<(Seq<char>, Seq<char>)> {
    seq![("Type"@, "filter"@), ("Enter"@, "close"@), ("Esc"@, "clear"@)]
}

pub open spec fn list_hints(mode: UiMode) -> Seq<(Seq<char>, Seq<char>)> {
    seq![
        ("Enter"@, if mode == UiMode::Exec {
            "exec"@
        } else {
            "run"@
        }),
        ("/"@, "search"@),
        ("N"@, "new"@),
        ("E"@, "edit"@),
        ("D"@, "delete"@),
        ("Q"@, "quit"@),
    ]
}

/// The footer's key hints for each screen.
pub open spec fn footer_hint_views(s: StateView) -> Seq<(Seq<char>, Seq<char>)> {
    match s.screen {
        ScreenView::DeleteConfirm => seq![("Y"@, "confirm"@), ("Esc"@, "cancel"@)],
        ScreenView::List(search) => if search.active {
            filter_hints()
        } else {
            list_hints(s.mode)
        },
        ScreenView::AddTemplate(p) => if p.search.active {
            filter_hints()
        } else {
            seq![("Enter"@, "select"@), ("/"@, "search"@), ("Esc"@, "cancel"@)]
        },
        ScreenView::AddForm(_) | ScreenView::EditForm(_) => seq![
            ("Tab"@, "next"@),
            ("Shift+Tab"@, "back"@),
            ("Enter"@, "save"@),
            ("Esc"@, "cancel"@),
        ],
    }
}

fn hint(key: &str, description: &str) -> (t: HintToken)
    ensures
        t.key@ == key@,
        t.description@ == description@,
{
    HintToken { key: String::from_str(key), description: String::from_str(description) }
}

fn filter_hint_tokens() -> (v: Vec<HintToken>)
    ensures
        hint_views(v@) == filter_hints(),
{
    let mut v: Vec<HintToken> = Vec::new();
    v.push(hint("Type", "filter"));
    v.push(hint("Enter", "close"));
    v.push(hint("Esc", "clear"));
    assert(hint_views(v@) =~= filter_hints());
    v
}

/// The key hints shown under the current screen.
pub fn footer_hints(state: &UiState) -> (v: Vec<HintToken>)
    ensures
        hint_views(v@) == footer_hint_views(state@),
{
    let mut v: Vec<HintToken> = Vec::new();
    match &state.screen {
        UiScreen::DeleteConfirm => {
            v.push(hint("Y", "confirm"));
            v.push(hint("Esc", "cancel"));
        },
        UiScreen::List(list) => {
            if list.search.active {
                return filter_hint_tokens();
            }
            match state.mode {
                UiMode::Exec => v.push(hint("Enter", "exec")),
                UiMode::Manage | UiMode::Run => v.push(hint("Enter", "run")),
            }
            v.push(hint("/", "search"));
            v.push(hint("N", "new"));
            v.push(hint("E", "edit"));
            v.push(hint("D", "delete"));
            v.push(hint("Q", "quit"));
        },
        UiScreen::AddTemplate(template) => {
            if template.search.active {
                return filter_hint_tokens();
            }
            v.push(hint("Enter", "select"));
            v.push(hint("/", "search"));
            v.push(hint("Esc", "cancel"));
        },
        UiScreen::AddForm(_) | UiScreen::EditForm(_) => {
            v.push(hint("Tab", "next"));
            v.push(hint("Shift+Tab", "back"));
            v.push(hint("Enter", "save"));
            v.push(hint("Esc", "cancel"));
        },
    }
    assert(hint_views(v@) =~= footer_hint_views(state@));
    v
}

/// How a piece of the footer line is shown.
#[derive(Debug, Clone, Copy, PartialEq, Eq)]
pub enum PartKind {
    /// Spacing between a key and its description, or between two hints.
    Gap,
    /// A key in brackets.
    Keycap,
    /// What the key does.
    Description,
}

/// One piece of the footer line.
#[derive(Debug, Clone, PartialEq, Eq)]
pub struct HintPart {
    pub kind: PartKind,
    pub text: String,
}

pub open spec fn part_views(v: Seq<HintPart>) -> Seq<(PartKind, Seq<char>)> {
    v.map_values(|p: HintPart| (p.kind, p.text@))
}

/// `[key]`, a space, then the description.
pub open spec fn token_parts(t: (Seq<char>, Seq<char>)) -> Seq<(PartKind, Seq<char>)> {
    seq![(PartKind::Keycap, "["@ + t.0 + "]"@), (PartKind::Gap, " "@), (PartKind::Description, t.1)]
}

/// The pieces of a footer line: each hint as `[key] description`, with three
/// spaces between two hints.
pub open spec fn hint_line_parts(ts: Seq<(Seq<char>, Seq<char>)>) -> Seq<(PartKind, Seq<char>)>
    decreases ts.len(),
{
    if ts.len() == 0 {
        Seq::empty()
    } else if ts.len() == 1 {
        token_parts(ts[0])
    } else {
        hint_line_parts(ts.drop_last()) + seq![(PartKind::Gap, "   "@)] + token_parts(ts.last())
    }
}

/// The text of pieces put side by side.
pub open spec fn parts_text(ps: Seq<(PartKind, Seq<char>)>) -> Seq<char>
    decreases ps.len(),
{
    if ps.len() == 0 {
        Seq::empty()
    } else {
        parts_text(ps.drop_last()) + ps.last().1
    }
}

/// The footer line as the user reads it: `[key] description` for each hint,
/// three spaces between two hints.
pub open spec fn hint_line_text(ts: Seq<(Seq<char>, Seq<char>)>) -> Seq<char>
    decreases ts.len(),
{
    if ts.len() == 0 {
        Seq::empty()
    } else if ts.len() == 1 {
        "["@ + ts[0].0 + "] "@ + ts[0].1
    } else {
        hint_line_text(ts.drop_last()) + "   ["@ + ts.last().0 + "] "@ + ts.last().1
    }
}

proof fn lemma_parts_text_append(a: Seq<(PartKind, Seq<char>)>, b: Seq<(PartKind, Seq<char>)>)
    ensures
        parts_text(a + b) == parts_text(a) + parts_text(b),
    decreases b.len(),
{
    if b.len() == 0 {
        assert(a + b =~= a);
        assert(parts_text(b) =~= Seq::<char>::empty());
        assert(parts_text(a) + parts_text(b) =~= parts_text(a));
    } else {
        lemma_parts_text_append(a, b.drop_last());
        assert((a + b).drop_last() =~= a + b.drop_last());
        assert((a + b).last() == b.last());
    }
}

proof fn lemma_token_parts_text(t: (Seq<char>, Seq<char>))
    ensures
        parts_text(token_parts(t)) == "["@ + t.0 + "] "@ + t.1,
{
    reveal_strlit("[");
    reveal_strlit("]");
    reveal_strlit(" ");
    reveal_strlit("] ");
    let p = token_parts(t);
    let p1 = p.drop_last();
    let p0 = p1.drop_last();
    assert(p0.drop_last().len() == 0);
    assert(parts_text(p0.drop_last()) == Seq::<char>::empty());
    assert(p0.last().1 == "["@ + t.0 + "]"@);
    assert(parts_text(p0) =~= "["@ + t.0 + "]"@);
    assert(p1.last().1 == " "@);
    assert(parts_text(p1) == parts_text(p0) + " "@);
    assert(p.last().1 == t.1);
    assert(parts_text(p) == parts_text(p1) + t.1);
    assert(("["@ + t.0 + "]"@) + " "@ =~= "["@ + t.0 + "] "@);
}

proof fn lemma_hint_line_text(ts: Seq<(Seq<char>, Seq<char>)>)
    ensures
        parts_text(hint_line_parts(ts)) == hint_line_text(ts),
    decreases ts.len(),
{
    if ts.len() == 0 {
    } else if ts.len() == 1 {
        lemma_token_parts_text(ts[0]);
    } else {
        reveal_strlit("   ");
        reveal_strlit("   [");
        reveal_strlit("[");
        let t = ts.last();
        lemma_hint_line_text(ts.drop_last());
        let front = hint_line_parts(ts.drop_last()) + seq![(PartKind::Gap, "   "@)];
        lemma_parts_text_append(front, token_parts(t));
        lemma_parts_text_append(hint_line_parts(ts.drop_last()), seq![(PartKind::Gap, "   "@)]);
        let g: Seq<(PartKind, Seq<char>)> = seq![(PartKind::Gap, "   "@)];
        assert(g.drop_last() =~= Seq::<(PartKind, Seq<char>)>::empty());
        assert(parts_text(g.drop_last()) == Seq::<char>::empty());
        assert(g.last().1 == "   "@);
        assert(parts_text(g) =~= "   "@);
        lemma_token_parts_text(t);
        assert(hint_line_parts(ts) == front + token_parts(t));
        assert(parts_text(hint_line_parts(ts)) == parts_text(hint_line_parts(ts.drop_last())) + "   "@
            + ("["@ + t.0 + "] "@ + t.1));
        assert(hint_line_text(ts) == hint_line_text(ts.drop_last()) + "   ["@ + t.0 + "] "@ + t.1);
        assert(("   "@ + ("["@ + t.0 + "] "@ + t.1)) =~= "   ["@ + t.0 + "] "@ + t.1);
        assert(parts_text(hint_line_parts(ts)) =~= hint_line_text(ts));
    }
}

fn bracketed(key: &str) -> (s: String)
    ensures
        s@ == "["@ + key@ + "]"@,
{
    String::from_str("[").concat(key).concat("]")
}

fn part(kind: PartKind, text: String) -> (p: HintPart)
    ensures
        p.kind == kind,
        p.text@ == text@,
{
    HintPart { kind, text }
}

/// The pieces of the footer line for `tokens`: each key in brackets, a space
/// and its description, three spaces between two hints.
pub fn hint_line(tokens: &Vec<HintToken>) -> (parts: Vec<HintPart>)
    ensures
        part_views(parts@) == hint_line_parts(hint_views(tokens@)),
        parts_text(part_views(parts@)) == hint_line_text(hint_views(tokens@)),
{
    let ghost ts = hint_views(tokens@);
    let mut parts: Vec<HintPart> = Vec::new();
    let mut i: usize = 0;
    while i < tokens.len()
        invariant
            i <= tokens@.len(),
            ts == hint_views(tokens@),
            part_views(parts@) == hint_line_parts(ts.subrange(0, i as int)),
        decreases tokens@.len() - i,
    {
        let ghost before = parts@;
        let ghost tok = (tokens@[i as int].key@, tokens@[i as int].description@);
        if i > 0 {
            parts.push(part(PartKind::Gap, String::from_str("   ")));
        }
        parts.push(part(PartKind::Keycap, bracketed(tokens[i].key.as_str())));
        parts.push(part(PartKind::Gap, String::from_str(" ")));
        parts.push(part(PartKind::Description, tokens[i].description.clone()));
        proof {
            let prev = ts.subrange(0, i as int);
            let next = ts.subrange(0, i + 1);
            assert(next.drop_last() =~= prev);
            assert(next.last() == ts[i as int]);
            assert(ts[i as int] == (tokens@[i as int].key@, tokens@[i as int].description@));
            let n = before.len();
            let tp = token_parts(tok);
            if i > 0 {
                assert(parts@.len() == n + 4);
                assert(part_views(parts@)[n as int] == (PartKind::Gap, "   "@));
                assert(part_views(parts@)[n as int + 1] == tp[0]);
                assert(part_views(parts@)[n as int + 2] == tp[1]);
                assert(part_views(parts@)[n as int + 3] == tp[2]);
                assert(part_views(parts@) =~= part_views(before) + seq![(PartKind::Gap, "   "@)]
                    + token_parts(ts[i as int]));
            } else {
                assert(prev =~= Seq::<(Seq<char>, Seq<char>)>::empty());
                assert(part_views(before) == hint_line_parts(prev));
                assert(hint_line_parts(prev).len() == 0);
                assert(part_views(before).len() == before.len());
                assert(n == 0);
                assert(parts@.len() == 3);
                assert(part_views(parts@)[0] == tp[0]);
                assert(part_views(parts@)[1] == tp[1]);
                assert(part_views(parts@)[2] == tp[2]);
                assert(part_views(parts@) =~= token_parts(ts[i as int]));
            }
        }
        i = i + 1;
    }
    proof {
        assert(ts.subrange(0, tokens@.len() as int) =~= ts);
        lemma_hint_line_text(ts);
    }
    parts
}

/// The footer line under the current screen.
pub fn footer_line(state: &UiState) -> (parts: Vec<HintPart>)
    ensures
        part_views(parts@) == hint_line_parts(footer_hint_views(state@)),
        parts_text(part_views(parts@)) == hint_line_text(footer_hint_views(state@)),
{
    hint_line(&footer_hints(state))
}

/// The search bar shows while it is active or holds text.
pub fn show_search_bar(search: &SearchState) -> (b: bool)
    ensures
        b == (search@.active || search@.query.len() > 0),
{
    search.active || search.query.unicode_len() > 0
}

/// The search bar: its label, then the query. The label takes eight
/// columns, which is where the cursor's offset comes from.
pub fn search_bar_text(search: &SearchState) -> (s: String)
    ensures
        s@ == "Search: "@ + search@.query,
        s@.len() == 8 + search@.query.len(),
{
    proof {
        reveal_strlit("Search: ");
    }
    String::from_str("Search: ").concat(search.query.as_str())
}

/// Copies of the providers that the list screen shows, in order.
pub fn filtered_providers(state: &UiState) -> (v: Vec<ProviderConfig>)
    ensures
        v@.len() == visible_providers(state@).len(),
        forall|i: int| 0 <= i < v@.len() ==> #[trigger] v@[i]@ == state@.providers[visible_providers(
            state@,
        )[i]],
{
    let query: &str = match &state.screen {
        UiScreen::List(list) => list.search.query.as_str(),
        _ => {
            proof {
                reveal_strlit("");
            }
            ""
        },
    };
    let ghost f = visible_providers(state@);
    let mut v: Vec<ProviderConfig> = Vec::new();
    let mut i: usize = 0;
    proof {
        lemma_hits(provider_flags(state@.providers, list_query(state@)), state@.providers.len() as int);
    }
    while i < state.providers.len()
        invariant
            i <= state.providers@.len(),
            query@ == list_query(state@),
            f == visible_providers(state@),
            forall|k: int| 0 <= k < f.len() ==> 0 <= #[trigger] f[k] < state@.providers.len(),
            ascending(f),
            v@.len() == crate::ui::input::hits(provider_flags(state@.providers, query@), i as int).len(),
            forall|k: int| 0 <= k < v@.len() ==> #[trigger] v@[k]@ == state@.providers[crate::ui::input::hits(
                provider_flags(state@.providers, query@),
                i as int,
            )[k]],
        decreases state.providers@.len() - i,
    {
        let ghost before = v@;
        let ghost flags = provider_flags(state@.providers, query@);
        if crate::ui::state::provider_matches_search(&state.providers[i], query) {
            let p = state.providers[i].copy();
            v.push(p);
            assert(flags[i as int]);
            assert forall|k: int| 0 <= k < v@.len() implies #[trigger] v@[k]@ == state@.providers[crate::ui::input::hits(
                flags,
                i + 1,
            )[k]] by {
                if k < before.len() {
                    assert(v@[k] == before[k]);
                }
            }
        } else {
            assert(!flags[i as int]);
        }
        i = i + 1;
    }
    v
}

fn choice_text_eq(a: &Option<String>, b: &Option<String>) -> (r: bool)
    ensures
        r == (opt_view(*a) == opt_view(*b)),
{
    match (a, b) {
        (Some(x), Some(y)) => *x == *y,
        (None, None) => true,
        _ => false,
    }
}

/// Whether two template choices hold the same texts.
pub fn same_choice(a: &TemplateChoice, b: &TemplateChoice) -> (r: bool)
    ensures
        r == (a@ == b@),
{
    match (a, b) {
        (TemplateChoice::BuiltIn(x), TemplateChoice::BuiltIn(y)) => {
            x.id == y.id && x.display_name == y.display_name && x.base_url == y.base_url
                && choice_text_eq(&x.default_model, &y.default_model) && choice_text_eq(
                &x.notes,
                &y.notes,
            )
        },
        (TemplateChoice::Custom, TemplateChoice::Custom) => true,
        _ => false,
    }
}

/// The row to highlight among the shown providers: the one named like the
/// selected provider, else the first; none when nothing is shown.
pub open spec fn highlighted_provider(s: StateView, shown: Seq<ProviderView>) -> Option<int> {
    if shown.len() == 0 {
        None
    } else if exists|k: int| 0 <= k < shown.len() && shown[k].name == s.providers[s.selected].name {
        Some(
            choose|k: int|
                0 <= k < shown.len() && shown[k].name == s.providers[s.selected].name && forall|
                    j: int,
                | 0 <= j < k ==> shown[j].name != s.providers[s.selected].name,
        )
    } else {
        Some(0)
    }
}

pub fn selected_filtered_provider_index(state: &UiState, filtered: &Vec<ProviderConfig>) -> (r:
    Option<usize>)
    requires
        filtered@.len() > 0 ==> state.selected < state.providers@.len(),
    ensures
        match r {
            Some(i) => Some(i as int) == highlighted_provider(state@, provider_views(filtered@)),
            None => highlighted_provider(state@, provider_views(filtered@)) is None,
        },
{
    if filtered.len() == 0 {
        return None;
    }
    let ghost shown = provider_views(filtered@);
    let ghost target = state@.providers[state.selected as int].name;
    assert(state.providers@[state.selected as int].name@ == target);
    let mut i: usize = 0;
    while i < filtered.len()
        invariant
            i <= filtered@.len(),
            shown == provider_views(filtered@),
            state.selected < state.providers@.len(),
            target == state@.providers[state.selected as int].name,
            state.providers@[state.selected as int].name@ == target,
            forall|j: int| 0 <= j < i ==> shown[j].name != target,
        decreases filtered@.len() - i,
    {
        if filtered[i].name == state.providers[state.selected].name {
            proof {
                assert(shown[i as int].name == target);
                let c = choose|k: int|
                    0 <= k < shown.len() && shown[k].name == target && forall|j: int|
                        0 <= j < k ==> shown[j].name != target;
                if c < i {
                } else if c > i {
                }
            }
            return Some(i);
        }
        i = i + 1;
    }
    proof {
        if exists|k: int| 0 <= k < shown.len() && shown[k].name == target {
            let k = choose|k: int| 0 <= k < shown.len() && shown[k].name == target;
            assert(shown[k].name != target);
        }
    }
    Some(0)
}

/// Copies of the template choices that the picker shows, in order.
pub fn filtered_templates(add_template: &AddTemplateState) -> (v: Vec<TemplateChoice>)
    ensures
        v@.len() == visible_choices(add_template@).len(),
        forall|i: int| 0 <= i < v@.len() ==> #[trigger] v@[i]@ == add_template@.choices[visible_choices(
            add_template@,
        )[i]],
{
    let query = add_template.search.query.as_str();
    let ghost f = visible_choices(add_template@);
    let ghost flags = choice_flags(add_template@.choices, query@);
    let mut v: Vec<TemplateChoice> = Vec::new();
    let mut i: usize = 0;
    while i < add_template.choices.len()
        invariant
            i <= add_template.choices@.len(),
            query@ == add_template@.search.query,
            flags == choice_flags(add_template@.choices, query@),
            f == visible_choices(add_template@),
            v@.len() == crate::ui::input::hits(flags, i as int).len(),
            forall|k: int| 0 <= k < v@.len() ==> #[trigger] v@[k]@ == add_template@.choices[crate::ui::input::hits(
                flags,
                i as int,
            )[k]],
        decreases add_template.choices@.len() - i,
    {
        let ghost before = v@;
        if crate::ui::state::template_matches_search(&add_template.choices[i], query) {
            let c = add_template.choices[i].copy();
            v.push(c);
            assert(flags[i as int]);
            assert forall|k: int| 0 <= k < v@.len() implies #[trigger] v@[k]@ == add_template@.choices[crate::ui::input::hits(
                flags,
                i + 1,
            )[k]] by {
                if k < before.len() {
                    assert(v@[k] == before[k]);
                }
            }
        } else {
            assert(!flags[i as int]);
        }
        i = i + 1;
    }
    v
}

/// The row to highlight among the shown choices: the first equal to the
/// selected choice, else the first; none when nothing is shown.
pub open spec fn highlighted_choice(p: PickView, shown: Seq<ChoiceView>) -> Option<int> {
    if shown.len() == 0 {
        None
    } else if 0 <= p.selected < p.choices.len() && exists|k: int|
        0 <= k < shown.len() && shown[k] == p.choices[p.selected] {
        Some(
            choose|k: int|
                0 <= k < shown.len() && shown[k] == p.choices[p.selected] && forall|j: int|
                    0 <= j < k ==> shown[j] != p.choices[p.selected],
        )
    } else {
        Some(0)
    }
}

pub fn selected_filtered_template_index(
    add_template: &AddTemplateState,
    filtered: &Vec<TemplateChoice>,
) -> (r: Option<usize>)
    ensures
        match r {
            Some(i) => Some(i as int) == highlighted_choice(add_template@, choice_views(filtered@)),
            None => highlighted_choice(add_template@, choice_views(filtered@)) is None,
        },
{
    if filtered.len() == 0 {
        return None;
    }
    if add_template.selected >= add_template.choices.len() {
        return Some(0);
    }
    let ghost shown = choice_views(filtered@);
    let ghost target = add_template@.choices[add_template.selected as int];
    let selected = &add_template.choices[add_template.selected];
    assert(selected@ == target);
    let mut i: usize = 0;
    while i < filtered.len()
        invariant
            i <= filtered@.len(),
            shown == choice_views(filtered@),
            selected@ == target,
            0 <= add_template@.selected < add_template@.choices.len(),
            target == add_template@.choices[add_template@.selected],
            forall|j: int| 0 <= j < i ==> shown[j] != target,
        decreases filtered@.len() - i,
    {
        if same_choice(selected, &filtered[i]) {
            proof {
                assert(shown[i as int] == target);
                let c = choose|k: int|
                    0 <= k < shown.len() && shown[k] == target && forall|j: int|
                        0 <= j < k ==> shown[j] != target;
                if c < i {
                } else if c > i {
                }
            }
            return Some(i);
        }
        i = i + 1;
    }
    proof {
        if exists|k: int| 0 <= k < shown.len() && shown[k] == target {
            let k = choose|k: int| 0 <= k < shown.len() && shown[k] == target;
            assert(shown[k] != target);
        }
    }
    Some(0)
}

/// A text field as shown: `-` for an empty field off the cursor.
pub open spec fn text_display(value: Seq<char>, active: bool) -> Seq<char> {
    if value.len() == 0 && !active {
        "-"@
    } else {
        value
    }
}

pub fn text_field_display(value: &str, active: bool) -> (s: String)
    ensures
        s@ == text_display(value@, active),
{
    if value.unicode_len() == 0 && !active {
        String::from_str("-")
    } else {
        String::from_str(value)
    }
}

/// A secret as shown: one `*` per character; when empty, nothing under the
/// cursor and the placeholder elsewhere.
pub open spec fn secret_display(value: Seq<char>, placeholder: Seq<char>, active: bool) -> Seq<
    char,
> {
    if value.len() == 0 {
        if active {
            Seq::empty()
        } else {
            placeholder
        }
    } else {
        Seq::new(value.len(), |i: int| '*')
    }
}

pub fn secret_field_display(value: &str, placeholder: &str, active: bool) -> (s: String)
    ensures
        s@ == secret_display(value@, placeholder@, active),
{
    let n = value.unicode_len();
    if n == 0 {
        if active {
            String::new()
        } else {
            String::from_str(placeholder)
        }
    } else {
        let mut s = String::new();
        let mut i: usize = 0;
        while i < n
            invariant
                i <= n,
                s@ == Seq::new(i as nat, |k: int| '*'),
            decreases n - i,
        {
            push_char(&mut s, '*');
            assert(s@ =~= Seq::new((i + 1) as nat, |k: int| '*'));
            i = i + 1;
        }
        s
    }
}

/// A form label left-aligned in eight columns (`{label:8}`).
pub open spec fn padded_label(label: Seq<char>) -> Seq<char> {
    if label.len() < 8 {
        label + Seq::new((8 - label.len()) as nat, |i: int| ' ')
    } else {
        label
    }
}

pub fn form_label(label: &str) -> (s: String)
    ensures
        s@ == padded_label(label@),
{
    let mut s = String::from_str(label);
    let n = label.unicode_len();
    let mut i: usize = n;
    while i < 8
        invariant
            n == label@.len(),
            n <= i,
            i <= 8 || i == n,
            s@ == label@ + Seq::new((i - n) as nat, |k: int| ' '),
        decreases 8 - i,
    {
        push_char(&mut s, ' ');
        assert(s@ =~= label@ + Seq::new((i + 1 - n) as nat, |k: int| ' '));
        i = i + 1;
    }
    if n >= 8 {
        assert(s@ =~= label@);
    }
    s
}

/// The marker before a form line: an arrow on the active line.
pub fn line_marker(active: bool) -> (s: &'static str)
    ensures
        s@ == if active {
            "› "@
        } else {
            "  "@
        },
{
    if active {
        "› "
    } else {
        "  "
    }
}

/// One table row as shown: the selection marker, the name column, the base
/// URL column, and whether it is the custom-endpoint row.
#[derive(Debug, Clone, PartialEq, Eq)]
pub struct TableRow {
    pub marker: String,
    pub name: String,
    pub base_url: String,
    pub custom: bool,
}

pub open spec fn row_view(r: TableRow) -> (Seq<char>, Seq<char>, Seq<char>, bool) {
    (r.marker@, r.name@, r.base_url@, r.custom)
}

/// `>` on the selected row, a blank elsewhere.
pub open spec fn marker_text(selected: Option<int>, i: int) -> Seq<char> {
    if selected == Some(i) {
        ">"@
    } else {
        " "@
    }
}

pub open spec fn provider_row(p: ProviderView, selected: Option<int>, i: int) -> (
    Seq<char>,
    Seq<char>,
    Seq<char>,
    bool,
) {
    (marker_text(selected, i), p.name, p.base_url, false)
}

pub open spec fn choice_row(c: ChoiceView, selected: Option<int>, i: int) -> (
    Seq<char>,
    Seq<char>,
    Seq<char>,
    bool,
) {
    match c {
        ChoiceView::BuiltIn(t) => (marker_text(selected, i), t.display_name, t.base_url, false),
        ChoiceView::Custom => (marker_text(selected, i), "Custom"@, "Manual endpoint setup"@, true),
    }
}

fn marker_for(selected: Option<usize>, i: usize) -> (s: String)
    ensures
        s@ == marker_text(
            match selected {
                Some(k) => Some(k as int),
                None => None,
            },
            i as int,
        ),
{
    let hit = match selected {
        Some(k) => k == i,
        None => false,
    };
    if hit {
        String::from_str(">")
    } else {
        String::from_str(" ")
    }
}

pub open spec fn opt_int(o: Option<usize>) -> Option<int> {
    match o {
        Some(k) => Some(k as int),
        None => None,
    }
}

/// The rows of the provider table, `selected` marked.
pub fn provider_rows(shown: &Vec<ProviderConfig>, selected: Option<usize>) -> (rows: Vec<TableRow>)
    ensures
        rows@.len() == shown@.len(),
        forall|i: int| 0 <= i < rows@.len() ==> #[trigger] row_view(rows@[i]) == provider_row(
            shown@[i]@,
            opt_int(selected),
            i,
        ),
{
    let mut rows: Vec<TableRow> = Vec::new();
    for i in 0..shown.len()
        invariant
            rows@.len() == i,
            forall|k: int| 0 <= k < i ==> #[trigger] row_view(rows@[k]) == provider_row(
                shown@[k]@,
                opt_int(selected),
                k,
            ),
    {
        rows.push(
            TableRow {
                marker: marker_for(selected, i),
                name: shown[i].name.clone(),
                base_url: shown[i].base_url.clone(),
                custom: false,
            },
        );
    }
    rows
}

/// The rows of the template table, `selected` marked.
pub fn template_rows(shown: &Vec<TemplateChoice>, selected: Option<usize>) -> (rows: Vec<TableRow>)
    ensures
        rows@.len() == shown@.len(),
        forall|i: int| 0 <= i < rows@.len() ==> #[trigger] row_view(rows@[i]) == choice_row(
            shown@[i]@,
            opt_int(selected),
            i,
        ),
{
    let mut rows: Vec<TableRow> = Vec::new();
    for i in 0..shown.len()
        invariant
            rows@.len() == i,
            forall|k: int| 0 <= k < i ==> #[trigger] row_view(rows@[k]) == choice_row(
                shown@[k]@,
                opt_int(selected),
                k,
            ),
    {
        let row = match &shown[i] {
            TemplateChoice::BuiltIn(template) => TableRow {
                marker: marker_for(selected, i),
                name: template.display_name.clone(),
                base_url: template.base_url.clone(),
                custom: false,
            },
            TemplateChoice::Custom => TableRow {
                marker: marker_for(selected, i),
                name: String::from_str("Custom"),
                base_url: String::from_str("Manual endpoint setup"),
                custom: true,
            },
        };
        rows.push(row);
    }
    rows
}

/// One field line of a form: its label, the value as shown, and whether the
/// cursor is on it.
#[derive(Debug, Clone, PartialEq, Eq)]
pub struct FieldRow {
    pub label: String,
    pub value: String,
    pub active: bool,
}

pub open spec fn field_row_view(r: FieldRow) -> (Seq<char>, Seq<char>, bool) {
    (r.label@, r.value@, r.active)
}

/// The five field lines of a form: plain fields show `-` when empty off the
/// cursor (name and base URL never do), the API key shows as asterisks or
/// the placeholder.
pub open spec fn form_field_rows(f: FormView, placeholder: Seq<char>) -> Seq<
    (Seq<char>, Seq<char>, bool),
> {
    let a = f.active_field;
    seq![
        ("Name"@, text_display(f.name, true), a == 0),
        ("Base URL"@, text_display(f.base_url, true), a == 1),
        ("API Key"@, secret_display(f.api_key, placeholder, a == 2), a == 2),
        ("Model"@, text_display(f.model, a == 3), a == 3),
        ("Notes"@, text_display(f.notes, a == 4), a == 4),
    ]
}

fn field_row(label: &str, value: String, active: bool) -> (r: FieldRow)
    ensures
        field_row_view(r) == (label@, value@, active),
{
    FieldRow { label: String::from_str(label), value, active }
}

fn form_rows(
    active_field: usize,
    name: &String,
    base_url: &String,
    api_key: &String,
    model: &String,
    notes: &String,
    placeholder: &str,
) -> (rows: Vec<FieldRow>)
    ensures
        rows@.map_values(|r: FieldRow| field_row_view(r)) == form_field_rows(
            FormView {
                active_field: active_field as int,
                name: name@,
                base_url: base_url@,
                api_key: api_key@,
                model: model@,
                notes: notes@,
                error: None,
            },
            placeholder@,
        ),
{
    let a = active_field;
    let mut rows: Vec<FieldRow> = Vec::new();
    rows.push(field_row("Name", text_field_display(name.as_str(), true), a == 0));
    rows.push(field_row("Base URL", text_field_display(base_url.as_str(), true), a == 1));
    rows.push(
        field_row("API Key", secret_field_display(api_key.as_str(), placeholder, a == 2), a == 2),
    );
    rows.push(field_row("Model", text_field_display(model.as_str(), a == 3), a == 3));
    rows.push(field_row("Notes", text_field_display(notes.as_str(), a == 4), a == 4));
    assert(rows@.map_values(|r: FieldRow| field_row_view(r)) =~= form_field_rows(
        FormView {
            active_field: active_field as int,
            name: name@,
            base_url: base_url@,
            api_key: api_key@,
            model: model@,
            notes: notes@,
            error: None,
        },
        placeholder@,
    ));
    rows
}

/// The field lines of the add form; an empty API key reads `required`.
pub fn add_form_rows(form: &crate::ui::state::AddFormState) -> (rows: Vec<FieldRow>)
    ensures
        rows@.map_values(|r: FieldRow| field_row_view(r)) == form_field_rows(
            FormView { error: None, ..form@ },
            "required"@,
        ),
{
    form_rows(
        form.active_field,
        &form.name,
        &form.base_url,
        &form.api_key,
        &form.model,
        &form.notes,
        "required",
    )
}

/// The field lines of the edit form; an empty API key reads `(keep current)`.
pub fn edit_form_rows(form: &crate::ui::state::EditFormState) -> (rows: Vec<FieldRow>)
    ensures
        rows@.map_values(|r: FieldRow| field_row_view(r)) == form_field_rows(
            FormView { error: None, ..form@.form },
            "(keep current)"@,
        ),
{
    form_rows(
        form.active_field,
        &form.name,
        &form.base_url,
        &form.api_key,
        &form.model,
        &form.notes,
        "(keep current)",
    )
}

/// A screen area: its corner and size in terminal cells.
#[derive(Debug, Clone, Copy, PartialEq, Eq)]
pub struct Rect {
    pub x: u16,
    pub y: u16,
    pub width: u16,
    pub height: u16,
}

/// A terminal cell.
#[derive(Debug, Clone, Copy, PartialEq, Eq)]
pub struct Position {
    pub x: u16,
    pub y: u16,
}

/// A character count taken as a `u16`, that is modulo 2^16.
pub open spec fn count16(n: nat) -> int {
    (n as int) % 0x1_0000
}

pub open spec fn field_value(f: FormView, i: int) -> Seq<char> {
    if i == 0 {
        f.name
    } else if i == 1 {
        f.base_url
    } else if i == 2 {
        f.api_key
    } else if i == 3 {
        f.model
    } else {
        f.notes
    }
}

/// Where the terminal cursor goes: after the search text when a search is
/// active, after the active field's text on a form (none on the save
/// button), nowhere otherwise.
pub open spec fn cursor_at(s: StateView, area: Rect) -> Option<(int, int)> {
    match s.screen {
        ScreenView::List(search) => if search.active {
            Some((area.x + 8 + count16(search.query.len()), area.y as int))
        } else {
            None
        },
        ScreenView::AddTemplate(p) => if p.search.active {
            Some((area.x + 8 + count16(p.search.query.len()), area.y as int))
        } else {
            None
        },
        ScreenView::AddForm(f) => form_cursor_at(area, f),
        ScreenView::EditForm(e) => form_cursor_at(area, e.form),
        ScreenView::DeleteConfirm => None,
    }
}

pub open spec fn form_cursor_at(area: Rect, f: FormView) -> Option<(int, int)> {
    if f.active_field > 4 {
        None
    } else {
        Some(
            (
                area.x + 12 + count16(field_value(f, f.active_field).len()),
                area.y + 1 + f.active_field,
            ),
        )
    }
}

/// No cell coordinate of the cursor passes the `u16` range.
pub open spec fn cursor_fits(s: StateView, area: Rect) -> bool {
    match cursor_at(s, area) {
        Some((x, y)) => x <= 0xFFFF && y <= 0xFFFF,
        None => true,
    }
}

fn len16(s: &str) -> (n: u16)
    ensures
        n as int == count16(s@.len()),
{
    (s.unicode_len() % 0x1_0000) as u16
}

fn form_cursor_position(area: Rect, active_field: usize, value: &str) -> (p: Option<Position>)
    requires
        active_field <= 4 ==> area.x + 12 + count16(value@.len()) <= 0xFFFF && area.y + 1
            + active_field <= 0xFFFF,
    ensures
        active_field > 4 ==> p is None,
        active_field <= 4 ==> p == Some(
            Position {
                x: (area.x + 12 + count16(value@.len())) as u16,
                y: (area.y + 1 + active_field) as u16,
            },
        ),
{
    if active_field > 4 {
        return None;
    }
    let n = len16(value);
    Some(Position { x: area.x + 12 + n, y: area.y + 1 + active_field as u16 })
}

fn active_text<'a>(
    active_field: usize,
    name: &'a String,
    base_url: &'a String,
    api_key: &'a String,
    model: &'a String,
    notes: &'a String,
) -> (s: &'a str)
    ensures
        active_field <= 4 ==> s@ == if active_field == 0 {
            name@
        } else if active_field == 1 {
            base_url@
        } else if active_field == 2 {
            api_key@
        } else if active_field == 3 {
            model@
        } else {
            notes@
        },
{
    match active_field {
        0 => name.as_str(),
        1 => base_url.as_str(),
        2 => api_key.as_str(),
        3 => model.as_str(),
        _ => notes.as_str(),
    }
}

pub fn screen_cursor_position(state: &UiState, area: Rect) -> (p: Option<Position>)
    requires
        cursor_fits(state@, area),
    ensures
        match cursor_at(state@, area) {
            Some((x, y)) => p == Some(Position { x: x as u16, y: y as u16 }),
            None => p is None,
        },
{
    match &state.screen {
        UiScreen::List(list) => {
            if list.search.active {
                Some(Position { x: area.x + 8 + len16(list.search.query.as_str()), y: area.y })
            } else {
                None
            }
        },
        UiScreen::AddTemplate(t) => {
            if t.search.active {
                Some(Position { x: area.x + 8 + len16(t.search.query.as_str()), y: area.y })
            } else {
                None
            }
        },
        UiScreen::AddForm(f) => form_cursor_position(
            area,
            f.active_field,
            active_text(f.active_field, &f.name, &f.base_url, &f.api_key, &f.model, &f.notes),
        ),
        UiScreen::EditForm(f) => form_cursor_position(
            area,
            f.active_field,
            active_text(f.active_field, &f.name, &f.base_url, &f.api_key, &f.model, &f.notes),
        ),
        UiScreen::DeleteConfirm => None,
    }
}

/// Whether the cursor of the page lies within the `u16` cell range, which
/// `screen_cursor_position` needs.
pub fn cursor_in_range(state: &UiState, area: Rect) -> (b: bool)
    ensures
        b == cursor_fits(state@, area),
{
    match &state.screen {
        UiScreen::List(list) => !list.search.active || area.x as u32 + 8
            + len16(list.search.query.as_str()) as u32 <= 0xFFFF,
        UiScreen::AddTemplate(t) => !t.search.active || area.x as u32 + 8 + len16(
            t.search.query.as_str(),
        ) as u32 <= 0xFFFF,
        UiScreen::AddForm(f) => {
            if f.active_field > 4 {
                true
            } else {
                let v = active_text(f.active_field, &f.name, &f.base_url, &f.api_key, &f.model, &f.notes);
                area.x as u32 + 12 + len16(v) as u32 <= 0xFFFF && area.y as u32 + 1
                    + f.active_field as u32 <= 0xFFFF
            }
        },
        UiScreen::EditForm(f) => {
            if f.active_field > 4 {
                true
            } else {
                let v = active_text(f.active_field, &f.name, &f.base_url, &f.api_key, &f.model, &f.notes);
                area.x as u32 + 12 + len16(v) as u32 <= 0xFFFF && area.y as u32 + 1
                    + f.active_field as u32 <= 0xFFFF
            }
        },
        UiScreen::DeleteConfirm => true,
    }
}

/// The title over the body of each screen.
pub open spec fn title_of(screen: ScreenView) -> Seq<char> {
    match screen {
        ScreenView::List(_) => "Providers"@,
        ScreenView::DeleteConfirm => "Delete Provider"@,
        ScreenView::AddTemplate(_) => "Provider Templates"@,
        ScreenView::AddForm(_) => "Add Provider"@,
        ScreenView::EditForm(_) => "Edit Provider"@,
    }
}

pub fn screen_title(state: &UiState) -> (s: &'static str)
    ensures
        s@ == title_of(state@.screen),
{
    match &state.screen {
        UiScreen::List(_) => "Providers",
        UiScreen::DeleteConfirm => "Delete Provider",
        UiScreen::AddTemplate(_) => "Provider Templates",
        UiScreen::AddForm(_) => "Add Provider",
        UiScreen::EditForm(_) => "Edit Provider",
    }
}

/// The text of the delete confirmation: `Delete provider <name>?`, with
/// `provider` standing in when the selection points past the list.
pub open spec fn delete_prompt(s: StateView) -> Seq<char> {
    "Delete provider "@ + (if 0 <= s.selected < s.providers.len() {
        s.providers[s.selected].name
    } else {
        "provider"@
    }) + "?"@
}

pub fn delete_confirm_text(state: &UiState) -> (s: String)
    ensures
        s@ == delete_prompt(state@),
{
    let name: &str = if state.selected < state.providers.len() {
        assert(state@.providers[state.selected as int] == state.providers@[state.selected as int]@);
        state.providers[state.selected].name.as_str()
    } else {
        "provider"
    };
    String::from_str("Delete provider ").concat(name).concat("?")
}

/// The message of an empty provider list: a search that matches nothing, or
/// no providers at all.
pub fn empty_list_text(state: &UiState) -> (s: String)
    ensures
        s@ == if list_query(state@).len() > 0 {
            "No providers match the current search"@
        } else {
            "No providers configured"@
        },
{
    let searching = match &state.screen {
        UiScreen::List(list) => list.search.query.unicode_len() > 0,
        _ => false,
    };
    if searching {
        String::from_str("No providers match the current search")
    } else {
        String::from_str("No providers configured")
    }
}

/// Column widths of the provider and template tables: marker, name, and the
/// least width of the base URL, wider from 100 columns on.
pub fn table_widths(width: u16) -> (w: (u16, u16, u16))
    ensures
        w == if width >= 100 {
            (2u16, 22u16, 24u16)
        } else {
            (2u16, 16u16, 18u16)
        },
{
    if width >= 100 {
        (2, 22, 24)
    } else {
        (2, 16, 18)
    }
}

} // verus!
