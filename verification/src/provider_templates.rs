use vstd::prelude::*;
use vstd::string::StringExecFns;
use crate::config::{clone_opt, opt_view};
use crate::error::AppError;

verus! {

/// A ready-made endpoint that a new provider can start from.
#[derive(Debug, Clone, PartialEq, Eq)]
pub struct ProviderTemplate {
    pub id: String,
    pub display_name: String,
    pub base_url: String,
    pub default_model: Option<String>,
    pub notes: Option<String>,
}

pub struct TemplateView {
    pub id: Seq<char>,
    pub display_name: Seq<char>,
    pub base_url: Seq<char>,
    pub default_model: Option<Seq<char>>,
    pub notes: Option<Seq<char>>,
}

impl View for ProviderTemplate {
    type V = TemplateView;

    open spec fn view(&self) -> TemplateView {
        TemplateView {
            id: self.id@,
            display_name: self.display_name@,
            base_url: self.base_url@,
            default_model: opt_view(self.default_model),
            notes: opt_view(self.notes),
        }
    }
}

impl ProviderTemplate {
    pub fn copy(&self) -> (r: ProviderTemplate)
        ensures
            r@ == self@,
    {
        ProviderTemplate {
            id: self.id.clone(),
            display_name: self.display_name.clone(),
            base_url: self.base_url.clone(),
            default_model: clone_opt(&self.default_model),
            notes: clone_opt(&self.notes),
        }
    }
}

/// One row of the template picker: a built-in template or a custom endpoint.
#[derive(Debug, Clone, PartialEq, Eq)]
pub enum TemplateChoice {
    BuiltIn(ProviderTemplate),
    Custom,
}

pub enum ChoiceView {
    BuiltIn(TemplateView),
    Custom,
}

impl View for TemplateChoice {
    type V = ChoiceView;

    open spec fn view(&self) -> ChoiceView {
        match self {
            TemplateChoice::BuiltIn(t) => ChoiceView::BuiltIn(t@),
            TemplateChoice::Custom => ChoiceView::Custom,
        }
    }
}

impl TemplateChoice {
    pub fn copy(&self) -> (r: TemplateChoice)
        ensures
            r@ == self@,
    {
        match self {
            TemplateChoice::BuiltIn(t) => TemplateChoice::BuiltIn(t.copy()),
            TemplateChoice::Custom => TemplateChoice::Custom,
        }
    }
}

pub open spec fn ggboom_template() -> TemplateView {
    TemplateView {
        id: "ggboom"@,
        display_name: "GGBoom"@,
        base_url: "https://ai.qaq.al"@,
        default_model: None,
        notes: Some("GGBoom OpenAI-compatible endpoint"@),
    }
}

pub open spec fn quickly_template() -> TemplateView {
    TemplateView {
        id: "quickly"@,
        display_name: "Quickly"@,
        base_url: "https://sub.jlypx.de"@,
        default_model: None,
        notes: None,
    }
}

/// The templates that ship with the manager, in picker order.
pub open spec fn builtin_template_views() -> Seq<TemplateView> {
    seq![ggboom_template(), quickly_template()]
}

/// The templates that ship with the manager.
pub fn load_builtin_templates() -> (r: Result<Vec<ProviderTemplate>, AppError>)
    ensures
        r matches Ok(ts) && ts@.map_values(|t: ProviderTemplate| t@) == builtin_template_views(),
{
    let mut ts: Vec<ProviderTemplate> = Vec::new();
    ts.push(
        ProviderTemplate {
            id: String::from_str("ggboom"),
            display_name: String::from_str("GGBoom"),
            base_url: String::from_str("https://ai.qaq.al"),
            default_model: None,
            notes: Some(String::from_str("GGBoom OpenAI-compatible endpoint")),
        },
    );
    ts.push(
        ProviderTemplate {
            id: String::from_str("quickly"),
            display_name: String::from_str("Quickly"),
            base_url: String::from_str("https://sub.jlypx.de"),
            default_model: None,
            notes: None,
        },
    );
    assert(ts@.map_values(|t: ProviderTemplate| t@) =~= builtin_template_views());
    Ok(ts)
}

/// The picker rows: every built-in template, then the custom entry last.
pub open spec fn template_choice_views() -> Seq<ChoiceView> {
    builtin_template_views().map_values(|t: TemplateView| ChoiceView::BuiltIn(t)).push(
        ChoiceView::Custom,
    )
}

pub fn template_choices() -> (r: Result<Vec<TemplateChoice>, AppError>)
    ensures
        r matches Ok(cs) && cs@.map_values(|c: TemplateChoice| c@) == template_choice_views(),
{
    let templates = match load_builtin_templates() {
        Ok(ts) => ts,
        Err(e) => {
            return Err(e);
        },
    };
    let ghost tv = templates@.map_values(|t: ProviderTemplate| t@);
    let mut choices: Vec<TemplateChoice> = Vec::new();
    for i in 0..templates.len()
        invariant
            tv == templates@.map_values(|t: ProviderTemplate| t@),
            choices@.len() == i,
            choices@.map_values(|c: TemplateChoice| c@) == tv.subrange(0, i as int).map_values(
                |t: TemplateView| ChoiceView::BuiltIn(t),
            ),
    {
        let t = templates[i].copy();
        assert(t@ == tv[i as int]);
        let ghost before = choices@;
        choices.push(TemplateChoice::BuiltIn(t));
        assert(choices@ == before.push(TemplateChoice::BuiltIn(t)));
        assert forall|j: int| 0 <= j < i + 1 implies #[trigger] choices@[j]@ == ChoiceView::BuiltIn(
            tv.subrange(0, i + 1)[j],
        ) by {
            if j < i {
                assert(choices@[j] == before[j]);
                assert(before.map_values(|c: TemplateChoice| c@)[j] == before[j]@);
            }
        }
        assert(choices@.map_values(|c: TemplateChoice| c@) =~= tv.subrange(0, i + 1).map_values(
            |t: TemplateView| ChoiceView::BuiltIn(t),
        ));
    }
    choices.push(TemplateChoice::Custom);
    assert(tv.subrange(0, tv.len() as int) =~= tv);
    assert(choices@.map_values(|c: TemplateChoice| c@) =~= template_choice_views());
    Ok(choices)
}

} // verus!
