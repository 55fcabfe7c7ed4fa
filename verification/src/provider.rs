use vstd::prelude::*;
use vstd::string::{StrSliceExecFns, StringExecFns};
use crate::config::{clone_opt, opt_view, AppConfig, ProviderConfig, ProviderView};
use crate::envkey::{
    env_key_for, env_keys, generate_env_key, is_digit, is_upper, valid_env_key,
};
use crate::error::{not_found_text, AppError};
use crate::provider_templates::ProviderTemplate;
use crate::text::{blank, chars_of, is_blank};

verus! {

/// What the user supplies for a new provider.
#[derive(Debug, Clone)]
pub struct NewProviderInput {
    pub name: String,
    pub base_url: String,
    pub api_key: String,
    pub model: Option<String>,
    pub notes: Option<String>,
}

pub struct NewInputView {
    pub name: Seq<char>,
    pub base_url: Seq<char>,
    pub api_key: Seq<char>,
    pub model: Option<Seq<char>>,
    pub notes: Option<Seq<char>>,
}

impl View for NewProviderInput {
    type V = NewInputView;

    open spec fn view(&self) -> NewInputView {
        NewInputView {
            name: self.name@,
            base_url: self.base_url@,
            api_key: self.api_key@,
            model: opt_view(self.model),
            notes: opt_view(self.notes),
        }
    }
}

/// Changes to an existing provider; `None` keeps the current value.
#[derive(Debug, Clone)]
pub struct EditProviderInput {
    pub name: Option<String>,
    pub base_url: Option<String>,
    pub api_key: Option<String>,
    pub model: Option<String>,
    pub notes: Option<String>,
}

pub struct EditInputView {
    pub name: Option<Seq<char>>,
    pub base_url: Option<Seq<char>>,
    pub api_key: Option<Seq<char>>,
    pub model: Option<Seq<char>>,
    pub notes: Option<Seq<char>>,
}

impl View for EditProviderInput {
    type V = EditInputView;

    open spec fn view(&self) -> EditInputView {
        EditInputView {
            name: opt_view(self.name),
            base_url: opt_view(self.base_url),
            api_key: opt_view(self.api_key),
            model: opt_view(self.model),
            notes: opt_view(self.notes),
        }
    }
}

/// A generated environment variable name: `CXCM_KEY_` and eight hex digits,
/// which `validate_env_key` accepts.
pub open spec fn valid_env_key_of(k: Seq<char>) -> bool {
    &&& exists|n: u32| k == env_key_for(n)
    &&& valid_env_key(k)
    &&& k.len() == 17
}

/// `<field> cannot be empty`
pub open spec fn required_text(field: Seq<char>) -> Seq<char> {
    field + " cannot be empty"@
}

/// `provider '<name>' already exists`
pub open spec fn exists_text(name: Seq<char>) -> Seq<char> {
    "provider '"@ + name + "' already exists"@
}

/// `env_key '<value>' is invalid`
pub open spec fn invalid_env_key_text(value: Seq<char>) -> Seq<char> {
    "env_key '"@ + value + "' is invalid"@
}

/// Why a new provider would be refused, given the names already taken; the
/// checks run in this order.
pub open spec fn new_provider_problem(taken: Set<Seq<char>>, input: NewInputView) -> Option<
    Seq<char>,
> {
    if is_blank(input.name) {
        Some(required_text("name"@))
    } else if is_blank(input.base_url) {
        Some(required_text("base_url"@))
    } else if is_blank(input.api_key) {
        Some(required_text("api_key"@))
    } else if taken.contains(input.name) {
        Some(exists_text(input.name))
    } else {
        None
    }
}

/// The provider that a new input becomes, with the environment variable name `env_key`.
pub open spec fn new_provider_view(input: NewInputView, env_key: Seq<char>) -> ProviderView {
    ProviderView {
        name: input.name,
        base_url: input.base_url,
        env_key,
        api_key: input.api_key,
        model: input.model,
        last_used_at: None,
        notes: input.notes,
    }
}

pub open spec fn or_keep(o: Option<Seq<char>>, current: Seq<char>) -> Seq<char> {
    match o {
        Some(v) => v,
        None => current,
    }
}

pub open spec fn opt_or(o: Option<Seq<char>>, current: Option<Seq<char>>) -> Option<Seq<char>> {
    match o {
        Some(v) => Some(v),
        None => current,
    }
}

/// An edited provider: given fields replace the current ones, a blank API key
/// keeps the current key, and the environment variable name and last-use time
/// never change.
pub open spec fn edited_view(existing: ProviderView, input: EditInputView) -> ProviderView {
    ProviderView {
        name: or_keep(input.name, existing.name),
        base_url: or_keep(input.base_url, existing.base_url),
        env_key: existing.env_key,
        api_key: match input.api_key {
            Some(v) => if is_blank(v) {
                existing.api_key
            } else {
                v
            },
            None => existing.api_key,
        },
        model: opt_or(input.model, existing.model),
        last_used_at: existing.last_used_at,
        notes: opt_or(input.notes, existing.notes),
    }
}

/// Why an edit would be refused, checks in this order.
pub open spec fn edit_problem(existing: ProviderView, input: EditInputView) -> Option<Seq<char>> {
    let e = edited_view(existing, input);
    if is_blank(e.name) {
        Some(required_text("name"@))
    } else if is_blank(e.base_url) {
        Some(required_text("base_url"@))
    } else {
        None
    }
}

fn validate_required(value: &str, field: &str) -> (r: Result<(), AppError>)
    ensures
        r is Ok == !is_blank(value@),
        r matches Err(e) ==> e matches AppError::Message(m) && m@ == required_text(field@),
{
    if blank(value) {
        return Err(AppError::validation(String::from_str(field).concat(" cannot be empty")));
    }
    Ok(())
}

fn validate_name_available(config: &AppConfig, name: &str) -> (r: Result<(), AppError>)
    ensures
        r is Ok == !config.providers.as_map().contains_key(name@),
        r matches Err(e) ==> e matches AppError::Message(m) && m@ == exists_text(name@),
{
    if config.providers.contains_key(name) {
        return Err(
            AppError::validation(
                String::from_str("provider '").concat(name).concat("' already exists"),
            ),
        );
    }
    Ok(())
}

fn env_key_char_ok(c: char, first: bool) -> (b: bool)
    ensures
        b == (c == '_' || is_upper(c) || (!first && is_digit(c))),
{
    c == '_' || ('A' <= c && c <= 'Z') || (!first && '0' <= c && c <= '9')
}

/// Accepts names made of `_`, upper-case letters and digits, not starting with a digit.
fn validate_env_key(value: &str) -> (r: Result<(), AppError>)
    ensures
        r is Ok == valid_env_key(value@),
        r matches Err(e) ==> e matches AppError::Message(m) && m@ == invalid_env_key_text(value@),
{
    let cs = chars_of(value);
    let mut ok = cs.len() > 0 && env_key_char_ok(cs[0], true);
    let mut i: usize = 1;
    while ok && i < cs.len()
        invariant
            cs@ == value@,
            1 <= i,
            ok ==> cs@.len() > 0 && (cs@[0] == '_' || is_upper(cs@[0])),
            ok ==> forall|j: int| 1 <= j < i && j < cs@.len() ==> (#[trigger] cs@[j] == '_'
                || is_upper(cs@[j]) || is_digit(cs@[j])),
            !ok ==> !valid_env_key(value@),
        decreases cs@.len() - i,
    {
        if !env_key_char_ok(cs[i], false) {
            ok = false;
        }
        i = i + 1;
    }
    if ok {
        Ok(())
    } else {
        Err(
            AppError::validation(
                String::from_str("env_key '").concat(value).concat("' is invalid"),
            ),
        )
    }
}

/// Adds a provider under its name, with a freshly generated environment
/// variable name for its API key.
pub fn insert_provider(config: &mut AppConfig, input: NewProviderInput) -> (r: Result<
    (),
    AppError,
>)
    requires
        old(config).providers.values().len() < 0x1_0000_0000,
    ensures
        final(config).version == old(config).version,
        r is Ok == (new_provider_problem(old(config).providers.as_map().dom(), input@) is None),
        r matches Err(e) ==> new_provider_problem(old(config).providers.as_map().dom(), input@)
            == Some(e.text()) && e is Message && final(config).providers.as_map() == old(
            config,
        ).providers.as_map(),
        r is Ok ==> {
            let p = final(config).providers.as_map()[input@.name];
            &&& final(config).providers.as_map() == old(config).providers.as_map().insert(
                input@.name,
                p,
            )
            &&& p == new_provider_view(input@, p.env_key)
            &&& p.name == input@.name
            &&& p.base_url == input@.base_url
            &&& p.api_key == input@.api_key
            &&& p.model == input@.model
            &&& p.notes == input@.notes
            &&& p.last_used_at is None
            &&& exists|n: u32| p.env_key == env_key_for(n)
            &&& valid_env_key(p.env_key)
            &&& p.env_key.len() == 17
            &&& !env_keys(old(config).providers.values()).contains(p.env_key)
        },
{
    validate_required(input.name.as_str(), "name")?;
    validate_required(input.base_url.as_str(), "base_url")?;
    validate_required(input.api_key.as_str(), "api_key")?;
    validate_name_available(config, input.name.as_str())?;
    let env_key = generate_env_key(config);
    validate_env_key(env_key.as_str())?;
    let ghost iv = input@;
    let ghost ek = env_key@;
    let name = input.name.clone();
    config.providers.insert(
        name,
        ProviderConfig {
            name: input.name,
            base_url: input.base_url,
            env_key,
            api_key: input.api_key,
            model: input.model,
            last_used_at: None,
            notes: input.notes,
        },
    );
    assert(final(config).providers.as_map()[iv.name] == new_provider_view(iv, ek));
    Ok(())
}

/// A provider with the edit applied, or why the edit is refused.
pub fn apply_edit(existing: &ProviderConfig, input: EditProviderInput) -> (r: Result<
    ProviderConfig,
    AppError,
>)
    ensures
        r is Ok == (edit_problem(existing@, input@) is None),
        r matches Ok(p) ==> p@ == edited_view(existing@, input@),
        r matches Ok(p) ==> {
            &&& input@.name is Some ==> p@.name == input@.name->0
            &&& input@.base_url is Some ==> p@.base_url == input@.base_url->0
            &&& input@.model is Some ==> p@.model == input@.model
            &&& input@.notes is Some ==> p@.notes == input@.notes
            &&& input@.model is None ==> p@.model == existing@.model
            &&& input@.notes is None ==> p@.notes == existing@.notes
            &&& p@.env_key == existing@.env_key
            &&& p@.last_used_at == existing@.last_used_at
        },
        r matches Err(e) ==> e is Message && edit_problem(existing@, input@) == Some(e.text()),
{
    let ghost iv = input@;
    let name = match input.name {
        Some(n) => n,
        None => existing.name.clone(),
    };
    validate_required(name.as_str(), "name")?;
    let base_url = match input.base_url {
        Some(b) => b,
        None => existing.base_url.clone(),
    };
    validate_required(base_url.as_str(), "base_url")?;
    let api_key = match input.api_key {
        Some(value) => if blank(value.as_str()) {
            existing.api_key.clone()
        } else {
            value
        },
        None => existing.api_key.clone(),
    };
    let model = match input.model {
        Some(m) => Some(m),
        None => clone_opt(&existing.model),
    };
    let notes = match input.notes {
        Some(n) => Some(n),
        None => clone_opt(&existing.notes),
    };
    Ok(
        ProviderConfig {
            name,
            base_url,
            env_key: existing.env_key.clone(),
            api_key,
            model,
            last_used_at: clone_opt(&existing.last_used_at),
            notes,
        },
    )
}

/// Removes the provider called `name`.
pub fn remove_provider(config: &mut AppConfig, name: &str) -> (r: Result<(), AppError>)
    ensures
        final(config).version == old(config).version,
        final(config).providers.as_map() == old(config).providers.as_map().remove(name@),
        r is Ok == old(config).providers.as_map().contains_key(name@),
        r matches Err(e) ==> e matches AppError::Message(m) && m@ == not_found_text(name@),
{
    match config.providers.remove(name) {
        Some(_) => Ok(()),
        None => Err(AppError::provider_not_found(name)),
    }
}

/// The last (up to) four characters of a key, behind eight asterisks.
pub open spec fn masked(value: Seq<char>) -> Seq<char> {
    let start = if value.len() > 4 {
        value.len() - 4
    } else {
        0
    };
    "********"@ + value.subrange(start, value.len() as int)
}

pub fn mask_api_key(value: &str) -> (r: String)
    ensures
        r@ == masked(value@),
{
    let n = value.unicode_len();
    let start = if n > 4 {
        n - 4
    } else {
        0
    };
    let suffix = value.substring_char(start, n);
    String::from_str("********").concat(suffix)
}

pub open spec fn or_dash(o: Option<Seq<char>>) -> Seq<char> {
    match o {
        Some(s) => s,
        None => "-"@,
    }
}

/// One listing line: `name | base_url | env_key | model | last_used_at | notes`,
/// with `-` for an absent value.
pub open spec fn provider_line(p: ProviderView) -> Seq<char> {
    p.name + " | "@ + p.base_url + " | "@ + p.env_key + " | "@ + or_dash(p.model) + " | "@
        + or_dash(p.last_used_at) + " | "@ + or_dash(p.notes)
}

fn or_dash_str(o: &Option<String>) -> (r: &str)
    ensures
        r@ == or_dash(opt_view(*o)),
{
    match o {
        Some(s) => s.as_str(),
        None => "-",
    }
}

fn provider_line_exec(p: &ProviderConfig) -> (r: String)
    ensures
        r@ == provider_line(p@),
{
    String::from_str(p.name.as_str()).concat(" | ").concat(p.base_url.as_str()).concat(
        " | ",
    ).concat(p.env_key.as_str()).concat(" | ").concat(or_dash_str(&p.model)).concat(
        " | ",
    ).concat(or_dash_str(&p.last_used_at)).concat(" | ").concat(or_dash_str(&p.notes))
}

/// One line per provider, in name order.
pub fn render_provider_lines(config: &AppConfig) -> (lines: Vec<String>)
    ensures
        lines@.len() == config.providers.values().len(),
        forall|i: int| 0 <= i < lines@.len() ==> #[trigger] lines@[i]@ == provider_line(
            config.providers.values()[i],
        ),
{
    let n = config.providers.len();
    let mut lines: Vec<String> = Vec::new();
    for i in 0..n
        invariant
            n == config.providers.values().len(),
            n == config.providers.keys().len(),
            lines@.len() == i,
            forall|j: int| 0 <= j < i ==> #[trigger] lines@[j]@ == provider_line(
                config.providers.values()[j],
            ),
    {
        lines.push(provider_line_exec(config.providers.value_at(i)));
    }
    lines
}

/// A template's id is the suggested provider name.
pub fn default_template_provider_name(template: &ProviderTemplate) -> (r: String)
    ensures
        r@ == template.id@,
{
    template.id.clone()
}

/// A new-provider input with the template's endpoint, model and notes.
pub fn new_provider_input_from_template(
    template: &ProviderTemplate,
    name: String,
    api_key: String,
) -> (r: NewProviderInput)
    ensures
        r@ == (NewInputView {
            name: name@,
            base_url: template.base_url@,
            api_key: api_key@,
            model: template@.default_model,
            notes: template@.notes,
        }),
{
    NewProviderInput {
        name,
        base_url: template.base_url.clone(),
        api_key,
        model: clone_opt(&template.default_model),
        notes: clone_opt(&template.notes),
    }
}

} // verus!
