pub mod cli;
pub mod config;
pub mod envkey;
pub mod error;
pub mod launcher;
pub mod laws;
pub mod provider;
pub mod provider_templates;
pub mod selector;
pub mod strmap;
pub mod text;
pub mod ui;

use vstd::prelude::*;
use vstd::string::StringExecFns;
use config::{AppConfig, ConfigStore, ProviderConfig, ProviderView};
use error::{not_found_text, AppError};
use launcher::{build_launch_request, is_launch_for, texts, LaunchRequest};
use provider::{
    apply_edit, edit_problem, edited_view, exists_text, insert_provider, new_provider_problem,
    new_provider_view, remove_provider, EditInputView,
};
use ui::action::{ActionView, UiAction};
use ui::state::provider_views;

verus! {

/// How the provider page goes on after an action.
#[derive(Debug, Clone, Copy, PartialEq, Eq)]
pub enum ProviderPageDispatch {
    Continue,
    Exit(i32),
}

/// The outside work an action needs next.
#[derive(Debug)]
pub enum AppStep {
    /// Nothing to do outside; the page goes on as given.
    Done(ProviderPageDispatch),
    /// The configuration changed: save it, then show the page again.
    SaveThenContinue,
    /// Start codex with `request`; when it exits, record the launch of
    /// `name`, save, and leave with its exit code.
    Launch { name: String, request: LaunchRequest },
}

/// Whether the page gives the terminal to codex before carrying out `action`.
pub open spec fn hands_off(action: ActionView) -> bool {
    action is RunSelected || action is ExecSelected
}

pub fn hands_off_terminal(action: &UiAction) -> (b: bool)
    ensures
        b == hands_off(action@),
{
    match action {
        UiAction::RunSelected(_) | UiAction::ExecSelected(_) => true,
        _ => false,
    }
}

/// Whether leaving the page after `action` erases it: only when quitting.
pub fn clears_viewport_on_exit(action: &UiAction) -> (b: bool)
    ensures
        b == (action@ is Quit),
{
    match action {
        UiAction::Quit => true,
        _ => false,
    }
}

/// The result of editing provider `orig`: the new map of providers, or the
/// text of the refusal.
pub open spec fn edit_outcome(
    m: Map<Seq<char>, ProviderView>,
    orig: Seq<char>,
    input: EditInputView,
) -> Result<Map<Seq<char>, ProviderView>, Seq<char>> {
    if !m.contains_key(orig) {
        Err(not_found_text(orig))
    } else {
        match edit_problem(m[orig], input) {
            Some(t) => Err(t),
            None => {
                let u = edited_view(m[orig], input);
                if u.name != orig && m.contains_key(u.name) {
                    Err(exists_text(u.name))
                } else {
                    Ok(m.remove(orig).insert(u.name, u))
                }
            },
        }
    }
}

/// The providers after a launch of `name` at time `now`.
pub open spec fn launched(m: Map<Seq<char>, ProviderView>, name: Seq<char>, now: Seq<char>) -> Map<
    Seq<char>,
    ProviderView,
> {
    if m.contains_key(name) {
        m.insert(name, ProviderView { last_used_at: Some(now), ..m[name] })
    } else {
        m
    }
}

/// The manager's decisions over its configuration; saving, launching and
/// the clock are the caller's.
pub struct App {
    store: ConfigStore,
    config: AppConfig,
}

impl App {
    pub closed spec fn cfg(&self) -> AppConfig {
        self.config
    }

    pub closed spec fn spec_store(&self) -> ConfigStore {
        self.store
    }

    pub fn new(store: ConfigStore, config: AppConfig) -> (app: App)
        ensures
            app.cfg() == config,
            app.spec_store() == store,
    {
        App { store, config }
    }

    pub fn config(&self) -> (c: &AppConfig)
        ensures
            *c == self.cfg(),
    {
        &self.config
    }

    pub fn store(&self) -> (s: &ConfigStore)
        ensures
            *s == self.spec_store(),
    {
        &self.store
    }

    /// Copies of all providers, in name order.
    pub fn providers_for_ui(&self) -> (v: Vec<ProviderConfig>)
        ensures
            provider_views(v@) == self.cfg().providers.values(),
    {
        let n = self.config.providers.len();
        let mut v: Vec<ProviderConfig> = Vec::new();
        for i in 0..n
            invariant
                n == self.config.providers.values().len(),
                n == self.config.providers.keys().len(),
                provider_views(v@) == self.config.providers.values().subrange(0, i as int),
        {
            let p = self.config.providers.value_at(i).copy();
            let ghost before = v@;
            v.push(p);
            assert(provider_views(v@) =~= provider_views(before).push(p@));
            assert(provider_views(v@) =~= self.config.providers.values().subrange(0, i + 1));
        }
        assert(self.config.providers.values().subrange(0, n as int) =~= self.config.providers.values());
        v
    }

    /// The providers to choose from before a launch; none configured is an error.
    pub fn launch_candidates(&self) -> (r: Result<Vec<ProviderConfig>, AppError>)
        ensures
            self.cfg().providers.keys().len() == 0 ==> (r matches Err(e) && e is NoProvidersConfigured),
            self.cfg().providers.keys().len() > 0 ==> (r matches Ok(v) && provider_views(v@)
                == self.cfg().providers.values()),
    {
        let providers = self.providers_for_ui();
        if self.config.providers.is_empty() {
            return Err(AppError::NoProvidersConfigured);
        }
        Ok(providers)
    }

    /// The codex invocation for provider `name`.
    pub fn prepare_launch(&self, name: &str, passthrough_args: Vec<String>) -> (r: Result<
        LaunchRequest,
        AppError,
    >)
        ensures
            r is Ok == self.cfg().providers.as_map().contains_key(name@),
            r matches Ok(req) ==> is_launch_for(
                req,
                self.cfg().providers.as_map()[name@],
                texts(passthrough_args@),
            ),
            r matches Err(e) ==> e matches AppError::Message(m) && m@ == not_found_text(name@),
    {
        match self.config.providers.get(name) {
            Some(provider) => Ok(build_launch_request(provider, passthrough_args)),
            None => Err(AppError::provider_not_found(name)),
        }
    }

    /// Notes that provider `name` was launched at `now`.
    pub fn record_launch(&mut self, name: &str, now: String)
        ensures
            final(self).cfg().version == old(self).cfg().version,
            final(self).cfg().providers.as_map() == launched(
                old(self).cfg().providers.as_map(),
                name@,
                now@,
            ),
            final(self).spec_store() == old(self).spec_store(),
    {
        let current = match self.config.providers.get(name) {
            Some(p) => p.copy(),
            None => {
                return;
            },
        };
        let updated = ProviderConfig { last_used_at: Some(now), ..current };
        self.config.providers.insert(String::from_str(name), updated);
    }

    /// Carries out a page action on the configuration and says what outside
    /// work comes next.
    pub fn execute_ui_action(&mut self, action: UiAction, passthrough_args: Vec<String>) -> (r:
        Result<AppStep, AppError>)
        requires
            action@ is SubmitAdd ==> old(self).cfg().providers.values().len() < 0x1_0000_0000,
        ensures
            final(self).cfg().version == old(self).cfg().version,
            final(self).spec_store() == old(self).spec_store(),
            r is Err ==> final(self).cfg().providers.as_map() == old(self).cfg().providers.as_map(),
            !(r matches Ok(AppStep::SaveThenContinue)) ==> final(self).cfg().providers.as_map() == old(
                self,
            ).cfg().providers.as_map(),
            ({
                let m0 = old(self).cfg().providers.as_map();
                let m1 = final(self).cfg().providers.as_map();
                match action@ {
                    ActionView::Continue => m1 == m0 && (r matches Ok(
                        AppStep::Done(ProviderPageDispatch::Continue),
                    )),
                    ActionView::Quit => m1 == m0 && (r matches Ok(
                        AppStep::Done(ProviderPageDispatch::Exit(0)),
                    )),
                    ActionView::SubmitAdd(input) => match new_provider_problem(m0.dom(), input) {
                        Some(t) => m1 == m0 && (r matches Err(e) && e.text() == t),
                        None => (r matches Ok(AppStep::SaveThenContinue)) && {
                            let p = m1[input.name];
                            &&& m1 == m0.insert(input.name, p)
                            &&& p == new_provider_view(input, p.env_key)
                            &&& provider::valid_env_key_of(p.env_key)
                            &&& !envkey::env_keys(old(self).cfg().providers.values()).contains(
                                p.env_key,
                            )
                        },
                    },
                    ActionView::SubmitEdit { original_name, input } => match edit_outcome(
                        m0,
                        original_name,
                        input,
                    ) {
                        Ok(m2) => m1 == m2 && (r matches Ok(AppStep::SaveThenContinue)),
                        Err(t) => m1 == m0 && (r matches Err(e) && e.text() == t),
                    },
                    ActionView::DeleteSelected(name) => m1 == m0.remove(name) && if m0.contains_key(
                        name,
                    ) {
                        r matches Ok(AppStep::SaveThenContinue)
                    } else {
                        (r matches Err(e) && e.text() == not_found_text(name))
                    },
                    ActionView::RunSelected(name) | ActionView::ExecSelected(name) => m1 == m0 && if m0.contains_key(
                        name,
                    ) {
                        (r matches Ok(AppStep::Launch { name: n, request }) && n@ == name
                            && is_launch_for(request, m0[name], texts(passthrough_args@)))
                    } else {
                        (r matches Err(e) && e.text() == not_found_text(name))
                    },
                }
            }),
    {
        match action {
            UiAction::Continue => Ok(AppStep::Done(ProviderPageDispatch::Continue)),
            UiAction::Quit => Ok(AppStep::Done(ProviderPageDispatch::Exit(0))),
            UiAction::SubmitAdd(input) => {
                match insert_provider(&mut self.config, input) {
                    Ok(()) => Ok(AppStep::SaveThenContinue),
                    Err(e) => Err(e),
                }
            },
            UiAction::SubmitEdit { original_name, input } => {
                let existing = match self.config.providers.get(original_name.as_str()) {
                    Some(p) => p.copy(),
                    None => {
                        return Err(AppError::provider_not_found(original_name.as_str()));
                    },
                };
                let updated = match apply_edit(&existing, input) {
                    Ok(u) => u,
                    Err(e) => {
                        return Err(e);
                    },
                };
                if !(updated.name == original_name) && self.config.providers.contains_key(
                    updated.name.as_str(),
                ) {
                    return Err(
                        AppError::validation(
                            String::from_str("provider '").concat(updated.name.as_str()).concat(
                                "' already exists",
                            ),
                        ),
                    );
                }
                self.config.providers.remove(original_name.as_str());
                let key = updated.name.clone();
                self.config.providers.insert(key, updated);
                Ok(AppStep::SaveThenContinue)
            },
            UiAction::DeleteSelected(name) => {
                match remove_provider(&mut self.config, name.as_str()) {
                    Ok(()) => Ok(AppStep::SaveThenContinue),
                    Err(e) => Err(e),
                }
            },
            UiAction::RunSelected(name) | UiAction::ExecSelected(name) => {
                match self.prepare_launch(name.as_str(), passthrough_args) {
                    Ok(request) => Ok(AppStep::Launch { name, request }),
                    Err(e) => Err(e),
                }
            },
        }
    }
}

} // verus!
