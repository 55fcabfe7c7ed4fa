use vstd::prelude::*;
use crate::strmap::StrMap;

verus! {

pub open spec fn opt_view(o: Option<String>) -> Option<Seq<char>> {
    match o {
        Some(s) => Some(s@),
        None => None,
    }
}

pub fn clone_opt(o: &Option<String>) -> (r: Option<String>)
    ensures
        opt_view(r) == opt_view(*o),
{
    match o {
        Some(s) => Some(s.clone()),
        None => None,
    }
}

/// One configured endpoint.
#[derive(Debug, Clone, PartialEq, Eq)]
pub struct ProviderConfig {
    pub name: String,
    pub base_url: String,
    pub env_key: String,
    pub api_key: String,
    pub model: Option<String>,
    pub last_used_at: Option<String>,
    pub notes: Option<String>,
}

/// A provider by the texts it holds.
pub struct ProviderView {
    pub name: Seq<char>,
    pub base_url: Seq<char>,
    pub env_key: Seq<char>,
    pub api_key: Seq<char>,
    pub model: Option<Seq<char>>,
    pub last_used_at: Option<Seq<char>>,
    pub notes: Option<Seq<char>>,
}

impl View for ProviderConfig {
    type V = ProviderView;

    open spec fn view(&self) -> ProviderView {
        ProviderView {
            name: self.name@,
            base_url: self.base_url@,
            env_key: self.env_key@,
            api_key: self.api_key@,
            model: opt_view(self.model),
            last_used_at: opt_view(self.last_used_at),
            notes: opt_view(self.notes),
        }
    }
}

impl ProviderConfig {
    /// A field-by-field copy.
    pub fn copy(&self) -> (r: ProviderConfig)
        ensures
            r@ == self@,
    {
        ProviderConfig {
            name: self.name.clone(),
            base_url: self.base_url.clone(),
            env_key: self.env_key.clone(),
            api_key: self.api_key.clone(),
            model: clone_opt(&self.model),
            last_used_at: clone_opt(&self.last_used_at),
            notes: clone_opt(&self.notes),
        }
    }
}

/// The whole configuration: a format version and the providers by name.
pub struct AppConfig {
    pub version: u32,
    pub providers: StrMap<ProviderConfig>,
}

impl Default for AppConfig {
    fn default() -> (c: AppConfig)
        ensures
            c.version == 1,
            c.providers.as_map() == Map::<Seq<char>, ProviderView>::empty(),
            c.providers.keys().len() == 0,
    {
        AppConfig { version: 1, providers: StrMap::new() }
    }
}

/// `std::path::PathBuf`, carried through as an opaque value.
#[verifier::external_type_specification]
#[verifier::external_body]
pub struct ExPathBuf(std::path::PathBuf);

/// Where the configuration lives on disk.
pub struct ConfigStore {
    path: std::path::PathBuf,
}

impl ConfigStore {
    pub closed spec fn spec_path(&self) -> std::path::PathBuf {
        self.path
    }

    pub fn new(path: std::path::PathBuf) -> (s: ConfigStore)
        ensures
            s.spec_path() == path,
    {
        ConfigStore { path }
    }

    pub fn path(&self) -> (p: &std::path::PathBuf)
        ensures
            *p == self.spec_path(),
    {
        &self.path
    }
}

} // verus!
