use vstd::prelude::*;
use vstd::string::StringExecFns;

verus! {

/// Everything that can go wrong in the manager.
#[derive(Debug)]
pub enum AppError {
    /// A message shown as it is.
    Message(String),
    HomeDirectoryUnavailable,
    NoProvidersConfigured,
    /// An input/output failure, by its message.
    Io(String),
}

pub open spec fn home_unavailable_text() -> Seq<char> {
    "could not resolve the home directory"@
}

pub open spec fn no_providers_text() -> Seq<char> {
    "no providers configured; run `codex-nano-manager add` first"@
}

/// The text of `provider '<name>' not found`.
pub open spec fn not_found_text(name: Seq<char>) -> Seq<char> {
    "provider '"@ + name + "' not found"@
}

impl AppError {
    /// The text shown to the user for this error.
    pub open spec fn text(&self) -> Seq<char> {
        match self {
            AppError::Message(m) => m@,
            AppError::HomeDirectoryUnavailable => home_unavailable_text(),
            AppError::NoProvidersConfigured => no_providers_text(),
            AppError::Io(m) => m@,
        }
    }

    pub fn validation(message: String) -> (r: AppError)
        ensures
            r matches AppError::Message(m) && m@ == message@,
    {
        AppError::Message(message)
    }

    pub fn provider_not_found(name: &str) -> (r: AppError)
        ensures
            r matches AppError::Message(m) && m@ == not_found_text(name@),
    {
        let m = String::from_str("provider '").concat(name).concat("' not found");
        AppError::Message(m)
    }

    /// The text shown to the user for this error.
    pub fn message(&self) -> (s: String)
        ensures
            s@ == self.text(),
    {
        match self {
            AppError::Message(m) => m.clone(),
            AppError::HomeDirectoryUnavailable => String::from_str(
                "could not resolve the home directory",
            ),
            AppError::NoProvidersConfigured => String::from_str(
                "no providers configured; run `codex-nano-manager add` first",
            ),
            AppError::Io(m) => m.clone(),
        }
    }
}

} // verus!
