//! Typed failures surfaced to the caller, one variant per condition the core
//! can report.

use vstd::prelude::*;

verus! {

/// Failure taxonomy of the core.
///
/// - `UnsupportedOperation`: the relevant selection is none, or the selected
///   variant has no initializer.
/// - `BackendBuildFailure`: session initialization failed for a selected
///   variant; the whole context construction aborts.
/// - `UnknownAlias`: a short identifier was never allocated in this scope.
/// - `AliasPersistenceFailure`: durable storage failed while touching the
///   alias table; previously committed aliases stay intact.
/// - `GraphReconstructionInconsistency`: a thread edge references a child
///   envelope that is not part of the fetched set.
/// - `GetDefaultAccountConfig` / `GetAccountConfig`: account lookup failures
///   when resolving a configuration.
#[derive(Debug)]
pub enum Error {
    UnsupportedOperation,
    BackendBuildFailure(crate::backend::BackendVariant),
    UnknownAlias(String),
    AliasPersistenceFailure,
    GraphReconstructionInconsistency(String),
    GetDefaultAccountConfig,
    GetAccountConfig(String),
    CannotParseOutputFmt(String),
}

impl Error {
    /// The user-facing message of this failure.
    pub fn to_display_string(&self) -> (r: String)
        ensures
            match *self {
                Error::UnsupportedOperation => r@ == "cannot resolve operation: no backend supports it"@,
                Error::BackendBuildFailure(v) => r@ == "cannot build backend context: "@
                    + crate::backend::spec_variant_label(v),
                Error::UnknownAlias(ref a) => r@ == "cannot get message id from alias "@ + a@,
                Error::AliasPersistenceFailure => r@ == "cannot persist alias"@,
                Error::GraphReconstructionInconsistency(ref c) => r@
                    == "cannot rebuild thread graph: unknown envelope "@ + c@,
                Error::GetDefaultAccountConfig => r@
                    == "cannot find default account configuration"@,
                Error::GetAccountConfig(ref n) => r@ == "cannot find configuration for account "@
                    + n@,
                Error::CannotParseOutputFmt(ref s) => r@ == "cannot parse output format "@ + s@,
            },
    {
        match self {
            Error::UnsupportedOperation => {
                "cannot resolve operation: no backend supports it".to_owned()
            },
            Error::BackendBuildFailure(v) => {
                let mut r = "cannot build backend context: ".to_owned();
                let label = v.to_string();
                r.append(label.as_str());
                r
            },
            Error::UnknownAlias(a) => {
                let mut r = "cannot get message id from alias ".to_owned();
                r.append(a.as_str());
                r
            },
            Error::AliasPersistenceFailure => "cannot persist alias".to_owned(),
            Error::GraphReconstructionInconsistency(c) => {
                let mut r = "cannot rebuild thread graph: unknown envelope ".to_owned();
                r.append(c.as_str());
                r
            },
            Error::GetDefaultAccountConfig => {
                "cannot find default account configuration".to_owned()
            },
            Error::GetAccountConfig(n) => {
                let mut r = "cannot find configuration for account ".to_owned();
                r.append(n.as_str());
                r
            },
            Error::CannotParseOutputFmt(s) => {
                let mut r = "cannot parse output format ".to_owned();
                r.append(s.as_str());
                r
            },
        }
    }
}

} // verus!
