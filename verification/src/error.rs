//! Why a request is turned down.

use vstd::prelude::*;

verus! {

/// The reasons for which the controller itself refuses a request. A refusal
/// never changes any record.
#[derive(Clone, Copy, Debug, PartialEq, Eq, Structural)]
pub enum LumiError {
    /// The issuer's record is switched off.
    IssuerInactive,
    /// The amount would take the issuer's total for the day over the cap.
    DailyCapExceeded,
    /// The caller is not the administrator, or no issuer record is bound to it.
    Unauthorized,
    /// The configuration slot is already taken.
    AlreadyInitialized,
    /// The wallet already has an issuer record under this configuration.
    AlreadyExists,
}

impl LumiError {
    /// The message of each error, as a sequence of characters.
    pub open spec fn text(self) -> Seq<char> {
        match self {
            LumiError::IssuerInactive => "Issuer is inactive"@,
            LumiError::DailyCapExceeded => "Daily cap exceeded"@,
            LumiError::Unauthorized => "Unauthorized"@,
            LumiError::AlreadyInitialized => "Already initialized"@,
            LumiError::AlreadyExists => "Already exists"@,
        }
    }

    /// A short message for a person to read.
    pub fn message(&self) -> (message: &'static str)
        ensures
            message@ == self.text(),
    {
        match self {
            LumiError::IssuerInactive => "Issuer is inactive",
            LumiError::DailyCapExceeded => "Daily cap exceeded",
            LumiError::Unauthorized => "Unauthorized",
            LumiError::AlreadyInitialized => "Already initialized",
            LumiError::AlreadyExists => "Already exists",
        }
    }
}

/// Why an issuance did not go through: the controller refused it, or the
/// token ledger failed to mint. What the ledger reported is handed on as it
/// came.
#[derive(Debug, PartialEq, Eq)]
pub enum IssueError<E> {
    Rejected(LumiError),
    Ledger(E),
}

} // verus!
