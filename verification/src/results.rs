//! Outcomes and descriptions of compliance checks.
use vstd::prelude::*;

use crate::system_access::SystemAccess;

verus! {

/// The outcome of a single check.
#[derive(Debug, Clone, Copy, PartialEq, Eq, Structural)]
pub enum CheckStatus {
    /// The system satisfies the check.
    PASS,
    /// The system violates the check.
    FAIL,
    /// The check could not be decided automatically and needs a manual audit.
    SKIP,
}

impl Default for CheckStatus {
    fn default() -> (s: Self)
        ensures
            s == CheckStatus::SKIP,
    {
        CheckStatus::SKIP
    }
}

/// What a check reports: its status and, when relevant, an explanation.
#[derive(Debug, Clone)]
pub struct CheckerResult {
    pub status: CheckStatus,
    pub error: String,
}

impl View for CheckerResult {
    type V = (CheckStatus, Seq<char>);

    open spec fn view(&self) -> (CheckStatus, Seq<char>) {
        (self.status, self.error@)
    }
}

impl CheckerResult {
    /// The result every check starts from: skipped, with no explanation.
    pub open spec fn is_initial(self) -> bool {
        self.status == CheckStatus::SKIP && self.error@ == Seq::<char>::empty()
    }
}

/// The result of a check that decided from `found`: passed when it is true, failed
/// with `unable_to_find` when it is false, and skipped with `unable_to_check` when
/// nothing could be found out.
pub open spec fn verdict(found: Option<bool>, unable_to_check: Seq<char>, unable_to_find: Seq<char>) -> (
    CheckStatus,
    Seq<char>,
) {
    match found {
        Some(true) => (CheckStatus::PASS, Seq::empty()),
        Some(false) => (CheckStatus::FAIL, unable_to_find),
        None => (CheckStatus::SKIP, unable_to_check),
    }
}

/// Builds the result that `verdict` describes.
pub fn verdict_result(found: Option<bool>, unable_to_check: &str, unable_to_find: &str) -> (r:
    CheckerResult)
    ensures
        r@ == verdict(found, unable_to_check@, unable_to_find@),
{
    match found {
        Some(true) => CheckerResult { status: CheckStatus::PASS, error: String::new() },
        Some(false) => CheckerResult { status: CheckStatus::FAIL, error: unable_to_find.to_owned() },
        None => CheckerResult { status: CheckStatus::SKIP, error: unable_to_check.to_owned() },
    }
}

/// A passed result, with no explanation.
pub fn passed() -> (r: CheckerResult)
    ensures
        r@ == (CheckStatus::PASS, Seq::<char>::empty()),
{
    CheckerResult { status: CheckStatus::PASS, error: String::new() }
}

/// A result with the given status and explanation.
pub fn outcome(status: CheckStatus, error: &str) -> (r: CheckerResult)
    ensures
        r@ == (status, error@),
{
    CheckerResult { status, error: error.to_owned() }
}

impl Default for CheckerResult {
    fn default() -> (r: Self)
        ensures
            r.is_initial(),
    {
        CheckerResult { status: CheckStatus::SKIP, error: String::new() }
    }
}

/// Whether a check runs unattended or needs a person to audit the system.
#[derive(Debug, Clone, Copy, PartialEq, Eq, Structural)]
pub enum Mode {
    Automatic,
    Manual,
}

/// Describes a check: which benchmark item it covers and how it runs.
#[derive(Debug, Clone)]
pub struct CheckerMetadata {
    pub title: String,
    pub id: String,
    pub level: u8,
    pub name: String,
    pub mode: Mode,
}

impl CheckerMetadata {
    /// Whether this metadata holds exactly the given fields.
    pub open spec fn describes(
        self,
        title: Seq<char>,
        id: Seq<char>,
        level: u8,
        name: Seq<char>,
        mode: Mode,
    ) -> bool {
        &&& self.title@ == title
        &&& self.id@ == id
        &&& self.level == level
        &&& self.name@ == name
        &&& self.mode == mode
    }
}

/// A compliance check that inspects the system through a `SystemAccess`.
pub trait Checker {
    /// Runs the check against the system.
    fn execute<S: SystemAccess>(&self, sac: &S) -> CheckerResult;

    /// Describes the check.
    fn metadata(&self) -> CheckerMetadata;
}

/// A check that cannot be performed automatically: it always asks for a manual audit.
pub struct ManualChecker {
    pub name: String,
    pub title: String,
    pub id: String,
    pub level: u8,
}

impl Checker for ManualChecker {
    fn execute<S: SystemAccess>(&self, sac: &S) -> (r: CheckerResult)
        ensures
            r@ == (CheckStatus::SKIP, "Manual check, see benchmark for audit details."@),
    {
        outcome(CheckStatus::SKIP, "Manual check, see benchmark for audit details.")
    }

    fn metadata(&self) -> (r: CheckerMetadata)
        ensures
            r.describes(self.title@, self.id@, self.level, self.name@, Mode::Manual),
    {
        CheckerMetadata {
            title: self.title.clone(),
            id: self.id.clone(),
            level: self.level,
            name: self.name.clone(),
            mode: Mode::Manual,
        }
    }
}

} // verus!
