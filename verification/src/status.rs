//! Document status and its state machine.
//!
//! DRAFT -> SUBMITTED -> COMPLETED / VOIDED; a document may be voided only
//! while it is DRAFT or SUBMITTED, and completing it is allowed from the same
//! two states.

use vstd::prelude::*;
use crate::error::AppError;
use crate::text::str_eq;

verus! {

#[derive(Debug, Clone, Copy, PartialEq, Eq, Structural)]
pub enum DocStatus {
    Draft,
    Submitted,
    Completed,
    Voided,
}

pub open spec fn status_text(s: DocStatus) -> Seq<char> {
    match s {
        DocStatus::Draft => "DRAFT"@,
        DocStatus::Submitted => "SUBMITTED"@,
        DocStatus::Completed => "COMPLETED"@,
        DocStatus::Voided => "VOIDED"@,
    }
}

/// The status whose text is `t`, if any.
pub open spec fn status_of_text(t: Seq<char>) -> Option<DocStatus> {
    if t == "DRAFT"@ {
        Some(DocStatus::Draft)
    } else if t == "SUBMITTED"@ {
        Some(DocStatus::Submitted)
    } else if t == "COMPLETED"@ {
        Some(DocStatus::Completed)
    } else if t == "VOIDED"@ {
        Some(DocStatus::Voided)
    } else {
        None
    }
}

/// A document in this status may still be completed or voided.
pub open spec fn is_open(s: DocStatus) -> bool {
    s == DocStatus::Draft || s == DocStatus::Submitted
}

/// The status after a submit, where the submit is allowed.
pub open spec fn after_submit(s: DocStatus) -> Option<DocStatus> {
    if is_open(s) { Some(DocStatus::Completed) } else { None }
}

/// The status after a void, where the void is allowed.
pub open spec fn after_void(s: DocStatus) -> Option<DocStatus> {
    if is_open(s) { Some(DocStatus::Voided) } else { None }
}

/// The four status texts are pairwise distinct.
pub proof fn lemma_status_texts_distinct()
    ensures
        "DRAFT"@ != "SUBMITTED"@,
        "DRAFT"@ != "COMPLETED"@,
        "DRAFT"@ != "VOIDED"@,
        "SUBMITTED"@ != "COMPLETED"@,
        "SUBMITTED"@ != "VOIDED"@,
        "COMPLETED"@ != "VOIDED"@,
{
    reveal_strlit("DRAFT");
    reveal_strlit("SUBMITTED");
    reveal_strlit("COMPLETED");
    reveal_strlit("VOIDED");
    assert("DRAFT"@.len() != "SUBMITTED"@.len());
    assert("DRAFT"@.len() != "COMPLETED"@.len());
    assert("DRAFT"@[0] != "VOIDED"@[0]);
    assert("SUBMITTED"@[0] != "COMPLETED"@[0]);
    assert("SUBMITTED"@.len() != "VOIDED"@.len());
    assert("COMPLETED"@.len() != "VOIDED"@.len());
}

impl DocStatus {
    /// The text stored for this status.
    pub fn as_str(&self) -> (r: &'static str)
        ensures
            r@ == status_text(*self),
    {
        match self {
            DocStatus::Draft => "DRAFT",
            DocStatus::Submitted => "SUBMITTED",
            DocStatus::Completed => "COMPLETED",
            DocStatus::Voided => "VOIDED",
        }
    }

    /// Reads a stored status text; any other text is refused.
    pub fn parse(s: &str) -> (r: Result<DocStatus, AppError>)
        ensures
            status_of_text(s@) matches Some(st) ==> r == Ok::<DocStatus, AppError>(st),
            status_of_text(s@) is None ==> r matches Err(AppError::Validation(_)),
    {
        if str_eq(s, "DRAFT") {
            Ok(DocStatus::Draft)
        } else if str_eq(s, "SUBMITTED") {
            Ok(DocStatus::Submitted)
        } else if str_eq(s, "COMPLETED") {
            Ok(DocStatus::Completed)
        } else if str_eq(s, "VOIDED") {
            Ok(DocStatus::Voided)
        } else {
            let mut m = "未知的单据状态: ".to_owned();
            m.append(s);
            Err(AppError::Validation(m))
        }
    }

    /// A document may be voided only while DRAFT or SUBMITTED.
    pub fn can_void(&self) -> (r: bool)
        ensures
            r == is_open(*self),
    {
        matches!(self, DocStatus::Draft | DocStatus::Submitted)
    }
}

/// Reading back the text of a status gives the status.
pub proof fn law_status_text_round_trip(s: DocStatus)
    ensures
        status_of_text(status_text(s)) == Some(s),
{
    lemma_status_texts_distinct();
}

/// Completed and voided documents are final: once a submit or a void has
/// been allowed, neither a submit nor a void is allowed afterwards.
pub proof fn law_terminal_states(s: DocStatus)
    ensures
        after_submit(s) matches Some(t) ==> after_submit(t) is None && after_void(t) is None,
        after_void(s) matches Some(t) ==> after_submit(t) is None && after_void(t) is None,
{
}

/// Submit and void are allowed on exactly the same statuses.
pub proof fn law_submit_void_same_gate(s: DocStatus)
    ensures
        (after_submit(s) is Some) == (after_void(s) is Some),
{
}

} // verus!
