use crate::error::{extract_status_or_pterr, is_libipt_return, PtError, PtErrorCode};
use crate::flags::STATUS_ALL_BITS;
use crate::flags::Status;
use vstd::prelude::*;

verus! {

/// Whether a conditional branch was taken.
#[derive(Debug, Clone, Copy, PartialEq, Eq, Structural)]
pub enum CondBranch {
    Taken,
    NotTaken,
}

impl CondBranch {
    /// The raw value: 1 for taken, 0 for not taken.
    pub open spec fn value(self) -> i32 {
        match self {
            CondBranch::Taken => 1,
            CondBranch::NotTaken => 0,
        }
    }

    /// The branch outcome whose raw value is `v`, if there is one.
    pub open spec fn from_value(v: i32) -> Option<CondBranch> {
        if v == 1 {
            Some(CondBranch::Taken)
        } else if v == 0 {
            Some(CondBranch::NotTaken)
        } else {
            None
        }
    }

    /// Converts the raw value that libipt reports; a value other than 0 and
    /// 1 gives the conversion error.
    pub fn try_from_primitive(v: i32) -> (r: Result<CondBranch, PtError>)
        ensures
            match CondBranch::from_value(v) {
                Some(c) => r == Ok::<CondBranch, PtError>(c),
                None => r is Err && r->Err_0@ == PtError::conversion_failure_view(),
            },
    {
        if v == 1 {
            Ok(CondBranch::Taken)
        } else if v == 0 {
            Ok(CondBranch::NotTaken)
        } else {
            Err(PtError::conversion_failure())
        }
    }
}

/// Converting a branch outcome to its value and back gives it again.
pub proof fn lemma_cond_branch_roundtrip(c: CondBranch, v: i32)
    ensures
        CondBranch::from_value(c.value()) == Some(c),
        CondBranch::from_value(v) == Some(c) ==> c.value() == v,
{
}

/// The result of a conditional branch query: the status that libipt's return
/// value `code` gives (an error when it is negative, `msg` being libipt's
/// message for it), then the outcome that `taken` reports.
pub fn cond_branch_result(code: i32, msg: &'static str, taken: i32) -> (r: Result<(CondBranch, Status), PtError>)
    requires
        is_libipt_return(code),
    ensures
        code < 0 ==> r is Err && r->Err_0@ == (PtErrorCode::from_value(-code).unwrap(), msg@),
        code >= 0 && (code as u32) & !STATUS_ALL_BITS != 0 ==> r is Err && r->Err_0@ == (
            PtErrorCode::Internal,
            "Unknown state returned by libipt, failed to convert to Status"@,
        ),
        code >= 0 && (code as u32) & !STATUS_ALL_BITS == 0 ==> match CondBranch::from_value(taken) {
            Some(c) => r is Ok && r->Ok_0.0 == c && r->Ok_0.1@ == code as u32,
            None => r is Err && r->Err_0@ == PtError::conversion_failure_view(),
        },
{
    let status = match extract_status_or_pterr(code, msg) {
        Ok(s) => s,
        Err(e) => return Err(e),
    };
    let cond_branch = match CondBranch::try_from_primitive(taken) {
        Ok(c) => c,
        Err(e) => return Err(e),
    };
    Ok((cond_branch, status))
}

} // verus!
