use crate::error::{PtError, PtErrorCode};
use vstd::prelude::*;

verus! {

/// The bit of `pts_event_pending`: there is an event pending.
pub const STATUS_EVENT_PENDING_BIT: u32 = 1;

/// The bit of `pts_ip_suppressed`: the address has been suppressed.
pub const STATUS_IP_SUPPRESSED_BIT: u32 = 2;

/// The bit of `pts_eos`: there is no more trace data available.
pub const STATUS_EOS_BIT: u32 = 4;

/// All status bits that libipt defines.
pub const STATUS_ALL_BITS: u32 = 7;

/// Masking a word with the defined status bits keeps only defined bits,
/// and the defined bits hold only themselves.
proof fn lemma_mask_keeps_defined_bits(x: u32)
    ensures
        (x & STATUS_ALL_BITS) & !STATUS_ALL_BITS == 0,
        STATUS_ALL_BITS & !STATUS_ALL_BITS == 0,
        0u32 & !STATUS_ALL_BITS == 0,
{
    assert({
        &&& (x & 7u32) & !7u32 == 0
        &&& 7u32 & !7u32 == 0
        &&& 0u32 & !7u32 == 0
    }) by (bit_vector);
}

/// Status flags for various IntelPT actions
#[derive(Clone, Copy, Debug, PartialEq, Eq, Structural)]
pub struct Status {
    bits: u32,
}

impl View for Status {
    type V = u32;

    closed spec fn view(&self) -> u32 {
        self.bits
    }
}

impl Status {
    /// No bit is set that names no flag.
    #[verifier::type_invariant]
    closed spec fn only_defined_bits(self) -> bool {
        self.bits & !STATUS_ALL_BITS == 0
    }

    /// The flags whose bits are `bits`, if every bit is a defined flag.
    pub fn from_bits(bits: u32) -> (r: Option<Status>)
        ensures
            r is Some <==> bits & !STATUS_ALL_BITS == 0,
            r matches Some(s) ==> s@ == bits,
    {
        if bits & !STATUS_ALL_BITS == 0 {
            Some(Status { bits })
        } else {
            None
        }
    }

    /// The flags whose bits are `bits`, with undefined bits dropped.
    pub fn from_bits_truncate(bits: u32) -> (s: Status)
        ensures
            s@ == bits & STATUS_ALL_BITS,
    {
        proof {
            lemma_mask_keeps_defined_bits(bits);
        }
        Status { bits: bits & STATUS_ALL_BITS }
    }

    /// No flag set.
    pub fn empty() -> (s: Status)
        ensures
            s@ == 0,
    {
        proof {
            lemma_mask_keeps_defined_bits(0);
        }
        Status { bits: 0 }
    }

    /// All flags set.
    pub fn all() -> (s: Status)
        ensures
            s@ == STATUS_ALL_BITS,
    {
        proof {
            lemma_mask_keeps_defined_bits(STATUS_ALL_BITS);
        }
        Status { bits: STATUS_ALL_BITS }
    }

    /// The raw bits: only bits that name a flag are set.
    pub fn bits(&self) -> (b: u32)
        ensures
            b == self@,
            b & !STATUS_ALL_BITS == 0,
    {
        proof {
            use_type_invariant(self);
        }
        self.bits
    }

    /// Whether every flag of `other` is set here.
    pub fn contains(&self, other: Status) -> (b: bool)
        ensures
            b == (self@ & other@ == other@),
    {
        self.bits & other.bits == other.bits
    }

    /// Converts the status bits that libipt returned; bits that name no flag
    /// give an internal error.
    pub fn from_bits_or_pterror(pt_status: u32) -> (r: Result<Status, PtError>)
        ensures
            r is Ok <==> pt_status & !STATUS_ALL_BITS == 0,
            r matches Ok(s) ==> s@ == pt_status,
            r matches Err(e) ==> e@ == (
                PtErrorCode::Internal,
                "Unknown state returned by libipt, failed to convert to Status"@,
            ),
    {
        match Status::from_bits(pt_status) {
            Some(s) => Ok(s),
            None => Err(
                PtError::new(
                    PtErrorCode::Internal,
                    "Unknown state returned by libipt, failed to convert to Status",
                ),
            ),
        }
    }

    /// There is no more trace data available.
    pub fn eos(&self) -> (b: bool)
        ensures
            b == (self@ & STATUS_EOS_BIT != 0),
    {
        self.bits & STATUS_EOS_BIT != 0
    }

    /// There is an event pending.
    pub fn event_pending(&self) -> (b: bool)
        ensures
            b == (self@ & STATUS_EVENT_PENDING_BIT != 0),
    {
        self.bits & STATUS_EVENT_PENDING_BIT != 0
    }

    /// The address has been suppressed.
    pub fn ip_supressed(&self) -> (b: bool)
        ensures
            b == (self@ & STATUS_IP_SUPPRESSED_BIT != 0),
    {
        self.bits & STATUS_IP_SUPPRESSED_BIT != 0
    }
}

} // verus!
