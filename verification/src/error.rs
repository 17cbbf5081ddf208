use crate::flags::{Status, STATUS_ALL_BITS};
use vstd::prelude::*;

verus! {

/// The error codes of libipt, in the order of its `pt_error_code` enumeration,
/// plus `NoInfo` for an error that carries no libipt code.
#[derive(Clone, Copy, Debug, PartialEq, Eq, Structural)]
pub enum PtErrorCode {
    /// No error. Everything is OK
    Okay,
    /// Internal decoder error
    Internal,
    /// Invalid argument
    Invalid,
    /// Decoder out of sync
    Nosync,
    /// Unknown opcode
    BadOpc,
    /// Unknown payload
    BadPacket,
    /// Unexpected packet context
    BadContext,
    /// Decoder reached end of trace stream
    Eos,
    /// No packet matching the query to be found
    BadQuery,
    /// Decoder out of memory
    Nomem,
    /// Bad configuration
    BadConfig,
    /// There is no IP
    Noip,
    /// The IP has been suppressed
    IpSuppressed,
    /// There is no memory mapped at the requested address
    Nomap,
    /// An instruction could not be decoded
    BadInsn,
    /// No wall-clock time is available
    NoTime,
    /// No core:bus ratio available
    NoCbr,
    /// Bad traced image
    BadImage,
    /// A locking error
    BadLock,
    /// The requested feature is not supported
    NotSupported,
    /// The return address stack is empty
    RetstackEmpty,
    /// A compressed return is not indicated correctly by a taken branch
    BadRetcomp,
    /// The current decoder state does not match the state in the trace
    BadStatusUpdate,
    /// The trace did not contain an expected enabled event
    NoEnable,
    /// An event was ignored
    EventIgnored,
    /// Something overflowed
    Overflow,
    /// A file handling error
    BadFile,
    /// Unknown cpu
    BadCpu,
    /// No Error Information available
    NoInfo,
}

/// libipt's `pte_ok`.
pub const PTE_OK: i32 = 0;

/// libipt's `pte_internal`.
pub const PTE_INTERNAL: i32 = 1;

/// libipt's `pte_invalid`.
pub const PTE_INVALID: i32 = 2;

/// libipt's `pte_nosync`.
pub const PTE_NOSYNC: i32 = 3;

/// libipt's `pte_bad_opc`.
pub const PTE_BAD_OPC: i32 = 4;

/// libipt's `pte_bad_packet`.
pub const PTE_BAD_PACKET: i32 = 5;

/// libipt's `pte_bad_context`.
pub const PTE_BAD_CONTEXT: i32 = 6;

/// libipt's `pte_eos`.
pub const PTE_EOS: i32 = 7;

/// libipt's `pte_bad_query`.
pub const PTE_BAD_QUERY: i32 = 8;

/// libipt's `pte_nomem`.
pub const PTE_NOMEM: i32 = 9;

/// libipt's `pte_bad_config`.
pub const PTE_BAD_CONFIG: i32 = 10;

/// libipt's `pte_noip`.
pub const PTE_NOIP: i32 = 11;

/// libipt's `pte_ip_suppressed`.
pub const PTE_IP_SUPPRESSED: i32 = 12;

/// libipt's `pte_nomap`.
pub const PTE_NOMAP: i32 = 13;

/// libipt's `pte_bad_insn`.
pub const PTE_BAD_INSN: i32 = 14;

/// libipt's `pte_no_time`.
pub const PTE_NO_TIME: i32 = 15;

/// libipt's `pte_no_cbr`.
pub const PTE_NO_CBR: i32 = 16;

/// libipt's `pte_bad_image`.
pub const PTE_BAD_IMAGE: i32 = 17;

/// libipt's `pte_bad_lock`.
pub const PTE_BAD_LOCK: i32 = 18;

/// libipt's `pte_not_supported`.
pub const PTE_NOT_SUPPORTED: i32 = 19;

/// libipt's `pte_retstack_empty`.
pub const PTE_RETSTACK_EMPTY: i32 = 20;

/// libipt's `pte_bad_retcomp`.
pub const PTE_BAD_RETCOMP: i32 = 21;

/// libipt's `pte_bad_status_update`.
pub const PTE_BAD_STATUS_UPDATE: i32 = 22;

/// libipt's `pte_no_enable`.
pub const PTE_NO_ENABLE: i32 = 23;

/// libipt's `pte_event_ignored`.
pub const PTE_EVENT_IGNORED: i32 = 24;

/// libipt's `pte_overflow`.
pub const PTE_OVERFLOW: i32 = 25;

/// libipt's `pte_bad_file`.
pub const PTE_BAD_FILE: i32 = 26;

/// libipt's `pte_bad_cpu`.
pub const PTE_BAD_CPU: i32 = 27;

impl PtErrorCode {
    /// The number of this code: its position in libipt's `pt_error_code`,
    /// and -1 for `NoInfo`.
    pub open spec fn value(self) -> int {
        match self {
            PtErrorCode::Okay => 0,
            PtErrorCode::Internal => 1,
            PtErrorCode::Invalid => 2,
            PtErrorCode::Nosync => 3,
            PtErrorCode::BadOpc => 4,
            PtErrorCode::BadPacket => 5,
            PtErrorCode::BadContext => 6,
            PtErrorCode::Eos => 7,
            PtErrorCode::BadQuery => 8,
            PtErrorCode::Nomem => 9,
            PtErrorCode::BadConfig => 10,
            PtErrorCode::Noip => 11,
            PtErrorCode::IpSuppressed => 12,
            PtErrorCode::Nomap => 13,
            PtErrorCode::BadInsn => 14,
            PtErrorCode::NoTime => 15,
            PtErrorCode::NoCbr => 16,
            PtErrorCode::BadImage => 17,
            PtErrorCode::BadLock => 18,
            PtErrorCode::NotSupported => 19,
            PtErrorCode::RetstackEmpty => 20,
            PtErrorCode::BadRetcomp => 21,
            PtErrorCode::BadStatusUpdate => 22,
            PtErrorCode::NoEnable => 23,
            PtErrorCode::EventIgnored => 24,
            PtErrorCode::Overflow => 25,
            PtErrorCode::BadFile => 26,
            PtErrorCode::BadCpu => 27,
            PtErrorCode::NoInfo => -1,
        }
    }

    /// The code whose number is `v`, if there is one.
    pub open spec fn from_value(v: int) -> Option<PtErrorCode> {
        if v == 0 { Some(PtErrorCode::Okay) }
        else if v == 1 { Some(PtErrorCode::Internal) }
        else if v == 2 { Some(PtErrorCode::Invalid) }
        else if v == 3 { Some(PtErrorCode::Nosync) }
        else if v == 4 { Some(PtErrorCode::BadOpc) }
        else if v == 5 { Some(PtErrorCode::BadPacket) }
        else if v == 6 { Some(PtErrorCode::BadContext) }
        else if v == 7 { Some(PtErrorCode::Eos) }
        else if v == 8 { Some(PtErrorCode::BadQuery) }
        else if v == 9 { Some(PtErrorCode::Nomem) }
        else if v == 10 { Some(PtErrorCode::BadConfig) }
        else if v == 11 { Some(PtErrorCode::Noip) }
        else if v == 12 { Some(PtErrorCode::IpSuppressed) }
        else if v == 13 { Some(PtErrorCode::Nomap) }
        else if v == 14 { Some(PtErrorCode::BadInsn) }
        else if v == 15 { Some(PtErrorCode::NoTime) }
        else if v == 16 { Some(PtErrorCode::NoCbr) }
        else if v == 17 { Some(PtErrorCode::BadImage) }
        else if v == 18 { Some(PtErrorCode::BadLock) }
        else if v == 19 { Some(PtErrorCode::NotSupported) }
        else if v == 20 { Some(PtErrorCode::RetstackEmpty) }
        else if v == 21 { Some(PtErrorCode::BadRetcomp) }
        else if v == 22 { Some(PtErrorCode::BadStatusUpdate) }
        else if v == 23 { Some(PtErrorCode::NoEnable) }
        else if v == 24 { Some(PtErrorCode::EventIgnored) }
        else if v == 25 { Some(PtErrorCode::Overflow) }
        else if v == 26 { Some(PtErrorCode::BadFile) }
        else if v == 27 { Some(PtErrorCode::BadCpu) }
        else if v == -1 { Some(PtErrorCode::NoInfo) }
        else { None }
    }

    /// The number of this code (see `value`).
    pub fn to_primitive(self) -> (v: i32)
        ensures
            v == self.value(),
    {
        match self {
            PtErrorCode::Okay => 0,
            PtErrorCode::Internal => 1,
            PtErrorCode::Invalid => 2,
            PtErrorCode::Nosync => 3,
            PtErrorCode::BadOpc => 4,
            PtErrorCode::BadPacket => 5,
            PtErrorCode::BadContext => 6,
            PtErrorCode::Eos => 7,
            PtErrorCode::BadQuery => 8,
            PtErrorCode::Nomem => 9,
            PtErrorCode::BadConfig => 10,
            PtErrorCode::Noip => 11,
            PtErrorCode::IpSuppressed => 12,
            PtErrorCode::Nomap => 13,
            PtErrorCode::BadInsn => 14,
            PtErrorCode::NoTime => 15,
            PtErrorCode::NoCbr => 16,
            PtErrorCode::BadImage => 17,
            PtErrorCode::BadLock => 18,
            PtErrorCode::NotSupported => 19,
            PtErrorCode::RetstackEmpty => 20,
            PtErrorCode::BadRetcomp => 21,
            PtErrorCode::BadStatusUpdate => 22,
            PtErrorCode::NoEnable => 23,
            PtErrorCode::EventIgnored => 24,
            PtErrorCode::Overflow => 25,
            PtErrorCode::BadFile => 26,
            PtErrorCode::BadCpu => 27,
            PtErrorCode::NoInfo => -1,
        }
    }

    /// Converts a raw libipt number into a code; a number that names no code
    /// gives the conversion error.
    pub fn try_from_primitive(v: i32) -> (r: Result<PtErrorCode, PtError>)
        ensures
            match PtErrorCode::from_value(v as int) {
                Some(c) => r == Ok::<PtErrorCode, PtError>(c),
                None => r is Err && r->Err_0@ == PtError::conversion_failure_view(),
            },
    {
        if v == 0 { Ok(PtErrorCode::Okay) }
        else if v == 1 { Ok(PtErrorCode::Internal) }
        else if v == 2 { Ok(PtErrorCode::Invalid) }
        else if v == 3 { Ok(PtErrorCode::Nosync) }
        else if v == 4 { Ok(PtErrorCode::BadOpc) }
        else if v == 5 { Ok(PtErrorCode::BadPacket) }
        else if v == 6 { Ok(PtErrorCode::BadContext) }
        else if v == 7 { Ok(PtErrorCode::Eos) }
        else if v == 8 { Ok(PtErrorCode::BadQuery) }
        else if v == 9 { Ok(PtErrorCode::Nomem) }
        else if v == 10 { Ok(PtErrorCode::BadConfig) }
        else if v == 11 { Ok(PtErrorCode::Noip) }
        else if v == 12 { Ok(PtErrorCode::IpSuppressed) }
        else if v == 13 { Ok(PtErrorCode::Nomap) }
        else if v == 14 { Ok(PtErrorCode::BadInsn) }
        else if v == 15 { Ok(PtErrorCode::NoTime) }
        else if v == 16 { Ok(PtErrorCode::NoCbr) }
        else if v == 17 { Ok(PtErrorCode::BadImage) }
        else if v == 18 { Ok(PtErrorCode::BadLock) }
        else if v == 19 { Ok(PtErrorCode::NotSupported) }
        else if v == 20 { Ok(PtErrorCode::RetstackEmpty) }
        else if v == 21 { Ok(PtErrorCode::BadRetcomp) }
        else if v == 22 { Ok(PtErrorCode::BadStatusUpdate) }
        else if v == 23 { Ok(PtErrorCode::NoEnable) }
        else if v == 24 { Ok(PtErrorCode::EventIgnored) }
        else if v == 25 { Ok(PtErrorCode::Overflow) }
        else if v == 26 { Ok(PtErrorCode::BadFile) }
        else if v == 27 { Ok(PtErrorCode::BadCpu) }
        else if v == -1 { Ok(PtErrorCode::NoInfo) }
        else { Err(PtError::conversion_failure()) }
    }
}

/// Converting a code to its number and back gives the code again, and a
/// number that converts to a code is that code's number.
pub proof fn lemma_error_code_roundtrip(c: PtErrorCode, v: int)
    ensures
        PtErrorCode::from_value(c.value()) == Some(c),
        PtErrorCode::from_value(v) == Some(c) ==> c.value() == v,
{
}

/// Each code has the number that libipt's `pt_error_code` gives the error
/// of the same name, so a libipt return value of `-pte_<name>` is read (by
/// `extract_pterr` and `PtError::from_code`) as the code of that name;
/// `pte_ok` is `Okay`, and `NoInfo`, which libipt does not define, is -1.
pub proof fn lemma_error_codes_are_libipt_codes()
    ensures
        PtErrorCode::from_value(PTE_OK as int) == Some(PtErrorCode::Okay),
        PtErrorCode::from_value(PTE_INTERNAL as int) == Some(PtErrorCode::Internal),
        PtErrorCode::from_value(PTE_INVALID as int) == Some(PtErrorCode::Invalid),
        PtErrorCode::from_value(PTE_NOSYNC as int) == Some(PtErrorCode::Nosync),
        PtErrorCode::from_value(PTE_BAD_OPC as int) == Some(PtErrorCode::BadOpc),
        PtErrorCode::from_value(PTE_BAD_PACKET as int) == Some(PtErrorCode::BadPacket),
        PtErrorCode::from_value(PTE_BAD_CONTEXT as int) == Some(PtErrorCode::BadContext),
        PtErrorCode::from_value(PTE_EOS as int) == Some(PtErrorCode::Eos),
        PtErrorCode::from_value(PTE_BAD_QUERY as int) == Some(PtErrorCode::BadQuery),
        PtErrorCode::from_value(PTE_NOMEM as int) == Some(PtErrorCode::Nomem),
        PtErrorCode::from_value(PTE_BAD_CONFIG as int) == Some(PtErrorCode::BadConfig),
        PtErrorCode::from_value(PTE_NOIP as int) == Some(PtErrorCode::Noip),
        PtErrorCode::from_value(PTE_IP_SUPPRESSED as int) == Some(PtErrorCode::IpSuppressed),
        PtErrorCode::from_value(PTE_NOMAP as int) == Some(PtErrorCode::Nomap),
        PtErrorCode::from_value(PTE_BAD_INSN as int) == Some(PtErrorCode::BadInsn),
        PtErrorCode::from_value(PTE_NO_TIME as int) == Some(PtErrorCode::NoTime),
        PtErrorCode::from_value(PTE_NO_CBR as int) == Some(PtErrorCode::NoCbr),
        PtErrorCode::from_value(PTE_BAD_IMAGE as int) == Some(PtErrorCode::BadImage),
        PtErrorCode::from_value(PTE_BAD_LOCK as int) == Some(PtErrorCode::BadLock),
        PtErrorCode::from_value(PTE_NOT_SUPPORTED as int) == Some(PtErrorCode::NotSupported),
        PtErrorCode::from_value(PTE_RETSTACK_EMPTY as int) == Some(PtErrorCode::RetstackEmpty),
        PtErrorCode::from_value(PTE_BAD_RETCOMP as int) == Some(PtErrorCode::BadRetcomp),
        PtErrorCode::from_value(PTE_BAD_STATUS_UPDATE as int) == Some(PtErrorCode::BadStatusUpdate),
        PtErrorCode::from_value(PTE_NO_ENABLE as int) == Some(PtErrorCode::NoEnable),
        PtErrorCode::from_value(PTE_EVENT_IGNORED as int) == Some(PtErrorCode::EventIgnored),
        PtErrorCode::from_value(PTE_OVERFLOW as int) == Some(PtErrorCode::Overflow),
        PtErrorCode::from_value(PTE_BAD_FILE as int) == Some(PtErrorCode::BadFile),
        PtErrorCode::from_value(PTE_BAD_CPU as int) == Some(PtErrorCode::BadCpu),
        PtErrorCode::from_value(-1) == Some(PtErrorCode::NoInfo),
{
}

/// An error of libipt or of these bindings: a code and a human readable message.
#[derive(Debug, Clone, Copy)]
pub struct PtError {
    code: PtErrorCode,
    msg: &'static str,
}

impl View for PtError {
    type V = (PtErrorCode, Seq<char>);

    closed spec fn view(&self) -> (PtErrorCode, Seq<char>) {
        (self.code, self.msg@)
    }
}

impl PtError {
    /// The error that a failed conversion of a raw libipt value into one of
    /// this library's enumerations gives.
    pub open spec fn conversion_failure_view() -> (PtErrorCode, Seq<char>) {
        (PtErrorCode::Internal, "Internal conversion from libipt raw value to enum failed."@)
    }

    /// Creates an error from a code and a message.
    pub fn new(code: PtErrorCode, msg: &'static str) -> (e: PtError)
        ensures
            e@ == (code, msg@),
    {
        PtError { code, msg }
    }

    /// The error that a failed conversion of a raw libipt value into one of
    /// this library's enumerations gives.
    pub fn conversion_failure() -> (e: PtError)
        ensures
            e@ == PtError::conversion_failure_view(),
    {
        PtError::new(
            PtErrorCode::Internal,
            "Internal conversion from libipt raw value to enum failed.",
        )
    }

    /// Creates an error from the value that a libipt function returned.
    ///
    /// libipt functions return negated error codes, so `code` is the negation
    /// of a libipt error number; `msg` is libipt's message for that number.
    pub fn from_code(code: i32, msg: &'static str) -> (e: PtError)
        requires
            code > i32::MIN,
            PtErrorCode::from_value(-code) is Some,
        ensures
            e@ == (PtErrorCode::from_value(-code).unwrap(), msg@),
    {
        match PtErrorCode::try_from_primitive(-code) {
            Ok(c) => PtError::new(c, msg),
            Err(e) => e,
        }
    }

    /// The error code.
    pub fn code(self) -> (c: PtErrorCode)
        ensures
            c == self@.0,
    {
        self.code
    }

    /// The error as text: "error from libipt: " followed by the message.
    pub fn to_string(&self) -> (s: String)
        ensures
            s@ == "error from libipt: "@ + self@.1,
    {
        let prefix = String::from_str("error from libipt: ");
        prefix.concat(self.msg)
    }

    /// A human readable error message.
    pub fn msg(self) -> (m: &'static str)
        ensures
            m@ == self@.1,
    {
        self.msg
    }
}

/// The value that a libipt function may return: a non-negative result, or
/// the negation of a libipt error number.
pub open spec fn is_libipt_return(code: i32) -> bool {
    code >= 0 || (code > i32::MIN && PtErrorCode::from_value(-code) is Some)
}

/// Turns a negative return value into an error and a non-negative one into
/// that value as an unsigned number.
///
/// `msg` is libipt's message for the error number `-code`; it is used only
/// when `code` is negative.
pub fn extract_pterr(code: i32, msg: &'static str) -> (r: Result<u32, PtError>)
    requires
        is_libipt_return(code),
    ensures
        code >= 0 ==> r == Ok::<u32, PtError>(code as u32),
        code < 0 ==> r is Err && r->Err_0@ == (PtErrorCode::from_value(-code).unwrap(), msg@),
{
    if code >= 0 {
        Ok(code as u32)
    } else {
        Err(PtError::from_code(code, msg))
    }
}

/// Turns a return value into success or an error, discarding the value.
pub fn ensure_ptok(code: i32, msg: &'static str) -> (r: Result<(), PtError>)
    requires
        is_libipt_return(code),
    ensures
        code >= 0 ==> r is Ok,
        code < 0 ==> r is Err && r->Err_0@ == (PtErrorCode::from_value(-code).unwrap(), msg@),
{
    match extract_pterr(code, msg) {
        Ok(_) => Ok(()),
        Err(e) => Err(e),
    }
}

/// Turns a negative return value into an error and a non-negative one into
/// status flags; a value with bits that name no flag gives an internal error.
pub fn extract_status_or_pterr(code: i32, msg: &'static str) -> (r: Result<Status, PtError>)
    requires
        is_libipt_return(code),
    ensures
        code < 0 ==> r is Err && r->Err_0@ == (PtErrorCode::from_value(-code).unwrap(), msg@),
        code >= 0 ==> (r is Ok <==> (code as u32) & !STATUS_ALL_BITS == 0),
        code >= 0 && r is Ok ==> r->Ok_0@ == code as u32,
        code >= 0 && r is Err ==> r->Err_0@ == (
            PtErrorCode::Internal,
            "Unknown state returned by libipt, failed to convert to Status"@,
        ),
{
    match extract_pterr(code, msg) {
        Ok(bits) => Status::from_bits_or_pterror(bits),
        Err(e) => Err(e),
    }
}

/// The step of a decoder's iteration: the end of the trace stream (`Eos`)
/// ends it, any other result is handed on.
pub fn until_eos<T>(r: Result<T, PtError>) -> (o: Option<Result<T, PtError>>)
    ensures
        match r {
            Err(e) => if e@.0 == PtErrorCode::Eos { o is None } else { o == Some(r) },
            Ok(_) => o == Some(r),
        },
{
    match r {
        Err(x) => {
            if x.code() == PtErrorCode::Eos {
                None
            } else {
                Some(Err(x))
            }
        },
        x => Some(x),
    }
}

} // verus!
