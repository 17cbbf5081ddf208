//! Higher-level events often resulting from the combination of different PT packets.

mod branch;
mod cbr;
mod disabled;
mod enabled;
mod exec_mode;
mod exstop;
mod mnt;
mod mwait;
mod overflow;
mod paging;
mod ptwrite;
mod pwre;
mod pwrx;
mod qry;
mod stop;
mod tick;
mod tsx;
mod vmcs;

pub use branch::AsyncBranch;
pub use cbr::Cbr;
pub use disabled::{AsyncDisabled, Disabled};
pub use enabled::Enabled;
pub use exec_mode::{ExecMode, ExecModeType};
pub use exstop::Exstop;
pub use mnt::Mnt;
pub use mwait::Mwait;
pub use overflow::Overflow;
pub use paging::{AsyncPaging, Paging};
pub use ptwrite::Ptwrite;
pub use pwre::Pwre;
pub use pwrx::Pwrx;
pub use qry::{cond_branch_result, CondBranch};
pub use stop::Stop;
pub use tick::Tick;
pub use tsx::Tsx;
pub use vmcs::{AsyncVmcs, Vmcs};

use vstd::prelude::*;

verus! {

/// The event type number of `ptev_enabled`.
pub const PTEV_ENABLED: u32 = 0;
/// The event type number of `ptev_disabled`.
pub const PTEV_DISABLED: u32 = 1;
/// The event type number of `ptev_async_disabled`.
pub const PTEV_ASYNC_DISABLED: u32 = 2;
/// The event type number of `ptev_async_branch`.
pub const PTEV_ASYNC_BRANCH: u32 = 3;
/// The event type number of `ptev_paging`.
pub const PTEV_PAGING: u32 = 4;
/// The event type number of `ptev_async_paging`.
pub const PTEV_ASYNC_PAGING: u32 = 5;
/// The event type number of `ptev_overflow`.
pub const PTEV_OVERFLOW: u32 = 6;
/// The event type number of `ptev_exec_mode`.
pub const PTEV_EXEC_MODE: u32 = 7;
/// The event type number of `ptev_tsx`.
pub const PTEV_TSX: u32 = 8;
/// The event type number of `ptev_stop`.
pub const PTEV_STOP: u32 = 9;
/// The event type number of `ptev_vmcs`.
pub const PTEV_VMCS: u32 = 10;
/// The event type number of `ptev_async_vmcs`.
pub const PTEV_ASYNC_VMCS: u32 = 11;
/// The event type number of `ptev_exstop`.
pub const PTEV_EXSTOP: u32 = 12;
/// The event type number of `ptev_mwait`.
pub const PTEV_MWAIT: u32 = 13;
/// The event type number of `ptev_pwre`.
pub const PTEV_PWRE: u32 = 14;
/// The event type number of `ptev_pwrx`.
pub const PTEV_PWRX: u32 = 15;
/// The event type number of `ptev_ptwrite`.
pub const PTEV_PTWRITE: u32 = 16;
/// The event type number of `ptev_tick`.
pub const PTEV_TICK: u32 = 17;
/// The event type number of `ptev_cbr`.
pub const PTEV_CBR: u32 = 18;
/// The event type number of `ptev_mnt`.
pub const PTEV_MNT: u32 = 19;

/// The low 32 bits of a word.
pub open spec fn low_u32(w: u64) -> u32 {
    (w & 0xffff_ffff) as u32
}

/// The high 32 bits of a word.
pub open spec fn high_u32(w: u64) -> u32 {
    (w >> 32u64) as u32
}

/// The low 16 bits of a word.
pub open spec fn low_u16(w: u64) -> u16 {
    (w & 0xffff) as u16
}

/// Byte `k` of a little-endian word.
pub open spec fn byte_at(w: u64, k: u64) -> u8 {
    ((w >> (8 * k)) & 0xff) as u8
}

/// Bit `k` of a word.
pub open spec fn bit_at(w: u64, k: u64) -> bool {
    (w >> k) & 1 == 1
}

/// The low 32 bits of a word.
pub fn word_low_u32(w: u64) -> (r: u32)
    ensures
        r == low_u32(w),
{
    (w & 0xffff_ffff) as u32
}

/// The high 32 bits of a word.
pub fn word_high_u32(w: u64) -> (r: u32)
    ensures
        r == high_u32(w),
{
    proof {
        assert(w >> 32u64 <= 0xffff_ffff) by (bit_vector);
    }
    (w >> 32u64) as u32
}

/// The low 16 bits of a word.
pub fn word_low_u16(w: u64) -> (r: u16)
    ensures
        r == low_u16(w),
{
    (w & 0xffff) as u16
}

/// Byte `k` of a little-endian word.
pub fn word_byte(w: u64, k: u64) -> (r: u8)
    requires
        k < 8,
    ensures
        r == byte_at(w, k),
{
    proof {
        assert((w >> (8 * k)) & 0xff <= 0xff) by (bit_vector);
    }
    ((w >> (8 * k)) & 0xff) as u8
}

/// Bit `k` of a word.
pub fn word_bit(w: u64, k: u64) -> (r: bool)
    requires
        k < 64,
    ensures
        r == bit_at(w, k),
{
    (w >> k) & 1 == 1
}

/// The fields of a libipt event (`pt_event`): its type number, its flags,
/// its timing information, and the first three words of its type-specific
/// payload (a union in libipt), in memory order.
pub struct EventView {
    pub type_: u32,
    pub ip_suppressed: bool,
    pub status_update: bool,
    pub has_tsc: bool,
    pub tsc: u64,
    pub lost_mtc: u32,
    pub lost_cyc: u32,
    pub variant: (u64, u64, u64),
}

/// A trace event.
#[derive(Debug, Clone, Copy)]
pub struct Event {
    type_: u32,
    ip_suppressed: bool,
    status_update: bool,
    has_tsc: bool,
    tsc: u64,
    lost_mtc: u32,
    lost_cyc: u32,
    variant: (u64, u64, u64),
}

impl View for Event {
    type V = EventView;

    closed spec fn view(&self) -> EventView {
        EventView {
            type_: self.type_,
            ip_suppressed: self.ip_suppressed,
            status_update: self.status_update,
            has_tsc: self.has_tsc,
            tsc: self.tsc,
            lost_mtc: self.lost_mtc,
            lost_cyc: self.lost_cyc,
            variant: self.variant,
        }
    }
}

impl Event {
    /// An event with these fields; `variant` holds the first three words of
    /// libipt's payload union.
    pub fn from_raw(
        type_: u32,
        ip_suppressed: bool,
        status_update: bool,
        has_tsc: bool,
        tsc: u64,
        lost_mtc: u32,
        lost_cyc: u32,
        variant: (u64, u64, u64),
    ) -> (e: Event)
        ensures
            e@ == (EventView {
                type_,
                ip_suppressed,
                status_update,
                has_tsc,
                tsc,
                lost_mtc,
                lost_cyc,
                variant,
            }),
    {
        Event { type_, ip_suppressed, status_update, has_tsc, tsc, lost_mtc, lost_cyc, variant }
    }

    /// The event type number.
    pub fn event_type(self) -> (t: u32)
        ensures
            t == self@.type_,
    {
        self.type_
    }

    /// The payload words.
    pub fn raw_variant(self) -> (v: (u64, u64, u64))
        ensures
            v == self@.variant,
    {
        self.variant
    }

    /// A flag indicating that the event IP has been suppressed.
    pub fn ip_suppressed(self) -> (b: bool)
        ensures
            b == self@.ip_suppressed,
    {
        self.ip_suppressed
    }

    /// A flag indicating that the event is for status update.
    pub fn status_update(self) -> (b: bool)
        ensures
            b == self@.status_update,
    {
        self.status_update
    }

    /// A flag indicating that the event has timing information.
    pub fn has_tsc(self) -> (b: bool)
        ensures
            b == self@.has_tsc,
    {
        self.has_tsc
    }

    /// The time stamp count of the event.
    /// This field is only valid if @has_tsc is set.
    pub fn tsc(self) -> (t: u64)
        ensures
            t == self@.tsc,
    {
        self.tsc
    }

    /// The number of lost mtc packets.
    ///
    /// This gives an idea about the quality of the \@tsc.
    /// The more packets were dropped, the less precise timing is.
    pub fn lost_mtc(self) -> (n: u32)
        ensures
            n == self@.lost_mtc,
    {
        self.lost_mtc
    }

    /// The number of lost cyc packets.
    ///
    /// This gives an idea about the quality of the \@tsc.
    /// The more packets were dropped, the less precise timing is.
    pub fn lost_cyc(self) -> (n: u32)
        ensures
            n == self@.lost_cyc,
    {
        self.lost_cyc
    }

    /// Event specific data.
    pub fn payload(self) -> (p: Payload)
        requires
            self@.type_ <= PTEV_MNT,
        ensures
            p.event_type() == self@.type_,
            p.inner_event() == Some(self@) || (p is Stop && self@.type_ == PTEV_STOP),
    {
        Payload::from_event(self)
    }
}

/// The type-specific view of an event.
#[derive(Debug)]
pub enum Payload {
    Enabled(Enabled),
    Disabled(Disabled),
    AsnycDisabled(AsyncDisabled),
    AsyncBranch(AsyncBranch),
    Paging(Paging),
    AsyncPaging(AsyncPaging),
    Overflow(Overflow),
    ExecMode(ExecMode),
    Tsx(Tsx),
    Vmcs(Vmcs),
    AsyncVmcs(AsyncVmcs),
    Exstop(Exstop),
    Mwait(Mwait),
    Pwre(Pwre),
    Pwrx(Pwrx),
    Ptwrite(Ptwrite),
    Tick(Tick),
    Mnt(Mnt),
    Cbr(Cbr),
    Stop,
}

impl Payload {
    /// The event type number that this payload belongs to.
    pub open spec fn event_type(self) -> u32 {
        match self {
            Payload::Enabled(_) => PTEV_ENABLED,
            Payload::Disabled(_) => PTEV_DISABLED,
            Payload::AsnycDisabled(_) => PTEV_ASYNC_DISABLED,
            Payload::AsyncBranch(_) => PTEV_ASYNC_BRANCH,
            Payload::Paging(_) => PTEV_PAGING,
            Payload::AsyncPaging(_) => PTEV_ASYNC_PAGING,
            Payload::Overflow(_) => PTEV_OVERFLOW,
            Payload::ExecMode(_) => PTEV_EXEC_MODE,
            Payload::Tsx(_) => PTEV_TSX,
            Payload::Vmcs(_) => PTEV_VMCS,
            Payload::AsyncVmcs(_) => PTEV_ASYNC_VMCS,
            Payload::Exstop(_) => PTEV_EXSTOP,
            Payload::Mwait(_) => PTEV_MWAIT,
            Payload::Pwre(_) => PTEV_PWRE,
            Payload::Pwrx(_) => PTEV_PWRX,
            Payload::Ptwrite(_) => PTEV_PTWRITE,
            Payload::Tick(_) => PTEV_TICK,
            Payload::Mnt(_) => PTEV_MNT,
            Payload::Cbr(_) => PTEV_CBR,
            Payload::Stop => PTEV_STOP,
        }
    }

    /// The event that this payload views, if it carries one.
    pub open spec fn inner_event(self) -> Option<EventView> {
        match self {
            Payload::Enabled(e) => Some(e@),
            Payload::Disabled(e) => Some(e@),
            Payload::AsnycDisabled(e) => Some(e@),
            Payload::AsyncBranch(e) => Some(e@),
            Payload::Paging(e) => Some(e@),
            Payload::AsyncPaging(e) => Some(e@),
            Payload::Overflow(e) => Some(e@),
            Payload::ExecMode(e) => Some(e@),
            Payload::Tsx(e) => Some(e@),
            Payload::Vmcs(e) => Some(e@),
            Payload::AsyncVmcs(e) => Some(e@),
            Payload::Exstop(e) => Some(e@),
            Payload::Mwait(e) => Some(e@),
            Payload::Pwre(e) => Some(e@),
            Payload::Pwrx(e) => Some(e@),
            Payload::Ptwrite(e) => Some(e@),
            Payload::Tick(e) => Some(e@),
            Payload::Mnt(e) => Some(e@),
            Payload::Cbr(e) => Some(e@),
            Payload::Stop => None,
        }
    }

    /// The payload of an event, chosen by its type number.
    pub fn from_event(evt: Event) -> (p: Payload)
        requires
            evt@.type_ <= PTEV_MNT,
        ensures
            p.event_type() == evt@.type_,
            p.inner_event() == Some(evt@) || (p is Stop && evt@.type_ == PTEV_STOP),
    {
        let t = evt.event_type();
        if t == PTEV_ASYNC_BRANCH {
            match AsyncBranch::try_from_event(evt) {
                Ok(p) => Payload::AsyncBranch(p),
                Err(_) => Payload::Stop,
            }
        } else if t == PTEV_ASYNC_DISABLED {
            match AsyncDisabled::try_from_event(evt) {
                Ok(p) => Payload::AsnycDisabled(p),
                Err(_) => Payload::Stop,
            }
        } else if t == PTEV_ASYNC_PAGING {
            match AsyncPaging::try_from_event(evt) {
                Ok(p) => Payload::AsyncPaging(p),
                Err(_) => Payload::Stop,
            }
        } else if t == PTEV_ASYNC_VMCS {
            match AsyncVmcs::try_from_event(evt) {
                Ok(p) => Payload::AsyncVmcs(p),
                Err(_) => Payload::Stop,
            }
        } else if t == PTEV_CBR {
            match Cbr::try_from_event(evt) {
                Ok(p) => Payload::Cbr(p),
                Err(_) => Payload::Stop,
            }
        } else if t == PTEV_DISABLED {
            match Disabled::try_from_event(evt) {
                Ok(p) => Payload::Disabled(p),
                Err(_) => Payload::Stop,
            }
        } else if t == PTEV_ENABLED {
            match Enabled::try_from_event(evt) {
                Ok(p) => Payload::Enabled(p),
                Err(_) => Payload::Stop,
            }
        } else if t == PTEV_EXEC_MODE {
            match ExecMode::try_from_event(evt) {
                Ok(p) => Payload::ExecMode(p),
                Err(_) => Payload::Stop,
            }
        } else if t == PTEV_EXSTOP {
            match Exstop::try_from_event(evt) {
                Ok(p) => Payload::Exstop(p),
                Err(_) => Payload::Stop,
            }
        } else if t == PTEV_MNT {
            match Mnt::try_from_event(evt) {
                Ok(p) => Payload::Mnt(p),
                Err(_) => Payload::Stop,
            }
        } else if t == PTEV_MWAIT {
            match Mwait::try_from_event(evt) {
                Ok(p) => Payload::Mwait(p),
                Err(_) => Payload::Stop,
            }
        } else if t == PTEV_OVERFLOW {
            match Overflow::try_from_event(evt) {
                Ok(p) => Payload::Overflow(p),
                Err(_) => Payload::Stop,
            }
        } else if t == PTEV_PAGING {
            match Paging::try_from_event(evt) {
                Ok(p) => Payload::Paging(p),
                Err(_) => Payload::Stop,
            }
        } else if t == PTEV_PTWRITE {
            match Ptwrite::try_from_event(evt) {
                Ok(p) => Payload::Ptwrite(p),
                Err(_) => Payload::Stop,
            }
        } else if t == PTEV_PWRE {
            match Pwre::try_from_event(evt) {
                Ok(p) => Payload::Pwre(p),
                Err(_) => Payload::Stop,
            }
        } else if t == PTEV_PWRX {
            match Pwrx::try_from_event(evt) {
                Ok(p) => Payload::Pwrx(p),
                Err(_) => Payload::Stop,
            }
        } else if t == PTEV_TICK {
            match Tick::try_from_event(evt) {
                Ok(p) => Payload::Tick(p),
                Err(_) => Payload::Stop,
            }
        } else if t == PTEV_TSX {
            match Tsx::try_from_event(evt) {
                Ok(p) => Payload::Tsx(p),
                Err(_) => Payload::Stop,
            }
        } else if t == PTEV_VMCS {
            match Vmcs::try_from_event(evt) {
                Ok(p) => Payload::Vmcs(p),
                Err(_) => Payload::Stop,
            }
        } else {
            Payload::Stop
        }
    }
}

/// The error that viewing an event as a payload of another type gives.
pub open spec fn wrong_event_type_view() -> (crate::error::PtErrorCode, Seq<char>) {
    (crate::error::PtErrorCode::Invalid, "the event is of another type"@)
}

/// The error that viewing an event as a payload of another type gives.
pub fn wrong_event_type() -> (e: crate::error::PtError)
    ensures
        e@ == wrong_event_type_view(),
{
    crate::error::PtError::new(crate::error::PtErrorCode::Invalid, "the event is of another type")
}

/// Each payload belongs to the libipt event type of its name, so the payload
/// that `Payload::from_event` gives an event is the one of the event's type:
/// a paging event gives `Paging`, an asynchronous paging event `AsyncPaging`,
/// and so on.
pub proof fn lemma_payloads_follow_event_types(p: Payload)
    ensures
        p matches Payload::Enabled(_) ==> p.event_type() == PTEV_ENABLED,
        p matches Payload::Disabled(_) ==> p.event_type() == PTEV_DISABLED,
        p matches Payload::AsnycDisabled(_) ==> p.event_type() == PTEV_ASYNC_DISABLED,
        p matches Payload::AsyncBranch(_) ==> p.event_type() == PTEV_ASYNC_BRANCH,
        p matches Payload::Paging(_) ==> p.event_type() == PTEV_PAGING,
        p matches Payload::AsyncPaging(_) ==> p.event_type() == PTEV_ASYNC_PAGING,
        p matches Payload::Overflow(_) ==> p.event_type() == PTEV_OVERFLOW,
        p matches Payload::ExecMode(_) ==> p.event_type() == PTEV_EXEC_MODE,
        p matches Payload::Tsx(_) ==> p.event_type() == PTEV_TSX,
        p matches Payload::Vmcs(_) ==> p.event_type() == PTEV_VMCS,
        p matches Payload::AsyncVmcs(_) ==> p.event_type() == PTEV_ASYNC_VMCS,
        p matches Payload::Exstop(_) ==> p.event_type() == PTEV_EXSTOP,
        p matches Payload::Mwait(_) ==> p.event_type() == PTEV_MWAIT,
        p matches Payload::Pwre(_) ==> p.event_type() == PTEV_PWRE,
        p matches Payload::Pwrx(_) ==> p.event_type() == PTEV_PWRX,
        p matches Payload::Ptwrite(_) ==> p.event_type() == PTEV_PTWRITE,
        p matches Payload::Tick(_) ==> p.event_type() == PTEV_TICK,
        p matches Payload::Mnt(_) ==> p.event_type() == PTEV_MNT,
        p matches Payload::Cbr(_) ==> p.event_type() == PTEV_CBR,
        p is Stop ==> p.event_type() == PTEV_STOP,
{
}

} // verus!
