use super::{low_u32, word_low_u32, wrong_event_type, wrong_event_type_view, Event, EventView, PTEV_EXEC_MODE};
use crate::error::PtError;
use vstd::prelude::*;

verus! {

/// libipt's `ptem_unknown`.
pub const PTEM_UNKNOWN: u32 = 0;

/// libipt's `ptem_16bit`.
pub const PTEM_16BIT: u32 = 1;

/// libipt's `ptem_32bit`.
pub const PTEM_32BIT: u32 = 2;

/// libipt's `ptem_64bit`.
pub const PTEM_64BIT: u32 = 3;

/// An execution mode, as libipt's `pt_exec_mode` numbers them.
#[derive(Clone, Copy, Debug, PartialEq, Eq, Structural)]
pub enum ExecModeType {
    Bit16,
    Bit32,
    Bit64,
    Unknown,
}

impl ExecModeType {
    /// The number of this mode: `ptem_unknown` is 0, `ptem_16bit` 1,
    /// `ptem_32bit` 2 and `ptem_64bit` 3.
    pub open spec fn value(self) -> u32 {
        match self {
            ExecModeType::Unknown => 0,
            ExecModeType::Bit16 => 1,
            ExecModeType::Bit32 => 2,
            ExecModeType::Bit64 => 3,
        }
    }

    /// The mode whose number is `v`, if there is one.
    pub open spec fn from_value(v: u32) -> Option<ExecModeType> {
        if v == 0 {
            Some(ExecModeType::Unknown)
        } else if v == 1 {
            Some(ExecModeType::Bit16)
        } else if v == 2 {
            Some(ExecModeType::Bit32)
        } else if v == 3 {
            Some(ExecModeType::Bit64)
        } else {
            None
        }
    }

    /// The number of this mode.
    pub fn to_primitive(self) -> (v: u32)
        ensures
            v == self.value(),
    {
        match self {
            ExecModeType::Unknown => 0,
            ExecModeType::Bit16 => 1,
            ExecModeType::Bit32 => 2,
            ExecModeType::Bit64 => 3,
        }
    }

    /// Converts a raw mode number; a number that names no mode gives the
    /// conversion error.
    pub fn try_from_primitive(v: u32) -> (r: Result<ExecModeType, PtError>)
        ensures
            match ExecModeType::from_value(v) {
                Some(m) => r == Ok::<ExecModeType, PtError>(m),
                None => r is Err && r->Err_0@ == PtError::conversion_failure_view(),
            },
    {
        if v == 0 {
            Ok(ExecModeType::Unknown)
        } else if v == 1 {
            Ok(ExecModeType::Bit16)
        } else if v == 2 {
            Ok(ExecModeType::Bit32)
        } else if v == 3 {
            Ok(ExecModeType::Bit64)
        } else {
            Err(PtError::conversion_failure())
        }
    }
}

/// Each execution mode has the number that libipt's `pt_exec_mode` gives the
/// mode of the same name, so the mode of an event is read as the mode
/// libipt reported.
pub proof fn lemma_exec_modes_are_libipt_modes()
    ensures
        ExecModeType::from_value(PTEM_UNKNOWN) == Some(ExecModeType::Unknown),
        ExecModeType::from_value(PTEM_16BIT) == Some(ExecModeType::Bit16),
        ExecModeType::from_value(PTEM_32BIT) == Some(ExecModeType::Bit32),
        ExecModeType::from_value(PTEM_64BIT) == Some(ExecModeType::Bit64),
{
}

/// Converting a mode to its number and back gives it again.
pub proof fn lemma_exec_mode_roundtrip(m: ExecModeType, v: u32)
    ensures
        ExecModeType::from_value(m.value()) == Some(m),
        ExecModeType::from_value(v) == Some(m) ==> m.value() == v,
{
}

/// An execution mode change
#[derive(Clone, Copy, Debug)]
pub struct ExecMode {
    pub(super) event: Event,
}

impl View for ExecMode {
    type V = EventView;

    closed spec fn view(&self) -> EventView {
        self.event@
    }
}

impl ExecMode {
    /// The address at which the event is effective
    pub fn ip(&self) -> (r: u64)
        ensures
            r == self@.variant.1,
    {
        let v = self.event.raw_variant();
        v.1
    }

    /// The execution mode
    pub fn mode(&self) -> (m: ExecModeType)
        requires
            ExecModeType::from_value(low_u32(self@.variant.0)) is Some,
        ensures
            Some(m) == ExecModeType::from_value(low_u32(self@.variant.0)),
    {
        let v = self.event.raw_variant();
        match ExecModeType::try_from_primitive(word_low_u32(v.0)) {
            Ok(m) => m,
            Err(_) => ExecModeType::Unknown,
        }
    }

    /// The event that this payload views.
    pub fn event(&self) -> (e: Event)
        ensures
            e@ == self@,
    {
        self.event
    }

    /// Views `event` as an execution mode change; an event of another type
    /// gives an `Invalid` error.
    pub fn try_from_event(event: Event) -> (r: Result<ExecMode, PtError>)
        ensures
            r is Ok <==> event@.type_ == PTEV_EXEC_MODE,
            r matches Ok(p) ==> p@ == event@,
            r matches Err(e) ==> e@ == wrong_event_type_view(),
    {
        if event.event_type() == PTEV_EXEC_MODE {
            Ok(ExecMode { event })
        } else {
            Err(wrong_event_type())
        }
    }
}

} // verus!
