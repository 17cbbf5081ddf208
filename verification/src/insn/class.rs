use crate::error::PtError;
use vstd::prelude::*;

verus! {

/// libipt's `ptic_unknown`.
pub const PTIC_UNKNOWN: u32 = 0;

/// libipt's `ptic_other`.
pub const PTIC_OTHER: u32 = 1;

/// libipt's `ptic_call`.
pub const PTIC_CALL: u32 = 2;

/// libipt's `ptic_return`.
pub const PTIC_RETURN: u32 = 3;

/// libipt's `ptic_jump`.
pub const PTIC_JUMP: u32 = 4;

/// libipt's `ptic_cond_jump`.
pub const PTIC_COND_JUMP: u32 = 5;

/// libipt's `ptic_far_call`.
pub const PTIC_FAR_CALL: u32 = 6;

/// libipt's `ptic_far_return`.
pub const PTIC_FAR_RETURN: u32 = 7;

/// libipt's `ptic_far_jump`.
pub const PTIC_FAR_JUMP: u32 = 8;

/// libipt's `ptic_ptwrite`.
pub const PTIC_PTWRITE: u32 = 9;

/// The instruction class.
///
/// We provide only a very coarse classification suitable for reconstructing
/// the execution flow.
#[derive(Clone, Copy, Debug, PartialEq, Eq, Structural)]
pub enum Class {
    /// The instruction is a near (function) call.
    Call,
    /// The instruction is a near conditional jump.
    CondJump,
    /// The instruction could not be classified.
    Unknown,
    /// The instruction is a call-like far transfer.
    /// E.g. SYSCALL, SYSENTER, or FAR CALL.
    FarCall,
    /// The instruction is a jump-like far transfer.
    /// E.g. FAR JMP.
    FarJump,
    /// The instruction is a return-like far transfer.
    /// E.g. SYSRET, SYSEXIT, IRET, or FAR RET.
    FarReturn,
    /// The instruction is a near unconditional jump.
    Jump,
    /// The instruction is something not listed below.
    Other,
    /// The instruction is a PTWRITE.
    Ptwrite,
    /// The instruction is a near (function) return.
    Return,
}

impl Class {
    /// The number of this class in libipt's `pt_insn_class`.
    pub open spec fn value(self) -> u32 {
        match self {
            Class::Unknown => 0,
            Class::Other => 1,
            Class::Call => 2,
            Class::Return => 3,
            Class::Jump => 4,
            Class::CondJump => 5,
            Class::FarCall => 6,
            Class::FarReturn => 7,
            Class::FarJump => 8,
            Class::Ptwrite => 9,
        }
    }

    /// The class whose number is `v`, if there is one.
    pub open spec fn from_value(v: u32) -> Option<Class> {
        if v == 0 {
            Some(Class::Unknown)
        } else if v == 1 {
            Some(Class::Other)
        } else if v == 2 {
            Some(Class::Call)
        } else if v == 3 {
            Some(Class::Return)
        } else if v == 4 {
            Some(Class::Jump)
        } else if v == 5 {
            Some(Class::CondJump)
        } else if v == 6 {
            Some(Class::FarCall)
        } else if v == 7 {
            Some(Class::FarReturn)
        } else if v == 8 {
            Some(Class::FarJump)
        } else if v == 9 {
            Some(Class::Ptwrite)
        } else {
            None
        }
    }

    /// The number of this class.
    pub fn to_primitive(self) -> (v: u32)
        ensures
            v == self.value(),
    {
        match self {
            Class::Unknown => 0,
            Class::Other => 1,
            Class::Call => 2,
            Class::Return => 3,
            Class::Jump => 4,
            Class::CondJump => 5,
            Class::FarCall => 6,
            Class::FarReturn => 7,
            Class::FarJump => 8,
            Class::Ptwrite => 9,
        }
    }

    /// Converts a raw class number; a number that names no class gives the
    /// conversion error.
    pub fn try_from_primitive(v: u32) -> (r: Result<Class, PtError>)
        ensures
            match Class::from_value(v) {
                Some(c) => r == Ok::<Class, PtError>(c),
                None => r is Err && r->Err_0@ == PtError::conversion_failure_view(),
            },
    {
        if v == 0 {
            Ok(Class::Unknown)
        } else if v == 1 {
            Ok(Class::Other)
        } else if v == 2 {
            Ok(Class::Call)
        } else if v == 3 {
            Ok(Class::Return)
        } else if v == 4 {
            Ok(Class::Jump)
        } else if v == 5 {
            Ok(Class::CondJump)
        } else if v == 6 {
            Ok(Class::FarCall)
        } else if v == 7 {
            Ok(Class::FarReturn)
        } else if v == 8 {
            Ok(Class::FarJump)
        } else if v == 9 {
            Ok(Class::Ptwrite)
        } else {
            Err(PtError::conversion_failure())
        }
    }
}

/// Each class has the number that libipt's `pt_insn_class` gives the class
/// of the same name, so the `iclass` of a libipt instruction or block is
/// read (by `try_from_primitive`, `Insn::class` and `Block::class`) as the
/// class of that name.
pub proof fn lemma_classes_are_libipt_classes()
    ensures
        Class::from_value(PTIC_UNKNOWN) == Some(Class::Unknown),
        Class::from_value(PTIC_OTHER) == Some(Class::Other),
        Class::from_value(PTIC_CALL) == Some(Class::Call),
        Class::from_value(PTIC_RETURN) == Some(Class::Return),
        Class::from_value(PTIC_JUMP) == Some(Class::Jump),
        Class::from_value(PTIC_COND_JUMP) == Some(Class::CondJump),
        Class::from_value(PTIC_FAR_CALL) == Some(Class::FarCall),
        Class::from_value(PTIC_FAR_RETURN) == Some(Class::FarReturn),
        Class::from_value(PTIC_FAR_JUMP) == Some(Class::FarJump),
        Class::from_value(PTIC_PTWRITE) == Some(Class::Ptwrite),
{
}

/// Converting a class to its number and back gives it again.
pub proof fn lemma_class_roundtrip(c: Class, v: u32)
    ensures
        Class::from_value(c.value()) == Some(c),
        Class::from_value(v) == Some(c) ==> c.value() == v,
{
}

} // verus!
