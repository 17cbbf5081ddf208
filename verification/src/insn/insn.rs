use super::Class;
use crate::event::ExecModeType;
use vstd::prelude::*;

verus! {

/// The fields of a libipt instruction (`pt_insn`).
pub struct InsnView {
    pub ip: u64,
    pub isid: i32,
    pub mode: u32,
    pub iclass: u32,
    pub raw: Seq<u8>,
    pub size: u8,
    pub speculative: bool,
    pub truncated: bool,
}

/// A single traced instruction.
#[derive(Clone, Copy, Debug)]
pub struct Insn {
    ip: u64,
    isid: i32,
    mode: u32,
    iclass: u32,
    raw: [u8; 15],
    size: u8,
    speculative: bool,
    truncated: bool,
}

impl View for Insn {
    type V = InsnView;

    closed spec fn view(&self) -> InsnView {
        InsnView {
            ip: self.ip,
            isid: self.isid,
            mode: self.mode,
            iclass: self.iclass,
            raw: self.raw@,
            size: self.size,
            speculative: self.speculative,
            truncated: self.truncated,
        }
    }
}

impl Insn {
    /// An instruction with these fields.
    pub fn from_raw(
        ip: u64,
        isid: i32,
        mode: u32,
        iclass: u32,
        raw: [u8; 15],
        size: u8,
        speculative: bool,
        truncated: bool,
    ) -> (i: Insn)
        ensures
            i@ == (InsnView {
                ip,
                isid,
                mode,
                iclass,
                raw: raw@,
                size,
                speculative,
                truncated,
            }),
    {
        Insn { ip, isid, mode, iclass, raw, size, speculative, truncated }
    }

    /// The virtual address in its process.
    pub fn ip(self) -> (r: u64)
        ensures
            r == self@.ip,
    {
        self.ip
    }

    /// The image section identifier for the section containing this instruction.
    ///
    /// A value of zero means that the section did not have an identifier.
    pub fn isid(self) -> (r: i32)
        ensures
            r == self@.isid,
    {
        self.isid
    }

    /// The execution mode.
    pub fn mode(self) -> (m: ExecModeType)
        requires
            ExecModeType::from_value(self@.mode) is Some,
        ensures
            Some(m) == ExecModeType::from_value(self@.mode),
    {
        match ExecModeType::try_from_primitive(self.mode) {
            Ok(m) => m,
            Err(_) => ExecModeType::Unknown,
        }
    }

    /// A coarse classification.
    pub fn class(self) -> (c: Class)
        requires
            Class::from_value(self@.iclass) is Some,
        ensures
            Some(c) == Class::from_value(self@.iclass),
    {
        match Class::try_from_primitive(self.iclass) {
            Ok(c) => c,
            Err(_) => Class::Unknown,
        }
    }

    /// The raw bytes of the instruction: the first `size` of the stored bytes.
    pub fn raw(&self) -> (r: &[u8])
        requires
            self@.size <= 15,
        ensures
            r@ == self@.raw.subrange(0, self@.size as int),
    {
        &self.raw[0..self.size as usize]
    }

    /// A collection of flags giving additional information:
    ///
    /// - the instruction was executed speculatively.
    pub fn speculative(self) -> (b: bool)
        ensures
            b == self@.speculative,
    {
        self.speculative
    }

    /// A collection of flags giving additional information:
    ///
    /// - this instruction is truncated in its image section.
    ///
    /// It starts in the image section identified by \@isid and continues
    /// in one or more other sections.
    pub fn truncated(self) -> (b: bool)
        ensures
            b == self@.truncated,
    {
        self.truncated
    }
}

} // verus!
