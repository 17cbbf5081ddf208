//! Simple API for iterating over blocks of sequential instructions in execution order.

use crate::event::ExecModeType;
use crate::insn::Class;
use vstd::prelude::*;

verus! {

/// The fields of a libipt block (`pt_block`).
pub struct BlockView {
    pub ip: u64,
    pub end_ip: u64,
    pub isid: i32,
    pub mode: u32,
    pub iclass: u32,
    pub ninsn: u16,
    pub raw: Seq<u8>,
    pub size: u8,
    pub speculative: bool,
    pub truncated: bool,
}

/// A block of instructions.
///
/// Instructions in this block are executed sequentially but are not necessarily
/// contiguous in memory. Users are expected to follow direct branches.
#[derive(Debug, Clone, Copy)]
pub struct Block {
    ip: u64,
    end_ip: u64,
    isid: i32,
    mode: u32,
    iclass: u32,
    ninsn: u16,
    raw: [u8; 15],
    size: u8,
    speculative: bool,
    truncated: bool,
}

impl View for Block {
    type V = BlockView;

    closed spec fn view(&self) -> BlockView {
        BlockView {
            ip: self.ip,
            end_ip: self.end_ip,
            isid: self.isid,
            mode: self.mode,
            iclass: self.iclass,
            ninsn: self.ninsn,
            raw: self.raw@,
            size: self.size,
            speculative: self.speculative,
            truncated: self.truncated,
        }
    }
}

impl Block {
    /// A block with these fields.
    pub fn from_raw(
        ip: u64,
        end_ip: u64,
        isid: i32,
        mode: u32,
        iclass: u32,
        ninsn: u16,
        raw: [u8; 15],
        size: u8,
        speculative: bool,
        truncated: bool,
    ) -> (b: Block)
        ensures
            b@ == (BlockView {
                ip,
                end_ip,
                isid,
                mode,
                iclass,
                ninsn,
                raw: raw@,
                size,
                speculative,
                truncated,
            }),
    {
        Block { ip, end_ip, isid, mode, iclass, ninsn, raw, size, speculative, truncated }
    }

    /// The IP of the first instruction in this block.
    pub fn ip(&self) -> (r: u64)
        ensures
            r == self@.ip,
    {
        self.ip
    }

    /// The IP of the last instruction in this block.
    ///
    /// This can be used for error-detection.
    pub fn end_ip(&self) -> (r: u64)
        ensures
            r == self@.end_ip,
    {
        self.end_ip
    }

    /// The image section that contains the instructions in this block.
    ///
    /// A value of zero means that the section did not have an identifier.
    /// The section was not added via an image section cache or the memory
    /// was read via the read memory callback.
    pub fn isid(&self) -> (r: i32)
        ensures
            r == self@.isid,
    {
        self.isid
    }

    /// The execution mode for all instructions in this block.
    pub fn mode(&self) -> (m: ExecModeType)
        requires
            ExecModeType::from_value(self@.mode) is Some,
        ensures
            Some(m) == ExecModeType::from_value(self@.mode),
    {
        match ExecModeType::try_from_primitive(self.mode) {
            Ok(m) => m,
            Err(_) => ExecModeType::Unknown,
        }
    }

    /// The instruction class for the last instruction in this block.
    ///
    /// This field may be set to `Class::Unknown` to indicate that the instruction
    /// class is not available. The block decoder may choose to not provide
    /// the instruction class in some cases for performance reasons.
    pub fn class(&self) -> (c: Class)
        requires
            Class::from_value(self@.iclass) is Some,
        ensures
            Some(c) == Class::from_value(self@.iclass),
    {
        match Class::try_from_primitive(self.iclass) {
            Ok(c) => c,
            Err(_) => Class::Unknown,
        }
    }

    /// The number of instructions in this block.
    pub fn ninsn(&self) -> (r: u16)
        ensures
            r == self@.ninsn,
    {
        self.ninsn
    }

    /// The raw bytes of the last instruction in this block in case the
    /// instruction does not fit entirely into this block's section.
    ///
    /// This field is `Some` only if `truncated()` is true.
    pub fn raw(&self) -> (r: Option<&[u8]>)
        requires
            self@.truncated ==> self@.size <= 15,
        ensures
            self@.truncated <==> r is Some,
            r matches Some(bytes) ==> bytes@ == self@.raw.subrange(0, self@.size as int),
    {
        if self.truncated {
            Some(&self.raw[0..self.size as usize])
        } else {
            None
        }
    }

    /// All instructions in this block were executed speculatively.
    pub fn speculative(&self) -> (b: bool)
        ensures
            b == self@.speculative,
    {
        self.speculative
    }

    /// The last instruction in this block is truncated.
    ///
    /// It starts in this block's section but continues in one or more
    /// other sections depending on how fragmented the memory image is.
    ///
    /// The raw bytes for the last instruction are provided in @raw and
    /// its size in @size in this case.
    pub fn truncated(&self) -> (b: bool)
        ensures
            b == self@.truncated,
    {
        self.truncated
    }
}

} // verus!
