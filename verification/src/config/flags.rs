use vstd::prelude::*;

verus! {

/// Block decoder flag word bit: end a block after a call instruction.
pub const BLOCK_END_ON_CALL_BIT: u32 = 0;
/// Block decoder flag word bit: enable tick events.
pub const BLOCK_ENABLE_TICK_EVENTS_BIT: u32 = 1;
/// Block decoder flag word bit: end a block after a jump instruction.
pub const BLOCK_END_ON_JUMP_BIT: u32 = 2;
/// Block decoder flag word bit: preserve timing calibration on overflow.
pub const BLOCK_KEEP_TCAL_ON_OVF_BIT: u32 = 3;
/// Block decoder flag word bit: enable iflags events.
pub const BLOCK_ENABLE_IFLAGS_EVENTS_BIT: u32 = 4;

/// Instruction flow decoder flag word bit: enable tick events.
pub const INSN_ENABLE_TICK_EVENTS_BIT: u32 = 0;
/// Instruction flow decoder flag word bit: preserve timing calibration on overflow.
pub const INSN_KEEP_TCAL_ON_OVF_BIT: u32 = 1;
/// Instruction flow decoder flag word bit: enable iflags events.
pub const INSN_ENABLE_IFLAGS_EVENTS_BIT: u32 = 2;

/// Query decoder flag word bit: preserve timing calibration on overflow.
pub const QUERY_KEEP_TCAL_ON_OVF_BIT: u32 = 0;
/// Query decoder flag word bit: enable iflags events.
pub const QUERY_ENABLE_IFLAGS_EVENTS_BIT: u32 = 1;

/// Facts on a mask `m` of defined bits: masking a byte keeps only defined
/// bits, `m` itself and zero hold only defined bits, and so does the union
/// of two bytes that hold only defined bits.
proof fn lemma_mask_keeps_defined_bits(x: u8, y: u8, m: u8)
    ensures
        (x & m) & !m == 0,
        m & !m == 0,
        0u8 & !m == 0,
        x & !m == 0 && y & !m == 0 ==> (x | y) & !m == 0,
{
    assert({
        &&& (x & m) & !m == 0
        &&& m & !m == 0
        &&& 0u8 & !m == 0
        &&& (x & !m == 0 && y & !m == 0 ==> (x | y) & !m == 0)
    }) by (bit_vector);
}

/// flags for the block decoder
#[derive(Clone, Copy, Debug, PartialEq, Eq, Structural)]
pub struct BlockFlags {
    bits: u8,
}

impl View for BlockFlags {
    type V = u8;

    closed spec fn view(&self) -> u8 {
        self.bits
    }
}

impl BlockFlags {
    /// End a block after a call instruction
    pub const END_ON_CALL: u8 = 1;

    /// Enable tick events for timing updates
    pub const ENABLE_TICK_EVENTS: u8 = 2;

    /// End a block after a jump instruction
    pub const END_ON_JUMP: u8 = 4;

    /// Preserve timing calibration on overflow
    pub const KEEP_TCAL_ON_OVF: u8 = 8;

    /// All defined flag bits.
    pub const ALL_BITS: u8 = 15;

    /// No bit is set that names no flag.
    #[verifier::type_invariant]
    closed spec fn only_defined_bits(self) -> bool {
        self.bits & !BlockFlags::ALL_BITS == 0
    }

    /// The flags whose bits are `bits`, if every bit is a defined flag.
    pub fn from_bits(bits: u8) -> (r: Option<BlockFlags>)
        ensures
            r is Some <==> bits & !BlockFlags::ALL_BITS == 0,
            r matches Some(f) ==> f@ == bits,
    {
        if bits & !BlockFlags::ALL_BITS == 0 {
            Some(BlockFlags { bits })
        } else {
            None
        }
    }

    /// The flags whose bits are `bits`, with undefined bits dropped.
    pub fn from_bits_truncate(bits: u8) -> (f: BlockFlags)
        ensures
            f@ == bits & BlockFlags::ALL_BITS,
    {
        proof {
            lemma_mask_keeps_defined_bits(bits, 0, BlockFlags::ALL_BITS);
        }
        BlockFlags { bits: bits & BlockFlags::ALL_BITS }
    }

    /// No flag set.
    pub fn empty() -> (f: BlockFlags)
        ensures
            f@ == 0,
    {
        proof {
            lemma_mask_keeps_defined_bits(0, 0, BlockFlags::ALL_BITS);
        }
        BlockFlags { bits: 0 }
    }

    /// All flags set.
    pub fn all() -> (f: BlockFlags)
        ensures
            f@ == BlockFlags::ALL_BITS,
    {
        proof {
            lemma_mask_keeps_defined_bits(BlockFlags::ALL_BITS, 0, BlockFlags::ALL_BITS);
        }
        BlockFlags { bits: BlockFlags::ALL_BITS }
    }

    /// The raw bits: only bits that name a flag are set.
    pub fn bits(&self) -> (b: u8)
        ensures
            b == self@,
            b & !BlockFlags::ALL_BITS == 0,
    {
        proof {
            use_type_invariant(self);
        }
        self.bits
    }

    /// Whether every flag of `other` is set here.
    pub fn contains(&self, other: BlockFlags) -> (b: bool)
        ensures
            b == (self@ & other@ == other@),
    {
        self.bits & other.bits == other.bits
    }

    /// The flags set in either.
    pub fn union(self, other: BlockFlags) -> (f: BlockFlags)
        ensures
            f@ == self@ | other@,
    {
        proof {
            use_type_invariant(&self);
            use_type_invariant(&other);
            lemma_mask_keeps_defined_bits(self.bits, other.bits, BlockFlags::ALL_BITS);
        }
        BlockFlags { bits: self.bits | other.bits }
    }

    /// The decoder flag word of a libipt configuration that these flags give:
    /// the flag bits in its lowest byte.
    pub fn to_conf_flags(self) -> (w: u32)
        ensures
            w == self@ as u32,
    {
        self.bits as u32
    }
}

/// flags for the instruction flow decoder
#[derive(Clone, Copy, Debug, PartialEq, Eq, Structural)]
pub struct InsnFlags {
    bits: u8,
}

impl View for InsnFlags {
    type V = u8;

    closed spec fn view(&self) -> u8 {
        self.bits
    }
}

impl InsnFlags {
    /// Enable tick events for timing updates
    pub const ENABLE_TICK_EVENTS: u8 = 1;

    /// Preserve timing calibration on overflow
    pub const KEEP_TCAL_ON_OVF: u8 = 2;

    /// All defined flag bits.
    pub const ALL_BITS: u8 = 3;

    /// No bit is set that names no flag.
    #[verifier::type_invariant]
    closed spec fn only_defined_bits(self) -> bool {
        self.bits & !InsnFlags::ALL_BITS == 0
    }

    /// The flags whose bits are `bits`, if every bit is a defined flag.
    pub fn from_bits(bits: u8) -> (r: Option<InsnFlags>)
        ensures
            r is Some <==> bits & !InsnFlags::ALL_BITS == 0,
            r matches Some(f) ==> f@ == bits,
    {
        if bits & !InsnFlags::ALL_BITS == 0 {
            Some(InsnFlags { bits })
        } else {
            None
        }
    }

    /// The flags whose bits are `bits`, with undefined bits dropped.
    pub fn from_bits_truncate(bits: u8) -> (f: InsnFlags)
        ensures
            f@ == bits & InsnFlags::ALL_BITS,
    {
        proof {
            lemma_mask_keeps_defined_bits(bits, 0, InsnFlags::ALL_BITS);
        }
        InsnFlags { bits: bits & InsnFlags::ALL_BITS }
    }

    /// No flag set.
    pub fn empty() -> (f: InsnFlags)
        ensures
            f@ == 0,
    {
        proof {
            lemma_mask_keeps_defined_bits(0, 0, InsnFlags::ALL_BITS);
        }
        InsnFlags { bits: 0 }
    }

    /// All flags set.
    pub fn all() -> (f: InsnFlags)
        ensures
            f@ == InsnFlags::ALL_BITS,
    {
        proof {
            lemma_mask_keeps_defined_bits(InsnFlags::ALL_BITS, 0, InsnFlags::ALL_BITS);
        }
        InsnFlags { bits: InsnFlags::ALL_BITS }
    }

    /// The raw bits: only bits that name a flag are set.
    pub fn bits(&self) -> (b: u8)
        ensures
            b == self@,
            b & !InsnFlags::ALL_BITS == 0,
    {
        proof {
            use_type_invariant(self);
        }
        self.bits
    }

    /// Whether every flag of `other` is set here.
    pub fn contains(&self, other: InsnFlags) -> (b: bool)
        ensures
            b == (self@ & other@ == other@),
    {
        self.bits & other.bits == other.bits
    }

    /// The flags set in either.
    pub fn union(self, other: InsnFlags) -> (f: InsnFlags)
        ensures
            f@ == self@ | other@,
    {
        proof {
            use_type_invariant(&self);
            use_type_invariant(&other);
            lemma_mask_keeps_defined_bits(self.bits, other.bits, InsnFlags::ALL_BITS);
        }
        InsnFlags { bits: self.bits | other.bits }
    }

    /// The decoder flag word of a libipt configuration that these flags give:
    /// the flag bits in its lowest byte.
    pub fn to_conf_flags(self) -> (w: u32)
        ensures
            w == self@ as u32,
    {
        self.bits as u32
    }
}

/// flags for the query decoder
#[derive(Clone, Copy, Debug, PartialEq, Eq, Structural)]
pub struct QueryFlags {
    bits: u8,
}

impl View for QueryFlags {
    type V = u8;

    closed spec fn view(&self) -> u8 {
        self.bits
    }
}

impl QueryFlags {
    /// Preserve timing calibration on overflow
    pub const KEEP_TCAL_ON_OVF: u8 = 1;

    /// All defined flag bits.
    pub const ALL_BITS: u8 = 1;

    /// No bit is set that names no flag.
    #[verifier::type_invariant]
    closed spec fn only_defined_bits(self) -> bool {
        self.bits & !QueryFlags::ALL_BITS == 0
    }

    /// The flags whose bits are `bits`, if every bit is a defined flag.
    pub fn from_bits(bits: u8) -> (r: Option<QueryFlags>)
        ensures
            r is Some <==> bits & !QueryFlags::ALL_BITS == 0,
            r matches Some(f) ==> f@ == bits,
    {
        if bits & !QueryFlags::ALL_BITS == 0 {
            Some(QueryFlags { bits })
        } else {
            None
        }
    }

    /// The flags whose bits are `bits`, with undefined bits dropped.
    pub fn from_bits_truncate(bits: u8) -> (f: QueryFlags)
        ensures
            f@ == bits & QueryFlags::ALL_BITS,
    {
        proof {
            lemma_mask_keeps_defined_bits(bits, 0, QueryFlags::ALL_BITS);
        }
        QueryFlags { bits: bits & QueryFlags::ALL_BITS }
    }

    /// No flag set.
    pub fn empty() -> (f: QueryFlags)
        ensures
            f@ == 0,
    {
        proof {
            lemma_mask_keeps_defined_bits(0, 0, QueryFlags::ALL_BITS);
        }
        QueryFlags { bits: 0 }
    }

    /// All flags set.
    pub fn all() -> (f: QueryFlags)
        ensures
            f@ == QueryFlags::ALL_BITS,
    {
        proof {
            lemma_mask_keeps_defined_bits(QueryFlags::ALL_BITS, 0, QueryFlags::ALL_BITS);
        }
        QueryFlags { bits: QueryFlags::ALL_BITS }
    }

    /// The raw bits: only bits that name a flag are set.
    pub fn bits(&self) -> (b: u8)
        ensures
            b == self@,
            b & !QueryFlags::ALL_BITS == 0,
    {
        proof {
            use_type_invariant(self);
        }
        self.bits
    }

    /// Whether every flag of `other` is set here.
    pub fn contains(&self, other: QueryFlags) -> (b: bool)
        ensures
            b == (self@ & other@ == other@),
    {
        self.bits & other.bits == other.bits
    }

    /// The flags set in either.
    pub fn union(self, other: QueryFlags) -> (f: QueryFlags)
        ensures
            f@ == self@ | other@,
    {
        proof {
            use_type_invariant(&self);
            use_type_invariant(&other);
            lemma_mask_keeps_defined_bits(self.bits, other.bits, QueryFlags::ALL_BITS);
        }
        QueryFlags { bits: self.bits | other.bits }
    }

    /// The decoder flag word of a libipt configuration that these flags give:
    /// the flag bits in its lowest byte.
    pub fn to_conf_flags(self) -> (w: u32)
        ensures
            w == self@ as u32,
    {
        self.bits as u32
    }
}

} // verus!
