use vstd::prelude::*;

verus! {

/// Frequency values used for timing packets
#[derive(Clone, Copy, Debug)]
pub struct Frequency {
    /// The Mini Time Counter (MTC) frequency as defined in IA32_RTIT_CTL.MTCFreq.
    pub(super) mtc: u8,
    /// The nominal or max non-turbo frequency.
    pub(super) nom: u8,
    /// The value of ebx on a cpuid call for leaf 0x15.
    pub(super) ctc: u32,
    /// The value of eax on a cpuid call for leaf 0x15.
    pub(super) tsc: u32,
}

/// The four frequency values.
pub struct FrequencyView {
    pub mtc: u8,
    pub nom: u8,
    pub ctc: u32,
    pub tsc: u32,
}

impl View for Frequency {
    type V = FrequencyView;

    closed spec fn view(&self) -> FrequencyView {
        FrequencyView { mtc: self.mtc, nom: self.nom, ctc: self.ctc, tsc: self.tsc }
    }
}

impl Frequency {
    /// Initialize frequency values used in timing packets
    /// * `mtc` - The Mini Time Counter (MTC) frequency as defined in IA32_RTIT_CTL.MTCFreq
    /// * `nom` - The nominal or max non-turbo frequency
    /// * `ctc` - The value of ebx on a cpuid call for leaf 0x15
    /// * `tsc` - The value of eax on a cpuid call for leaf 0x15
    pub fn new(mtc: u8, nom: u8, ctc: u32, tsc: u32) -> (f: Frequency)
        ensures
            f@ == (FrequencyView { mtc, nom, ctc, tsc }),
    {
        Frequency { mtc, nom, ctc, tsc }
    }

    /// The Mini Time Counter (MTC) frequency as defined in IA32_RTIT_CTL.MTCFreq.
    ///
    /// This field is ignored by the packet encoder and packet decoder. It is
    /// required for other decoders if Mini Time Counter (MTC) packets are enabled
    /// in the collected trace.
    pub fn mtc(self) -> (r: u8)
        ensures
            r == self@.mtc,
    {
        self.mtc
    }

    /// The nominal or max non-turbo frequency.
    ///
    /// If the field is zero, the time tracking algorithm will use Mini Time
    /// Counter (MTC) and Cycle Count (CYC) packets for calibration; if it is
    /// non-zero, it will additionally be able to calibrate at Core:Bus Ratio
    /// (CBR) packets.
    pub fn nom(self) -> (r: u8)
        ensures
            r == self@.nom,
    {
        self.nom
    }

    /// The value of ebx on a cpuid call for leaf 0x15.
    ///
    /// The value *ebx/eax* gives the ratio of the Core Crystal Clock (CTC) to
    /// Timestamp Counter (TSC) frequency.
    pub fn ctc(self) -> (r: u32)
        ensures
            r == self@.ctc,
    {
        self.ctc
    }

    /// The value of eax on a cpuid call for leaf 0x15.
    ///
    /// The value *ebx/eax* gives the ratio of the Core Crystal Clock (CTC) to
    /// Timestamp Counter (TSC) frequency.
    pub fn tsc(self) -> (r: u32)
        ensures
            r == self@.tsc,
    {
        self.tsc
    }

    /// Sets the Mini Time Counter (MTC) frequency.
    pub fn set_mtc(&mut self, mtc: u8)
        ensures
            final(self)@ == (FrequencyView { mtc, ..old(self)@ }),
    {
        self.mtc = mtc
    }

    /// Sets the nominal frequency.
    pub fn set_nom(&mut self, nom: u8)
        ensures
            final(self)@ == (FrequencyView { nom, ..old(self)@ }),
    {
        self.nom = nom
    }

    /// Sets the value of ebx on a cpuid call for leaf 0x15.
    pub fn set_ctc(&mut self, ctc: u32)
        ensures
            final(self)@ == (FrequencyView { ctc, ..old(self)@ }),
    {
        self.ctc = ctc
    }

    /// Sets the value of eax on a cpuid call for leaf 0x15.
    pub fn set_tsc(&mut self, tsc: u32)
        ensures
            final(self)@ == (FrequencyView { tsc, ..old(self)@ }),
    {
        self.tsc = tsc
    }
}

impl Default for Frequency {
    /// All frequency values zero.
    fn default() -> (f: Frequency)
        ensures
            f@ == (FrequencyView { mtc: 0, nom: 0, ctc: 0, tsc: 0 }),
    {
        Frequency { mtc: 0, nom: 0, ctc: 0, tsc: 0 }
    }
}

} // verus!
