//! Machine configuration: partially specified descriptions, their resolved
//! (fully concrete) counterparts, and the rules that fill in defaults.
//!
//! Every `Option` field of a partial configuration that is `None` is replaced
//! by its documented default when the configuration is resolved. The engine
//! only ever receives resolved values.

use crate::constants::{
    FCSR_INIT, FDTADDR_INIT, FROMHOST_INIT, ICYCLEINSTRET_INIT, IFLAGS_INIT, ILRSC_INIT,
    MARCHID_INIT, MCAUSE_INIT, MCOUNTEREN_INIT, MCYCLE_INIT, MEDELEG_INIT, MENVCFG_INIT,
    MEPC_INIT, MHARTID_INIT, MIDELEG_INIT, MIE_INIT, MIMPID_INIT, MIP_INIT, MISA_INIT,
    MSCRATCH_INIT, MSTATUS_INIT, MTIMECMP_INIT, MTVAL_INIT, MTVEC_INIT, MVENDORID_INIT, PC_INIT,
    PMA_DTB_START_DEF, RAM_LENGTH_DEF, REG_X0, REG_X1, REG_X10, REG_X11, REG_X12, REG_X13,
    REG_X14, REG_X15, REG_X16, REG_X17, REG_X18, REG_X19, REG_X2, REG_X20, REG_X21, REG_X22,
    REG_X23, REG_X24, REG_X25, REG_X26, REG_X27, REG_X28, REG_X29, REG_X3, REG_X30, REG_X31,
    REG_X4, REG_X5, REG_X6, REG_X7, REG_X8, REG_X9, SATP_INIT, SCAUSE_INIT, SCOUNTEREN_INIT,
    SENVCFG_INIT, SEPC_INIT, SSCRATCH_INIT, STVAL_INIT, STVEC_INIT, TOHOST_INIT,
    UARCH_CYCLE_INIT, UARCH_HALT_FLAG_INIT, UARCH_PC_INIT, UARCH_X_INIT,
};
use vstd::prelude::*;
use vstd::string::StrSliceExecFns;

verus! {

/// Why a configuration cannot be handed to the engine.
#[derive(Debug, Clone, Copy, PartialEq, Eq, Structural)]
pub enum ConfigError {
    /// An image file name holds a NUL character, so it cannot cross the
    /// engine boundary as a terminated string.
    InvalidPath,
    /// A kernel argument, init or entrypoint text holds a NUL character.
    InvalidText,
    /// A memory range that must hold data has zero length.
    InvalidRange,
}

/// Whether a text can cross the engine boundary as a NUL-terminated string.
pub open spec fn boundary_safe(s: Seq<char>) -> bool {
    !s.contains('\0')
}

/// Whether an optional text is absent or boundary safe.
pub open spec fn optional_text_safe(t: Option<String>) -> bool {
    match t {
        Some(s) => boundary_safe(s@),
        None => true,
    }
}

/// The resolved form of an optional text: the text itself when present,
/// exactly as given, and the empty text when absent.
pub open spec fn text_resolves_to(t: Option<String>, r: String) -> bool {
    match t {
        Some(s) => r == s,
        None => r@ == Seq::<char>::empty(),
    }
}

/// Checks that `s` holds no NUL character.
pub fn is_boundary_safe(s: &str) -> (r: bool)
    ensures
        r == boundary_safe(s@),
{
    let n = s.unicode_len();
    let mut i: usize = 0;
    while i < n
        invariant
            n == s@.len(),
            i <= n,
            forall|j: int| 0 <= j < i ==> s@[j] != '\0',
        decreases n - i,
    {
        if s.get_char(i) == '\0' {
            return false;
        }
        i = i + 1;
    }
    true
}

/// Resolves an optional text: `None` when it cannot cross the boundary.
fn resolve_text(t: &Option<String>) -> (r: Option<String>)
    ensures
        r is Some <==> optional_text_safe(*t),
        r matches Some(s) ==> text_resolves_to(*t, s),
{
    match t {
        Some(s) => {
            if is_boundary_safe(s.as_str()) {
                Some(s.clone())
            } else {
                None
            }
        },
        None => Some(String::new()),
    }
}

/// Memory range configuration.
#[derive(Debug, Default, Clone)]
pub struct MemoryRangeConfig {
    /// Memory range start position
    pub start: u64,
    /// Memory range length
    pub length: u64,
    /// Target changes to range affect image file?
    pub shared: bool,
    /// Memory range image file name
    pub image_filename: Option<String>,
}

/// A memory range as the engine receives it.
#[derive(Debug, Clone)]
pub struct ResolvedMemoryRange {
    pub start: u64,
    pub length: u64,
    pub shared: bool,
    /// Image file name; empty when the range has no backing image.
    pub image_filename: String,
}

impl MemoryRangeConfig {
    pub open spec fn valid(&self) -> bool {
        optional_text_safe(self.image_filename)
    }

    pub open spec fn resolves_to(&self, r: ResolvedMemoryRange) -> bool {
        &&& r.start == self.start
        &&& r.length == self.length
        &&& r.shared == self.shared
        &&& text_resolves_to(self.image_filename, r.image_filename)
    }

    /// Resolves the range; fails only on an image file name with a NUL.
    pub fn resolve(&self) -> (r: Result<ResolvedMemoryRange, ConfigError>)
        ensures
            r is Ok <==> self.valid(),
            r matches Ok(v) ==> self.resolves_to(v),
            r matches Err(e) ==> e == ConfigError::InvalidPath,
    {
        match resolve_text(&self.image_filename) {
            Some(image_filename) => Ok(
                ResolvedMemoryRange {
                    start: self.start,
                    length: self.length,
                    shared: self.shared,
                    image_filename,
                },
            ),
            None => Err(ConfigError::InvalidPath),
        }
    }

    /// The partial configuration that states every field of `r`.
    pub fn from_resolved(r: &ResolvedMemoryRange) -> (c: Self)
        ensures
            c == r.lifted(),
    {
        MemoryRangeConfig {
            start: r.start,
            length: r.length,
            shared: r.shared,
            image_filename: Some(r.image_filename.clone()),
        }
    }
}


/// Control and status registers; each absent one takes its reset value.
#[derive(Debug, Clone)]
pub struct CSR {
    pub fcsr: Option<u64>,
    pub vendor_id: Option<u64>,
    pub arch_id: Option<u64>,
    pub imp_id: Option<u64>,
    pub cycle: Option<u64>,
    pub icycleinstret: Option<u64>,
    pub mstatus: Option<u64>,
    pub mtvec: Option<u64>,
    pub mscratch: Option<u64>,
    pub mepc: Option<u64>,
    pub mcause: Option<u64>,
    pub mtval: Option<u64>,
    pub misa: Option<u64>,
    pub mie: Option<u64>,
    pub mip: Option<u64>,
    pub medeleg: Option<u64>,
    pub mideleg: Option<u64>,
    pub mcounteren: Option<u64>,
    pub menvcfg: Option<u64>,
    pub stvec: Option<u64>,
    pub sscratch: Option<u64>,
    pub sepc: Option<u64>,
    pub scause: Option<u64>,
    pub stval: Option<u64>,
    pub satp: Option<u64>,
    pub scounteren: Option<u64>,
    pub senvcfg: Option<u64>,
    pub ilrsc: Option<u64>,
    pub iflags: Option<u64>,
}

/// Control and status registers as the engine receives them.
#[derive(Debug, Clone, Copy, PartialEq, Eq, Structural)]
pub struct ResolvedCsr {
    pub fcsr: u64,
    pub mvendorid: u64,
    pub marchid: u64,
    pub mimpid: u64,
    pub mcycle: u64,
    pub icycleinstret: u64,
    pub mstatus: u64,
    pub mtvec: u64,
    pub mscratch: u64,
    pub mepc: u64,
    pub mcause: u64,
    pub mtval: u64,
    pub misa: u64,
    pub mie: u64,
    pub mip: u64,
    pub medeleg: u64,
    pub mideleg: u64,
    pub mcounteren: u64,
    pub menvcfg: u64,
    pub stvec: u64,
    pub sscratch: u64,
    pub sepc: u64,
    pub scause: u64,
    pub stval: u64,
    pub satp: u64,
    pub scounteren: u64,
    pub senvcfg: u64,
    pub ilrsc: u64,
    pub iflags: u64,
}

impl Default for CSR {
    /// No register is given: every one takes its reset value.
    fn default() -> (r: Self)
        ensures
            r.all_unset(),
    {
        CSR {
            fcsr: None,
            vendor_id: None,
            arch_id: None,
            imp_id: None,
            cycle: None,
            icycleinstret: None,
            mstatus: None,
            mtvec: None,
            mscratch: None,
            mepc: None,
            mcause: None,
            mtval: None,
            misa: None,
            mie: None,
            mip: None,
            medeleg: None,
            mideleg: None,
            mcounteren: None,
            menvcfg: None,
            stvec: None,
            sscratch: None,
            sepc: None,
            scause: None,
            stval: None,
            satp: None,
            scounteren: None,
            senvcfg: None,
            ilrsc: None,
            iflags: None,
        }
    }
}

impl CSR {
    pub open spec fn all_unset(&self) -> bool {
        &&& self.fcsr is None
        &&& self.vendor_id is None
        &&& self.arch_id is None
        &&& self.imp_id is None
        &&& self.cycle is None
        &&& self.icycleinstret is None
        &&& self.mstatus is None
        &&& self.mtvec is None
        &&& self.mscratch is None
        &&& self.mepc is None
        &&& self.mcause is None
        &&& self.mtval is None
        &&& self.misa is None
        &&& self.mie is None
        &&& self.mip is None
        &&& self.medeleg is None
        &&& self.mideleg is None
        &&& self.mcounteren is None
        &&& self.menvcfg is None
        &&& self.stvec is None
        &&& self.sscratch is None
        &&& self.sepc is None
        &&& self.scause is None
        &&& self.stval is None
        &&& self.satp is None
        &&& self.scounteren is None
        &&& self.senvcfg is None
        &&& self.ilrsc is None
        &&& self.iflags is None
    }

    pub open spec fn all_set(&self) -> bool {
        &&& self.fcsr is Some
        &&& self.vendor_id is Some
        &&& self.arch_id is Some
        &&& self.imp_id is Some
        &&& self.cycle is Some
        &&& self.icycleinstret is Some
        &&& self.mstatus is Some
        &&& self.mtvec is Some
        &&& self.mscratch is Some
        &&& self.mepc is Some
        &&& self.mcause is Some
        &&& self.mtval is Some
        &&& self.misa is Some
        &&& self.mie is Some
        &&& self.mip is Some
        &&& self.medeleg is Some
        &&& self.mideleg is Some
        &&& self.mcounteren is Some
        &&& self.menvcfg is Some
        &&& self.stvec is Some
        &&& self.sscratch is Some
        &&& self.sepc is Some
        &&& self.scause is Some
        &&& self.stval is Some
        &&& self.satp is Some
        &&& self.scounteren is Some
        &&& self.senvcfg is Some
        &&& self.ilrsc is Some
        &&& self.iflags is Some
    }

    /// Each register: the given value, or its architectural reset value.
    pub open spec fn spec_resolve(&self) -> ResolvedCsr {
        ResolvedCsr {
            fcsr: self.fcsr.unwrap_or(FCSR_INIT),
            mvendorid: self.vendor_id.unwrap_or(MVENDORID_INIT),
            marchid: self.arch_id.unwrap_or(MARCHID_INIT),
            mimpid: self.imp_id.unwrap_or(MIMPID_INIT),
            mcycle: self.cycle.unwrap_or(MCYCLE_INIT),
            icycleinstret: self.icycleinstret.unwrap_or(ICYCLEINSTRET_INIT),
            mstatus: self.mstatus.unwrap_or(MSTATUS_INIT),
            mtvec: self.mtvec.unwrap_or(MTVEC_INIT),
            mscratch: self.mscratch.unwrap_or(MSCRATCH_INIT),
            mepc: self.mepc.unwrap_or(MEPC_INIT),
            mcause: self.mcause.unwrap_or(MCAUSE_INIT),
            mtval: self.mtval.unwrap_or(MTVAL_INIT),
            misa: self.misa.unwrap_or(MISA_INIT),
            mie: self.mie.unwrap_or(MIE_INIT),
            mip: self.mip.unwrap_or(MIP_INIT),
            medeleg: self.medeleg.unwrap_or(MEDELEG_INIT),
            mideleg: self.mideleg.unwrap_or(MIDELEG_INIT),
            mcounteren: self.mcounteren.unwrap_or(MCOUNTEREN_INIT),
            menvcfg: self.menvcfg.unwrap_or(MENVCFG_INIT),
            stvec: self.stvec.unwrap_or(STVEC_INIT),
            sscratch: self.sscratch.unwrap_or(SSCRATCH_INIT),
            sepc: self.sepc.unwrap_or(SEPC_INIT),
            scause: self.scause.unwrap_or(SCAUSE_INIT),
            stval: self.stval.unwrap_or(STVAL_INIT),
            satp: self.satp.unwrap_or(SATP_INIT),
            scounteren: self.scounteren.unwrap_or(SCOUNTEREN_INIT),
            senvcfg: self.senvcfg.unwrap_or(SENVCFG_INIT),
            ilrsc: self.ilrsc.unwrap_or(ILRSC_INIT),
            iflags: self.iflags.unwrap_or(IFLAGS_INIT),
        }
    }

    pub fn resolve(&self) -> (r: ResolvedCsr)
        ensures
            r == self.spec_resolve(),
    {
        ResolvedCsr {
            fcsr: self.fcsr.unwrap_or(FCSR_INIT),
            mvendorid: self.vendor_id.unwrap_or(MVENDORID_INIT),
            marchid: self.arch_id.unwrap_or(MARCHID_INIT),
            mimpid: self.imp_id.unwrap_or(MIMPID_INIT),
            mcycle: self.cycle.unwrap_or(MCYCLE_INIT),
            icycleinstret: self.icycleinstret.unwrap_or(ICYCLEINSTRET_INIT),
            mstatus: self.mstatus.unwrap_or(MSTATUS_INIT),
            mtvec: self.mtvec.unwrap_or(MTVEC_INIT),
            mscratch: self.mscratch.unwrap_or(MSCRATCH_INIT),
            mepc: self.mepc.unwrap_or(MEPC_INIT),
            mcause: self.mcause.unwrap_or(MCAUSE_INIT),
            mtval: self.mtval.unwrap_or(MTVAL_INIT),
            misa: self.misa.unwrap_or(MISA_INIT),
            mie: self.mie.unwrap_or(MIE_INIT),
            mip: self.mip.unwrap_or(MIP_INIT),
            medeleg: self.medeleg.unwrap_or(MEDELEG_INIT),
            mideleg: self.mideleg.unwrap_or(MIDELEG_INIT),
            mcounteren: self.mcounteren.unwrap_or(MCOUNTEREN_INIT),
            menvcfg: self.menvcfg.unwrap_or(MENVCFG_INIT),
            stvec: self.stvec.unwrap_or(STVEC_INIT),
            sscratch: self.sscratch.unwrap_or(SSCRATCH_INIT),
            sepc: self.sepc.unwrap_or(SEPC_INIT),
            scause: self.scause.unwrap_or(SCAUSE_INIT),
            stval: self.stval.unwrap_or(STVAL_INIT),
            satp: self.satp.unwrap_or(SATP_INIT),
            scounteren: self.scounteren.unwrap_or(SCOUNTEREN_INIT),
            senvcfg: self.senvcfg.unwrap_or(SENVCFG_INIT),
            ilrsc: self.ilrsc.unwrap_or(ILRSC_INIT),
            iflags: self.iflags.unwrap_or(IFLAGS_INIT),
        }
    }

    /// The register set that states every value of `r`.
    pub fn from_resolved(r: &ResolvedCsr) -> (c: Self)
        ensures
            c == r.lifted(),
    {
        CSR {
            fcsr: Some(r.fcsr),
            vendor_id: Some(r.mvendorid),
            arch_id: Some(r.marchid),
            imp_id: Some(r.mimpid),
            cycle: Some(r.mcycle),
            icycleinstret: Some(r.icycleinstret),
            mstatus: Some(r.mstatus),
            mtvec: Some(r.mtvec),
            mscratch: Some(r.mscratch),
            mepc: Some(r.mepc),
            mcause: Some(r.mcause),
            mtval: Some(r.mtval),
            misa: Some(r.misa),
            mie: Some(r.mie),
            mip: Some(r.mip),
            medeleg: Some(r.medeleg),
            mideleg: Some(r.mideleg),
            mcounteren: Some(r.mcounteren),
            menvcfg: Some(r.menvcfg),
            stvec: Some(r.stvec),
            sscratch: Some(r.sscratch),
            sepc: Some(r.sepc),
            scause: Some(r.scause),
            stval: Some(r.stval),
            satp: Some(r.satp),
            scounteren: Some(r.scounteren),
            senvcfg: Some(r.senvcfg),
            ilrsc: Some(r.ilrsc),
            iflags: Some(r.iflags),
        }
    }
}

impl ResolvedCsr {
    /// The register set that states every value of this one.
    pub open spec fn lifted(self) -> CSR {
        CSR {
            fcsr: Some(self.fcsr),
            vendor_id: Some(self.mvendorid),
            arch_id: Some(self.marchid),
            imp_id: Some(self.mimpid),
            cycle: Some(self.mcycle),
            icycleinstret: Some(self.icycleinstret),
            mstatus: Some(self.mstatus),
            mtvec: Some(self.mtvec),
            mscratch: Some(self.mscratch),
            mepc: Some(self.mepc),
            mcause: Some(self.mcause),
            mtval: Some(self.mtval),
            misa: Some(self.misa),
            mie: Some(self.mie),
            mip: Some(self.mip),
            medeleg: Some(self.medeleg),
            mideleg: Some(self.mideleg),
            mcounteren: Some(self.mcounteren),
            menvcfg: Some(self.menvcfg),
            stvec: Some(self.stvec),
            sscratch: Some(self.sscratch),
            sepc: Some(self.sepc),
            scause: Some(self.scause),
            stval: Some(self.stval),
            satp: Some(self.satp),
            scounteren: Some(self.scounteren),
            senvcfg: Some(self.senvcfg),
            ilrsc: Some(self.ilrsc),
            iflags: Some(self.iflags),
        }
    }
}

/// Every control and status register at its architectural reset value.
pub open spec fn reset_csr() -> ResolvedCsr {
    ResolvedCsr {
        fcsr: FCSR_INIT,
        mvendorid: MVENDORID_INIT,
        marchid: MARCHID_INIT,
        mimpid: MIMPID_INIT,
        mcycle: MCYCLE_INIT,
        icycleinstret: ICYCLEINSTRET_INIT,
        mstatus: MSTATUS_INIT,
        mtvec: MTVEC_INIT,
        mscratch: MSCRATCH_INIT,
        mepc: MEPC_INIT,
        mcause: MCAUSE_INIT,
        mtval: MTVAL_INIT,
        misa: MISA_INIT,
        mie: MIE_INIT,
        mip: MIP_INIT,
        medeleg: MEDELEG_INIT,
        mideleg: MIDELEG_INIT,
        mcounteren: MCOUNTEREN_INIT,
        menvcfg: MENVCFG_INIT,
        stvec: STVEC_INIT,
        sscratch: SSCRATCH_INIT,
        sepc: SEPC_INIT,
        scause: SCAUSE_INIT,
        stval: STVAL_INIT,
        satp: SATP_INIT,
        scounteren: SCOUNTEREN_INIT,
        senvcfg: SENVCFG_INIT,
        ilrsc: ILRSC_INIT,
        iflags: IFLAGS_INIT,
    }
}

/// The general-purpose register file at reset: x10 holds the hart id and x11
/// the device-tree address, as the boot protocol expects; the rest are zero.
pub open spec fn reset_registers() -> Seq<u64> {
    seq![
        REG_X0, REG_X1, REG_X2, REG_X3, REG_X4, REG_X5, REG_X6, REG_X7, REG_X8, REG_X9, REG_X10,
        REG_X11, REG_X12, REG_X13, REG_X14, REG_X15, REG_X16, REG_X17, REG_X18, REG_X19,
        REG_X20, REG_X21, REG_X22, REG_X23, REG_X24, REG_X25, REG_X26, REG_X27, REG_X28,
        REG_X29, REG_X30, REG_X31,
    ]
}

/// Initial configuration of the processor.
#[derive(Debug, Default, Clone)]
pub struct ProcessorConfig {
    /// General-purpose registers
    pub registers: Option<[u64; 32]>,
    /// Floating-point registers
    pub float_registers: Option<[u64; 32]>,
    /// Program counter value
    pub program_counter: Option<u64>,
    /// Control and Status Registers
    pub csr: Option<CSR>,
}

/// The processor as the engine receives it.
#[derive(Debug, Clone, Copy)]
pub struct ResolvedProcessorConfig {
    pub x: [u64; 32],
    pub f: [u64; 32],
    pub pc: u64,
    pub csr: ResolvedCsr,
}

impl ResolvedProcessorConfig {
    pub open spec fn lifted(self) -> ProcessorConfig {
        ProcessorConfig {
            registers: Some(self.x),
            float_registers: Some(self.f),
            program_counter: Some(self.pc),
            csr: Some(self.csr.lifted()),
        }
    }
}

impl ProcessorConfig {
    pub open spec fn resolves_to(&self, r: ResolvedProcessorConfig) -> bool {
        &&& match self.registers {
            Some(x) => r.x == x,
            None => r.x@ == reset_registers(),
        }
        &&& match self.float_registers {
            Some(f) => r.f == f,
            None => r.f@ == Seq::new(32, |i: int| 0u64),
        }
        &&& r.pc == self.program_counter.unwrap_or(PC_INIT)
        &&& r.csr == match self.csr {
            Some(c) => c.spec_resolve(),
            None => reset_csr(),
        }
    }

    pub fn resolve(&self) -> (r: ResolvedProcessorConfig)
        ensures
            self.resolves_to(r),
    {
        let x: [u64; 32] = match self.registers {
            Some(x) => x,
            None => {
                let x: [u64; 32] = [
                    REG_X0, REG_X1, REG_X2, REG_X3, REG_X4, REG_X5, REG_X6, REG_X7, REG_X8,
                    REG_X9, REG_X10, REG_X11, REG_X12, REG_X13, REG_X14, REG_X15, REG_X16,
                    REG_X17, REG_X18, REG_X19, REG_X20, REG_X21, REG_X22, REG_X23, REG_X24,
                    REG_X25, REG_X26, REG_X27, REG_X28, REG_X29, REG_X30, REG_X31,
                ];
                assert(x@ =~= reset_registers());
                x
            },
        };
        let f: [u64; 32] = match self.float_registers {
            Some(f) => f,
            None => {
                let f: [u64; 32] = [0u64; 32];
                assert(f@ =~= Seq::new(32, |i: int| 0u64));
                f
            },
        };
        let csr = match &self.csr {
            Some(c) => c.resolve(),
            None => CSR::default().resolve(),
        };
        ResolvedProcessorConfig { x, f, pc: self.program_counter.unwrap_or(PC_INIT), csr }
    }

    /// The processor configuration that states every value of `r`.
    pub fn from_resolved(r: &ResolvedProcessorConfig) -> (c: Self)
        ensures
            c == r.lifted(),
    {
        ProcessorConfig {
            registers: Some(r.x),
            float_registers: Some(r.f),
            program_counter: Some(r.pc),
            csr: Some(CSR::from_resolved(&r.csr)),
        }
    }
}


/// The range that stands for an absent rollup buffer.
pub open spec fn is_empty_range(r: ResolvedMemoryRange) -> bool {
    &&& r.start == 0
    &&& r.length == 0
    &&& !r.shared
    &&& r.image_filename@ == Seq::<char>::empty()
}

fn empty_range() -> (r: ResolvedMemoryRange)
    ensures
        is_empty_range(r),
{
    ResolvedMemoryRange { start: 0, length: 0, shared: false, image_filename: String::new() }
}

impl ResolvedMemoryRange {
    /// The partial range that states every field of this one.
    pub open spec fn lifted(self) -> MemoryRangeConfig {
        MemoryRangeConfig {
            start: self.start,
            length: self.length,
            shared: self.shared,
            image_filename: Some(self.image_filename),
        }
    }
}

/// RAM state configuration
#[derive(Debug, Default, Clone)]
pub struct RamConfig {
    /// Length of the RAM in bytes
    pub length: Option<u64>,
    /// Path to the RAM image file
    pub image_filename: Option<String>,
}

/// RAM as the engine receives it.
#[derive(Debug, Clone)]
pub struct ResolvedRamConfig {
    pub length: u64,
    pub image_filename: String,
}

impl RamConfig {
    /// A RAM of zero length is refused before its image file name is looked at.
    pub open spec fn error(&self) -> Option<ConfigError> {
        if self.length == Some(0u64) {
            Some(ConfigError::InvalidRange)
        } else if !optional_text_safe(self.image_filename) {
            Some(ConfigError::InvalidPath)
        } else {
            None
        }
    }

    pub open spec fn resolves_to(&self, r: ResolvedRamConfig) -> bool {
        &&& r.length == self.length.unwrap_or(RAM_LENGTH_DEF)
        &&& text_resolves_to(self.image_filename, r.image_filename)
    }

    pub fn resolve(&self) -> (r: Result<ResolvedRamConfig, ConfigError>)
        ensures
            r is Ok <==> self.error() is None,
            r matches Ok(v) ==> self.resolves_to(v),
            r matches Err(e) ==> self.error() == Some(e),
    {
        if self.length == Some(0u64) {
            return Err(ConfigError::InvalidRange);
        }
        match resolve_text(&self.image_filename) {
            Some(image_filename) => Ok(
                ResolvedRamConfig { length: self.length.unwrap_or(RAM_LENGTH_DEF), image_filename },
            ),
            None => Err(ConfigError::InvalidPath),
        }
    }

    pub fn from_resolved(r: &ResolvedRamConfig) -> (c: Self)
        ensures
            c == r.lifted(),
    {
        RamConfig { length: Some(r.length), image_filename: Some(r.image_filename.clone()) }
    }
}

impl ResolvedRamConfig {
    pub open spec fn lifted(self) -> RamConfig {
        RamConfig { length: Some(self.length), image_filename: Some(self.image_filename) }
    }
}

/// Device-tree configuration.
#[derive(Debug, Default, Clone)]
pub struct DtbConfig {
    /// Bootargs to pass to kernel
    pub bootargs: Option<String>,
    /// Initialization commands to be executed as root on boot
    pub init: Option<String>,
    /// Commands to execute the main application
    pub entrypoint: Option<String>,
    /// ROM image file
    pub image_filename: Option<String>,
}

/// Device tree as the engine receives it; absent texts are empty.
#[derive(Debug, Clone)]
pub struct ResolvedDtbConfig {
    pub bootargs: String,
    pub init: String,
    pub entrypoint: String,
    pub image_filename: String,
}

impl DtbConfig {
    /// The texts are looked at first, then the image file name.
    pub open spec fn error(&self) -> Option<ConfigError> {
        if !optional_text_safe(self.bootargs) || !optional_text_safe(self.init)
            || !optional_text_safe(self.entrypoint) {
            Some(ConfigError::InvalidText)
        } else if !optional_text_safe(self.image_filename) {
            Some(ConfigError::InvalidPath)
        } else {
            None
        }
    }

    pub open spec fn resolves_to(&self, r: ResolvedDtbConfig) -> bool {
        &&& text_resolves_to(self.bootargs, r.bootargs)
        &&& text_resolves_to(self.init, r.init)
        &&& text_resolves_to(self.entrypoint, r.entrypoint)
        &&& text_resolves_to(self.image_filename, r.image_filename)
    }

    pub fn resolve(&self) -> (r: Result<ResolvedDtbConfig, ConfigError>)
        ensures
            r is Ok <==> self.error() is None,
            r matches Ok(v) ==> self.resolves_to(v),
            r matches Err(e) ==> self.error() == Some(e),
    {
        let bootargs = resolve_text(&self.bootargs);
        let init = resolve_text(&self.init);
        let entrypoint = resolve_text(&self.entrypoint);
        match (bootargs, init, entrypoint) {
            (Some(bootargs), Some(init), Some(entrypoint)) => match resolve_text(
                &self.image_filename,
            ) {
                Some(image_filename) => Ok(
                    ResolvedDtbConfig { bootargs, init, entrypoint, image_filename },
                ),
                None => Err(ConfigError::InvalidPath),
            },
            _ => Err(ConfigError::InvalidText),
        }
    }

    pub fn from_resolved(r: &ResolvedDtbConfig) -> (c: Self)
        ensures
            c == r.lifted(),
    {
        DtbConfig {
            bootargs: Some(r.bootargs.clone()),
            init: Some(r.init.clone()),
            entrypoint: Some(r.entrypoint.clone()),
            image_filename: Some(r.image_filename.clone()),
        }
    }
}

impl ResolvedDtbConfig {
    pub open spec fn lifted(self) -> DtbConfig {
        DtbConfig {
            bootargs: Some(self.bootargs),
            init: Some(self.init),
            entrypoint: Some(self.entrypoint),
            image_filename: Some(self.image_filename),
        }
    }
}

/// TLB configuration.
#[derive(Debug, Default, Clone)]
pub struct TlbConfig {
    /// TLB image file
    pub image_filename: Option<String>,
}

/// TLB as the engine receives it.
#[derive(Debug, Clone)]
pub struct ResolvedTlbConfig {
    pub image_filename: String,
}

impl TlbConfig {
    pub open spec fn error(&self) -> Option<ConfigError> {
        if !optional_text_safe(self.image_filename) {
            Some(ConfigError::InvalidPath)
        } else {
            None
        }
    }

    pub open spec fn resolves_to(&self, r: ResolvedTlbConfig) -> bool {
        text_resolves_to(self.image_filename, r.image_filename)
    }

    pub fn resolve(&self) -> (r: Result<ResolvedTlbConfig, ConfigError>)
        ensures
            r is Ok <==> self.error() is None,
            r matches Ok(v) ==> self.resolves_to(v),
            r matches Err(e) ==> self.error() == Some(e),
    {
        match resolve_text(&self.image_filename) {
            Some(image_filename) => Ok(ResolvedTlbConfig { image_filename }),
            None => Err(ConfigError::InvalidPath),
        }
    }

    pub fn from_resolved(r: &ResolvedTlbConfig) -> (c: Self)
        ensures
            c == r.lifted(),
    {
        TlbConfig { image_filename: Some(r.image_filename.clone()) }
    }
}

impl ResolvedTlbConfig {
    pub open spec fn lifted(self) -> TlbConfig {
        TlbConfig { image_filename: Some(self.image_filename) }
    }
}

/// CLINT device configuration.
#[derive(Debug, Default, Clone, Copy, PartialEq, Eq, Structural)]
pub struct ClintConfig {
    /// Value of the mtimecmp register
    pub mtimecmp: Option<u64>,
}

/// CLINT as the engine receives it.
#[derive(Debug, Clone, Copy, PartialEq, Eq, Structural)]
pub struct ResolvedClintConfig {
    pub mtimecmp: u64,
}

impl ClintConfig {
    pub open spec fn spec_resolve(&self) -> ResolvedClintConfig {
        ResolvedClintConfig { mtimecmp: self.mtimecmp.unwrap_or(MTIMECMP_INIT) }
    }

    pub fn resolve(&self) -> (r: ResolvedClintConfig)
        ensures
            r == self.spec_resolve(),
    {
        ResolvedClintConfig { mtimecmp: self.mtimecmp.unwrap_or(MTIMECMP_INIT) }
    }

    pub fn from_resolved(r: &ResolvedClintConfig) -> (c: Self)
        ensures
            c == r.lifted(),
    {
        ClintConfig { mtimecmp: Some(r.mtimecmp) }
    }
}

impl ResolvedClintConfig {
    pub open spec fn lifted(self) -> ClintConfig {
        ClintConfig { mtimecmp: Some(self.mtimecmp) }
    }
}

/// HTIF device state configuration
#[derive(Debug, Default, Clone, Copy, PartialEq, Eq, Structural)]
pub struct HtifConfig {
    /// Value of fromhost CSR
    pub fromhost: Option<u64>,
    /// Value of tohost CSR
    pub tohost: Option<u64>,
    /// Make console getchar available?
    pub console_getchar: Option<bool>,
    /// Make yield manual available?
    pub yield_manual: Option<bool>,
    /// Make yield automatic available?
    pub yield_automatic: Option<bool>,
}

/// HTIF as the engine receives it.
#[derive(Debug, Clone, Copy, PartialEq, Eq, Structural)]
pub struct ResolvedHtifConfig {
    pub fromhost: u64,
    pub tohost: u64,
    pub console_getchar: bool,
    pub yield_manual: bool,
    pub yield_automatic: bool,
}

impl HtifConfig {
    /// Absent registers are at reset; console input is off and both kinds of
    /// yield are on unless stated otherwise.
    pub open spec fn spec_resolve(&self) -> ResolvedHtifConfig {
        ResolvedHtifConfig {
            fromhost: self.fromhost.unwrap_or(FROMHOST_INIT),
            tohost: self.tohost.unwrap_or(TOHOST_INIT),
            console_getchar: self.console_getchar.unwrap_or(false),
            yield_manual: self.yield_manual.unwrap_or(true),
            yield_automatic: self.yield_automatic.unwrap_or(true),
        }
    }

    pub fn resolve(&self) -> (r: ResolvedHtifConfig)
        ensures
            r == self.spec_resolve(),
    {
        ResolvedHtifConfig {
            fromhost: self.fromhost.unwrap_or(FROMHOST_INIT),
            tohost: self.tohost.unwrap_or(TOHOST_INIT),
            console_getchar: self.console_getchar.unwrap_or(false),
            yield_manual: self.yield_manual.unwrap_or(true),
            yield_automatic: self.yield_automatic.unwrap_or(true),
        }
    }

    pub fn from_resolved(r: &ResolvedHtifConfig) -> (c: Self)
        ensures
            c == r.lifted(),
    {
        HtifConfig {
            fromhost: Some(r.fromhost),
            tohost: Some(r.tohost),
            console_getchar: Some(r.console_getchar),
            yield_manual: Some(r.yield_manual),
            yield_automatic: Some(r.yield_automatic),
        }
    }
}

impl ResolvedHtifConfig {
    pub open spec fn lifted(self) -> HtifConfig {
        HtifConfig {
            fromhost: Some(self.fromhost),
            tohost: Some(self.tohost),
            console_getchar: Some(self.console_getchar),
            yield_manual: Some(self.yield_manual),
            yield_automatic: Some(self.yield_automatic),
        }
    }
}

/// Rollup device state configuration
#[derive(Debug, Default, Clone)]
pub struct RollupConfig {
    /// Memory range that represents the RX buffer (receives data from the host)
    pub rx_buffer: Option<MemoryRangeConfig>,
    /// Memory range that represents the TX buffer (sends data to the host)
    pub tx_buffer: Option<MemoryRangeConfig>,
}

/// Rollup buffers as the engine receives them.
#[derive(Debug, Clone)]
pub struct ResolvedRollupConfig {
    pub rx_buffer: ResolvedMemoryRange,
    pub tx_buffer: ResolvedMemoryRange,
}

/// An absent buffer resolves to the empty range; a given one as a range does.
pub open spec fn buffer_resolves_to(b: Option<MemoryRangeConfig>, r: ResolvedMemoryRange) -> bool {
    match b {
        Some(m) => m.resolves_to(r),
        None => is_empty_range(r),
    }
}

pub open spec fn buffer_valid(b: Option<MemoryRangeConfig>) -> bool {
    match b {
        Some(m) => m.valid(),
        None => true,
    }
}

fn resolve_buffer(b: &Option<MemoryRangeConfig>) -> (r: Result<ResolvedMemoryRange, ConfigError>)
    ensures
        r is Ok <==> buffer_valid(*b),
        r matches Ok(v) ==> buffer_resolves_to(*b, v),
        r matches Err(e) ==> e == ConfigError::InvalidPath,
{
    match b {
        Some(m) => m.resolve(),
        None => Ok(empty_range()),
    }
}

impl RollupConfig {
    pub open spec fn error(&self) -> Option<ConfigError> {
        if !buffer_valid(self.rx_buffer) || !buffer_valid(self.tx_buffer) {
            Some(ConfigError::InvalidPath)
        } else {
            None
        }
    }

    pub open spec fn resolves_to(&self, r: ResolvedRollupConfig) -> bool {
        &&& buffer_resolves_to(self.rx_buffer, r.rx_buffer)
        &&& buffer_resolves_to(self.tx_buffer, r.tx_buffer)
    }

    pub fn resolve(&self) -> (r: Result<ResolvedRollupConfig, ConfigError>)
        ensures
            r is Ok <==> self.error() is None,
            r matches Ok(v) ==> self.resolves_to(v),
            r matches Err(e) ==> self.error() == Some(e),
    {
        let rx_buffer = resolve_buffer(&self.rx_buffer)?;
        let tx_buffer = resolve_buffer(&self.tx_buffer)?;
        Ok(ResolvedRollupConfig { rx_buffer, tx_buffer })
    }

    pub fn from_resolved(r: &ResolvedRollupConfig) -> (c: Self)
        ensures
            c == r.lifted(),
    {
        RollupConfig {
            rx_buffer: Some(MemoryRangeConfig::from_resolved(&r.rx_buffer)),
            tx_buffer: Some(MemoryRangeConfig::from_resolved(&r.tx_buffer)),
        }
    }
}

impl ResolvedRollupConfig {
    pub open spec fn lifted(self) -> RollupConfig {
        RollupConfig {
            rx_buffer: Some(self.rx_buffer.lifted()),
            tx_buffer: Some(self.tx_buffer.lifted()),
        }
    }
}

/// Image of the microarchitecture's RAM.
#[derive(Debug, Default, Clone)]
pub struct UarchRamConfig {
    pub image_filename: Option<String>,
}

/// State of the microarchitecture's processor. Every field is concrete.
#[derive(Debug, Clone, Copy)]
pub struct UarchProcessorConfig {
    pub x: [u64; 32usize],
    pub pc: u64,
    pub cycle: u64,
    pub halt_flag: bool,
}

impl UarchProcessorConfig {
    /// The microarchitecture's processor at reset.
    pub open spec fn is_reset(&self) -> bool {
        &&& self.x@ == Seq::new(32, |i: int| UARCH_X_INIT)
        &&& self.pc == UARCH_PC_INIT
        &&& self.cycle == UARCH_CYCLE_INIT
        &&& self.halt_flag == (UARCH_HALT_FLAG_INIT != 0)
    }
}

impl Default for UarchProcessorConfig {
    /// The microarchitecture's processor at reset.
    fn default() -> (r: Self)
        ensures
            r.is_reset(),
    {
        let x: [u64; 32] = [UARCH_X_INIT; 32];
        assert(x@ =~= Seq::new(32, |i: int| UARCH_X_INIT));
        UarchProcessorConfig {
            x,
            pc: UARCH_PC_INIT,
            cycle: UARCH_CYCLE_INIT,
            halt_flag: UARCH_HALT_FLAG_INIT != 0,
        }
    }
}

/// Microarchitecture configuration.
#[derive(Debug, Clone)]
pub struct UarchConfig {
    pub processor: UarchProcessorConfig,
    pub ram: UarchRamConfig,
}

impl Default for UarchConfig {
    /// The processor at reset and no RAM image.
    fn default() -> (r: Self)
        ensures
            r.processor.is_reset(),
            r.ram.image_filename is None,
    {
        UarchConfig {
            processor: UarchProcessorConfig::default(),
            ram: UarchRamConfig { image_filename: None },
        }
    }
}

/// Microarchitecture as the engine receives it.
#[derive(Debug, Clone)]
pub struct ResolvedUarchConfig {
    pub processor: UarchProcessorConfig,
    /// Image of the microarchitecture's RAM; empty when absent.
    pub ram_image_filename: String,
}

impl UarchConfig {
    pub open spec fn error(&self) -> Option<ConfigError> {
        if !optional_text_safe(self.ram.image_filename) {
            Some(ConfigError::InvalidPath)
        } else {
            None
        }
    }

    pub open spec fn resolves_to(&self, r: ResolvedUarchConfig) -> bool {
        &&& r.processor == self.processor
        &&& text_resolves_to(self.ram.image_filename, r.ram_image_filename)
    }

    pub fn resolve(&self) -> (r: Result<ResolvedUarchConfig, ConfigError>)
        ensures
            r is Ok <==> self.error() is None,
            r matches Ok(v) ==> self.resolves_to(v),
            r matches Err(e) ==> self.error() == Some(e),
    {
        match resolve_text(&self.ram.image_filename) {
            Some(ram_image_filename) => Ok(
                ResolvedUarchConfig { processor: self.processor, ram_image_filename },
            ),
            None => Err(ConfigError::InvalidPath),
        }
    }

    pub fn from_resolved(r: &ResolvedUarchConfig) -> (c: Self)
        ensures
            c == r.lifted(),
    {
        UarchConfig {
            processor: r.processor,
            ram: UarchRamConfig { image_filename: Some(r.ram_image_filename.clone()) },
        }
    }
}

impl ResolvedUarchConfig {
    pub open spec fn lifted(self) -> UarchConfig {
        UarchConfig {
            processor: self.processor,
            ram: UarchRamConfig { image_filename: Some(self.ram_image_filename) },
        }
    }
}


/// A flash drive must hold data: zero length is refused before its image
/// file name is looked at.
pub open spec fn drive_error(d: MemoryRangeConfig) -> Option<ConfigError> {
    if d.length == 0 {
        Some(ConfigError::InvalidRange)
    } else if !d.valid() {
        Some(ConfigError::InvalidPath)
    } else {
        None
    }
}

/// The error of the first flash drive that has one.
pub open spec fn drives_error(ds: Seq<MemoryRangeConfig>) -> Option<ConfigError>
    decreases ds.len(),
{
    if ds.len() == 0 {
        None
    } else {
        match drives_error(ds.drop_last()) {
            Some(e) => Some(e),
            None => drive_error(ds.last()),
        }
    }
}

/// Drives after the first faulty one do not change which error is reported.
proof fn lemma_drives_error_prefix(ds: Seq<MemoryRangeConfig>, n: int)
    requires
        0 <= n <= ds.len(),
        drives_error(ds.subrange(0, n)) is Some,
    ensures
        drives_error(ds) == drives_error(ds.subrange(0, n)),
    decreases ds.len() - n,
{
    if n < ds.len() {
        assert(ds.subrange(0, n + 1).drop_last() =~= ds.subrange(0, n));
        lemma_drives_error_prefix(ds, n + 1);
    } else {
        assert(ds.subrange(0, n) =~= ds);
    }
}

/// Configuration of the machine.
#[derive(Debug, Clone)]
pub struct MachineConfig {
    pub processor: ProcessorConfig,
    pub ram: RamConfig,
    pub dtb: DtbConfig,
    pub flash_drive: Vec<MemoryRangeConfig>,
    pub tlb: TlbConfig,
    pub clint: ClintConfig,
    pub htif: HtifConfig,
    pub rollup: Option<RollupConfig>,
    pub uarch: UarchConfig,
}

/// A machine configuration with every default filled in, as the engine
/// receives it. The rollup device is present or not as a whole.
#[derive(Debug, Clone)]
pub struct ResolvedMachineConfig {
    pub processor: ResolvedProcessorConfig,
    pub ram: ResolvedRamConfig,
    pub dtb: ResolvedDtbConfig,
    pub flash_drive: Vec<ResolvedMemoryRange>,
    pub tlb: ResolvedTlbConfig,
    pub clint: ResolvedClintConfig,
    pub htif: ResolvedHtifConfig,
    pub rollup: Option<ResolvedRollupConfig>,
    pub uarch: ResolvedUarchConfig,
}

impl MachineConfig {
    /// Nothing is given: every field takes its default when resolved, there
    /// is no flash drive and no rollup device.
    pub fn unset() -> (r: Self)
        ensures
            r.is_unset(),
    {
        MachineConfig {
            processor: ProcessorConfig {
                registers: None,
                float_registers: None,
                program_counter: None,
                csr: None,
            },
            ram: RamConfig { length: None, image_filename: None },
            dtb: DtbConfig { bootargs: None, init: None, entrypoint: None, image_filename: None },
            flash_drive: Vec::new(),
            tlb: TlbConfig { image_filename: None },
            clint: ClintConfig { mtimecmp: None },
            htif: HtifConfig {
                fromhost: None,
                tohost: None,
                console_getchar: None,
                yield_manual: None,
                yield_automatic: None,
            },
            rollup: None,
            uarch: UarchConfig::default(),
        }
    }
}

impl MachineConfig {
    /// Every optional field is absent and the microarchitecture is at reset.
    pub open spec fn is_unset(&self) -> bool {
        &&& self.processor == (ProcessorConfig {
            registers: None,
            float_registers: None,
            program_counter: None,
            csr: None,
        })
        &&& self.ram == (RamConfig { length: None, image_filename: None })
        &&& self.dtb == (DtbConfig {
            bootargs: None,
            init: None,
            entrypoint: None,
            image_filename: None,
        })
        &&& self.flash_drive@.len() == 0
        &&& self.tlb == (TlbConfig { image_filename: None })
        &&& self.clint == (ClintConfig { mtimecmp: None })
        &&& self.htif == (HtifConfig {
            fromhost: None,
            tohost: None,
            console_getchar: None,
            yield_manual: None,
            yield_automatic: None,
        })
        &&& self.rollup is None
        &&& self.uarch.processor.is_reset()
        &&& self.uarch.ram.image_filename is None
    }

    /// The first reason the configuration cannot be resolved, looking at RAM,
    /// device tree, flash drives in order, TLB, rollup buffers and
    /// microarchitecture, in that order.
    pub open spec fn error(&self) -> Option<ConfigError> {
        if self.ram.error() is Some {
            self.ram.error()
        } else if self.dtb.error() is Some {
            self.dtb.error()
        } else if drives_error(self.flash_drive@) is Some {
            drives_error(self.flash_drive@)
        } else if self.tlb.error() is Some {
            self.tlb.error()
        } else if self.rollup matches Some(r) && r.error() is Some {
            self.rollup->0.error()
        } else {
            self.uarch.error()
        }
    }

    pub open spec fn resolves_to(&self, r: ResolvedMachineConfig) -> bool {
        &&& self.processor.resolves_to(r.processor)
        &&& self.ram.resolves_to(r.ram)
        &&& self.dtb.resolves_to(r.dtb)
        &&& r.flash_drive@.len() == self.flash_drive@.len()
        &&& forall|i: int|
            0 <= i < self.flash_drive@.len() ==> #[trigger] self.flash_drive@[i].resolves_to(
                r.flash_drive@[i],
            )
        &&& self.tlb.resolves_to(r.tlb)
        &&& r.clint == self.clint.spec_resolve()
        &&& r.htif == self.htif.spec_resolve()
        &&& match self.rollup {
            Some(c) => r.rollup matches Some(v) && c.resolves_to(v),
            None => r.rollup is None,
        }
        &&& self.uarch.resolves_to(r.uarch)
    }

    /// Fills every absent field with its default. Fails with the error that
    /// `error` names, if any.
    pub fn resolve(&self) -> (r: Result<ResolvedMachineConfig, ConfigError>)
        ensures
            r is Ok <==> self.error() is None,
            r matches Ok(v) ==> self.resolves_to(v),
            r matches Err(e) ==> self.error() == Some(e),
    {
        let processor = self.processor.resolve();
        let ram = self.ram.resolve()?;
        let dtb = self.dtb.resolve()?;
        let flash_drive = resolve_drives(&self.flash_drive)?;
        let tlb = self.tlb.resolve()?;
        let rollup = match &self.rollup {
            Some(c) => Some(c.resolve()?),
            None => None,
        };
        let uarch = self.uarch.resolve()?;
        Ok(
            ResolvedMachineConfig {
                processor,
                ram,
                dtb,
                flash_drive,
                tlb,
                clint: self.clint.resolve(),
                htif: self.htif.resolve(),
                rollup,
                uarch,
            },
        )
    }
}

/// Resolves the flash drives in order, stopping at the first faulty one.
fn resolve_drives(ds: &Vec<MemoryRangeConfig>) -> (r: Result<Vec<ResolvedMemoryRange>, ConfigError>)
    ensures
        r is Ok <==> drives_error(ds@) is None,
        r matches Err(e) ==> drives_error(ds@) == Some(e),
        r matches Ok(v) ==> v@.len() == ds@.len() && forall|i: int|
            0 <= i < ds@.len() ==> #[trigger] ds@[i].resolves_to(v@[i]),
{
    let mut out: Vec<ResolvedMemoryRange> = Vec::new();
    let mut i: usize = 0;
    assert(ds@.subrange(0, 0) =~= Seq::<MemoryRangeConfig>::empty());
    while i < ds.len()
        invariant
            i <= ds@.len(),
            drives_error(ds@.subrange(0, i as int)) is None,
            out@.len() == i,
            forall|j: int| 0 <= j < i ==> #[trigger] ds@[j].resolves_to(out@[j]),
        decreases ds@.len() - i,
    {
        let d = &ds[i];
        assert(ds@.subrange(0, i + 1).drop_last() =~= ds@.subrange(0, i as int));
        if d.length == 0 {
            proof {
                lemma_drives_error_prefix(ds@, i + 1);
            }
            return Err(ConfigError::InvalidRange);
        }
        match d.resolve() {
            Ok(v) => {
                out.push(v);
            },
            Err(e) => {
                proof {
                    lemma_drives_error_prefix(ds@, i + 1);
                }
                return Err(e);
            },
        }
        i = i + 1;
    }
    assert(ds@.subrange(0, i as int) =~= ds@);
    Ok(out)
}


impl ResolvedMachineConfig {
    /// `c` states every field of this configuration.
    pub open spec fn lifts_to(self, c: MachineConfig) -> bool {
        &&& c.processor == self.processor.lifted()
        &&& c.ram == self.ram.lifted()
        &&& c.dtb == self.dtb.lifted()
        &&& c.flash_drive@.len() == self.flash_drive@.len()
        &&& forall|i: int|
            0 <= i < self.flash_drive@.len() ==> c.flash_drive@[i]
                == #[trigger] self.flash_drive@[i].lifted()
        &&& c.tlb == self.tlb.lifted()
        &&& c.clint == self.clint.lifted()
        &&& c.htif == self.htif.lifted()
        &&& c.rollup == match self.rollup {
            Some(v) => Some(v.lifted()),
            None => None,
        }
        &&& c.uarch == self.uarch.lifted()
    }

    /// The same configuration, field by field.
    pub open spec fn same_as(self, o: ResolvedMachineConfig) -> bool {
        &&& self.processor == o.processor
        &&& self.ram == o.ram
        &&& self.dtb == o.dtb
        &&& self.flash_drive@ == o.flash_drive@
        &&& self.tlb == o.tlb
        &&& self.clint == o.clint
        &&& self.htif == o.htif
        &&& self.rollup == o.rollup
        &&& self.uarch == o.uarch
    }
}

impl MachineConfig {
    /// The partial configuration that states every field of `r`.
    pub fn from_resolved(r: &ResolvedMachineConfig) -> (c: Self)
        ensures
            r.lifts_to(c),
    {
        let mut flash_drive: Vec<MemoryRangeConfig> = Vec::new();
        let mut i: usize = 0;
        while i < r.flash_drive.len()
            invariant
                i <= r.flash_drive@.len(),
                flash_drive@.len() == i,
                forall|j: int|
                    0 <= j < i ==> flash_drive@[j] == #[trigger] r.flash_drive@[j].lifted(),
            decreases r.flash_drive@.len() - i,
        {
            flash_drive.push(MemoryRangeConfig::from_resolved(&r.flash_drive[i]));
            i = i + 1;
        }
        MachineConfig {
            processor: ProcessorConfig::from_resolved(&r.processor),
            ram: RamConfig::from_resolved(&r.ram),
            dtb: DtbConfig::from_resolved(&r.dtb),
            flash_drive,
            tlb: TlbConfig::from_resolved(&r.tlb),
            clint: ClintConfig::from_resolved(&r.clint),
            htif: HtifConfig::from_resolved(&r.htif),
            rollup: match &r.rollup {
                Some(v) => Some(RollupConfig::from_resolved(v)),
                None => None,
            },
            uarch: UarchConfig::from_resolved(&r.uarch),
        }
    }
}


/// No flash drive is faulty exactly when the first-error search finds none.
proof fn lemma_drives_error_none(ds: Seq<MemoryRangeConfig>)
    ensures
        drives_error(ds) is None <==> forall|i: int|
            0 <= i < ds.len() ==> #[trigger] drive_error(ds[i]) is None,
    decreases ds.len(),
{
    if ds.len() > 0 {
        lemma_drives_error_none(ds.drop_last());
        assert forall|i: int| 0 <= i < ds.len() - 1 implies ds.drop_last()[i] == ds[i] by {}
    }
}

/// A safe optional text resolves to a safe text, which resolves to itself.
proof fn lemma_text_round_trip(t: Option<String>, r: String, r2: String)
    requires
        optional_text_safe(t),
        text_resolves_to(t, r),
        text_resolves_to(Some(r), r2),
    ensures
        boundary_safe(r@),
        r2 == r,
{
    if t is None {
        assert(!r@.contains('\0'));
    }
}

proof fn lemma_range_round_trip(
    m: MemoryRangeConfig,
    r: ResolvedMemoryRange,
    r2: ResolvedMemoryRange,
)
    requires
        m.valid(),
        m.resolves_to(r),
        r.lifted().resolves_to(r2),
    ensures
        r.lifted().valid(),
        r2 == r,
{
    lemma_text_round_trip(m.image_filename, r.image_filename, r2.image_filename);
}

proof fn lemma_buffer_round_trip(
    b: Option<MemoryRangeConfig>,
    r: ResolvedMemoryRange,
    r2: ResolvedMemoryRange,
)
    requires
        buffer_valid(b),
        buffer_resolves_to(b, r),
        r.lifted().resolves_to(r2),
    ensures
        r.lifted().valid(),
        r2 == r,
{
    match b {
        Some(m) => lemma_range_round_trip(m, r, r2),
        None => lemma_text_round_trip(None, r.image_filename, r2.image_filename),
    }
}

proof fn lemma_drives_round_trip(
    ds: Seq<MemoryRangeConfig>,
    rs: Seq<ResolvedMemoryRange>,
    ds2: Seq<MemoryRangeConfig>,
    rs2: Seq<ResolvedMemoryRange>,
)
    requires
        drives_error(ds) is None,
        rs.len() == ds.len(),
        forall|i: int| 0 <= i < ds.len() ==> #[trigger] ds[i].resolves_to(rs[i]),
        ds2.len() == rs.len(),
        forall|i: int| 0 <= i < rs.len() ==> ds2[i] == #[trigger] rs[i].lifted(),
        rs2.len() == ds2.len(),
        forall|i: int| 0 <= i < ds2.len() ==> #[trigger] ds2[i].resolves_to(rs2[i]),
    ensures
        drives_error(ds2) is None,
        rs2 == rs,
{
    lemma_drives_error_none(ds);
    lemma_drives_error_none(ds2);
    assert forall|i: int| 0 <= i < ds2.len() implies drive_error(ds2[i]) is None && #[trigger] rs2[i]
        == rs[i] by {
        assert(drive_error(ds[i]) is None);
        assert(ds[i].resolves_to(rs[i]));
        assert(ds2[i].resolves_to(rs2[i]));
        lemma_range_round_trip(ds[i], rs[i], rs2[i]);
    }
    assert forall|i: int| 0 <= i < ds2.len() implies #[trigger] drive_error(ds2[i]) is None by {
        assert(rs2[i] == rs[i]);
    }
    assert(rs2 =~= rs);
}

proof fn lemma_processor_round_trip(
    p: ProcessorConfig,
    r: ResolvedProcessorConfig,
    r2: ResolvedProcessorConfig,
)
    requires
        p.resolves_to(r),
        r.lifted().resolves_to(r2),
    ensures
        r2 == r,
{
    assert(r2.x =~= r.x);
    assert(r2.f =~= r.f);
}

proof fn lemma_rollup_round_trip(
    rc: RollupConfig,
    r: ResolvedRollupConfig,
    r2: ResolvedRollupConfig,
)
    requires
        rc.error() is None,
        rc.resolves_to(r),
        r.lifted().resolves_to(r2),
    ensures
        r.lifted().error() is None,
        r2 == r,
{
    lemma_buffer_round_trip(rc.rx_buffer, r.rx_buffer, r2.rx_buffer);
    lemma_buffer_round_trip(rc.tx_buffer, r.tx_buffer, r2.tx_buffer);
}

/// Resolving is idempotent: a resolved configuration, stated in full as a
/// partial one, resolves without error to the same configuration.
pub proof fn lemma_resolve_idempotent(
    c: MachineConfig,
    r: ResolvedMachineConfig,
    c2: MachineConfig,
    r2: ResolvedMachineConfig,
)
    requires
        c.error() is None,
        c.resolves_to(r),
        r.lifts_to(c2),
        c2.resolves_to(r2),
    ensures
        c2.error() is None,
        r2.same_as(r),
{
    lemma_processor_round_trip(c.processor, r.processor, r2.processor);
    lemma_text_round_trip(c.ram.image_filename, r.ram.image_filename, r2.ram.image_filename);
    lemma_text_round_trip(c.dtb.bootargs, r.dtb.bootargs, r2.dtb.bootargs);
    lemma_text_round_trip(c.dtb.init, r.dtb.init, r2.dtb.init);
    lemma_text_round_trip(c.dtb.entrypoint, r.dtb.entrypoint, r2.dtb.entrypoint);
    lemma_text_round_trip(c.dtb.image_filename, r.dtb.image_filename, r2.dtb.image_filename);
    lemma_text_round_trip(c.tlb.image_filename, r.tlb.image_filename, r2.tlb.image_filename);
    lemma_text_round_trip(
        c.uarch.ram.image_filename,
        r.uarch.ram_image_filename,
        r2.uarch.ram_image_filename,
    );
    lemma_drives_round_trip(c.flash_drive@, r.flash_drive@, c2.flash_drive@, r2.flash_drive@);
    if let Some(rc) = c.rollup {
        lemma_rollup_round_trip(rc, r.rollup->0, r2.rollup->0);
    }
}

impl MachineConfig {
    /// No optional field is absent.
    pub open spec fn is_fully_specified(&self) -> bool {
        &&& self.processor.registers is Some
        &&& self.processor.float_registers is Some
        &&& self.processor.program_counter is Some
        &&& self.processor.csr matches Some(csr) && csr.all_set()
        &&& self.ram.length is Some
        &&& self.ram.image_filename is Some
        &&& self.dtb.bootargs is Some
        &&& self.dtb.init is Some
        &&& self.dtb.entrypoint is Some
        &&& self.dtb.image_filename is Some
        &&& forall|i: int|
            0 <= i < self.flash_drive@.len() ==> (
            #[trigger] self.flash_drive@[i]).image_filename is Some
        &&& self.tlb.image_filename is Some
        &&& self.clint.mtimecmp is Some
        &&& self.htif.fromhost is Some
        &&& self.htif.tohost is Some
        &&& self.htif.console_getchar is Some
        &&& self.htif.yield_manual is Some
        &&& self.htif.yield_automatic is Some
        &&& self.rollup matches Some(rc) ==> {
            &&& rc.rx_buffer matches Some(b) && b.image_filename is Some
            &&& rc.tx_buffer matches Some(b) && b.image_filename is Some
        }
        &&& self.uarch.ram.image_filename is Some
    }
}

/// Resolution leaves nothing unset: stated as a partial configuration, every
/// optional field of a resolved configuration is present.
pub proof fn lemma_resolved_fully_specified(
    c: MachineConfig,
    r: ResolvedMachineConfig,
    c2: MachineConfig,
)
    requires
        c.resolves_to(r),
        r.lifts_to(c2),
    ensures
        c2.is_fully_specified(),
{
    assert forall|i: int| 0 <= i < c2.flash_drive@.len() implies (
    #[trigger] c2.flash_drive@[i]).image_filename is Some by {
        assert(c2.flash_drive@[i] == r.flash_drive@[i].lifted());
    }
}

/// With the register file left to its defaults, x10 holds the hart id and
/// x11 the device-tree address.
pub proof fn lemma_default_boot_registers(c: MachineConfig, r: ResolvedMachineConfig)
    requires
        c.processor.registers is None,
        c.resolves_to(r),
    ensures
        r.processor.x[10] == MHARTID_INIT,
        r.processor.x[11] == FDTADDR_INIT,
        FDTADDR_INIT == PMA_DTB_START_DEF,
{
    assert(r.processor.x@[10] == reset_registers()[10]);
    assert(r.processor.x@[11] == reset_registers()[11]);
}


/// Degree of concurrency the engine may use internally.
#[derive(Debug, Default, Clone, Copy, PartialEq, Eq, Structural)]
pub struct ConcurrencyRuntimeConfig {
    /// Worker threads for updating the state tree; zero lets the engine pick.
    pub update_merkle_tree: Option<u64>,
}

/// HTIF options that do not affect the machine's state.
#[derive(Debug, Default, Clone, Copy, PartialEq, Eq, Structural)]
pub struct HtifRuntimeConfig {
    /// Suppress console output?
    pub no_console_putchar: Option<bool>,
}

/// Execution policy: none of it affects the identity of the machine.
#[derive(Debug, Clone, Copy, PartialEq, Eq, Structural)]
pub struct RuntimeConfig {
    pub concurrency: ConcurrencyRuntimeConfig,
    pub htif: HtifRuntimeConfig,
    pub skip_root_hash_check: Option<bool>,
    pub skip_version_check: Option<bool>,
}

/// Runtime options as the engine receives them.
#[derive(Debug, Clone, Copy, PartialEq, Eq, Structural)]
pub struct ResolvedRuntimeConfig {
    pub update_merkle_tree: u64,
    pub no_console_putchar: bool,
    pub skip_root_hash_check: bool,
    pub skip_version_check: bool,
}

impl Default for RuntimeConfig {
    /// Nothing is given.
    fn default() -> (r: Self)
        ensures
            r.concurrency.update_merkle_tree is None,
            r.htif.no_console_putchar is None,
            r.skip_root_hash_check is None,
            r.skip_version_check is None,
    {
        RuntimeConfig {
            concurrency: ConcurrencyRuntimeConfig { update_merkle_tree: None },
            htif: HtifRuntimeConfig { no_console_putchar: None },
            skip_root_hash_check: None,
            skip_version_check: None,
        }
    }
}

impl RuntimeConfig {
    /// The engine picks its own concurrency, console output is on, and both
    /// the root hash and the version are checked, unless stated otherwise.
    pub open spec fn spec_resolve(&self) -> ResolvedRuntimeConfig {
        ResolvedRuntimeConfig {
            update_merkle_tree: self.concurrency.update_merkle_tree.unwrap_or(0),
            no_console_putchar: self.htif.no_console_putchar.unwrap_or(false),
            skip_root_hash_check: self.skip_root_hash_check.unwrap_or(false),
            skip_version_check: self.skip_version_check.unwrap_or(false),
        }
    }

    pub fn resolve(&self) -> (r: ResolvedRuntimeConfig)
        ensures
            r == self.spec_resolve(),
    {
        ResolvedRuntimeConfig {
            update_merkle_tree: self.concurrency.update_merkle_tree.unwrap_or(0),
            no_console_putchar: self.htif.no_console_putchar.unwrap_or(false),
            skip_root_hash_check: self.skip_root_hash_check.unwrap_or(false),
            skip_version_check: self.skip_version_check.unwrap_or(false),
        }
    }
}

impl MachineConfig {
    /// Every field holds its documented default: the reset register file and
    /// control registers, 64 MiB of RAM, empty texts and image names, console
    /// input off, both kinds of yield on, no flash drive, no rollup device,
    /// and the microarchitecture at reset.
    pub open spec fn is_default(&self) -> bool {
        &&& self.processor.registers matches Some(x) && x@ == reset_registers()
        &&& self.processor.float_registers matches Some(f) && f@ == Seq::new(32, |i: int| 0u64)
        &&& self.processor.program_counter == Some(PC_INIT)
        &&& self.processor.csr == Some(reset_csr().lifted())
        &&& self.ram.length == Some(RAM_LENGTH_DEF)
        &&& self.ram.image_filename matches Some(s) && s@ == Seq::<char>::empty()
        &&& self.dtb.bootargs matches Some(s) && s@ == Seq::<char>::empty()
        &&& self.dtb.init matches Some(s) && s@ == Seq::<char>::empty()
        &&& self.dtb.entrypoint matches Some(s) && s@ == Seq::<char>::empty()
        &&& self.dtb.image_filename matches Some(s) && s@ == Seq::<char>::empty()
        &&& self.flash_drive@.len() == 0
        &&& self.tlb.image_filename matches Some(s) && s@ == Seq::<char>::empty()
        &&& self.clint.mtimecmp == Some(MTIMECMP_INIT)
        &&& self.htif == (HtifConfig {
            fromhost: Some(FROMHOST_INIT),
            tohost: Some(TOHOST_INIT),
            console_getchar: Some(false),
            yield_manual: Some(true),
            yield_automatic: Some(true),
        })
        &&& self.rollup is None
        &&& self.uarch.processor.is_reset()
        &&& self.uarch.ram.image_filename matches Some(s) && s@ == Seq::<char>::empty()
    }
}

impl Default for MachineConfig {
    /// The default table stated in full: every optional field is present and
    /// holds its default. x10 holds the hart id and x11 the device-tree
    /// address.
    fn default() -> (r: Self)
        ensures
            r.is_fully_specified(),
            r.is_default(),
            r.processor.registers matches Some(x) && x[10] == MHARTID_INIT && x[11]
                == FDTADDR_INIT,
    {
        let unset = MachineConfig::unset();
        match unset.resolve() {
            Ok(resolved) => {
                let r = MachineConfig::from_resolved(&resolved);
                proof {
                    lemma_resolved_fully_specified(unset, resolved, r);
                    lemma_default_boot_registers(unset, resolved);
                    assert(r.flash_drive@.len() == 0);
                }
                r
            },
            Err(_) => {
                proof {
                    assert(unset.flash_drive@ =~= Seq::<MemoryRangeConfig>::empty());
                    assert(false);
                }
                unset
            },
        }
    }
}

impl ResolvedMachineConfig {
    /// The flash drives stated in full.
    pub open spec fn lifted_drives(self) -> Seq<MemoryRangeConfig> {
        self.flash_drive@.map_values(|d: ResolvedMemoryRange| d.lifted())
    }

    /// Why the configuration cannot be handed to the engine: the error its
    /// full statement as a partial configuration would resolve with. Every
    /// configuration that `resolve` returns has none.
    pub open spec fn error(self) -> Option<ConfigError> {
        if self.ram.lifted().error() is Some {
            self.ram.lifted().error()
        } else if self.dtb.lifted().error() is Some {
            self.dtb.lifted().error()
        } else if drives_error(self.lifted_drives()) is Some {
            drives_error(self.lifted_drives())
        } else if self.tlb.lifted().error() is Some {
            self.tlb.lifted().error()
        } else if self.rollup matches Some(r) && r.lifted().error() is Some {
            self.rollup->0.lifted().error()
        } else {
            self.uarch.lifted().error()
        }
    }

    /// Checks that every text is free of NUL and that RAM and flash drives
    /// have non-zero length.
    pub fn validate(&self) -> (r: Result<(), ConfigError>)
        ensures
            r is Ok <==> self.error() is None,
            r matches Err(e) ==> self.error() == Some(e),
    {
        let c = MachineConfig::from_resolved(self);
        assert(c.flash_drive@ =~= self.lifted_drives());
        assert(c.error() == self.error());
        match c.resolve() {
            Ok(_) => Ok(()),
            Err(e) => Err(e),
        }
    }
}

} // verus!
