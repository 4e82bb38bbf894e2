//! The machine handle as the library tracks it.
//!
//! The engine runs the machine; this module decides around each call into
//! it. A `Machine` value exists only once the engine has accepted a
//! configuration or a checkpoint, and dropping it is the one point where the
//! engine's instance is released. Each operation is checked here before the
//! engine is asked, and each answer of the engine is classified here.

use crate::configuration::{
    ConfigError, MemoryRangeConfig, ResolvedMachineConfig, ResolvedMemoryRange,
};
use crate::constants::{PMA_DTB_LENGTH_DEF, PMA_DTB_START_DEF, PMA_RAM_START};
use vstd::prelude::*;

verus! {

/// Why a run returned control to the caller.
#[derive(Debug, Clone, Copy, PartialEq, Eq, Structural)]
pub enum BreakReason {
    /// The machine failed, as an architectural outcome.
    Failed,
    /// The machine halted.
    Halted,
    /// The target cycle was reached.
    Limit,
    /// The machine yielded; a manual yield waits for fresh input.
    Yielded { manually: bool },
}

impl BreakReason {
    /// The engine's numeric code of each reason.
    pub open spec fn spec_code(self) -> u32 {
        match self {
            BreakReason::Failed => 0,
            BreakReason::Halted => 1,
            BreakReason::Yielded { manually: true } => 2,
            BreakReason::Yielded { manually: false } => 3,
            BreakReason::Limit => 4,
        }
    }

    /// The reason with a given code; codes above 4 name none.
    pub open spec fn spec_from_code(code: u32) -> Option<BreakReason> {
        if code == 0 {
            Some(BreakReason::Failed)
        } else if code == 1 {
            Some(BreakReason::Halted)
        } else if code == 2 {
            Some(BreakReason::Yielded { manually: true })
        } else if code == 3 {
            Some(BreakReason::Yielded { manually: false })
        } else if code == 4 {
            Some(BreakReason::Limit)
        } else {
            None
        }
    }

    pub fn code(&self) -> (r: u32)
        ensures
            r == self.spec_code(),
    {
        match self {
            BreakReason::Failed => 0,
            BreakReason::Halted => 1,
            BreakReason::Yielded { manually: true } => 2,
            BreakReason::Yielded { manually: false } => 3,
            BreakReason::Limit => 4,
        }
    }

    /// The reason with a code the engine defines.
    pub fn from_code(code: u32) -> (r: BreakReason)
        requires
            code <= 4,
        ensures
            BreakReason::spec_from_code(code) == Some(r),
    {
        match code {
            0 => BreakReason::Failed,
            1 => BreakReason::Halted,
            2 => BreakReason::Yielded { manually: true },
            3 => BreakReason::Yielded { manually: false },
            _ => BreakReason::Limit,
        }
    }
}

/// Codes and reasons correspond one to one: each reason's code names it, and
/// each code that names a reason is that reason's code.
pub proof fn lemma_break_code_round_trip(b: BreakReason, code: u32)
    ensures
        BreakReason::spec_from_code(b.spec_code()) == Some(b),
        BreakReason::spec_from_code(code) matches Some(c) ==> c.spec_code() == code,
        BreakReason::spec_from_code(code) is Some <==> code <= 4,
{
}


/// Why an operation on a machine handle failed.
#[derive(Debug, Clone)]
pub enum MachineError {
    /// The configuration cannot be handed to the engine.
    Configuration(ConfigError),
    /// The engine refused the configuration, with its message.
    Construction(String),
    /// The engine could not load the checkpoint, with its message.
    Load(String),
    /// The engine faulted while running, with its message. The handle is
    /// no longer live.
    Runtime(String),
    /// The engine reported a break reason with an unknown code. The handle
    /// is no longer live.
    UnknownBreakReason(u32),
    /// The handle is not live, so it cannot run or take writes.
    NotLive,
    /// The handle is not live, so its state cannot be read.
    Read,
    /// The access does not lie within one declared memory range.
    OutOfRange,
    /// The access targets a range that cannot be written.
    ReadOnlyRange,
}

/// What a declared memory range holds.
#[derive(Debug, Clone, Copy, PartialEq, Eq, Structural)]
pub enum RegionKind {
    Ram,
    /// The device-tree ROM.
    Rom,
    FlashDrive,
    RollupRx,
    RollupTx,
}

/// A memory range that the machine was configured with.
#[derive(Debug, Clone, Copy, PartialEq, Eq, Structural)]
pub struct Region {
    pub kind: RegionKind,
    pub start: u64,
    pub length: u64,
}

impl Region {
    /// The address lies inside the range.
    pub open spec fn holds(self, address: u64) -> bool {
        self.start <= address && address < self.start + self.length
    }

    /// The `length` bytes from `address` lie inside the range, which holds
    /// `address` itself.
    pub open spec fn holds_span(self, address: u64, length: u64) -> bool {
        self.holds(address) && address + length <= self.start + self.length
    }

    pub open spec fn writable(self) -> bool {
        self.kind != RegionKind::Rom
    }

    /// Ranges whose backing can be swapped on a live machine.
    pub open spec fn replaceable(self) -> bool {
        self.kind == RegionKind::FlashDrive || self.kind == RegionKind::RollupRx
            || self.kind == RegionKind::RollupTx
    }
}

pub open spec fn drive_region(d: ResolvedMemoryRange) -> Region {
    Region { kind: RegionKind::FlashDrive, start: d.start, length: d.length }
}

/// The memory ranges a configuration declares: RAM, the device-tree ROM,
/// the flash drives in order, then the rollup buffers if present.
pub open spec fn declared_regions(c: ResolvedMachineConfig) -> Seq<Region> {
    seq![
        Region { kind: RegionKind::Ram, start: PMA_RAM_START, length: c.ram.length },
        Region { kind: RegionKind::Rom, start: PMA_DTB_START_DEF, length: PMA_DTB_LENGTH_DEF },
    ] + c.flash_drive@.map_values(|d: ResolvedMemoryRange| drive_region(d)) + match c.rollup {
        Some(r) => seq![
            Region {
                kind: RegionKind::RollupRx,
                start: r.rx_buffer.start,
                length: r.rx_buffer.length,
            },
            Region {
                kind: RegionKind::RollupTx,
                start: r.tx_buffer.start,
                length: r.tx_buffer.length,
            },
        ],
        None => Seq::empty(),
    }
}

/// The first range in `regions` that holds `address`.
pub open spec fn first_holding(regions: Seq<Region>, address: u64) -> Option<Region>
    decreases regions.len(),
{
    if regions.len() == 0 {
        None
    } else if regions[0].holds(address) {
        Some(regions[0])
    } else {
        first_holding(regions.drop_first(), address)
    }
}

/// Whether a write of `length` bytes at `address` is admitted: the first
/// range holding the address must hold all the bytes and be writable.
pub open spec fn write_outcome(
    regions: Seq<Region>,
    address: u64,
    length: u64,
) -> Result<(), MachineError> {
    match first_holding(regions, address) {
        None => Err(MachineError::OutOfRange),
        Some(g) => if !g.holds_span(address, length) {
            Err(MachineError::OutOfRange)
        } else if !g.writable() {
            Err(MachineError::ReadOnlyRange)
        } else {
            Ok(())
        },
    }
}

proof fn lemma_first_holding_none(regions: Seq<Region>, address: u64)
    requires
        forall|i: int| 0 <= i < regions.len() ==> !(#[trigger] regions[i]).holds(address),
    ensures
        first_holding(regions, address) is None,
    decreases regions.len(),
{
    if regions.len() > 0 {
        assert forall|i: int| 0 <= i < regions.len() - 1 implies !(
        #[trigger] regions.drop_first()[i]).holds(address) by {
            assert(regions.drop_first()[i] == regions[i + 1]);
        }
        lemma_first_holding_none(regions.drop_first(), address);
    }
}

/// A write at an address that no declared range holds fails with
/// `OutOfRange`, whatever its length.
pub proof fn lemma_write_outside_is_out_of_range(regions: Seq<Region>, address: u64, length: u64)
    requires
        forall|i: int| 0 <= i < regions.len() ==> !(#[trigger] regions[i]).holds(address),
    ensures
        write_outcome(regions, address, length) == Err::<(), MachineError>(
            MachineError::OutOfRange,
        ),
{
    lemma_first_holding_none(regions, address);
}

/// Looks up the first range holding `address` and judges the write there.
fn region_outcome(regions: &Vec<Region>, address: u64, length: u64) -> (r: Result<(), MachineError>)
    ensures
        r == write_outcome(regions@, address, length),
{
    let mut i: usize = 0;
    assert(regions@.subrange(0, regions@.len() as int) =~= regions@);
    while i < regions.len()
        invariant
            i <= regions@.len(),
            first_holding(regions@, address) == first_holding(
                regions@.subrange(i as int, regions@.len() as int),
                address,
            ),
        decreases regions@.len() - i,
    {
        let g = regions[i];
        let tail = Ghost(regions@.subrange(i as int, regions@.len() as int));
        assert(tail@[0] == g);
        if g.start <= address && address - g.start < g.length {
            if length > g.length - (address - g.start) {
                return Err(MachineError::OutOfRange);
            } else if g.kind == RegionKind::Rom {
                return Err(MachineError::ReadOnlyRange);
            } else {
                return Ok(());
            }
        }
        assert(tail@.drop_first() =~= regions@.subrange(i + 1, regions@.len() as int));
        i = i + 1;
    }
    Err(MachineError::OutOfRange)
}

fn regions_of(c: &ResolvedMachineConfig) -> (r: Vec<Region>)
    ensures
        r@ == declared_regions(*c),
{
    let mut r: Vec<Region> = Vec::new();
    r.push(Region { kind: RegionKind::Ram, start: PMA_RAM_START, length: c.ram.length });
    r.push(Region { kind: RegionKind::Rom, start: PMA_DTB_START_DEF, length: PMA_DTB_LENGTH_DEF });
    let ghost head = r@;
    let mut i: usize = 0;
    while i < c.flash_drive.len()
        invariant
            i <= c.flash_drive@.len(),
            r@ == head + c.flash_drive@.subrange(0, i as int).map_values(
                |d: ResolvedMemoryRange| drive_region(d),
            ),
        decreases c.flash_drive@.len() - i,
    {
        let d = &c.flash_drive[i];
        r.push(Region { kind: RegionKind::FlashDrive, start: d.start, length: d.length });
        let ghost f = |d: ResolvedMemoryRange| drive_region(d);
        assert(c.flash_drive@.subrange(0, i + 1).map_values(f) =~= c.flash_drive@.subrange(
            0,
            i as int,
        ).map_values(f).push(drive_region(c.flash_drive@[i as int])));
        i = i + 1;
    }
    assert(c.flash_drive@.subrange(0, i as int) =~= c.flash_drive@);
    if let Some(rollup) = &c.rollup {
        r.push(
            Region {
                kind: RegionKind::RollupRx,
                start: rollup.rx_buffer.start,
                length: rollup.rx_buffer.length,
            },
        );
        r.push(
            Region {
                kind: RegionKind::RollupTx,
                start: rollup.tx_buffer.start,
                length: rollup.tx_buffer.length,
            },
        );
    }
    assert(r@ =~= declared_regions(*c));
    r
}


/// The outcome of a run on a live machine, from the engine's report: the
/// break reason its code names, or the fault.
pub open spec fn run_outcome(report: Result<u32, String>) -> Result<BreakReason, MachineError> {
    match report {
        Ok(code) => match BreakReason::spec_from_code(code) {
            Some(b) => Ok(b),
            None => Err(MachineError::UnknownBreakReason(code)),
        },
        Err(msg) => Err(MachineError::Runtime(msg)),
    }
}

/// Every report of the engine on a run is classified: a reached limit is
/// `Limit`, each known code its break reason, and anything else a
/// well-defined error that carries the engine's message or code.
pub proof fn lemma_run_outcome_classified(report: Result<u32, String>)
    ensures
        report == Ok::<u32, String>(BreakReason::Limit.spec_code()) ==> run_outcome(report)
            == Ok::<BreakReason, MachineError>(BreakReason::Limit),
        run_outcome(report) matches Ok(b) ==> report == Ok::<u32, String>(b.spec_code()),
        run_outcome(report) matches Err(e) ==> match report {
            Ok(code) => code > 4 && e == MachineError::UnknownBreakReason(code),
            Err(msg) => e == MachineError::Runtime(msg),
        },
{
}

/// What the run loop does once a run has returned.
#[derive(Debug, Clone, Copy, PartialEq, Eq, Structural)]
pub enum DriverAction {
    /// Run again.
    Resume,
    /// Clear the yield, swap the input buffer's backing, write the next
    /// input at the buffer's start, then run again.
    FeedInput,
    /// Leave the loop.
    Stop,
}

/// The run loop's decision: a manual yield is fed the next input if there is
/// one, an automatic yield resumes, and anything else stops the loop.
pub fn next_action(reason: BreakReason, input_available: bool) -> (a: DriverAction)
    ensures
        a == match reason {
            BreakReason::Yielded { manually: true } => if input_available {
                DriverAction::FeedInput
            } else {
                DriverAction::Stop
            },
            BreakReason::Yielded { manually: false } => DriverAction::Resume,
            _ => DriverAction::Stop,
        },
{
    match reason {
        BreakReason::Yielded { manually: true } => if input_available {
            DriverAction::FeedInput
        } else {
            DriverAction::Stop
        },
        BreakReason::Yielded { manually: false } => DriverAction::Resume,
        _ => DriverAction::Stop,
    }
}

/// A handle on a machine instance of the engine.
///
/// It is live from the moment the engine accepts a configuration or a
/// checkpoint until the engine faults while running. Dropping the handle is
/// what releases the instance, so it cannot be released twice.
#[derive(Debug)]
pub struct Machine {
    live: bool,
    regions: Vec<Region>,
}

impl Machine {
    pub closed spec fn is_live(&self) -> bool {
        self.live
    }

    /// The memory ranges the machine was configured with.
    pub closed spec fn regions(&self) -> Seq<Region> {
        self.regions@
    }

    /// The handle for a machine built from `config`, once the engine has
    /// answered: a configuration that cannot be handed to the engine is
    /// refused whatever the answer; otherwise the handle is live when the
    /// engine accepted, and an error with the engine's message when not.
    pub fn create(config: &ResolvedMachineConfig, engine: Result<(), String>) -> (r: Result<
        Machine,
        MachineError,
    >)
        ensures
            config.error() matches Some(c) ==> (r matches Err(e) && e
                == MachineError::Configuration(c)),
            config.error() is None && engine is Ok ==> (r matches Ok(m) && m.is_live()
                && m.regions() == declared_regions(*config)),
            config.error() is None && engine is Err ==> (r matches Err(e) && engine matches Err(
                msg,
            ) && e == MachineError::Construction(msg)),
    {
        if let Err(e) = config.validate() {
            return Err(MachineError::Configuration(e));
        }
        match engine {
            Ok(()) => Ok(Machine { live: true, regions: regions_of(config) }),
            Err(msg) => Err(MachineError::Construction(msg)),
        }
    }

    /// The handle for a machine loaded from a checkpoint, once the engine has
    /// answered with the loaded machine's configuration or with a message.
    /// A loaded configuration that could not have been handed to the engine
    /// is refused.
    pub fn load(engine: Result<ResolvedMachineConfig, String>) -> (r: Result<Machine, MachineError>)
        ensures
            match engine {
                Ok(c) => match c.error() {
                    None => r matches Ok(m) && m.is_live() && m.regions() == declared_regions(c),
                    Some(ce) => r matches Err(e) && e == MachineError::Configuration(ce),
                },
                Err(msg) => r matches Err(e) && e == MachineError::Load(msg),
            },
    {
        match engine {
            Ok(c) => match c.validate() {
                Ok(()) => Ok(Machine { live: true, regions: regions_of(&c) }),
                Err(e) => Err(MachineError::Configuration(e)),
            },
            Err(msg) => Err(MachineError::Load(msg)),
        }
    }

    /// Whether the engine may be asked to run the machine.
    pub fn check_live(&self) -> (r: Result<(), MachineError>)
        ensures
            r is Ok <==> self.is_live(),
            r matches Err(e) ==> e is NotLive,
    {
        if self.live {
            Ok(())
        } else {
            Err(MachineError::NotLive)
        }
    }

    /// Classifies the engine's answer to a run. A fault or an unknown code
    /// ends the handle's life; a break reason leaves it live.
    pub fn finish_run(&mut self, report: Result<u32, String>) -> (r: Result<
        BreakReason,
        MachineError,
    >)
        ensures
            final(self).regions() == old(self).regions(),
            !old(self).is_live() ==> (r matches Err(e) && e is NotLive) && !final(self).is_live(),
            old(self).is_live() ==> r == run_outcome(report) && final(self).is_live() == (r is Ok),
    {
        if !self.live {
            return Err(MachineError::NotLive);
        }
        match report {
            Ok(code) => if code <= 4 {
                Ok(BreakReason::from_code(code))
            } else {
                self.live = false;
                Err(MachineError::UnknownBreakReason(code))
            },
            Err(msg) => {
                self.live = false;
                Err(MachineError::Runtime(msg))
            },
        }
    }

    /// Records the engine's answer to a call other than a run (clearing a
    /// yield, writing memory, swapping a range). A fault ends the handle's
    /// life, as one during a run does.
    pub fn finish_call(&mut self, report: Result<(), String>) -> (r: Result<(), MachineError>)
        ensures
            final(self).regions() == old(self).regions(),
            match report {
                Ok(()) => r is Ok && final(self).is_live() == old(self).is_live(),
                Err(msg) => (r matches Err(e) && e == MachineError::Runtime(msg))
                    && !final(self).is_live(),
            },
    {
        match report {
            Ok(()) => Ok(()),
            Err(msg) => {
                self.live = false;
                Err(MachineError::Runtime(msg))
            },
        }
    }

    /// Whether the machine's state may be read.
    pub fn check_read(&self) -> (r: Result<(), MachineError>)
        ensures
            r is Ok <==> self.is_live(),
            r matches Err(e) ==> e is Read,
    {
        if self.live {
            Ok(())
        } else {
            Err(MachineError::Read)
        }
    }

    /// Whether `length` bytes may be written at `address`. The declared
    /// ranges decide first: a write they refuse fails with their error
    /// whether or not the handle is live, and one they admit fails with
    /// `NotLive` on a handle that is no longer live.
    pub fn check_write_memory(&self, address: u64, length: u64) -> (r: Result<(), MachineError>)
        ensures
            write_outcome(self.regions(), address, length) is Err ==> r == write_outcome(
                self.regions(),
                address,
                length,
            ),
            write_outcome(self.regions(), address, length) is Ok ==> if self.is_live() {
                r is Ok
            } else {
                r matches Err(e) && e is NotLive
            },
    {
        match region_outcome(&self.regions, address, length) {
            Ok(()) => if self.live {
                Ok(())
            } else {
                Err(MachineError::NotLive)
            },
            Err(e) => Err(e),
        }
    }

    /// Resolves a new backing for a declared flash drive or rollup buffer,
    /// to be handed to the engine. The range must have the start and length
    /// of one such declared range.
    pub fn check_replace_memory_range(&self, range: &MemoryRangeConfig) -> (r: Result<
        ResolvedMemoryRange,
        MachineError,
    >)
        ensures
            !self.is_live() ==> (r matches Err(e) && e is NotLive),
            self.is_live() && !range.valid() ==> (r matches Err(e) && e
                == MachineError::Configuration(ConfigError::InvalidPath)),
            self.is_live() && range.valid() ==> match r {
                Ok(v) => range.resolves_to(v) && exists|i: int|
                    0 <= i < self.regions().len() && #[trigger] self.regions()[i].replaceable()
                        && self.regions()[i].start == range.start && self.regions()[i].length
                        == range.length,
                Err(e) => e is OutOfRange && forall|i: int|
                    0 <= i < self.regions().len() && #[trigger] self.regions()[i].replaceable()
                        ==> !(self.regions()[i].start == range.start && self.regions()[i].length
                        == range.length),
            },
    {
        if !self.live {
            return Err(MachineError::NotLive);
        }
        let resolved = match range.resolve() {
            Ok(v) => v,
            Err(e) => {
                return Err(MachineError::Configuration(e));
            },
        };
        let mut i: usize = 0;
        while i < self.regions.len()
            invariant
                self.live,
                range.valid(),
                range.resolves_to(resolved),
                i <= self.regions@.len(),
                forall|j: int|
                    0 <= j < i && #[trigger] self.regions@[j].replaceable() ==> !(
                    self.regions@[j].start == range.start && self.regions@[j].length
                        == range.length),
            decreases self.regions@.len() - i,
        {
            let g = self.regions[i];
            let replaceable = g.kind == RegionKind::FlashDrive || g.kind == RegionKind::RollupRx
                || g.kind == RegionKind::RollupTx;
            if replaceable && g.start == range.start && g.length == range.length {
                assert(self.regions@[i as int].replaceable());
                return Ok(resolved);
            }
            i = i + 1;
        }
        Err(MachineError::OutOfRange)
    }
}

} // verus!
