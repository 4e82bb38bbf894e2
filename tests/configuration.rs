use cartesi_bindings::configuration::{
    is_boundary_safe, ClintConfig, ConfigError, DtbConfig, HtifConfig, MachineConfig,
    MemoryRangeConfig, ProcessorConfig, RamConfig, RollupConfig, RuntimeConfig, TlbConfig, CSR,
};
use cartesi_bindings::constants::{
    FDTADDR_INIT, IFLAGS_INIT, ILRSC_INIT, MARCHID_INIT, MISA_INIT, MSTATUS_INIT, MVENDORID_INIT,
    PC_INIT, PMA_DTB_START_DEF, UARCH_PC_INIT,
};

fn rollup_ranges() -> RollupConfig {
    RollupConfig {
        rx_buffer: Some(MemoryRangeConfig {
            start: 0x60000000,
            length: 2 << 20,
            shared: false,
            image_filename: None,
        }),
        tx_buffer: Some(MemoryRangeConfig {
            start: 0x60200000,
            length: 2 << 20,
            shared: false,
            image_filename: None,
        }),
    }
}

#[test]
fn reset_values_are_the_architectural_ones() {
    assert_eq!(MISA_INIT, 0x8000_0000_0014_112D);
    assert_eq!(MSTATUS_INIT, 0xA_0000_0000);
    assert_eq!(IFLAGS_INIT, 0x18);
    assert_eq!(ILRSC_INIT, u64::MAX);
    assert_eq!(PC_INIT, 0x80000000);
    assert_eq!(FDTADDR_INIT, 0x7ff00000);
    assert_eq!(MVENDORID_INIT, 0x6361727465736920);
    assert_eq!(MARCHID_INIT, 15);
}

#[test]
fn default_config_resolves_to_reset_values() {
    let r = MachineConfig::default().resolve().unwrap();
    assert_eq!(r.ram.length, 0x4000000);
    assert_eq!(r.ram.image_filename, "");
    assert_eq!(r.processor.pc, PC_INIT);
    assert_eq!(r.processor.f, [0u64; 32]);
    assert_eq!(r.processor.csr.misa, MISA_INIT);
    assert_eq!(r.processor.csr.mstatus, MSTATUS_INIT);
    assert_eq!(r.processor.csr.iflags, IFLAGS_INIT);
    assert_eq!(r.processor.csr.ilrsc, u64::MAX);
    assert_eq!(r.processor.csr.mvendorid, MVENDORID_INIT);
    assert_eq!(r.clint.mtimecmp, 0);
    assert_eq!(r.htif.fromhost, 0);
    assert!(!r.htif.console_getchar);
    assert!(r.htif.yield_manual);
    assert!(r.htif.yield_automatic);
    assert!(r.flash_drive.is_empty());
    assert!(r.rollup.is_none());
    assert_eq!(r.uarch.processor.pc, UARCH_PC_INIT);
    assert_eq!(r.uarch.ram_image_filename, "");
    assert_eq!(r.dtb.bootargs, "");
}

#[test]
fn default_registers_follow_the_boot_protocol() {
    let r = MachineConfig::default().resolve().unwrap();
    assert_eq!(r.processor.x[10], 0);
    assert_eq!(r.processor.x[11], PMA_DTB_START_DEF);
    for (i, v) in r.processor.x.iter().enumerate() {
        if i != 11 {
            assert_eq!(*v, 0);
        }
    }
}

#[test]
fn given_values_are_kept() {
    let mut regs = [0u64; 32];
    regs[10] = 7;
    let mut csr = CSR::default();
    csr.misa = Some(5);
    csr.cycle = Some(99);
    let config = MachineConfig {
        processor: ProcessorConfig {
            registers: Some(regs),
            float_registers: None,
            program_counter: Some(0x1000),
            csr: Some(csr),
        },
        ram: RamConfig { length: Some(0x1000), image_filename: Some("ram.bin".to_string()) },
        clint: ClintConfig { mtimecmp: Some(3) },
        htif: HtifConfig {
            fromhost: None,
            tohost: Some(9),
            console_getchar: Some(true),
            yield_manual: Some(false),
            yield_automatic: None,
        },
        ..Default::default()
    };
    let r = config.resolve().unwrap();
    assert_eq!(r.processor.x, regs);
    assert_eq!(r.processor.pc, 0x1000);
    assert_eq!(r.processor.csr.misa, 5);
    assert_eq!(r.processor.csr.mcycle, 99);
    assert_eq!(r.processor.csr.mstatus, MSTATUS_INIT);
    assert_eq!(r.ram.length, 0x1000);
    assert_eq!(r.ram.image_filename, "ram.bin");
    assert_eq!(r.clint.mtimecmp, 3);
    assert_eq!(r.htif.tohost, 9);
    assert!(r.htif.console_getchar);
    assert!(!r.htif.yield_manual);
    assert!(r.htif.yield_automatic);
}

#[test]
fn absent_rollup_buffer_is_the_empty_range() {
    let config = MachineConfig {
        rollup: Some(RollupConfig { rx_buffer: rollup_ranges().rx_buffer, tx_buffer: None }),
        ..Default::default()
    };
    let r = config.resolve().unwrap();
    let rollup = r.rollup.unwrap();
    assert_eq!(rollup.rx_buffer.start, 0x60000000);
    assert_eq!(rollup.rx_buffer.length, 2 << 20);
    assert_eq!(rollup.tx_buffer.start, 0);
    assert_eq!(rollup.tx_buffer.length, 0);
    assert_eq!(rollup.tx_buffer.image_filename, "");
}

#[test]
fn resolving_twice_gives_the_same_config() {
    let config = MachineConfig {
        rollup: Some(RollupConfig { rx_buffer: rollup_ranges().rx_buffer, tx_buffer: None }),
        flash_drive: vec![MemoryRangeConfig {
            start: 0x80000000000000,
            length: 0x6400000,
            shared: true,
            image_filename: Some("rootfs.ext2".to_string()),
        }],
        dtb: DtbConfig { bootargs: Some("console=hvc0".to_string()), ..Default::default() },
        ..Default::default()
    };
    let r = config.resolve().unwrap();
    let again = MachineConfig::from_resolved(&r).resolve().unwrap();
    assert_eq!(format!("{:?}", again), format!("{:?}", r));
}

#[test]
fn resolved_config_states_every_field() {
    let config = MachineConfig { rollup: Some(RollupConfig::default()), ..Default::default() };
    let c = MachineConfig::from_resolved(&config.resolve().unwrap());
    let csr = c.processor.csr.clone().unwrap();
    assert!(c.processor.registers.is_some());
    assert!(c.processor.float_registers.is_some());
    assert_eq!(c.processor.program_counter, Some(PC_INIT));
    assert_eq!(csr.misa, Some(MISA_INIT));
    assert_eq!(csr.iflags, Some(IFLAGS_INIT));
    assert_eq!(c.ram.length, Some(0x4000000));
    assert_eq!(c.ram.image_filename.as_deref(), Some(""));
    assert!(c.dtb.bootargs.is_some() && c.dtb.image_filename.is_some());
    assert!(c.tlb.image_filename.is_some());
    assert_eq!(c.clint.mtimecmp, Some(0));
    assert_eq!(c.htif.yield_manual, Some(true));
    let rollup = c.rollup.unwrap();
    assert_eq!(rollup.rx_buffer.unwrap().length, 0);
    assert!(rollup.tx_buffer.unwrap().image_filename.is_some());
    assert!(c.uarch.ram.image_filename.is_some());
}

#[test]
fn nul_in_image_file_name_is_an_invalid_path() {
    let config = MachineConfig {
        ram: RamConfig { length: None, image_filename: Some("linux\0.bin".to_string()) },
        ..Default::default()
    };
    assert!(matches!(config.resolve(), Err(ConfigError::InvalidPath)));
    let config = MachineConfig {
        tlb: TlbConfig { image_filename: Some("\0".to_string()) },
        ..Default::default()
    };
    assert!(matches!(config.resolve(), Err(ConfigError::InvalidPath)));
}

#[test]
fn nul_in_boot_arguments_is_invalid_text() {
    let config = MachineConfig {
        dtb: DtbConfig {
            bootargs: Some("quiet\0".to_string()),
            image_filename: Some("rom\0".to_string()),
            ..Default::default()
        },
        ..Default::default()
    };
    assert!(matches!(config.resolve(), Err(ConfigError::InvalidText)));
}

#[test]
fn zero_length_flash_drive_is_an_invalid_range() {
    let config = MachineConfig {
        flash_drive: vec![
            MemoryRangeConfig {
                start: 0x80000000000000,
                length: 0x1000,
                shared: false,
                image_filename: Some("a\0".to_string()),
            },
            MemoryRangeConfig { start: 0x90000000000000, length: 0, shared: false, image_filename: None },
        ],
        ..Default::default()
    };
    // The first faulty drive decides the error.
    assert!(matches!(config.resolve(), Err(ConfigError::InvalidPath)));
    let config = MachineConfig {
        flash_drive: vec![MemoryRangeConfig {
            start: 0x80000000000000,
            length: 0,
            shared: false,
            image_filename: Some("a\0".to_string()),
        }],
        ..Default::default()
    };
    assert!(matches!(config.resolve(), Err(ConfigError::InvalidRange)));
}

#[test]
fn zero_length_ram_is_an_invalid_range() {
    let config = MachineConfig {
        ram: RamConfig { length: Some(0), image_filename: Some("x\0".to_string()) },
        ..Default::default()
    };
    assert!(matches!(config.resolve(), Err(ConfigError::InvalidRange)));
}

#[test]
fn boundary_safety_looks_for_nul() {
    assert!(is_boundary_safe(""));
    assert!(is_boundary_safe("/usr/share/cartesi-machine/images/linux.bin"));
    assert!(!is_boundary_safe("a\0b"));
    assert!(!is_boundary_safe("\0"));
}

#[test]
fn runtime_defaults() {
    let r = RuntimeConfig::default().resolve();
    assert_eq!(r.update_merkle_tree, 0);
    assert!(!r.no_console_putchar);
    assert!(!r.skip_root_hash_check);
    assert!(!r.skip_version_check);
    let mut given = RuntimeConfig::default();
    given.concurrency.update_merkle_tree = Some(4);
    given.skip_version_check = Some(true);
    let r = given.resolve();
    assert_eq!(r.update_merkle_tree, 4);
    assert!(r.skip_version_check);
    assert!(!r.skip_root_hash_check);
}

#[test]
fn default_config_states_the_default_table() {
    let c = MachineConfig::default();
    let regs = c.processor.registers.unwrap();
    assert_eq!(regs[10], 0);
    assert_eq!(regs[11], FDTADDR_INIT);
    assert_eq!(c.processor.float_registers, Some([0u64; 32]));
    assert_eq!(c.processor.program_counter, Some(PC_INIT));
    let csr = c.processor.csr.clone().unwrap();
    assert_eq!(csr.misa, Some(MISA_INIT));
    assert_eq!(csr.mstatus, Some(MSTATUS_INIT));
    assert_eq!(csr.iflags, Some(IFLAGS_INIT));
    assert_eq!(csr.vendor_id, Some(MVENDORID_INIT));
    assert_eq!(c.ram.length, Some(0x4000000));
    assert_eq!(c.ram.image_filename.as_deref(), Some(""));
    assert_eq!(c.dtb.bootargs.as_deref(), Some(""));
    assert_eq!(c.tlb.image_filename.as_deref(), Some(""));
    assert_eq!(c.clint.mtimecmp, Some(0));
    assert_eq!(c.htif.yield_manual, Some(true));
    assert_eq!(c.htif.yield_automatic, Some(true));
    assert_eq!(c.htif.console_getchar, Some(false));
    assert!(c.flash_drive.is_empty());
    assert!(c.rollup.is_none());
    assert_eq!(c.uarch.processor.pc, UARCH_PC_INIT);
    assert_eq!(c.uarch.ram.image_filename.as_deref(), Some(""));
}

#[test]
fn unset_config_leaves_every_field_absent() {
    let c = MachineConfig::unset();
    assert!(c.processor.registers.is_none());
    assert!(c.processor.csr.is_none());
    assert!(c.ram.length.is_none());
    assert!(c.htif.yield_manual.is_none());
    assert!(c.dtb.bootargs.is_none());
    let r = c.resolve().unwrap();
    assert_eq!(r.processor.x[11], FDTADDR_INIT);
    assert!(r.htif.yield_manual);
    assert_eq!(r.ram.length, 0x4000000);
}
