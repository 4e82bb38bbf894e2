use cartesi_bindings::configuration::{
    ConfigError, DtbConfig, MachineConfig, MemoryRangeConfig, RamConfig, ResolvedMachineConfig, RollupConfig,
    RuntimeConfig,
};
use cartesi_bindings::constants::{PMA_DTB_START_DEF, PMA_RAM_START};
use cartesi_bindings::machine::{next_action, BreakReason, DriverAction, Machine, MachineError};

fn rollup_config() -> MachineConfig {
    MachineConfig {
        rollup: Some(RollupConfig {
            rx_buffer: Some(MemoryRangeConfig {
                start: 0x60000000,
                length: 2 << 20,
                shared: false,
                image_filename: None,
            }),
            tx_buffer: Some(MemoryRangeConfig {
                start: 0x60200000,
                length: 2 << 20,
                shared: false,
                image_filename: None,
            }),
        }),
        flash_drive: vec![MemoryRangeConfig {
            start: 0x80000000000000,
            length: 0x6400000,
            shared: false,
            image_filename: Some("/usr/share/cartesi-machine/images/rootfs.ext2".to_string()),
        }],
        ..Default::default()
    }
}

fn live(config: &MachineConfig) -> Machine {
    let resolved: ResolvedMachineConfig = config.resolve().unwrap();
    Machine::create(&resolved, Ok(())).unwrap()
}

#[test]
fn test() {
    let machine_config = MachineConfig {
        rollup: Some(RollupConfig {
            rx_buffer: Some(MemoryRangeConfig {
                start: 0x60000000,
                length: 2 << 20,
                shared: false,
                image_filename: None,
            }),
            tx_buffer: Some(MemoryRangeConfig {
                start: 0x60200000,
                length: 2 << 20,
                shared: false,
                image_filename: None,
            }),
        }),
        dtb: DtbConfig {
            bootargs: None,
            init: None,
            entrypoint: Some("/mnt/dapp/d-app".to_string()),
            image_filename: None,
        },
        ram: RamConfig {
            length: Some(0x4000000),
            image_filename: Some("/usr/share/cartesi-machine/images/linux.bin".to_string()),
        },
        flash_drive: vec![
            MemoryRangeConfig {
                start: 0x80000000000000,
                length: 0x6400000,
                shared: false,
                image_filename: Some("/usr/share/cartesi-machine/images/rootfs.ext2".to_string()),
            },
            MemoryRangeConfig {
                start: 0x90000000000000,
                length: 0x800000,
                shared: false,
                image_filename: Some("/tmp/dapp.ext2".to_string()),
            },
        ],
        ..Default::default()
    };

    let t = machine_config.resolve().unwrap();

    println!("Machine config: {:?}", t.flash_drive);

    let runtime = RuntimeConfig::default().resolve();
    assert!(!runtime.skip_version_check);

    let mut machine = Machine::create(&t, Ok(())).unwrap();
    let result = machine.finish_run(Ok(BreakReason::Halted.code())).unwrap();

    println!("Machine run result: {:?}", result);
}

#[test]
fn break_reason_codes() {
    let all = [
        BreakReason::Failed,
        BreakReason::Halted,
        BreakReason::Yielded { manually: true },
        BreakReason::Yielded { manually: false },
        BreakReason::Limit,
    ];
    for (i, b) in all.iter().enumerate() {
        assert_eq!(b.code(), i as u32);
        assert_eq!(BreakReason::from_code(i as u32), *b);
    }
}

#[test]
fn engine_refusal_is_a_construction_error() {
    let resolved = MachineConfig::default().resolve().unwrap();
    let r = Machine::create(&resolved, Err("missing image".to_string()));
    assert!(matches!(r, Err(MachineError::Construction(m)) if m == "missing image"));
    let r = Machine::load(Err("bad version".to_string()));
    assert!(matches!(r, Err(MachineError::Load(m)) if m == "bad version"));
}

#[test]
fn loaded_machine_takes_the_checkpoint_ranges() {
    let resolved = rollup_config().resolve().unwrap();
    let m = Machine::load(Ok(resolved)).unwrap();
    assert!(m.check_live().is_ok());
    assert!(m.check_write_memory(0x60000000, 4).is_ok());
}

#[test]
fn run_zero_limit_on_fresh_machine() {
    let mut m = live(&MachineConfig::default());
    assert!(m.check_live().is_ok());
    assert_eq!(m.finish_run(Ok(4)).unwrap(), BreakReason::Limit);
    assert!(m.check_live().is_ok());
}

#[test]
fn engine_fault_ends_the_handle() {
    let mut m = live(&MachineConfig::default());
    let r = m.finish_run(Err("fault".to_string()));
    assert!(matches!(r, Err(MachineError::Runtime(msg)) if msg == "fault"));
    assert!(matches!(m.check_live(), Err(MachineError::NotLive)));
    assert!(matches!(m.check_read(), Err(MachineError::Read)));
    assert!(matches!(m.check_write_memory(PMA_RAM_START, 1), Err(MachineError::NotLive)));
    assert!(matches!(m.finish_run(Ok(1)), Err(MachineError::NotLive)));
}

#[test]
fn writes_outside_every_range_stay_out_of_range_after_a_fault() {
    let mut m = live(&rollup_config());
    let _ = m.finish_run(Err("fault".to_string()));
    assert!(matches!(m.check_write_memory(0x1000, 4), Err(MachineError::OutOfRange)));
    assert!(matches!(m.check_write_memory(PMA_DTB_START_DEF, 4), Err(MachineError::ReadOnlyRange)));
    assert!(matches!(m.check_write_memory(0x60000000, 4), Err(MachineError::NotLive)));
}

#[test]
fn engine_fault_outside_a_run_ends_the_handle() {
    let mut m = live(&MachineConfig::default());
    assert!(m.finish_call(Ok(())).is_ok());
    assert!(m.check_live().is_ok());
    let r = m.finish_call(Err("write failed".to_string()));
    assert!(matches!(r, Err(MachineError::Runtime(msg)) if msg == "write failed"));
    assert!(matches!(m.check_live(), Err(MachineError::NotLive)));
}

#[test]
fn hand_built_invalid_config_is_refused() {
    let mut resolved = MachineConfig::default().resolve().unwrap();
    resolved.ram.length = 0;
    assert!(matches!(resolved.validate(), Err(ConfigError::InvalidRange)));
    let r = Machine::create(&resolved, Ok(()));
    assert!(matches!(r, Err(MachineError::Configuration(ConfigError::InvalidRange))));
    let mut resolved = MachineConfig::default().resolve().unwrap();
    resolved.dtb.init = "a\0b".to_string();
    assert!(matches!(resolved.validate(), Err(ConfigError::InvalidText)));
    assert!(matches!(
        Machine::load(Ok(resolved)),
        Err(MachineError::Configuration(ConfigError::InvalidText))
    ));
    let resolved = MachineConfig::default().resolve().unwrap();
    assert!(resolved.validate().is_ok());
}

#[test]
fn unknown_break_code_ends_the_handle() {
    let mut m = live(&MachineConfig::default());
    assert!(matches!(m.finish_run(Ok(9)), Err(MachineError::UnknownBreakReason(9))));
    assert!(matches!(m.check_live(), Err(MachineError::NotLive)));
}

#[test]
fn reads_on_a_live_machine() {
    let m = live(&MachineConfig::default());
    assert!(m.check_read().is_ok());
}

#[test]
fn writes_inside_declared_ranges() {
    let m = live(&rollup_config());
    assert!(m.check_write_memory(PMA_RAM_START, 16).is_ok());
    assert!(m.check_write_memory(PMA_RAM_START + 0x4000000 - 4, 4).is_ok());
    assert!(m.check_write_memory(0x80000000000000, 0x6400000).is_ok());
    assert!(m.check_write_memory(0x60200000, 0).is_ok());
}

#[test]
fn writes_outside_every_range_are_out_of_range() {
    let m = live(&rollup_config());
    for address in [0u64, 0x1000, PMA_DTB_START_DEF - 1, PMA_RAM_START + 0x4000000, 0x60400000, u64::MAX] {
        assert!(matches!(m.check_write_memory(address, 1), Err(MachineError::OutOfRange)));
        assert!(matches!(m.check_write_memory(address, 0), Err(MachineError::OutOfRange)));
    }
}

#[test]
fn writes_past_the_end_of_a_range_are_out_of_range() {
    let m = live(&rollup_config());
    assert!(matches!(
        m.check_write_memory(PMA_RAM_START + 0x4000000 - 4, 5),
        Err(MachineError::OutOfRange)
    ));
    assert!(matches!(m.check_write_memory(0x60000000, u64::MAX), Err(MachineError::OutOfRange)));
}

#[test]
fn writes_to_the_device_tree_are_read_only() {
    let m = live(&MachineConfig::default());
    assert!(matches!(m.check_write_memory(PMA_DTB_START_DEF, 8), Err(MachineError::ReadOnlyRange)));
}

#[test]
fn rollup_input_fits_the_rx_buffer() {
    let m = live(&rollup_config());
    let payload: Vec<u8> = vec![1, 2, 3, 4];
    assert!(m.check_write_memory(0x60000000, payload.len() as u64).is_ok());
    assert!(matches!(
        m.check_write_memory(0x60000000, (2 << 20) + 1),
        Err(MachineError::OutOfRange)
    ));
}

#[test]
fn replacing_a_declared_range() {
    let m = live(&rollup_config());
    let rx = MemoryRangeConfig {
        start: 0x60000000,
        length: 2 << 20,
        shared: false,
        image_filename: Some("epoch-0-input-0.bin".to_string()),
    };
    let r = m.check_replace_memory_range(&rx).unwrap();
    assert_eq!(r.image_filename, "epoch-0-input-0.bin");
    assert_eq!(r.start, 0x60000000);
    let wrong_length = MemoryRangeConfig { length: 1 << 20, ..rx.clone() };
    assert!(matches!(m.check_replace_memory_range(&wrong_length), Err(MachineError::OutOfRange)));
    let ram = MemoryRangeConfig { start: PMA_RAM_START, length: 0x4000000, ..rx.clone() };
    assert!(matches!(m.check_replace_memory_range(&ram), Err(MachineError::OutOfRange)));
    let bad = MemoryRangeConfig { image_filename: Some("in\0put".to_string()), ..rx };
    assert!(matches!(m.check_replace_memory_range(&bad), Err(MachineError::Configuration(_))));
}

#[test]
fn run_loop_decisions() {
    let manual = BreakReason::Yielded { manually: true };
    let automatic = BreakReason::Yielded { manually: false };
    assert_eq!(next_action(manual, true), DriverAction::FeedInput);
    assert_eq!(next_action(manual, false), DriverAction::Stop);
    assert_eq!(next_action(automatic, false), DriverAction::Resume);
    assert_eq!(next_action(automatic, true), DriverAction::Resume);
    for b in [BreakReason::Halted, BreakReason::Failed, BreakReason::Limit] {
        assert_eq!(next_action(b, true), DriverAction::Stop);
    }
}
