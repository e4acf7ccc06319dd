use probe_run::backtrace::Outcome;
use probe_run::cli::{
    command, extract_git_hash, host_log_enabled, is_runner_target, log_formats, Command, Opts,
};
use probe_run::controller::{
    check_stack_measurement, diagnose, run_plan, suggests_connect_under_reset, ControllerError,
    RunPlan,
};
use probe_run::gdb::ArmCortexMRegId;
use probe_run::target_info::StackInfo;

fn opts() -> Opts {
    Opts {
        backtrace: "auto".to_string(),
        backtrace_limit: 50,
        chip: Some("nRF52840_xxAA".to_string()),
        chip_description_path: None,
        connect_under_reset: false,
        disable_double_buffering: false,
        elf: Some("hello".to_string()),
        erase_all: false,
        json: false,
        list_chips: false,
        list_probes: false,
        log_format: None,
        host_log_format: None,
        measure_stack: false,
        no_flash: false,
        no_reset: false,
        probe: None,
        shorten_paths: false,
        speed: None,
        verbose: 0,
        verify: false,
        version: false,
    }
}

#[test]
fn should_extract_hash_from_description() {
    assert_eq!(extract_git_hash("v0.2.3-12-g25c50d2"), "g25c50d2");
    assert_eq!(extract_git_hash("v0.2.3-12-g25c50d2-modified"), "g25c50d2");
    assert_eq!(extract_git_hash("--"), "");
}

#[test]
fn helper_flags_win() {
    let mut o = opts();
    assert_eq!(
        command(&o),
        Command::Run { elf: "hello".to_string(), chip: "nRF52840_xxAA".to_string() }
    );
    o.list_chips = true;
    assert_eq!(command(&o), Command::ListChips);
    o.list_probes = true;
    assert_eq!(command(&o), Command::ListProbes);
    o.version = true;
    assert_eq!(command(&o), Command::Version);
}

#[test]
fn default_log_formats() {
    let (log, host) = log_formats(None, None, 0);
    assert_eq!(log, "{L} {s}\n└─ {m} @ {F}:{l}");
    assert_eq!(host, "(HOST) {L} {s}");
    let (_, verbose_host) = log_formats(None, None, 1);
    assert_eq!(verbose_host, "(HOST) {L} {s}\n└─ {m} @ {F}:{l}");
    let (log, host) = log_formats(Some("{s}".to_string()), Some("{t}".to_string()), 2);
    assert_eq!((log.as_str(), host.as_str()), ("{s}", "{t}"));
}

#[test]
fn host_log_filter() {
    assert!(host_log_enabled(0, true, false, false));
    assert!(host_log_enabled(0, false, true, true));
    assert!(!host_log_enabled(0, false, true, false));
    assert!(!host_log_enabled(0, false, false, true));
    assert!(host_log_enabled(1, false, true, false));
    assert!(!host_log_enabled(1, false, false, true));
    assert!(host_log_enabled(2, false, false, false));
    assert!(is_runner_target("probe_run::canary"));
    assert!(!is_runner_target("probe_rs::flashing"));
    assert!(!is_runner_target("probe"));
}

#[test]
fn run_plans() {
    let mut o = opts();
    assert_eq!(run_plan(&o), RunPlan { flash: true, erase_all: false, reset: true, install_canary: true });
    o.no_flash = true;
    o.erase_all = true;
    assert_eq!(run_plan(&o), RunPlan { flash: false, erase_all: false, reset: true, install_canary: true });
    o.no_flash = false;
    assert_eq!(run_plan(&o), RunPlan { flash: true, erase_all: true, reset: true, install_canary: true });
    o.no_reset = true;
    assert_eq!(run_plan(&o), RunPlan { flash: false, erase_all: false, reset: false, install_canary: false });
}

#[test]
fn stack_measurement_needs_a_canary() {
    assert_eq!(check_stack_measurement(true, true, false), Err(ControllerError::StackMeasurement));
    assert_eq!(check_stack_measurement(true, true, true), Ok(()));
    assert_eq!(check_stack_measurement(false, true, false), Ok(()));
    // without a reset no canary is placed, and none is demanded
    assert_eq!(check_stack_measurement(true, false, false), Ok(()));
}

#[test]
fn outcomes_of_halted_targets() {
    let stack = Some(StackInfo { range_start: 0x2000_0000, range_end: 0x2004_0000, data_below_stack: false });
    // bkpt in main
    assert_eq!(diagnose(0x400, 0x2003_FF00, 0x501, stack, false, false), Outcome::Success);
    // halted in the hard-fault handler (udf, panic)
    assert_eq!(diagnose(0x500, 0x2003_FF00, 0x501, stack, false, false), Outcome::HardFault);
    // hard fault with the stack pointer below the stack (flip-link overflow)
    assert_eq!(diagnose(0x500, 0x1FFF_FFE0, 0x501, stack, false, false), Outcome::StackOverflow);
    // canary says overflow
    assert_eq!(diagnose(0x400, 0x2003_FF00, 0x501, stack, true, false), Outcome::StackOverflow);
    // Control-C
    assert_eq!(diagnose(0x400, 0x2003_FF00, 0x501, stack, false, true), Outcome::CtrlC);
    assert_eq!(diagnose(0x500, 0x2003_FF00, 0x501, stack, false, true), Outcome::HardFault);
    assert_eq!(diagnose(0x400, 0x2003_FF00, 0x501, stack, false, true).exit_code(), 2);
}

#[test]
fn jtag_hint() {
    assert!(suggests_connect_under_reset("Probe error: JtagNoDeviceConnected"));
    assert!(!suggests_connect_under_reset("Probe error: timeout"));
}

#[test]
fn gdb_register_numbers() {
    assert_eq!(ArmCortexMRegId::from_raw_id(0), Some((ArmCortexMRegId::Gpr(0), 4)));
    assert_eq!(ArmCortexMRegId::from_raw_id(12), Some((ArmCortexMRegId::Gpr(12), 4)));
    assert_eq!(ArmCortexMRegId::from_raw_id(13), Some((ArmCortexMRegId::Sp, 4)));
    assert_eq!(ArmCortexMRegId::from_raw_id(14), Some((ArmCortexMRegId::Lr, 4)));
    assert_eq!(ArmCortexMRegId::from_raw_id(15), Some((ArmCortexMRegId::Pc, 4)));
    assert_eq!(ArmCortexMRegId::from_raw_id(16), None);
}
