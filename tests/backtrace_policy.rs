use probe_run::backtrace::{BacktraceOptions, LogLevel, Outcome, Settings};
use probe_run::cli::Opts;

fn opts(backtrace: &str, limit: u32, verbose: u8, shorten: bool) -> Opts {
    Opts {
        backtrace: backtrace.to_string(),
        backtrace_limit: limit,
        chip: Some("nRF52840_xxAA".to_string()),
        chip_description_path: None,
        connect_under_reset: false,
        disable_double_buffering: false,
        elf: Some("hello".to_string()),
        erase_all: false,
        json: false,
        list_chips: false,
        list_probes: false,
        log_format: None,
        host_log_format: None,
        measure_stack: false,
        no_flash: false,
        no_reset: false,
        probe: None,
        shorten_paths: shorten,
        speed: None,
        verbose,
        verify: false,
        version: false,
    }
}

#[test]
fn backtrace_option_names() {
    assert_eq!(BacktraceOptions::from_name("auto"), Some(BacktraceOptions::Auto));
    assert_eq!(BacktraceOptions::from_name("Auto"), Some(BacktraceOptions::Auto));
    assert_eq!(BacktraceOptions::from_name("never"), Some(BacktraceOptions::Never));
    assert_eq!(BacktraceOptions::from_name("Never"), Some(BacktraceOptions::Never));
    assert_eq!(BacktraceOptions::from_name("always"), Some(BacktraceOptions::Always));
    assert_eq!(BacktraceOptions::from_name("Always"), Some(BacktraceOptions::Always));
    assert_eq!(BacktraceOptions::from_name("ALWAYS"), None);
    assert_eq!(BacktraceOptions::from_name(""), None);
}

#[test]
fn settings_take_the_options() {
    let s = Settings::new("/work".to_string(), true, &opts("never", 7, 2, true), false);
    assert_eq!(s.backtrace, BacktraceOptions::Never);
    assert_eq!(s.backtrace_limit, 7);
    assert_eq!(s.current_dir, "/work");
    assert!(s.halted_due_to_signal);
    assert!(s.include_addresses);
    assert!(s.shorten_paths);
    assert!(!s.stack_overflow);
    let quiet = Settings::new("/work".to_string(), false, &opts("auto", 50, 0, false), true);
    assert!(!quiet.include_addresses);
    assert!(quiet.panic_present());
}

#[test]
fn normal_exit_prints_no_backtrace() {
    let s = Settings::new("/w".to_string(), false, &opts("auto", 50, 0, false), false);
    assert!(!s.should_print(Outcome::Success, false, false));
    assert_eq!(Outcome::Success.after_signal(false), Outcome::Success);
    assert_eq!(Outcome::Success.exit_code(), 0);
}

#[test]
fn forced_backtrace_is_printed_on_normal_exit() {
    let s = Settings::new("/w".to_string(), false, &opts("always", 50, 0, false), false);
    assert!(s.should_print(Outcome::Success, false, false));
    assert_eq!(Outcome::Success.exit_code(), 0);
}

#[test]
fn never_suppresses_backtrace_of_a_fault() {
    let s = Settings::new("/w".to_string(), false, &opts("never", 50, 0, false), true);
    assert!(!s.should_print(Outcome::StackOverflow, true, true));
}

#[test]
fn auto_prints_on_each_reason() {
    let s = Settings::new("/w".to_string(), false, &opts("auto", 50, 0, false), false);
    assert!(s.should_print(Outcome::StackOverflow, false, false));
    assert!(s.should_print(Outcome::HardFault, true, false));
    assert!(s.should_print(Outcome::HardFault, false, true));
    assert!(!s.should_print(Outcome::HardFault, false, false));
    let overflow = Settings::new("/w".to_string(), false, &opts("auto", 50, 0, false), true);
    assert!(overflow.should_print(Outcome::Success, false, false));
    let signal = Settings::new("/w".to_string(), true, &opts("auto", 50, 0, false), false);
    assert!(signal.should_print(Outcome::Success, false, false));
}

#[test]
fn zero_limit_means_all_frames() {
    let s = Settings::new("/w".to_string(), false, &opts("auto", 0, 0, false), false);
    assert_eq!(s.effective_limit(17), 17);
    let s = Settings::new("/w".to_string(), false, &opts("auto", 3, 0, false), false);
    assert_eq!(s.effective_limit(17), 3);
}

#[test]
fn outcome_messages() {
    assert_eq!(
        Outcome::StackOverflow.log(),
        (LogLevel::Error, "the program has overflowed its stack")
    );
    assert_eq!(Outcome::HardFault.log(), (LogLevel::Error, "the program panicked"));
    assert_eq!(Outcome::Success.log(), (LogLevel::Info, "device halted without error"));
    assert_eq!(Outcome::CtrlC.log(), (LogLevel::Info, "interrupted by user"));
}

#[test]
fn exit_codes_mirror_signals() {
    assert_eq!(Outcome::HardFault.exit_code(), 6);
    assert_eq!(Outcome::StackOverflow.exit_code(), 6);
    assert_eq!(Outcome::CtrlC.exit_code(), 2);
    assert_eq!(Outcome::Success.exit_code(), 0);
}

#[test]
fn only_success_exits_with_zero() {
    for o in [Outcome::HardFault, Outcome::StackOverflow, Outcome::CtrlC, Outcome::Success] {
        assert_eq!(o.exit_code() == 0, o == Outcome::Success);
    }
}

#[test]
fn interrupt_turns_success_into_ctrl_c() {
    assert_eq!(Outcome::Success.after_signal(true), Outcome::CtrlC);
    assert_eq!(Outcome::HardFault.after_signal(true), Outcome::HardFault);
    assert_eq!(Outcome::StackOverflow.after_signal(true), Outcome::StackOverflow);
    assert_eq!(Outcome::CtrlC.log().1, "interrupted by user");
    assert_eq!(Outcome::Success.after_signal(true).exit_code(), 2);
}
