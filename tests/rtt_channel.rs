use probe_run::rtt::{
    attach_plan, attach_step, is_structured_channel, log_setup, up_channel_flags_address,
    with_mode, AttachAttempt, AttachError, AttachPlan, AttachStep, LogMode, LogSetup,
    LogSetupError, NUM_ATTACH_RETRIES,
};

#[test]
fn flags_word_is_at_offset_44() {
    assert_eq!(up_channel_flags_address(0x2000_0000), 0x2000_002C);
}

#[test]
fn mode_switch_keeps_other_bits() {
    assert_eq!(with_mode(0xFFFF_FFFC, true), 0xFFFF_FFFE);
    assert_eq!(with_mode(0x0000_0013, true), 0x0000_0012);
    assert_eq!(with_mode(0x0000_0012, false), 0x0000_0011);
    assert_eq!(with_mode(0, false), 1);
}

#[test]
fn rtt_needs_breakpoints() {
    assert_eq!(
        attach_plan(0, Some(0x2000_0000), 0x400, 0x501),
        Err(AttachError::RttWithoutBreakpoints)
    );
    assert_eq!(
        attach_plan(0, None, 0x400, 0x501),
        Ok(AttachPlan {
            warn_no_breakpoints: true,
            set_rtt_blocking: None,
            main_breakpoint: None,
            hard_fault_breakpoint: 0x500,
        })
    );
    assert_eq!(
        attach_plan(6, Some(0x2000_0000), 0x400, 0x501),
        Ok(AttachPlan {
            warn_no_breakpoints: false,
            set_rtt_blocking: Some(0x2000_0000),
            main_breakpoint: Some(0x400),
            hard_fault_breakpoint: 0x500,
        })
    );
}

#[test]
fn attach_is_retried_while_the_control_block_is_missing() {
    let mut attempt = 1;
    loop {
        match attach_step(attempt, AttachAttempt::ControlBlockNotFound) {
            AttachStep::Retry => attempt += 1,
            step => {
                assert_eq!(step, AttachStep::RetriesExhausted);
                break;
            }
        }
    }
    assert_eq!(attempt, NUM_ATTACH_RETRIES);
    assert_eq!(attempt, 10);
    assert_eq!(attach_step(3, AttachAttempt::Failed), AttachStep::Failed);
    assert_eq!(attach_step(3, AttachAttempt::Attached { has_up_channel_0: true }), AttachStep::Ready);
    assert_eq!(
        attach_step(1, AttachAttempt::Attached { has_up_channel_0: false }),
        AttachStep::NoUpChannel
    );
}

#[test]
fn structured_channel_is_named_defmt() {
    assert!(is_structured_channel(Some("defmt")));
    assert!(!is_structured_channel(Some("Terminal")));
    assert!(!is_structured_channel(None));
}

#[test]
fn log_setup_choices() {
    assert_eq!(
        log_setup(true, true, true, true, false),
        Ok(LogSetup { mode: LogMode::Structured, warn_stale: false })
    );
    assert_eq!(
        log_setup(true, false, true, true, false),
        Ok(LogSetup { mode: LogMode::Raw, warn_stale: false })
    );
    assert_eq!(
        log_setup(false, false, false, true, false),
        Ok(LogSetup { mode: LogMode::NoChannel, warn_stale: false })
    );
    assert_eq!(log_setup(true, true, false, true, false), Err(LogSetupError::MissingLogTable));
    assert_eq!(
        log_setup(true, true, true, true, true),
        Ok(LogSetup { mode: LogMode::Structured, warn_stale: true })
    );
    assert_eq!(
        log_setup(true, true, false, false, false),
        Ok(LogSetup { mode: LogMode::Raw, warn_stale: true })
    );
}
