use ixy_ci::runner::{program, signal_target, tick, Tick, MISSING_PROGRAM_STATUS, POLL_MILLIS};

#[test]
fn helper_looks_every_hundred_milliseconds() {
    assert_eq!(POLL_MILLIS, 100);
    assert_eq!(MISSING_PROGRAM_STATUS, -1);
}

#[test]
fn helper_waits_while_its_input_is_open() {
    assert_eq!(tick(false, false), Tick::Wait);
}

#[test]
fn helper_interrupts_at_every_tick_once_its_input_ended() {
    assert_eq!(tick(true, false), Tick::Interrupt);
    assert_eq!(tick(true, false), Tick::Interrupt);
}

#[test]
fn helper_ends_with_its_command() {
    assert_eq!(tick(false, true), Tick::Finish);
    assert_eq!(tick(true, true), Tick::Finish);
}

#[test]
fn interrupt_goes_to_the_negative_of_the_process_group() {
    assert_eq!(signal_target(4711), Some(-4711));
    assert_eq!(signal_target(1), Some(-1));
    assert_eq!(signal_target(i32::MAX), Some(-i32::MAX));
}

#[test]
fn unknown_process_group_gets_no_interrupt() {
    assert_eq!(signal_target(-1), None);
    assert_eq!(signal_target(0), None);
    assert_eq!(signal_target(i32::MIN), None);
}

#[test]
fn first_argument_is_the_program() {
    let args = vec!["sudo".to_string(), "./pcap".to_string(), "-n".to_string()];
    let (cmd, rest) = program(args).unwrap();
    assert_eq!(cmd, "sudo");
    assert_eq!(rest, vec!["./pcap".to_string(), "-n".to_string()]);
    let (cmd, rest) = program(vec!["true".to_string()]).unwrap();
    assert_eq!(cmd, "true");
    assert!(rest.is_empty());
}

#[test]
fn helper_without_arguments_misses_its_program() {
    assert_eq!(program(Vec::new()).unwrap_err(), "missing program to start");
}
