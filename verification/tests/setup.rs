use std::io;

use io_uring::{opcode, Probe};
use takyon::error::InitError;
use takyon::platform::ring::{
    new_io_uring, probe_required, required, unsupported_opcode, RingAction, RingEvent,
};

const NAMES: [&str; 11] = [
    "AsyncCancel", "Timeout", "Socket", "Connect", "RecvMsg", "SendMsg", "Shutdown", "OpenAt",
    "Read", "Write", "Close",
];

#[test]
fn required_operations_have_the_opcodes_of_io_uring() {
    let codes = [
        opcode::AsyncCancel::CODE,
        opcode::Timeout::CODE,
        opcode::Socket::CODE,
        opcode::Connect::CODE,
        opcode::RecvMsg::CODE,
        opcode::SendMsg::CODE,
        opcode::Shutdown::CODE,
        opcode::OpenAt::CODE,
        opcode::Read::CODE,
        opcode::Write::CODE,
        opcode::Close::CODE,
    ];
    let required = required();
    assert_eq!(required.len(), NAMES.len());
    for i in 0..NAMES.len() {
        assert_eq!(required[i], (NAMES[i], codes[i]));
    }
    assert_eq!(codes, [14, 11, 45, 16, 10, 9, 34, 18, 22, 23, 19]);
}

#[test]
fn ring_that_keeps_completions_is_probed() {
    assert!(matches!(new_io_uring(RingEvent::Created(Ok(true))), Ok(RingAction::Probe)));
}

#[test]
fn ring_that_drops_completions_is_refused() {
    assert!(matches!(
        new_io_uring(RingEvent::Created(Ok(false))),
        Err(InitError::IoUringFeatureNotPresent("no_drop"))
    ));
}

#[test]
fn errors_of_the_kernel_are_passed_on() {
    match new_io_uring(RingEvent::Created(Err(io::Error::from_raw_os_error(38)))) {
        Err(InitError::IoUringCreationFailed(err)) => assert_eq!(err.raw_os_error(), Some(38)),
        _ => panic!("no error"),
    }
    match new_io_uring(RingEvent::Probed(Err(io::Error::from_raw_os_error(22)))) {
        Err(InitError::IoUringProbeFailed(err)) => assert_eq!(err.raw_os_error(), Some(22)),
        _ => panic!("no error"),
    }
}

#[test]
fn empty_probe_supports_nothing() {
    assert_eq!(probe_required(&Probe::new()), vec![false; 11]);
    assert!(matches!(
        new_io_uring(RingEvent::Probed(Ok(Probe::new()))),
        Err(InitError::IoUringOpcodeUnsupported("AsyncCancel"))
    ));
}

#[test]
fn first_unsupported_operation_is_named() {
    for i in 0..NAMES.len() {
        let mut supported = vec![true; NAMES.len()];
        supported[i] = false;
        assert_eq!(unsupported_opcode(&supported), Some(NAMES[i]));
        for later in i..NAMES.len() {
            supported[later] = false;
        }
        assert_eq!(unsupported_opcode(&supported), Some(NAMES[i]));
    }
    assert_eq!(unsupported_opcode(&vec![true; NAMES.len()]), None);
}

#[test]
fn texts_of_errors() {
    assert_eq!(
        InitError::IoUringFeatureNotPresent("no_drop").fmt(),
        "io_uring feature `no_drop` is required but not supported on current kernel"
    );
    assert_eq!(
        InitError::IoUringOpcodeUnsupported("Socket").fmt(),
        "io_uring opcode  `Socket` is required but not supported on current kernel"
    );
    let text = io::Error::from_raw_os_error(12).to_string();
    let err = InitError::IoUringCreationFailed(io::Error::from_raw_os_error(12));
    assert_eq!(err.fmt(), format!("Failed to create io_uring ({})", text));
    assert_eq!(err.text_with_cause("why"), "Failed to create io_uring (why)");
    let err = InitError::IoUringProbeFailed(io::Error::from_raw_os_error(12));
    assert_eq!(err.fmt(), format!("Failed to probe supported io_uring opcodes ({})", text));
    assert_eq!(err.text_with_cause(""), "Failed to probe supported io_uring opcodes ()");
}
