//! Setting a ring up.
use io_uring::Probe;
use vstd::prelude::*;

use super::sys::{
    async_cancel_code, close_code, connect_code, open_at_code, probe_is_supported, read_code,
    recv_msg_code, send_msg_code, shutdown_code, socket_code, supported_opcodes, timeout_code,
    write_code,
};
use crate::error::InitError;

verus! {

/// The operations that a kernel must support, by name and opcode, in the order in which they
/// are looked for.
pub open spec fn required_opcodes() -> Seq<(Seq<char>, u8)> {
    seq![
        ("AsyncCancel"@, 14u8),
        ("Timeout"@, 11u8),
        ("Socket"@, 45u8),
        ("Connect"@, 16u8),
        ("RecvMsg"@, 10u8),
        ("SendMsg"@, 9u8),
        ("Shutdown"@, 34u8),
        ("OpenAt"@, 18u8),
        ("Read"@, 22u8),
        ("Write"@, 23u8),
        ("Close"@, 19u8),
    ]
}

/// The `i`-th required operation is the first that is not supported.
pub open spec fn is_first_missing(supported: Seq<bool>, i: int) -> bool {
    &&& 0 <= i < supported.len()
    &&& !supported[i]
    &&& forall|j: int| 0 <= j < i ==> supported[j]
}

/// For each required operation, whether the probe holds it as supported.
pub open spec fn support(probe: Probe) -> Seq<bool> {
    Seq::new(
        required_opcodes().len(),
        |i: int| supported_opcodes(probe).contains(required_opcodes()[i].1),
    )
}

/// What has been found out on the way to a new ring.
pub enum RingEvent {
    /// A ring was created, or not. If it was, whether it has the feature that no completion
    /// is dropped.
    Created(Result<bool, std::io::Error>),
    /// The ring was asked which operations it supports.
    Probed(Result<Probe, std::io::Error>),
}

/// What to do next on the way to a new ring.
#[derive(Debug, PartialEq, Eq, Structural)]
pub enum RingAction {
    /// Ask the ring which operations it supports.
    Probe,
    /// Use it.
    Done,
}

/// The required operations.
pub fn required() -> (required: Vec<(&'static str, u8)>)
    ensures
        required@.len() == required_opcodes().len(),
        forall|i: int|
            0 <= i < required@.len() ==> {
                &&& (#[trigger] required@[i]).0@ == required_opcodes()[i].0
                &&& required@[i].1 == required_opcodes()[i].1
            },
{
    let mut required: Vec<(&'static str, u8)> = Vec::new();
    required.push(("AsyncCancel", async_cancel_code()));
    required.push(("Timeout", timeout_code()));
    required.push(("Socket", socket_code()));
    required.push(("Connect", connect_code()));
    required.push(("RecvMsg", recv_msg_code()));
    required.push(("SendMsg", send_msg_code()));
    required.push(("Shutdown", shutdown_code()));
    required.push(("OpenAt", open_at_code()));
    required.push(("Read", read_code()));
    required.push(("Write", write_code()));
    required.push(("Close", close_code()));
    required
}

/// The name of the first required operation that is not supported, given for each of them
/// whether it is.
pub fn unsupported_opcode(supported: &Vec<bool>) -> (name: Option<&'static str>)
    requires
        supported@.len() == required_opcodes().len(),
    ensures
        match name {
            Some(n) => exists|i: int|
                #[trigger] is_first_missing(supported@, i) && n@ == required_opcodes()[i].0,
            None => forall|i: int| 0 <= i < supported@.len() ==> #[trigger] supported@[i],
        },
{
    let required = required();
    let mut i: usize = 0;

    while i < supported.len()
        invariant
            i <= supported@.len() == required@.len(),
            required@.len() == required_opcodes().len(),
            forall|j: int|
                0 <= j < required@.len() ==> (#[trigger] required@[j]).0@
                    == required_opcodes()[j].0,
            forall|j: int| 0 <= j < i ==> supported@[j],
        decreases supported.len() - i,
    {
        if !supported[i] {
            assert(is_first_missing(supported@, i as int));
            return Some(required[i].0);
        }
        i = i + 1;
    }

    None
}

/// For each required operation, whether the probe holds it as supported.
pub fn probe_required(probe: &Probe) -> (supported: Vec<bool>)
    ensures
        supported@ == support(*probe),
{
    let required = required();
    let mut supported: Vec<bool> = Vec::new();
    let mut i: usize = 0;

    while i < required.len()
        invariant
            i <= required@.len() == required_opcodes().len(),
            forall|j: int|
                0 <= j < required@.len() ==> (#[trigger] required@[j]).1
                    == required_opcodes()[j].1,
            supported@ == support(*probe).take(i as int),
        decreases required.len() - i,
    {
        supported.push(probe_is_supported(probe, required[i].1));
        assert(supported@ =~= support(*probe).take(i + 1));
        i = i + 1;
    }

    assert(support(*probe).take(i as int) =~= support(*probe));
    supported
}

/// One step of setting a ring up: takes in what has been found out, and says what to do
/// next. The ring must keep all completions and support all required operations.
pub fn new_io_uring(event: RingEvent) -> (action: Result<RingAction, InitError>)
    ensures
        match event {
            RingEvent::Created(Ok(true)) => action == Ok::<_, InitError>(RingAction::Probe),
            RingEvent::Created(Ok(false)) => {
                &&& action matches Err(InitError::IoUringFeatureNotPresent(name))
                &&& name@ == "no_drop"@
            },
            RingEvent::Created(Err(err)) => {
                action == Err::<RingAction, _>(InitError::IoUringCreationFailed(err))
            },
            RingEvent::Probed(Ok(probe)) => {
                match action {
                    Ok(a) => {
                        &&& a == RingAction::Done
                        &&& forall|i: int|
                            0 <= i < required_opcodes().len() ==> supported_opcodes(
                                probe,
                            ).contains((#[trigger] required_opcodes()[i]).1)
                    },
                    Err(InitError::IoUringOpcodeUnsupported(name)) => exists|i: int|
                        #[trigger] is_first_missing(support(probe), i) && name@
                            == required_opcodes()[i].0,
                    Err(_) => false,
                }
            },
            RingEvent::Probed(Err(err)) => {
                action == Err::<RingAction, _>(InitError::IoUringProbeFailed(err))
            },
        },
{
    match event {
        RingEvent::Created(Ok(nodrop)) => {
            if nodrop {
                Ok(RingAction::Probe)
            } else {
                Err(InitError::IoUringFeatureNotPresent("no_drop"))
            }
        },
        RingEvent::Created(Err(err)) => Err(InitError::IoUringCreationFailed(err)),
        RingEvent::Probed(Ok(probe)) => {
            let supported = probe_required(&probe);
            match unsupported_opcode(&supported) {
                Some(name) => Err(InitError::IoUringOpcodeUnsupported(name)),
                None => {
                    assert forall|i: int| 0 <= i < required_opcodes().len() implies
                        supported_opcodes(probe).contains((#[trigger] required_opcodes()[i]).1) by {
                        assert(supported@[i]);
                    }
                    Ok(RingAction::Done)
                },
            }
        },
        RingEvent::Probed(Err(err)) => Err(InitError::IoUringProbeFailed(err)),
    }
}

/// The operation that a failed setup names is one that the kernel does not support, and all those
/// looked for before it are supported.
pub proof fn law_missing_operation_is_not_supported(probe: Probe, i: int)
    ensures
        is_first_missing(support(probe), i) <==> {
            &&& 0 <= i < required_opcodes().len()
            &&& !supported_opcodes(probe).contains(required_opcodes()[i].1)
            &&& forall|j: int|
                0 <= j < i ==> supported_opcodes(probe).contains(
                    (#[trigger] required_opcodes()[j]).1,
                )
        },
{
    let supported = support(probe);
    assert forall|j: int| 0 <= j < required_opcodes().len() implies supported[j]
        == supported_opcodes(probe).contains((#[trigger] required_opcodes()[j]).1) by {}
    if is_first_missing(supported, i) {
        assert forall|j: int| 0 <= j < i implies supported_opcodes(probe).contains(
            (#[trigger] required_opcodes()[j]).1,
        ) by {
            assert(supported[j]);
        }
    } else if 0 <= i < required_opcodes().len() && !supported_opcodes(probe).contains(
        required_opcodes()[i].1,
    ) {
        let j = choose|j: int| 0 <= j < i && !supported[j];
        assert(!supported_opcodes(probe).contains(required_opcodes()[j].1));
    }
}

/// No two required operations have the same opcode.
pub proof fn law_required_opcodes_differ(i: int, j: int)
    requires
        0 <= i < j < required_opcodes().len(),
    ensures
        required_opcodes()[i].1 != required_opcodes()[j].1,
{
}

} // verus!
