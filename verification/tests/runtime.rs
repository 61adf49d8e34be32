use std::io;

use takyon::error::InitError;
use takyon::key::{IoKey, TaskId};
use takyon::platform::fut::{FutPoll, FutState, IoUringFut};
use takyon::platform::sqe::{Cqe, Op, Sqe};
use takyon::platform::Platform;
use takyon::runtime::{Runtime, WokenTask};
use takyon::task::Poll;
use takyon::{init, run, spawn, JoinHandle, LocalRuntime, RunAction, RunEvent};

type Local = LocalRuntime<&'static str, i64>;
type Rt = Runtime<&'static str, i64>;

fn ready() -> Local {
    let mut local: Local = LocalRuntime::new();
    init(&mut local, Ok(())).unwrap();
    local
}

fn new_runtime() -> Rt {
    Runtime::new(Ok(())).unwrap()
}

fn child(woken: Option<WokenTask<&'static str>>) -> &'static str {
    match woken {
        Some(WokenTask::Child(task)) => task,
        Some(WokenTask::Root) => panic!("root"),
        None => panic!("none"),
    }
}

fn is_root(woken: Option<WokenTask<&'static str>>) -> bool {
    matches!(woken, Some(WokenTask::Root))
}

fn polls_root(action: RunAction<&'static str>) -> bool {
    matches!(action, RunAction::PollRoot)
}

fn polled_child(action: RunAction<&'static str>) -> &'static str {
    match action {
        RunAction::PollChild(task) => task,
        _ => panic!("not a child"),
    }
}

#[test]
fn thread_starts_without_a_runtime() {
    let local: Local = LocalRuntime::new();
    assert!(!local.is_initialized());
    assert!(!local.is_running());
}

#[test]
fn init_makes_a_runtime() {
    let local = ready();
    assert!(local.is_initialized());
    assert!(!local.is_running());
}

#[test]
fn failed_init_returns_the_error() {
    let mut local: Local = LocalRuntime::new();
    let err = init(&mut local, Err(InitError::IoUringFeatureNotPresent("no_drop"))).unwrap_err();
    assert!(matches!(err, InitError::IoUringFeatureNotPresent("no_drop")));
    assert!(!local.is_initialized());
}

#[test]
fn failed_init_keeps_the_runtime_of_before() {
    let mut local = ready();
    assert!(polls_root(run(&mut local, RunEvent::Started)));
    let _handle: JoinHandle<()> = spawn(&mut local, "a");
    let err = InitError::IoUringCreationFailed(io::Error::from_raw_os_error(12));
    assert!(init(&mut local, Err(err)).is_err());
    assert!(local.is_running());
    assert_eq!(polled_child(run(&mut local, RunEvent::RootPending)), "a");
}

#[test]
fn new_runtime_and_platform_pass_errors_on() {
    let rt: Result<Rt, InitError> = Runtime::new(Err(InitError::IoUringOpcodeUnsupported("Read")));
    assert!(matches!(rt, Err(InitError::IoUringOpcodeUnsupported("Read"))));
    let plat = Platform::new(Err(InitError::IoUringProbeFailed(io::Error::from_raw_os_error(1))));
    match plat {
        Err(InitError::IoUringProbeFailed(err)) => assert_eq!(err.raw_os_error(), Some(1)),
        _ => panic!("no error"),
    }
}

#[test]
fn root_task_starts_woken_up() {
    let mut rt = new_runtime();
    assert_eq!(rt.current_task(), TaskId::from(0));
    assert!(is_root(rt.get_woken_task()));
    assert!(rt.get_woken_task().is_none());
}

#[test]
fn spawned_tasks_are_polled_last_one_first() {
    let mut rt = new_runtime();
    let a: JoinHandle<()> = rt.spawn("a");
    let b: JoinHandle<()> = rt.spawn("b");
    assert_eq!(a.id(), TaskId::from(1));
    assert_eq!(b.id(), TaskId::from(2));
    assert_eq!(child(rt.get_woken_task()), "b");
    assert_eq!(rt.current_task(), b.id());
    assert_eq!(child(rt.get_woken_task()), "a");
    assert_eq!(rt.current_task(), a.id());
    assert!(is_root(rt.get_woken_task()));
    assert_eq!(rt.current_task(), TaskId::from(0));
    assert!(rt.get_woken_task().is_none());
}

#[test]
fn wakeups_of_tasks_that_are_gone_are_skipped() {
    let mut rt = new_runtime();
    let mut waiter: JoinHandle<()> = rt.spawn("finishes early");
    assert_eq!(child(rt.get_woken_task()), "finishes early");
    rt.return_task("finishes early");

    // Two operations of the task complete, but the task finishes after the first wakeup
    let mut one = IoUringFut::new(Sqe { op: Op::Close { fd: 1 }, user_data: 0 });
    let mut two = IoUringFut::new(Sqe { op: Op::Close { fd: 2 }, user_data: 0 });
    assert!(matches!(one.poll(&mut rt), FutPoll::Submit));
    assert!(matches!(two.poll(&mut rt), FutPoll::Submit));
    rt.wait_for_io(&vec![Cqe { user_data: 1, result: 0 }, Cqe { user_data: 2, result: 0 }]);
    assert_eq!(child(rt.get_woken_task()), "finishes early");
    rt.task_finished(5);
    assert!(is_root(rt.get_woken_task()));
    assert!(rt.get_woken_task().is_none());
    assert_eq!(waiter.poll(&mut rt), Poll::Ready(5));
}

#[test]
fn drained_runtime_remembers_the_last_stale_wakeup() {
    let mut rt = new_runtime();
    assert!(is_root(rt.get_woken_task()));
    let _handle: JoinHandle<()> = rt.spawn("a");
    assert_eq!(child(rt.get_woken_task()), "a");
    let mut fut = IoUringFut::new(Sqe { op: Op::Close { fd: 1 }, user_data: 0 });
    assert!(matches!(fut.poll(&mut rt), FutPoll::Submit));
    rt.task_finished(0);
    rt.wait_for_io(&vec![Cqe { user_data: 1, result: 0 }]);
    assert!(rt.get_woken_task().is_none());
    assert_eq!(rt.current_task(), TaskId::from(1));
}

#[test]
fn returned_task_is_handed_out_again_when_woken() {
    let mut rt = new_runtime();
    let _handle: JoinHandle<()> = rt.spawn("a");
    assert_eq!(child(rt.get_woken_task()), "a");
    let mut fut = IoUringFut::new(Sqe { op: Op::Close { fd: 1 }, user_data: 0 });
    assert!(matches!(fut.poll(&mut rt), FutPoll::Submit));
    rt.return_task("a, later");
    assert!(is_root(rt.get_woken_task()));
    assert!(rt.get_woken_task().is_none());
    rt.wait_for_io(&vec![Cqe { user_data: 1, result: 9 }]);
    assert_eq!(child(rt.get_woken_task()), "a, later");
    assert!(matches!(fut.poll(&mut rt), FutPoll::Ready(9)));
}

#[test]
fn join_handle_gives_the_result_once() {
    let mut rt = new_runtime();
    let mut handle: JoinHandle<()> = rt.spawn("a");
    assert!(rt.has_join_handle(handle.id()));
    assert_eq!(child(rt.get_woken_task()), "a");
    rt.task_finished(42);
    assert!(rt.has_join_handle(handle.id()));
    assert_eq!(handle.poll(&mut rt), Poll::Ready(42));
    assert!(!rt.has_join_handle(handle.id()));
}

#[test]
fn waiting_task_is_woken_when_the_other_finishes() {
    let mut rt = new_runtime();
    let mut b: JoinHandle<()> = rt.spawn("b");
    let _a: JoinHandle<()> = rt.spawn("a");

    // a waits for b
    assert_eq!(child(rt.get_woken_task()), "a");
    assert_eq!(b.poll(&mut rt), Poll::Pending);
    rt.return_task("a");

    assert_eq!(child(rt.get_woken_task()), "b");
    rt.task_finished(7);
    assert_eq!(child(rt.get_woken_task()), "a");
    assert_eq!(b.poll(&mut rt), Poll::Ready(7));
}

#[test]
fn join_handle_registers_only_the_first_time() {
    let mut rt = new_runtime();
    let mut b: JoinHandle<()> = rt.spawn("b");
    let _a: JoinHandle<()> = rt.spawn("a");
    assert_eq!(child(rt.get_woken_task()), "a");
    assert_eq!(b.poll(&mut rt), Poll::Pending);
    rt.return_task("a");
    assert_eq!(child(rt.get_woken_task()), "b");
    rt.return_task("b");

    // The root task looks too, but a has asked first
    assert!(is_root(rt.get_woken_task()));
    assert_eq!(b.poll(&mut rt), Poll::Pending);

    let mut fut = IoUringFut::new(Sqe { op: Op::Close { fd: 1 }, user_data: 0 });
    assert!(matches!(fut.poll(&mut rt), FutPoll::Submit));
    rt.register_join_handle_wakeup(TaskId::from(2));
    rt.wait_for_io(&vec![Cqe { user_data: 1, result: 0 }]);
    assert!(is_root(rt.get_woken_task()));
    assert!(rt.get_woken_task().is_none());
    assert_eq!(b.poll(&mut rt), Poll::Pending);
}

#[test]
fn result_is_lost_without_a_join_handle() {
    let mut rt = new_runtime();
    let mut handle: JoinHandle<()> = rt.spawn("a");
    handle.drop(&mut rt);
    assert!(!rt.has_join_handle(handle.id()));
    // The task goes on
    assert_eq!(child(rt.get_woken_task()), "a");
    rt.task_finished(1);
    assert!(!rt.has_join_handle(handle.id()));
    assert!(is_root(rt.get_woken_task()));
    assert!(rt.get_woken_task().is_none());
}

#[test]
fn pop_and_drop_of_join_handles() {
    let mut rt = new_runtime();
    let handle: JoinHandle<()> = rt.spawn("a");
    assert_eq!(rt.pop_join_handle_result(handle.id()), None);
    assert!(rt.has_join_handle(handle.id()));
    assert_eq!(child(rt.get_woken_task()), "a");
    rt.task_finished(-3);
    assert_eq!(rt.pop_join_handle_result(handle.id()), Some(-3));
    assert!(!rt.has_join_handle(handle.id()));
    rt.drop_join_handle(handle.id());
    assert!(!rt.has_join_handle(handle.id()));
}

#[test]
fn reset_returns_the_tasks_that_are_left() {
    let mut rt = new_runtime();
    let a: JoinHandle<()> = rt.spawn("a");
    let _b: JoinHandle<()> = rt.spawn("b");
    assert_eq!(child(rt.get_woken_task()), "b");
    let tasks = rt.reset();
    assert_eq!(tasks.len(), 1);
    assert_eq!(tasks.get(&1), Some(&"a"));
    assert!(!rt.has_join_handle(a.id()));
    assert_eq!(rt.current_task(), TaskId::from(0));
    assert!(is_root(rt.get_woken_task()));
    assert!(rt.get_woken_task().is_none());
    let c: JoinHandle<()> = rt.spawn("c");
    assert_eq!(c.id(), TaskId::from(1));
}

#[test]
fn run_of_a_root_task_that_joins_a_child() {
    let mut local = ready();

    assert!(polls_root(run(&mut local, RunEvent::Started)));
    assert!(local.is_running());
    let mut handle: JoinHandle<i64> = spawn(&mut local, "child");
    assert_eq!(handle.poll(local.runtime_mut()), Poll::Pending);

    // The child sleeps, then finishes
    assert_eq!(polled_child(run(&mut local, RunEvent::RootPending)), "child");
    let mut sleep = takyon::time::sleep_secs(1);
    assert!(matches!(sleep.poll(local.runtime_mut()), FutPoll::Submit));
    assert!(matches!(run(&mut local, RunEvent::ChildPending("child")), RunAction::WaitForIo));
    let cqes = vec![Cqe { user_data: 1, result: -62 }];
    assert_eq!(polled_child(run(&mut local, RunEvent::IoReady(cqes))), "child");
    assert!(matches!(sleep.poll(local.runtime_mut()), FutPoll::Ready(-62)));

    assert!(polls_root(run(&mut local, RunEvent::ChildReady(11))));
    assert_eq!(handle.poll(local.runtime_mut()), Poll::Ready(11));

    match run(&mut local, RunEvent::RootReady) {
        RunAction::DropTasks(tasks) => assert!(tasks.is_empty()),
        _ => panic!("not finished"),
    }
    assert!(local.is_running());
    assert!(matches!(run(&mut local, RunEvent::TasksDropped), RunAction::Return));
    assert!(!local.is_running());
    assert!(local.is_initialized());
}

#[test]
fn run_gives_up_the_children_when_the_root_task_finishes() {
    let mut local = ready();
    assert!(polls_root(run(&mut local, RunEvent::Started)));
    let _a: JoinHandle<()> = spawn(&mut local, "a");
    let _b: JoinHandle<()> = spawn(&mut local, "b");
    match run(&mut local, RunEvent::RootReady) {
        RunAction::DropTasks(tasks) => {
            assert_eq!(tasks.len(), 2);
            assert_eq!(tasks.get(&1), Some(&"a"));
            assert_eq!(tasks.get(&2), Some(&"b"));
        },
        _ => panic!("not finished"),
    }

    assert!(matches!(run(&mut local, RunEvent::TasksDropped), RunAction::Return));

    // The next run starts anew
    assert!(polls_root(run(&mut local, RunEvent::Started)));
    assert!(matches!(run(&mut local, RunEvent::RootPending), RunAction::WaitForIo));
}

#[test]
fn run_that_is_left_by_a_panic_is_over() {
    let mut local = ready();
    assert!(polls_root(run(&mut local, RunEvent::Started)));
    let _a: JoinHandle<()> = spawn(&mut local, "a");
    let _b: JoinHandle<()> = spawn(&mut local, "b");
    assert_eq!(polled_child(run(&mut local, RunEvent::RootPending)), "b");
    match run(&mut local, RunEvent::Unwound) {
        RunAction::DropTasks(tasks) => {
            assert_eq!(tasks.len(), 1);
            assert_eq!(tasks.get(&1), Some(&"a"));
        },
        _ => panic!("not over"),
    }
    assert!(!local.is_running());
    assert!(local.is_initialized());

    // The next run starts anew
    assert!(polls_root(run(&mut local, RunEvent::Started)));
    assert!(matches!(run(&mut local, RunEvent::RootPending), RunAction::WaitForIo));
}

#[test]
fn io_future_submits_waits_and_is_done() {
    let mut rt = new_runtime();
    let mut fut = IoUringFut::new(Sqe { op: Op::Close { fd: 4 }, user_data: 77 });
    assert!(matches!(fut.state(), FutState::NotSubmitted));
    assert_eq!(fut.sqe().user_data, 77);
    assert!(matches!(fut.poll(&mut rt), FutPoll::Submit));
    assert_eq!(fut.sqe().user_data, 1);
    match fut.state() {
        FutState::Submitted(key) => assert_eq!(key, IoKey::from(1)),
        _ => panic!("not submitted"),
    }
    assert!(matches!(fut.poll(&mut rt), FutPoll::Pending));
    rt.wait_for_io(&vec![Cqe { user_data: 1, result: 33 }]);
    assert!(matches!(fut.poll(&mut rt), FutPoll::Ready(33)));
    assert!(matches!(fut.state(), FutState::Done));
    assert!(fut.drop(&mut rt).is_none());
}

#[test]
fn first_completion_of_an_operation_counts() {
    let mut rt = new_runtime();
    let mut fut = IoUringFut::new(Sqe { op: Op::Close { fd: 4 }, user_data: 0 });
    assert!(matches!(fut.poll(&mut rt), FutPoll::Submit));
    rt.wait_for_io(&vec![
        Cqe { user_data: 8, result: 1 },
        Cqe { user_data: 1, result: 2 },
        Cqe { user_data: 1, result: 3 },
    ]);
    assert!(matches!(fut.poll(&mut rt), FutPoll::Ready(2)));
}

#[test]
fn key_is_the_low_half_of_the_user_data() {
    let mut rt = new_runtime();
    let mut fut = IoUringFut::new(Sqe { op: Op::Close { fd: 4 }, user_data: 0 });
    assert!(matches!(fut.poll(&mut rt), FutPoll::Submit));
    rt.wait_for_io(&vec![Cqe { user_data: 0x5_0000_0001, result: 6 }]);
    assert!(matches!(fut.poll(&mut rt), FutPoll::Ready(6)));
}

#[test]
fn dropped_operation_is_cancelled_and_wakes_nobody() {
    let mut rt = new_runtime();
    assert!(is_root(rt.get_woken_task()));
    let mut fut = IoUringFut::new(Sqe { op: Op::Close { fd: 4 }, user_data: 0 });
    assert!(fut.drop(&mut rt).is_none());
    assert!(matches!(fut.poll(&mut rt), FutPoll::Submit));
    match fut.drop(&mut rt) {
        Some(Sqe { op: Op::AsyncCancel { user_data }, user_data: own }) => {
            assert_eq!(user_data, 1);
            assert_eq!(own, 0);
        },
        _ => panic!("not cancelled"),
    }
    rt.wait_for_io(&vec![Cqe { user_data: 1, result: -125 }, Cqe { user_data: 0, result: 0 }]);
    assert!(rt.get_woken_task().is_none());
}

#[test]
fn operation_that_is_done_is_not_cancelled() {
    let mut rt = new_runtime();
    let mut fut = IoUringFut::new(Sqe { op: Op::Close { fd: 4 }, user_data: 0 });
    assert!(matches!(fut.poll(&mut rt), FutPoll::Submit));
    rt.wait_for_io(&vec![Cqe { user_data: 1, result: 0 }]);
    assert!(fut.drop(&mut rt).is_none());
}

#[test]
fn platform_wakes_tasks_in_the_order_of_completions() {
    let mut rt = new_runtime();
    let mut futs = Vec::new();
    let _a: JoinHandle<()> = rt.spawn("a");
    let _b: JoinHandle<()> = rt.spawn("b");
    for name in ["b", "a"] {
        assert_eq!(child(rt.get_woken_task()), name);
        let mut fut = IoUringFut::new(Sqe { op: Op::Close { fd: 4 }, user_data: 0 });
        assert!(matches!(fut.poll(&mut rt), FutPoll::Submit));
        futs.push(fut);
        rt.return_task(name);
    }
    assert!(is_root(rt.get_woken_task()));
    rt.wait_for_io(&vec![Cqe { user_data: 1, result: 0 }, Cqe { user_data: 2, result: 0 }]);
    assert_eq!(child(rt.get_woken_task()), "a");
    assert_eq!(child(rt.get_woken_task()), "b");
    assert!(rt.get_woken_task().is_none());
}

#[test]
fn reset_platform_forgets_all_io() {
    let mut plat = Platform::new(Ok(())).unwrap();
    plat.reset();
    let mut wakeups = vec![TaskId::from(3)];
    plat.wait_for_io(&vec![Cqe { user_data: 1, result: 0 }], &mut wakeups);
    assert_eq!(wakeups, vec![TaskId::from(3)]);
}

#[test]
fn operations_of_several_tasks_do_not_interfere() {
    let mut rt = new_runtime();
    let _a: JoinHandle<()> = rt.spawn("a");
    assert_eq!(child(rt.get_woken_task()), "a");
    let mut first = IoUringFut::new(Sqe { op: Op::Close { fd: 4 }, user_data: 0 });
    assert!(matches!(first.poll(&mut rt), FutPoll::Submit));
    rt.return_task("a");

    // The root task submits two operations, and gives one of them up
    assert!(is_root(rt.get_woken_task()));
    let mut second = IoUringFut::new(Sqe { op: Op::Close { fd: 5 }, user_data: 0 });
    let mut third = IoUringFut::new(Sqe { op: Op::Close { fd: 6 }, user_data: 0 });
    assert!(matches!(second.poll(&mut rt), FutPoll::Submit));
    assert!(matches!(third.poll(&mut rt), FutPoll::Submit));
    assert!(second.drop(&mut rt).is_some());

    rt.wait_for_io(&vec![Cqe { user_data: 2, result: 20 }, Cqe { user_data: 1, result: 10 }]);
    assert_eq!(child(rt.get_woken_task()), "a");
    assert!(matches!(third.poll(&mut rt), FutPoll::Pending));
    rt.wait_for_io(&vec![Cqe { user_data: 3, result: 30 }]);
    assert!(is_root(rt.get_woken_task()));
    assert!(matches!(third.poll(&mut rt), FutPoll::Ready(30)));
    assert!(matches!(first.poll(&mut rt), FutPoll::Ready(10)));
}

#[test]
fn wakeup_is_kept_while_other_tasks_are_polled() {
    let mut rt = new_runtime();
    let _a: JoinHandle<()> = rt.spawn("a");
    let _b: JoinHandle<()> = rt.spawn("b");
    assert_eq!(child(rt.get_woken_task()), "b");
    let mut c: JoinHandle<()> = rt.spawn("c");
    c.drop(&mut rt);
    rt.return_task("b");
    assert_eq!(child(rt.get_woken_task()), "c");
    rt.task_finished(1);
    assert_eq!(child(rt.get_woken_task()), "a");
    rt.return_task("a");
    assert!(is_root(rt.get_woken_task()));
    assert!(rt.get_woken_task().is_none());
}

#[test]
fn awaited_result_arrives_whatever_other_tasks_do() {
    let mut rt = new_runtime();
    assert!(is_root(rt.get_woken_task()));
    let mut a: JoinHandle<()> = rt.spawn("a");
    let mut b: JoinHandle<()> = rt.spawn("b");
    assert!(matches!(a.poll(&mut rt), Poll::Pending));
    assert_eq!(child(rt.get_woken_task()), "b");
    rt.task_finished(2);
    assert!(matches!(b.poll(&mut rt), Poll::Ready(2)));
    assert_eq!(child(rt.get_woken_task()), "a");
    let c: JoinHandle<()> = rt.spawn("c");
    assert_eq!(c.id(), TaskId::from(3));
    rt.task_finished(1);
    assert!(is_root(rt.get_woken_task()));
    assert!(matches!(a.poll(&mut rt), Poll::Ready(1)));
    assert!(!rt.has_join_handle(TaskId::from(1)));
    assert!(rt.has_join_handle(TaskId::from(3)));
}
