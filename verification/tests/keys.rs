use nohash::IntMap;
use takyon::key::{IoKey, TaskId};
use takyon::platform::fut::{FutState, IoUringFut};
use takyon::platform::sqe::{Op, Sqe};
use takyon::runtime::Runtime;
use takyon::JoinHandle;

#[test]
fn keys_are_their_numbers() {
    assert_eq!(IoKey::from(7).inner, 7);
    assert_eq!(TaskId::from(9).inner, 9);
    assert!(IoKey::from(7) == IoKey::from(7));
    assert!(IoKey::from(7) != IoKey::from(8));
    assert!(TaskId::from(1) == TaskId::from(1));
    assert!(TaskId::from(1) != TaskId::from(0));
}

#[test]
fn keys_can_key_int_maps() {
    let mut map: IntMap<IoKey, char> = IntMap::default();
    map.insert(IoKey::from(1), 'a');
    map.insert(IoKey::from(2), 'b');
    map.insert(IoKey::from(1), 'c');
    assert_eq!(map.len(), 2);
    assert_eq!(map.get(&IoKey::from(1)), Some(&'c'));

    let mut map: IntMap<TaskId, char> = IntMap::default();
    map.insert(TaskId::from(0), 'r');
    assert_eq!(map.get(&TaskId::from(0)), Some(&'r'));
    assert_eq!(map.get(&TaskId::from(1)), None);
}

#[test]
fn task_ids_and_io_keys_count_up_from_one() {
    let mut rt: Runtime<u8, u8> = Runtime::new(Ok(())).unwrap();
    for n in 1..=100u32 {
        let handle: JoinHandle<()> = rt.spawn(0);
        assert_eq!(handle.id(), TaskId::from(n));

        let mut fut = IoUringFut::new(Sqe { op: Op::Close { fd: 0 }, user_data: 0 });
        fut.poll(&mut rt);
        assert!(matches!(fut.state(), FutState::Submitted(key) if key == IoKey::from(n)));
    }
}
