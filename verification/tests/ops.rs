use std::mem::size_of;

use takyon::error::{OsError, RequestError};
use takyon::fs::{File, OpenOptions};
use takyon::net::{
    ConnectStep, Shutdown, SocketAddr, SocketAddrV4, SocketAddrV6, TcpConnect, TcpListener,
    TcpStream, UdpSocket,
};
use takyon::platform::addr::{
    decode_addr, encode_addr, is_known, known_family, libc_addr_to_std, std_addr_to_libc,
    MAX_LIBC_SOCKADDR_SIZE,
};
use takyon::platform::fut::{FutState, IoUringFut};
use takyon::platform::ops::{
    accept_result, bytes_result, file_close, file_open, file_read, file_write, libc_result_to_std,
    recv_from_result, sleep, socket_accept, socket_close, socket_connect, socket_create,
    socket_recv, socket_recv_from, socket_send, socket_send_to, socket_shutdown, unit_result,
};
use takyon::platform::sqe::{Op, Sqe};
use takyon::platform::{submit_sqe, SubmitAction, SubmitEvent};
use takyon::time::{sleep_micros, sleep_millis, sleep_secs};

fn v4(ip: [u8; 4], port: u16) -> SocketAddr {
    SocketAddr::V4(SocketAddrV4 { ip, port })
}

fn v6() -> SocketAddr {
    let mut ip = [0u8; 16];
    ip[0] = 0xfe;
    ip[1] = 0x80;
    ip[15] = 1;
    SocketAddr::V6(SocketAddrV6 { ip, port: 0x1f90, flowinfo: 0x0102_0304, scope_id: 0x0506_0708 })
}

fn timeout(fut: &IoUringFut) -> (u64, u32) {
    assert!(matches!(fut.state(), FutState::NotSubmitted));
    match fut.sqe().op {
        Op::Timeout { sec, nsec } => (sec, nsec),
        _ => panic!("not a timeout"),
    }
}

#[test]
fn sleeping() {
    assert_eq!(timeout(&sleep(3, 999_999_999)), (3, 999_999_999));
    assert_eq!(timeout(&takyon::time::sleep(4, 5)), (4, 5));
    assert_eq!(timeout(&sleep_secs(u64::MAX)), (u64::MAX, 0));
    assert_eq!(timeout(&sleep_millis(1_234)), (1, 234_000_000));
    assert_eq!(timeout(&sleep_millis(999)), (0, 999_000_000));
    assert_eq!(timeout(&sleep_micros(1_000_001)), (1, 1_000));
    assert_eq!(timeout(&sleep_micros(u64::MAX)), (18_446_744_073_709, 551_615_000));
    assert_eq!(timeout(&sleep_millis(u64::MAX)), (18_446_744_073_709_551, 615_000_000));
}

#[test]
fn sleeping_agrees_with_durations() {
    for n in [0u64, 1, 999, 1_000, 1_001, 123_456_789, u64::MAX] {
        let d = std::time::Duration::from_millis(n);
        assert_eq!(timeout(&sleep_millis(n)), (d.as_secs(), d.subsec_nanos()));
        let d = std::time::Duration::from_micros(n);
        assert_eq!(timeout(&sleep_micros(n)), (d.as_secs(), d.subsec_nanos()));
    }
}

#[test]
fn open_flags_are_those_of_libc() {
    let new = || OpenOptions::new();
    assert_eq!(new().open_flags(), 0);
    assert_eq!(new().read(true).open_flags(), libc::O_RDONLY);
    assert_eq!(new().write(true).open_flags(), libc::O_WRONLY);
    assert_eq!(new().read(true).write(true).open_flags(), libc::O_RDWR);
    assert_eq!(new().append(true).open_flags(), libc::O_WRONLY | libc::O_APPEND);
    assert_eq!(new().append(false).open_flags(), libc::O_WRONLY);
    assert_eq!(new().truncate(true).open_flags(), libc::O_TRUNC);
    assert_eq!(new().create(true).open_flags(), libc::O_CREAT);
    assert_eq!(new().create_new(true).open_flags(), libc::O_CREAT | libc::O_EXCL);
    assert_eq!(
        new().read(true).append(true).truncate(true).create(true).create_new(true).open_flags(),
        libc::O_RDWR | libc::O_APPEND | libc::O_TRUNC | libc::O_CREAT | libc::O_EXCL
    );
    assert_eq!(new().create(true).create(false).open_flags(), 0);
}

#[test]
fn opening_a_file() {
    let opts = OpenOptions::new().read(true).write(true).create(true);
    for fut in [file_open(b"/tmp/x", &opts), File::open(b"/tmp/x", &opts)] {
        match &fut.sqe().op {
            Op::OpenAt { dirfd, path, flags, mode } => {
                assert_eq!(*dirfd, libc::AT_FDCWD);
                assert_eq!(path.as_slice(), b"/tmp/x\0");
                assert_eq!(*flags, libc::O_RDWR | libc::O_CREAT);
                assert_eq!(*mode, 0o666);
            },
            _ => panic!("not an open"),
        }
    }
    assert_eq!(File::new(5).raw_fd(), 5);
}

#[test]
fn reading_writing_and_closing_files() {
    assert!(matches!(file_read(3, 100).sqe().op, Op::Read { fd: 3, len: 100 }));
    assert!(matches!(file_write(3, 101).sqe().op, Op::Write { fd: 3, len: 101 }));
    assert!(matches!(file_read(3, 0x1_0000_0002).sqe().op, Op::Read { fd: 3, len: 2 }));
    let sqe = file_close(3);
    assert!(matches!(sqe.op, Op::Close { fd: 3 }));
    assert_eq!(sqe.user_data, 0);
}

#[test]
fn creating_sockets() {
    for (ipv6, udp, want) in [
        (false, false, (libc::AF_INET, libc::SOCK_STREAM, libc::IPPROTO_TCP)),
        (true, false, (libc::AF_INET6, libc::SOCK_STREAM, libc::IPPROTO_TCP)),
        (false, true, (libc::AF_INET, libc::SOCK_DGRAM, libc::IPPROTO_UDP)),
        (true, true, (libc::AF_INET6, libc::SOCK_DGRAM, libc::IPPROTO_UDP)),
    ] {
        match socket_create(ipv6, udp).sqe().op {
            Op::Socket { domain, socket_type, protocol } => {
                assert_eq!((domain, socket_type, protocol), want);
            },
            _ => panic!("not a socket"),
        }
    }
}

#[test]
fn shutting_down() {
    for (how, want) in [
        (Shutdown::Read, libc::SHUT_RD),
        (Shutdown::Write, libc::SHUT_WR),
        (Shutdown::Both, libc::SHUT_RDWR),
    ] {
        for fut in [socket_shutdown(8, how), TcpStream::new(8).shutdown(how)] {
            match fut.sqe().op {
                Op::Shutdown { fd, how } => assert_eq!((fd, how), (8, want)),
                _ => panic!("not a shutdown"),
            }
        }
    }
}

#[test]
fn receiving() {
    let sock = UdpSocket::new(6, true);
    for (fut, want) in [
        (socket_recv(6, 10, false), 0),
        (TcpStream::new(6).read(10), 0),
        (sock.recv(10).unwrap(), 0),
        (socket_recv(6, 10, true), libc::MSG_PEEK),
        (sock.peek(10).unwrap(), libc::MSG_PEEK),
    ] {
        match fut.sqe().op {
            Op::Recv { fd, len, flags } => assert_eq!((fd, len, flags), (6, 10, want)),
            _ => panic!("not a receive"),
        }
    }
    for (fut, want) in [
        (socket_recv_from(6, 10, false), 0),
        (sock.recv_from(10), 0),
        (socket_recv_from(6, 10, true), libc::MSG_PEEK),
        (sock.peek_from(10), libc::MSG_PEEK),
    ] {
        match fut.sqe().op {
            Op::RecvMsg { fd, name_len, iov_len, flags } => {
                assert_eq!((fd, name_len, iov_len, flags), (6, 28, 10, want));
            },
            _ => panic!("not a receive"),
        }
    }
}

#[test]
fn sending() {
    for fut in [socket_send(6, 11), TcpStream::new(6).write(11), UdpSocket::new(6, true).send(11)] {
        assert!(matches!(fut.sqe().op, Op::Send { fd: 6, len: 11 }));
    }
    let addrs = vec![v4([10, 0, 0, 1], 53), v6()];
    for fut in [socket_send_to(6, 11, &addrs[0]), UdpSocket::new(6, true).send_to(11, &addrs).unwrap()] {
        match fut.sqe().op {
            Op::SendMsg { fd, name, name_len, iov_len, flags } => {
                assert_eq!((fd, name_len, iov_len, flags), (6, 28, 11, 0));
                assert_eq!(libc_addr_to_std(&name), addrs[0]);
            },
            _ => panic!("not a send"),
        }
    }
}

#[test]
fn connecting_and_accepting_and_closing() {
    match socket_connect(7, &v6()).sqe().op {
        Op::Connect { fd, addr, addr_len } => {
            assert_eq!((fd, addr_len), (7, 28));
            assert_eq!(libc_addr_to_std(&addr), v6());
        },
        _ => panic!("not a connect"),
    }
    for fut in [socket_accept(7), TcpListener::new(7).accept()] {
        assert!(matches!(fut.sqe().op, Op::Accept { fd: 7, addr_len: 28 }));
    }
    for sqe in [
        socket_close(7),
        TcpStream::new(7).drop(),
        TcpListener::new(7).drop(),
        UdpSocket::new(7, false).drop(),
    ] {
        assert!(matches!(sqe.op, Op::Close { fd: 7 }));
        assert_eq!(sqe.user_data, 0);
    }
}

#[test]
fn results_of_operations() {
    assert_eq!(libc_result_to_std(0), Ok(0));
    assert_eq!(libc_result_to_std(i32::MAX), Ok(i32::MAX));
    assert_eq!(libc_result_to_std(-2), Err(OsError { code: 2 }));
    assert_eq!(libc_result_to_std(i32::MIN + 1), Err(OsError { code: i32::MAX }));
    assert_eq!(bytes_result(17), Ok(17));
    assert_eq!(bytes_result(-9), Err(OsError { code: 9 }));
    assert_eq!(unit_result(5), Ok(()));
    assert_eq!(unit_result(-111), Err(OsError { code: 111 }));
}

#[test]
fn results_with_addresses() {
    let buf = std_addr_to_libc(&v4([127, 0, 0, 1], 5000));
    assert_eq!(recv_from_result(3, &buf), Ok((3, v4([127, 0, 0, 1], 5000))));
    assert_eq!(recv_from_result(-11, &buf), Err(OsError { code: 11 }));
    assert_eq!(accept_result(12, &buf), Ok((12, v4([127, 0, 0, 1], 5000))));
    assert_eq!(accept_result(-24, &buf), Err(OsError { code: 24 }));
    assert_eq!(
        accept_result(-24, &[0; MAX_LIBC_SOCKADDR_SIZE]),
        Err(OsError { code: 24 })
    );
}

#[test]
fn sockaddr_buffer_has_the_size_of_the_largest_address() {
    assert_eq!(MAX_LIBC_SOCKADDR_SIZE, size_of::<libc::sockaddr_in6>());
    assert_eq!(size_of::<libc::sockaddr_in>(), 16);
}

#[test]
fn ipv4_address_in_memory() {
    let addr = v4([192, 168, 1, 2], 0x1234);
    let mut want = [0u8; 28];
    want[0] = 2;
    want[2] = 0x12;
    want[3] = 0x34;
    want[4] = 192;
    want[5] = 168;
    want[6] = 1;
    want[7] = 2;
    assert_eq!(encode_addr(&addr, true), want);
    want.swap(0, 1);
    assert_eq!(encode_addr(&addr, false), want);
}

#[test]
fn ipv6_address_in_memory() {
    let mut want = [0u8; 28];
    want[1] = 10;
    want[2] = 0x1f;
    want[3] = 0x90;
    want[4..8].copy_from_slice(&[1, 2, 3, 4]);
    want[8] = 0xfe;
    want[9] = 0x80;
    want[23] = 1;
    want[24..28].copy_from_slice(&[5, 6, 7, 8]);
    assert_eq!(encode_addr(&v6(), false), want);
    want.swap(0, 1);
    assert_eq!(encode_addr(&v6(), true), want);
}

#[test]
fn addresses_are_read_back() {
    for addr in [v4([1, 2, 3, 4], 65535), v4([0, 0, 0, 0], 0), v6()] {
        for little in [true, false] {
            let buf = encode_addr(&addr, little);
            assert!(known_family(&buf, little));
            assert_eq!(decode_addr(&buf, little), addr);
        }
        assert_eq!(libc_addr_to_std(&std_addr_to_libc(&addr)), addr);
    }
}

#[test]
fn family_is_in_the_byte_order_of_this_machine() {
    let buf = std_addr_to_libc(&v6());
    assert_eq!([buf[0], buf[1]], (libc::AF_INET6 as u16).to_ne_bytes());
    let buf = std_addr_to_libc(&v4([1, 1, 1, 1], 1));
    assert_eq!([buf[0], buf[1]], (libc::AF_INET as u16).to_ne_bytes());
}

#[test]
fn unknown_families_are_not_read() {
    let mut buf = [7u8; 28];
    assert!(!known_family(&buf, true));
    assert!(!known_family(&buf, false));
    assert!(!is_known(&buf));
    assert!(is_known(&std_addr_to_libc(&v6())));
    buf[0] = 2;
    buf[1] = 0;
    assert!(known_family(&buf, true));
    assert!(!known_family(&buf, false));
}

fn connected_by(fut: IoUringFut) -> (i32, SocketAddr) {
    match fut.sqe().op {
        Op::Connect { fd, addr, addr_len: 28 } => (fd, libc_addr_to_std(&addr)),
        _ => panic!("not a connect"),
    }
}

fn closed_by(sqe: &Sqe) -> i32 {
    assert_eq!(sqe.user_data, 0);
    match sqe.op {
        Op::Close { fd } => fd,
        _ => panic!("not a close"),
    }
}

fn closed_after(connect: &TcpConnect, step: ConnectStep) -> Vec<i32> {
    connect.closes(&step).iter().map(closed_by).collect()
}

const REFUSED: OsError = OsError { code: 111 };
const NO_FAMILY: OsError = OsError { code: 97 };

#[test]
fn tcp_connects_to_the_first_address_that_answers() {
    let addrs = vec![v4([1, 1, 1, 1], 1), v6(), v4([2, 2, 2, 2], 2)];
    let mut connect = TcpStream::connect(addrs).unwrap().created(Ok(40), Ok(60));
    assert_eq!(connect.addr(), v4([1, 1, 1, 1], 1));
    assert_eq!(connect.streams(), (Ok(40), Ok(60)));
    assert_eq!(connected_by(connect.attempt().unwrap()), (40, v4([1, 1, 1, 1], 1)));
    assert_eq!(connect.step(Err(REFUSED)), ConnectStep::Retry);
    assert_eq!(connect.addr(), v6());
    assert_eq!(connected_by(connect.attempt().unwrap()), (60, v6()));
    assert_eq!(connect.step(Ok(())), ConnectStep::Connected);
    assert_eq!(connect.streams(), (Ok(60), Ok(40)));
    assert_eq!(closed_after(&connect, ConnectStep::Retry), vec![]);
    assert_eq!(closed_after(&connect, ConnectStep::Connected), vec![40]);
}

#[test]
fn tcp_creates_a_socket_of_each_family() {
    let sockets = TcpStream::connect(vec![v6()]).unwrap();
    let (fut_v4, fut_v6) = sockets.requests();
    for (fut, want) in [(fut_v4, libc::AF_INET), (fut_v6, libc::AF_INET6)] {
        match fut.sqe().op {
            Op::Socket { domain, socket_type, protocol } => assert_eq!(
                (domain, socket_type, protocol),
                (want, libc::SOCK_STREAM, libc::IPPROTO_TCP)
            ),
            _ => panic!("not a socket"),
        }
    }
}

#[test]
fn tcp_connects_without_a_family_that_is_missing() {
    let addrs = vec![v4([1, 1, 1, 1], 1)];
    let mut connect = TcpStream::connect(addrs).unwrap().created(Ok(40), Err(NO_FAMILY));
    assert_eq!(connected_by(connect.attempt().unwrap()), (40, v4([1, 1, 1, 1], 1)));
    assert_eq!(connect.step(Ok(())), ConnectStep::Connected);
    assert_eq!(closed_after(&connect, ConnectStep::Connected), vec![]);

    // An address of the family that is missing is passed over
    let addrs = vec![v6(), v4([1, 1, 1, 1], 1)];
    let mut connect = TcpStream::connect(addrs).unwrap().created(Ok(40), Err(NO_FAMILY));
    assert_eq!(connect.attempt().unwrap_err(), NO_FAMILY);
    assert_eq!(connect.step(Err(NO_FAMILY)), ConnectStep::Retry);
    assert_eq!(connected_by(connect.attempt().unwrap()), (40, v4([1, 1, 1, 1], 1)));
}

#[test]
fn tcp_leaves_no_socket_open_when_it_fails() {
    let mut connect = TcpStream::connect(vec![v6()]).unwrap().created(Ok(40), Ok(60));
    assert_eq!(connect.step(Err(REFUSED)), ConnectStep::Failed(REFUSED));
    assert_eq!(closed_after(&connect, ConnectStep::Failed(REFUSED)), vec![40, 60]);
    let connect = TcpStream::connect(vec![v6()]).unwrap().created(Err(NO_FAMILY), Ok(60));
    assert_eq!(closed_after(&connect, ConnectStep::Failed(REFUSED)), vec![60]);
}

#[test]
fn no_addresses_are_invalid_input() {
    let sock = UdpSocket::new(3, true);
    assert_eq!(TcpStream::connect(vec![]).unwrap_err(), RequestError::InvalidInput);
    assert_eq!(sock.connect(vec![]).unwrap_err(), RequestError::InvalidInput);
    assert_eq!(sock.send_to(1, &vec![]).unwrap_err(), RequestError::InvalidInput);
}

#[test]
fn connecting_fails_with_the_last_error() {
    let mut sock = UdpSocket::new(3, false);
    let mut connect = sock.connect(vec![v4([1, 1, 1, 1], 1), v4([2, 2, 2, 2], 2)]).unwrap();
    assert_eq!(connected_by(sock.attempt(&connect)), (3, v4([1, 1, 1, 1], 1)));
    assert_eq!(sock.step(&mut connect, Err(OsError { code: 1 })), ConnectStep::Retry);
    assert_eq!(connected_by(sock.attempt(&connect)), (3, v4([2, 2, 2, 2], 2)));
    assert_eq!(
        sock.step(&mut connect, Err(OsError { code: 2 })),
        ConnectStep::Failed(OsError { code: 2 })
    );
    assert_eq!(sock.recv(10).unwrap_err(), RequestError::NotConnected);
}

#[test]
fn udp_receives_from_its_peer_only_once_connected() {
    let mut sock = UdpSocket::new(3, false);
    assert_eq!(sock.recv(10).unwrap_err(), RequestError::NotConnected);
    assert_eq!(sock.peek(10).unwrap_err(), RequestError::NotConnected);
    assert!(matches!(sock.recv_from(10).sqe().op, Op::RecvMsg { fd: 3, .. }));
    let mut connect = sock.connect(vec![v6()]).unwrap();
    assert_eq!(sock.step(&mut connect, Ok(())), ConnectStep::Connected);
    assert!(matches!(sock.recv(10).unwrap().sqe().op, Op::Recv { fd: 3, .. }));
    assert!(matches!(sock.peek(10).unwrap().sqe().op, Op::Recv { fd: 3, .. }));
}

#[test]
fn submitting_an_entry() {
    assert_eq!(submit_sqe(SubmitEvent::Started), SubmitAction::Push);
    assert_eq!(submit_sqe(SubmitEvent::Full), SubmitAction::Submit);
    assert_eq!(submit_sqe(SubmitEvent::Submitted), SubmitAction::Push);
    assert_eq!(submit_sqe(SubmitEvent::Pushed), SubmitAction::Return);
}
