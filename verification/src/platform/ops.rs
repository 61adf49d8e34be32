//! The operations that tasks wait for: what each of them submits, and what its result means.
use vstd::prelude::*;

use super::addr::{
    encoded, is_readable, is_reading, is_sockaddr, libc_addr_to_std, little_endian,
    std_addr_to_libc, MAX_LIBC_SOCKADDR_SIZE,
};
use super::fut::{FutState, IoUringFut};
use super::sqe::{Op, Sqe};
use super::sys::{
    af_inet, af_inet6, at_fdcwd, ipproto_tcp, ipproto_udp, msg_peek, shut_rd, shut_rdwr, shut_wr,
    sock_dgram, sock_stream,
};
use crate::error::OsError;
use crate::fs::{OpenOptions, OpenOptionsView};
use crate::net::{Shutdown, SocketAddr, SocketAddrView};

verus! {

/// The future is that of this operation, and has not been polled.
pub open spec fn is_future_of(fut: IoUringFut, op: Op) -> bool {
    &&& fut.entry() == Sqe { op, user_data: 0 }
    &&& fut.progress() == FutState::NotSubmitted
}

/// A length as an entry of the submission queue has it: its low 32 bits.
pub open spec fn low32(len: usize) -> u32 {
    (len as int % 0x1_0000_0000) as u32
}

/// Whether the bytes can be a path: the kernel takes a NUL for its end.
pub open spec fn is_path(bytes: Seq<u8>) -> bool {
    !bytes.contains(0)
}

/// Whether a number can be the result of an operation: a value, or an error's number, negated.
pub open spec fn is_result(res: i32) -> bool {
    res != i32::MIN
}

fn future_of(op: Op) -> (fut: IoUringFut)
    ensures
        is_future_of(fut, op),
{
    IoUringFut::new(Sqe { op, user_data: 0 })
}

fn truncate_len(len: usize) -> (n: u32)
    ensures
        n == low32(len),
{
    (len as u64 % 0x1_0000_0000) as u32
}

/// Waits for the given time.
pub fn sleep(sec: u64, nsec: u32) -> (fut: IoUringFut)
    ensures
        is_future_of(fut, Op::Timeout { sec, nsec }),
{
    future_of(Op::Timeout { sec, nsec })
}

/// The future opens a file: relative to the working directory (`AT_FDCWD`), and with the given
/// options. If it creates the file, everybody may read and write it, as far as the
/// process's umask lets them.
pub open spec fn opens(fut: IoUringFut, path: Seq<u8>, opts: OpenOptionsView) -> bool {
    &&& fut.progress() == FutState::NotSubmitted
    &&& fut.entry().user_data == 0
    &&& fut.entry().op matches Op::OpenAt { dirfd, path: c_path, flags, mode }
    &&& dirfd == -100
    &&& c_path@ == path.push(0)
    &&& flags == opts.flags()
    &&& mode == 0o666
}

/// Opens a file. The result is its file descriptor.
pub fn file_open(path: &[u8], opts: &OpenOptions) -> (fut: IoUringFut)
    requires
        is_path(path@),
    ensures
        opens(fut, path@, opts@),
{
    let mut c_path: Vec<u8> = Vec::new();
    let mut i: usize = 0;
    while i < path.len()
        invariant
            i <= path@.len(),
            c_path@ == path@.take(i as int),
        decreases path@.len() - i,
    {
        c_path.push(path[i]);
        assert(c_path@ =~= path@.take(i + 1));
        i = i + 1;
    }
    assert(path@.take(i as int) =~= path@);
    c_path.push(0);

    future_of(
        Op::OpenAt { dirfd: at_fdcwd(), path: c_path, flags: opts.open_flags(), mode: 0o666 },
    )
}

/// Reads from the start of a file into a buffer of `len` bytes. The result is how many were
/// read.
pub fn file_read(fd: i32, len: usize) -> (fut: IoUringFut)
    ensures
        is_future_of(fut, Op::Read { fd, len: low32(len) }),
{
    future_of(Op::Read { fd, len: truncate_len(len) })
}

/// Writes a buffer of `len` bytes to the start of a file. The result is how many were
/// written.
pub fn file_write(fd: i32, len: usize) -> (fut: IoUringFut)
    ensures
        is_future_of(fut, Op::Write { fd, len: low32(len) }),
{
    future_of(Op::Write { fd, len: truncate_len(len) })
}

/// The entry that closes a file. Nobody waits for it.
pub fn file_close(fd: i32) -> (sqe: Sqe)
    ensures
        sqe == (Sqe { op: Op::Close { fd }, user_data: 0 }),
{
    Sqe { op: Op::Close { fd }, user_data: 0 }
}

/// Creates a socket: in the domain `AF_INET6` or `AF_INET`, of the type `SOCK_DGRAM` with the
/// protocol `IPPROTO_UDP` or of the type `SOCK_STREAM` with `IPPROTO_TCP`. The result is its
/// file descriptor.
pub fn socket_create(ipv6: bool, udp: bool) -> (fut: IoUringFut)
    ensures
        is_future_of(
            fut,
            Op::Socket {
                domain: if ipv6 {
                    10
                } else {
                    2
                },
                socket_type: if udp {
                    2
                } else {
                    1
                },
                protocol: if udp {
                    17
                } else {
                    6
                },
            },
        ),
{
    let domain: i32 = if ipv6 {
        af_inet6()
    } else {
        af_inet()
    };
    let socket_type: i32 = if udp {
        sock_dgram()
    } else {
        sock_stream()
    };
    let protocol: i32 = if udp {
        ipproto_udp()
    } else {
        ipproto_tcp()
    };

    future_of(Op::Socket { domain, socket_type, protocol })
}

/// The entry that closes a socket. Nobody waits for it.
pub fn socket_close(fd: i32) -> (sqe: Sqe)
    ensures
        sqe == (Sqe { op: Op::Close { fd }, user_data: 0 }),
{
    Sqe { op: Op::Close { fd }, user_data: 0 }
}

/// The future connects this socket to this address.
pub open spec fn connects(fut: IoUringFut, fd: i32, addr: SocketAddrView) -> bool {
    &&& fut.progress() == FutState::NotSubmitted
    &&& fut.entry().user_data == 0
    &&& fut.entry().op matches Op::Connect { fd: f, addr: bytes, addr_len }
    &&& f == fd
    &&& is_sockaddr(bytes@, addr)
    &&& addr_len == MAX_LIBC_SOCKADDR_SIZE
}

/// Connects a socket to an address.
pub fn socket_connect(fd: i32, addr: &SocketAddr) -> (fut: IoUringFut)
    ensures
        connects(fut, fd, addr@),
{
    future_of(
        Op::Connect { fd, addr: std_addr_to_libc(addr), addr_len: MAX_LIBC_SOCKADDR_SIZE as u32 },
    )
}

/// Shuts down the reading half of a connection, the writing half, or both: `SHUT_RD`,
/// `SHUT_WR` or `SHUT_RDWR`.
pub fn socket_shutdown(fd: i32, how: Shutdown) -> (fut: IoUringFut)
    ensures
        is_future_of(
            fut,
            Op::Shutdown {
                fd,
                how: match how {
                    Shutdown::Read => 0,
                    Shutdown::Write => 1,
                    Shutdown::Both => 2,
                },
            },
        ),
{
    let how: i32 = match how {
        Shutdown::Read => shut_rd(),
        Shutdown::Write => shut_wr(),
        Shutdown::Both => shut_rdwr(),
    };

    future_of(Op::Shutdown { fd, how })
}

/// The flags of a receive: `MSG_PEEK` or none.
pub open spec fn recv_flags(peek: bool) -> i32 {
    if peek {
        2
    } else {
        0
    }
}

fn flags_of_recv(peek: bool) -> (flags: i32)
    ensures
        flags == recv_flags(peek),
{
    if peek {
        msg_peek()
    } else {
        0
    }
}

/// Receives into a buffer of `len` bytes; if it peeks, without removing what it receives from
/// the queue. The result is how many bytes were received.
pub fn socket_recv(fd: i32, len: usize, peek: bool) -> (fut: IoUringFut)
    ensures
        is_future_of(fut, Op::Recv { fd, len: low32(len), flags: recv_flags(peek) }),
{
    future_of(Op::Recv { fd, len: truncate_len(len), flags: flags_of_recv(peek) })
}

/// Receives into a buffer of `len` bytes, and the sender's address into one that can hold any;
/// if it peeks, without removing what it receives from the queue. The result is how many
/// bytes were received.
pub fn socket_recv_from(fd: i32, len: usize, peek: bool) -> (fut: IoUringFut)
    ensures
        is_future_of(
            fut,
            Op::RecvMsg {
                fd,
                name_len: MAX_LIBC_SOCKADDR_SIZE as u32,
                iov_len: len,
                flags: recv_flags(peek),
            },
        ),
{
    future_of(
        Op::RecvMsg {
            fd,
            name_len: MAX_LIBC_SOCKADDR_SIZE as u32,
            iov_len: len,
            flags: flags_of_recv(peek),
        },
    )
}

/// Sends a buffer of `len` bytes. The result is how many were sent.
pub fn socket_send(fd: i32, len: usize) -> (fut: IoUringFut)
    ensures
        is_future_of(fut, Op::Send { fd, len: low32(len) }),
{
    future_of(Op::Send { fd, len: truncate_len(len) })
}

/// The future sends a buffer of `len` bytes from this socket to this address.
pub open spec fn sends_to(fut: IoUringFut, fd: i32, len: usize, addr: SocketAddrView) -> bool {
    &&& fut.progress() == FutState::NotSubmitted
    &&& fut.entry().user_data == 0
    &&& fut.entry().op matches Op::SendMsg { fd: f, name, name_len, iov_len, flags }
    &&& f == fd
    &&& is_sockaddr(name@, addr)
    &&& name_len == MAX_LIBC_SOCKADDR_SIZE
    &&& iov_len == len
    &&& flags == 0
}

/// Sends a buffer of `len` bytes to an address. The result is how many were sent.
pub fn socket_send_to(fd: i32, len: usize, addr: &SocketAddr) -> (fut: IoUringFut)
    ensures
        sends_to(fut, fd, len, addr@),
{
    future_of(
        Op::SendMsg {
            fd,
            name: std_addr_to_libc(addr),
            name_len: MAX_LIBC_SOCKADDR_SIZE as u32,
            iov_len: len,
            flags: 0,
        },
    )
}

/// Accepts a connection, and the peer's address into a buffer that can hold any. The result is
/// the file descriptor of the connection.
pub fn socket_accept(fd: i32) -> (fut: IoUringFut)
    ensures
        is_future_of(fut, Op::Accept { fd, addr_len: MAX_LIBC_SOCKADDR_SIZE as u32 }),
{
    future_of(Op::Accept { fd, addr_len: MAX_LIBC_SOCKADDR_SIZE as u32 })
}

/// What the result of an operation means: a negative one is the negated number of an error.
pub open spec fn meaning(res: i32) -> Result<i32, OsError> {
    if res >= 0 {
        Ok(res)
    } else {
        Err(OsError { code: (-res) as i32 })
    }
}

/// Tells the value of an operation from its error.
pub fn libc_result_to_std(res: i32) -> (result: Result<i32, OsError>)
    requires
        is_result(res),
    ensures
        result == meaning(res),
{
    if res >= 0 {
        Ok(res)
    } else {
        Err(OsError { code: -res })
    }
}

/// The result of an operation that moves bytes: how many were moved.
pub fn bytes_result(res: i32) -> (result: Result<usize, OsError>)
    requires
        is_result(res),
    ensures
        match meaning(res) {
            Ok(n) => result == Ok::<usize, OsError>(n as usize),
            Err(err) => result == Err::<usize, OsError>(err),
        },
{
    match libc_result_to_std(res) {
        Ok(bytes) => Ok(bytes as usize),
        Err(err) => Err(err),
    }
}

/// The result of an operation that has no value: whether it succeeded.
pub fn unit_result(res: i32) -> (result: Result<(), OsError>)
    requires
        is_result(res),
    ensures
        match meaning(res) {
            Ok(_) => result is Ok,
            Err(err) => result matches Err(e) && e == err,
        },
{
    match libc_result_to_std(res) {
        Ok(_) => Ok(()),
        Err(err) => Err(err),
    }
}

/// The result of a receive: how many bytes were received, and who sent them. If it succeeded,
/// the family of that address must be known.
pub fn recv_from_result(res: i32, src_addr: &[u8; MAX_LIBC_SOCKADDR_SIZE]) -> (result: Result<
    (usize, SocketAddr),
    OsError,
>)
    requires
        is_result(res),
        res >= 0 ==> is_readable(src_addr@),
    ensures
        match meaning(res) {
            Ok(n) => result matches Ok((bytes, addr)) && bytes == n && is_reading(src_addr@, addr),
            Err(err) => result matches Err(e) && e == err,
        },
{
    match libc_result_to_std(res) {
        Ok(bytes) => Ok((bytes as usize, libc_addr_to_std(src_addr))),
        Err(err) => Err(err),
    }
}

/// The result of an accept: the file descriptor of the connection, and the peer's address. If
/// it succeeded, the family of that address must be known.
pub fn accept_result(res: i32, sockaddr: &[u8; MAX_LIBC_SOCKADDR_SIZE]) -> (result: Result<
    (i32, SocketAddr),
    OsError,
>)
    requires
        is_result(res),
        res >= 0 ==> is_readable(sockaddr@),
    ensures
        match meaning(res) {
            Ok(n) => result matches Ok((fd, addr)) && fd == n && is_reading(sockaddr@, addr),
            Err(err) => result matches Err(e) && e == err,
        },
{
    match libc_result_to_std(res) {
        Ok(fd) => Ok((fd, libc_addr_to_std(sockaddr))),
        Err(err) => Err(err),
    }
}

/// The length in an entry is that of the buffer wherever it fits; else it is less by a multiple
/// of 2^32.
pub proof fn law_length_is_that_of_the_buffer(len: usize)
    ensures
        len <= u32::MAX ==> low32(len) == len,
        (len - low32(len)) % 0x1_0000_0000 == 0,
        low32(len) <= len,
{
}

/// A future of an operation asks for that operation alone, and has not been submitted.
pub proof fn law_future_asks_for_one_operation(fut: IoUringFut, op: Op, other: Op)
    requires
        is_future_of(fut, op),
    ensures
        fut.entry().op == op,
        fut.entry().user_data == 0,
        fut.progress() is NotSubmitted,
        is_future_of(fut, other) ==> other == op,
{
}

/// What a result means: a value that is not negative is itself, and a negative one is an error
/// with the opposite number. Only the smallest number, which has no opposite, is no result.
pub proof fn law_result_is_value_or_negated_error(res: i32)
    ensures
        is_result(res) <==> res > i32::MIN,
        res >= 0 ==> (meaning(res) matches Ok(value) && value == res),
        is_result(res) && res < 0 ==> (meaning(res) matches Err(err) && err.code + res == 0),
{
}

/// Only a receive that peeks has a flag, `MSG_PEEK`.
pub proof fn law_only_peeking_has_a_flag(peek: bool)
    ensures
        peek ==> recv_flags(peek) == 2,
        !peek ==> recv_flags(peek) == 0,
{
}

/// Bytes are a path if none of them is a NUL.
pub proof fn law_path_has_no_nul(bytes: Seq<u8>)
    ensures
        is_path(bytes) <==> forall|i: int| 0 <= i < bytes.len() ==> #[trigger] bytes[i] != 0,
{
    if is_path(bytes) {
        assert forall|i: int| 0 <= i < bytes.len() implies #[trigger] bytes[i] != 0 by {
            if bytes[i] == 0 {
                assert(bytes.contains(0));
            }
        }
    }
}

/// The file that is opened is that of the path, byte by byte, up to the NUL at its end.
pub proof fn law_opens_the_file_of_the_path(fut: IoUringFut, path: Seq<u8>, opts: OpenOptionsView)
    requires
        opens(fut, path, opts),
    ensures
        fut.progress() is NotSubmitted,
        fut.entry().user_data == 0,
        fut.entry().op matches Op::OpenAt { dirfd, path: c_path, flags, mode } && {
            &&& dirfd == -100
            &&& c_path@.len() == path.len() + 1
            &&& forall|i: int| 0 <= i < path.len() ==> #[trigger] c_path@[i] == path[i]
            &&& c_path@.last() == 0
            &&& flags == opts.flags()
            &&& mode == 0o666
        },
{
}

/// A connect and a send go out on their socket, to the address whose bytes they name.
pub proof fn law_requests_go_to_their_address(
    fut: IoUringFut,
    fd: i32,
    len: usize,
    addr: SocketAddrView,
)
    ensures
        connects(fut, fd, addr) ==> {
            &&& fut.progress() is NotSubmitted
            &&& fut.entry().user_data == 0
            &&& fut.entry().op matches Op::Connect { fd: f, addr: bytes, addr_len }
            &&& f == fd
            &&& addr_len == 28
            &&& bytes@ == encoded(addr, little_endian())
        },
        sends_to(fut, fd, len, addr) ==> {
            &&& fut.progress() is NotSubmitted
            &&& fut.entry().user_data == 0
            &&& fut.entry().op matches Op::SendMsg { fd: f, name, name_len, iov_len, flags }
            &&& f == fd
            &&& iov_len == len
            &&& flags == 0
            &&& name_len == 28
            &&& name@ == encoded(addr, little_endian())
        },
{
}

} // verus!
