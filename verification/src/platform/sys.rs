//! The numbers by which the kernel knows flags, families and operations, and what it says it
//! supports.
//!
//! The numbers come from `libc` and `io_uring`. Each item here states the value that one of
//! them has on Linux. Six of those of `libc` are other numbers on MIPS or SPARC, and one of
//! them on x86_64 with uClibc; this library is not meant for those, and their items say so.
use io_uring::{opcode, Probe};
use vstd::prelude::*;

verus! {

/// [`libc::O_RDONLY`], which opens a file for reading only: 0.
#[verifier::external_body]
pub(crate) fn o_rdonly() -> (value: i32)
    ensures
        value == 0,
{
    libc::O_RDONLY
}

/// [`libc::O_WRONLY`], which opens a file for writing only: 1.
#[verifier::external_body]
pub(crate) fn o_wronly() -> (value: i32)
    ensures
        value == 1,
{
    libc::O_WRONLY
}

/// [`libc::O_RDWR`], which opens a file for reading and writing: 2.
#[verifier::external_body]
pub(crate) fn o_rdwr() -> (value: i32)
    ensures
        value == 2,
{
    libc::O_RDWR
}

/// [`libc::O_APPEND`], which has every write go to the end of the file: 0x400, on targets other
/// than MIPS and SPARC.
#[verifier::external_body]
pub(crate) fn o_append() -> (value: i32)
    ensures
        value == 0x400,
{
    libc::O_APPEND
}

/// [`libc::O_TRUNC`], which empties the file: 0x200, on targets other than MIPS and SPARC.
#[verifier::external_body]
pub(crate) fn o_trunc() -> (value: i32)
    ensures
        value == 0x200,
{
    libc::O_TRUNC
}

/// [`libc::O_CREAT`], which creates the file if it is not there: 0x40, on targets other than
/// MIPS, SPARC and x86_64 with uClibc.
#[verifier::external_body]
pub(crate) fn o_creat() -> (value: i32)
    ensures
        value == 0x40,
{
    libc::O_CREAT
}

/// [`libc::O_EXCL`], which fails if the file is there: 0x80, on targets other than MIPS and
/// SPARC.
#[verifier::external_body]
pub(crate) fn o_excl() -> (value: i32)
    ensures
        value == 0x80,
{
    libc::O_EXCL
}

/// [`libc::AT_FDCWD`], which stands for the working directory: -100.
#[verifier::external_body]
pub(crate) fn at_fdcwd() -> (value: i32)
    ensures
        value == -100,
{
    libc::AT_FDCWD
}

/// [`libc::AF_INET`], which is the family of IPv4 addresses: 2.
#[verifier::external_body]
pub(crate) fn af_inet() -> (value: i32)
    ensures
        value == 2,
{
    libc::AF_INET
}

/// [`libc::AF_INET6`], which is the family of IPv6 addresses: 10.
#[verifier::external_body]
pub(crate) fn af_inet6() -> (value: i32)
    ensures
        value == 10,
{
    libc::AF_INET6
}

/// [`libc::SOCK_STREAM`], which is the type of stream sockets: 1, on targets other than MIPS
/// and SPARC.
#[verifier::external_body]
pub(crate) fn sock_stream() -> (value: i32)
    ensures
        value == 1,
{
    libc::SOCK_STREAM
}

/// [`libc::SOCK_DGRAM`], which is the type of datagram sockets: 2, on targets other than MIPS
/// and SPARC.
#[verifier::external_body]
pub(crate) fn sock_dgram() -> (value: i32)
    ensures
        value == 2,
{
    libc::SOCK_DGRAM
}

/// [`libc::IPPROTO_TCP`], which is the protocol TCP: 6.
#[verifier::external_body]
pub(crate) fn ipproto_tcp() -> (value: i32)
    ensures
        value == 6,
{
    libc::IPPROTO_TCP
}

/// [`libc::IPPROTO_UDP`], which is the protocol UDP: 17.
#[verifier::external_body]
pub(crate) fn ipproto_udp() -> (value: i32)
    ensures
        value == 17,
{
    libc::IPPROTO_UDP
}

/// [`libc::SHUT_RD`], which shuts the reading half down: 0.
#[verifier::external_body]
pub(crate) fn shut_rd() -> (value: i32)
    ensures
        value == 0,
{
    libc::SHUT_RD
}

/// [`libc::SHUT_WR`], which shuts the writing half down: 1.
#[verifier::external_body]
pub(crate) fn shut_wr() -> (value: i32)
    ensures
        value == 1,
{
    libc::SHUT_WR
}

/// [`libc::SHUT_RDWR`], which shuts both halves down: 2.
#[verifier::external_body]
pub(crate) fn shut_rdwr() -> (value: i32)
    ensures
        value == 2,
{
    libc::SHUT_RDWR
}

/// [`libc::MSG_PEEK`], which leaves what is received in the queue: 2.
#[verifier::external_body]
pub(crate) fn msg_peek() -> (value: i32)
    ensures
        value == 2,
{
    libc::MSG_PEEK
}

/// The opcode of [`io_uring::opcode::AsyncCancel`], `IORING_OP_ASYNC_CANCEL` of the kernel: 14.
#[verifier::external_body]
pub(crate) fn async_cancel_code() -> (code: u8)
    ensures
        code == 14,
{
    opcode::AsyncCancel::CODE
}

/// The opcode of [`io_uring::opcode::Timeout`], `IORING_OP_TIMEOUT` of the kernel: 11.
#[verifier::external_body]
pub(crate) fn timeout_code() -> (code: u8)
    ensures
        code == 11,
{
    opcode::Timeout::CODE
}

/// The opcode of [`io_uring::opcode::Socket`], `IORING_OP_SOCKET` of the kernel: 45.
#[verifier::external_body]
pub(crate) fn socket_code() -> (code: u8)
    ensures
        code == 45,
{
    opcode::Socket::CODE
}

/// The opcode of [`io_uring::opcode::Connect`], `IORING_OP_CONNECT` of the kernel: 16.
#[verifier::external_body]
pub(crate) fn connect_code() -> (code: u8)
    ensures
        code == 16,
{
    opcode::Connect::CODE
}

/// The opcode of [`io_uring::opcode::RecvMsg`], `IORING_OP_RECVMSG` of the kernel: 10.
#[verifier::external_body]
pub(crate) fn recv_msg_code() -> (code: u8)
    ensures
        code == 10,
{
    opcode::RecvMsg::CODE
}

/// The opcode of [`io_uring::opcode::SendMsg`], `IORING_OP_SENDMSG` of the kernel: 9.
#[verifier::external_body]
pub(crate) fn send_msg_code() -> (code: u8)
    ensures
        code == 9,
{
    opcode::SendMsg::CODE
}

/// The opcode of [`io_uring::opcode::Shutdown`], `IORING_OP_SHUTDOWN` of the kernel: 34.
#[verifier::external_body]
pub(crate) fn shutdown_code() -> (code: u8)
    ensures
        code == 34,
{
    opcode::Shutdown::CODE
}

/// The opcode of [`io_uring::opcode::OpenAt`], `IORING_OP_OPENAT` of the kernel: 18.
#[verifier::external_body]
pub(crate) fn open_at_code() -> (code: u8)
    ensures
        code == 18,
{
    opcode::OpenAt::CODE
}

/// The opcode of [`io_uring::opcode::Read`], `IORING_OP_READ` of the kernel: 22.
#[verifier::external_body]
pub(crate) fn read_code() -> (code: u8)
    ensures
        code == 22,
{
    opcode::Read::CODE
}

/// The opcode of [`io_uring::opcode::Write`], `IORING_OP_WRITE` of the kernel: 23.
#[verifier::external_body]
pub(crate) fn write_code() -> (code: u8)
    ensures
        code == 23,
{
    opcode::Write::CODE
}

/// The opcode of [`io_uring::opcode::Close`], `IORING_OP_CLOSE` of the kernel: 19.
#[verifier::external_body]
pub(crate) fn close_code() -> (code: u8)
    ensures
        code == 19,
{
    opcode::Close::CODE
}

/// Declares [`io_uring::Probe`], the set of the operations that a kernel supports.
#[verifier::external_type_specification]
#[verifier::external_body]
pub struct ExProbe(Probe);

/// The opcodes that a probe holds as supported.
pub uninterp spec fn supported_opcodes(probe: Probe) -> Set<u8>;

/// [`io_uring::Probe::is_supported`]: whether the probe holds this opcode as supported.
#[verifier::external_body]
pub(crate) fn probe_is_supported(probe: &Probe, code: u8) -> (supported: bool)
    ensures
        supported == supported_opcodes(*probe).contains(code),
{
    probe.is_supported(code)
}

} // verus!
