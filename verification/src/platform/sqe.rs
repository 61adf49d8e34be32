//! Operations handed to an io_uring, and what comes back.
use vstd::prelude::*;

use super::addr::MAX_LIBC_SOCKADDR_SIZE;

verus! {

/// An operation, with its parameters. Where the kernel reads or fills memory of the caller,
/// the operation names only how much of it there is: the caller lends the memory when it
/// builds the submission queue entry.
#[derive(Debug)]
pub enum Op {
    /// Wait for a time that is relative to the submission.
    Timeout { sec: u64, nsec: u32 },
    /// Cancel the operation that was submitted with this user data.
    AsyncCancel { user_data: u64 },
    /// Open a file. `path` ends in its only NUL.
    OpenAt { dirfd: i32, path: Vec<u8>, flags: i32, mode: u32 },
    /// Read from the start of a file into a buffer of `len` bytes.
    Read { fd: i32, len: u32 },
    /// Write a buffer of `len` bytes to the start of a file.
    Write { fd: i32, len: u32 },
    /// Close a file descriptor.
    Close { fd: i32 },
    /// Create a socket.
    Socket { domain: i32, socket_type: i32, protocol: i32 },
    /// Connect a socket to an address.
    Connect { fd: i32, addr: [u8; MAX_LIBC_SOCKADDR_SIZE], addr_len: u32 },
    /// Shut parts of a connection down.
    Shutdown { fd: i32, how: i32 },
    /// Receive into a buffer of `len` bytes.
    Recv { fd: i32, len: u32, flags: i32 },
    /// Receive into a buffer of `iov_len` bytes, and the sender's address into one of
    /// `name_len` bytes.
    RecvMsg { fd: i32, name_len: u32, iov_len: usize, flags: i32 },
    /// Send a buffer of `len` bytes.
    Send { fd: i32, len: u32 },
    /// Send a buffer of `iov_len` bytes to an address.
    SendMsg {
        fd: i32,
        name: [u8; MAX_LIBC_SOCKADDR_SIZE],
        name_len: u32,
        iov_len: usize,
        flags: i32,
    },
    /// Accept a connection, and the peer's address into a buffer of `addr_len` bytes.
    Accept { fd: i32, addr_len: u32 },
}

/// An entry of the submission queue: an operation, and the number by which its completion
/// will be recognised.
#[derive(Debug)]
pub struct Sqe {
    pub op: Op,
    pub user_data: u64,
}

/// An entry of the completion queue: the number that the operation was submitted with, and
/// its result.
#[derive(Clone, Copy, Debug)]
pub struct Cqe {
    pub user_data: u64,
    pub result: i32,
}

/// The number of the IO key that user data holds: its low 32 bits.
pub open spec fn key_of(user_data: u64) -> u32 {
    (user_data % 0x1_0000_0000) as u32
}

} // verus!
