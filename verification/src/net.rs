//! TCP and UDP networking.
//!
//! A socket is known here by its file descriptor. What its methods return is submitted, and
//! the buffers that it needs are lent, by whoever polls it.
use vstd::prelude::*;

use crate::error::{OsError, RequestError};
use crate::platform::addr::{
    family_number, law_layout_of_ipv4_address, law_layout_of_ipv6_address, little_endian,
    MAX_LIBC_SOCKADDR_SIZE,
};
use crate::platform::fut::IoUringFut;
use crate::platform::ops::{
    connects, is_future_of, low32, recv_flags, sends_to, socket_accept, socket_close,
    socket_connect, socket_create, socket_recv, socket_recv_from, socket_send, socket_send_to,
    socket_shutdown,
};
use crate::platform::sqe::{Op, Sqe};

verus! {

/// An IPv4 address and a port.
#[derive(Clone, Copy, Debug, PartialEq, Eq)]
pub struct SocketAddrV4 {
    pub ip: [u8; 4],
    pub port: u16,
}

/// An IPv6 address, a port, a flow label and a scope.
#[derive(Clone, Copy, Debug, PartialEq, Eq)]
pub struct SocketAddrV6 {
    pub ip: [u8; 16],
    pub port: u16,
    pub flowinfo: u32,
    pub scope_id: u32,
}

/// The address of a socket.
#[derive(Clone, Copy, Debug, PartialEq, Eq)]
pub enum SocketAddr {
    V4(SocketAddrV4),
    V6(SocketAddrV6),
}

/// Which half of a connection to shut down.
#[derive(Clone, Copy, Debug, PartialEq, Eq)]
pub enum Shutdown {
    Read,
    Write,
    Both,
}

/// What a [`SocketAddr`] holds.
#[verifier::ext_equal]
pub enum SocketAddrView {
    V4 { ip: Seq<u8>, port: u16 },
    V6 { ip: Seq<u8>, port: u16, flowinfo: u32, scope_id: u32 },
}

impl SocketAddrView {
    /// An IPv4 address has four octets, an IPv6 address sixteen.
    pub open spec fn wf(self) -> bool {
        match self {
            SocketAddrView::V4 { ip, .. } => ip.len() == 4,
            SocketAddrView::V6 { ip, .. } => ip.len() == 16,
        }
    }
}

impl View for SocketAddr {
    type V = SocketAddrView;

    open spec fn view(&self) -> SocketAddrView {
        match self {
            SocketAddr::V4(addr) => SocketAddrView::V4 { ip: addr.ip@, port: addr.port },
            SocketAddr::V6(addr) => SocketAddrView::V6 {
                ip: addr.ip@,
                port: addr.port,
                flowinfo: addr.flowinfo,
                scope_id: addr.scope_id,
            },
        }
    }
}

/// What to do after an attempt to connect.
#[derive(Debug, PartialEq, Eq, Structural)]
pub enum ConnectStep {
    /// It failed: try the next address.
    Retry,
    /// It succeeded.
    Connected,
    /// It failed, and there is no address left. This is its error.
    Failed(OsError),
}

/// The addresses to connect to, and which of them is being tried.
pub struct ConnectView {
    pub addrs: Seq<SocketAddr>,
    pub at: int,
}

impl ConnectView {
    /// The first of the addresses is being tried.
    pub open spec fn started(addrs: Seq<SocketAddr>) -> Self {
        ConnectView { addrs, at: 0 }
    }

    /// The address that is being tried.
    pub open spec fn current(self) -> SocketAddr {
        self.addrs[self.at]
    }

    /// An address is being tried.
    pub open spec fn wf(self) -> bool {
        0 <= self.at < self.addrs.len()
    }

    /// What to do after an attempt with this outcome.
    pub open spec fn step(self, outcome: Result<(), OsError>) -> ConnectStep {
        match outcome {
            Ok(_) => ConnectStep::Connected,
            Err(err) => if self.at + 1 < self.addrs.len() {
                ConnectStep::Retry
            } else {
                ConnectStep::Failed(err)
            },
        }
    }

    /// After an attempt with this outcome.
    pub open spec fn stepped(self, outcome: Result<(), OsError>) -> Self {
        if self.step(outcome) is Retry {
            ConnectView { addrs: self.addrs, at: self.at + 1 }
        } else {
            self
        }
    }

    /// After attempts with these outcomes: where they have led, and what to do then. Outcomes
    /// after the one that ends it are not used.
    pub open spec fn run(self, outcomes: Seq<Result<(), OsError>>) -> (Self, ConnectStep)
        decreases outcomes.len(),
    {
        if outcomes.len() == 0 {
            (self, ConnectStep::Retry)
        } else if self.step(outcomes[0]) is Retry {
            self.stepped(outcomes[0]).run(outcomes.skip(1))
        } else {
            (self.stepped(outcomes[0]), self.step(outcomes[0]))
        }
    }
}

/// Connecting to the first of several addresses that can be connected to.
#[derive(Debug)]
pub struct Connect {
    addrs: Vec<SocketAddr>,
    at: usize,
}

impl View for Connect {
    type V = ConnectView;

    closed spec fn view(&self) -> ConnectView {
        ConnectView { addrs: self.addrs@, at: self.at as int }
    }
}

impl Connect {
    /// Tries the first address. There must be one.
    pub fn new(addrs: Vec<SocketAddr>) -> (connect: Result<Self, RequestError>)
        ensures
            match connect {
                Ok(c) => addrs@.len() > 0 && c@ == ConnectView::started(addrs@) && c@.wf(),
                Err(err) => addrs@.len() == 0 && err == RequestError::InvalidInput,
            },
    {
        if addrs.len() == 0 {
            Err(RequestError::InvalidInput)
        } else {
            Ok(Connect { addrs, at: 0 })
        }
    }

    /// The address that is being tried.
    pub fn addr(&self) -> (addr: SocketAddr)
        requires
            self@.wf(),
        ensures
            addr == self@.current(),
    {
        self.addrs[self.at]
    }

    /// Takes in the outcome of an attempt, and says what to do next.
    pub fn step(&mut self, outcome: Result<(), OsError>) -> (step: ConnectStep)
        requires
            old(self)@.wf(),
        ensures
            step == old(self)@.step(outcome),
            final(self)@ == old(self)@.stepped(outcome),
            final(self)@.wf(),
    {
        match outcome {
            Ok(_) => ConnectStep::Connected,
            Err(err) => {
                if self.at < self.addrs.len() - 1 {
                    self.at = self.at + 1;
                    ConnectStep::Retry
                } else {
                    ConnectStep::Failed(err)
                }
            },
        }
    }
}

/// The first address that can be connected to is the one that is connected to: the attempts
/// before it have failed, and it is where they have led.
pub proof fn law_connects_to_first_that_succeeds(
    connect: ConnectView,
    outcomes: Seq<Result<(), OsError>>,
    k: int,
)
    requires
        connect.wf(),
        0 <= k < outcomes.len(),
        connect.at + outcomes.len() <= connect.addrs.len(),
        outcomes[k] is Ok,
        forall|j: int| 0 <= j < k ==> #[trigger] outcomes[j] is Err,
    ensures
        connect.run(outcomes) == (
            ConnectView { addrs: connect.addrs, at: connect.at + k },
            ConnectStep::Connected,
        ),
    decreases k,
{
    if k > 0 {
        assert(outcomes[0] is Err);
        assert forall|j: int| 0 <= j < k - 1 implies #[trigger] outcomes.skip(1)[j] is Err by {
            assert(outcomes[j + 1] is Err);
        }
        law_connects_to_first_that_succeeds(connect.stepped(outcomes[0]), outcomes.skip(1), k - 1);
    }
}

/// Where no address can be connected to, the error is that of the last one.
pub proof fn law_fails_with_last_error(connect: ConnectView, outcomes: Seq<Result<(), OsError>>)
    requires
        connect.wf(),
        connect.at + outcomes.len() == connect.addrs.len(),
        forall|j: int| 0 <= j < outcomes.len() ==> #[trigger] outcomes[j] is Err,
    ensures
        connect.run(outcomes).1 == ConnectStep::Failed(outcomes.last()->Err_0),
    decreases outcomes.len(),
{
    assert(outcomes[0] is Err);
    if outcomes.len() > 1 {
        assert forall|j: int| 0 <= j < outcomes.skip(1).len() implies #[trigger] outcomes.skip(
            1,
        )[j] is Err by {
            assert(outcomes[j + 1] is Err);
        }
        law_fails_with_last_error(connect.stepped(outcomes[0]), outcomes.skip(1));
    }
}

/// Opening a TCP connection to the first of several addresses that can be connected to. As
/// each of them can be of either family, there is one socket of each: these are still to be
/// created.
#[derive(Debug)]
pub struct TcpSockets {
    connect: Connect,
}

impl TcpSockets {
    /// The addresses.
    pub closed spec fn attempts(&self) -> ConnectView {
        self.connect@
    }

    /// What creates the socket for IPv4 addresses, and what creates the one for IPv6 addresses.
    pub fn requests(&self) -> (futs: (IoUringFut, IoUringFut))
        ensures
            is_future_of(futs.0, Op::Socket { domain: 2, socket_type: 1, protocol: 6 }),
            is_future_of(futs.1, Op::Socket { domain: 10, socket_type: 1, protocol: 6 }),
    {
        (socket_create(false, false), socket_create(true, false))
    }

    /// Takes in the two sockets, or why they could not be created: a family that the machine
    /// does not have is no obstacle to connecting to an address of the other one.
    pub fn created(
        self,
        stream_v4: Result<i32, OsError>,
        stream_v6: Result<i32, OsError>,
    ) -> (connect: TcpConnect)
        requires
            self.attempts().wf(),
        ensures
            connect@ == (TcpConnectView {
                attempts: self.attempts(),
                v4: stream_v4,
                v6: stream_v6,
            }),
            connect@.wf(),
    {
        TcpConnect { connect: self.connect, stream_v4, stream_v6 }
    }
}

/// What a [`TcpConnect`] knows.
pub struct TcpConnectView {
    /// The addresses.
    pub attempts: ConnectView,
    /// The socket for IPv4 addresses, or why there is none.
    pub v4: Result<i32, OsError>,
    /// The socket for IPv6 addresses, or why there is none.
    pub v6: Result<i32, OsError>,
}

impl TcpConnectView {
    /// An address is being tried.
    pub open spec fn wf(self) -> bool {
        self.attempts.wf()
    }

    /// The socket with which this address is tried.
    pub open spec fn stream_of(self, addr: SocketAddr) -> Result<i32, OsError> {
        match addr {
            SocketAddr::V4(_) => self.v4,
            SocketAddr::V6(_) => self.v6,
        }
    }

    /// The socket with which the current address is tried.
    pub open spec fn stream(self) -> Result<i32, OsError> {
        self.stream_of(self.attempts.current())
    }

    /// The other socket.
    pub open spec fn other(self) -> Result<i32, OsError> {
        match self.attempts.current() {
            SocketAddr::V4(_) => self.v6,
            SocketAddr::V6(_) => self.v4,
        }
    }

    /// The entries that close the sockets that are not needed after a step: none while addresses
    /// are tried, then the other one if it is there, and both where all attempts have failed.
    pub open spec fn closes(self, step: ConnectStep) -> Seq<Sqe> {
        match step {
            ConnectStep::Retry => Seq::empty(),
            ConnectStep::Connected => closing_if_there(self.other()),
            ConnectStep::Failed(_) => closing_if_there(self.v4) + closing_if_there(self.v6),
        }
    }

    /// The outcomes of the attempts from the current address on, given what the kernel answers
    /// to each that is made: without a socket none is made, and the outcome is why there is no
    /// socket.
    pub open spec fn outcomes(self, answers: Seq<Result<(), OsError>>) -> Seq<
        Result<(), OsError>,
    > {
        Seq::new(
            answers.len(),
            |i: int|
                match self.stream_of(self.attempts.addrs[self.attempts.at + i]) {
                    Ok(_) => answers[i],
                    Err(err) => Err(err),
                },
        )
    }
}

/// The entry that closes a socket.
pub open spec fn closing(fd: i32) -> Sqe {
    Sqe { op: Op::Close { fd }, user_data: 0 }
}

/// The entries that close a socket, if it is there.
pub open spec fn closing_if_there(stream: Result<i32, OsError>) -> Seq<Sqe> {
    match stream {
        Ok(fd) => seq![closing(fd)],
        Err(_) => Seq::empty(),
    }
}

/// Opening a TCP connection to the first of several addresses that can be connected to, with
/// one socket of each family.
#[derive(Debug)]
pub struct TcpConnect {
    connect: Connect,
    stream_v4: Result<i32, OsError>,
    stream_v6: Result<i32, OsError>,
}

impl View for TcpConnect {
    type V = TcpConnectView;

    closed spec fn view(&self) -> TcpConnectView {
        TcpConnectView { attempts: self.connect@, v4: self.stream_v4, v6: self.stream_v6 }
    }
}

impl TcpConnect {
    /// The address that is being tried.
    pub fn addr(&self) -> (addr: SocketAddr)
        requires
            self@.wf(),
        ensures
            addr == self@.attempts.current(),
    {
        self.connect.addr()
    }

    /// The socket with which the address is tried, and the other one. If the attempt
    /// succeeds, the first is the connection.
    pub fn streams(&self) -> (streams: (Result<i32, OsError>, Result<i32, OsError>))
        requires
            self@.wf(),
        ensures
            streams == (self@.stream(), self@.other()),
    {
        match self.connect.addr() {
            SocketAddr::V4(_) => (self.stream_v4, self.stream_v6),
            SocketAddr::V6(_) => (self.stream_v6, self.stream_v4),
        }
    }

    /// What connects the socket to the address that is being tried. If there is no socket for
    /// it, the attempt has failed already, with the error with which creating one did.
    pub fn attempt(&self) -> (fut: Result<IoUringFut, OsError>)
        requires
            self@.wf(),
        ensures
            match self@.stream() {
                Ok(fd) => fut matches Ok(f) && connects(f, fd, self@.attempts.current()@),
                Err(err) => fut matches Err(e) && e == err,
            },
    {
        match self.streams().0 {
            Ok(fd) => Ok(socket_connect(fd, &self.connect.addr())),
            Err(err) => Err(err),
        }
    }

    /// Takes in the outcome of an attempt, and says what to do next.
    pub fn step(&mut self, outcome: Result<(), OsError>) -> (step: ConnectStep)
        requires
            old(self)@.wf(),
        ensures
            step == old(self)@.attempts.step(outcome),
            final(self)@ == (TcpConnectView {
                attempts: old(self)@.attempts.stepped(outcome),
                ..old(self)@
            }),
            final(self)@.wf(),
    {
        self.connect.step(outcome)
    }

    /// The entries that close the sockets that are not needed after the last step, which was
    /// this one.
    pub fn closes(&self, step: &ConnectStep) -> (sqes: Vec<Sqe>)
        requires
            self@.wf(),
        ensures
            sqes@ == self@.closes(*step),
    {
        let mut sqes: Vec<Sqe> = Vec::new();
        match step {
            ConnectStep::Retry => {},
            ConnectStep::Connected => {
                if let Ok(fd) = self.streams().1 {
                    sqes.push(socket_close(fd));
                }
            },
            ConnectStep::Failed(_) => {
                if let Ok(fd) = self.stream_v4 {
                    sqes.push(socket_close(fd));
                }
                if let Ok(fd) = self.stream_v6 {
                    sqes.push(socket_close(fd));
                }
            },
        }
        sqes
    }
}

/// No socket is left over: once connecting has ended, each socket that is there is the
/// connection or is closed, and none is both or is closed twice. After a failure there is no
/// connection.
pub proof fn law_no_socket_is_left_over(connect: TcpConnectView, err: OsError)
    ensures
        connect.closes(ConnectStep::Connected).to_multiset().add(
            closing_if_there(connect.stream()).to_multiset(),
        ) == connect.closes(ConnectStep::Failed(err)).to_multiset(),
        connect.closes(ConnectStep::Failed(err)) == closing_if_there(connect.v4)
            + closing_if_there(connect.v6),
{
    let (v4, v6) = (closing_if_there(connect.v4), closing_if_there(connect.v6));
    vstd::seq_lib::lemma_multiset_commutative(v4, v6);
    assert(v4.to_multiset().add(v6.to_multiset()) =~= v6.to_multiset().add(v4.to_multiset()));
}

/// A TCP connection is made to the first address for whose family there is a socket and to
/// which the kernel can connect it, whatever became of the addresses before.
pub proof fn law_connects_where_there_is_a_socket(
    connect: TcpConnectView,
    answers: Seq<Result<(), OsError>>,
    k: int,
)
    requires
        connect.wf(),
        0 <= k < answers.len(),
        connect.attempts.at + answers.len() <= connect.attempts.addrs.len(),
        answers[k] is Ok,
        connect.stream_of(connect.attempts.addrs[connect.attempts.at + k]) is Ok,
        forall|j: int|
            0 <= j < k ==> (#[trigger] answers[j]) is Err || connect.stream_of(
                connect.attempts.addrs[connect.attempts.at + j],
            ) is Err,
    ensures
        connect.attempts.run(connect.outcomes(answers)) == (
            ConnectView { addrs: connect.attempts.addrs, at: connect.attempts.at + k },
            ConnectStep::Connected,
        ),
{
    let outcomes = connect.outcomes(answers);
    assert forall|j: int| 0 <= j < k implies #[trigger] outcomes[j] is Err by {
        assert(answers[j] is Err || connect.stream_of(
            connect.attempts.addrs[connect.attempts.at + j],
        ) is Err);
    }
    law_connects_to_first_that_succeeds(connect.attempts, outcomes, k);
}

/// What became of the socket of a family does not matter where no address of that family is
/// tried: the outcomes are the same.
pub proof fn law_family_that_is_not_tried_does_not_matter(
    a: TcpConnectView,
    b: TcpConnectView,
    answers: Seq<Result<(), OsError>>,
)
    requires
        a.attempts == b.attempts,
        forall|i: int|
            0 <= i < answers.len() ==> #[trigger] a.stream_of(a.attempts.addrs[a.attempts.at + i])
                == b.stream_of(a.attempts.addrs[a.attempts.at + i]),
    ensures
        a.outcomes(answers) == b.outcomes(answers),
{
    assert forall|i: int| 0 <= i < answers.len() implies a.outcomes(answers)[i] == b.outcomes(
        answers,
    )[i] by {
        assert(a.stream_of(a.attempts.addrs[a.attempts.at + i]) == b.stream_of(
            a.attempts.addrs[a.attempts.at + i],
        ));
    }
    assert(a.outcomes(answers) =~= b.outcomes(answers));
}

/// A TCP stream between a local and a remote socket.
#[derive(Debug)]
pub struct TcpStream {
    fd: i32,
}

impl TcpStream {
    /// The file descriptor of the socket.
    pub closed spec fn fd(&self) -> i32 {
        self.fd
    }

    /// The stream of a connected socket.
    pub fn new(fd: i32) -> (stream: Self)
        ensures
            stream.fd() == fd,
    {
        TcpStream { fd }
    }

    /// Opens a TCP connection to a remote host, given its addresses, which are tried in turn.
    /// There must be one.
    pub fn connect(addrs: Vec<SocketAddr>) -> (sockets: Result<TcpSockets, RequestError>)
        ensures
            match sockets {
                Ok(s) => {
                    &&& addrs@.len() > 0
                    &&& s.attempts() == ConnectView::started(addrs@)
                    &&& s.attempts().wf()
                },
                Err(err) => addrs@.len() == 0 && err == RequestError::InvalidInput,
            },
    {
        match Connect::new(addrs) {
            Ok(connect) => Ok(TcpSockets { connect }),
            Err(err) => Err(err),
        }
    }

    /// Pulls some bytes from this stream into a buffer of `len` bytes. The result is how many
    /// were read; zero means that the remote host closed the connection.
    pub fn read(&self, len: usize) -> (fut: IoUringFut)
        ensures
            is_future_of(fut, Op::Recv { fd: self.fd(), len: low32(len), flags: 0 }),
    {
        socket_recv(self.fd, len, false)
    }

    /// Writes a buffer of `len` bytes into this stream. The result is how many were written.
    pub fn write(&self, len: usize) -> (fut: IoUringFut)
        ensures
            is_future_of(fut, Op::Send { fd: self.fd(), len: low32(len) }),
    {
        socket_send(self.fd, len)
    }

    /// Shuts down the read, write, or both halves of this connection.
    pub fn shutdown(&self, how: Shutdown) -> (fut: IoUringFut)
        ensures
            is_future_of(
                fut,
                Op::Shutdown {
                    fd: self.fd(),
                    how: match how {
                        Shutdown::Read => 0,
                        Shutdown::Write => 1,
                        Shutdown::Both => 2,
                    },
                },
            ),
    {
        socket_shutdown(self.fd, how)
    }

    /// The entry that closes this stream.
    pub fn drop(&mut self) -> (sqe: Sqe)
        ensures
            sqe == (Sqe { op: Op::Close { fd: old(self).fd() }, user_data: 0 }),
            *final(self) == *old(self),
    {
        socket_close(self.fd)
    }
}

/// A TCP socket server, listening for connections.
#[derive(Debug)]
pub struct TcpListener {
    fd: i32,
}

impl TcpListener {
    /// The file descriptor of the socket.
    pub closed spec fn fd(&self) -> i32 {
        self.fd
    }

    /// The listener of a bound socket.
    pub fn new(fd: i32) -> (listener: Self)
        ensures
            listener.fd() == fd,
    {
        TcpListener { fd }
    }

    /// Accepts a new incoming connection from this listener. The result is the connection's
    /// file descriptor.
    pub fn accept(&self) -> (fut: IoUringFut)
        ensures
            is_future_of(
                fut,
                Op::Accept { fd: self.fd(), addr_len: MAX_LIBC_SOCKADDR_SIZE as u32 },
            ),
    {
        socket_accept(self.fd)
    }

    /// The entry that closes this listener.
    pub fn drop(&mut self) -> (sqe: Sqe)
        ensures
            sqe == (Sqe { op: Op::Close { fd: old(self).fd() }, user_data: 0 }),
            *final(self) == *old(self),
    {
        socket_close(self.fd)
    }
}

/// A UDP socket, which may be connected to a remote address.
#[derive(Debug)]
pub struct UdpSocket {
    fd: i32,
    connected: bool,
}

impl UdpSocket {
    /// The file descriptor of the socket.
    pub closed spec fn fd(&self) -> i32 {
        self.fd
    }

    /// Whether the socket is connected to a remote address.
    pub closed spec fn connected(&self) -> bool {
        self.connected
    }

    /// The UDP socket with this file descriptor, which is connected to a remote address or not.
    /// One that has just been bound is not.
    pub fn new(fd: i32, connected: bool) -> (socket: Self)
        ensures
            socket.fd() == fd,
            socket.connected() == connected,
    {
        UdpSocket { fd, connected }
    }

    /// Connects this socket to a remote host, given its addresses, which are tried in turn with
    /// [`UdpSocket::attempt`]. There must be one.
    pub fn connect(&self, addrs: Vec<SocketAddr>) -> (connect: Result<Connect, RequestError>)
        ensures
            match connect {
                Ok(c) => addrs@.len() > 0 && c@ == ConnectView::started(addrs@) && c@.wf(),
                Err(err) => addrs@.len() == 0 && err == RequestError::InvalidInput,
            },
    {
        Connect::new(addrs)
    }

    /// What connects this socket to the address that is being tried.
    pub fn attempt(&self, connect: &Connect) -> (fut: IoUringFut)
        requires
            connect@.wf(),
        ensures
            connects(fut, self.fd(), connect@.current()@),
    {
        socket_connect(self.fd, &connect.addr())
    }

    /// Takes in the outcome of an attempt, and says what to do next. After one that succeeded
    /// the socket is connected.
    pub fn step(&mut self, connect: &mut Connect, outcome: Result<(), OsError>) -> (step:
        ConnectStep)
        requires
            old(connect)@.wf(),
        ensures
            step == old(connect)@.step(outcome),
            final(connect)@ == old(connect)@.stepped(outcome),
            final(connect)@.wf(),
            final(self).fd() == old(self).fd(),
            final(self).connected() == (old(self).connected() || outcome is Ok),
    {
        if outcome.is_ok() {
            self.connected = true;
        }
        connect.step(outcome)
    }

    /// Receives a single datagram into a buffer of `len` bytes from the remote address to
    /// which this socket is connected; it must be connected to one. The result is how many
    /// bytes were read.
    pub fn recv(&self, len: usize) -> (fut: Result<IoUringFut, RequestError>)
        ensures
            match fut {
                Ok(f) => {
                    &&& self.connected()
                    &&& is_future_of(f, Op::Recv { fd: self.fd(), len: low32(len), flags: 0 })
                },
                Err(err) => !self.connected() && err == RequestError::NotConnected,
            },
    {
        if self.connected {
            Ok(socket_recv(self.fd, len, false))
        } else {
            Err(RequestError::NotConnected)
        }
    }

    /// Receives a single datagram into a buffer of `len` bytes, and its origin. The result is
    /// how many bytes were read.
    pub fn recv_from(&self, len: usize) -> (fut: IoUringFut)
        ensures
            is_future_of(
                fut,
                Op::RecvMsg {
                    fd: self.fd(),
                    name_len: MAX_LIBC_SOCKADDR_SIZE as u32,
                    iov_len: len,
                    flags: 0,
                },
            ),
    {
        socket_recv_from(self.fd, len, false)
    }

    /// Like [`UdpSocket::recv`], without removing the datagram from the queue.
    pub fn peek(&self, len: usize) -> (fut: Result<IoUringFut, RequestError>)
        ensures
            match fut {
                Ok(f) => {
                    &&& self.connected()
                    &&& is_future_of(
                        f,
                        Op::Recv { fd: self.fd(), len: low32(len), flags: recv_flags(true) },
                    )
                },
                Err(err) => !self.connected() && err == RequestError::NotConnected,
            },
    {
        if self.connected {
            Ok(socket_recv(self.fd, len, true))
        } else {
            Err(RequestError::NotConnected)
        }
    }

    /// Like [`UdpSocket::recv_from`], without removing the datagram from the queue.
    pub fn peek_from(&self, len: usize) -> (fut: IoUringFut)
        ensures
            is_future_of(
                fut,
                Op::RecvMsg {
                    fd: self.fd(),
                    name_len: MAX_LIBC_SOCKADDR_SIZE as u32,
                    iov_len: len,
                    flags: recv_flags(true),
                },
            ),
    {
        socket_recv_from(self.fd, len, true)
    }

    /// Sends a buffer of `len` bytes to the remote address to which this socket is connected.
    /// The result is how many were sent.
    pub fn send(&self, len: usize) -> (fut: IoUringFut)
        ensures
            is_future_of(fut, Op::Send { fd: self.fd(), len: low32(len) }),
    {
        socket_send(self.fd, len)
    }

    /// Sends a buffer of `len` bytes to the first of the given addresses. There must be one.
    /// The result is how many were sent.
    pub fn send_to(&self, len: usize, addrs: &Vec<SocketAddr>) -> (fut: Result<
        IoUringFut,
        RequestError,
    >)
        ensures
            match fut {
                Ok(f) => addrs@.len() > 0 && sends_to(f, self.fd(), len, addrs@[0]@),
                Err(err) => addrs@.len() == 0 && err == RequestError::InvalidInput,
            },
    {
        if addrs.len() == 0 {
            Err(RequestError::InvalidInput)
        } else {
            Ok(socket_send_to(self.fd, len, &addrs[0]))
        }
    }

    /// The entry that closes this socket.
    pub fn drop(&mut self) -> (sqe: Sqe)
        ensures
            sqe == (Sqe { op: Op::Close { fd: old(self).fd() }, user_data: 0 }),
            *final(self) == *old(self),
    {
        socket_close(self.fd)
    }
}

/// What an address is seen as: its octets in their order, its port, and for an IPv6 address its
/// flow label and scope.
pub proof fn law_address_is_its_parts(v4: SocketAddrV4, v6: SocketAddrV6)
    ensures
        SocketAddr::V4(v4)@ matches SocketAddrView::V4 { ip, port } && ip == v4.ip@ && port
            == v4.port,
        SocketAddr::V6(v6)@ matches SocketAddrView::V6 { ip, port, flowinfo, scope_id } && {
            &&& ip == v6.ip@
            &&& port == v6.port
            &&& flowinfo == v6.flowinfo
            &&& scope_id == v6.scope_id
        },
{
}

/// Every IPv4 address is tried with the IPv4 socket, and every IPv6 address with the IPv6 socket;
/// the other one is the other one.
pub proof fn law_socket_goes_by_family(connect: TcpConnectView, addr: SocketAddr)
    ensures
        addr is V4 ==> connect.stream_of(addr) == connect.v4,
        addr is V6 ==> connect.stream_of(addr) == connect.v6,
        connect.attempts.addrs[connect.attempts.at] is V4 ==> connect.stream() == connect.v4
            && connect.other() == connect.v6,
        connect.attempts.addrs[connect.attempts.at] is V6 ==> connect.stream() == connect.v6
            && connect.other() == connect.v4,
{
}

/// A socket is connected only to addresses of its own family: the family in the bytes of a
/// connect is the domain in which its socket was created.
pub proof fn law_socket_is_of_the_family_of_its_address(
    connect: TcpConnectView,
    fut: IoUringFut,
    fd: i32,
)
    requires
        connect.stream() == Ok::<i32, OsError>(fd),
        connects(fut, fd, connect.attempts.current()@),
    ensures
        fut.entry().op is Connect,
        family_number(fut.entry().op->Connect_addr@, little_endian()) == 2 || family_number(
            fut.entry().op->Connect_addr@,
            little_endian(),
        ) == 10,
        family_number(fut.entry().op->Connect_addr@, little_endian()) == 2 ==> connect.v4 == Ok::<
            i32,
            OsError,
        >(fd),
        family_number(fut.entry().op->Connect_addr@, little_endian()) == 10 ==> connect.v6 == Ok::<
            i32,
            OsError,
        >(fd),
{
    match connect.attempts.current()@ {
        SocketAddrView::V4 { ip, port } => {
            law_layout_of_ipv4_address(ip, port, little_endian());
        },
        SocketAddrView::V6 { ip, port, flowinfo, scope_id } => {
            law_layout_of_ipv6_address(ip, port, flowinfo, scope_id, little_endian());
        },
    }
}

/// The addresses are tried from the first on, one after the other, until one can be connected to
/// or none is left: then the error is that of the last attempt.
pub proof fn law_addresses_are_tried_in_turn(
    addrs: Seq<SocketAddr>,
    at: int,
    outcome: Result<(), OsError>,
)
    requires
        0 <= at < addrs.len(),
    ensures
        ConnectView::started(addrs).addrs == addrs,
        ConnectView::started(addrs).at == 0,
        ({
            let connect = ConnectView { addrs, at };
            let after = connect.stepped(outcome);
            &&& connect.wf()
            &&& connect.current() == addrs[at]
            &&& after.addrs == addrs
            &&& connect.step(outcome) is Connected <==> outcome is Ok
            &&& connect.step(outcome) is Retry <==> outcome is Err && at < addrs.len() - 1
            &&& connect.step(outcome) matches ConnectStep::Failed(err) ==> outcome
                == Err::<(), OsError>(err)
            &&& after.at == if outcome is Err && at < addrs.len() - 1 {
                at + 1
            } else {
                at
            }
        }),
{
}

/// What closes a socket closes that one, and nobody waits for it. While addresses are tried no
/// socket is closed; once one is connected to, the socket of the other family is.
pub proof fn law_sockets_are_closed_when_due(connect: TcpConnectView, fd: i32, err: OsError)
    ensures
        closing(fd).op matches Op::Close { fd: f } && f == fd,
        closing(fd).user_data == 0,
        connect.closes(ConnectStep::Retry).len() == 0,
        connect.closes(ConnectStep::Connected).contains(closing(fd)) <==> connect.other() == Ok::<
            i32,
            OsError,
        >(fd),
        connect.closes(ConnectStep::Connected).len() <= 1,
        connect.closes(ConnectStep::Failed(err)).contains(closing(fd)) <==> connect.v4 == Ok::<
            i32,
            OsError,
        >(fd) || connect.v6 == Ok::<i32, OsError>(fd),
        connect.closes(ConnectStep::Failed(err)).len() == (if connect.v4 is Ok {
            1int
        } else {
            0int
        }) + (if connect.v6 is Ok {
            1int
        } else {
            0int
        }),
{
    let (v4, v6) = (closing_if_there(connect.v4), closing_if_there(connect.v6));
    let other = closing_if_there(connect.other());
    assert forall|a: i32, b: i32| #[trigger] closing(a) == #[trigger] closing(b) implies a == b by {
        assert(closing(a).op->Close_fd == a && closing(b).op->Close_fd == b);
    }
    if connect.other() == Ok::<i32, OsError>(fd) {
        assert(other[0] == closing(fd));
    }
    if connect.v4 == Ok::<i32, OsError>(fd) {
        assert((v4 + v6)[0] == closing(fd));
    }
    if connect.v6 == Ok::<i32, OsError>(fd) {
        assert((v4 + v6)[v4.len() as int] == closing(fd));
    }
}

} // verus!
