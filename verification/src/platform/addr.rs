//! Socket addresses as the kernel has them in memory: `sockaddr_in` and `sockaddr_in6`.
use vstd::endian::{endianness, Endian};
use vstd::prelude::*;

use super::sys::{af_inet, af_inet6};
use crate::net::{SocketAddr, SocketAddrV4, SocketAddrV6, SocketAddrView};

verus! {

/// The size of the largest address that is expected, a `sockaddr_in6`.
pub const MAX_LIBC_SOCKADDR_SIZE: usize = 28;

/// The family of IPv4 addresses.
pub open spec fn inet() -> u16 {
    2
}

/// The family of IPv6 addresses.
pub open spec fn inet6() -> u16 {
    10
}

/// A number in network byte order.
pub open spec fn be16(n: u16) -> Seq<u8> {
    seq![(n / 256) as u8, (n % 256) as u8]
}

/// The number that two bytes in network byte order stand for.
pub open spec fn from_be16(b: Seq<u8>) -> u16 {
    (b[0] * 256 + b[1]) as u16
}

/// A number in network byte order.
pub open spec fn be32(n: u32) -> Seq<u8> {
    seq![
        (n / 0x100_0000) as u8,
        (n / 0x1_0000 % 256) as u8,
        (n / 256 % 256) as u8,
        (n % 256) as u8,
    ]
}

/// The number that four bytes in network byte order stand for.
pub open spec fn from_be32(b: Seq<u8>) -> u32 {
    (b[0] * 0x100_0000 + b[1] * 0x1_0000 + b[2] * 256 + b[3]) as u32
}

/// A number in the byte order of a machine: little endian or not.
pub open spec fn ne16(n: u16, little: bool) -> Seq<u8> {
    if little {
        seq![(n % 256) as u8, (n / 256) as u8]
    } else {
        be16(n)
    }
}

/// The number that two bytes stand for in the byte order of a machine.
pub open spec fn from_ne16(b: Seq<u8>, little: bool) -> u16 {
    if little {
        (b[1] * 256 + b[0]) as u16
    } else {
        from_be16(b)
    }
}

/// An address in the memory of a machine. The family is in the machine's byte order and the
/// other numbers are in network byte order; what an address leaves of the buffer is zero.
pub open spec fn encoded(addr: SocketAddrView, little: bool) -> Seq<u8> {
    match addr {
        SocketAddrView::V4 { ip, port } => ne16(inet(), little) + be16(port) + ip + Seq::new(
            20,
            |i: int| 0u8,
        ),
        SocketAddrView::V6 { ip, port, flowinfo, scope_id } => ne16(inet6(), little) + be16(port)
            + be32(flowinfo) + ip + be32(scope_id),
    }
}

/// The bytes hold an address whose family is known.
pub open spec fn has_known_family(bytes: Seq<u8>, little: bool) -> bool {
    let family = from_ne16(bytes.subrange(0, 2), little);
    family == inet() || family == inet6()
}

/// The address that bytes in the memory of a machine hold.
pub open spec fn decoded(bytes: Seq<u8>, little: bool) -> SocketAddrView {
    let port = from_be16(bytes.subrange(2, 4));
    if from_ne16(bytes.subrange(0, 2), little) == inet() {
        SocketAddrView::V4 { ip: bytes.subrange(4, 8), port }
    } else {
        SocketAddrView::V6 {
            ip: bytes.subrange(8, 24),
            port,
            flowinfo: from_be32(bytes.subrange(4, 8)),
            scope_id: from_be32(bytes.subrange(24, 28)),
        }
    }
}

/// Whether this machine is little endian. Nothing says which it is, only that it does not
/// change.
pub open spec fn little_endian() -> bool {
    endianness() == Endian::Little
}

/// The bytes are those of the address in the memory of this machine.
pub open spec fn is_sockaddr(bytes: Seq<u8>, addr: SocketAddrView) -> bool {
    bytes == encoded(addr, little_endian())
}

/// `u16::to_ne_bytes`: the number in the byte order of this machine, which is the
/// [`endianness`] of vstd.
#[verifier::external_body]
fn u16_to_ne_bytes(n: u16) -> (bytes: [u8; 2])
    ensures
        bytes@ == ne16(n, little_endian()),
{
    n.to_ne_bytes()
}

/// Whether this machine is little endian.
fn is_little_endian() -> (little: bool)
    ensures
        little == little_endian(),
{
    u16_to_ne_bytes(1)[0] == 1
}

fn put_be32(buf: &mut [u8; MAX_LIBC_SOCKADDR_SIZE], at: usize, n: u32)
    requires
        at + 4 <= MAX_LIBC_SOCKADDR_SIZE,
    ensures
        forall|i: int|
            0 <= i < MAX_LIBC_SOCKADDR_SIZE ==> #[trigger] final(buf)@[i] == (if at <= i < at + 4 {
                be32(n)[i - at]
            } else {
                old(buf)@[i]
            }),
{
    buf[at] = (n / 0x100_0000) as u8;
    buf[at + 1] = (n / 0x1_0000 % 256) as u8;
    buf[at + 2] = (n / 256 % 256) as u8;
    buf[at + 3] = (n % 256) as u8;
}

/// The address in the memory of a machine of the given byte order.
pub fn encode_addr(addr: &SocketAddr, little: bool) -> (buf: [u8; MAX_LIBC_SOCKADDR_SIZE])
    ensures
        buf@ == encoded(addr@, little),
{
    let mut buf: [u8; MAX_LIBC_SOCKADDR_SIZE] = [0u8; MAX_LIBC_SOCKADDR_SIZE];
    let (family, port): (u16, u16) = match addr {
        SocketAddr::V4(addr) => (af_inet() as u16, addr.port),
        SocketAddr::V6(addr) => (af_inet6() as u16, addr.port),
    };

    if little {
        buf[0] = (family % 256) as u8;
        buf[1] = (family / 256) as u8;
    } else {
        buf[0] = (family / 256) as u8;
        buf[1] = (family % 256) as u8;
    }
    buf[2] = (port / 256) as u8;
    buf[3] = (port % 256) as u8;

    match addr {
        SocketAddr::V4(addr) => {
            let mut i: usize = 0;
            let ghost head = buf@;
            while i < 4
                invariant
                    i <= 4,
                    head.len() == MAX_LIBC_SOCKADDR_SIZE,
                    forall|j: int|
                        0 <= j < MAX_LIBC_SOCKADDR_SIZE ==> #[trigger] buf@[j] == (if 4 <= j < 4
                            + i {
                            addr.ip@[j - 4]
                        } else {
                            head[j]
                        }),
                decreases 4 - i,
            {
                buf[4 + i] = addr.ip[i];
                i = i + 1;
            }
        },
        SocketAddr::V6(addr) => {
            put_be32(&mut buf, 4, addr.flowinfo);
            let mut i: usize = 0;
            let ghost head = buf@;
            while i < 16
                invariant
                    i <= 16,
                    head.len() == MAX_LIBC_SOCKADDR_SIZE,
                    forall|j: int|
                        0 <= j < MAX_LIBC_SOCKADDR_SIZE ==> #[trigger] buf@[j] == (if 8 <= j < 8
                            + i {
                            addr.ip@[j - 8]
                        } else {
                            head[j]
                        }),
                decreases 16 - i,
            {
                buf[8 + i] = addr.ip[i];
                i = i + 1;
            }
            put_be32(&mut buf, 24, addr.scope_id);
        },
    }

    assert(buf@ =~= encoded(addr@, little));
    buf
}

fn get_be32(buf: &[u8; MAX_LIBC_SOCKADDR_SIZE], at: usize) -> (n: u32)
    requires
        at + 4 <= MAX_LIBC_SOCKADDR_SIZE,
    ensures
        n == from_be32(buf@.subrange(at as int, at + 4)),
{
    buf[at] as u32 * 0x100_0000 + buf[at + 1] as u32 * 0x1_0000 + buf[at + 2] as u32 * 256 + buf[at
        + 3] as u32
}

/// Whether the bytes hold an address whose family is known, on a machine of the given byte
/// order.
pub fn known_family(buf: &[u8; MAX_LIBC_SOCKADDR_SIZE], little: bool) -> (known: bool)
    ensures
        known == has_known_family(buf@, little),
{
    let family = get_family(buf, little);
    family == af_inet() as u16 || family == af_inet6() as u16
}

fn get_family(buf: &[u8; MAX_LIBC_SOCKADDR_SIZE], little: bool) -> (family: u16)
    ensures
        family == from_ne16(buf@.subrange(0, 2), little),
{
    if little {
        buf[1] as u16 * 256 + buf[0] as u16
    } else {
        buf[0] as u16 * 256 + buf[1] as u16
    }
}

/// The address that bytes in the memory of a machine of the given byte order hold.
pub fn decode_addr(buf: &[u8; MAX_LIBC_SOCKADDR_SIZE], little: bool) -> (addr: SocketAddr)
    requires
        has_known_family(buf@, little),
    ensures
        addr@ == decoded(buf@, little),
{
    let port: u16 = buf[2] as u16 * 256 + buf[3] as u16;
    if get_family(buf, little) == af_inet() as u16 {
        let ip: [u8; 4] = [buf[4], buf[5], buf[6], buf[7]];
        assert(ip@ =~= buf@.subrange(4, 8));
        SocketAddr::V4(SocketAddrV4 { ip, port })
    } else {
        let ip: [u8; 16] = [
            buf[8], buf[9], buf[10], buf[11], buf[12], buf[13], buf[14], buf[15], buf[16],
            buf[17], buf[18], buf[19], buf[20], buf[21], buf[22], buf[23],
        ];
        assert(ip@ =~= buf@.subrange(8, 24));
        SocketAddr::V6(
            SocketAddrV6 { ip, port, flowinfo: get_be32(buf, 4), scope_id: get_be32(buf, 24) },
        )
    }
}

/// The address in the memory of this machine.
pub fn std_addr_to_libc(addr: &SocketAddr) -> (buf: [u8; MAX_LIBC_SOCKADDR_SIZE])
    ensures
        is_sockaddr(buf@, addr@),
{
    encode_addr(addr, is_little_endian())
}

/// Whether the bytes hold an address whose family is known, in the memory of this machine.
pub fn is_known(buf: &[u8; MAX_LIBC_SOCKADDR_SIZE]) -> (known: bool)
    ensures
        known == is_readable(buf@),
{
    known_family(buf, is_little_endian())
}

/// The address that bytes in the memory of this machine hold. Its family must be known.
pub fn libc_addr_to_std(buf: &[u8; MAX_LIBC_SOCKADDR_SIZE]) -> (addr: SocketAddr)
    requires
        is_readable(buf@),
    ensures
        is_reading(buf@, addr),
{
    decode_addr(buf, is_little_endian())
}

/// In the memory of this machine the bytes hold an address whose family is known.
pub open spec fn is_readable(bytes: Seq<u8>) -> bool {
    has_known_family(bytes, little_endian())
}

/// This is the address that the bytes hold in the memory of this machine.
pub open spec fn is_reading(bytes: Seq<u8>, addr: SocketAddr) -> bool {
    addr@ == decoded(bytes, little_endian())
}

proof fn lemma_be16(n: u16)
    ensures
        from_be16(be16(n)) == n,
{
}

proof fn lemma_be32(n: u32)
    ensures
        from_be32(be32(n)) == n,
{
    let (a, b, c, d) = (n / 0x100_0000, n / 0x1_0000 % 256, n / 256 % 256, n % 256);
    assert(a < 256 && a * 0x100_0000 + b * 0x1_0000 + c * 256 + d == n) by (bit_vector)
        requires
            a == n / 0x100_0000,
            b == n / 0x1_0000 % 256,
            c == n / 256 % 256,
            d == n % 256,
    ;
}

/// An address that is written into memory is read back from it, on a machine of either byte
/// order. It fills the buffer.
pub proof fn law_written_address_is_read_back(addr: SocketAddrView, little: bool)
    requires
        addr.wf(),
    ensures
        encoded(addr, little).len() == MAX_LIBC_SOCKADDR_SIZE,
        has_known_family(encoded(addr, little), little),
        decoded(encoded(addr, little), little) == addr,
{
    let bytes = encoded(addr, little);
    match addr {
        SocketAddrView::V4 { ip, port } => {
            lemma_be16(port);
            assert(bytes.subrange(0, 2) =~= ne16(inet(), little));
            assert(bytes.subrange(2, 4) =~= be16(port));
            assert(bytes.subrange(4, 8) =~= ip);
        },
        SocketAddrView::V6 { ip, port, flowinfo, scope_id } => {
            lemma_be16(port);
            lemma_be32(flowinfo);
            lemma_be32(scope_id);
            assert(bytes.subrange(0, 2) =~= ne16(inet6(), little));
            assert(bytes.subrange(2, 4) =~= be16(port));
            assert(bytes.subrange(4, 8) =~= be32(flowinfo));
            assert(bytes.subrange(8, 24) =~= ip);
            assert(bytes.subrange(24, 28) =~= be32(scope_id));
        },
    }
}

/// The bytes into which an address is written on this machine can be read there, and as that
/// address only.
pub proof fn law_sockaddr_is_read_back(bytes: Seq<u8>, addr: SocketAddrView, read: SocketAddr)
    requires
        addr.wf(),
        is_sockaddr(bytes, addr),
    ensures
        is_readable(bytes),
        is_reading(bytes, read) <==> read@ == addr,
{
    law_written_address_is_read_back(addr, little_endian());
}

/// Different addresses have different bytes, on a machine of either byte order.
pub proof fn law_bytes_tell_addresses_apart(a: SocketAddrView, b: SocketAddrView, little: bool)
    requires
        a.wf(),
        b.wf(),
        encoded(a, little) == encoded(b, little),
    ensures
        a == b,
{
    law_written_address_is_read_back(a, little);
    law_written_address_is_read_back(b, little);
}

/// The number in the first two bytes, in the byte order of a machine.
pub open spec fn family_number(bytes: Seq<u8>, little: bool) -> int {
    if little {
        bytes[0] + 256 * bytes[1]
    } else {
        256 * bytes[0] + bytes[1]
    }
}

/// The number in the four bytes from `at` on, the highest first.
pub open spec fn number_at(bytes: Seq<u8>, at: int) -> int {
    0x100_0000 * bytes[at] + 0x1_0000 * bytes[at + 1] + 256 * bytes[at + 2] + bytes[at + 3]
}

proof fn lemma_number_of_be32(n: u32)
    ensures
        be32(n).len() == 4,
        number_at(be32(n), 0) == n,
{
    let (a, b, c, d) = (n / 0x100_0000, n / 0x1_0000 % 256, n / 256 % 256, n % 256);
    assert(a < 256 && a * 0x100_0000 + b * 0x1_0000 + c * 256 + d == n) by (bit_vector)
        requires
            a == n / 0x100_0000,
            b == n / 0x1_0000 % 256,
            c == n / 256 % 256,
            d == n % 256,
    ;
}

/// A `sockaddr_in`, byte by byte: the family `AF_INET` in the byte order of the machine, the port
/// with its high byte first, the four octets of the address in their order, and zeros.
pub proof fn law_layout_of_ipv4_address(ip: Seq<u8>, port: u16, little: bool)
    requires
        ip.len() == 4,
    ensures
        ({
            let bytes = encoded(SocketAddrView::V4 { ip, port }, little);
            &&& bytes.len() == 28
            &&& family_number(bytes, little) == 2
            &&& 256 * bytes[2] + bytes[3] == port
            &&& bytes.subrange(4, 8) == ip
            &&& forall|i: int| 8 <= i < 28 ==> #[trigger] bytes[i] == 0
        }),
{
    let bytes = encoded(SocketAddrView::V4 { ip, port }, little);
    assert(bytes.subrange(4, 8) =~= ip);
}

/// A `sockaddr_in6`, byte by byte: the family `AF_INET6` in the byte order of the machine, the
/// port and the flow label with the high byte first, the sixteen octets of the address in their
/// order, and the scope with its high byte first.
pub proof fn law_layout_of_ipv6_address(
    ip: Seq<u8>,
    port: u16,
    flowinfo: u32,
    scope_id: u32,
    little: bool,
)
    requires
        ip.len() == 16,
    ensures
        ({
            let bytes = encoded(SocketAddrView::V6 { ip, port, flowinfo, scope_id }, little);
            &&& bytes.len() == 28
            &&& family_number(bytes, little) == 10
            &&& 256 * bytes[2] + bytes[3] == port
            &&& number_at(bytes, 4) == flowinfo
            &&& bytes.subrange(8, 24) == ip
            &&& number_at(bytes, 24) == scope_id
        }),
{
    let bytes = encoded(SocketAddrView::V6 { ip, port, flowinfo, scope_id }, little);
    lemma_number_of_be32(flowinfo);
    lemma_number_of_be32(scope_id);
    assert forall|i: int| 0 <= i < 4 implies bytes[4 + i] == #[trigger] be32(flowinfo)[i] by {}
    assert forall|i: int| 0 <= i < 4 implies bytes[24 + i] == #[trigger] be32(scope_id)[i] by {}
    assert(bytes.subrange(8, 24) =~= ip);
}

/// How any buffer is read, byte by byte: by its family, which must be `AF_INET` or `AF_INET6`, as
/// an IPv4 or an IPv6 address, whose parts are taken from where they stand.
pub proof fn law_bytes_are_read_where_they_stand(bytes: Seq<u8>, little: bool)
    requires
        bytes.len() == MAX_LIBC_SOCKADDR_SIZE,
    ensures
        has_known_family(bytes, little) <==> family_number(bytes, little) == 2 || family_number(
            bytes,
            little,
        ) == 10,
        has_known_family(bytes, little) ==> match decoded(bytes, little) {
            SocketAddrView::V4 { ip, port } => {
                &&& family_number(bytes, little) == 2
                &&& port == 256 * bytes[2] + bytes[3]
                &&& ip == bytes.subrange(4, 8)
            },
            SocketAddrView::V6 { ip, port, flowinfo, scope_id } => {
                &&& family_number(bytes, little) == 10
                &&& port == 256 * bytes[2] + bytes[3]
                &&& flowinfo == number_at(bytes, 4)
                &&& ip == bytes.subrange(8, 24)
                &&& scope_id == number_at(bytes, 24)
            },
        },
{
    let (family, port) = (bytes.subrange(0, 2), bytes.subrange(2, 4));
    let (flowinfo, scope_id) = (bytes.subrange(4, 8), bytes.subrange(24, 28));
    assert(family[0] == bytes[0] && family[1] == bytes[1]);
    assert(port[0] == bytes[2] && port[1] == bytes[3]);
    assert(number_at(flowinfo, 0) == number_at(bytes, 4));
    assert(number_at(scope_id, 0) == number_at(bytes, 24));
}

/// The kernel and this machine agree: addresses are written and read in the byte order of this
/// machine.
pub proof fn law_addresses_are_those_of_this_machine(
    bytes: Seq<u8>,
    addr: SocketAddrView,
    read: SocketAddr,
)
    ensures
        little_endian() <==> endianness() == Endian::Little,
        is_sockaddr(bytes, addr) <==> bytes == encoded(addr, endianness() == Endian::Little),
        is_readable(bytes) <==> has_known_family(bytes, endianness() == Endian::Little),
        is_reading(bytes, read) <==> read@ == decoded(bytes, endianness() == Endian::Little),
{
}

} // verus!
