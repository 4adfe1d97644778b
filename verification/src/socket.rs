//! The transport over the two ICMP socket kinds.
//!
//! Both kinds honor a read timeout fixed at construction; its elapsing is
//! `WouldBlock`, never a hard error — callers treat it as "nothing arrived
//! yet".  The datagram kind needs no privilege; the kernel strips the IP
//! header on receive, so the sender address is recovered by peeking at the
//! queue head, and the TTL — which no portable read exposes — is reported as
//! a sentinel.  The raw kind needs privilege; whole IP datagrams arrive, and
//! the ICMP message, the sender and the true TTL are recovered here by
//! parsing the IP header, header-length field validated.

use crate::addr::Ipv4Address;
use crate::ping_error::PingError;
use crate::ping_fox::SocketType;
use crate::ttl::Ttl;
use vstd::prelude::*;

verus! {

#[verifier::external_type_specification]
#[verifier::external_body]
pub struct ExSocket2Socket(socket2::Socket);

/// What a socket operation can report.
#[derive(Debug, Eq, PartialEq)]
pub enum SocketError {
    /// Nothing arrived before the configured read timeout.
    WouldBlock,
    /// The operating system refused the operation.
    Failed(String),
}

impl SocketError {
    /// Turns a socket failure into the library's error; the timeout case
    /// keeps a fixed text, a refusal keeps the system's words.
    pub fn into_ping_error(self) -> (r: PingError)
        ensures
            self matches SocketError::Failed(m) ==> r.message == m,
            self matches SocketError::WouldBlock ==> r.message@ == "socket would block"@,
    {
        match self {
            SocketError::WouldBlock => PingError { message: "socket would block".to_owned() },
            SocketError::Failed(message) => PingError { message },
        }
    }
}

/// Relies on `socket2::Socket::new`: opens an IPv4 ICMP socket, raw when
/// `raw` says so, datagram otherwise.
#[verifier::external_body]
fn socket2_new_icmpv4(raw: bool) -> Result<socket2::Socket, SocketError> {
    let ty = if raw {
        socket2::Type::RAW
    } else {
        socket2::Type::DGRAM
    };
    match socket2::Socket::new(socket2::Domain::IPV4, ty, Some(socket2::Protocol::ICMPV4)) {
        Ok(s) => Ok(s),
        Err(e) => Err(SocketError::Failed(e.to_string())),
    }
}

/// Relies on `socket2::Socket::set_read_timeout`: after it succeeds, a read
/// that finds nothing returns within about `timeout_millis` milliseconds;
/// `0` stands for no timeout, and reads then block indefinitely.
#[verifier::external_body]
fn socket2_set_read_timeout(socket: &socket2::Socket, timeout_millis: u64) -> Result<
    (),
    SocketError,
> {
    match socket.set_read_timeout(Some(core::time::Duration::from_millis(timeout_millis))) {
        Ok(()) => Ok(()),
        Err(e) => Err(SocketError::Failed(e.to_string())),
    }
}

/// Relies on `socket2::Socket::send_to`: writes `buf` as one datagram to
/// `addr` (port 0) and returns how many bytes the system took.
#[verifier::external_body]
fn socket2_send_to(socket: &socket2::Socket, buf: &Vec<u8>, addr: Ipv4Address) -> Result<
    usize,
    SocketError,
> {
    let ip = core::net::Ipv4Addr::new(addr.o0, addr.o1, addr.o2, addr.o3);
    let sock_addr: socket2::SockAddr = core::net::SocketAddrV4::new(ip, 0).into();
    match socket.send_to(buf.as_slice(), &sock_addr) {
        Ok(n) => Ok(n),
        Err(e) => Err(SocketError::Failed(e.to_string())),
    }
}

/// Relies on `std::io::Read::read` for `&socket2::Socket`: reads one message
/// into the front of `buf` and returns how many bytes were filled, which its
/// documentation bounds by the buffer length; a `WouldBlock` or `TimedOut`
/// error kind is the read timeout elapsing.
#[verifier::external_body]
fn socket2_read(socket: &socket2::Socket, buf: &mut Vec<u8>) -> (r: Result<usize, SocketError>)
    ensures
        final(buf)@.len() == old(buf)@.len(),
        r matches Ok(n) ==> n <= final(buf)@.len(),
{
    let mut sock_ref: &socket2::Socket = socket;
    match std::io::Read::read(&mut sock_ref, buf.as_mut_slice()) {
        Ok(n) => Ok(n),
        Err(e) if e.kind() == std::io::ErrorKind::WouldBlock || e.kind()
            == std::io::ErrorKind::TimedOut => Err(SocketError::WouldBlock),
        Err(e) => Err(SocketError::Failed(e.to_string())),
    }
}

/// Relies on `socket2::Socket::peek_sender`: the source address of the
/// message at the head of the receive queue, left in place; `None` when the
/// sender is not an IPv4 address.  Honors the read timeout like a read.
#[verifier::external_body]
fn socket2_peek_sender(socket: &socket2::Socket) -> Result<Option<Ipv4Address>, SocketError> {
    match socket.peek_sender() {
        Ok(addr) => Ok(
            match addr.as_socket_ipv4() {
                Some(v4) => {
                    let o = v4.ip().octets();
                    Some(Ipv4Address { o0: o[0], o1: o[1], o2: o[2], o3: o[3] })
                },
                None => None,
            },
        ),
        Err(e) if e.kind() == std::io::ErrorKind::WouldBlock || e.kind()
            == std::io::ErrorKind::TimedOut => Err(SocketError::WouldBlock),
        Err(e) => Err(SocketError::Failed(e.to_string())),
    }
}

/// A buffer of `len` zero bytes.
pub(crate) fn zeroed_buffer(len: usize) -> (r: Vec<u8>)
    ensures
        r@.len() == len,
        forall|i: int| 0 <= i < len ==> r@[i] == 0u8,
{
    let mut buf: Vec<u8> = Vec::new();
    let mut i: usize = 0;
    while i < len
        invariant
            i <= len,
            buf@.len() == i,
            forall|j: int| 0 <= j < i ==> buf@[j] == 0u8,
        decreases len - i,
    {
        buf.push(0);
        i = i + 1;
    }
    buf
}

/// The capability interface both socket kinds implement.
pub trait TSocket: Sized {
    /// Sends `buf` as one ICMP message to `addr`; `Ok(n)` says the system
    /// took `n` bytes.
    fn send_to(&self, buf: &Vec<u8>, addr: Ipv4Address) -> Result<usize, SocketError>;

    /// Waits up to the configured read timeout for one ICMP message, fills
    /// the front of `buf` with it and reports how many bytes it held, who
    /// sent it, and its TTL.  `WouldBlock` is the timeout elapsing.
    /// Whatever happens, the buffer keeps its length, and a reported size
    /// never exceeds it.
    fn recv_from(&self, buf: &mut Vec<u8>) -> (r: Result<(usize, Ipv4Address, Ttl), SocketError>)
        ensures
            final(buf)@.len() == old(buf)@.len(),
            r matches Ok(t) ==> t.0 <= final(buf)@.len(),
    ;
}

/// The TTL a datagram-socket receive reports: the true hop count is only
/// recoverable through platform ancillary data, and the substitute for it is
/// a sentinel rather than a failure.
pub const SENTINEL_TTL: u8 = 64;

/// The unprivileged datagram ICMP socket.
pub struct DgramSocket {
    socket: socket2::Socket,
}

impl DgramSocket {
    /// Opens an unprivileged datagram ICMP socket whose reads time out after
    /// `timeout_millis` milliseconds.
    pub fn new(timeout_millis: u64) -> Result<DgramSocket, SocketError> {
        match socket2_new_icmpv4(false) {
            Err(e) => Err(e),
            Ok(socket) => match socket2_set_read_timeout(&socket, timeout_millis) {
                Err(e) => Err(e),
                Ok(()) => Ok(DgramSocket { socket }),
            },
        }
    }
}

impl TSocket for DgramSocket {
    fn send_to(&self, buf: &Vec<u8>, addr: Ipv4Address) -> Result<usize, SocketError> {
        socket2_send_to(&self.socket, buf, addr)
    }

    /// Every datagram-socket reply carries the sentinel TTL, the spec's
    /// substitute where ancillary TTL data is unavailable.
    fn recv_from(&self, buf: &mut Vec<u8>) -> (r: Result<(usize, Ipv4Address, Ttl), SocketError>)
        ensures
            r matches Ok(t) ==> t.2 == Ttl(SENTINEL_TTL),
    {
        match socket2_peek_sender(&self.socket) {
            Err(e) => Err(e),
            Ok(None) => Err(
                SocketError::Failed("sender of the queued message was not IPv4".to_owned()),
            ),
            Ok(Some(addr)) => match socket2_read(&self.socket, buf) {
                Err(e) => Err(e),
                Ok(n) => Ok((n, addr, Ttl(SENTINEL_TTL))),
            },
        }
    }
}

/// How many bytes the IPv4 header-length field says the header takes.
pub open spec fn spec_ihl_bytes(d: Seq<u8>) -> int {
    (d[0] & 0x0F) * 4
}

/// A well-formed IPv4 header for our purposes: the datagram holds at least a
/// minimal header, and the header-length field stays within the datagram.
pub open spec fn spec_ipv4_header_ok(d: Seq<u8>) -> bool {
    &&& d.len() >= 20
    &&& 20 <= spec_ihl_bytes(d)
    &&& spec_ihl_bytes(d) <= d.len()
}

/// The source address an IPv4 header names, at bytes 12 to 15.
pub open spec fn spec_ipv4_source(d: Seq<u8>) -> Ipv4Address {
    Ipv4Address { o0: d[12], o1: d[13], o2: d[14], o3: d[15] }
}

/// Validates the IPv4 header of the first `n` bytes of `datagram` and copies
/// the carried payload — the ICMP message — into the front of `out`,
/// reporting its length, the datagram's source address, and the TTL at
/// header byte 8.
///
/// Succeeds exactly when the header is well formed and the payload fits in
/// `out`; on failure, `out` is untouched.
pub fn extract_icmp_from_ipv4(datagram: &Vec<u8>, n: usize, out: &mut Vec<u8>) -> (r: Result<
    (usize, Ipv4Address, Ttl),
    SocketError,
>)
    requires
        n <= datagram@.len(),
    ensures
        final(out)@.len() == old(out)@.len(),
        ({
            let d = datagram@.take(n as int);
            &&& (r is Ok <==> spec_ipv4_header_ok(d) && n - spec_ihl_bytes(d) <= old(out)@.len())
            &&& (r matches Ok(t) ==> {
                let len = n - spec_ihl_bytes(d);
                &&& t.0 == len
                &&& t.1 == spec_ipv4_source(d)
                &&& t.2.0 == d[8]
                &&& (forall|j: int| 0 <= j < len ==> final(out)@[j] == d[spec_ihl_bytes(d) + j])
                &&& (forall|j: int|
                    len <= j < old(out)@.len() ==> final(out)@[j] == old(out)@[j])
            })
            &&& (r is Err ==> final(out)@ == old(out)@)
        }),
{
    let ghost d = datagram@.take(n as int);
    if n < 20 {
        return Err(SocketError::Failed("datagram shorter than an IPv4 header".to_owned()));
    }
    let ihl = (datagram[0] & 0x0F) as usize * 4;
    assert(ihl == spec_ihl_bytes(d));
    if ihl < 20 || ihl > n {
        return Err(SocketError::Failed("IPv4 header length field out of range".to_owned()));
    }
    let payload_len = n - ihl;
    if payload_len > out.len() {
        return Err(SocketError::Failed("receive buffer too small".to_owned()));
    }
    let ttl = Ttl(datagram[8]);
    let source = Ipv4Address::new(datagram[12], datagram[13], datagram[14], datagram[15]);
    let mut i: usize = 0;
    while i < payload_len
        invariant
            i <= payload_len,
            payload_len == n - ihl,
            ihl + payload_len <= n <= datagram@.len(),
            payload_len <= out@.len(),
            out@.len() == old(out)@.len(),
            forall|j: int| 0 <= j < i ==> out@[j] == datagram@[ihl + j],
            forall|j: int| i <= j < old(out)@.len() ==> out@[j] == old(out)@[j],
        decreases payload_len - i,
    {
        let byte = datagram[ihl + i];
        out.set(i, byte);
        i = i + 1;
    }
    assert(forall|j: int|
        0 <= j < payload_len ==> d[spec_ihl_bytes(d) + j] == #[trigger] datagram@[ihl + j]);
    Ok((payload_len, source, ttl))
}

/// The privileged raw ICMP socket.
pub struct RawSocket {
    socket: socket2::Socket,
}

impl RawSocket {
    /// Opens a privileged raw ICMP socket whose reads time out after
    /// `timeout_millis` milliseconds.
    pub fn new(timeout_millis: u64) -> Result<RawSocket, SocketError> {
        match socket2_new_icmpv4(true) {
            Err(e) => Err(e),
            Ok(socket) => match socket2_set_read_timeout(&socket, timeout_millis) {
                Err(e) => Err(e),
                Ok(()) => Ok(RawSocket { socket }),
            },
        }
    }
}

impl TSocket for RawSocket {
    fn send_to(&self, buf: &Vec<u8>, addr: Ipv4Address) -> Result<usize, SocketError> {
        socket2_send_to(&self.socket, buf, addr)
    }

    fn recv_from(&self, buf: &mut Vec<u8>) -> Result<(usize, Ipv4Address, Ttl), SocketError> {
        // On a raw socket a whole IP datagram arrives.
        let mut recv_buf = zeroed_buffer(256);
        match socket2_read(&self.socket, &mut recv_buf) {
            Err(e) => Err(e),
            Ok(n) => extract_icmp_from_ipv4(&recv_buf, n, buf),
        }
    }
}

/// The two socket kinds behind one type, selected once at construction and
/// never re-branched per call.
pub enum IcmpSocket {
    /// The privileged raw socket.
    Raw(RawSocket),
    /// The unprivileged datagram socket.
    Dgram(DgramSocket),
}

impl IcmpSocket {
    /// Opens a socket of the requested kind whose reads time out after
    /// `timeout_millis` milliseconds.
    pub fn new(socket_type: SocketType, timeout_millis: u64) -> (r: Result<
        IcmpSocket,
        SocketError,
    >)
        ensures
            r matches Ok(s) ==> (s is Raw <==> socket_type == SocketType::RAW),
            r matches Ok(s) ==> (s is Dgram <==> socket_type == SocketType::DGRAM),
    {
        match socket_type {
            SocketType::DGRAM => match DgramSocket::new(timeout_millis) {
                Ok(s) => Ok(IcmpSocket::Dgram(s)),
                Err(e) => Err(e),
            },
            SocketType::RAW => match RawSocket::new(timeout_millis) {
                Ok(s) => Ok(IcmpSocket::Raw(s)),
                Err(e) => Err(e),
            },
        }
    }
}

impl TSocket for IcmpSocket {
    fn send_to(&self, buf: &Vec<u8>, addr: Ipv4Address) -> Result<usize, SocketError> {
        match self {
            IcmpSocket::Dgram(socket) => socket.send_to(buf, addr),
            IcmpSocket::Raw(socket) => socket.send_to(buf, addr),
        }
    }

    fn recv_from(&self, buf: &mut Vec<u8>) -> Result<(usize, Ipv4Address, Ttl), SocketError> {
        match self {
            IcmpSocket::Dgram(socket) => socket.recv_from(buf),
            IcmpSocket::Raw(socket) => socket.recv_from(buf),
        }
    }
}

} // verus!
