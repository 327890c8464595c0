//! The SOCKS5 wire format: client greeting, client request and server reply.
use vstd::prelude::*;
use crate::bytes::copy_range;

verus! {

/// The protocol version byte that opens every SOCKS5 message.
pub const SOCKS_VERSION: u8 = 5;
/// The "no authentication required" method.
pub const METHOD_NO_AUTH: u8 = 0;
/// The method byte that tells the client none of its methods is acceptable.
pub const METHOD_NONE_ACCEPTABLE: u8 = 0xff;

/// What the bytes received so far hold of a client greeting
/// (`VER NMETHODS METHODS...`).
#[derive(Clone, Debug, PartialEq, Eq)]
pub enum Greeting {
    /// More bytes are needed.
    Incomplete,
    /// The first byte is not the SOCKS5 version.
    BadVersion,
    /// A whole greeting of `len` bytes; `no_auth` tells whether it offers
    /// the no-authentication method.
    Complete { no_auth: bool, size: usize },
}

/// The length of the greeting that `b` starts with (needs two bytes).
pub open spec fn greeting_len(b: Seq<u8>) -> int {
    2 + b[1]
}

/// The greeting at the start of `b` lists method `m`.
pub open spec fn greeting_offers(b: Seq<u8>, m: u8) -> bool {
    exists|i: int| 2 <= i < greeting_len(b) && b[i] == m
}

/// `b` holds a whole greeting with the right version.
pub open spec fn greeting_complete(b: Seq<u8>) -> bool {
    b.len() >= 2 && b[0] == SOCKS_VERSION && b.len() >= greeting_len(b)
}

/// Reads the greeting at the start of `b`.
pub fn parse_greeting(b: &[u8]) -> (r: Greeting)
    ensures
        r is Incomplete <==> (b@.len() == 0 || (b@[0] == SOCKS_VERSION && !greeting_complete(
            b@,
        ))),
        r is BadVersion <==> (b@.len() > 0 && b@[0] != SOCKS_VERSION),
        r is Complete <==> greeting_complete(b@),
        r is Complete ==> r->size == greeting_len(b@) && r->no_auth == greeting_offers(
            b@,
            METHOD_NO_AUTH,
        ),
{
    if b.len() == 0 {
        return Greeting::Incomplete;
    }
    if b[0] != SOCKS_VERSION {
        return Greeting::BadVersion;
    }
    if b.len() < 2 {
        return Greeting::Incomplete;
    }
    let len: usize = 2 + b[1] as usize;
    if b.len() < len {
        return Greeting::Incomplete;
    }
    let mut i: usize = 2;
    while i < len
        invariant
            2 <= i <= len == greeting_len(b@) <= b@.len(),
            b@[0] == SOCKS_VERSION,
            forall|j: int| 2 <= j < i ==> b@[j] != METHOD_NO_AUTH,
        decreases len - i,
    {
        if b[i] == METHOD_NO_AUTH {
            proof {
                assert(greeting_offers(b@, METHOD_NO_AUTH)) by {
                    assert(b@[i as int] == METHOD_NO_AUTH);
                }
            }
            return Greeting::Complete { no_auth: true, size: len };
        }
        i = i + 1;
    }
    Greeting::Complete { no_auth: false, size: len }
}

/// The server's answer to a greeting: the no-authentication method when it
/// was offered, else "no acceptable method".
pub open spec fn method_reply_spec(no_auth: bool) -> Seq<u8> {
    seq![SOCKS_VERSION, if no_auth { METHOD_NO_AUTH } else { METHOD_NONE_ACCEPTABLE }]
}

/// Encodes the method-selection message.
pub fn method_reply(no_auth: bool) -> (r: Vec<u8>)
    ensures
        r@ == method_reply_spec(no_auth),
{
    let m: u8 = if no_auth { METHOD_NO_AUTH } else { METHOD_NONE_ACCEPTABLE };
    let r: Vec<u8> = vec![SOCKS_VERSION, m];
    proof {
        assert(r@ =~= method_reply_spec(no_auth));
    }
    r
}

/// The CONNECT command, the only one this server carries out.
pub const CMD_CONNECT: u8 = 1;
/// Address type: four bytes of IPv4 address.
pub const ATYP_IPV4: u8 = 1;
/// Address type: a length byte, then that many bytes of domain name.
pub const ATYP_DOMAIN: u8 = 3;
/// Address type: sixteen bytes of IPv6 address.
pub const ATYP_IPV6: u8 = 4;

/// Reply code: the request succeeded.
pub const REPLY_SUCCEEDED: u8 = 0;
/// Reply code: general server failure.
pub const REPLY_GENERAL_FAILURE: u8 = 1;
/// Reply code: the network is unreachable.
pub const REPLY_NETWORK_UNREACHABLE: u8 = 3;
/// Reply code: the host is unreachable.
pub const REPLY_HOST_UNREACHABLE: u8 = 4;
/// Reply code: the destination refused the connection.
pub const REPLY_CONNECTION_REFUSED: u8 = 5;
/// Reply code: the command is not supported.
pub const REPLY_COMMAND_NOT_SUPPORTED: u8 = 7;
/// Reply code: the address type is not supported.
pub const REPLY_ADDRESS_NOT_SUPPORTED: u8 = 8;

/// A host as SOCKS5 names it.
#[derive(Clone, Debug, PartialEq, Eq)]
pub enum Host {
    /// Four address bytes.
    Ipv4(Vec<u8>),
    /// The bytes of a domain name, still to be resolved.
    Domain(Vec<u8>),
    /// Sixteen address bytes.
    Ipv6(Vec<u8>),
}

impl Host {
    /// The host can be written in the wire format.
    pub open spec fn wf(&self) -> bool {
        match self {
            Host::Ipv4(a) => a@.len() == 4,
            Host::Domain(n) => n@.len() <= 255,
            Host::Ipv6(a) => a@.len() == 16,
        }
    }
}

/// A host and a port.
#[derive(Clone, Debug, PartialEq, Eq)]
pub struct Destination {
    pub host: Host,
    pub port: u16,
}

impl Destination {
    pub open spec fn wf(&self) -> bool {
        self.host.wf()
    }
}

/// The wire form of a host: `ATYP` followed by the address field.
pub open spec fn host_bytes(h: Host) -> Seq<u8> {
    match h {
        Host::Ipv4(a) => seq![ATYP_IPV4] + a@,
        Host::Domain(n) => seq![ATYP_DOMAIN, n@.len() as u8] + n@,
        Host::Ipv6(a) => seq![ATYP_IPV6] + a@,
    }
}

/// The wire form of a port: two bytes, most significant first.
pub open spec fn port_bytes(p: u16) -> Seq<u8> {
    seq![(p / 256) as u8, (p % 256) as u8]
}

/// The address types that this server reads.
pub open spec fn known_address_type(t: u8) -> bool {
    t == ATYP_IPV4 || t == ATYP_DOMAIN || t == ATYP_IPV6
}

/// `b` holds enough of a request to tell its length.
pub open spec fn request_header_ready(b: Seq<u8>) -> bool {
    b.len() >= 4 && (b[3] != ATYP_DOMAIN || b.len() >= 5)
}

/// The length of the address field of the request that `b` starts with,
/// `ATYP` not counted.
pub open spec fn address_len(b: Seq<u8>) -> int {
    if b[3] == ATYP_IPV4 {
        4
    } else if b[3] == ATYP_IPV6 {
        16
    } else {
        1 + b[4]
    }
}

/// The length of the request that `b` starts with
/// (`VER CMD RSV ATYP ADDR PORT`).
pub open spec fn request_len(b: Seq<u8>) -> int {
    4 + address_len(b) + 2
}

/// The request at the start of `b` has the wrong version.
pub open spec fn request_bad_version(b: Seq<u8>) -> bool {
    b.len() > 0 && b[0] != SOCKS_VERSION
}

/// The request at the start of `b` names an address type this server
/// cannot read, so that its length is unknown.
pub open spec fn request_unknown_address(b: Seq<u8>) -> bool {
    b.len() >= 4 && b[0] == SOCKS_VERSION && !known_address_type(b[3])
}

/// `b` holds a whole request that this server can read.
pub open spec fn request_complete(b: Seq<u8>) -> bool {
    b.len() > 0 && b[0] == SOCKS_VERSION && request_header_ready(b) && known_address_type(b[3])
        && b.len() >= request_len(b)
}

/// The port of the whole request at the start of `b`.
pub open spec fn request_port(b: Seq<u8>) -> int {
    b[request_len(b) - 2] * 256 + b[request_len(b) - 1]
}

/// What the bytes received so far hold of a client request.
#[derive(Clone, Debug, PartialEq, Eq)]
pub enum Request {
    /// More bytes are needed.
    Incomplete,
    /// The first byte is not the SOCKS5 version.
    BadVersion,
    /// The address type is not one of IPv4, domain name, IPv6.
    UnsupportedAddress,
    /// A whole request of `size` bytes.
    Complete { command: u8, dest: Destination, size: usize },
}

/// Reads the request at the start of `b`.
pub fn parse_request(b: &[u8]) -> (r: Request)
    ensures
        r is BadVersion <==> request_bad_version(b@),
        r is UnsupportedAddress <==> request_unknown_address(b@),
        r is Complete <==> request_complete(b@),
        r is Incomplete <==> !(request_bad_version(b@) || request_unknown_address(b@)
            || request_complete(b@)),
        r is Complete ==> {
            &&& r->size == request_len(b@)
            &&& r->command == b@[1]
            &&& r->dest.wf()
            &&& host_bytes(r->dest.host) == b@.subrange(3, request_len(b@) - 2)
            &&& r->dest.port == request_port(b@)
        },
{
    if b.len() == 0 {
        return Request::Incomplete;
    }
    if b[0] != SOCKS_VERSION {
        return Request::BadVersion;
    }
    if b.len() < 4 {
        return Request::Incomplete;
    }
    let atyp = b[3];
    let addr_len: usize;
    if atyp == ATYP_IPV4 {
        addr_len = 4;
    } else if atyp == ATYP_IPV6 {
        addr_len = 16;
    } else if atyp == ATYP_DOMAIN {
        if b.len() < 5 {
            return Request::Incomplete;
        }
        addr_len = 1 + b[4] as usize;
    } else {
        return Request::UnsupportedAddress;
    }
    let size: usize = 4 + addr_len + 2;
    if b.len() < size {
        return Request::Incomplete;
    }
    let host = if atyp == ATYP_IPV4 {
        Host::Ipv4(copy_range(b, 4, 8))
    } else if atyp == ATYP_IPV6 {
        Host::Ipv6(copy_range(b, 4, 20))
    } else {
        Host::Domain(copy_range(b, 5, size - 2))
    };
    let port: u16 = (b[size - 2] as u16) * 256 + b[size - 1] as u16;
    proof {
        let hb = host_bytes(host);
        assert(hb =~= b@.subrange(3, size - 2));
    }
    Request::Complete { command: b[1], dest: Destination { host, port }, size }
}

/// The wire form of a reply: `VER REP RSV`, then the bound address and port.
pub open spec fn reply_spec(code: u8, bound: Destination) -> Seq<u8> {
    seq![SOCKS_VERSION, code, 0u8] + host_bytes(bound.host) + port_bytes(bound.port)
}

/// Encodes a reply with code `code` and the address the server bound.
pub fn encode_reply(code: u8, bound: &Destination) -> (r: Vec<u8>)
    requires
        bound.wf(),
    ensures
        r@ == reply_spec(code, *bound),
{
    let mut r: Vec<u8> = vec![SOCKS_VERSION, code, 0u8];
    match &bound.host {
        Host::Ipv4(a) => {
            r.push(ATYP_IPV4);
            crate::bytes::append_bytes(&mut r, a.as_slice());
        },
        Host::Domain(n) => {
            r.push(ATYP_DOMAIN);
            r.push(n.len() as u8);
            crate::bytes::append_bytes(&mut r, n.as_slice());
        },
        Host::Ipv6(a) => {
            r.push(ATYP_IPV6);
            crate::bytes::append_bytes(&mut r, a.as_slice());
        },
    }
    r.push((bound.port / 256) as u8);
    r.push((bound.port % 256) as u8);
    proof {
        assert(r@ =~= reply_spec(code, *bound));
    }
    r
}

/// A reply that reports a failure carries the unspecified IPv4 address
/// `0.0.0.0` and port 0 as its bound address.
pub open spec fn failure_reply_spec(code: u8) -> Seq<u8> {
    seq![SOCKS_VERSION, code, 0u8, ATYP_IPV4, 0u8, 0u8, 0u8, 0u8, 0u8, 0u8]
}

/// Encodes a failure reply with code `code`.
pub fn failure_reply(code: u8) -> (r: Vec<u8>)
    ensures
        r@ == failure_reply_spec(code),
{
    let bound = Destination { host: Host::Ipv4(vec![0u8, 0u8, 0u8, 0u8]), port: 0 };
    let r = encode_reply(code, &bound);
    proof {
        assert(r@ =~= failure_reply_spec(code));
    }
    r
}

/// Why an outbound connection could not be made.
#[derive(Clone, Debug, PartialEq, Eq)]
pub enum ConnectFailure {
    /// The destination refused the connection.
    Refused,
    /// No route to the host.
    HostUnreachable,
    /// The network is down or unreachable.
    NetworkUnreachable,
    /// Any other failure, name resolution included.
    Other,
}

/// The reply code that reports a connect failure.
pub open spec fn failure_code_spec(f: ConnectFailure) -> u8 {
    match f {
        ConnectFailure::Refused => REPLY_CONNECTION_REFUSED,
        ConnectFailure::HostUnreachable => REPLY_HOST_UNREACHABLE,
        ConnectFailure::NetworkUnreachable => REPLY_NETWORK_UNREACHABLE,
        ConnectFailure::Other => REPLY_GENERAL_FAILURE,
    }
}

/// The reply code that reports a connect failure.
pub fn failure_code(f: &ConnectFailure) -> (r: u8)
    ensures
        r == failure_code_spec(*f),
{
    match f {
        ConnectFailure::Refused => REPLY_CONNECTION_REFUSED,
        ConnectFailure::HostUnreachable => REPLY_HOST_UNREACHABLE,
        ConnectFailure::NetworkUnreachable => REPLY_NETWORK_UNREACHABLE,
        ConnectFailure::Other => REPLY_GENERAL_FAILURE,
    }
}

} // verus!
