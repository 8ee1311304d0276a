//! PROXY protocol version 2 header parsing.
//!
//! A header is 16 fixed bytes followed by an address block:
//! 12 bytes of signature, one byte of version (high nibble) and command
//! (low nibble), one byte of address family (high nibble) and transport
//! protocol (low nibble), and a big-endian two-byte length of the address
//! block. An IPv4 block holds 4 + 4 address bytes and 2 + 2 port bytes, an
//! IPv6 block 16 + 16 address bytes and 2 + 2 port bytes.
use vstd::prelude::*;

verus! {

/// The twelve bytes every PROXY protocol v2 header starts with.
pub const SIGNATURE: [u8; 12] = [
    0x0D, 0x0A, 0x0D, 0x0A, 0x00, 0x0D, 0x0A, 0x51, 0x55, 0x49, 0x54, 0x0A,
];

/// The signature as a sequence of bytes.
pub open spec fn signature_seq() -> Seq<u8> {
    seq![0x0Du8, 0x0Au8, 0x0Du8, 0x0Au8, 0x00u8, 0x0Du8, 0x0Au8, 0x51u8, 0x55u8, 0x49u8, 0x54u8, 0x0Au8]
}

/// An advertised source address: the address bytes and the port.
#[derive(Debug, Clone, Copy, PartialEq, Eq)]
pub enum ProxiedAddr {
    /// An IPv4 address and a port.
    V4([u8; 4], u16),
    /// An IPv6 address and a port.
    V6([u8; 16], u16),
}

/// The mathematical value of an address: its bytes (4 for IPv4, 16 for IPv6) and its port.
pub struct SpecAddr {
    pub ip: Seq<u8>,
    pub port: u16,
}

impl View for ProxiedAddr {
    type V = SpecAddr;

    open spec fn view(&self) -> SpecAddr {
        match self {
            ProxiedAddr::V4(ip, port) => SpecAddr { ip: ip@, port: *port },
            ProxiedAddr::V6(ip, port) => SpecAddr { ip: ip@, port: *port },
        }
    }
}

/// Outcome of parsing a connection prefix.
#[derive(Debug, Clone, Copy, PartialEq, Eq)]
pub enum Parsed {
    /// A PROXY command with a supported address family; the source address.
    Proxied(ProxiedAddr),
    /// A LOCAL command, an unspecified family or protocol, or an address
    /// family that is not supported.
    LocalOrUnspec,
    /// The bytes are not a PROXY protocol v2 header.
    NotProxy,
}

/// The mathematical outcome of a parse.
pub enum SpecParsed {
    Proxied(SpecAddr),
    LocalOrUnspec,
    NotProxy,
}

impl View for Parsed {
    type V = SpecParsed;

    open spec fn view(&self) -> SpecParsed {
        match self {
            Parsed::Proxied(a) => SpecParsed::Proxied(a@),
            Parsed::LocalOrUnspec => SpecParsed::LocalOrUnspec,
            Parsed::NotProxy => SpecParsed::NotProxy,
        }
    }
}

/// A big-endian 16-bit number.
pub open spec fn be16(hi: u8, lo: u8) -> u16 {
    (hi as int * 256 + lo as int) as u16
}

/// The length of the address block that the fixed part of `b` announces.
pub open spec fn announced_len(b: Seq<u8>) -> int {
    b[14] as int * 256 + b[15] as int
}

/// `b` starts with the signature and holds the 16 fixed bytes.
pub open spec fn has_signature(b: Seq<u8>) -> bool {
    b.len() >= 16 && b.subrange(0, 12) == signature_seq()
}

/// `b` is a version 2 PROXY command with a specified family and protocol,
/// so that its address block is read.
pub open spec fn reads_address(b: Seq<u8>) -> bool {
    &&& has_signature(b)
    &&& b[12] / 16 == 2
    &&& b[12] % 16 != 0
    &&& b[13] / 16 != 0
    &&& b[13] % 16 != 0
}

/// The inputs on which parsing is defined: whenever the address block is
/// read, the buffer holds all of it.
pub open spec fn parse_defined(b: Seq<u8>) -> bool {
    reads_address(b) ==> b.len() >= 16 + announced_len(b)
}

/// What a PROXY protocol v2 prefix means.
pub open spec fn spec_parse_pp_v2(b: Seq<u8>) -> SpecParsed {
    if !has_signature(b) || b[12] / 16 != 2 {
        SpecParsed::NotProxy
    } else if b[12] % 16 == 0 || b[13] / 16 == 0 || b[13] % 16 == 0 {
        SpecParsed::LocalOrUnspec
    } else if b[13] / 16 == 1 && announced_len(b) >= 12 {
        SpecParsed::Proxied(SpecAddr { ip: b.subrange(16, 20), port: be16(b[24], b[25]) })
    } else if b[13] / 16 == 2 && announced_len(b) >= 36 {
        SpecParsed::Proxied(SpecAddr { ip: b.subrange(16, 32), port: be16(b[48], b[49]) })
    } else {
        SpecParsed::LocalOrUnspec
    }
}

proof fn lemma_nibbles(x: u8)
    ensures
        x >> 4 == x / 16,
        x & 0x0F == x % 16,
{
    assert(x >> 4 == x / 16) by (bit_vector);
    assert(x & 0x0F == x % 16) by (bit_vector);
}

fn starts_with_signature(buffer: &[u8]) -> (r: bool)
    requires
        buffer@.len() >= 12,
    ensures
        r == (buffer@.subrange(0, 12) == signature_seq()),
{
    let sig = SIGNATURE;
    let mut i: usize = 0;
    while i < 12
        invariant
            0 <= i <= 12,
            buffer@.len() >= 12,
            sig@ == signature_seq(),
            forall|j: int| 0 <= j < i ==> buffer@[j] == signature_seq()[j],
        decreases 12 - i,
    {
        if buffer[i] != sig[i] {
            assert(buffer@.subrange(0, 12)[i as int] != signature_seq()[i as int]);
            return false;
        }
        i = i + 1;
    }
    assert(buffer@.subrange(0, 12) =~= signature_seq());
    true
}

/// Parses a buffer containing a Proxy Protocol v2 header and returns a `Parsed` enum indicating the result.
pub fn parse_pp_v2(buffer: &[u8]) -> (r: Parsed)
    requires
        parse_defined(buffer@),
    ensures
        r@ == spec_parse_pp_v2(buffer@),
{
    if buffer.len() < 16 || !starts_with_signature(buffer) {
        return Parsed::NotProxy;
    }
    let version = buffer[12] >> 4;
    proof {
        lemma_nibbles(buffer@[12]);
        lemma_nibbles(buffer@[13]);
    }
    if version != 2 {
        return Parsed::NotProxy;
    }
    let command = buffer[12] & 0x0F;
    if command == 0 {
        return Parsed::LocalOrUnspec;
    }
    let address_family = buffer[13] >> 4;
    let protocol = buffer[13] & 0x0F;
    if address_family == 0 || protocol == 0 {
        return Parsed::LocalOrUnspec;
    }
    let address_length: usize = (buffer[14] as usize) * 256 + (buffer[15] as usize);
    if address_family == 1 && address_length >= 12 {
        let ip: [u8; 4] = [buffer[16], buffer[17], buffer[18], buffer[19]];
        let port: u16 = (buffer[24] as u16) * 256 + (buffer[25] as u16);
        assert(ip@ =~= buffer@.subrange(16, 20));
        Parsed::Proxied(ProxiedAddr::V4(ip, port))
    } else if address_family == 2 && address_length >= 36 {
        let ip: [u8; 16] = [
            buffer[16], buffer[17], buffer[18], buffer[19], buffer[20], buffer[21], buffer[22],
            buffer[23], buffer[24], buffer[25], buffer[26], buffer[27], buffer[28], buffer[29],
            buffer[30], buffer[31],
        ];
        let port: u16 = (buffer[48] as u16) * 256 + (buffer[49] as u16);
        assert(ip@ =~= buffer@.subrange(16, 32));
        Parsed::Proxied(ProxiedAddr::V6(ip, port))
    } else {
        Parsed::LocalOrUnspec
    }
}

/// For the first 16 bytes read from a connection: `None` when they do not
/// start with the signature (they are then replayed to the application), or
/// the length of the address block that follows them.
pub fn header_block_len(fixed: &[u8]) -> (r: Option<usize>)
    requires
        fixed@.len() == 16,
    ensures
        r is None <==> !has_signature(fixed@),
        r matches Some(n) ==> n == announced_len(fixed@),
{
    if !starts_with_signature(fixed) {
        return None;
    }
    Some((fixed[14] as usize) * 256 + (fixed[15] as usize))
}

/// The big-endian bytes of a port.
pub open spec fn port_bytes(port: u16) -> Seq<u8> {
    seq![(port / 256) as u8, (port % 256) as u8]
}

/// A PROXY v2 header for a PROXY command over IPv4 with transport `protocol`.
pub open spec fn encode_ipv4_header(
    src: Seq<u8>,
    dst: Seq<u8>,
    src_port: u16,
    dst_port: u16,
    protocol: u8,
) -> Seq<u8> {
    signature_seq() + seq![0x21u8, (0x10 + protocol) as u8, 0x00u8, 12u8] + src + dst
        + port_bytes(src_port) + port_bytes(dst_port)
}

/// A PROXY v2 header for a PROXY command over IPv6 with transport `protocol`.
pub open spec fn encode_ipv6_header(
    src: Seq<u8>,
    dst: Seq<u8>,
    src_port: u16,
    dst_port: u16,
    protocol: u8,
) -> Seq<u8> {
    signature_seq() + seq![0x21u8, (0x20 + protocol) as u8, 0x00u8, 36u8] + src + dst
        + port_bytes(src_port) + port_bytes(dst_port)
}

/// A LOCAL-command header with an empty address block.
pub open spec fn encode_local_header() -> Seq<u8> {
    signature_seq() + seq![0x20u8, 0x00u8, 0x00u8, 0x00u8]
}

proof fn lemma_port_bytes(port: u16)
    ensures
        be16(port_bytes(port)[0], port_bytes(port)[1]) == port,
{
}

/// A well-formed IPv4 PROXY header parses to its source address and port,
/// whatever follows it.
pub proof fn lemma_ipv4_header_roundtrip(
    src: Seq<u8>,
    dst: Seq<u8>,
    src_port: u16,
    dst_port: u16,
    protocol: u8,
    rest: Seq<u8>,
)
    requires
        src.len() == 4,
        dst.len() == 4,
        1 <= protocol <= 15,
    ensures
        ({
            let b = encode_ipv4_header(src, dst, src_port, dst_port, protocol) + rest;
            &&& parse_defined(b)
            &&& spec_parse_pp_v2(b) == SpecParsed::Proxied(SpecAddr { ip: src, port: src_port })
        }),
{
    let h = encode_ipv4_header(src, dst, src_port, dst_port, protocol);
    let b = h + rest;
    assert(b.len() == 28 + rest.len());
    assert(b.subrange(0, 12) =~= signature_seq());
    assert(b[12] == 0x21u8);
    assert(b[13] == (0x10 + protocol) as u8);
    assert(b[14] == 0u8 && b[15] == 12u8);
    assert(b.subrange(16, 20) =~= src);
    assert(b[24] == port_bytes(src_port)[0] && b[25] == port_bytes(src_port)[1]);
    lemma_port_bytes(src_port);
}

/// A well-formed IPv6 PROXY header parses to its source address and port,
/// whatever follows it.
pub proof fn lemma_ipv6_header_roundtrip(
    src: Seq<u8>,
    dst: Seq<u8>,
    src_port: u16,
    dst_port: u16,
    protocol: u8,
    rest: Seq<u8>,
)
    requires
        src.len() == 16,
        dst.len() == 16,
        1 <= protocol <= 15,
    ensures
        ({
            let b = encode_ipv6_header(src, dst, src_port, dst_port, protocol) + rest;
            &&& parse_defined(b)
            &&& spec_parse_pp_v2(b) == SpecParsed::Proxied(SpecAddr { ip: src, port: src_port })
        }),
{
    let h = encode_ipv6_header(src, dst, src_port, dst_port, protocol);
    let b = h + rest;
    assert(b.len() == 52 + rest.len());
    assert(b.subrange(0, 12) =~= signature_seq());
    assert(b[12] == 0x21u8);
    assert(b[13] == (0x20 + protocol) as u8);
    assert(b[14] == 0u8 && b[15] == 36u8);
    assert(b.subrange(16, 32) =~= src);
    assert(b[48] == port_bytes(src_port)[0] && b[49] == port_bytes(src_port)[1]);
    lemma_port_bytes(src_port);
}

/// The big-endian bytes of a block length.
pub open spec fn len_bytes(len: nat) -> Seq<u8> {
    seq![(len / 256) as u8, (len % 256) as u8]
}

/// A PROXY v2 header for a PROXY command over IPv4 with transport `protocol`
/// whose address block carries the type-length-value bytes `tlvs` after the
/// addresses and ports, counted in the announced length.
pub open spec fn encode_ipv4_header_tlvs(
    src: Seq<u8>,
    dst: Seq<u8>,
    src_port: u16,
    dst_port: u16,
    protocol: u8,
    tlvs: Seq<u8>,
) -> Seq<u8> {
    signature_seq() + seq![0x21u8, (0x10 + protocol) as u8] + len_bytes(12 + tlvs.len()) + src + dst
        + port_bytes(src_port) + port_bytes(dst_port) + tlvs
}

/// A PROXY v2 header for a PROXY command over IPv6 with transport `protocol`
/// whose address block carries the type-length-value bytes `tlvs` after the
/// addresses and ports, counted in the announced length.
pub open spec fn encode_ipv6_header_tlvs(
    src: Seq<u8>,
    dst: Seq<u8>,
    src_port: u16,
    dst_port: u16,
    protocol: u8,
    tlvs: Seq<u8>,
) -> Seq<u8> {
    signature_seq() + seq![0x21u8, (0x20 + protocol) as u8] + len_bytes(36 + tlvs.len()) + src + dst
        + port_bytes(src_port) + port_bytes(dst_port) + tlvs
}

proof fn lemma_len_bytes(len: nat)
    requires
        0 <= len <= 65535,
    ensures
        len_bytes(len)[0] as int * 256 + len_bytes(len)[1] as int == len,
{
    assert(len / 256 < 256);
}

/// An IPv4 PROXY header parses to its source address and port whatever
/// type-length-value bytes its address block carries after the addresses,
/// and whatever follows the header.
pub proof fn lemma_ipv4_header_tlvs_roundtrip(
    src: Seq<u8>,
    dst: Seq<u8>,
    src_port: u16,
    dst_port: u16,
    protocol: u8,
    tlvs: Seq<u8>,
    rest: Seq<u8>,
)
    requires
        src.len() == 4,
        dst.len() == 4,
        1 <= protocol <= 15,
        12 + tlvs.len() <= 65535,
    ensures
        ({
            let b = encode_ipv4_header_tlvs(src, dst, src_port, dst_port, protocol, tlvs) + rest;
            &&& announced_len(b) == 12 + tlvs.len()
            &&& parse_defined(b)
            &&& spec_parse_pp_v2(b) == SpecParsed::Proxied(SpecAddr { ip: src, port: src_port })
        }),
{
    let h = encode_ipv4_header_tlvs(src, dst, src_port, dst_port, protocol, tlvs);
    let b = h + rest;
    assert(b.len() == 28 + tlvs.len() + rest.len());
    assert(b.subrange(0, 12) =~= signature_seq());
    assert(b[12] == 0x21u8);
    assert(b[13] == (0x10 + protocol) as u8);
    assert(b[14] == len_bytes(12 + tlvs.len())[0] && b[15] == len_bytes(12 + tlvs.len())[1]);
    lemma_len_bytes(12 + tlvs.len());
    assert(b.subrange(16, 20) =~= src);
    assert(b[24] == port_bytes(src_port)[0] && b[25] == port_bytes(src_port)[1]);
    lemma_port_bytes(src_port);
}

/// An IPv6 PROXY header parses to its source address and port whatever
/// type-length-value bytes its address block carries after the addresses,
/// and whatever follows the header.
pub proof fn lemma_ipv6_header_tlvs_roundtrip(
    src: Seq<u8>,
    dst: Seq<u8>,
    src_port: u16,
    dst_port: u16,
    protocol: u8,
    tlvs: Seq<u8>,
    rest: Seq<u8>,
)
    requires
        src.len() == 16,
        dst.len() == 16,
        1 <= protocol <= 15,
        36 + tlvs.len() <= 65535,
    ensures
        ({
            let b = encode_ipv6_header_tlvs(src, dst, src_port, dst_port, protocol, tlvs) + rest;
            &&& announced_len(b) == 36 + tlvs.len()
            &&& parse_defined(b)
            &&& spec_parse_pp_v2(b) == SpecParsed::Proxied(SpecAddr { ip: src, port: src_port })
        }),
{
    let h = encode_ipv6_header_tlvs(src, dst, src_port, dst_port, protocol, tlvs);
    let b = h + rest;
    assert(b.len() == 52 + tlvs.len() + rest.len());
    assert(b.subrange(0, 12) =~= signature_seq());
    assert(b[12] == 0x21u8);
    assert(b[13] == (0x20 + protocol) as u8);
    assert(b[14] == len_bytes(36 + tlvs.len())[0] && b[15] == len_bytes(36 + tlvs.len())[1]);
    lemma_len_bytes(36 + tlvs.len());
    assert(b.subrange(16, 32) =~= src);
    assert(b[48] == port_bytes(src_port)[0] && b[49] == port_bytes(src_port)[1]);
    lemma_port_bytes(src_port);
}

/// A LOCAL command is never taken as a proxied address.
pub proof fn lemma_local_header(rest: Seq<u8>)
    ensures
        parse_defined(encode_local_header() + rest),
        spec_parse_pp_v2(encode_local_header() + rest) == SpecParsed::LocalOrUnspec,
{
    let b = encode_local_header() + rest;
    assert(b.subrange(0, 12) =~= signature_seq());
    assert(b[12] == 0x20u8);
}

/// Bytes that do not start with the signature are never a PROXY header.
pub proof fn lemma_no_signature_not_proxy(b: Seq<u8>)
    requires
        !has_signature(b),
    ensures
        parse_defined(b),
        spec_parse_pp_v2(b) == SpecParsed::NotProxy,
{
}

/// What follows a header does not change what the header means, once its
/// sixteen fixed bytes are there: the bytes of the connection after it are
/// left to the application.
pub proof fn lemma_parse_ignores_trailing(b: Seq<u8>, extra: Seq<u8>)
    requires
        b.len() >= 16,
        parse_defined(b),
    ensures
        parse_defined(b + extra),
        spec_parse_pp_v2(b + extra) == spec_parse_pp_v2(b),
{
    let c = b + extra;
    assert(c.subrange(0, 12) =~= b.subrange(0, 12));
    assert(c[12] == b[12] && c[13] == b[13] && c[14] == b[14] && c[15] == b[15]);
    if reads_address(b) {
        if b[13] / 16 == 1 && announced_len(b) >= 12 {
            assert(c.subrange(16, 20) =~= b.subrange(16, 20));
            assert(c[24] == b[24] && c[25] == b[25]);
        } else if b[13] / 16 == 2 && announced_len(b) >= 36 {
            assert(c.subrange(16, 32) =~= b.subrange(16, 32));
            assert(c[48] == b[48] && c[49] == b[49]);
        }
    }
}

/// Once the fixed part announced a block and the whole block has been read,
/// the header can be parsed: the two steps of accepting a connection fit.
pub proof fn lemma_accepted_header_parses(fixed: Seq<u8>, block: Seq<u8>)
    requires
        fixed.len() == 16,
        has_signature(fixed),
        block.len() == announced_len(fixed),
    ensures
        parse_defined(fixed + block),
{
    let b = fixed + block;
    assert(b.subrange(0, 12) =~= fixed.subrange(0, 12));
    assert(b[14] == fixed[14] && b[15] == fixed[15]);
}

/// A connection whose first bytes may have to be replayed before the rest of
/// its stream, with the client address it was given.
pub struct ProxiedStream<S> {
    inner: S,
    /// The source address a PROXY header advertised, if any.
    pub src: Option<ProxiedAddr>,
    socket_peer: Option<ProxiedAddr>,
    prefix: Vec<u8>,
    pos: usize,
}

impl<S> ProxiedStream<S> {
    /// The stream is well formed: the replay position lies within the prefix.
    pub closed spec fn wf(&self) -> bool {
        self.pos <= self.prefix@.len()
    }

    /// The bytes still to be replayed.
    pub closed spec fn pending(&self) -> Seq<u8> {
        self.prefix@.subrange(self.pos as int, self.prefix@.len() as int)
    }

    /// The advertised source address.
    pub closed spec fn spec_src(&self) -> Option<ProxiedAddr> {
        self.src
    }

    /// The wrapped stream.
    pub closed spec fn spec_inner(&self) -> S {
        self.inner
    }

    /// The address of the peer at the other end of the socket.
    pub closed spec fn spec_socket_peer(&self) -> Option<ProxiedAddr> {
        self.socket_peer
    }

    /// Wraps `inner`, which will first yield the bytes of `prefix`.
    pub fn new(
        inner: S,
        src: Option<ProxiedAddr>,
        socket_peer: Option<ProxiedAddr>,
        prefix: Vec<u8>,
    ) -> (r: Self)
        ensures
            r.wf(),
            r.spec_inner() == inner,
            r.spec_src() == src,
            r.spec_socket_peer() == socket_peer,
            r.pending() == prefix@,
    {
        let r = Self { inner, src, socket_peer, prefix, pos: 0 };
        assert(r.prefix@.subrange(0, r.prefix@.len() as int) =~= r.prefix@);
        r
    }

    /// Effective client address: PROXY-advertised source if present,
    /// otherwise the real socket peer (direct connection / health check).
    pub fn peer(&self) -> (r: Option<ProxiedAddr>)
        ensures
            r == (match self.spec_src() {
                Some(a) => Some(a),
                None => self.spec_socket_peer(),
            }),
    {
        match self.src {
            Some(a) => Some(a),
            None => self.socket_peer,
        }
    }

    /// Takes the next bytes to replay, at most `room` of them, or `None`
    /// when nothing is left to replay and reading goes to the inner stream.
    pub fn replay(&mut self, room: usize) -> (r: Option<Vec<u8>>)
        requires
            old(self).wf(),
        ensures
            final(self).wf(),
            final(self).spec_src() == old(self).spec_src(),
            final(self).spec_socket_peer() == old(self).spec_socket_peer(),
            old(self).pending().len() == 0 ==> r is None && final(self).pending() == old(self).pending(),
            old(self).pending().len() > 0 ==> (r matches Some(chunk) && {
                let n = if room < old(self).pending().len() { room as int } else { old(self).pending().len() as int };
                &&& chunk@ == old(self).pending().subrange(0, n)
                &&& final(self).pending() == old(self).pending().subrange(n, old(self).pending().len() as int)
                &&& chunk@ + final(self).pending() == old(self).pending()
            }),
    {
        let len = self.prefix.len();
        if self.pos >= len {
            return None;
        }
        let left = len - self.pos;
        let n = if room < left { room } else { left };
        let mut chunk: Vec<u8> = Vec::new();
        let start = self.pos;
        let mut i: usize = 0;
        while i < n
            invariant
                i <= n,
                start + n <= len,
                len == self.prefix@.len(),
                chunk@ == self.prefix@.subrange(start as int, start + i),
            decreases n - i,
        {
            chunk.push(self.prefix[start + i]);
            i = i + 1;
            assert(chunk@ =~= self.prefix@.subrange(start as int, start + i));
        }
        self.pos = start + n;
        assert(chunk@ =~= old(self).pending().subrange(0, n as int));
        assert(self.pending() =~= old(self).pending().subrange(n as int, old(self).pending().len() as int));
        assert(chunk@ + self.pending() =~= old(self).pending());
        Some(chunk)
    }

    /// The wrapped stream, to look at.
    pub fn get_ref(&self) -> (r: &S)
        ensures
            *r == self.spec_inner(),
    {
        &self.inner
    }

    /// The wrapped stream.
    pub fn get_mut(&mut self) -> (r: &mut S)
        ensures
            *r == old(self).spec_inner(),
            final(self).spec_inner() == *final(r),
            final(self).spec_src() == old(self).spec_src(),
            final(self).spec_socket_peer() == old(self).spec_socket_peer(),
            final(self).pending() == old(self).pending(),
            old(self).wf() ==> final(self).wf(),
    {
        &mut self.inner
    }
}

} // verus!
