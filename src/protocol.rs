//! The handshake and status-request subset of the game server protocol:
//! variable-length integers, length-prefixed strings and packet framing.

use vstd::prelude::*;
use vstd::string::*;
use vstd::utf8::*;

verus! {

/// Seven data bits per byte, least significant group first, high bit set on
/// every byte but the last.
/// Seven data bits per byte, least significant group first, high bit set on
/// every byte but the last.
pub open spec fn varint_bytes(v: nat) -> Seq<u8>
    decreases v,
{
    if v < 128 {
        seq![v as u8]
    } else {
        seq![(v % 128 + 128) as u8] + varint_bytes(v / 128)
    }
}

/// How many bytes a reader with `budget` bytes to spend consumes: up to and
/// including the first byte without the continuation bit, or until the bytes
/// or the budget run out.
pub open spec fn varint_len_within(d: Seq<u8>, budget: nat) -> nat
    decreases budget,
{
    if d.len() == 0 || budget == 0 {
        0
    } else if d[0] < 128 {
        1
    } else {
        1 + varint_len_within(d.drop_first(), (budget - 1) as nat)
    }
}

/// The number carried by the consumed bytes, before it is cut to 32 bits.
pub open spec fn varint_raw_within(d: Seq<u8>, budget: nat) -> nat
    decreases budget,
{
    if d.len() == 0 || budget == 0 {
        0
    } else if d[0] < 128 {
        d[0] as nat
    } else {
        (d[0] - 128) as nat + 128 * varint_raw_within(d.drop_first(), (budget - 1) as nat)
    }
}

/// A reader consumes at most five bytes, the most that a 32-bit value needs.
pub open spec fn varint_len(d: Seq<u8>) -> nat {
    varint_len_within(d, 5)
}

pub open spec fn varint_raw(d: Seq<u8>) -> nat {
    varint_raw_within(d, 5)
}

/// What the reader returns: the raw number cut to 32 bits, and the count of
/// bytes consumed.
pub open spec fn varint_decode(d: Seq<u8>) -> (i32, usize) {
    (varint_raw(d) as i32, varint_len(d) as usize)
}

pub open spec fn pow128(n: nat) -> nat
    decreases n,
{
    if n == 0 { 1 } else { 128 * pow128((n - 1) as nat) }
}

proof fn lemma_varint_len_bound(d: Seq<u8>, budget: nat)
    ensures
        varint_len_within(d, budget) <= d.len(),
        varint_len_within(d, budget) <= budget,
    decreases budget,
{
    if d.len() > 0 && budget > 0 && d[0] >= 128 {
        lemma_varint_len_bound(d.drop_first(), (budget - 1) as nat);
    }
}

proof fn lemma_varint_raw_bound(d: Seq<u8>, budget: nat)
    ensures
        varint_raw_within(d, budget) < pow128(varint_len_within(d, budget)),
    decreases budget,
{
    if d.len() > 0 && budget > 0 && d[0] >= 128 {
        let t = d.drop_first();
        let b = (budget - 1) as nat;
        lemma_varint_raw_bound(t, b);
        assert(pow128(varint_len_within(d, budget)) == 128 * pow128(varint_len_within(t, b)));
        let a: int = d[0] - 128;
        let x: int = varint_raw_within(t, b) as int;
        let p: int = pow128(varint_len_within(t, b)) as int;
        assert(a + 128 * x < 128 * p) by (nonlinear_arith)
            requires
                0 <= a < 128,
                0 <= x < p,
        ;
    } else if d.len() > 0 && budget > 0 {
        reveal_with_fuel(pow128, 2);
    }
}

proof fn lemma_pow128_small()
    ensures
        pow128(4) == 268435456,
        pow128(5) == 34359738368,
{
    reveal_with_fuel(pow128, 6);
}

/// Reading back what the writer produced, with anything after it, returns
/// the written value and consumes exactly the written bytes, at most five.
pub proof fn lemma_varint_round_trip(v: i32, rest: Seq<u8>)
    ensures
        varint_bytes((v as u32) as nat).len() <= 5,
        varint_decode(varint_bytes((v as u32) as nat) + rest) == (
            v,
            varint_bytes((v as u32) as nat).len() as usize,
        ),
{
    let u: u32 = v as u32;
    lemma_varint_size(u as nat);
    lemma_varint_prefix(u as nat, rest, 5);
    assert((v as u32) as i32 == v) by (bit_vector);
}

proof fn lemma_varint_prefix(v: nat, rest: Seq<u8>, budget: nat)
    requires
        varint_bytes(v).len() <= budget,
    ensures
        varint_len_within(varint_bytes(v) + rest, budget) == varint_bytes(v).len(),
        varint_raw_within(varint_bytes(v) + rest, budget) == v,
    decreases v,
{
    let d = varint_bytes(v) + rest;
    if v >= 128 {
        lemma_varint_prefix(v / 128, rest, (budget - 1) as nat);
        assert(d.drop_first() =~= varint_bytes(v / 128) + rest);
    }
}

proof fn lemma_varint_size(v: nat)
    requires
        v <= u32::MAX,
    ensures
        varint_bytes(v).len() <= 5,
{
    reveal_with_fuel(varint_bytes, 6);
}

/// Appends the variable-length encoding of `value`; a negative value is
/// written as its 32-bit pattern, in five bytes.
pub fn write_varint(buf: &mut Vec<u8>, value: i32)
    ensures
        final(buf)@ == old(buf)@ + varint_bytes((value as u32) as nat),
{
    let ghost start = buf@;
    let ghost orig = value as u32;
    let mut v: u32 = value as u32;
    loop
        invariant_except_break
            buf@ + varint_bytes(v as nat) == start + varint_bytes(orig as nat),
        ensures
            buf@ == start + varint_bytes(orig as nat),
        decreases v,
    {
        let low: u32 = v & 0x7F;
        assert(low == v % 128) by (bit_vector)
            requires
                low == v & 0x7F,
        ;
        let ghost before = v;
        v = v >> 7;
        assert(v == before / 128) by (bit_vector)
            requires
                v == before >> 7,
        ;
        let mut byte = low as u8;
        if v != 0 {
            byte = byte | 0x80;
            assert(byte == low + 128) by (bit_vector)
                requires
                    low < 128,
                    byte == (low as u8) | 0x80u8,
            ;
        }
        buf.push(byte);
        if v == 0 {
            assert(varint_bytes(before as nat) == seq![byte]);
            break;
        }
        assert(varint_bytes(before as nat) == seq![byte] + varint_bytes(v as nat));
        assert(buf@ + varint_bytes(v as nat) =~= start + varint_bytes(orig as nat));
    }
}

/// Appends a string as its byte length in variable-length form followed by
/// its UTF-8 bytes.
pub fn write_string(buf: &mut Vec<u8>, s: &str)
    requires
        s.spec_bytes().len() <= i32::MAX,
    ensures
        final(buf)@ == old(buf)@ + varint_bytes(s.spec_bytes().len()) + s.spec_bytes(),
{
    let n = s.len();
    write_varint(buf, n as i32);
    assert(((n as i32) as u32) as nat == n as nat);
    buf.extend_from_slice(s.as_bytes());
}

fn varint_from(data: &[u8], i: usize, budget: usize) -> (r: (u64, usize))
    requires
        i <= data@.len(),
        budget <= 5,
    ensures
        r.0 == varint_raw_within(data@.subrange(i as int, data@.len() as int), budget as nat),
        r.1 == varint_len_within(data@.subrange(i as int, data@.len() as int), budget as nat),
        r.1 <= budget,
        r.0 < pow128(r.1 as nat),
    decreases budget,
{
    let ghost d = data@.subrange(i as int, data@.len() as int);
    proof {
        lemma_varint_raw_bound(d, budget as nat);
        lemma_varint_len_bound(d, budget as nat);
    }
    if i >= data.len() || budget == 0 {
        (0, 0)
    } else {
        let b = data[i];
        if b < 128 {
            (b as u64, 1)
        } else {
            assert(d.drop_first() =~= data@.subrange(i + 1, data@.len() as int));
            let (v, n) = varint_from(data, i + 1, budget - 1);
            proof {
                lemma_pow128_small();
                assert(n <= 4);
                if n < 4 {
                    assert(pow128(n as nat) <= pow128(4)) by {
                        reveal_with_fuel(pow128, 5);
                    }
                }
            }
            ((b - 128) as u64 + 128 * v, n + 1)
        }
    }
}

/// Reads the variable-length integer at `at`, consuming at most five bytes.
fn varint_at(data: &[u8], at: usize) -> (r: (i32, usize))
    requires
        at <= data@.len(),
    ensures
        r == varint_decode(data@.subrange(at as int, data@.len() as int)),
{
    let (v, n) = varint_from(data, at, 5);
    (v as i32, n)
}

/// Reads a variable-length integer from the front of `data`: its value cut to
/// 32 bits and the number of bytes consumed, at most five.
pub fn read_varint(data: &[u8]) -> (r: (i32, usize))
    ensures
        r == varint_decode(data@),
{
    assert(data@.subrange(0, data@.len() as int) =~= data@);
    varint_at(data, 0)
}

/// The protocol version announced in the handshake.
pub const STATUS_PROTOCOL_VERSION: i32 = 767;

/// A port as two bytes, most significant first.
pub open spec fn port_bytes(p: u16) -> Seq<u8> {
    seq![(p / 256) as u8, (p % 256) as u8]
}

/// A packet body preceded by its length.
pub open spec fn framed(body: Seq<u8>) -> Seq<u8> {
    varint_bytes(body.len()) + body
}

/// The handshake body: packet id 0, protocol version, host name, port and
/// the next state, status (1).
pub open spec fn handshake_body(host: Seq<u8>, port: u16, protocol: nat) -> Seq<u8> {
    seq![0x00u8] + varint_bytes(protocol) + varint_bytes(host.len()) + host + port_bytes(port)
        + varint_bytes(1)
}

/// The framed handshake packet that opens a status query.
pub fn handshake_packet(host: &str, port: u16, protocol: i32) -> (r: Vec<u8>)
    requires
        host.spec_bytes().len() <= 0x7fff_0000,
    ensures
        r@ == framed(handshake_body(host.spec_bytes(), port, (protocol as u32) as nat)),
{
    let mut body: Vec<u8> = Vec::new();
    body.push(0x00);
    write_varint(&mut body, protocol);
    write_string(&mut body, host);
    body.push((port / 256) as u8);
    body.push((port % 256) as u8);
    write_varint(&mut body, 1);
    proof {
        lemma_varint_size((protocol as u32) as nat);
        lemma_varint_size(host.spec_bytes().len());
        reveal_with_fuel(varint_bytes, 2);
    }
    assert(body@ =~= handshake_body(host.spec_bytes(), port, (protocol as u32) as nat));
    let mut packet: Vec<u8> = Vec::new();
    let blen = body.len();
    write_varint(&mut packet, blen as i32);
    assert(((blen as i32) as u32) as nat == blen as nat);
    let mut tail = body;
    packet.append(&mut tail);
    assert(packet@ =~= framed(handshake_body(host.spec_bytes(), port, (protocol as u32) as nat)));
    packet
}

/// The status request: length 1, packet id 0 with an empty body.
pub fn status_request_packet() -> (r: Vec<u8>)
    ensures
        r@ == seq![0x01u8, 0x00u8],
{
    vec![0x01, 0x00]
}

/// Whether a length-prefix byte is the last of its variable-length integer.
pub fn is_last_varint_byte(b: u8) -> (r: bool)
    ensures
        r == (b < 128),
{
    b < 128
}

/// The length that a response packet announces, when it is positive and at
/// most 65535 bytes.
pub fn packet_length(prefix: &[u8]) -> (r: Option<usize>)
    ensures
        r == (if 0 < varint_decode(prefix@).0 <= 65535 {
            Some(varint_decode(prefix@).0 as usize)
        } else {
            None::<usize>
        }),
{
    let (v, _) = read_varint(prefix);
    if v <= 0 || v > 65535 {
        None
    } else {
        Some(v as usize)
    }
}

/// The JSON bytes of a status response body: after the packet id, a
/// variable-length byte count, then that many bytes, which must be there.
pub open spec fn status_json_bytes(d: Seq<u8>) -> Option<Seq<u8>> {
    let id_len = varint_len(d);
    let rest = d.subrange(id_len as int, d.len() as int);
    let n = varint_decode(rest).0;
    let start = id_len + varint_len(rest);
    if n < 0 || start + n > d.len() {
        None
    } else {
        Some(d.subrange(start as int, start + n))
    }
}

/// Extracts the JSON bytes from a status response body.
pub fn status_json_slice(response: &[u8]) -> (r: Option<Vec<u8>>)
    ensures
        r.is_some() == status_json_bytes(response@).is_some(),
        r matches Some(v) ==> Some(v@) == status_json_bytes(response@),
{
    let ghost d = response@;
    assert(d.subrange(0, d.len() as int) =~= d);
    let (_, id_len) = varint_at(response, 0);
    proof {
        lemma_varint_len_bound(d, 5);
    }
    let ghost rest = d.subrange(id_len as int, d.len() as int);
    let (json_len, n_len) = varint_at(response, id_len);
    proof {
        lemma_varint_len_bound(rest, 5);
    }
    if json_len < 0 {
        return None;
    }
    let start: usize = id_len + n_len;
    if json_len as usize > response.len() - start {
        return None;
    }
    let end: usize = start + json_len as usize;
    let mut out: Vec<u8> = Vec::new();
    let mut i: usize = start;
    while i < end
        invariant
            start <= i <= end <= response@.len(),
            out@ == response@.subrange(start as int, i as int),
        decreases end - i,
    {
        out.push(response[i]);
        i = i + 1;
        assert(out@ =~= response@.subrange(start as int, i as int));
    }
    Some(out)
}

} // verus!
