//! The server-list file: a tag-based binary format holding one pinned server.
//!
//! A named tag is its type byte, the name's byte length as two big-endian
//! bytes and the name. Strings are a two-byte length and UTF-8 bytes; a list
//! is its element type, a four-byte count and the bare elements; a compound
//! is its child tags closed by a zero byte.

use vstd::prelude::*;
use vstd::string::*;
use vstd::utf8::*;
use crate::text::{field_end, find_colon, push_char, push_str, utf8_string};

verus! {

broadcast use {encode_utf8_valid_utf8, decode_utf8_encode_utf8};

/// The host of an address `host[:port]`: the text before the first colon.
pub open spec fn host_of(s: Seq<char>) -> Seq<char> {
    s.subrange(0, field_end(s, 0))
}

/// The port of an address: the text between the first and the second colon,
/// when there is a colon.
pub open spec fn port_of(s: Seq<char>) -> Option<Seq<char>> {
    let e = field_end(s, 0);
    if e < s.len() {
        Some(s.subrange(e + 1, field_end(s, e + 1)))
    } else {
        None
    }
}

/// The address kept in the file: the host, a colon and the port, 25565 when
/// none is given.
pub open spec fn listed_address(s: Seq<char>) -> Seq<char> {
    host_of(s) + ":"@ + match port_of(s) {
        Some(p) => p,
        None => "25565"@,
    }
}

/// The label under which the pinned server is listed.
pub open spec fn server_label() -> Seq<char> {
    "ByStep Server"@
}

/// Splits `host[:port]` into its host and its port, if one is given.
pub fn split_server_address(address: &str) -> (r: (String, Option<String>))
    ensures
        r.0@ == host_of(address@),
        r.1.is_some() == port_of(address@).is_some(),
        r.1 matches Some(p) ==> Some(p@) == port_of(address@),
{
    let len = address.unicode_len();
    let e = find_colon(address, 0, len);
    let host = address.substring_char(0, e).to_string();
    if e < len {
        let pe = find_colon(address, e + 1, len);
        let port = address.substring_char(e + 1, pe).to_string();
        (host, Some(port))
    } else {
        (host, None)
    }
}

/// The address that the server list records for `address`.
pub fn server_list_address(address: &str) -> (r: String)
    ensures
        r@ == listed_address(address@),
{
    let (host, port) = split_server_address(address);
    let mut out = host;
    push_char(&mut out, ':');
    match port {
        Some(p) => push_str(&mut out, p.as_str()),
        None => push_str(&mut out, "25565"),
    }
    proof {
        reveal_strlit(":");
    }
    assert(out@ =~= listed_address(address@));
    out
}

/// A length as two big-endian bytes.
pub open spec fn be16(n: nat) -> Seq<u8> {
    seq![(n / 256) as u8, (n % 256) as u8]
}

/// A tag's type byte and name.
pub open spec fn tag_header(tag: u8, name: Seq<u8>) -> Seq<u8> {
    seq![tag] + be16(name.len()) + name
}

/// A string payload: its byte length and its bytes.
pub open spec fn string_payload(value: Seq<u8>) -> Seq<u8> {
    be16(value.len()) + value
}

/// The bytes that come before the entry's name: the unnamed root compound,
/// the `servers` list of one compound, and the header of `name`.
pub open spec fn list_head() -> Seq<u8> {
    tag_header(10, seq![]) + tag_header(9, "servers"@.map_values(|c: char| c as u8))
        + seq![10u8, 0u8, 0u8, 0u8, 1u8] + tag_header(8, "name"@.map_values(|c: char| c as u8))
}

/// The header of the `ip` string.
pub open spec fn ip_head() -> Seq<u8> {
    tag_header(8, "ip"@.map_values(|c: char| c as u8))
}

/// The header of the `hidden` byte.
pub open spec fn hidden_head() -> Seq<u8> {
    tag_header(1, "hidden"@.map_values(|c: char| c as u8))
}

/// The whole file for one entry: its name, its address, its hidden flag, then
/// the ends of the entry and of the root.
pub open spec fn server_list_file(name: Seq<u8>, ip: Seq<u8>, hidden: u8) -> Seq<u8> {
    list_head() + string_payload(name) + ip_head() + string_payload(ip) + hidden_head() + seq![
        hidden,
        0u8,
        0u8,
    ]
}

/// A string that the format can hold: at most 65535 bytes.
pub open spec fn fits_u16(s: Seq<char>) -> bool {
    encode_utf8(s).len() <= 65535
}

/// Whether `d` is a server-list file for some entry.
pub open spec fn is_server_list_file(d: Seq<u8>) -> bool {
    exists|n: Seq<char>, i: Seq<char>, h: u8|
        fits_u16(n) && fits_u16(i) && d == server_list_file(encode_utf8(n), encode_utf8(i), h)
}

/// One server of the list.
#[derive(Debug, Clone)]
pub struct ServerListEntry {
    pub name: String,
    pub ip: String,
    pub hidden: u8,
}

impl ServerListEntry {
    /// The file that holds exactly this entry.
    pub open spec fn file(&self) -> Seq<u8> {
        server_list_file(encode_utf8(self.name@), encode_utf8(self.ip@), self.hidden)
    }
}

fn push_be16(buf: &mut Vec<u8>, n: usize)
    requires
        n <= 65535,
    ensures
        final(buf)@ == old(buf)@ + be16(n as nat),
{
    buf.push((n / 256) as u8);
    buf.push((n % 256) as u8);
    assert(final(buf)@ =~= old(buf)@ + be16(n as nat));
}

fn push_bytes(buf: &mut Vec<u8>, s: &str)
    ensures
        final(buf)@ == old(buf)@ + s.spec_bytes(),
{
    buf.extend_from_slice(s.as_bytes());
}

fn push_tag_header(buf: &mut Vec<u8>, tag: u8, name: &str)
    requires
        name.is_ascii(),
        name@.len() <= 65535,
    ensures
        final(buf)@ == old(buf)@ + tag_header(tag, name@.map_values(|c: char| c as u8)),
{
    broadcast use is_ascii_spec_bytes;

    buf.push(tag);
    push_be16(buf, name.len());
    push_bytes(buf, name);
    assert(name.spec_bytes() =~= name@.map_values(|c: char| c as u8));
    assert(final(buf)@ =~= old(buf)@ + tag_header(tag, name@.map_values(|c: char| c as u8)));
}

fn push_string_payload(buf: &mut Vec<u8>, s: &str)
    requires
        s.spec_bytes().len() <= 65535,
    ensures
        final(buf)@ == old(buf)@ + string_payload(s.spec_bytes()),
{
    push_be16(buf, s.len());
    push_bytes(buf, s);
    assert(final(buf)@ =~= old(buf)@ + string_payload(s.spec_bytes()));
}

fn list_head_bytes() -> (r: Vec<u8>)
    ensures
        r@ == list_head(),
{
    let mut b: Vec<u8> = Vec::new();
    proof {
        reveal_strlit("");
        reveal_strlit("servers");
        reveal_strlit("name");
    }
    push_tag_header(&mut b, 10, "");
    push_tag_header(&mut b, 9, "servers");
    b.push(10);
    b.push(0);
    b.push(0);
    b.push(0);
    b.push(1);
    push_tag_header(&mut b, 8, "name");
    assert(""@.map_values(|c: char| c as u8) =~= Seq::<u8>::empty());
    assert(b@ =~= list_head());
    b
}

fn ip_head_bytes() -> (r: Vec<u8>)
    ensures
        r@ == ip_head(),
{
    let mut b: Vec<u8> = Vec::new();
    proof {
        reveal_strlit("ip");
    }
    push_tag_header(&mut b, 8, "ip");
    assert(b@ =~= ip_head());
    b
}

fn hidden_head_bytes() -> (r: Vec<u8>)
    ensures
        r@ == hidden_head(),
{
    let mut b: Vec<u8> = Vec::new();
    proof {
        reveal_strlit("hidden");
    }
    push_tag_header(&mut b, 1, "hidden");
    assert(b@ =~= hidden_head());
    b
}

/// The file for one entry with the given name, address and hidden flag.
pub fn encode_entry(name: &str, ip: &str, hidden: u8) -> (r: Vec<u8>)
    requires
        fits_u16(name@),
        fits_u16(ip@),
    ensures
        r@ == server_list_file(encode_utf8(name@), encode_utf8(ip@), hidden),
{
    let mut b = list_head_bytes();
    push_string_payload(&mut b, name);
    let mut h = ip_head_bytes();
    b.append(&mut h);
    push_string_payload(&mut b, ip);
    let mut h2 = hidden_head_bytes();
    b.append(&mut h2);
    b.push(hidden);
    b.push(0);
    b.push(0);
    assert(b@ =~= server_list_file(encode_utf8(name@), encode_utf8(ip@), hidden));
    b
}

/// The server-list file that pins `address`: one entry under the launcher's
/// label, not hidden. None when the address is too long for the format.
pub fn create_servers_dat(address: &str) -> (r: Option<Vec<u8>>)
    ensures
        r.is_some() == fits_u16(listed_address(address@)),
        r matches Some(b) ==> b@ == server_list_file(
            encode_utf8(server_label()),
            encode_utf8(listed_address(address@)),
            0,
        ),
{
    let ip = server_list_address(address);
    if ip.as_str().as_bytes().len() > 65535 {
        return None;
    }
    let label = "ByStep Server";
    proof {
        reveal_strlit("ByStep Server");
        is_ascii_spec_bytes(label);
    }
    assert(label.is_ascii());
    Some(encode_entry(label, ip.as_str(), 0))
}

/// A two-byte big-endian number.
pub open spec fn be16_value(hi: u8, lo: u8) -> nat {
    hi as nat * 256 + lo as nat
}

/// How a reader takes a server-list file apart: the entry's name bytes,
/// address bytes and hidden flag, when the bytes have exactly that layout.
pub open spec fn parse_server_list(d: Seq<u8>) -> Option<(Seq<u8>, Seq<u8>, u8)> {
    let h0: int = list_head().len() as int;
    let h1: int = ip_head().len() as int;
    let h2: int = hidden_head().len() as int;
    if d.len() < h0 + 2 || d.subrange(0, h0) != list_head() {
        None
    } else {
        let s1: int = h0 + 2;
        let e1: int = s1 + be16_value(d[h0], d[h0 + 1]);
        if e1 + h1 + 2 > d.len() || d.subrange(e1, e1 + h1) != ip_head() {
            None
        } else {
            let s2: int = e1 + h1 + 2;
            let e2: int = s2 + be16_value(d[e1 + h1], d[e1 + h1 + 1]);
            if d.len() != e2 + h2 + 3 || d.subrange(e2, e2 + h2) != hidden_head() || d[e2
                + h2 + 1] != 0 || d[e2 + h2 + 2] != 0 {
                None
            } else {
                Some((d.subrange(s1, e1), d.subrange(s2, e2), d[e2 + h2]))
            }
        }
    }
}

proof fn lemma_head_lengths()
    ensures
        list_head().len() == 25,
        ip_head().len() == 5,
        hidden_head().len() == 9,
{
    reveal_strlit("servers");
    reveal_strlit("name");
    reveal_strlit("ip");
    reveal_strlit("hidden");
}

proof fn lemma_be16(n: nat)
    requires
        n <= 65535,
    ensures
        be16_value(be16(n)[0], be16(n)[1]) == n,
{
}

/// Reading a server-list file back gives the name, address and hidden flag
/// that were written, and both strings are valid UTF-8 that decodes to the
/// text that was written.
pub proof fn lemma_server_list_round_trip(name: Seq<char>, ip: Seq<char>, hidden: u8)
    requires
        fits_u16(name),
        fits_u16(ip),
    ensures
        parse_server_list(server_list_file(encode_utf8(name), encode_utf8(ip), hidden)) == Some(
            (encode_utf8(name), encode_utf8(ip), hidden),
        ),
        valid_utf8(encode_utf8(name)),
        valid_utf8(encode_utf8(ip)),
        decode_utf8(encode_utf8(name)) == name,
        decode_utf8(encode_utf8(ip)) == ip,
{
    let nb = encode_utf8(name);
    let ib = encode_utf8(ip);
    let d = server_list_file(nb, ib, hidden);
    lemma_head_lengths();
    lemma_be16(nb.len());
    lemma_be16(ib.len());
    let e1: int = 27 + nb.len() as int;
    let e2: int = e1 + 7 + ib.len();
    assert(d.subrange(0, 25) =~= list_head());
    assert(d[25] == be16(nb.len())[0] && d[26] == be16(nb.len())[1]);
    assert(d.subrange(27, e1) =~= nb);
    assert(d.subrange(e1, e1 + 5) =~= ip_head());
    assert(d[e1 + 5] == be16(ib.len())[0] && d[e1 + 6] == be16(ib.len())[1]);
    assert(d.subrange(e1 + 7, e2) =~= ib);
    assert(d.subrange(e2, e2 + 9) =~= hidden_head());
    encode_utf8_decode_utf8(name);
    encode_utf8_decode_utf8(ip);
}

proof fn lemma_parsed_is_file(d: Seq<u8>)
    requires
        parse_server_list(d) is Some,
    ensures
        ({
            let (nb, ib, h) = parse_server_list(d).unwrap();
            d == server_list_file(nb, ib, h)
        }),
{
    lemma_head_lengths();
    let (nb, ib, h) = parse_server_list(d).unwrap();
    let e1: int = 27 + nb.len() as int;
    let e2: int = e1 + 7 + ib.len();
    assert(be16(nb.len()) =~= seq![d[25], d[26]]);
    assert(be16(ib.len()) =~= seq![d[e1 + 5], d[e1 + 6]]);
    assert(d =~= server_list_file(nb, ib, h));
}

fn matches_at(data: &[u8], pos: usize, piece: &Vec<u8>) -> (r: bool)
    requires
        pos <= data@.len(),
    ensures
        r == (pos + piece@.len() <= data@.len() && data@.subrange(pos as int, pos + piece@.len())
            == piece@),
{
    if piece.len() > data.len() - pos {
        return false;
    }
    let mut k: usize = 0;
    while k < piece.len()
        invariant
            k <= piece@.len(),
            pos + piece@.len() <= data.len(),
            forall|j: int| 0 <= j < k ==> data@[pos + j] == piece@[j],
        decreases piece@.len() - k,
    {
        if data[pos + k] != piece[k] {
            assert(data@.subrange(pos as int, pos + piece@.len())[k as int] != piece@[k as int]);
            return false;
        }
        k = k + 1;
    }
    assert(data@.subrange(pos as int, pos + piece@.len()) =~= piece@);
    true
}

fn copy_range(data: &[u8], from: usize, to: usize) -> (r: Vec<u8>)
    requires
        from <= to <= data@.len(),
    ensures
        r@ == data@.subrange(from as int, to as int),
{
    let mut out: Vec<u8> = Vec::new();
    let mut i = from;
    while i < to
        invariant
            from <= i <= to <= data@.len(),
            out@ == data@.subrange(from as int, i as int),
        decreases to - i,
    {
        out.push(data[i]);
        i = i + 1;
        assert(out@ =~= data@.subrange(from as int, i as int));
    }
    out
}

/// Reads the single entry of a server-list file. None when the bytes do not
/// have the layout, or a string is not UTF-8.
pub fn read_server_list(data: &[u8]) -> (r: Option<ServerListEntry>)
    ensures
        r.is_some() == (parse_server_list(data@) matches Some((nb, ib, _)) && valid_utf8(nb)
            && valid_utf8(ib)),
        r matches Some(e) ==> parse_server_list(data@) == Some(
            (encode_utf8(e.name@), encode_utf8(e.ip@), e.hidden),
        ),
        r matches Some(e) ==> data@ == e.file(),
{
    proof {
        lemma_head_lengths();
    }
    let len = data.len();
    let head = list_head_bytes();
    if len < 27 || !matches_at(data, 0, &head) {
        return None;
    }
    let s1: usize = 27;
    let e1: usize = s1 + (data[25] as usize) * 256 + data[26] as usize;
    let ip_h = ip_head_bytes();
    if e1 > len || len - e1 < 7 || !matches_at(data, e1, &ip_h) {
        return None;
    }
    let s2: usize = e1 + 7;
    let e2: usize = s2 + (data[e1 + 5] as usize) * 256 + data[e1 + 6] as usize;
    let hid_h = hidden_head_bytes();
    if e2 > len || len - e2 != 12 || !matches_at(data, e2, &hid_h) || data[e2 + 10] != 0 || data[e2
        + 11] != 0 {
        return None;
    }
    let hidden = data[e2 + 9];
    let ghost parsed = parse_server_list(data@);
    assert(parsed == Some((data@.subrange(27, e1 as int), data@.subrange(s2 as int, e2 as int), hidden)));
    let name = match utf8_string(copy_range(data, s1, e1)) {
        Some(s) => s,
        None => {
            return None;
        },
    };
    let ip = match utf8_string(copy_range(data, s2, e2)) {
        Some(s) => s,
        None => {
            return None;
        },
    };
    let e = ServerListEntry { name, ip, hidden };
    proof {
        lemma_parsed_is_file(data@);
    }
    Some(e)
}

} // verus!
