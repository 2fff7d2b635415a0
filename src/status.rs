//! The server status snapshot and how a status reply fills it.

use vstd::prelude::*;
use vstd::utf8::*;
use crate::json::{
    element_pointer, element_pointer_text, json_len_at, json_parses, json_str_at, json_text_parses,
    json_u64_at, pointer_len, pointer_str, pointer_u64,
};
use crate::protocol::{status_json_bytes, status_json_slice};
use crate::text::utf8_string;

verus! {

/// What a status query learnt of the server.
#[derive(Debug, Clone)]
pub struct ServerStatus {
    pub online: bool,
    pub players_online: u32,
    pub players_max: u32,
    pub player_names: Vec<String>,
}

impl ServerStatus {
    /// The snapshot of a server that did not answer.
    pub open spec fn is_offline(&self) -> bool {
        !self.online && self.players_online == 0 && self.players_max == 0
            && self.player_names@.len() == 0
    }

    /// The snapshot of a server that did not answer.
    pub fn offline() -> (r: ServerStatus)
        ensures
            r.is_offline(),
    {
        ServerStatus { online: false, players_online: 0, players_max: 0, player_names: Vec::new() }
    }
}

impl Default for ServerStatus {
    fn default() -> (r: ServerStatus)
        ensures
            r.is_offline(),
    {
        ServerStatus::offline()
    }
}

/// A count as the snapshot keeps it: absent counts are zero, and the low 32
/// bits are kept.
pub open spec fn count_of(n: Option<u64>) -> u32 {
    match n {
        Some(v) => v as u32,
        None => 0,
    }
}

/// The snapshot of a server that answered with the given player counts and
/// sample names.
pub fn status_from_counts(online: Option<u64>, max: Option<u64>, names: Vec<String>) -> (r:
    ServerStatus)
    ensures
        r.online,
        r.players_online == count_of(online),
        r.players_max == count_of(max),
        r.player_names@ == names@,
{
    let players_online: u32 = match online {
        Some(v) => v as u32,
        None => 0,
    };
    let players_max: u32 = match max {
        Some(v) => v as u32,
        None => 0,
    };
    ServerStatus { online: true, players_online, players_max, player_names: names }
}

/// The names in the first `n` entries of `players.sample`, skipping entries
/// without a string `name`.
pub open spec fn sample_names(text: Seq<char>, n: nat) -> Seq<Seq<char>>
    decreases n,
{
    if n == 0 {
        Seq::empty()
    } else {
        let prev = sample_names(text, (n - 1) as nat);
        match json_str_at(text, element_pointer("/players/sample"@, (n - 1) as nat, "name"@)) {
            Some(name) => prev.push(name),
            None => prev,
        }
    }
}

/// How many entries `players.sample` has: none unless it is an array.
pub open spec fn sample_len(text: Seq<char>) -> nat {
    match json_len_at(text, "/players/sample"@) {
        Some(n) => n as nat,
        None => 0,
    }
}

pub open spec fn name_views(v: Seq<String>) -> Seq<Seq<char>> {
    v.map_values(|s: String| s@)
}

/// Whether a snapshot is the one a status document gives: online, the counts
/// `players.online` and `players.max`, and the sample's names in order.
pub open spec fn status_matches(r: ServerStatus, text: Seq<char>) -> bool {
    &&& r.online
    &&& r.players_online == count_of(json_u64_at(text, "/players/online"@))
    &&& r.players_max == count_of(json_u64_at(text, "/players/max"@))
    &&& name_views(r.player_names@) == sample_names(text, sample_len(text))
}

/// Reads `players.online`, `players.max` and the names of `players.sample`
/// from a status document.
pub fn status_from_document(text: &str) -> (r: ServerStatus)
    ensures
        status_matches(r, text@),
{
    let online = pointer_u64(text, "/players/online");
    let max = pointer_u64(text, "/players/max");
    let n: usize = match pointer_len(text, "/players/sample") {
        Some(n) => n,
        None => 0,
    };
    let mut names: Vec<String> = Vec::new();
    let mut i: usize = 0;
    while i < n
        invariant
            i <= n,
            n as nat == sample_len(text@),
            name_views(names@) == sample_names(text@, i as nat),
        decreases n - i,
    {
        let ghost before = names@;
        let ptr = element_pointer_text("/players/sample", i, "name");
        proof {
            reveal_strlit("/players/sample");
            reveal_strlit("name");
        }
        match pointer_str(text, ptr.as_str()) {
            Some(name) => {
                names.push(name);
            },
            None => {},
        }
        i = i + 1;
        assert(name_views(names@) =~= sample_names(text@, i as nat));
    }
    status_from_counts(online, max, names)
}

/// Whether a status response body holds a JSON document that parses.
pub open spec fn reply_parses(response: Seq<u8>) -> bool {
    match status_json_bytes(response) {
        Some(b) => valid_utf8(b) && json_text_parses(decode_utf8(b)),
        None => false,
    }
}

/// The JSON text of a status response body.
pub open spec fn reply_text(response: Seq<u8>) -> Seq<char> {
    decode_utf8(status_json_bytes(response).unwrap())
}

/// The snapshot that a status response body gives: offline unless its JSON
/// part is there, is UTF-8 and parses.
pub fn parse_status_response(response: &[u8]) -> (r: ServerStatus)
    ensures
        !reply_parses(response@) ==> r.is_offline(),
        reply_parses(response@) ==> status_matches(r, reply_text(response@)),
{
    let bytes = match status_json_slice(response) {
        Some(b) => b,
        None => {
            return ServerStatus::offline();
        },
    };
    let text = match utf8_string(bytes) {
        Some(t) => t,
        None => {
            return ServerStatus::offline();
        },
    };
    if json_parses(text.as_str()) {
        status_from_document(text.as_str())
    } else {
        ServerStatus::offline()
    }
}

} // verus!
