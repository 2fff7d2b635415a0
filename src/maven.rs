//! Maven coordinates and where their jars live in a repository.

use vstd::prelude::*;
use crate::text::{field_end, find_colon, push_char, push_str};

verus! {

/// The text with every dot turned into a slash.
pub open spec fn dots_to_slashes(s: Seq<char>) -> Seq<char> {
    s.map_values(|c: char| if c == '.' { '/' } else { c })
}

/// The repository path of `group:artifact:version[:...]`:
/// `group-with-slashes/artifact/version/artifact-version.jar`. A name with
/// fewer than three parts is taken as a path as it stands.
pub open spec fn maven_path(name: Seq<char>) -> Seq<char> {
    let e0 = field_end(name, 0);
    let e1 = field_end(name, e0 + 1);
    let e2 = field_end(name, e1 + 1);
    if e0 < name.len() && e1 < name.len() {
        let group = name.subrange(0, e0);
        let artifact = name.subrange(e0 + 1, e1);
        let version = name.subrange(e1 + 1, e2);
        dots_to_slashes(group) + "/"@ + artifact + "/"@ + version + "/"@ + artifact + "-"@ + version
            + ".jar"@
    } else {
        name
    }
}

fn push_with_slashes(out: &mut String, s: &str)
    ensures
        final(out)@ == old(out)@ + dots_to_slashes(s@),
{
    let len = s.unicode_len();
    let mut i: usize = 0;
    while i < len
        invariant
            i <= len,
            len == s@.len(),
            out@ == old(out)@ + dots_to_slashes(s@.take(i as int)),
        decreases len - i,
    {
        let c = s.get_char(i);
        if c == '.' {
            push_char(out, '/');
        } else {
            push_char(out, c);
        }
        assert(dots_to_slashes(s@.take(i + 1)) =~= dots_to_slashes(s@.take(i as int)).push(
            if c == '.' { '/' } else { c },
        ));
        i = i + 1;
    }
    assert(s@.take(len as int) =~= s@);
}

/// The repository path of a Maven coordinate.
pub fn maven_name_to_path(name: &str) -> (r: String)
    ensures
        r@ == maven_path(name@),
{
    let len = name.unicode_len();
    let e0 = find_colon(name, 0, len);
    if e0 >= len {
        return name.to_string();
    }
    let e1 = find_colon(name, e0 + 1, len);
    if e1 >= len {
        return name.to_string();
    }
    let e2 = find_colon(name, e1 + 1, len);
    let group = name.substring_char(0, e0);
    let artifact = name.substring_char(e0 + 1, e1);
    let version = name.substring_char(e1 + 1, e2);
    let mut out = String::new();
    push_with_slashes(&mut out, group);
    push_str(&mut out, "/");
    push_str(&mut out, artifact);
    push_str(&mut out, "/");
    push_str(&mut out, version);
    push_str(&mut out, "/");
    push_str(&mut out, artifact);
    push_str(&mut out, "-");
    push_str(&mut out, version);
    push_str(&mut out, ".jar");
    assert(out@ =~= maven_path(name@));
    out
}

} // verus!
