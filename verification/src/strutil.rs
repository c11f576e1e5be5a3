//! Verified string helpers: equality, ASCII case folding, and the
//! stripping of the decentralized-identifier prefix from client ids.

use vstd::prelude::*;

verus! {

/// ASCII lowercase of one character; other characters are unchanged.
pub open spec fn lower_char(c: char) -> char {
    if 'A' <= c && c <= 'Z' {
        ((c as u8) + 32) as char
    } else {
        c
    }
}

/// ASCII lowercase of a whole character sequence.
pub open spec fn lower(s: Seq<char>) -> Seq<char> {
    s.map_values(|c: char| lower_char(c))
}

fn exec_lower_char(c: char) -> (r: char)
    ensures
        r == lower_char(c),
{
    if 'A' <= c && c <= 'Z' {
        ((c as u8) + 32) as char
    } else {
        c
    }
}

pub(crate) fn clone_opt_string(o: &Option<String>) -> (r: Option<String>)
    ensures
        r == *o,
{
    match o {
        Some(s) => Some(s.clone()),
        None => None,
    }
}

/// String equality by contents.
pub fn str_eq(a: &str, b: &str) -> (r: bool)
    ensures
        r == (a@ == b@),
{
    let sa: String = a.to_owned();
    let sb: String = b.to_owned();
    sa == sb
}

/// Whether `s`, folded to ASCII lowercase, equals `t`.
pub fn eq_lower(s: &str, t: &str) -> (r: bool)
    ensures
        r == (lower(s@) == t@),
{
    let n = s.unicode_len();
    if n != t.unicode_len() {
        proof {
            assert(lower(s@).len() == s@.len());
            assert(lower(s@) != t@);
        }
        return false;
    }
    let mut i: usize = 0;
    while i < n
        invariant
            n == s@.len(),
            n == t@.len(),
            i <= n,
            forall|j: int| 0 <= j < i ==> lower_char(s@[j]) == t@[j],
        decreases n - i,
    {
        let sc = s.get_char(i);
        let tc = t.get_char(i);
        if exec_lower_char(sc) != tc {
            proof {
                assert(lower(s@)[i as int] != t@[i as int]);
            }
            return false;
        }
        i += 1;
    }
    proof {
        assert(lower(s@) =~= t@);
    }
    true
}

/// The prefix optionally present on client-facing identifiers.
pub open spec fn did_prefix() -> Seq<char> {
    "did:key:"@
}

/// A client-facing identifier after every leading occurrence of the
/// decentralized-identifier prefix has been removed.
pub open spec fn spec_strip_did(s: Seq<char>) -> Seq<char>
    decreases s.len(),
{
    if s.len() >= 8 && s.subrange(0, 8) == did_prefix() {
        spec_strip_did(s.subrange(8, s.len() as int))
    } else {
        s
    }
}

fn has_did_prefix(s: &str) -> (r: bool)
    ensures
        r == (s@.len() >= 8 && s@.subrange(0, 8) == did_prefix()),
{
    proof {
        reveal_strlit("did:key:");
    }
    if s.unicode_len() < 8 {
        return false;
    }
    let r = s.get_char(0) == 'd' && s.get_char(1) == 'i' && s.get_char(2) == 'd'
        && s.get_char(3) == ':' && s.get_char(4) == 'k' && s.get_char(5) == 'e'
        && s.get_char(6) == 'y' && s.get_char(7) == ':';
    proof {
        if r {
            assert(s@.subrange(0, 8) =~= did_prefix());
        } else {
            assert(s@.subrange(0, 8) != did_prefix()) by {
                if s@.subrange(0, 8) == did_prefix() {
                    assert(s@[0] == did_prefix()[0]);
                    assert(s@[1] == did_prefix()[1]);
                    assert(s@[2] == did_prefix()[2]);
                    assert(s@[3] == did_prefix()[3]);
                    assert(s@[4] == did_prefix()[4]);
                    assert(s@[5] == did_prefix()[5]);
                    assert(s@[6] == did_prefix()[6]);
                    assert(s@[7] == did_prefix()[7]);
                }
            }
        }
    }
    r
}

/// Strips every leading occurrence of the decentralized-identifier
/// prefix from an identifier.
pub fn strip_did_prefix(s: &str) -> (r: String)
    ensures
        r@ == spec_strip_did(s@),
{
    let mut cur: String = s.to_owned();
    loop
        invariant
            spec_strip_did(cur@) == spec_strip_did(s@),
        decreases cur@.len(),
    {
        if !has_did_prefix(cur.as_str()) {
            proof {
                assert(spec_strip_did(cur@) == cur@);
            }
            return cur;
        }
        let n = cur.as_str().unicode_len();
        let rest = cur.as_str().substring_char(8, n).to_owned();
        proof {
            assert(spec_strip_did(cur@) == spec_strip_did(rest@));
        }
        cur = rest;
    }
}

/// Stripping is idempotent over a fresh prefix: prepending the prefix
/// to any identifier changes nothing about the stripped form, so an id
/// submitted with the prefix and the same id submitted bare resolve to
/// the same stored identifier.
pub proof fn lemma_strip_did_prefix_of(s: Seq<char>)
    ensures
        spec_strip_did(did_prefix() + s) == spec_strip_did(s),
{
    let p = did_prefix() + s;
    reveal_strlit("did:key:");
    assert(p.len() >= 8);
    assert(p.subrange(0, 8) =~= did_prefix());
    assert(p.subrange(8, p.len() as int) =~= s);
}

} // verus!
