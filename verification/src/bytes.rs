//! Byte-level helpers: ASCII literals as bytes, prefixes, NUL-separated
//! fields, and the `{:?}` rendering of a byte slice.
use vstd::prelude::*;

use crate::text::{
    append_str, decimal, push_decimal, first_index, has_prefix, holds, is_first_index,
    lemma_first_index, str_chars,
};

verus! {

/// The bytes of an ASCII text, one per character.
pub open spec fn ascii_bytes(s: Seq<char>) -> Seq<u8> {
    s.map_values(|c: char| c as u8)
}

/// The bytes of an ASCII literal.
pub fn literal_bytes(s: &str) -> (r: Vec<u8>)
    ensures
        r@ == ascii_bytes(s@),
{
    let chars = str_chars(s);
    let mut out: Vec<u8> = Vec::new();
    let mut i: usize = 0;
    while i < chars.len()
        invariant
            0 <= i <= chars@.len(),
            chars@ == s@,
            out@ == ascii_bytes(chars@.take(i as int)),
        decreases chars@.len() - i,
    {
        let ghost before = out@;
        out.push(chars[i] as u8);
        i = i + 1;
        proof {
            assert(ascii_bytes(chars@.take(i as int)) =~= before.push(chars@[i - 1] as u8));
        }
    }
    proof {
        assert(chars@.take(chars@.len() as int) =~= chars@);
    }
    out
}

/// `s` starts with `prefix`.
pub fn bytes_start_with(s: &[u8], prefix: &[u8]) -> (r: bool)
    ensures
        r == has_prefix(s@, prefix@),
{
    if prefix.len() > s.len() {
        return false;
    }
    let mut i: usize = 0;
    while i < prefix.len()
        invariant
            0 <= i <= prefix.len() <= s.len(),
            forall|j: int| 0 <= j < i ==> s@[j] == prefix@[j],
        decreases prefix.len() - i,
    {
        if s[i] != prefix[i] {
            assert(s@.subrange(0, prefix.len() as int)[i as int] != prefix@[i as int]);
            return false;
        }
        i = i + 1;
    }
    assert(s@.subrange(0, prefix.len() as int) =~= prefix@);
    true
}

/// Equality of two byte sequences.
pub fn bytes_eq(a: &[u8], b: &[u8]) -> (r: bool)
    ensures
        r == (a@ == b@),
{
    if a.len() != b.len() {
        return false;
    }
    let r = bytes_start_with(a, b);
    if r {
        assert(a@ =~= a@.subrange(0, b.len() as int));
    }
    r
}

/// A copy of `s[from..to]`.
pub fn copy_range(s: &[u8], from: usize, to: usize) -> (r: Vec<u8>)
    requires
        from <= to <= s.len(),
    ensures
        r@ == s@.subrange(from as int, to as int),
{
    let mut out: Vec<u8> = Vec::new();
    let mut i: usize = from;
    while i < to
        invariant
            from <= i <= to <= s.len(),
            out@ == s@.subrange(from as int, i as int),
        decreases to - i,
    {
        out.push(s[i]);
        i = i + 1;
        assert(out@ =~= s@.subrange(from as int, i as int));
    }
    out
}

/// The fields of `bytes` between NUL bytes, as `slice::split` yields them:
/// always at least one, empty ones included.
pub open spec fn nul_fields(bytes: Seq<u8>) -> Seq<Seq<u8>>
    decreases bytes.len(),
{
    if holds(bytes, 0u8) {
        let i = first_index(bytes, 0u8);
        if 0 <= i < bytes.len() {
            seq![bytes.subrange(0, i)] + nul_fields(bytes.subrange(i + 1, bytes.len() as int))
        } else {
            seq![bytes]
        }
    } else {
        seq![bytes]
    }
}

/// Position of the next NUL byte at or after `from`.
fn find_nul(s: &[u8], from: usize) -> (r: Option<usize>)
    requires
        from <= s.len(),
    ensures
        match r {
            Some(i) => from <= i < s.len() && is_first_index(s@.subrange(from as int, s.len() as int), 0u8, i - from),
            None => !holds(s@.subrange(from as int, s.len() as int), 0u8),
        },
{
    let mut i: usize = from;
    while i < s.len()
        invariant
            from <= i <= s.len(),
            forall|j: int| from <= j < i ==> s@[j] != 0u8,
        decreases s.len() - i,
    {
        if s[i] == 0u8 {
            let ghost rest = s@.subrange(from as int, s.len() as int);
            assert(forall|j: int| 0 <= j < i - from ==> rest[j] != 0u8);
            return Some(i);
        }
        i = i + 1;
    }
    let ghost rest = s@.subrange(from as int, s.len() as int);
    assert(forall|j: int| 0 <= j < rest.len() ==> rest[j] != 0u8);
    None
}

/// The NUL-separated fields of `bytes`.
pub fn split_nul_fields(bytes: &[u8]) -> (r: Vec<Vec<u8>>)
    ensures
        r@.map_values(|f: Vec<u8>| f@) == nul_fields(bytes@),
{
    let n = bytes.len();
    let mut out: Vec<Vec<u8>> = Vec::new();
    let mut start: usize = 0;
    proof {
        assert(bytes@.subrange(0, n as int) =~= bytes@);
        assert(out@.map_values(|f: Vec<u8>| f@) + nul_fields(bytes@) =~= nul_fields(bytes@));
    }
    loop
        invariant
            0 <= start <= n == bytes.len(),
            nul_fields(bytes@) == out@.map_values(|f: Vec<u8>| f@) + nul_fields(
                bytes@.subrange(start as int, n as int),
            ),
        ensures
            out@.map_values(|f: Vec<u8>| f@) == nul_fields(bytes@),
        decreases n - start,
    {
        let ghost rest = bytes@.subrange(start as int, n as int);
        match find_nul(bytes, start) {
            Some(i) => {
                let field = copy_range(bytes, start, i);
                proof {
                    lemma_first_index(rest, 0u8, i - start);
                    assert(rest.subrange(0, i - start) =~= field@);
                    assert(rest.subrange(i - start + 1, rest.len() as int) =~= bytes@.subrange(
                        i + 1,
                        n as int,
                    ));
                }
                let ghost before = out@.map_values(|f: Vec<u8>| f@);
                out.push(field);
                proof {
                    assert(out@.map_values(|f: Vec<u8>| f@) =~= before.push(field@));
                    assert(before.push(field@) + nul_fields(bytes@.subrange(i + 1, n as int))
                        =~= before + (seq![field@] + nul_fields(bytes@.subrange(i + 1, n as int))));
                }
                start = i + 1;
            },
            None => {
                let field = copy_range(bytes, start, n);
                let ghost before = out@.map_values(|f: Vec<u8>| f@);
                out.push(field);
                proof {
                    assert(out@.map_values(|f: Vec<u8>| f@) =~= before.push(field@));
                    assert(before + seq![field@] =~= before.push(field@));
                }
                return out;
            },
        }
    }
}

/// The decimal renderings of `bytes`, separated by `", "`.
pub open spec fn joined_decimals(bytes: Seq<u8>) -> Seq<char>
    decreases bytes.len(),
{
    if bytes.len() == 0 {
        Seq::empty()
    } else if bytes.len() == 1 {
        decimal(bytes[0] as nat)
    } else {
        joined_decimals(bytes.drop_last()) + ", "@ + decimal(bytes.last() as nat)
    }
}

/// How `{:?}` renders a byte slice: `[1, 2, 3]`.
pub open spec fn byte_list_text(bytes: Seq<u8>) -> Seq<char> {
    "["@ + joined_decimals(bytes) + "]"@
}

/// Renders a byte slice as `{:?}` does.
pub fn byte_list_string(bytes: &[u8]) -> (r: String)
    ensures
        r@ == byte_list_text(bytes@),
{
    let mut body = String::new();
    let mut i: usize = 0;
    while i < bytes.len()
        invariant
            0 <= i <= bytes.len(),
            body@ == joined_decimals(bytes@.take(i as int)),
        decreases bytes.len() - i,
    {
        let ghost before = body@;
        if i > 0 {
            append_str(&mut body, ", ");
        }
        push_decimal(&mut body, bytes[i] as usize);
        i = i + 1;
        proof {
            let t = bytes@.take(i as int);
            assert(t.drop_last() =~= bytes@.take(i - 1));
            if i == 1 {
                assert(before =~= Seq::<char>::empty());
                assert(body@ =~= decimal(t[0] as nat));
            } else {
                assert(body@ =~= before + ", "@ + decimal(t.last() as nat));
            }
        }
    }
    proof {
        assert(bytes@.take(bytes.len() as int) =~= bytes@);
    }
    let mut r = String::new();
    append_str(&mut r, "[");
    append_str(&mut r, body.as_str());
    append_str(&mut r, "]");
    assert(r@ =~= byte_list_text(bytes@));
    r
}

} // verus!
