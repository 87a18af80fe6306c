//! Character-level text model shared by the parsers: prefixes, line splitting,
//! trimming and decimal rendering, each with an executable counterpart.
use vstd::prelude::*;
use vstd::utf8::*;

verus! {

/// `prefix` is an initial segment of `s`.
pub open spec fn has_prefix<T>(s: Seq<T>, prefix: Seq<T>) -> bool {
    prefix.len() <= s.len() && s.subrange(0, prefix.len() as int) =~= prefix
}

/// `s` without `prefix`, when `s` starts with it.
pub open spec fn strip_prefix<T>(s: Seq<T>, prefix: Seq<T>) -> Option<Seq<T>> {
    if has_prefix(s, prefix) {
        Some(s.subrange(prefix.len() as int, s.len() as int))
    } else {
        None
    }
}

/// `i` is the position of the first `c` in `s`.
pub open spec fn is_first_index<T>(s: Seq<T>, c: T, i: int) -> bool {
    &&& 0 <= i < s.len()
    &&& s[i] == c
    &&& forall|j: int| 0 <= j < i ==> s[j] != c
}

/// `s` holds `c` somewhere.
pub open spec fn holds<T>(s: Seq<T>, c: T) -> bool {
    exists|i: int| 0 <= i < s.len() && s[i] == c
}

/// Position of the first `c` in `s`.
pub open spec fn first_index<T>(s: Seq<T>, c: T) -> int {
    choose|i: int| is_first_index(s, c, i)
}

/// Splits `s` around its first `c`, as `str::split_once` does.
pub open spec fn split_once<T>(s: Seq<T>, c: T) -> Option<(Seq<T>, Seq<T>)> {
    if holds(s, c) {
        let i = first_index(s, c);
        Some((s.subrange(0, i), s.subrange(i + 1, s.len() as int)))
    } else {
        None
    }
}

/// A line without the `'\r'` that preceded its `'\n'`.
pub open spec fn strip_cr(line: Seq<char>) -> Seq<char> {
    if line.len() > 0 && line.last() == '\r' {
        line.drop_last()
    } else {
        line
    }
}

/// The lines of `s`, as `str::lines` yields them: split at `'\n'`, a `'\r'`
/// just before a `'\n'` dropped, and no empty line after a final `'\n'`.
pub open spec fn lines(s: Seq<char>) -> Seq<Seq<char>>
    decreases s.len(),
{
    if s.len() == 0 {
        seq![]
    } else if holds(s, '\n') {
        let i = first_index(s, '\n');
        if 0 <= i < s.len() {
            seq![strip_cr(s.subrange(0, i))] + lines(s.subrange(i + 1, s.len() as int))
        } else {
            seq![]
        }
    } else {
        seq![s]
    }
}

/// The characters that `char::is_whitespace` accepts (Unicode `White_Space`).
pub open spec fn is_whitespace(c: char) -> bool {
    let v = c as u32;
    ||| 0x09 <= v <= 0x0d
    ||| v == 0x20
    ||| v == 0x85
    ||| v == 0xa0
    ||| v == 0x1680
    ||| 0x2000 <= v <= 0x200a
    ||| v == 0x2028
    ||| v == 0x2029
    ||| v == 0x202f
    ||| v == 0x205f
    ||| v == 0x3000
}

/// `s` without its leading whitespace.
pub open spec fn trim_start(s: Seq<char>) -> Seq<char>
    decreases s.len(),
{
    if s.len() > 0 && is_whitespace(s[0]) {
        trim_start(s.drop_first())
    } else {
        s
    }
}

/// `s` without its trailing whitespace.
pub open spec fn trim_end(s: Seq<char>) -> Seq<char>
    decreases s.len(),
{
    if s.len() > 0 && is_whitespace(s.last()) {
        trim_end(s.drop_last())
    } else {
        s
    }
}

/// `s` without leading and trailing whitespace, as `str::trim` gives it.
pub open spec fn trim(s: Seq<char>) -> Seq<char> {
    trim_end(trim_start(s))
}

/// The decimal digit `d`.
pub open spec fn digit_char(d: nat) -> char {
    ((48 + d) as u8) as char
}

/// The decimal rendering of `n`, as `usize::to_string` gives it.
pub open spec fn decimal(n: nat) -> Seq<char>
    decreases n,
{
    if n < 10 {
        seq![digit_char(n)]
    } else {
        decimal(n / 10).push(digit_char(n % 10))
    }
}

/// The characters of a byte sequence that is valid UTF-8.
pub open spec fn utf8_chars(bytes: Seq<u8>) -> Option<Seq<char>> {
    if valid_utf8(bytes) {
        Some(decode_utf8(bytes))
    } else {
        None
    }
}

/// Whatever holds for one first index holds for `first_index`.
pub proof fn lemma_first_index<T>(s: Seq<T>, c: T, i: int)
    requires
        is_first_index(s, c, i),
    ensures
        holds(s, c),
        first_index(s, c) == i,
{
    let k = first_index(s, c);
    assert(is_first_index(s, c, k));
    if k < i {
        assert(s[k] != c);
    } else if i < k {
        assert(s[i] != c);
    }
}

/// `split_once` at a known first index.
pub proof fn lemma_split_once_at<T>(s: Seq<T>, c: T, i: int)
    requires
        is_first_index(s, c, i),
    ensures
        split_once(s, c) == Some((s.subrange(0, i), s.subrange(i + 1, s.len() as int))),
{
    lemma_first_index(s, c, i);
}

/// The line structure of `s` seen from its first newline.
pub proof fn lemma_lines_at_newline(s: Seq<char>, i: int)
    requires
        is_first_index(s, '\n', i),
    ensures
        lines(s) == seq![strip_cr(s.subrange(0, i))] + lines(s.subrange(i + 1, s.len() as int)),
{
    lemma_first_index(s, '\n', i);
}

/// Text with no newline is a single line, or none when empty.
pub proof fn lemma_lines_without_newline(s: Seq<char>)
    requires
        forall|j: int| 0 <= j < s.len() ==> s[j] != '\n',
    ensures
        lines(s) == (if s.len() == 0 { Seq::<Seq<char>>::empty() } else { seq![s] }),
{
}

/// Leading whitespace of a known length.
pub proof fn lemma_trim_start_at(s: Seq<char>, k: int)
    requires
        0 <= k <= s.len(),
        forall|j: int| 0 <= j < k ==> is_whitespace(s[j]),
        k == s.len() || !is_whitespace(s[k]),
    ensures
        trim_start(s) == s.subrange(k, s.len() as int),
    decreases k,
{
    if k > 0 {
        assert(s.drop_first().subrange(k - 1, s.len() - 1) =~= s.subrange(k, s.len() as int));
        lemma_trim_start_at(s.drop_first(), k - 1);
    } else {
        assert(s.subrange(0, s.len() as int) =~= s);
    }
}

/// Trailing whitespace of a known length.
pub proof fn lemma_trim_end_at(s: Seq<char>, k: int)
    requires
        0 <= k <= s.len(),
        forall|j: int| k <= j < s.len() ==> is_whitespace(s[j]),
        k == 0 || !is_whitespace(s[k - 1]),
    ensures
        trim_end(s) == s.subrange(0, k),
    decreases s.len() - k,
{
    if k < s.len() {
        assert(s.drop_last().subrange(0, k) =~= s.subrange(0, k));
        lemma_trim_end_at(s.drop_last(), k);
    } else {
        assert(s.subrange(0, s.len() as int) =~= s);
    }
}

/// Appends `c` to `s` (`String::push`).
#[verifier::external_body]
pub(crate) fn push_char(s: &mut String, c: char)
    ensures
        final(s)@ == old(s)@.push(c),
{
    s.push(c)
}

/// The text of `bytes` when they are valid UTF-8 (`std::str::from_utf8`).
#[verifier::external_body]
pub(crate) fn utf8_str(bytes: &[u8]) -> (text: Option<&str>)
    ensures
        text is Some <==> valid_utf8(bytes@),
        text matches Some(t) ==> t@ == decode_utf8(bytes@),
{
    match std::str::from_utf8(bytes) {
        Ok(text) => Some(text),
        Err(_) => None,
    }
}

/// Name for what `String::from_utf8_lossy` makes of a byte sequence.
pub uninterp spec fn lossy_text(bytes: Seq<u8>) -> Seq<char>;

/// `String::from_utf8_lossy`: valid UTF-8 is decoded unchanged; other
/// byte sequences get U+FFFD in place of each invalid sequence, which this
/// contract leaves to the name `lossy_text`.
#[verifier::external_body]
pub(crate) fn utf8_lossy(bytes: &[u8]) -> (text: String)
    ensures
        text@ == lossy_text(bytes@),
        valid_utf8(bytes@) ==> text@ == decode_utf8(bytes@),
{
    String::from_utf8_lossy(bytes).into_owned()
}

/// The characters of `s`.
pub fn str_chars(s: &str) -> (chars: Vec<char>)
    ensures
        chars@ == s@,
{
    let mut out: Vec<char> = Vec::new();
    for c in iter: s.chars()
        invariant
            out@ == iter.seq().take(iter.index() as int),
    {
        out.push(c);
    }
    out
}

/// The text made of `chars`.
pub fn chars_string(chars: &[char]) -> (s: String)
    ensures
        s@ == chars@,
{
    let mut s = String::new();
    let mut i: usize = 0;
    while i < chars.len()
        invariant
            0 <= i <= chars.len(),
            s@ == chars@.subrange(0, i as int),
        decreases chars.len() - i,
    {
        push_char(&mut s, chars[i]);
        i = i + 1;
        assert(s@ =~= chars@.subrange(0, i as int));
    }
    assert(chars@.subrange(0, chars.len() as int) =~= chars@);
    s
}

/// The text of `chars[from..to]`.
pub fn slice_string(chars: &[char], from: usize, to: usize) -> (s: String)
    requires
        from <= to <= chars.len(),
    ensures
        s@ == chars@.subrange(from as int, to as int),
{
    let mut s = String::new();
    let mut i: usize = from;
    while i < to
        invariant
            from <= i <= to <= chars.len(),
            s@ == chars@.subrange(from as int, i as int),
        decreases to - i,
    {
        push_char(&mut s, chars[i]);
        i = i + 1;
        assert(s@ =~= chars@.subrange(from as int, i as int));
    }
    s
}

/// `s` followed by the text `tail`.
pub fn append_str(s: &mut String, tail: &str)
    ensures
        final(s)@ == old(s)@ + tail@,
{
    let chars = str_chars(tail);
    let mut i: usize = 0;
    while i < chars.len()
        invariant
            0 <= i <= chars.len(),
            chars@ == tail@,
            s@ == old(s)@ + chars@.subrange(0, i as int),
        decreases chars.len() - i,
    {
        push_char(s, chars[i]);
        i = i + 1;
        assert(s@ =~= old(s)@ + chars@.subrange(0, i as int));
    }
    assert(chars@.subrange(0, chars.len() as int) =~= chars@);
}

/// The text `a` followed by `b`.
pub fn concat_text(a: &str, b: &str) -> (s: String)
    ensures
        s@ == a@ + b@,
{
    let mut s = String::new();
    append_str(&mut s, a);
    append_str(&mut s, b);
    assert(s@ =~= a@ + b@);
    s
}

/// `s` starts with `prefix`.
pub fn starts_with(s: &[char], prefix: &[char]) -> (r: bool)
    ensures
        r == has_prefix(s@, prefix@),
{
    if prefix.len() > s.len() {
        return false;
    }
    let mut i: usize = 0;
    while i < prefix.len()
        invariant
            0 <= i <= prefix.len() <= s.len(),
            forall|j: int| 0 <= j < i ==> s@[j] == prefix@[j],
        decreases prefix.len() - i,
    {
        if s[i] != prefix[i] {
            assert(s@.subrange(0, prefix.len() as int)[i as int] != prefix@[i as int]);
            return false;
        }
        i = i + 1;
    }
    assert(s@.subrange(0, prefix.len() as int) =~= prefix@);
    true
}

/// Equality of two character sequences.
pub fn chars_eq(a: &[char], b: &[char]) -> (r: bool)
    ensures
        r == (a@ == b@),
{
    if a.len() != b.len() {
        return false;
    }
    let r = starts_with(a, b);
    if r {
        assert(a@ =~= a@.subrange(0, b.len() as int));
    }
    r
}

/// Equality of two texts.
pub fn text_eq(a: &str, b: &str) -> (r: bool)
    ensures
        r == (a@ == b@),
{
    let ca = str_chars(a);
    let cb = str_chars(b);
    chars_eq(ca.as_slice(), cb.as_slice())
}

/// Whether `c` is whitespace, as `char::is_whitespace` decides.
pub fn char_is_whitespace(c: char) -> (r: bool)
    ensures
        r == is_whitespace(c),
{
    let v = c as u32;
    (0x09 <= v && v <= 0x0d) || v == 0x20 || v == 0x85 || v == 0xa0 || v == 0x1680 || (0x2000
        <= v && v <= 0x200a) || v == 0x2028 || v == 0x2029 || v == 0x202f || v == 0x205f || v
        == 0x3000
}

/// `chars` without leading and trailing whitespace, as `str::trim` gives it.
pub fn trim_chars(chars: &[char]) -> (r: Vec<char>)
    ensures
        r@ == trim(chars@),
{
    let n = chars.len();
    let mut lo: usize = 0;
    while lo < n && char_is_whitespace(chars[lo])
        invariant
            0 <= lo <= n == chars.len(),
            forall|j: int| 0 <= j < lo ==> is_whitespace(chars@[j]),
        decreases n - lo,
    {
        lo = lo + 1;
    }
    proof {
        lemma_trim_start_at(chars@, lo as int);
    }
    let ghost start = chars@.subrange(lo as int, n as int);
    let mut hi: usize = n;
    while hi > lo && char_is_whitespace(chars[hi - 1])
        invariant
            lo <= hi <= n == chars.len(),
            start == chars@.subrange(lo as int, n as int),
            forall|j: int| hi <= j < n ==> is_whitespace(chars@[j]),
        decreases hi - lo,
    {
        hi = hi - 1;
    }
    proof {
        lemma_trim_end_at(start, hi - lo);
        assert(start.subrange(0, hi - lo) =~= chars@.subrange(lo as int, hi as int));
    }
    let mut r: Vec<char> = Vec::new();
    let mut i: usize = lo;
    while i < hi
        invariant
            lo <= i <= hi <= chars.len(),
            r@ == chars@.subrange(lo as int, i as int),
        decreases hi - i,
    {
        r.push(chars[i]);
        i = i + 1;
        assert(r@ =~= chars@.subrange(lo as int, i as int));
    }
    r
}

/// Position of the first `c` in `chars[from..]`, if any.
pub fn find_char(chars: &[char], from: usize, c: char) -> (r: Option<usize>)
    requires
        from <= chars.len(),
    ensures
        r matches Some(i) ==> from <= i < chars.len() && is_first_index(
            chars@.subrange(from as int, chars.len() as int),
            c,
            i - from,
        ),
        r is None ==> forall|j: int| from <= j < chars.len() ==> chars@[j] != c,
{
    let mut i: usize = from;
    while i < chars.len()
        invariant
            from <= i <= chars.len(),
            forall|j: int| from <= j < i ==> chars@[j] != c,
        decreases chars.len() - i,
    {
        if chars[i] == c {
            return Some(i);
        }
        i = i + 1;
    }
    None
}

/// The lines of `chars`, as `str::lines` yields them.
pub fn split_lines(chars: &[char]) -> (r: Vec<Vec<char>>)
    ensures
        r@.map_values(|l: Vec<char>| l@) == lines(chars@),
{
    let n = chars.len();
    let mut out: Vec<Vec<char>> = Vec::new();
    let mut start: usize = 0;
    proof {
        assert(chars@.subrange(0, n as int) =~= chars@);
        assert(out@.map_values(|l: Vec<char>| l@) + lines(chars@) =~= lines(chars@));
    }
    while start < n
        invariant
            0 <= start <= n == chars.len(),
            lines(chars@) == out@.map_values(|l: Vec<char>| l@) + lines(
                chars@.subrange(start as int, n as int),
            ),
        decreases n - start,
    {
        let ghost rest = chars@.subrange(start as int, n as int);
        match find_char(chars, start, '\n') {
            Some(i) => {
                let mut end = i;
                if end > start && chars[end - 1] == '\r' {
                    end = end - 1;
                }
                let mut line: Vec<char> = Vec::new();
                let mut k: usize = start;
                while k < end
                    invariant
                        start <= k <= end <= i < n == chars.len(),
                        line@ == chars@.subrange(start as int, k as int),
                    decreases end - k,
                {
                    line.push(chars[k]);
                    k = k + 1;
                    assert(line@ =~= chars@.subrange(start as int, k as int));
                }
                proof {
                    lemma_lines_at_newline(rest, i - start);
                    assert(rest.subrange(0, i - start) =~= chars@.subrange(start as int, i as int));
                    assert(rest.subrange(i - start + 1, rest.len() as int) =~= chars@.subrange(
                        i + 1,
                        n as int,
                    ));
                    assert(line@ == strip_cr(chars@.subrange(start as int, i as int))) by {
                        let full = chars@.subrange(start as int, i as int);
                        if full.len() > 0 && full.last() == '\r' {
                            assert(full.drop_last() =~= line@);
                        } else {
                            assert(full =~= line@);
                        }
                    }
                }
                let ghost before = out@.map_values(|l: Vec<char>| l@);
                out.push(line);
                proof {
                    assert(out@.map_values(|l: Vec<char>| l@) =~= before.push(line@));
                    assert(before.push(line@) + lines(chars@.subrange(i + 1, n as int)) =~= before
                        + (seq![line@] + lines(chars@.subrange(i + 1, n as int))));
                }
                start = i + 1;
            },
            None => {
                let mut line: Vec<char> = Vec::new();
                let mut k: usize = start;
                while k < n
                    invariant
                        start <= k <= n == chars.len(),
                        line@ == chars@.subrange(start as int, k as int),
                    decreases n - k,
                {
                    line.push(chars[k]);
                    k = k + 1;
                    assert(line@ =~= chars@.subrange(start as int, k as int));
                }
                proof {
                    lemma_lines_without_newline(rest);
                }
                let ghost before = out@.map_values(|l: Vec<char>| l@);
                out.push(line);
                proof {
                    assert(out@.map_values(|l: Vec<char>| l@) =~= before.push(line@));
                    assert(lines(chars@.subrange(n as int, n as int)) =~= Seq::<Seq<char>>::empty());
                    assert(before + seq![line@] =~= before.push(line@) + Seq::<Seq<char>>::empty());
                }
                start = n;
            },
        }
    }
    proof {
        assert(lines(chars@.subrange(n as int, n as int)) =~= Seq::<Seq<char>>::empty());
        assert(out@.map_values(|l: Vec<char>| l@) + Seq::<Seq<char>>::empty() =~= out@.map_values(
            |l: Vec<char>| l@,
        ));
    }
    out
}

/// The digit `d` as a character.
fn digit(d: usize) -> (c: char)
    requires
        d < 10,
    ensures
        c == digit_char(d as nat),
{
    let b: u8 = 48u8 + (d as u8);
    b as char
}

/// Appends the decimal rendering of `n` to `s`.
pub fn push_decimal(s: &mut String, n: usize)
    ensures
        final(s)@ == old(s)@ + decimal(n as nat),
    decreases n,
{
    if n >= 10 {
        push_decimal(s, n / 10);
    }
    push_char(s, digit(n % 10));
    assert(s@ =~= old(s)@ + decimal(n as nat));
}

/// The decimal rendering of `n` (`usize::to_string`).
pub fn decimal_string(n: usize) -> (s: String)
    ensures
        s@ == decimal(n as nat),
{
    let mut s = String::new();
    push_decimal(&mut s, n);
    assert(s@ =~= decimal(n as nat));
    s
}

} // verus!
