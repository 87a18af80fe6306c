//! Byte paths split into parent and final component, and joined again, as
//! `std::path` does for Unix paths whose components are normal.
use vstd::prelude::*;

verus! {

/// The separator `/`.
pub open spec fn separator() -> u8 {
    47u8
}

/// A path without its trailing separators.
pub open spec fn trim_separators(p: Seq<u8>) -> Seq<u8>
    decreases p.len(),
{
    if p.len() > 0 && p.last() == separator() {
        trim_separators(p.drop_last())
    } else {
        p
    }
}

/// The position of the last separator in `t`, or -1 when there is none.
pub open spec fn last_separator(t: Seq<u8>) -> int
    decreases t.len(),
{
    if t.len() == 0 {
        -1
    } else if t.last() == separator() {
        t.len() - 1
    } else {
        last_separator(t.drop_last())
    }
}

/// The parent of a path and its final component, as `Path::parent` and
/// `Path::file_name` give them: none for the root, an empty path, or a path
/// ending in `.` or `..`. The parent of a one-component relative path is
/// empty; that of a component right under the root is the root.
pub open spec fn split_last(p: Seq<u8>) -> Option<(Seq<u8>, Seq<u8>)> {
    let t = trim_separators(p);
    let i = last_separator(t);
    let name = t.subrange(i + 1, t.len() as int);
    if t.len() == 0 || name == seq![46u8] || name == seq![46u8, 46u8] {
        None
    } else {
        let head = if i < 0 {
            Seq::empty()
        } else {
            trim_separators(t.subrange(0, i))
        };
        Some((if i >= 0 && head.len() == 0 { seq![separator()] } else { head }, name))
    }
}

/// `PathBuf::push` of a relative component: a separator goes between unless
/// the path is empty or already ends in one.
pub open spec fn pushed(base: Seq<u8>, component: Seq<u8>) -> Seq<u8> {
    if base.len() == 0 || base.last() == separator() {
        base + component
    } else {
        base + seq![separator()] + component
    }
}

/// `base` with the components pushed in reverse order of `missing`, which
/// lists them from the last one up.
pub open spec fn rejoined(base: Seq<u8>, missing: Seq<Seq<u8>>) -> Seq<u8>
    decreases missing.len(),
{
    if missing.len() == 0 {
        base
    } else {
        rejoined(pushed(base, missing.last()), missing.drop_last())
    }
}

fn trimmed_len(p: &[u8]) -> (n: usize)
    ensures
        n <= p@.len(),
        trim_separators(p@) == p@.subrange(0, n as int),
{
    let mut n = p.len();
    assert(p@.subrange(0, n as int) =~= p@);
    while n > 0 && p[n - 1] == 47u8
        invariant
            n <= p@.len(),
            trim_separators(p@) == trim_separators(p@.subrange(0, n as int)),
        decreases n,
    {
        assert(p@.subrange(0, n as int).drop_last() =~= p@.subrange(0, n - 1));
        n = n - 1;
    }
    n
}

fn last_separator_in(t: &[u8], len: usize) -> (r: Option<usize>)
    requires
        len <= t@.len(),
    ensures
        match r {
            None => last_separator(t@.subrange(0, len as int)) == -1,
            Some(i) => i < len && last_separator(t@.subrange(0, len as int)) == i as int,
        },
{
    let mut k = len;
    while k > 0 && t[k - 1] != 47u8
        invariant
            k <= len <= t@.len(),
            last_separator(t@.subrange(0, len as int)) == last_separator(t@.subrange(0, k as int)),
        decreases k,
    {
        assert(t@.subrange(0, k as int).drop_last() =~= t@.subrange(0, k - 1));
        k = k - 1;
    }
    if k == 0 {
        None
    } else {
        Some(k - 1)
    }
}

/// Splits a path into its parent and final component.
pub fn split_last_component(p: &[u8]) -> (r: Option<(Vec<u8>, Vec<u8>)>)
    ensures
        match r {
            None => split_last(p@) is None,
            Some((parent, name)) => split_last(p@) == Some((parent@, name@)),
        },
{
    let n = trimmed_len(p);
    let ghost t = p@.subrange(0, n as int);
    let sep = last_separator_in(p, n);
    let start: usize = match sep {
        None => 0,
        Some(i) => i + 1,
    };
    let name = crate::bytes::copy_range(p, start, n);
    assert(name@ =~= t.subrange(last_separator(t) + 1, t.len() as int));
    if n == 0 || (name.len() == 1 && name[0] == 46u8) || (name.len() == 2 && name[0] == 46u8 && name[1] == 46u8) {
        proof {
            if n != 0 {
                if name.len() == 1 {
                    assert(name@ =~= seq![46u8]);
                } else {
                    assert(name@ =~= seq![46u8, 46u8]);
                }
            }
        }
        return None;
    }
    proof {
        assert(name@ != seq![46u8]);
        assert(name@ != seq![46u8, 46u8]);
    }
    let parent = match sep {
        None => Vec::new(),
        Some(i) => {
            let head = crate::bytes::copy_range(p, 0, i);
            let h = trimmed_len(head.as_slice());
            assert(head@ =~= t.subrange(0, i as int));
            if h == 0 {
                vec![47u8]
            } else {
                let v = crate::bytes::copy_range(head.as_slice(), 0, h);
                v
            }
        },
    };
    proof {
        match sep {
            None => {
                assert(parent@ =~= Seq::<u8>::empty());
            },
            Some(i) => {
                if parent@ == seq![47u8] {
                } else {
                }
            },
        }
    }
    Some((parent, name))
}

/// Pushes the components of `missing` onto `base`, from the last listed one.
pub fn rejoin(base: Vec<u8>, missing: &Vec<Vec<u8>>) -> (r: Vec<u8>)
    ensures
        r@ == rejoined(base@, missing@.map_values(|m: Vec<u8>| m@)),
{
    let ghost views = missing@.map_values(|m: Vec<u8>| m@);
    let mut out = base;
    let mut k = missing.len();
    assert(views.subrange(0, k as int) =~= views);
    while k > 0
        invariant
            k <= missing@.len(),
            views == missing@.map_values(|m: Vec<u8>| m@),
            rejoined(base@, views) == rejoined(out@, views.subrange(0, k as int)),
        decreases k,
    {
        let c = &missing[k - 1];
        let ghost before = out@;
        if out.len() == 0 || out[out.len() - 1] == 47u8 {
        } else {
            out.push(47u8);
        }
        let mut j: usize = 0;
        let ghost mid = out@;
        while j < c.len()
            invariant
                j <= c@.len(),
                out@ == mid + c@.subrange(0, j as int),
            decreases c@.len() - j,
        {
            out.push(c[j]);
            j = j + 1;
            assert(out@ =~= mid + c@.subrange(0, j as int));
        }
        proof {
            assert(c@.subrange(0, c@.len() as int) =~= c@);
            assert(views[k - 1] == c@);
            if before.len() == 0 || before.last() == separator() {
                assert(mid == before);
            } else {
                assert(mid =~= before + seq![separator()]);
            }
            assert(out@ =~= pushed(before, c@));
            let s = views.subrange(0, k as int);
            assert(s.last() == c@);
            assert(s.drop_last() =~= views.subrange(0, k - 1));
        }
        k = k - 1;
    }
    out
}

} // verus!
