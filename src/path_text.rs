//! Paths as `/`-separated text: the final name and its extension.

use vstd::prelude::*;

verus! {

/// The final segment of `p`: every character after its last `/`
/// (all of `p` when it holds no `/`).
pub open spec fn base_name(p: Seq<char>) -> Seq<char>
    decreases p.len(),
{
    if p.len() == 0 || p.last() == '/' {
        Seq::empty()
    } else {
        base_name(p.drop_last()).push(p.last())
    }
}

/// `p` without trailing separators and trailing `/.` components, which
/// name no further entry.
pub open spec fn trim_trailing(p: Seq<char>) -> Seq<char>
    decreases p.len(),
{
    if p.len() > 0 && p.last() == '/' {
        trim_trailing(p.drop_last())
    } else if p.len() >= 2 && p.last() == '.' && p[p.len() - 2] == '/' {
        trim_trailing(p.drop_last())
    } else {
        p
    }
}

/// `s` is `.` or `..`, which refer to a directory rather than name an entry.
pub open spec fn is_dot_segment(s: Seq<char>) -> bool {
    s =~= seq!['.'] || s =~= seq!['.', '.']
}

/// The name of the entry that `p` denotes: its final segment, once
/// trailing separators and `/.` components are set aside. There is none
/// when that segment is empty (the root, or an empty path), `.` or `..`.
pub open spec fn final_name(p: Seq<char>) -> Option<Seq<char>> {
    let s = base_name(trim_trailing(p));
    if s.len() == 0 || is_dot_segment(s) {
        None
    } else {
        Some(s)
    }
}

/// The extension of a file name: the characters after its last `.`.
pub open spec fn name_extension(n: Seq<char>) -> Option<Seq<char>>
    decreases n.len(),
{
    if n.len() == 0 {
        None
    } else if n.last() == '.' {
        Some(Seq::empty())
    } else {
        match name_extension(n.drop_last()) {
            Some(e) => Some(e.push(n.last())),
            None => None,
        }
    }
}

/// The extension of the final name of `p`.
pub open spec fn extension(p: Seq<char>) -> Option<Seq<char>> {
    match final_name(p) {
        Some(n) => name_extension(n),
        None => None,
    }
}

/// `k` is where the final segment of `p` starts.
pub open spec fn is_name_start(p: Seq<char>, k: int) -> bool {
    &&& 0 <= k <= p.len()
    &&& (k == 0 || p[k - 1] == '/')
    &&& forall|j: int| k <= j < p.len() ==> p[j] != '/'
}

proof fn lemma_base_name_from(p: Seq<char>, k: int)
    requires
        is_name_start(p, k),
    ensures
        base_name(p) =~= p.subrange(k, p.len() as int),
    decreases p.len(),
{
    if p.len() > k {
        lemma_base_name_from(p.drop_last(), k);
    }
}

/// `d` is the position of the last `.` of `n`.
pub open spec fn is_last_dot(n: Seq<char>, d: int) -> bool {
    &&& 0 <= d < n.len()
    &&& n[d] == '.'
    &&& forall|j: int| d < j < n.len() ==> n[j] != '.'
}

proof fn lemma_extension_at(n: Seq<char>, d: int)
    requires
        is_last_dot(n, d),
    ensures
        name_extension(n) == Some(n.subrange(d + 1, n.len() as int)),
    decreases n.len(),
{
    if n.last() != '.' {
        lemma_extension_at(n.drop_last(), d);
        assert(n.subrange(d + 1, n.len() as int) =~= n.drop_last().subrange(
            d + 1,
            n.len() - 1,
        ).push(n.last()));
    } else {
        assert(n.subrange(d + 1, n.len() as int) =~= Seq::<char>::empty());
    }
}

proof fn lemma_no_extension(n: Seq<char>)
    requires
        forall|j: int| 0 <= j < n.len() ==> n[j] != '.',
    ensures
        name_extension(n) is None,
    decreases n.len(),
{
    if n.len() > 0 {
        lemma_no_extension(n.drop_last());
    }
}

/// The position where the final segment of `path` starts.
fn name_start(path: &str) -> (k: usize)
    ensures
        is_name_start(path@, k as int),
{
    let n = path.unicode_len();
    let mut k: usize = n;
    while k > 0 && path.get_char(k - 1) != '/'
        invariant
            n == path@.len(),
            k <= n,
            forall|j: int| k <= j < n ==> path@[j] != '/',
        decreases k,
    {
        k = k - 1;
    }
    k
}

/// The length of `path` once trailing separators and `/.` components are
/// set aside.
fn trimmed_len(path: &str) -> (end: usize)
    ensures
        end <= path@.len(),
        path@.subrange(0, end as int) == trim_trailing(path@),
{
    let n = path.unicode_len();
    let mut end: usize = n;
    assert(path@.subrange(0, n as int) =~= path@);
    loop
        invariant
            n == path@.len(),
            end <= n,
            trim_trailing(path@.subrange(0, end as int)) == trim_trailing(path@),
        decreases end,
    {
        let p = Ghost(path@.subrange(0, end as int));
        if end > 0 && path.get_char(end - 1) == '/' {
            assert(p@.drop_last() =~= path@.subrange(0, end - 1));
            end = end - 1;
        } else if end >= 2 && path.get_char(end - 1) == '.' && path.get_char(end - 2) == '/' {
            assert(p@.drop_last() =~= path@.subrange(0, end - 1));
            end = end - 1;
        } else {
            return end;
        }
    }
}

/// The name of the entry that `path` denotes, if it has one.
pub fn file_name(path: &str) -> (r: Option<&str>)
    ensures
        r matches Some(s) ==> final_name(path@) == Some(s@),
        r is None ==> final_name(path@) is None,
{
    let end = trimmed_len(path);
    let t = path.substring_char(0, end);
    let k = name_start(t);
    proof {
        lemma_base_name_from(t@, k as int);
    }
    let s = t.substring_char(k, end);
    let len = end - k;
    if len == 0 || (len == 1 && s.get_char(0) == '.') || (len == 2 && s.get_char(0) == '.'
        && s.get_char(1) == '.') {
        None
    } else {
        proof {
            assert(!is_dot_segment(s@)) by {
                if s@ =~= seq!['.'] {
                    assert(s@[0] == '.');
                }
                if s@ =~= seq!['.', '.'] {
                    assert(s@[0] == '.' && s@[1] == '.');
                }
            }
        }
        Some(s)
    }
}

/// The extension of the final name of `path`, if it has one.
pub fn file_extension(path: &str) -> (r: Option<&str>)
    ensures
        r matches Some(e) ==> extension(path@) == Some(e@),
        r is None ==> extension(path@) is None,
{
    let name = match file_name(path) {
        Some(name) => name,
        None => return None,
    };
    let n = name.unicode_len();
    let mut d: usize = n;
    while d > 0 && name.get_char(d - 1) != '.'
        invariant
            n == name@.len(),
            d <= n,
            forall|j: int| d <= j < n ==> name@[j] != '.',
        decreases d,
    {
        d = d - 1;
    }
    if d > 0 {
        proof {
            lemma_extension_at(name@, d - 1);
        }
        Some(name.substring_char(d, n))
    } else {
        proof {
            lemma_no_extension(name@);
        }
        None
    }
}

} // verus!
