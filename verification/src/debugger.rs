//! Reading the path of the built board binary out of cargo's build log.

use vstd::prelude::*;
use vstd::string::StrSliceExecFns;

verus! {

/// Marker that precedes the path of a built executable in cargo's JSON log,
/// `"executable":"`. Libraries log `"executable":null`, so only the binary
/// matches it.
pub open spec fn exe_prefix() -> Seq<char> {
    seq!['\u{22}', 'e', 'x', 'e', 'c', 'u', 't', 'a', 'b', 'l', 'e', '\u{22}', ':', '\u{22}']
}

/// The marker as a vector of characters.
fn exe_prefix_chars() -> (r: Vec<char>)
    ensures
        r@ == exe_prefix(),
{
    let r = vec!['\u{22}', 'e', 'x', 'e', 'c', 'u', 't', 'a', 'b', 'l', 'e', '\u{22}', ':', '\u{22}'];
    assert(r@ =~= exe_prefix());
    r
}

/// Why no executable path could be read from a build log.
#[derive(Debug, Clone, Copy, PartialEq, Eq, Structural)]
pub enum BinPathError {
    /// The log holds no executable marker.
    ExecutableNotFound,
    /// The path after the first marker is not closed by a quote.
    ExecutableEndNotFound,
}

/// Whether `p` occurs in `s` at index `i`.
pub open spec fn occurs_at(s: Seq<char>, p: Seq<char>, i: int) -> bool {
    0 <= i && i + p.len() <= s.len() && s.subrange(i, i + p.len()) == p
}

/// Whether `i` is the first index at which `p` occurs in `s`.
pub open spec fn first_occurrence(s: Seq<char>, p: Seq<char>, i: int) -> bool {
    occurs_at(s, p, i) && forall|k: int| 0 <= k < i ==> !occurs_at(s, p, k)
}

/// Whether `j` is the first index at or after `from` that holds a quote.
pub open spec fn first_quote_from(s: Seq<char>, from: int, j: int) -> bool {
    from <= j < s.len() && s[j] == '\u{22}' && forall|k: int| from <= k < j ==> s[k] != '\u{22}'
}

/// Whether the first marker in `s` starts at `i` and the first quote after
/// it is at `j`.
pub open spec fn path_span(s: Seq<char>, i: int, j: int) -> bool {
    first_occurrence(s, exe_prefix(), i) && first_quote_from(s, i + exe_prefix().len(), j)
}

/// What reading the executable path from a log gives: the text between the
/// first marker and the next quote.
pub open spec fn bin_path_result(s: Seq<char>, r: Result<Seq<char>, BinPathError>) -> bool {
    let p = exe_prefix();
    match r {
        Err(BinPathError::ExecutableNotFound) => forall|i: int| !occurs_at(s, p, i),
        Err(BinPathError::ExecutableEndNotFound) => exists|i: int|
            first_occurrence(s, p, i) && forall|k: int| i + p.len() <= k < s.len() ==> s[k] != '\u{22}',
        Ok(path) => exists|i: int, j: int| #[trigger]
            path_span(s, i, j) && path == s.subrange(i + p.len(), j),
    }
}

/// A result with the path taken by its characters.
pub open spec fn result_chars(r: Result<String, BinPathError>) -> Result<Seq<char>, BinPathError> {
    match r {
        Ok(path) => Ok(path@),
        Err(e) => Err(e),
    }
}

/// The characters of a string slice.
fn chars_of(s: &str) -> (r: Vec<char>)
    ensures
        r@ == s@,
{
    broadcast use vstd::string::group_string_axioms;

    let mut r: Vec<char> = Vec::new();
    for c in it: s.chars()
        invariant
            r@.len() == it.index(),
            forall|k: int| 0 <= k < r@.len() ==> r@[k] == it.seq()[k],
    {
        r.push(c);
    }
    assert(r@ =~= s@);
    r
}

/// Whether `p` occurs in `s` at `i`.
fn matches_at(s: &Vec<char>, p: &Vec<char>, i: usize) -> (r: bool)
    requires
        i + p@.len() <= s@.len(),
        s@.len() <= usize::MAX,
    ensures
        r == occurs_at(s@, p@, i as int),
{
    let mut k: usize = 0;
    while k < p.len()
        invariant
            i + p@.len() <= s@.len(),
            s@.len() <= usize::MAX,
            k <= p@.len(),
            forall|m: int| 0 <= m < k ==> s@[i + m] == p@[m],
        decreases p@.len() - k,
    {
        if s[i + k] != p[k] {
            assert(s@.subrange(i as int, i + p@.len())[k as int] != p@[k as int]);
            return false;
        }
        k = k + 1;
    }
    assert(s@.subrange(i as int, i + p@.len()) =~= p@);
    true
}

/// Reads the path of the built executable from cargo's JSON build log: the
/// text between the first `"executable":"` and the next quote.
pub fn extract_bin_path_from_logs(log: &str) -> (r: Result<String, BinPathError>)
    ensures
        bin_path_result(log@, result_chars(r)),
{
    let s = chars_of(log);
    let p = exe_prefix_chars();
    let n = s.len();
    let m = p.len();
    if m > n {
        return Err(BinPathError::ExecutableNotFound);
    }
    let mut i: usize = 0;
    let mut found = false;
    while i <= n - m
        invariant_except_break
            forall|k: int| 0 <= k < i ==> !occurs_at(s@, p@, k),
            !found,
        invariant
            n == s@.len(),
            m == p@.len(),
            m <= n,
            s@ == log@,
            p@ == exe_prefix(),
            i <= n,
        ensures
            found ==> first_occurrence(s@, p@, i as int),
            !found ==> forall|k: int| !occurs_at(s@, p@, k),
        decreases n - i,
    {
        if matches_at(&s, &p, i) {
            found = true;
            break;
        }
        i = i + 1;
    }
    if !found {
        return Err(BinPathError::ExecutableNotFound);
    }
    let start = i + m;
    let mut j: usize = start;
    while j < n
        invariant
            n == s@.len(),
            start <= j <= n,
            forall|k: int| start <= k < j ==> s@[k] != '\u{22}',
        ensures
            j < n ==> s@[j as int] == '\u{22}',
            start <= j <= n,
            forall|k: int| start <= k < j ==> s@[k] != '\u{22}',
        decreases n - j,
    {
        if s[j] == '\u{22}' {
            break;
        }
        j = j + 1;
    }
    if j >= n {
        return Err(BinPathError::ExecutableEndNotFound);
    }
    let path = log.substring_char(start, j).to_owned();
    proof {
        assert(first_quote_from(s@, start as int, j as int));
        assert(path_span(log@, i as int, j as int));
    }
    Ok(path)
}

/// The marker is a quote, the word "executable", a quote, a colon and a
/// quote; and a path read from a log holds no quote.
pub proof fn lemma_exe_marker(log: Seq<char>, path: Seq<char>)
    requires
        bin_path_result(log, Ok(path)),
    ensures
        exe_prefix().len() == 14,
        exe_prefix()[0] == '\u{22}',
        exe_prefix().subrange(1, 11) == "executable"@,
        exe_prefix()[11] == '\u{22}',
        exe_prefix()[12] == ':',
        exe_prefix()[13] == '\u{22}',
        forall|k: int| 0 <= k < path.len() ==> path[k] != '\u{22}',
{
    reveal_strlit("executable");
    assert(exe_prefix().subrange(1, 11) =~= "executable"@);
    let (i, j) = choose|i: int, j: int| #[trigger] path_span(log, i, j) && path == log.subrange(
        i + exe_prefix().len(),
        j,
    );
    assert forall|k: int| 0 <= k < path.len() implies path[k] != '\u{22}' by {
        assert(path[k] == log[i + exe_prefix().len() + k]);
    }
}

} // verus!
