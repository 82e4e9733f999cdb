//! Parsing the output of the dynamic-linkage inspection utility.
//!
//! Each output line reports one dependency as `name => resolution`; a
//! resolution equal to `not found` marks a missing library.  The missing
//! names are collected without duplicates and sorted; a non-empty result
//! means the installed binary cannot run and is surfaced as a terminal,
//! descriptive error.

use vstd::prelude::*;
use vstd::string::StrSliceExecFns;

verus! {

/// Whitespace stripped from the ends of an output line.
pub open spec fn is_line_space(c: char) -> bool {
    c == ' ' || c == '\t' || c == '\r' || c == '\n'
}

/// The number of leading whitespace characters of `s`.
pub open spec fn space_prefix_len(s: Seq<char>) -> int
    decreases s.len(),
{
    if s.len() > 0 && is_line_space(s[0]) {
        1 + space_prefix_len(s.drop_first())
    } else {
        0
    }
}

/// The number of trailing whitespace characters of `s`.
pub open spec fn space_suffix_len(s: Seq<char>) -> int
    decreases s.len(),
{
    if s.len() > 0 && is_line_space(s.last()) {
        1 + space_suffix_len(s.drop_last())
    } else {
        0
    }
}

/// `s` with leading and trailing whitespace removed.
pub open spec fn trimmed(s: Seq<char>) -> Seq<char> {
    if space_prefix_len(s) + space_suffix_len(s) >= s.len() {
        Seq::<char>::empty()
    } else {
        s.subrange(space_prefix_len(s), s.len() - space_suffix_len(s))
    }
}

/// The leading-whitespace count is the first non-whitespace position.
proof fn lemma_space_prefix(s: Seq<char>)
    ensures
        0 <= space_prefix_len(s) <= s.len(),
        forall|j: int| 0 <= j < space_prefix_len(s) ==> is_line_space(#[trigger] s[j]),
        space_prefix_len(s) < s.len() ==> !is_line_space(s[space_prefix_len(s)]),
    decreases s.len(),
{
    if s.len() > 0 && is_line_space(s[0]) {
        lemma_space_prefix(s.drop_first());
        assert forall|j: int| 0 <= j < space_prefix_len(s) implies is_line_space(
            #[trigger] s[j],
        ) by {
            if j > 0 {
                assert(s.drop_first()[j - 1] == s[j]);
            }
        }
        if space_prefix_len(s) < s.len() {
            assert(s.drop_first()[space_prefix_len(s) - 1] == s[space_prefix_len(s)]);
        }
    }
}

/// The trailing-whitespace count is the first non-whitespace position
/// from the end.
proof fn lemma_space_suffix(s: Seq<char>)
    ensures
        0 <= space_suffix_len(s) <= s.len(),
        forall|j: int|
            s.len() - space_suffix_len(s) <= j < s.len() ==> is_line_space(#[trigger] s[j]),
        space_suffix_len(s) < s.len() ==> !is_line_space(s[s.len() - space_suffix_len(s) - 1]),
    decreases s.len(),
{
    if s.len() > 0 && is_line_space(s.last()) {
        lemma_space_suffix(s.drop_last());
        assert forall|j: int|
            s.len() - space_suffix_len(s) <= j < s.len() implies is_line_space(
            #[trigger] s[j],
        ) by {
            if j < s.len() - 1 {
                assert(s.drop_last()[j] == s[j]);
            }
        }
        if space_suffix_len(s) < s.len() {
            assert(s.drop_last()[s.len() - space_suffix_len(s) - 1] == s[s.len()
                - space_suffix_len(s) - 1]);
        }
    }
}

/// Strips whitespace from both ends of `line`.
fn trim_line(line: &str) -> (r: String)
    ensures
        r@ == trimmed(line@),
{
    proof {
        lemma_space_prefix(line@);
        lemma_space_suffix(line@);
    }
    let n = line.unicode_len();
    let mut a: usize = 0;
    while a < n && is_space_char(line.get_char(a))
        invariant
            0 <= a <= n,
            n == line@.len(),
            forall|j: int| 0 <= j < a ==> is_line_space(#[trigger] line@[j]),
        decreases n - a,
    {
        a = a + 1;
    }
    if a == n {
        proof {
            if space_prefix_len(line@) < n {
                assert(is_line_space(line@[space_prefix_len(line@)]));
            }
        }
        return String::new();
    }
    proof {
        assert(a == space_prefix_len(line@)) by {
            if a < space_prefix_len(line@) {
                assert(is_line_space(line@[a as int]));
            }
            if space_prefix_len(line@) < a {
                assert(is_line_space(line@[space_prefix_len(line@)]));
            }
        }
    }
    let mut b: usize = n;
    while b > a && is_space_char(line.get_char(b - 1))
        invariant
            a <= b <= n,
            n == line@.len(),
            !is_line_space(line@[a as int]),
            forall|j: int| b <= j < n ==> is_line_space(#[trigger] line@[j]),
        decreases b,
    {
        b = b - 1;
    }
    proof {
        assert(b > a);
        assert(b == n - space_suffix_len(line@)) by {
            if b < n - space_suffix_len(line@) {
                assert(is_line_space(line@[b as int]));
            }
            if n - space_suffix_len(line@) < b {
                assert(is_line_space(line@[n - space_suffix_len(line@) - 1]));
                assert(n - space_suffix_len(line@) - 1 >= a);
            }
        }
    }
    let t = line.substring_char(a, b);
    t.to_owned()
}

/// Whether `c` is stripped by trimming.
fn is_space_char(c: char) -> (r: bool)
    ensures
        r == is_line_space(c),
{
    c == ' ' || c == '\t' || c == '\r' || c == '\n'
}

/// The separator between a dependency and its resolution.
pub open spec fn arrow_seq() -> Seq<char> {
    seq![' ', '=', '>', ' ']
}

/// The resolution text that marks a missing library.
pub open spec fn not_found_seq() -> Seq<char> {
    seq!['n', 'o', 't', ' ', 'f', 'o', 'u', 'n', 'd']
}

/// Whether the separator stands at position `i` of `s`.
pub open spec fn arrow_at(s: Seq<char>, i: int) -> bool {
    0 <= i && i + 4 <= s.len() && s.subrange(i, i + 4) == arrow_seq()
}

/// The first separator position at or after `i`, or -1.
pub open spec fn first_arrow_from(s: Seq<char>, i: int) -> int
    decreases s.len() - i,
{
    if i < 0 || i + 4 > s.len() {
        -1
    } else if arrow_at(s, i) {
        i
    } else {
        first_arrow_from(s, i + 1)
    }
}

/// The missing-library name a line reports, if any: the trimmed line
/// must split at its first separator with resolution `not found`.
pub open spec fn missing_line_name(line: Seq<char>) -> Option<Seq<char>> {
    let t = trimmed(line);
    let i = first_arrow_from(t, 0);
    if i >= 0 && t.subrange(i + 4, t.len() as int) =~= not_found_seq() {
        Some(t.subrange(0, i))
    } else {
        None
    }
}

/// If no separator stands in `[k, i)` and one stands at `i`, the first
/// separator at or after `k` is at `i`.
proof fn lemma_first_arrow_found(s: Seq<char>, k: int, i: int)
    requires
        0 <= k <= i,
        arrow_at(s, i),
        forall|j: int| k <= j < i ==> !arrow_at(s, j),
    ensures
        first_arrow_from(s, k) == i,
    decreases i - k,
{
    if k < i {
        lemma_first_arrow_found(s, k + 1, i);
    }
}

/// If no separator stands at or after `k`, there is no first separator.
proof fn lemma_first_arrow_absent(s: Seq<char>, k: int)
    requires
        0 <= k,
        forall|j: int| k <= j ==> !arrow_at(s, j),
    ensures
        first_arrow_from(s, k) == -1,
    decreases s.len() - k,
{
    if k + 4 <= s.len() {
        lemma_first_arrow_absent(s, k + 1);
    }
}

/// Parses one output line; the name is returned exactly when the line
/// reports a missing library.
pub fn parse_ldd_line(line: &str) -> (r: Option<String>)
    ensures
        r is Some <==> missing_line_name(line@) is Some,
        r matches Some(name) ==> missing_line_name(line@) matches Some(n) && name@ == n,
{
    let t = trim_line(line);
    let ts = t.as_str();
    let n = ts.unicode_len();
    let mut i: usize = 0;
    loop
        invariant
            0 <= i,
            i + 4 <= n + 4,
            n == t@.len(),
            t@ == trimmed(line@),
            ts@ == t@,
            forall|j: int| 0 <= j < i ==> !arrow_at(t@, j),
        decreases n + 4 - i,
    {
        if n - i < 4 {
            proof {
                lemma_first_arrow_absent(t@, 0);
            }
            return None;
        }
        if ts.get_char(i) == ' ' && ts.get_char(i + 1) == '=' && ts.get_char(i + 2) == '>'
            && ts.get_char(i + 3) == ' ' {
            proof {
                assert(t@.subrange(i as int, i + 4) =~= arrow_seq());
                lemma_first_arrow_found(t@, 0, i as int);
            }
            // the resolution after the separator must be exactly `not found`
            if n - (i + 4) == 9 {
                let p = i + 4;
                if ts.get_char(p) == 'n' && ts.get_char(p + 1) == 'o' && ts.get_char(p + 2) == 't'
                    && ts.get_char(p + 3) == ' ' && ts.get_char(p + 4) == 'f' && ts.get_char(p + 5)
                    == 'o' && ts.get_char(p + 6) == 'u' && ts.get_char(p + 7) == 'n' && ts.get_char(
                    p + 8,
                ) == 'd' {
                    proof {
                        assert(t@.subrange(i + 4, n as int) =~= not_found_seq());
                    }
                    let name = ts.substring_char(0, i);
                    return Some(name.to_owned());
                }
            }
            proof {
                assert(!(t@.subrange(i + 4, n as int) =~= not_found_seq()));
            }
            return None;
        }
        proof {
            assert(!(t@.subrange(i as int, i + 4) =~= arrow_seq())) by {
                if t@.subrange(i as int, i + 4) =~= arrow_seq() {
                    assert(t@[i as int] == ' ');
                    assert(t@[i + 1] == '=');
                    assert(t@[i + 2] == '>');
                    assert(t@[i + 3] == ' ');
                }
            }
        }
        i = i + 1;
    }
}

/// Code-point order on names, decided from position `k` on.
pub open spec fn lex_lt_from(a: Seq<char>, b: Seq<char>, k: int) -> bool
    decreases b.len() - k,
{
    if k >= b.len() {
        false
    } else if k >= a.len() {
        true
    } else if a[k] != b[k] {
        a[k] < b[k]
    } else {
        lex_lt_from(a, b, k + 1)
    }
}

/// Strict code-point order on names.
pub open spec fn lex_lt(a: Seq<char>, b: Seq<char>) -> bool {
    lex_lt_from(a, b, 0)
}

proof fn lemma_lex_total_from(a: Seq<char>, b: Seq<char>, k: int)
    requires
        0 <= k <= a.len(),
        k <= b.len(),
    ensures
        lex_lt_from(a, b, k) || lex_lt_from(b, a, k) || a.skip(k) =~= b.skip(k),
    decreases a.len() + b.len() - k,
{
    if k >= a.len() && k >= b.len() {
        assert(a.skip(k) =~= b.skip(k));
    } else if k < a.len() && k < b.len() && a[k] != b[k] {
        assert(a[k] < b[k] || b[k] < a[k]);
    } else if k < a.len() && k < b.len() && a[k] == b[k] {
        lemma_lex_total_from(a, b, k + 1);
        if a.skip(k + 1) =~= b.skip(k + 1) {
            assert(a.skip(k) =~= b.skip(k)) by {
                assert forall|j: int| 0 <= j < a.skip(k).len() implies a.skip(k)[j] == b.skip(k)[j]
                    by {
                    if j > 0 {
                        assert(a.skip(k + 1)[j - 1] == b.skip(k + 1)[j - 1]);
                    }
                }
            }
        }
    }
}

/// Two distinct names are ordered one way or the other.
pub proof fn lemma_lex_total(a: Seq<char>, b: Seq<char>)
    ensures
        lex_lt(a, b) || lex_lt(b, a) || a == b,
{
    lemma_lex_total_from(a, b, 0);
    assert(a.skip(0) =~= a);
    assert(b.skip(0) =~= b);
    if a.skip(0) =~= b.skip(0) {
        assert(a =~= b);
    }
}

proof fn lemma_lex_trans_from(a: Seq<char>, b: Seq<char>, c: Seq<char>, k: int)
    requires
        lex_lt_from(a, b, k),
        lex_lt_from(b, c, k),
    ensures
        lex_lt_from(a, c, k),
    decreases c.len() - k,
{
    if k < a.len() && k < b.len() && k < c.len() && a[k] == b[k] && b[k] == c[k] {
        lemma_lex_trans_from(a, b, c, k + 1);
    }
}

/// The order on names is transitive.
pub proof fn lemma_lex_trans(a: Seq<char>, b: Seq<char>, c: Seq<char>)
    requires
        lex_lt(a, b),
        lex_lt(b, c),
    ensures
        lex_lt(a, c),
{
    lemma_lex_trans_from(a, b, c, 0);
}

/// Decides the order of two names, from position `k` on.
fn text_lt_from(a: &str, b: &str, k: usize, na: usize, nb: usize) -> (r: bool)
    requires
        na == a@.len(),
        nb == b@.len(),
    ensures
        r == lex_lt_from(a@, b@, k as int),
    decreases nb - k,
{
    if k >= nb {
        false
    } else if k >= na {
        true
    } else {
        let ca = a.get_char(k);
        let cb = b.get_char(k);
        if ca != cb {
            ca < cb
        } else {
            text_lt_from(a, b, k + 1, na, nb)
        }
    }
}

/// Decides the code-point order of two names.
fn text_lt(a: &str, b: &str) -> (r: bool)
    ensures
        r == lex_lt(a@, b@),
{
    let na = a.unicode_len();
    let nb = b.unicode_len();
    text_lt_from(a, b, 0, na, nb)
}

/// The views of a sequence of names.
pub open spec fn name_views(s: Seq<String>) -> Seq<Seq<char>> {
    s.map_values(|x: String| x@)
}

/// Strictly ascending, hence duplicate-free.
pub open spec fn sorted_distinct(v: Seq<Seq<char>>) -> bool {
    forall|i: int, j: int| 0 <= i < j < v.len() ==> lex_lt(#[trigger] v[i], #[trigger] v[j])
}

/// Collects the missing-library names the inspection output reports:
/// exactly the names of lines whose resolution is `not found`, without
/// duplicates, in ascending code-point order.  A non-empty result means
/// the binary cannot run here.
pub fn missing_libraries(lines: &Vec<String>) -> (r: Vec<String>)
    ensures
        sorted_distinct(name_views(r@)),
        forall|nm: Seq<char>|
            name_views(r@).contains(nm) <==> exists|i: int|
                0 <= i < lines@.len() && missing_line_name(#[trigger] lines@[i]@) == Some(nm),
{
    let n = lines.len();
    let mut out: Vec<String> = Vec::new();
    let mut li: usize = 0;
    while li < n
        invariant
            0 <= li <= n,
            n == lines@.len(),
            sorted_distinct(name_views(out@)),
            forall|nm: Seq<char>|
                name_views(out@).contains(nm) <==> exists|i: int|
                    0 <= i < li && missing_line_name(#[trigger] lines@[i]@) == Some(nm),
        decreases n - li,
    {
        let parsed = parse_ldd_line(lines[li].as_str());
        match parsed {
            Some(name) => {
                let mut present = false;
                let m = out.len();
                let mut j: usize = 0;
                while j < m
                    invariant
                        0 <= j <= m,
                        m == out@.len(),
                        !present ==> forall|q: int| 0 <= q < j ==> name_views(out@)[q] != name@,
                        present ==> name_views(out@).contains(name@),
                    decreases m - j,
                {
                    if out[j] == name {
                        present = true;
                        proof {
                            assert(name_views(out@)[j as int] == name@);
                        }
                        j = m;
                    } else {
                        j = j + 1;
                    }
                }
                if !present {
                    let mut pos: usize = 0;
                    while pos < out.len() && text_lt(out[pos].as_str(), name.as_str())
                        invariant
                            0 <= pos <= out@.len(),
                            forall|q: int|
                                0 <= q < pos ==> lex_lt(#[trigger] name_views(out@)[q], name@),
                        decreases out@.len() - pos,
                    {
                        pos = pos + 1;
                    }
                    let ghost prev = out@;
                    proof {
                        if pos < prev.len() {
                            // the new name is not present, so it strictly
                            // precedes the first entry not preceding it
                            lemma_lex_total(name_views(prev)[pos as int], name@);
                            assert(name_views(prev)[pos as int] != name@);
                        }
                    }
                    out.insert(pos, name);
                    proof {
                        let nv = name_views(out@);
                        let pv = name_views(prev);
                        assert(nv =~= pv.insert(pos as int, name@)) by {
                            assert forall|q: int| 0 <= q < nv.len() implies nv[q] == pv.insert(
                                pos as int,
                                name@,
                            )[q] by {}
                        }
                        assert forall|x: int, y: int| 0 <= x < y < nv.len() implies lex_lt(
                            #[trigger] nv[x],
                            #[trigger] nv[y],
                        ) by {
                            let p = pos as int;
                            if x < p && y == p {
                            } else if x == p && y > p {
                                lemma_lex_trans_known(name@, pv, p, y - 1);
                            } else if x < p && y > p {
                            } else {
                            }
                        }
                        assert forall|nm: Seq<char>| nv.contains(nm) implies (exists|i: int|
                            0 <= i < li + 1 && missing_line_name(#[trigger] lines@[i]@) == Some(
                                nm,
                            )) by {
                            if nm == name@ {
                                assert(missing_line_name(lines@[li as int]@) == Some(nm));
                            } else {
                                let q = choose|q: int| 0 <= q < nv.len() && nv[q] == nm;
                                if q < pos as int {
                                    assert(pv[q] == nm);
                                } else {
                                    assert(pv[q - 1] == nm);
                                }
                                assert(pv.contains(nm));
                            }
                        }
                        assert forall|nm: Seq<char>|
                            (exists|i: int|
                                0 <= i < li + 1 && missing_line_name(#[trigger] lines@[i]@)
                                    == Some(nm)) implies nv.contains(nm) by {
                            let i = choose|i: int|
                                0 <= i < li + 1 && missing_line_name(#[trigger] lines@[i]@)
                                    == Some(nm);
                            if i < li as int {
                                assert(pv.contains(nm));
                                let q = choose|q: int| 0 <= q < pv.len() && pv[q] == nm;
                                if q < pos as int {
                                    assert(nv[q] == nm);
                                } else {
                                    assert(nv[q + 1] == nm);
                                }
                            } else {
                                assert(nv[pos as int] == name@);
                            }
                        }
                    }
                } else {
                    proof {
                        assert forall|nm: Seq<char>| name_views(out@).contains(nm) implies (exists|
                            i: int,
                        |
                            0 <= i < li + 1 && missing_line_name(#[trigger] lines@[i]@) == Some(
                                nm,
                            )) by {}
                        assert forall|nm: Seq<char>|
                            (exists|i: int|
                                0 <= i < li + 1 && missing_line_name(#[trigger] lines@[i]@)
                                    == Some(nm)) implies name_views(out@).contains(nm) by {
                            let i = choose|i: int|
                                0 <= i < li + 1 && missing_line_name(#[trigger] lines@[i]@)
                                    == Some(nm);
                            if i == li as int {
                                assert(nm == name@);
                            }
                        }
                    }
                }
            },
            None => {
                proof {
                    assert forall|nm: Seq<char>|
                        (exists|i: int|
                            0 <= i < li + 1 && missing_line_name(#[trigger] lines@[i]@) == Some(
                                nm,
                            )) implies name_views(out@).contains(nm) by {
                        let i = choose|i: int|
                            0 <= i < li + 1 && missing_line_name(#[trigger] lines@[i]@) == Some(
                                nm,
                            );
                        assert(i < li as int);
                    }
                }
            },
        }
        li = li + 1;
    }
    out
}

/// Accepts the installed binary exactly when the inspection output
/// reports no missing library; otherwise the sorted, deduplicated names
/// are surfaced as a terminal error, since a binary with unresolved
/// dependencies cannot execute.
pub fn validate_libraries(lines: &Vec<String>) -> (r: Result<(), crate::BootstrapError>)
    ensures
        r is Ok <==> (forall|i: int|
            0 <= i < lines@.len() ==> missing_line_name(#[trigger] lines@[i]@) is None),
        r is Err ==> (r->Err_0 matches crate::BootstrapError::MissingSharedLibraries {
            names,
        } && name_views(names@).len() > 0 && sorted_distinct(name_views(names@)) && (forall|
            nm: Seq<char>,
        |
            name_views(names@).contains(nm) <==> exists|i: int|
                0 <= i < lines@.len() && missing_line_name(#[trigger] lines@[i]@) == Some(nm))),
{
    let missing = missing_libraries(lines);
    if missing.len() == 0 {
        proof {
            assert forall|i: int| 0 <= i < lines@.len() implies missing_line_name(
                #[trigger] lines@[i]@,
            ) is None by {
                if missing_line_name(lines@[i]@) is Some {
                    let nm = missing_line_name(lines@[i]@)->Some_0;
                    assert(name_views(missing@).contains(nm));
                }
            }
        }
        Ok(())
    } else {
        proof {
            assert(name_views(missing@).contains(name_views(missing@)[0]));
        }
        Err(crate::BootstrapError::MissingSharedLibraries { names: missing })
    }
}

/// Chains the order from `nm` through the entry at `p` to a later one.
proof fn lemma_lex_trans_known(nm: Seq<char>, pv: Seq<Seq<char>>, p: int, y: int)
    requires
        0 <= p <= y < pv.len(),
        lex_lt(nm, pv[p]),
        forall|i: int, j: int| 0 <= i < j < pv.len() ==> lex_lt(#[trigger] pv[i], #[trigger] pv[j]),
    ensures
        lex_lt(nm, pv[y]),
{
    if p < y {
        lemma_lex_trans(nm, pv[p], pv[y]);
    }
}

} // verus!
