//! String and path helpers shared by the whole crate, together with the
//! generic error-category type used when reporting failures to the user.

use vstd::prelude::*;

verus! {

use vstd::string::StrSliceExecFns;
use vstd::string::StringExecFns;

/// Message shown when the project's config file (project.lua) is missing.
pub const MISSING_CFG: &'static str = "Failed to find the project's config file (project.lua)";

/// Compiler used when the configuration does not name one.
pub const DEFAULT_COMPILER: &'static str = "gcc";

/// True when `suffix` is a suffix of `s`.
pub open spec fn ends_with(s: Seq<char>, suffix: Seq<char>) -> bool {
    suffix.is_suffix_of(s)
}

/// Index of the last occurrence of `c` in `s`, or -1 when `c` does not occur.
pub open spec fn last_index_of_char(s: Seq<char>, c: char) -> int
    decreases s.len(),
{
    if s.len() == 0 {
        -1
    } else if s[s.len() - 1] == c {
        s.len() - 1
    } else {
        last_index_of_char(s.drop_last(), c)
    }
}

/// The part of `s` strictly after the last occurrence of `c`
/// (all of `s` when `c` does not occur).
pub open spec fn last_segment(s: Seq<char>, c: char) -> Seq<char> {
    s.subrange(last_index_of_char(s, c) + 1, s.len() as int)
}

pub proof fn lemma_last_index_of_char(s: Seq<char>, c: char)
    ensures
        -1 <= last_index_of_char(s, c) < s.len(),
        last_index_of_char(s, c) >= 0 ==> s[last_index_of_char(s, c)] == c,
        forall|j: int| last_index_of_char(s, c) < j < s.len() ==> s[j] != c,
    decreases s.len(),
{
    if s.len() == 0 {
    } else if s[s.len() - 1] == c {
    } else {
        lemma_last_index_of_char(s.drop_last(), c);
        assert forall|j: int| last_index_of_char(s, c) < j < s.len() implies s[j] != c by {
            if j < s.len() - 1 {
                assert(s.drop_last()[j] == s[j]);
            }
        }
    }
}

/// `last_index_of_char` is the unique position that carries `c` with nothing
/// equal to `c` after it.
pub proof fn lemma_last_index_of_char_unique(s: Seq<char>, c: char, k: int)
    requires
        -1 <= k < s.len(),
        k >= 0 ==> s[k] == c,
        forall|j: int| k < j < s.len() ==> s[j] != c,
        k == -1 ==> forall|j: int| 0 <= j < s.len() ==> s[j] != c,
    ensures
        last_index_of_char(s, c) == k,
    decreases s.len(),
{
    if s.len() == 0 {
    } else if s[s.len() - 1] == c {
        assert(k == s.len() - 1);
    } else {
        assert(k < s.len() - 1);
        lemma_last_index_of_char_unique(s.drop_last(), c, k);
    }
}

/// Exact string equality, decided character by character.
pub fn str_eq(a: &str, b: &str) -> (r: bool)
    ensures
        r == (a@ == b@),
{
    let an = a.unicode_len();
    let bn = b.unicode_len();
    if an != bn {
        assert(a@ != b@);
        return false;
    }
    let mut i: usize = 0;
    while i < an
        invariant
            0 <= i <= an,
            an == a@.len(),
            an == b@.len(),
            forall|j: int| 0 <= j < i ==> a@[j] == b@[j],
        decreases an - i,
    {
        if a.get_char(i) != b.get_char(i) {
            return false;
        }
        i += 1;
    }
    proof {
        assert(a@ =~= b@);
    }
    true
}

/// True when `s` ends with `suffix`, compared character by character.
pub fn str_ends_with(s: &str, suffix: &str) -> (r: bool)
    ensures
        r == ends_with(s@, suffix@),
{
    let n = s.unicode_len();
    let m = suffix.unicode_len();
    if m > n {
        return false;
    }
    let mut i: usize = 0;
    while i < m
        invariant
            0 <= i <= m <= n,
            n == s@.len(),
            m == suffix@.len(),
            forall|j: int| 0 <= j < i ==> s@[n - m + j] == suffix@[j],
        decreases m - i,
    {
        if s.get_char(n - m + i) != suffix.get_char(i) {
            assert(s@.subrange(n - m, n as int)[i as int] != suffix@[i as int]);
            return false;
        }
        i += 1;
    }
    proof {
        assert(suffix@ =~= s@.subrange(n - m, n as int));
    }
    true
}

/// The name of the last path component of `cur_dir`: the part after the last
/// `/`, or the whole string when it holds no `/`. `None` when that part is
/// empty.
pub fn root_dir_name(cur_dir: &str) -> (r: Option<&str>)
    ensures
        match r {
            Some(name) => name@ == last_segment(cur_dir@, '/') && name@.len() > 0,
            None => last_segment(cur_dir@, '/').len() == 0,
        },
{
    let seg = last_segment_str(cur_dir, '/');
    if seg.unicode_len() == 0 {
        None
    } else {
        Some(seg)
    }
}

/// The substring of `s` strictly after the last occurrence of `c`.
pub fn last_segment_str(s: &str, c: char) -> (r: &str)
    ensures
        r@ == last_segment(s@, c),
{
    let n = s.unicode_len();
    let mut i: usize = n;
    while i > 0
        invariant
            0 <= i <= n,
            n == s@.len(),
            forall|j: int| i <= j < n ==> s@[j] != c,
        decreases i,
    {
        if s.get_char(i - 1) == c {
            proof {
                lemma_last_index_of_char_unique(s@, c, i - 1);
            }
            return s.substring_char(i, n);
        }
        i -= 1;
    }
    proof {
        lemma_last_index_of_char_unique(s@, c, -1);
        assert(s@.subrange(0, n as int) =~= s@);
    }
    s
}

/// A fresh copy of a vector of strings, element by element.
pub fn clone_string_vec(v: &Vec<String>) -> (r: Vec<String>)
    ensures
        r.deep_view() == v.deep_view(),
{
    let mut out: Vec<String> = Vec::new();
    let mut i: usize = 0;
    while i < v.len()
        invariant
            0 <= i <= v.len(),
            out@.len() == i,
            forall|j: int| 0 <= j < i ==> out.deep_view()[j] == v.deep_view()[j],
        decreases v.len() - i,
    {
        assert(v.deep_view()[i as int] == v[i as int]@);
        out.push(String::from_str(v[i].as_str()));
        i += 1;
    }
    proof {
        assert(out.deep_view() =~= v.deep_view());
    }
    out
}

/// Appends a fresh copy of every string of `src` to `dst`, in order.
pub fn append_string_vec(dst: &mut Vec<String>, src: &Vec<String>)
    ensures
        final(dst).deep_view() == old(dst).deep_view() + src.deep_view(),
{
    let ghost base = dst.deep_view();
    let mut i: usize = 0;
    while i < src.len()
        invariant
            0 <= i <= src.len(),
            dst@.len() == base.len() + i,
            forall|j: int| 0 <= j < base.len() ==> dst.deep_view()[j] == base[j],
            forall|j: int|
                0 <= j < i ==> dst.deep_view()[base.len() + j] == src.deep_view()[j],
        decreases src.len() - i,
    {
        assert(src.deep_view()[i as int] == src[i as int]@);
        dst.push(String::from_str(src[i].as_str()));
        i += 1;
    }
    proof {
        assert(dst.deep_view() =~= base + src.deep_view());
    }
}

/// True when `v` holds a string equal to `s`.
pub fn vec_contains_str(v: &Vec<String>, s: &str) -> (r: bool)
    ensures
        r == v.deep_view().contains(s@),
{
    let mut i: usize = 0;
    while i < v.len()
        invariant
            0 <= i <= v.len(),
            forall|j: int| 0 <= j < i ==> v.deep_view()[j] != s@,
        decreases v.len() - i,
    {
        assert(v.deep_view()[i as int] == v[i as int]@);
        if str_eq(v[i].as_str(), s) {
            return true;
        }
        i += 1;
    }
    false
}

/// The index of the last occurrence of `c` in `s`, if any.
pub fn find_last_char(s: &str, c: char) -> (r: Option<usize>)
    ensures
        match r {
            Some(k) => k == last_index_of_char(s@, c),
            None => last_index_of_char(s@, c) == -1,
        },
{
    let n = s.unicode_len();
    let mut i: usize = n;
    while i > 0
        invariant
            0 <= i <= n,
            n == s@.len(),
            forall|j: int| i <= j < n ==> s@[j] != c,
        decreases i,
    {
        if s.get_char(i - 1) == c {
            proof {
                lemma_last_index_of_char_unique(s@, c, i - 1);
            }
            return Some(i - 1);
        }
        i -= 1;
    }
    proof {
        lemma_last_index_of_char_unique(s@, c, -1);
    }
    None
}

/// Turns `Ok` into `Some` and drops the error.
pub fn result_to_option<T, E>(res: Result<T, E>) -> (r: Option<T>)
    ensures
        match res {
            Ok(v) => r == Some(v),
            Err(_) => r is None,
        },
{
    match res {
        Ok(val) => Some(val),
        Err(_) => None,
    }
}

pub open spec fn spec_digit_char(d: int) -> char {
    seq!['0', '1', '2', '3', '4', '5', '6', '7', '8', '9'][d]
}

/// Decimal rendering of a non-negative number.
pub open spec fn spec_dec_str(n: nat) -> Seq<char>
    decreases n,
{
    if n < 10 {
        seq![spec_digit_char(n as int)]
    } else {
        spec_dec_str(n / 10).push(spec_digit_char((n % 10) as int))
    }
}

/// Decimal rendering of an integer, with a leading `-` when negative.
pub open spec fn spec_int_str(i: int) -> Seq<char> {
    if i >= 0 {
        spec_dec_str(i as nat)
    } else {
        seq!['-'] + spec_dec_str((-i) as nat)
    }
}

fn digit_str(d: u64) -> (r: &'static str)
    requires
        d < 10,
    ensures
        r@ == seq![spec_digit_char(d as int)],
{
    proof {
        reveal_strlit("0");
        reveal_strlit("1");
        reveal_strlit("2");
        reveal_strlit("3");
        reveal_strlit("4");
        reveal_strlit("5");
        reveal_strlit("6");
        reveal_strlit("7");
        reveal_strlit("8");
        reveal_strlit("9");
    }
    if d == 0 {
        "0"
    } else if d == 1 {
        "1"
    } else if d == 2 {
        "2"
    } else if d == 3 {
        "3"
    } else if d == 4 {
        "4"
    } else if d == 5 {
        "5"
    } else if d == 6 {
        "6"
    } else if d == 7 {
        "7"
    } else if d == 8 {
        "8"
    } else {
        "9"
    }
}

/// Renders `n` in decimal.
pub fn u64_to_string(n: u64) -> (r: String)
    ensures
        r@ == spec_dec_str(n as nat),
    decreases n,
{
    let d = n % 10;
    if n < 10 {
        String::from_str(digit_str(d))
    } else {
        let r = u64_to_string(n / 10);
        r.concat(digit_str(d))
    }
}

/// Renders `i` in decimal, with a leading `-` when negative.
pub fn i64_to_string(i: i64) -> (r: String)
    ensures
        r@ == spec_int_str(i as int),
{
    if i >= 0 {
        u64_to_string(i as u64)
    } else {
        let mag: u64 = if i == i64::MIN {
            9223372036854775808u64
        } else {
            (-i) as u64
        };
        proof {
            reveal_strlit("-");
        }
        let mut out = String::from_str("-");
        let digits = u64_to_string(mag);
        out.append(digits.as_str());
        proof {
            assert(out@ =~= seq!['-'] + spec_dec_str(mag as nat));
        }
        out
    }
}

/// The paths in `paths` that end with `ending`, in their original order.
pub open spec fn spec_files_with_ending(paths: Seq<Seq<char>>, ending: Seq<char>) -> Seq<Seq<char>> {
    paths.filter(|p: Seq<char>| ends_with(p, ending))
}

fn files_with_ending(paths: &Vec<String>, ending: &str) -> (r: Vec<String>)
    ensures
        r.deep_view() == spec_files_with_ending(paths.deep_view(), ending@),
{
    let ghost pred = |p: Seq<char>| ends_with(p, ending@);
    let mut out: Vec<String> = Vec::new();
    let mut i: usize = 0;
    while i < paths.len()
        invariant
            0 <= i <= paths.len(),
            out.deep_view() == paths.deep_view().take(i as int).filter(pred),
            pred == (|p: Seq<char>| ends_with(p, ending@)),
        decreases paths.len() - i,
    {
        let ghost prefix = paths.deep_view().take(i as int);
        let ghost prefix1 = paths.deep_view().take(i + 1);
        let ghost x = paths.deep_view()[i as int];
        proof {
            reveal(Seq::filter);
            assert(prefix1.drop_last() =~= prefix);
            assert(prefix1.last() == x);
            assert(prefix1.filter(pred) == if pred(x) {
                prefix.filter(pred).push(x)
            } else {
                prefix.filter(pred)
            });
        }
        let ghost out0 = out.deep_view();
        if str_ends_with(paths[i].as_str(), ending) {
            out.push(paths[i].clone());
            proof {
                assert(out.deep_view() =~= out0.push(x));
            }
        }
        i += 1;
    }
    proof {
        assert(paths.deep_view().take(paths.len() as int) =~= paths.deep_view());
    }
    out
}

/// The C source files among `paths`: those ending in `.c`, in their
/// original order.
pub fn get_src_files(paths: &Vec<String>) -> (r: Vec<String>)
    ensures
        r.deep_view() == spec_files_with_ending(paths.deep_view(), ".c"@),
{
    files_with_ending(paths, ".c")
}

/// The header files among `paths`: those ending in `.h`, in their
/// original order.
pub fn get_header_files(paths: &Vec<String>) -> (r: Vec<String>)
    ensures
        r.deep_view() == spec_files_with_ending(paths.deep_view(), ".h"@),
{
    files_with_ending(paths, ".h")
}

/// Broad category of a failure, used to prefix user-facing error reports.
pub enum ErrorType {
    BUILD,
    EXECUTION,
    CREATION,
    DEPENDENCIES,
    MISC,
    INITIALIZATION,
}

pub open spec fn spec_err_str(err_type: ErrorType) -> Seq<char> {
    match err_type {
        ErrorType::BUILD => "Build"@,
        ErrorType::EXECUTION => "Execution"@,
        ErrorType::CREATION => "Project Creation"@,
        ErrorType::DEPENDENCIES => "Dependencies"@,
        ErrorType::MISC => "Misc"@,
        ErrorType::INITIALIZATION => "Initialization"@,
    }
}

/// The user-facing name of an error category.
pub fn get_err_str(err_type: &ErrorType) -> (r: &str)
    ensures
        r@ == spec_err_str(*err_type),
{
    match err_type {
        ErrorType::BUILD => "Build",
        ErrorType::EXECUTION => "Execution",
        ErrorType::CREATION => "Project Creation",
        ErrorType::DEPENDENCIES => "Dependencies",
        ErrorType::MISC => "Misc",
        ErrorType::INITIALIZATION => "Initialization",
    }
}

pub open spec fn spec_throw_error(err_type: ErrorType, msg: Seq<char>, ctx: Option<Seq<char>>) -> Seq<char> {
    let head = spec_err_str(err_type) + " error: "@ + msg;
    match ctx {
        Some(c) => head + "\nTip: "@ + c,
        None => head,
    }
}

/// Builds the full report for a failure: category, message, and the optional
/// tip. The caller prints it and ends the run.
pub fn throw_error(err_type: &ErrorType, msg: &str, ctx: Option<String>) -> (r: String)
    ensures
        r@ == spec_throw_error(
            *err_type,
            msg@,
            match ctx {
                Some(c) => Some(c@),
                None => None,
            },
        ),
{
    let mut out = String::new();
    out.append(get_err_str(err_type));
    out.append(" error: ");
    out.append(msg);
    match ctx {
        Some(c) => {
            out.append("\nTip: ");
            out.append(c.as_str());
        },
        None => {},
    }
    out
}

} // verus!
