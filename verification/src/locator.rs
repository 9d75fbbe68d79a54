//! Decides where the external packaging tool lives.
//!
//! The host's executable-search command (`where` on Windows, `which`
//! elsewhere) is run outside this crate; the decision over what it printed
//! is made here. A successful search yields the first resolved path: the
//! first line of the output once surrounding whitespace is removed (on
//! Windows the search lists every match, one per line). Anything else — a
//! search that could not be spawned, a non-zero search exit, or blank
//! output — yields the long-form remediation message.

use vstd::prelude::*;
use vstd::string::StrSliceExecFns;

verus! {

/// Whitespace, as the Unicode `White_Space` property defines it — the set
/// `str::trim` removes.
pub open spec fn is_space(c: char) -> bool {
    let n = c as u32;
    (9 <= n && n <= 13) || n == 32 || n == 0x85 || n == 0xA0 || n == 0x1680 || (0x2000 <= n
        && n <= 0x200A) || n == 0x2028 || n == 0x2029 || n == 0x202F || n == 0x205F || n == 0x3000
}

/// A line-break character, as the search command separates its matches.
pub open spec fn is_line_break(c: char) -> bool {
    c == '\n' || c == '\r'
}

/// `s` without its leading whitespace.
pub open spec fn trim_front(s: Seq<char>) -> Seq<char>
    decreases s.len(),
{
    if s.len() > 0 && is_space(s[0]) {
        trim_front(s.drop_first())
    } else {
        s
    }
}

/// `s` without its trailing whitespace.
pub open spec fn trim_back(s: Seq<char>) -> Seq<char>
    decreases s.len(),
{
    if s.len() > 0 && is_space(s.last()) {
        trim_back(s.drop_last())
    } else {
        s
    }
}

/// `s` without leading and trailing whitespace.
pub open spec fn trimmed(s: Seq<char>) -> Seq<char> {
    trim_back(trim_front(s))
}

/// The prefix of `s` before its first line break; all of `s` when it has
/// none.
pub open spec fn first_line(s: Seq<char>) -> Seq<char>
    decreases s.len(),
{
    if s.len() == 0 {
        s
    } else if is_line_break(s[0]) {
        Seq::<char>::empty()
    } else {
        seq![s[0]] + first_line(s.drop_first())
    }
}

/// The remediation message shown when the tool is absent, naming the
/// supported installation channels for both operating-system families.
pub open spec fn spec_not_found_message() -> Seq<char> {
    "sqlpackage is not installed or not in your system PATH.\nPlease install sqlpackage:\n- macOS/Linux: Download from https://aka.ms/sqlpackage-linux or install via dotnet tool:\ndotnet tool install -g Microsoft.SqlPackage\n- Windows: Download from https://aka.ms/sqlpackage-windows\nAfter installation, ensure it's in your system PATH."@
}

fn is_space_char(c: char) -> (r: bool)
    ensures
        r == is_space(c),
{
    let n = c as u32;
    (9 <= n && n <= 13) || n == 32 || n == 0x85 || n == 0xA0 || n == 0x1680 || (0x2000 <= n
        && n <= 0x200A) || n == 0x2028 || n == 0x2029 || n == 0x202F || n == 0x205F || n == 0x3000
}

fn is_line_break_char(c: char) -> (r: bool)
    ensures
        r == is_line_break(c),
{
    c == '\n' || c == '\r'
}

fn scan_front(s: &str) -> (r: usize)
    ensures
        r <= s@.len(),
        forall|k: int| 0 <= k < r ==> is_space(s@[k]),
        r < s@.len() ==> !is_space(s@[r as int]),
{
    let n = s.unicode_len();
    let mut i: usize = 0;
    while i < n
        invariant
            n == s@.len(),
            i <= n,
            forall|k: int| 0 <= k < i ==> is_space(s@[k]),
        decreases n - i,
    {
        if !is_space_char(s.get_char(i)) {
            return i;
        }
        i = i + 1;
    }
    n
}

fn scan_back(s: &str, start: usize) -> (r: usize)
    requires
        start <= s@.len(),
    ensures
        start <= r <= s@.len(),
        forall|k: int| r <= k < s@.len() ==> is_space(s@[k]),
        r > start ==> !is_space(s@[r - 1]),
{
    let n = s.unicode_len();
    let mut e: usize = n;
    while e > start
        invariant
            n == s@.len(),
            start <= e <= n,
            forall|k: int| e <= k < n ==> is_space(s@[k]),
        decreases e,
    {
        if !is_space_char(s.get_char(e - 1)) {
            return e;
        }
        e = e - 1;
    }
    start
}

fn scan_line_break(s: &str) -> (r: usize)
    ensures
        r <= s@.len(),
        forall|k: int| 0 <= k < r ==> !is_line_break(s@[k]),
        r < s@.len() ==> is_line_break(s@[r as int]),
{
    let n = s.unicode_len();
    let mut i: usize = 0;
    while i < n
        invariant
            n == s@.len(),
            i <= n,
            forall|k: int| 0 <= k < i ==> !is_line_break(s@[k]),
        decreases n - i,
    {
        if is_line_break_char(s.get_char(i)) {
            return i;
        }
        i = i + 1;
    }
    n
}

proof fn lemma_first_line_take(s: Seq<char>, j: int)
    requires
        0 <= j <= s.len(),
        forall|k: int| 0 <= k < j ==> !is_line_break(s[k]),
        j == s.len() || is_line_break(s[j]),
    ensures
        first_line(s) == s.take(j),
    decreases j,
{
    if j == 0 {
        assert(s.take(0) =~= Seq::<char>::empty());
        if s.len() > 0 {
            assert(is_line_break(s[0]));
        }
    } else {
        let t = s.drop_first();
        assert(forall|k: int| 0 <= k < j - 1 ==> !is_line_break(#[trigger] t[k]));
        lemma_first_line_take(t, j - 1);
        assert(seq![s[0]] + t.take(j - 1) =~= s.take(j));
    }
}

/// The prefix of `s` before its first line break; all of `s` when it has
/// none.
pub fn first_line_of(s: &str) -> (r: String)
    ensures
        r@ == first_line(s@),
{
    let j = scan_line_break(s);
    let piece = s.substring_char(0, j);
    proof {
        lemma_first_line_take(s@, j as int);
    }
    piece.to_owned()
}

proof fn lemma_trim_front_skip(s: Seq<char>, i: int)
    requires
        0 <= i <= s.len(),
        forall|k: int| 0 <= k < i ==> is_space(s[k]),
        i == s.len() || !is_space(s[i]),
    ensures
        trim_front(s) == s.skip(i),
    decreases i,
{
    if i == 0 {
        assert(s.skip(0) =~= s);
    } else {
        let t = s.drop_first();
        assert(forall|k: int| 0 <= k < i - 1 ==> is_space(#[trigger] t[k]));
        lemma_trim_front_skip(t, i - 1);
        assert(t.skip(i - 1) =~= s.skip(i));
    }
}

proof fn lemma_trim_back_take(s: Seq<char>, e: int)
    requires
        0 <= e <= s.len(),
        forall|k: int| e <= k < s.len() ==> is_space(s[k]),
        e == 0 || !is_space(s[e - 1]),
    ensures
        trim_back(s) == s.take(e),
    decreases s.len() - e,
{
    if e == s.len() {
        assert(s.take(e) =~= s);
    } else {
        let t = s.drop_last();
        assert(is_space(s.last()));
        assert(forall|k: int| e <= k < t.len() ==> is_space(#[trigger] t[k]));
        lemma_trim_back_take(t, e);
        assert(t.take(e) =~= s.take(e));
    }
}

/// Removes leading and trailing whitespace from `s`.
pub fn trim_whitespace(s: &str) -> (r: String)
    ensures
        r@ == trimmed(s@),
{
    let start = scan_front(s);
    let end = scan_back(s, start);
    let piece = s.substring_char(start, end);
    proof {
        lemma_trim_front_skip(s@, start as int);
        let u = s@.skip(start as int);
        assert(forall|k: int|
            end - start <= k < u.len() ==> is_space(#[trigger] u[k]));
        lemma_trim_back_take(u, end - start);
        assert(u.take(end - start) =~= s@.subrange(start as int, end as int));
    }
    piece.to_owned()
}

/// The remediation message shown when the tool is absent.
pub fn not_found_message() -> (r: String)
    ensures
        r@ == spec_not_found_message(),
{
    "sqlpackage is not installed or not in your system PATH.\nPlease install sqlpackage:\n- macOS/Linux: Download from https://aka.ms/sqlpackage-linux or install via dotnet tool:\ndotnet tool install -g Microsoft.SqlPackage\n- Windows: Download from https://aka.ms/sqlpackage-windows\nAfter installation, ensure it's in your system PATH.".to_owned()
}

/// Decides the outcome of one run of the executable-search command.
/// `search_spawned` is whether the command could be started at all,
/// `exit_zero` whether it reported success, and `search_output` what it
/// printed to its standard output. Success is owed exactly when the search
/// ran, succeeded, and printed a non-blank result; the path returned is
/// then the first resolved one — the first line of the trimmed output,
/// should the search list several matches. Every other case is the
/// not-found error, and the caller spawns no tool process for it.
pub fn locate_outcome(search_spawned: bool, exit_zero: bool, search_output: &str) -> (r: Result<
    String,
    String,
>)
    ensures
        (search_spawned && exit_zero && trimmed(search_output@).len() > 0) ==> (r is Ok
            && r->Ok_0@ == first_line(trimmed(search_output@))),
        !(search_spawned && exit_zero && trimmed(search_output@).len() > 0) ==> (r is Err
            && r->Err_0@ == spec_not_found_message()),
{
    if search_spawned && exit_zero {
        let path = trim_whitespace(search_output);
        if !path.as_str().is_empty() {
            return Ok(first_line_of(path.as_str()));
        }
    }
    Err(not_found_message())
}

/// The version probe decision: the tool counts as installed exactly when
/// the probe process could be spawned and exited zero; a probe that could
/// not run is never an error, only "not installed".
pub fn installed_from_probe(probe_spawned: bool, exit_zero: bool) -> (r: bool)
    ensures
        r == (probe_spawned && exit_zero),
{
    probe_spawned && exit_zero
}

} // verus!
