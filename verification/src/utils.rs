//! Host-facing helpers that are pure over plain values: the free-port
//! selection over a sequence of probe outcomes, and the extraction of the
//! total-memory figure from the text of a kernel memory report.

use vstd::prelude::*;
use vstd::string::{StrSliceExecFns, StringExecFns};

use crate::ERRORCODES;

verus! {

/// The index of the first `false` entry (a port whose probe found no
/// listener), if any.
pub open spec fn spec_first_free(taken: Seq<bool>) -> Option<int>
    decreases taken.len(),
{
    if taken.len() == 0 {
        None
    } else if !taken[0] {
        Some(0)
    } else {
        match spec_first_free(taken.drop_first()) {
            Some(i) => Some(i + 1),
            None => None,
        }
    }
}

/// The port the search settles on: probing ports `base + 1`, `base + 2`, ...
/// in order, the first one whose probe found no listener wins; when every
/// probe found a listener, the search is exhausted.
pub open spec fn spec_find_open_socket(base_port: u16, taken: Seq<bool>) -> Result<u16, ERRORCODES> {
    match spec_first_free(taken) {
        Some(i) => Ok((base_port + i + 1) as u16),
        None => Err(ERRORCODES::NoOpenPorts),
    }
}

proof fn lemma_first_free_at(taken: Seq<bool>, i: int)
    requires
        0 <= i < taken.len(),
        !taken[i],
        forall|j: int| 0 <= j < i ==> taken[j],
    ensures
        spec_first_free(taken) == Some(i),
    decreases i,
{
    if i > 0 {
        lemma_first_free_at(taken.drop_first(), i - 1);
    }
}

proof fn lemma_first_free_none(taken: Seq<bool>)
    requires
        forall|j: int| 0 <= j < taken.len() ==> taken[j],
    ensures
        spec_first_free(taken) is None,
    decreases taken.len(),
{
    if taken.len() > 0 {
        lemma_first_free_none(taken.drop_first());
    }
}

/// Pick the first port after `base_port` whose probe found no listener.
/// `ports_taken[i]` reports the probe of port `base_port + i + 1`.
pub fn find_open_socket(base_port: u16, ports_taken: &Vec<bool>) -> (r: Result<u16, ERRORCODES>)
    requires
        base_port + ports_taken@.len() <= u16::MAX,
    ensures
        r == spec_find_open_socket(base_port, ports_taken@),
{
    let n = ports_taken.len();
    let mut i: usize = 0;
    while i < n
        invariant
            n == ports_taken@.len(),
            base_port + n <= u16::MAX,
            i <= n,
            forall|j: int| 0 <= j < i ==> ports_taken@[j],
        decreases n - i,
    {
        if !ports_taken[i] {
            proof {
                lemma_first_free_at(ports_taken@, i as int);
            }
            return Ok(base_port + (i as u16) + 1);
        }
        i = i + 1;
    }
    proof {
        lemma_first_free_none(ports_taken@);
    }
    Err(ERRORCODES::NoOpenPorts)
}

/// The index of the first occurrence of `c` in `s`, or the length of `s` if
/// `c` does not occur.
pub open spec fn spec_ffirst(s: Seq<char>, c: char) -> int
    decreases s.len(),
{
    if s.len() == 0 {
        0
    } else if s[0] == c {
        0
    } else {
        1 + spec_ffirst(s.drop_first(), c)
    }
}

proof fn lemma_ffirst_at(s: Seq<char>, c: char, i: int)
    requires
        0 <= i < s.len(),
        s[i] == c,
        forall|j: int| 0 <= j < i ==> s[j] != c,
    ensures
        spec_ffirst(s, c) == i,
    decreases i,
{
    if i > 0 {
        lemma_ffirst_at(s.drop_first(), c, i - 1);
    }
}

proof fn lemma_ffirst_none(s: Seq<char>, c: char)
    requires
        forall|j: int| 0 <= j < s.len() ==> s[j] != c,
    ensures
        spec_ffirst(s, c) == s.len(),
    decreases s.len(),
{
    if s.len() > 0 {
        lemma_ffirst_none(s.drop_first(), c);
    }
}

proof fn lemma_ffirst_bounds(s: Seq<char>, c: char)
    ensures
        0 <= #[trigger] spec_ffirst(s, c) <= s.len(),
    decreases s.len(),
{
    if s.len() > 0 {
        lemma_ffirst_bounds(s.drop_first(), c);
    }
}

/// The index of the first occurrence of `c` in `s`, or `s`'s length.
fn first_index(s: &str, c: char) -> (r: usize)
    ensures
        r == spec_ffirst(s@, c),
        r <= s@.len(),
{
    let len = s.unicode_len();
    let mut i: usize = 0;
    while i < len
        invariant
            len == s@.len(),
            i <= len,
            forall|j: int| 0 <= j < i ==> s@[j] != c,
        decreases len - i,
    {
        if s.get_char(i) == c {
            proof {
                lemma_ffirst_at(s@, c, i as int);
            }
            return i;
        }
        i = i + 1;
    }
    proof {
        lemma_ffirst_none(s@, c);
    }
    len
}

/// The whitespace characters stripped by `spec_trim`: blank, tab, and the
/// two line-break characters.
pub open spec fn spec_is_space(c: char) -> bool {
    c == ' ' || c == '\t' || c == '\n' || c == '\r'
}

/// `s` without its leading whitespace.
pub open spec fn spec_trim_start(s: Seq<char>) -> Seq<char>
    decreases s.len(),
{
    if s.len() > 0 && spec_is_space(s[0]) {
        spec_trim_start(s.drop_first())
    } else {
        s
    }
}

/// `s` without its trailing whitespace.
pub open spec fn spec_trim_end(s: Seq<char>) -> Seq<char>
    decreases s.len(),
{
    if s.len() > 0 && spec_is_space(s.last()) {
        spec_trim_end(s.drop_last())
    } else {
        s
    }
}

/// `s` without leading and trailing whitespace.
pub open spec fn spec_trim(s: Seq<char>) -> Seq<char> {
    spec_trim_end(spec_trim_start(s))
}

proof fn lemma_trim_start_at(s: Seq<char>, a: int)
    requires
        0 <= a <= s.len(),
        forall|j: int| 0 <= j < a ==> spec_is_space(s[j]),
        a < s.len() ==> !spec_is_space(s[a]),
    ensures
        spec_trim_start(s) =~= s.subrange(a, s.len() as int),
    decreases a,
{
    if a > 0 {
        lemma_trim_start_at(s.drop_first(), a - 1);
        assert(s.drop_first().subrange(a - 1, s.drop_first().len() as int) =~= s.subrange(
            a,
            s.len() as int,
        ));
    } else {
        if s.len() > 0 {
            assert(!spec_is_space(s[0]));
        }
    }
}

proof fn lemma_trim_end_at(s: Seq<char>, b: int)
    requires
        0 <= b <= s.len(),
        forall|j: int| b <= j < s.len() ==> spec_is_space(s[j]),
        b > 0 ==> !spec_is_space(s[b - 1]),
    ensures
        spec_trim_end(s) =~= s.subrange(0, b),
    decreases s.len(),
{
    if b < s.len() {
        lemma_trim_end_at(s.drop_last(), b);
        assert(s.drop_last().subrange(0, b) =~= s.subrange(0, b));
    }
}

fn is_space_char(c: char) -> (r: bool)
    ensures
        r == spec_is_space(c),
{
    c == ' ' || c == '\t' || c == '\n' || c == '\r'
}

/// `s` without leading and trailing whitespace, specified by `spec_trim`.
fn trim_str<'a>(s: &'a str) -> (r: &'a str)
    ensures
        r@ == spec_trim(s@),
{
    let len = s.unicode_len();
    let mut a: usize = 0;
    while a < len && is_space_char(s.get_char(a))
        invariant
            len == s@.len(),
            a <= len,
            forall|j: int| 0 <= j < a ==> spec_is_space(s@[j]),
        decreases len - a,
    {
        a = a + 1;
    }
    proof {
        lemma_trim_start_at(s@, a as int);
    }
    if a == len {
        let r = s.substring_char(len, len);
        proof {
            assert(spec_trim_start(s@) =~= Seq::<char>::empty());
            assert(spec_trim(s@) =~= r@);
        }
        return r;
    }
    let mut b: usize = len - 1;
    while is_space_char(s.get_char(b))
        invariant
            len == s@.len(),
            a < len,
            a <= b < len,
            !spec_is_space(s@[a as int]),
            forall|j: int| b < j < len ==> spec_is_space(s@[j]),
        decreases b,
    {
        b = b - 1;
    }
    let r = s.substring_char(a, b + 1);
    proof {
        let t = spec_trim_start(s@);
        assert(t =~= s@.subrange(a as int, len as int));
        lemma_trim_end_at(t, b + 1 - a);
        assert(t.subrange(0, b + 1 - a) =~= s@.subrange(a as int, b + 1));
    }
    r
}

/// `c` is a decimal digit.
pub open spec fn spec_is_digit(c: char) -> bool {
    48 <= c as u32 <= 57
}

/// The value of a decimal digit character.
pub open spec fn spec_digit_of(c: char) -> int {
    c as u32 - 48
}

/// Every character of `s` is a decimal digit.
pub open spec fn spec_all_digits(s: Seq<char>) -> bool {
    forall|i: int| 0 <= i < s.len() ==> spec_is_digit(#[trigger] s[i])
}

/// The numeric value of a digit string, most significant digit first.
pub open spec fn spec_digits_val(s: Seq<char>) -> int
    decreases s.len(),
{
    if s.len() == 0 {
        0
    } else {
        spec_digits_val(s.drop_last()) * 10 + spec_digit_of(s.last())
    }
}

/// A digit string parses to its value when it is nonempty, all digits, and
/// its value fits; otherwise it does not parse.
pub open spec fn spec_parse_u64(s: Seq<char>) -> Option<u64> {
    if s.len() > 0 && spec_all_digits(s) && spec_digits_val(s) <= u64::MAX {
        Some(spec_digits_val(s) as u64)
    } else {
        None
    }
}

proof fn lemma_digits_val_nonneg(s: Seq<char>)
    requires
        spec_all_digits(s),
    ensures
        spec_digits_val(s) >= 0,
    decreases s.len(),
{
    if s.len() > 0 {
        assert(spec_all_digits(s.drop_last())) by {
            assert(forall|i: int|
                0 <= i < s.len() - 1 ==> #[trigger] s.drop_last()[i] == s[i]);
        }
        lemma_digits_val_nonneg(s.drop_last());
    }
}

proof fn lemma_digits_prefix_le(s: Seq<char>, i: int)
    requires
        spec_all_digits(s),
        0 <= i <= s.len(),
    ensures
        spec_digits_val(s.subrange(0, i)) <= spec_digits_val(s),
    decreases s.len() - i,
{
    if i == s.len() {
        assert(s.subrange(0, i) =~= s);
    } else {
        lemma_digits_prefix_le(s, i + 1);
        let p = s.subrange(0, i + 1);
        assert(p.drop_last() =~= s.subrange(0, i));
        assert(spec_all_digits(s.subrange(0, i))) by {
            assert(forall|j: int|
                0 <= j < i ==> #[trigger] s.subrange(0, i)[j] == s[j]);
        }
        lemma_digits_val_nonneg(s.subrange(0, i));
        assert(spec_digits_val(p) == spec_digits_val(s.subrange(0, i)) * 10 + spec_digit_of(
            p.last(),
        ));
    }
}

/// Parse a decimal digit string, specified by `spec_parse_u64`.
fn parse_u64_str(s: &str) -> (r: Option<u64>)
    ensures
        r == spec_parse_u64(s@),
{
    let len = s.unicode_len();
    if len == 0 {
        return None;
    }
    let mut acc: u64 = 0;
    let mut i: usize = 0;
    while i < len
        invariant
            len == s@.len(),
            i <= len,
            spec_all_digits(s@.subrange(0, i as int)),
            acc == spec_digits_val(s@.subrange(0, i as int)),
        decreases len - i,
    {
        let c = s.get_char(i);
        let u = c as u32;
        if u < 48 || u > 57 {
            assert(!spec_is_digit(s@[i as int]));
            return None;
        }
        let d = (u - 48) as u64;
        proof {
            assert(s@.subrange(0, i + 1).drop_last() =~= s@.subrange(0, i as int));
        }
        if acc > (u64::MAX - d) / 10 {
            proof {
                assert(acc * 10 + d > u64::MAX) by (nonlinear_arith)
                    requires
                        acc > (u64::MAX - d) / 10,
                        d <= 9,
                ;
                if spec_all_digits(s@) {
                    lemma_digits_prefix_le(s@, i + 1);
                    assert(spec_digits_val(s@.subrange(0, i + 1)) == acc * 10 + d);
                }
            }
            return None;
        }
        proof {
            assert(acc * 10 + d <= u64::MAX) by (nonlinear_arith)
                requires
                    acc <= (u64::MAX - d) / 10,
                    d <= 9,
            ;
        }
        acc = acc * 10 + d;
        i = i + 1;
    }
    proof {
        assert(s@.subrange(0, len as int) =~= s@);
    }
    Some(acc)
}

/// What one line of the memory report contributes to the scan.
pub enum LineOutcome {
    /// The line does not decide the scan; move on to the next line.
    Skip,
    /// The line's value field does not parse; the whole scan stops empty.
    Stop,
    /// The line names the total-memory figure and carries this value.
    Value(u64),
}

/// How one report line is read: the text before its first `':'` (trimmed) is
/// the key, the text between the first and second `':'` (trimmed) is the
/// value field, and the value field's first blank-separated token must parse
/// as a number. A line without `':'` is skipped; a token that does not parse
/// stops the scan; the key `"MemTotal"` yields the figure.
pub open spec fn spec_line_outcome(line: Seq<char>) -> LineOutcome {
    let ci = spec_ffirst(line, ':');
    if ci == line.len() {
        LineOutcome::Skip
    } else {
        let rest = line.subrange(ci + 1, line.len() as int);
        let value = spec_trim(rest.subrange(0, spec_ffirst(rest, ':')));
        let key = spec_trim(line.subrange(0, ci));
        let tok = spec_trim(value.subrange(0, spec_ffirst(value, ' ')));
        match spec_parse_u64(tok) {
            None => LineOutcome::Stop,
            Some(v) => {
                if key == "MemTotal"@ {
                    LineOutcome::Value(v)
                } else {
                    LineOutcome::Skip
                }
            },
        }
    }
}

fn line_outcome(line: &str) -> (r: LineOutcome)
    ensures
        r == spec_line_outcome(line@),
{
    let len = line.unicode_len();
    let ci = first_index(line, ':');
    if ci == len {
        return LineOutcome::Skip;
    }
    let rest = line.substring_char(ci + 1, len);
    let ci2 = first_index(rest, ':');
    let value = trim_str(rest.substring_char(0, ci2));
    let key = trim_str(line.substring_char(0, ci));
    let sp = first_index(value, ' ');
    let tok = trim_str(value.substring_char(0, sp));
    match parse_u64_str(tok) {
        None => LineOutcome::Stop,
        Some(v) => {
            if crate::strutil::str_eq(key, "MemTotal") {
                LineOutcome::Value(v)
            } else {
                LineOutcome::Skip
            }
        },
    }
}

/// The total-memory figure of a kernel memory report: scan the lines in
/// order, return the value of the first `"MemTotal"` line, and return `0`
/// when a value field fails to parse or no such line exists.
pub open spec fn spec_mem_total(s: Seq<char>) -> u64
    decreases s.len(),
{
    if s.len() == 0 {
        0
    } else {
        let nl = spec_ffirst(s, '\n');
        let line = s.subrange(0, nl);
        match spec_line_outcome(line) {
            LineOutcome::Value(v) => v,
            LineOutcome::Stop => 0,
            LineOutcome::Skip => {
                if 0 <= nl < s.len() {
                    spec_mem_total(s.subrange(nl + 1, s.len() as int))
                } else {
                    0
                }
            },
        }
    }
}

/// The total-memory figure carried by the text of a kernel memory report,
/// specified by `spec_mem_total`.
pub fn mem_total_from_meminfo(contents: &str) -> (r: u64)
    ensures
        r == spec_mem_total(contents@),
    decreases contents@.len(),
{
    let len = contents.unicode_len();
    if len == 0 {
        return 0;
    }
    let nl = first_index(contents, '\n');
    let line = contents.substring_char(0, nl);
    match line_outcome(line) {
        LineOutcome::Value(v) => v,
        LineOutcome::Stop => 0,
        LineOutcome::Skip => {
            if nl < len {
                mem_total_from_meminfo(contents.substring_char(nl + 1, len))
            } else {
                0
            }
        },
    }
}

} // verus!
