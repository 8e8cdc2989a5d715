use vstd::prelude::*;

use crate::errors::PreviewerError;
use crate::text::{chars_of, concat_str, decimal, digit_char, find_from, lemma_find_first, lemma_find_none, occurs_at, find_seq, lemma_find_bounds, lemma_find_shift};

verus! {

/// Whether `c` is an ASCII decimal digit.
pub open spec fn is_digit(c: char) -> bool {
    '0' <= c && c <= '9'
}

/// Value of a decimal digit character.
pub open spec fn digit_value(c: char) -> nat {
    (c as nat - '0' as nat) as nat
}

/// Whether every character of `s` is a decimal digit.
pub open spec fn all_digits(s: Seq<char>) -> bool {
    forall|i: int| 0 <= i < s.len() ==> is_digit(#[trigger] s[i])
}

/// The number written by the decimal digits `s`, most significant first.
pub open spec fn digits_value(s: Seq<char>) -> nat
    decreases s.len(),
{
    if s.len() == 0 {
        0
    } else {
        digits_value(s.drop_last()) * 10 + digit_value(s.last())
    }
}

/// The unsigned 64-bit integer that `s` spells: an optional `+`, then one or
/// more decimal digits whose value fits in 64 bits.
pub open spec fn parse_u64_spec(s: Seq<char>) -> Option<u64> {
    let d = if s.len() > 0 && s[0] == '+' {
        s.drop_first()
    } else {
        s
    };
    if d.len() > 0 && all_digits(d) && digits_value(d) <= u64::MAX {
        Some(digits_value(d) as u64)
    } else {
        None
    }
}

/// The marker that precedes the run identifier in a details URL.
pub open spec fn run_marker() -> Seq<char> {
    seq!['/', 'a', 'c', 't', 'i', 'o', 'n', 's', '/', 'r', 'u', 'n', 's', '/']
}

/// The run identifier of a details URL: the segment after the first
/// occurrence of the marker, up to the next `/`, read as a `u64`.
pub open spec fn run_id_spec(url: Seq<char>) -> Option<u64> {
    match find_from(url, run_marker(), 0) {
        Some(i) => {
            let rest = url.subrange(i + run_marker().len(), url.len() as int);
            match find_from(rest, seq!['/'], 0) {
                Some(j) => parse_u64_spec(rest.subrange(0, j)),
                None => None,
            }
        },
        None => None,
    }
}

/// The error message given for a URL without a run identifier.
pub open spec fn run_id_error_message(url: Seq<char>) -> Seq<char> {
    "Run id not found in: "@ + url
}

proof fn lemma_digits_value_prefix(s: Seq<char>, k: int)
    requires
        0 <= k <= s.len(),
    ensures
        digits_value(s.subrange(0, k)) <= digits_value(s),
    decreases s.len(),
{
    if k < s.len() {
        assert(s.drop_last().subrange(0, k) =~= s.subrange(0, k));
        lemma_digits_value_prefix(s.drop_last(), k);
    } else {
        assert(s.subrange(0, k) =~= s);
    }
}

proof fn lemma_digit_char(d: nat)
    requires
        d < 10,
    ensures
        is_digit(digit_char(d)),
        digit_value(digit_char(d)) == d,
{
    reveal_strlit("0123456789");
}

/// The decimal text of `n` is a non-empty run of digits worth `n`.
pub proof fn lemma_decimal_digits(n: nat)
    ensures
        decimal(n).len() > 0,
        all_digits(decimal(n)),
        digits_value(decimal(n)) == n,
    decreases n,
{
    let d = decimal(n);
    lemma_digit_char(n % 10);
    if n < 10 {
        assert(d.drop_last() =~= Seq::<char>::empty());
        assert(d.last() == digit_char(n));
        assert(digits_value(d.drop_last()) == 0);
    } else {
        lemma_decimal_digits(n / 10);
        assert(d.drop_last() =~= decimal(n / 10));
        assert(d.last() == digit_char(n % 10));
        assert(n == (n / 10) * 10 + n % 10);
        assert(digits_value(d) == digits_value(decimal(n / 10)) * 10 + digit_value(digit_char(n % 10)));
        assert forall|i: int| 0 <= i < d.len() implies is_digit(#[trigger] d[i]) by {
            if i < decimal(n / 10).len() {
                assert(d[i] == decimal(n / 10)[i]);
            }
        }
    }
}

/// A URL made of a prefix without the marker, the marker, the decimal text of
/// `n`, a `/` and any suffix has the run identifier `n`.
pub proof fn lemma_run_id_of_well_formed_url(url: Seq<char>, prefix: Seq<char>, n: u64, suffix: Seq<char>)
    requires
        url == prefix + run_marker() + decimal(n as nat) + seq!['/'] + suffix,
        forall|i: int| 0 <= i < prefix.len() ==> !#[trigger] occurs_at(url, run_marker(), i),
    ensures
        run_id_spec(url) == Some(n),
{
    let m = run_marker();
    let p = prefix.len() as int;
    let d = decimal(n as nat);
    lemma_decimal_digits(n as nat);
    assert(url.subrange(p, p + m.len()) =~= m);
    lemma_find_first(url, m, p);
    let rest = url.subrange(p + m.len(), url.len() as int);
    assert(rest =~= d + seq!['/'] + suffix);
    assert(rest.subrange(d.len() as int, d.len() as int + 1) =~= seq!['/']);
    assert forall|j: int| 0 <= j < d.len() implies !#[trigger] occurs_at(rest, seq!['/'], j) by {
        assert(rest[j] == d[j]);
        assert(is_digit(d[j]));
        assert(rest.subrange(j, j + 1)[0] == d[j]);
    }
    lemma_find_first(rest, seq!['/'], d.len() as int);
    assert(rest.subrange(0, d.len() as int) =~= d);
    assert(is_digit(d[0]));
}

/// A URL in which the marker does not occur has no run identifier.
pub proof fn lemma_run_id_needs_marker(url: Seq<char>)
    requires
        forall|i: int| 0 <= i ==> !#[trigger] occurs_at(url, run_marker(), i),
    ensures
        run_id_spec(url) is None,
{
    lemma_find_none(url, run_marker(), 0);
}

/// Reads `s[start..end]` as a `u64`, as `str::parse::<u64>` does.
fn parse_u64_range(s: &Vec<char>, start: usize, end: usize) -> (r: Option<u64>)
    requires
        start <= end <= s@.len(),
    ensures
        r == parse_u64_spec(s@.subrange(start as int, end as int)),
{
    let ghost seg = s@.subrange(start as int, end as int);
    let mut i: usize = start;
    if i < end && s[i] == '+' {
        i = i + 1;
    }
    let ghost d = s@.subrange(i as int, end as int);
    assert(d =~= (if seg.len() > 0 && seg[0] == '+' { seg.drop_first() } else { seg }));
    if i == end {
        return None;
    }
    let digits_start = i;
    let mut value: u64 = 0;
    while i < end
        invariant
            digits_start <= i <= end <= s@.len(),
            start <= digits_start < end,
            seg == s@.subrange(start as int, end as int),
            d == (if seg.len() > 0 && seg[0] == '+' { seg.drop_first() } else { seg }),
            d == s@.subrange(digits_start as int, end as int),
            all_digits(s@.subrange(digits_start as int, i as int)),
            value == digits_value(s@.subrange(digits_start as int, i as int)),
        decreases end - i,
    {
        let c = s[i];
        let ghost before = s@.subrange(digits_start as int, i as int);
        let ghost after = s@.subrange(digits_start as int, i + 1);
        assert(after.drop_last() =~= before);
        assert(after.last() == c);
        if !('0' <= c && c <= '9') {
            assert(d[i - digits_start] == c);
            return None;
        }
        let dv = (c as u32 - '0' as u32) as u64;
        assert(after =~= d.subrange(0, i + 1 - digits_start));
        match value.checked_mul(10) {
            Some(m) => match m.checked_add(dv) {
                Some(v) => {
                    value = v;
                },
                None => {
                    proof { lemma_digits_value_prefix(d, i + 1 - digits_start); }
                    return None;
                },
            },
            None => {
                proof { lemma_digits_value_prefix(d, i + 1 - digits_start); }
                return None;
            },
        }
        assert(all_digits(after)) by {
            assert forall|k: int| 0 <= k < after.len() implies is_digit(#[trigger] after[k]) by {
                if k < before.len() {
                    assert(after[k] == before[k]);
                }
            }
        }
        i = i + 1;
    }
    assert(d =~= s@.subrange(digits_start as int, i as int));
    Some(value)
}

/// Reads the characters `s` as a `u64`, as `str::parse::<u64>` does.
pub fn parse_u64_chars(s: &Vec<char>) -> (r: Option<u64>)
    ensures
        r == parse_u64_spec(s@),
{
    let r = parse_u64_range(s, 0, s.len());
    assert(s@.subrange(0, s@.len() as int) =~= s@);
    r
}

/// Extracts the run identifier from a check run's details URL, which has the
/// form `https://github.com/<owner>/<repo>/actions/runs/<run_id>/job/<job>`.
pub fn extract_run_id_from_detail_url(url: &str) -> (r: Result<u64, PreviewerError>)
    ensures
        run_id_spec(url@) matches Some(n) ==> r == Ok::<u64, PreviewerError>(n),
        run_id_spec(url@) is None ==> (r matches Err(PreviewerError::PatternNotFound(m))
            && m@ == run_id_error_message(url@)),
{
    let chars = chars_of(url);
    let pattern = chars_of("/actions/runs/");
    let n = chars.len();
    proof {
        reveal_strlit("/actions/runs/");
        assert(pattern@ =~= run_marker());
    }
    if let Some(start) = find_seq(&chars, &pattern, 0) {
        proof { lemma_find_bounds(chars@, pattern@, 0); }
        let from = start + pattern.len();
        let slash = chars_of("/");
        proof {
            reveal_strlit("/");
            assert(slash@ =~= seq!['/']);
        }
        let ghost rest = chars@.subrange(from as int, n as int);
        if let Some(end) = find_seq(&chars, &slash, from) {
            proof {
                lemma_find_shift(chars@, seq!['/'], from as int);
                lemma_find_bounds(chars@, seq!['/'], from as int);
            }
            assert(rest.subrange(0, end - from) =~= chars@.subrange(from as int, end as int));
            if let Some(run_id) = parse_u64_range(&chars, from, end) {
                return Ok(run_id);
            }
        } else {
            proof { lemma_find_shift(chars@, seq!['/'], from as int); }
        }
    }
    Err(PreviewerError::PatternNotFound(concat_str("Run id not found in: ", url)))
}

} // verus!
