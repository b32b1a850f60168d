//! Character-level text handling shared by the form parsers, the error
//! messages and the dashboard: whitespace trimming, integer parsing and
//! formatting, separator-based tokenizing and joining, and affix tests.

use vstd::prelude::*;

verus! {

broadcast use vstd::string::group_string_axioms;

/// The Unicode `White_Space` property, which is what `char::is_whitespace`
/// (and so `str::trim`) tests.
pub open spec fn is_white_space(c: char) -> bool {
    let n = c as u32;
    ||| 0x9 <= n <= 0xd
    ||| n == 0x20
    ||| n == 0x85
    ||| n == 0xa0
    ||| n == 0x1680
    ||| 0x2000 <= n <= 0x200a
    ||| n == 0x2028
    ||| n == 0x2029
    ||| n == 0x202f
    ||| n == 0x205f
    ||| n == 0x3000
}

pub fn char_is_white_space(c: char) -> (r: bool)
    ensures
        r == is_white_space(c),
{
    let n = c as u32;
    (0x9 <= n && n <= 0xd) || n == 0x20 || n == 0x85 || n == 0xa0 || n == 0x1680 || (0x2000 <= n
        && n <= 0x200a) || n == 0x2028 || n == 0x2029 || n == 0x202f || n == 0x205f || n == 0x3000
}

/// The characters of `s`, in order.
pub fn chars_of(s: &str) -> (r: Vec<char>)
    ensures
        r@ == s@,
{
    let mut out: Vec<char> = Vec::new();
    for c in it: s.chars()
        invariant
            out@ == it.seq().take(it.index()),
            it.seq() == s@,
    {
        out.push(c);
    }
    out
}

/// Appends one character to a string (`String::push`), trusted: its
/// contract says the character lands at the end and nothing else changes.
#[verifier::external_body]
pub fn push_char(s: &mut String, c: char)
    ensures
        final(s)@ == old(s)@.push(c),
{
    s.push(c);
}

/// The string made of `cs[from..to]`.
pub fn string_from_chars(cs: &Vec<char>, from: usize, to: usize) -> (r: String)
    requires
        from <= to <= cs.len(),
    ensures
        r@ == cs@.subrange(from as int, to as int),
{
    let mut out = String::new();
    let mut k = from;
    while k < to
        invariant
            from <= k <= to <= cs.len(),
            out@ == cs@.subrange(from as int, k as int),
        decreases to - k,
    {
        push_char(&mut out, cs[k]);
        assert(cs@.subrange(from as int, k + 1) =~= cs@.subrange(from as int, k as int).push(
            cs@[k as int],
        ));
        k = k + 1;
    }
    out
}

/// `a` followed by `b`.
pub fn concat_text(a: &str, b: &str) -> (r: String)
    ensures
        r@ == a@ + b@,
{
    let mut out = String::from_str(a);
    out.append(b);
    out
}

// ---------------------------------------------------------------------
// Trimming
// ---------------------------------------------------------------------
/// `s` without its leading white space.
pub open spec fn trim_start_spec(s: Seq<char>) -> Seq<char>
    decreases s.len(),
{
    if s.len() > 0 && is_white_space(s[0]) {
        trim_start_spec(s.drop_first())
    } else {
        s
    }
}

/// `s` without its trailing white space.
pub open spec fn trim_end_spec(s: Seq<char>) -> Seq<char>
    decreases s.len(),
{
    if s.len() > 0 && is_white_space(s.last()) {
        trim_end_spec(s.drop_last())
    } else {
        s
    }
}

/// `str::trim`: `s` without leading and trailing white space.
pub open spec fn trimmed(s: Seq<char>) -> Seq<char> {
    trim_end_spec(trim_start_spec(s))
}

proof fn lemma_trim_start_at(s: Seq<char>, i: int)
    requires
        0 <= i <= s.len(),
        forall|k: int| 0 <= k < i ==> is_white_space(#[trigger] s[k]),
        i == s.len() || !is_white_space(s[i]),
    ensures
        trim_start_spec(s) == s.subrange(i, s.len() as int),
    decreases i,
{
    if i > 0 {
        assert forall|k: int| 0 <= k < i - 1 implies is_white_space(
            #[trigger] s.drop_first()[k],
        ) by {
            assert(s.drop_first()[k] == s[k + 1]);
        }
        lemma_trim_start_at(s.drop_first(), i - 1);
        assert(s.drop_first().subrange(i - 1, s.drop_first().len() as int) =~= s.subrange(
            i,
            s.len() as int,
        ));
    } else {
        assert(s.subrange(0, s.len() as int) =~= s);
    }
}

proof fn lemma_trim_end_at(s: Seq<char>, j: int)
    requires
        0 <= j <= s.len(),
        forall|k: int| j <= k < s.len() ==> is_white_space(#[trigger] s[k]),
        j == 0 || !is_white_space(s[j - 1]),
    ensures
        trim_end_spec(s) == s.subrange(0, j),
    decreases s.len() - j,
{
    if j < s.len() {
        assert forall|k: int| j <= k < s.drop_last().len() implies is_white_space(
            #[trigger] s.drop_last()[k],
        ) by {
            assert(s.drop_last()[k] == s[k]);
        }
        lemma_trim_end_at(s.drop_last(), j);
        assert(s.drop_last().subrange(0, j) =~= s.subrange(0, j));
    } else {
        assert(s.subrange(0, j) =~= s);
    }
}

/// The bounds `(start, end)` of the trimmed part of `cs`.
pub fn trim_bounds(cs: &Vec<char>) -> (r: (usize, usize))
    ensures
        r.0 <= r.1 <= cs.len(),
        cs@.subrange(r.0 as int, r.1 as int) == trimmed(cs@),
{
    let n = cs.len();
    let mut i: usize = 0;
    while i < n && char_is_white_space(cs[i])
        invariant
            i <= n == cs.len(),
            forall|k: int| 0 <= k < i ==> is_white_space(#[trigger] cs@[k]),
        decreases n - i,
    {
        i = i + 1;
    }
    let mut j: usize = n;
    while j > i && char_is_white_space(cs[j - 1])
        invariant
            i <= j <= n == cs.len(),
            forall|k: int| j <= k < n ==> is_white_space(#[trigger] cs@[k]),
        decreases j,
    {
        j = j - 1;
    }
    proof {
        lemma_trim_start_at(cs@, i as int);
        let t = cs@.subrange(i as int, n as int);
        assert forall|k: int| j - i <= k < t.len() implies is_white_space(#[trigger] t[k]) by {
            assert(t[k] == cs@[k + i]);
        }
        if j > i {
            assert(t[j - i - 1] == cs@[j - 1]);
        }
        lemma_trim_end_at(t, j - i);
        assert(t.subrange(0, j - i) =~= cs@.subrange(i as int, j as int));
    }
    (i, j)
}

/// `str::trim`, as an owned string.
pub fn trim(s: &str) -> (r: String)
    ensures
        r@ == trimmed(s@),
{
    let cs = chars_of(s);
    let (i, j) = trim_bounds(&cs);
    string_from_chars(&cs, i, j)
}

proof fn lemma_trim_start_shape(s: Seq<char>)
    ensures
        exists|i: int|
            0 <= i <= s.len() && trim_start_spec(s) == s.subrange(i, s.len() as int) && (forall|
                k: int,
            | 0 <= k < i ==> unicode_white_space(#[trigger] s[k])) && (i == s.len()
                || !unicode_white_space(s[i])),
    decreases s.len(),
{
    if s.len() > 0 && is_white_space(s[0]) {
        let t = s.drop_first();
        lemma_trim_start_shape(t);
        let i = choose|i: int|
            0 <= i <= t.len() && trim_start_spec(t) == t.subrange(i, t.len() as int) && (forall|
                k: int,
            | 0 <= k < i ==> unicode_white_space(#[trigger] t[k])) && (i == t.len()
                || !unicode_white_space(t[i]));
        assert(t.subrange(i, t.len() as int) =~= s.subrange(i + 1, s.len() as int));
        assert forall|k: int| 0 <= k < i + 1 implies unicode_white_space(#[trigger] s[k]) by {
            if k > 0 {
                assert(s[k] == t[k - 1]);
            }
        }
        if i + 1 < s.len() {
            assert(s[i + 1] == t[i]);
        }
    } else {
        assert(s.subrange(0, s.len() as int) =~= s);
    }
}

proof fn lemma_trim_end_shape(s: Seq<char>)
    ensures
        exists|j: int|
            0 <= j <= s.len() && trim_end_spec(s) == s.subrange(0, j) && (forall|k: int|
                j <= k < s.len() ==> unicode_white_space(#[trigger] s[k])) && (j == 0
                || !unicode_white_space(s[j - 1])),
    decreases s.len(),
{
    if s.len() > 0 && is_white_space(s.last()) {
        let t = s.drop_last();
        lemma_trim_end_shape(t);
        let j = choose|j: int|
            0 <= j <= t.len() && trim_end_spec(t) == t.subrange(0, j) && (forall|k: int|
                j <= k < t.len() ==> unicode_white_space(#[trigger] t[k])) && (j == 0
                || !unicode_white_space(t[j - 1]));
        assert(t.subrange(0, j) =~= s.subrange(0, j));
        assert forall|k: int| j <= k < s.len() implies unicode_white_space(#[trigger] s[k]) by {
            if k < s.len() - 1 {
                assert(s[k] == t[k]);
            }
        }
        if j > 0 {
            assert(s[j - 1] == t[j - 1]);
        }
    } else {
        assert(s.subrange(0, s.len() as int) =~= s);
    }
}

/// Trimming removes exactly the leading and trailing white space (the
/// Unicode `White_Space` characters): what is left is a contiguous part of
/// the text that neither starts nor ends with white space, and everything
/// cut off before and after it is white space.
pub proof fn lemma_trim_removes_white_space_only(s: Seq<char>)
    ensures
        exists|i: int, j: int|
            {
                &&& 0 <= i <= j <= s.len()
                &&& trimmed(s) == s.subrange(i, j)
                &&& forall|k: int| 0 <= k < i ==> unicode_white_space(#[trigger] s[k])
                &&& forall|k: int| j <= k < s.len() ==> unicode_white_space(#[trigger] s[k])
                &&& i < j ==> !unicode_white_space(s[i]) && !unicode_white_space(s[j - 1])
            },
{
    lemma_trim_start_shape(s);
    let i = choose|i: int|
        0 <= i <= s.len() && trim_start_spec(s) == s.subrange(i, s.len() as int) && (forall|
            k: int,
        | 0 <= k < i ==> unicode_white_space(#[trigger] s[k])) && (i == s.len()
            || !unicode_white_space(s[i]));
    let t = s.subrange(i, s.len() as int);
    lemma_trim_end_shape(t);
    let j = choose|j: int|
        0 <= j <= t.len() && trim_end_spec(t) == t.subrange(0, j) && (forall|k: int|
            j <= k < t.len() ==> unicode_white_space(#[trigger] t[k])) && (j == 0
            || !unicode_white_space(t[j - 1]));
    assert(t.subrange(0, j) =~= s.subrange(i, i + j));
    assert forall|k: int| i + j <= k < s.len() implies unicode_white_space(#[trigger] s[k]) by {
        assert(s[k] == t[k - i]);
    }
    if j > 0 {
        assert(s[i] == t[0]);
        assert(s[i + j - 1] == t[j - 1]);
    }
    assert(0 <= i <= i + j <= s.len() && trimmed(s) == s.subrange(i, i + j));
}

// ---------------------------------------------------------------------
// Decimal integers
// ---------------------------------------------------------------------
pub open spec fn is_ascii_digit(c: char) -> bool {
    48 <= (c as u32) <= 57
}

pub open spec fn digit_value(c: char) -> int {
    (c as u32) - 48
}

pub open spec fn all_digits(d: Seq<char>) -> bool {
    forall|i: int| 0 <= i < d.len() ==> is_ascii_digit(#[trigger] d[i])
}

/// The number that the decimal digits `d` spell.
pub open spec fn digits_value(d: Seq<char>) -> int
    decreases d.len(),
{
    if d.len() == 0 {
        0
    } else {
        digits_value(d.drop_last()) * 10 + digit_value(d.last())
    }
}

/// The value of an optional `+`/`-` sign followed by at least one decimal
/// digit, the text that `str::parse` accepts for a signed integer; `None`
/// for any other text.
pub open spec fn signed_decimal_value(t: Seq<char>) -> Option<int> {
    if t.len() > 0 && (t[0] == '+' || t[0] == '-') {
        let d = t.drop_first();
        if d.len() > 0 && all_digits(d) {
            Some(
                if t[0] == '-' {
                    -digits_value(d)
                } else {
                    digits_value(d)
                },
            )
        } else {
            None
        }
    } else if t.len() > 0 && all_digits(t) {
        Some(digits_value(t))
    } else {
        None
    }
}

/// `t.parse::<i64>()`: the signed decimal value of `t` when it fits in an
/// `i64`, else `None`.
pub open spec fn i64_text_value(t: Seq<char>) -> Option<i64> {
    match signed_decimal_value(t) {
        Some(v) => if i64::MIN <= v <= i64::MAX {
            Some(v as i64)
        } else {
            None
        },
        None => None,
    }
}

proof fn lemma_digits_value_nonneg(d: Seq<char>)
    requires
        all_digits(d),
    ensures
        digits_value(d) >= 0,
    decreases d.len(),
{
    if d.len() > 0 {
        assert(all_digits(d.drop_last())) by {
            assert forall|i: int| 0 <= i < d.drop_last().len() implies is_ascii_digit(
                #[trigger] d.drop_last()[i],
            ) by {
                assert(d.drop_last()[i] == d[i]);
            }
        }
        lemma_digits_value_nonneg(d.drop_last());
        assert(is_ascii_digit(d[d.len() - 1]));
    }
}

/// Digits only ever add to the value: a prefix is worth no more than the whole.
proof fn lemma_digits_value_prefix(d: Seq<char>, k: int)
    requires
        all_digits(d),
        0 <= k <= d.len(),
    ensures
        digits_value(d.take(k)) <= digits_value(d),
    decreases d.len(),
{
    if k < d.len() {
        let p = d.drop_last();
        assert(all_digits(p)) by {
            assert forall|i: int| 0 <= i < p.len() implies is_ascii_digit(#[trigger] p[i]) by {
                assert(p[i] == d[i]);
            }
        }
        lemma_digits_value_prefix(p, k);
        assert(p.take(k) =~= d.take(k));
        lemma_digits_value_nonneg(p);
        assert(is_ascii_digit(d[d.len() - 1]));
    } else {
        assert(d.take(k) =~= d);
    }
}

/// Parses `cs[from..to]` as unsigned decimal digits; `None` when a
/// character is not a digit, when there is no digit, or when the value
/// exceeds `limit`.
fn parse_digits(cs: &Vec<char>, from: usize, to: usize, limit: u64) -> (r: Option<u64>)
    requires
        from <= to <= cs.len(),
    ensures
        ({
            let d = cs@.subrange(from as int, to as int);
            match r {
                Some(v) => d.len() > 0 && all_digits(d) && v == digits_value(d) && v <= limit,
                None => !(d.len() > 0 && all_digits(d) && digits_value(d) <= limit),
            }
        }),
{
    let ghost d = cs@.subrange(from as int, to as int);
    if from == to {
        return None;
    }
    let mut k = from;
    while k < to
        invariant
            from <= k <= to <= cs.len(),
            d == cs@.subrange(from as int, to as int),
            forall|i: int| from <= i < k ==> is_ascii_digit(#[trigger] cs@[i]),
        decreases to - k,
    {
        let n = cs[k] as u32;
        if !(48 <= n && n <= 57) {
            proof {
                assert(!is_ascii_digit(d[k - from]));
            }
            return None;
        }
        k = k + 1;
    }
    assert(all_digits(d)) by {
        assert forall|i: int| 0 <= i < d.len() implies is_ascii_digit(#[trigger] d[i]) by {
            assert(d[i] == cs@[from + i]);
        }
    }
    let mut acc: u64 = 0;
    let mut k = from;
    while k < to
        invariant
            from <= k <= to <= cs.len(),
            d == cs@.subrange(from as int, to as int),
            all_digits(d),
            acc == digits_value(d.take(k - from)),
            acc <= limit,
        decreases to - k,
    {
        let ghost p = d.take(k - from);
        let ghost q = d.take(k - from + 1);
        assert(q.drop_last() =~= p);
        assert(q.last() == cs@[k as int]);
        assert(is_ascii_digit(d[k - from]));
        let digit = (cs[k] as u32 - 48) as u64;
        if acc > limit / 10 || (acc == limit / 10 && digit > limit % 10) {
            proof {
                assert(digits_value(q) > limit);
                lemma_digits_value_prefix(d, k - from + 1);
            }
            return None;
        }
        acc = acc * 10 + digit;
        k = k + 1;
    }
    assert(d.take(to - from) =~= d);
    Some(acc)
}

/// `i64::from_str` on the characters `cs[from..to]`.
pub fn parse_i64_chars(cs: &Vec<char>, from: usize, to: usize) -> (r: Option<i64>)
    requires
        from <= to <= cs.len(),
    ensures
        r == i64_text_value(cs@.subrange(from as int, to as int)),
{
    let ghost t = cs@.subrange(from as int, to as int);
    if from < to && (cs[from] == '+' || cs[from] == '-') {
        assert(t[0] == cs@[from as int]);
        assert(t.drop_first() =~= cs@.subrange(from + 1, to as int));
        let negative = cs[from] == '-';
        let limit: u64 = if negative {
            9223372036854775808
        } else {
            9223372036854775807
        };
        match parse_digits(cs, from + 1, to, limit) {
            Some(v) => {
                if negative {
                    if v == 9223372036854775808 {
                        Some(i64::MIN)
                    } else {
                        Some(-(v as i64))
                    }
                } else {
                    Some(v as i64)
                }
            },
            None => {
                proof {
                    let d = t.drop_first();
                    if d.len() > 0 && all_digits(d) {
                        lemma_digits_value_nonneg(d);
                    }
                }
                None
            },
        }
    } else {
        proof {
            if t.len() > 0 {
                assert(t[0] == cs@[from as int]);
            }
        }
        match parse_digits(cs, from, to, 9223372036854775807) {
            Some(v) => Some(v as i64),
            None => {
                proof {
                    if t.len() > 0 && all_digits(t) {
                        lemma_digits_value_nonneg(t);
                    }
                }
                None
            },
        }
    }
}

pub open spec fn digit_char(n: int) -> char {
    if n == 0 {
        '0'
    } else if n == 1 {
        '1'
    } else if n == 2 {
        '2'
    } else if n == 3 {
        '3'
    } else if n == 4 {
        '4'
    } else if n == 5 {
        '5'
    } else if n == 6 {
        '6'
    } else if n == 7 {
        '7'
    } else if n == 8 {
        '8'
    } else {
        '9'
    }
}

/// The decimal spelling of `n`, without leading zeros.
pub open spec fn decimal_text(n: nat) -> Seq<char>
    decreases n,
{
    if n < 10 {
        seq![digit_char(n as int)]
    } else {
        decimal_text(n / 10).push(digit_char((n % 10) as int))
    }
}

fn digit_char_exec(n: u64) -> (c: char)
    requires
        n < 10,
    ensures
        c == digit_char(n as int),
{
    if n == 0 {
        '0'
    } else if n == 1 {
        '1'
    } else if n == 2 {
        '2'
    } else if n == 3 {
        '3'
    } else if n == 4 {
        '4'
    } else if n == 5 {
        '5'
    } else if n == 6 {
        '6'
    } else if n == 7 {
        '7'
    } else if n == 8 {
        '8'
    } else {
        '9'
    }
}

proof fn lemma_digit_char(k: int)
    requires
        0 <= k < 10,
    ensures
        is_ascii_digit(digit_char(k)),
        digit_value(digit_char(k)) == k,
{
}

/// The decimal spelling of `n` is a non-empty run of digits worth `n`.
pub proof fn lemma_decimal_text_value(n: nat)
    ensures
        decimal_text(n).len() > 0,
        all_digits(decimal_text(n)),
        digits_value(decimal_text(n)) == n,
    decreases n,
{
    let t = decimal_text(n);
    lemma_digit_char((n % 10) as int);
    if n < 10 {
        assert(t.drop_last() =~= Seq::<char>::empty());
        assert(digits_value(t) == digits_value(t.drop_last()) * 10 + digit_value(t.last()));
    } else {
        lemma_decimal_text_value(n / 10);
        let p = decimal_text(n / 10);
        assert(t.drop_last() =~= p);
        assert(digits_value(t) == digits_value(p) * 10 + digit_value(t.last()));
        assert forall|i: int| 0 <= i < t.len() implies is_ascii_digit(#[trigger] t[i]) by {
            if i < t.len() - 1 {
                assert(t[i] == p[i]);
            }
        }
    }
}

/// Appends the decimal spelling of `n` to `out`.
pub fn push_decimal(out: &mut String, n: u64)
    ensures
        final(out)@ == old(out)@ + decimal_text(n as nat),
    decreases n,
{
    if n >= 10 {
        push_decimal(out, n / 10);
    }
    push_char(out, digit_char_exec(n % 10));
    proof {
        if n < 10 {
            assert(n % 10 == n);
        }
    }
    assert(final(out)@ =~= old(out)@ + decimal_text(n as nat)) by {
        if n >= 10 {
            assert(decimal_text(n as nat) == decimal_text((n / 10) as nat).push(
                digit_char((n % 10) as int),
            ));
        }
    }
}

// ---------------------------------------------------------------------
// Separated series of tokens
// ---------------------------------------------------------------------
/// The characters that separate the entries of a typed series: commas and
/// white space.
pub open spec fn is_series_separator(c: char) -> bool {
    c == ',' || is_white_space(c)
}

/// Scans `s` from the left: the runs of non-separator characters that are
/// complete, and the run still open at the end.
pub open spec fn token_scan(s: Seq<char>) -> (Seq<Seq<char>>, Seq<char>)
    decreases s.len(),
{
    if s.len() == 0 {
        (seq![], seq![])
    } else {
        let (done, open) = token_scan(s.drop_last());
        if is_series_separator(s.last()) {
            if open.len() > 0 {
                (done.push(open), seq![])
            } else {
                (done, seq![])
            }
        } else {
            (done, open.push(s.last()))
        }
    }
}

/// The maximal runs of non-separator characters of `s`, in order: what is
/// left of `s` split at every separator once the blank pieces are dropped.
pub open spec fn series_tokens_spec(s: Seq<char>) -> Seq<Seq<char>> {
    let (done, open) = token_scan(s);
    if open.len() > 0 {
        done.push(open)
    } else {
        done
    }
}

/// Splits `raw` at commas and white space and keeps the non-blank pieces.
pub fn series_tokens(raw: &str) -> (r: Vec<String>)
    ensures
        r.deep_view() == series_tokens_spec(raw@),
{
    let cs = chars_of(raw);
    let n = cs.len();
    let mut tokens: Vec<String> = Vec::new();
    let mut start: usize = 0;
    let mut k: usize = 0;
    while k < n
        invariant
            start <= k <= n == cs.len(),
            cs@ == raw@,
            token_scan(cs@.take(k as int)) == (tokens.deep_view(), cs@.subrange(
                start as int,
                k as int,
            )),
        decreases n - k,
    {
        let ghost pre = cs@.take(k as int);
        assert(cs@.take(k + 1).drop_last() =~= pre);
        assert(cs@.take(k + 1).last() == cs@[k as int]);
        let c = cs[k];
        if c == ',' || char_is_white_space(c) {
            if k > start {
                let tok = string_from_chars(&cs, start, k);
                let ghost old_tokens = tokens.deep_view();
                tokens.push(tok);
                assert(tokens.deep_view() =~= old_tokens.push(cs@.subrange(start as int, k as int)));
            }
            start = k + 1;
            assert(cs@.subrange(start as int, k + 1) =~= Seq::<char>::empty());
        } else {
            assert(cs@.subrange(start as int, k + 1) =~= cs@.subrange(start as int, k as int).push(
                c,
            ));
        }
        k = k + 1;
    }
    assert(cs@.take(n as int) =~= cs@);
    if n > start {
        let tok = string_from_chars(&cs, start, n);
        let ghost old_tokens = tokens.deep_view();
        tokens.push(tok);
        assert(tokens.deep_view() =~= old_tokens.push(cs@.subrange(start as int, n as int)));
    }
    tokens
}

/// The separator that `join_series` puts between entries.
pub open spec fn series_separator() -> Seq<char> {
    seq![',', ' ']
}

/// `items` joined with `sep` between consecutive entries.
pub open spec fn joined(items: Seq<Seq<char>>, sep: Seq<char>) -> Seq<char>
    decreases items.len(),
{
    if items.len() == 0 {
        seq![]
    } else if items.len() == 1 {
        items[0]
    } else {
        joined(items.drop_last(), sep) + sep + items.last()
    }
}

/// Joins the entries with `", "`, as a stored series is shown for editing.
pub fn join_series(items: &Vec<String>) -> (r: String)
    ensures
        r@ == joined(items.deep_view(), series_separator()),
        r@ == joined(items.deep_view(), ", "@),
{
    proof {
        reveal_strlit(", ");
        assert(", "@ =~= series_separator());
    }
    let mut out = String::new();
    let n = items.len();
    let mut k: usize = 0;
    while k < n
        invariant
            k <= n == items.len(),
            out@ == joined(items.deep_view().take(k as int), series_separator()),
        decreases n - k,
    {
        let ghost prev = items.deep_view().take(k as int);
        let ghost next = items.deep_view().take(k + 1);
        assert(next.drop_last() =~= prev);
        assert(next.last() == items[k as int]@);
        if k > 0 {
            push_char(&mut out, ',');
            push_char(&mut out, ' ');
        }
        out.append(items[k].as_str());
        proof {
            if k == 0 {
                assert(next.len() == 1);
                assert(out@ =~= next[0]);
            } else {
                assert(out@ =~= joined(prev, series_separator()) + series_separator() + next.last());
            }
        }
        k = k + 1;
    }
    assert(items.deep_view().take(n as int) =~= items.deep_view());
    out
}

/// Every entry is non-empty and free of separators: the entries that a
/// series can be written from and read back as.
pub open spec fn well_formed_tokens(items: Seq<Seq<char>>) -> bool {
    forall|i: int|
        0 <= i < items.len() ==> {
            &&& (#[trigger] items[i]).len() > 0
            &&& forall|k: int| 0 <= k < items[i].len() ==> !is_series_separator(items[i][k])
        }
}

proof fn lemma_scan_append_run(x: Seq<char>, y: Seq<char>)
    requires
        forall|k: int| 0 <= k < y.len() ==> !is_series_separator(#[trigger] y[k]),
    ensures
        token_scan(x + y) == (token_scan(x).0, token_scan(x).1 + y),
    decreases y.len(),
{
    if y.len() == 0 {
        assert(x + y =~= x);
        assert(token_scan(x).1 + y =~= token_scan(x).1);
    } else {
        let y0 = y.drop_last();
        assert forall|k: int| 0 <= k < y0.len() implies !is_series_separator(#[trigger] y0[k]) by {
            assert(y0[k] == y[k]);
        }
        lemma_scan_append_run(x, y0);
        assert((x + y).drop_last() =~= x + y0);
        assert((x + y).last() == y[y.len() - 1]);
        assert((token_scan(x).1 + y0).push(y.last()) =~= token_scan(x).1 + y);
    }
}

proof fn lemma_scan_joined(items: Seq<Seq<char>>)
    requires
        items.len() > 0,
        well_formed_tokens(items),
    ensures
        token_scan(joined(items, series_separator())) == (items.drop_last(), items.last()),
    decreases items.len(),
{
    let last = items.last();
    assert(last == items[items.len() - 1]);
    if items.len() == 1 {
        lemma_scan_append_run(seq![], last);
        assert(Seq::<char>::empty() + last =~= last);
        assert(items.drop_last() =~= Seq::<Seq<char>>::empty());
    } else {
        let front = items.drop_last();
        assert(well_formed_tokens(front)) by {
            assert forall|i: int| 0 <= i < front.len() implies (#[trigger] front[i]).len() > 0 && (
            forall|k: int| 0 <= k < front[i].len() ==> !is_series_separator(front[i][k])) by {
                assert(front[i] == items[i]);
            }
        }
        lemma_scan_joined(front);
        let j = joined(front, series_separator());
        assert(front.last() == items[items.len() - 2]);
        let a = j.push(',');
        assert(a.drop_last() =~= j);
        assert(token_scan(a) == (front.drop_last().push(front.last()), Seq::<char>::empty()));
        assert(front.drop_last().push(front.last()) =~= front);
        let b = a.push(' ');
        assert(b.drop_last() =~= a);
        assert(is_white_space(' '));
        assert(token_scan(b) == (front, Seq::<char>::empty()));
        assert(j + series_separator() =~= b);
        lemma_scan_append_run(b, last);
        assert(Seq::<char>::empty() + last =~= last);
        assert(joined(items, series_separator()) == b + last);
    }
}

/// Reading back a written series gives the same entries: splitting the
/// `", "`-joined text of well-formed entries yields exactly those entries.
pub proof fn lemma_series_round_trip(items: Seq<Seq<char>>)
    requires
        well_formed_tokens(items),
    ensures
        series_tokens_spec(joined(items, series_separator())) == items,
{
    if items.len() > 0 {
        lemma_scan_joined(items);
        assert(items.drop_last().push(items.last()) =~= items);
    } else {
        assert(token_scan(Seq::<char>::empty()) == (Seq::<Seq<char>>::empty(), Seq::<char>::empty()));
    }
}

/// A comma (U+002C), or a character with the Unicode `White_Space`
/// property.
pub open spec fn comma_or_unicode_space(c: char) -> bool {
    (c as u32) == 0x2c || unicode_white_space(c)
}

/// A character with the Unicode `White_Space` property, the characters
/// `char::is_whitespace` accepts: tab, line feed, vertical tab, form feed,
/// carriage return, space, next line, no-break space, ogham space mark, the
/// spaces from en quad to hair space, line and paragraph separators, narrow
/// no-break space, medium mathematical space and ideographic space.
pub open spec fn unicode_white_space(c: char) -> bool {
    let n = c as u32;
    ||| n == 0x09 || n == 0x0a || n == 0x0b || n == 0x0c || n == 0x0d
    ||| n == 0x20 || n == 0x85 || n == 0xa0 || n == 0x1680
    ||| n == 0x2000 || n == 0x2001 || n == 0x2002 || n == 0x2003 || n == 0x2004
    ||| n == 0x2005 || n == 0x2006 || n == 0x2007 || n == 0x2008 || n == 0x2009
    ||| n == 0x200a || n == 0x2028 || n == 0x2029 || n == 0x202f || n == 0x205f
    ||| n == 0x3000
}

proof fn lemma_scan_after_break(p: Seq<char>, q: Seq<char>)
    requires
        token_scan(p).1.len() == 0,
    ensures
        token_scan(p + q) == (token_scan(p).0 + token_scan(q).0, token_scan(q).1),
    decreases q.len(),
{
    if q.len() == 0 {
        assert(p + q =~= p);
        assert(token_scan(p).0 + Seq::<Seq<char>>::empty() =~= token_scan(p).0);
    } else {
        let q0 = q.drop_last();
        lemma_scan_after_break(p, q0);
        assert((p + q).drop_last() =~= p + q0);
        assert((p + q).last() == q.last());
        let d = token_scan(p).0;
        let (qd, qo) = token_scan(q0);
        if is_series_separator(q.last()) && qo.len() > 0 {
            assert((d + qd).push(qo) =~= d + qd.push(qo));
        }
    }
}

/// Splitting a series at a comma or any white space: the entries of
/// `s1`, the separator `c`, then `s2` are the entries of `s1` followed by
/// those of `s2`.
pub proof fn lemma_series_splits_at_separator(s1: Seq<char>, c: char, s2: Seq<char>)
    requires
        comma_or_unicode_space(c),
    ensures
        series_tokens_spec(s1.push(c) + s2) == series_tokens_spec(s1) + series_tokens_spec(s2),
{
    let p = s1.push(c);
    assert(p.drop_last() =~= s1);
    assert(p.last() == c);
    assert(is_series_separator(c));
    assert(token_scan(p) == (series_tokens_spec(s1), Seq::<char>::empty()));
    lemma_scan_after_break(p, s2);
    let (qd, qo) = token_scan(s2);
    if qo.len() > 0 {
        assert((series_tokens_spec(s1) + qd).push(qo) =~= series_tokens_spec(s1) + qd.push(qo));
    }
}

/// A non-empty run free of commas and white space is one entry, and an
/// empty text has none.
pub proof fn lemma_series_single_entry(s: Seq<char>)
    requires
        forall|k: int| 0 <= k < s.len() ==> !comma_or_unicode_space(#[trigger] s[k]),
    ensures
        s.len() > 0 ==> series_tokens_spec(s) == seq![s],
        s.len() == 0 ==> series_tokens_spec(s).len() == 0,
{
    assert forall|k: int| 0 <= k < s.len() implies !is_series_separator(#[trigger] s[k]) by {
        assert(!comma_or_unicode_space(s[k]));
    }
    lemma_scan_append_run(Seq::<char>::empty(), s);
    assert(Seq::<char>::empty() + s =~= s);
    assert(Seq::<char>::empty() + s =~= s);
    if s.len() > 0 {
        assert(Seq::<Seq<char>>::empty().push(s) =~= seq![s]);
    }
}

// ---------------------------------------------------------------------
// Affixes
// ---------------------------------------------------------------------
pub open spec fn has_prefix(s: Seq<char>, p: Seq<char>) -> bool {
    p.len() <= s.len() && s.subrange(0, p.len() as int) == p
}

pub open spec fn has_suffix(s: Seq<char>, p: Seq<char>) -> bool {
    p.len() <= s.len() && s.subrange(s.len() - p.len(), s.len() as int) == p
}

pub open spec fn has_infix(s: Seq<char>, p: Seq<char>) -> bool {
    exists|i: int| 0 <= i && i + p.len() <= s.len() && #[trigger] s.subrange(i, i + p.len()) == p
}

/// Whether `s[at..at + p.len()]` is `p`.
fn matches_at(s: &Vec<char>, p: &Vec<char>, at: usize) -> (r: bool)
    requires
        at + p.len() <= s.len(),
    ensures
        r == (s@.subrange(at as int, at + p.len()) == p@),
{
    let mut k: usize = 0;
    while k < p.len()
        invariant
            at + p.len() <= s.len(),
            k <= p.len(),
            forall|i: int| 0 <= i < k ==> s@[at + i] == p@[i],
        decreases p.len() - k,
    {
        if s[at + k] != p[k] {
            assert(s@.subrange(at as int, at + p.len())[k as int] != p@[k as int]);
            return false;
        }
        k = k + 1;
    }
    assert(s@.subrange(at as int, at + p.len()) =~= p@);
    true
}

pub fn starts_with(s: &Vec<char>, p: &Vec<char>) -> (r: bool)
    ensures
        r == has_prefix(s@, p@),
{
    p.len() <= s.len() && matches_at(s, p, 0)
}

pub fn ends_with(s: &Vec<char>, p: &Vec<char>) -> (r: bool)
    ensures
        r == has_suffix(s@, p@),
{
    p.len() <= s.len() && matches_at(s, p, s.len() - p.len())
}

pub fn contains_text(s: &Vec<char>, p: &Vec<char>) -> (r: bool)
    ensures
        r == has_infix(s@, p@),
{
    if p.len() > s.len() {
        return false;
    }
    let last = s.len() - p.len();
    let mut i: usize = 0;
    while i <= last
        invariant
            last + p.len() == s.len(),
            i <= last + 1,
            forall|j: int| 0 <= j < i ==> #[trigger] s@.subrange(j, j + p.len()) != p@,
        decreases last + 1 - i,
    {
        if matches_at(s, p, i) {
            return true;
        }
        if i == last {
            return false;
        }
        i = i + 1;
    }
    false
}

} // verus!
