//! Verified text utilities: decimal rendering and parsing of integers,
//! character-level search, splitting and joining.
//!
//! The migration logic works on paths, XML fragments and CSV lines; this
//! module gives it exact, executable string operations whose behaviour is
//! pinned down over `Seq<char>` views.

use vstd::prelude::*;

verus! {

// ---------------------------------------------------------------------------
// Decimal digits
// ---------------------------------------------------------------------------

/// Whether `c` is an ASCII decimal digit.
pub open spec fn is_digit_char(c: char) -> bool {
    '0' <= c && c <= '9'
}

/// The numeric value of a digit character.
pub open spec fn digit_val(c: char) -> nat
    recommends
        is_digit_char(c),
{
    (c as nat - '0' as nat) as nat
}

/// The digit character for a value below ten.
pub open spec fn digit_of(d: nat) -> char
    recommends
        d < 10,
{
    if d == 0 {
        '0'
    } else if d == 1 {
        '1'
    } else if d == 2 {
        '2'
    } else if d == 3 {
        '3'
    } else if d == 4 {
        '4'
    } else if d == 5 {
        '5'
    } else if d == 6 {
        '6'
    } else if d == 7 {
        '7'
    } else if d == 8 {
        '8'
    } else {
        '9'
    }
}

/// The decimal rendering of a natural number, most significant digit first.
pub open spec fn spec_dec_digits(n: nat) -> Seq<char>
    decreases n,
{
    if n < 10 {
        seq![digit_of(n)]
    } else {
        spec_dec_digits(n / 10).push(digit_of(n % 10))
    }
}

/// The decimal rendering of an integer: a minus sign for negatives, then the
/// digits of the magnitude.
pub open spec fn spec_int_dec(n: int) -> Seq<char> {
    if n < 0 {
        seq!['-'] + spec_dec_digits((-n) as nat)
    } else {
        spec_dec_digits(n as nat)
    }
}

/// The digit character of a value below ten.
pub fn digit_char_of(d: u64) -> (c: char)
    requires
        d < 10,
    ensures
        c == digit_of(d as nat),
{
    if d == 0 {
        '0'
    } else if d == 1 {
        '1'
    } else if d == 2 {
        '2'
    } else if d == 3 {
        '3'
    } else if d == 4 {
        '4'
    } else if d == 5 {
        '5'
    } else if d == 6 {
        '6'
    } else if d == 7 {
        '7'
    } else if d == 8 {
        '8'
    } else {
        '9'
    }
}

fn push_u64_digits(s: &mut String, n: u64)
    ensures
        final(s)@ == old(s)@ + spec_dec_digits(n as nat),
    decreases n,
{
    if n < 10 {
        s.push(digit_char_of(n));
        assert(final(s)@ =~= old(s)@ + spec_dec_digits(n as nat));
    } else {
        push_u64_digits(s, n / 10);
        s.push(digit_char_of(n % 10));
        assert(final(s)@ =~= old(s)@ + spec_dec_digits(n as nat));
    }
}

/// Renders `n` in decimal.
pub fn u64_to_string(n: u64) -> (r: String)
    ensures
        r@ == spec_dec_digits(n as nat),
{
    let mut s = String::new();
    push_u64_digits(&mut s, n);
    assert(s@ =~= spec_dec_digits(n as nat));
    s
}

/// Renders `n` in decimal, with a leading minus sign when negative.
pub fn i64_to_string(n: i64) -> (r: String)
    ensures
        r@ == spec_int_dec(n as int),
{
    if n >= 0 {
        let r = u64_to_string(n as u64);
        r
    } else {
        let wide: i128 = n as i128;
        let mag: u64 = (-wide) as u64;
        assert(mag as nat == (-(n as int)) as nat);
        let mut s = String::new();
        s.push('-');
        push_u64_digits(&mut s, mag);
        assert(s@ =~= spec_int_dec(n as int));
        s
    }
}

// ---------------------------------------------------------------------------
// Decimal parsing
// ---------------------------------------------------------------------------

/// Whether every character of `s` is an ASCII decimal digit.
pub open spec fn all_digits(s: Seq<char>) -> bool {
    forall|i: int| 0 <= i < s.len() ==> is_digit_char(#[trigger] s[i])
}

/// The value of a run of decimal digits, most significant first.
pub open spec fn digits_val(s: Seq<char>) -> nat
    decreases s.len(),
{
    if s.len() == 0 {
        0
    } else {
        digits_val(s.drop_last()) * 10 + digit_val(s.last())
    }
}

/// What `str::parse::<i64>` accepts: an optional sign, then at least one
/// digit, with the value in range; the parsed value otherwise.
pub open spec fn spec_parse_i64(s: Seq<char>) -> Option<int> {
    let signed = s.len() > 0 && (s[0] == '+' || s[0] == '-');
    let body = if signed {
        s.skip(1)
    } else {
        s
    };
    if body.len() == 0 || !all_digits(body) {
        None
    } else {
        let v = if s.len() > 0 && s[0] == '-' {
            -(digits_val(body) as int)
        } else {
            digits_val(body) as int
        };
        if i64::MIN <= v <= i64::MAX {
            Some(v)
        } else {
            None
        }
    }
}

/// What `str::parse::<u64>` accepts: an optional plus sign, then at least one
/// digit, with the value in range; the parsed value otherwise.
pub open spec fn spec_parse_u64(s: Seq<char>) -> Option<int> {
    let signed = s.len() > 0 && s[0] == '+';
    let body = if signed {
        s.skip(1)
    } else {
        s
    };
    if body.len() == 0 || !all_digits(body) {
        None
    } else if digits_val(body) <= u64::MAX {
        Some(digits_val(body) as int)
    } else {
        None
    }
}

proof fn lemma_digits_val_take_succ(s: Seq<char>, i: int)
    requires
        0 <= i < s.len(),
    ensures
        digits_val(s.take(i + 1)) == digits_val(s.take(i)) * 10 + digit_val(s[i]),
{
    assert(s.take(i + 1).drop_last() =~= s.take(i));
    assert(s.take(i + 1).last() == s[i]);
}

proof fn lemma_digits_val_grows(s: Seq<char>, i: int)
    requires
        0 <= i <= s.len(),
    ensures
        digits_val(s) >= digits_val(s.take(i)),
    decreases s.len() - i,
{
    if i == s.len() {
        assert(s.take(i) =~= s);
    } else {
        lemma_digits_val_take_succ(s, i);
        lemma_digits_val_grows(s, i + 1);
    }
}

fn digit_value(c: char) -> (d: u64)
    requires
        is_digit_char(c),
    ensures
        d as nat == digit_val(c),
        d < 10,
{
    (c as u32 - '0' as u32) as u64
}

/// Parses a signed decimal integer exactly as `str::parse::<i64>` does.
pub fn parse_i64(s: &[char]) -> (r: Option<i64>)
    ensures
        match r {
            Some(v) => spec_parse_i64(s@) == Some(v as int),
            None => spec_parse_i64(s@) is None,
        },
{
    let len: usize = s.len();
    if len == 0 {
        return None;
    }
    let first: char = s[0];
    let neg: bool = first == '-';
    let start: usize = if first == '-' || first == '+' {
        1
    } else {
        0
    };
    if start >= len {
        return None;
    }
    let ghost body: Seq<char> = if start == 1 {
        s@.skip(1)
    } else {
        s@
    };
    let mut acc: i128 = 0;
    let mut i: usize = start;
    while i < len
        invariant
            start <= i <= len,
            len == s@.len(),
            start == 0 || start == 1,
            start == 1 ==> (s@[0] == '+' || s@[0] == '-'),
            start == 0 ==> !(s@[0] == '+' || s@[0] == '-'),
            neg == (s@[0] == '-'),
            body == (if start == 1 {
                s@.skip(1)
            } else {
                s@
            }),
            all_digits(body.take(i - start)),
            acc == digits_val(body.take(i - start)),
            0 <= acc <= 0x8000000000000000i128,
        decreases len - i,
    {
        let c: char = s[i];
        assert(body[i - start] == s@[i as int]);
        if !('0' <= c && c <= '9') {
            assert(!all_digits(body)) by {
                assert(!is_digit_char(body[i - start]));
            }
            return None;
        }
        let d: u64 = digit_value(c);
        acc = acc * 10 + d as i128;
        proof {
            lemma_digits_val_take_succ(body, i - start);
            assert(body.take(i + 1 - start).drop_last() =~= body.take(i - start));
        }
        i += 1;
        if acc > 0x8000000000000000i128 {
            proof {
                lemma_digits_val_grows(body, i - start);
            }
            assert(digits_val(body) > i64::MAX && digits_val(body) > 0x8000000000000000);
            return None;
        }
    }
    assert(body.take(i - start) =~= body);
    if neg {
        let v: i64 = (-acc) as i64;
        assert(spec_parse_i64(s@) == Some(v as int));
        Some(v)
    } else {
        if acc > 0x7fffffffffffffffi128 {
            assert(spec_parse_i64(s@) is None);
            None
        } else {
            let v: i64 = acc as i64;
            Some(v)
        }
    }
}

/// Parses an unsigned decimal integer exactly as `str::parse::<u64>` does.
pub fn parse_u64(s: &[char]) -> (r: Option<u64>)
    ensures
        match r {
            Some(v) => spec_parse_u64(s@) == Some(v as int),
            None => spec_parse_u64(s@) is None,
        },
{
    let len: usize = s.len();
    if len == 0 {
        return None;
    }
    let start: usize = if s[0] == '+' {
        1
    } else {
        0
    };
    if start >= len {
        return None;
    }
    let ghost body: Seq<char> = if start == 1 {
        s@.skip(1)
    } else {
        s@
    };
    let mut acc: u128 = 0;
    let mut i: usize = start;
    while i < len
        invariant
            start <= i <= len,
            len == s@.len(),
            start == 0 || start == 1,
            start == 1 ==> s@[0] == '+',
            start == 0 ==> s@[0] != '+',
            body == (if start == 1 {
                s@.skip(1)
            } else {
                s@
            }),
            all_digits(body.take(i - start)),
            acc == digits_val(body.take(i - start)),
            acc <= u64::MAX as u128 * 10 + 9,
            digits_val(body.take(i - start)) <= u64::MAX || i == len || acc > u64::MAX as u128,
        decreases len - i,
    {
        let c: char = s[i];
        assert(body[i - start] == s@[i as int]);
        if !('0' <= c && c <= '9') {
            assert(!all_digits(body)) by {
                assert(!is_digit_char(body[i - start]));
            }
            return None;
        }
        if acc > u64::MAX as u128 {
            proof {
                lemma_digits_val_grows(body, i - start);
            }
            return None;
        }
        let d: u64 = digit_value(c);
        acc = acc * 10 + d as u128;
        proof {
            lemma_digits_val_take_succ(body, i - start);
        }
        i += 1;
    }
    assert(body.take(i - start) =~= body);
    if acc > u64::MAX as u128 {
        proof {
            lemma_digits_val_grows(body, body.len() as int);
            assert(body.take(body.len() as int) =~= body);
        }
        None
    } else {
        Some(acc as u64)
    }
}

// ---------------------------------------------------------------------------
// Conversions between `str`, `String` and `Vec<char>`
// ---------------------------------------------------------------------------

/// The characters of `s`, in order.
pub fn chars_of(s: &str) -> (r: Vec<char>)
    ensures
        r@ == s@,
{
    let len: usize = s.unicode_len();
    let mut r: Vec<char> = Vec::new();
    let mut i: usize = 0;
    while i < len
        invariant
            i <= len,
            len == s@.len(),
            r@ == s@.take(i as int),
        decreases len - i,
    {
        r.push(s.get_char(i));
        assert(r@ =~= s@.take(i + 1));
        i += 1;
    }
    assert(r@ =~= s@);
    r
}

/// A `String` holding exactly the characters of `v`.
pub fn string_of(v: &[char]) -> (r: String)
    ensures
        r@ == v@,
{
    let mut r = String::new();
    let mut i: usize = 0;
    while i < v.len()
        invariant
            i <= v@.len(),
            r@ == v@.take(i as int),
        decreases v@.len() - i,
    {
        r.push(v[i]);
        assert(r@ =~= v@.take(i + 1));
        i += 1;
    }
    assert(r@ =~= v@);
    r
}

/// A fresh vector holding clones of the strings of `v`.
pub fn clone_strings(v: &Vec<String>) -> (r: Vec<String>)
    ensures
        r@ == v@,
{
    let mut r: Vec<String> = Vec::new();
    let mut i: usize = 0;
    while i < v.len()
        invariant
            i <= v@.len(),
            r@ == v@.take(i as int),
        decreases v@.len() - i,
    {
        r.push(v[i].clone());
        assert(r@ =~= v@.take(i + 1));
        i += 1;
    }
    assert(r@ =~= v@);
    r
}

/// A fresh vector holding `v[from..to]`.
pub fn sub_chars(v: &[char], from: usize, to: usize) -> (r: Vec<char>)
    requires
        from <= to <= v@.len(),
    ensures
        r@ == v@.subrange(from as int, to as int),
{
    let mut r: Vec<char> = Vec::new();
    let mut i: usize = from;
    while i < to
        invariant
            from <= i <= to <= v@.len(),
            r@ == v@.subrange(from as int, i as int),
        decreases to - i,
    {
        r.push(v[i]);
        assert(r@ =~= v@.subrange(from as int, i + 1));
        i += 1;
    }
    r
}

/// `s` with every trailing `c` removed.
pub open spec fn spec_trim_end_char(s: Seq<char>, c: char) -> Seq<char>
    decreases s.len(),
{
    if s.len() > 0 && s.last() == c {
        spec_trim_end_char(s.drop_last(), c)
    } else {
        s
    }
}

/// Removes every trailing occurrence of `c`.
pub fn trim_end_char(s: &str, c: char) -> (r: String)
    ensures
        r@ == spec_trim_end_char(s@, c),
{
    let v = chars_of(s);
    let mut end: usize = v.len();
    assert(s@.take(end as int) =~= s@);
    while end > 0 && v[end - 1] == c
        invariant
            end <= v@.len(),
            v@ == s@,
            spec_trim_end_char(s@, c) == spec_trim_end_char(s@.take(end as int), c),
        decreases end,
    {
        assert(s@.take(end as int).last() == c);
        assert(s@.take(end as int).drop_last() =~= s@.take(end - 1));
        end -= 1;
    }
    let cut = sub_chars(v.as_slice(), 0, end);
    assert(cut@ =~= s@.take(end as int));
    proof {
        if end > 0 {
            assert(s@.take(end as int).last() != c);
        }
    }
    string_of(cut.as_slice())
}

// ---------------------------------------------------------------------------
// Substring search
// ---------------------------------------------------------------------------

/// Whether `sub` occurs in `s` starting at position `i`.
pub open spec fn match_at(s: Seq<char>, sub: Seq<char>, i: int) -> bool {
    0 <= i && i + sub.len() <= s.len() && s.subrange(i, i + sub.len() as int) == sub
}

/// The first position at which `sub` occurs in `s`, if any.
pub open spec fn spec_find(s: Seq<char>, sub: Seq<char>) -> Option<int>
    decreases s.len(),
{
    if sub.len() > s.len() {
        None
    } else if s.subrange(0, sub.len() as int) == sub {
        Some(0)
    } else if s.len() == 0 {
        None
    } else {
        match spec_find(s.skip(1), sub) {
            Some(i) => Some(i + 1),
            None => None,
        }
    }
}

proof fn lemma_match_shift(s: Seq<char>, sub: Seq<char>, j: int)
    requires
        1 <= j,
        s.len() >= 1,
    ensures
        match_at(s, sub, j) <==> match_at(s.skip(1), sub, j - 1),
{
    if j + sub.len() <= s.len() {
        assert(s.subrange(j, j + sub.len() as int) =~= s.skip(1).subrange(
            j - 1,
            j - 1 + sub.len() as int,
        ));
    }
}

/// `spec_find` returns the least occurrence, and `None` only when there is
/// none.
pub proof fn lemma_find_props(s: Seq<char>, sub: Seq<char>)
    ensures
        match spec_find(s, sub) {
            Some(i) => match_at(s, sub, i) && (forall|j: int|
                0 <= j < i ==> !match_at(s, sub, j)),
            None => forall|j: int| !match_at(s, sub, j),
        },
    decreases s.len(),
{
    if sub.len() > s.len() {
        assert(forall|j: int| !match_at(s, sub, j));
    } else if s.subrange(0, sub.len() as int) == sub {
    } else if s.len() == 0 {
        assert(sub.len() == 0);
        assert(s.subrange(0, 0) =~= sub);
    } else {
        lemma_find_props(s.skip(1), sub);
        match spec_find(s.skip(1), sub) {
            Some(i) => {
                assert(match_at(s.skip(1), sub, i));
                lemma_match_shift(s, sub, i + 1);
                assert(match_at(s, sub, i + 1));
                assert forall|j: int| 0 <= j < i + 1 implies !match_at(s, sub, j) by {
                    if j >= 1 {
                        lemma_match_shift(s, sub, j);
                        assert(!match_at(s.skip(1), sub, j - 1));
                    }
                }
            },
            None => {
                assert forall|j: int| !match_at(s, sub, j) by {
                    if j >= 1 {
                        lemma_match_shift(s, sub, j);
                        assert(!match_at(s.skip(1), sub, j - 1));
                    }
                }
            },
        }
    }
}

/// The first position at which `sub` occurs in `s`, scanning left to right.
pub fn find_first(s: &[char], sub: &[char]) -> (r: Option<usize>)
    ensures
        match r {
            Some(i) => spec_find(s@, sub@) == Some(i as int),
            None => spec_find(s@, sub@) is None,
        },
{
    proof {
        lemma_find_props(s@, sub@);
    }
    let n: usize = s.len();
    let m: usize = sub.len();
    if m > n {
        return None;
    }
    if m == 0 {
        assert(s@.subrange(0, 0) =~= sub@);
        return Some(0);
    }
    let mut i: usize = 0;
    while i <= n - m
        invariant
            0 <= i <= n - m + 1,
            1 <= m <= n,
            n == s@.len(),
            m == sub@.len(),
            forall|j: int| 0 <= j < i ==> !match_at(s@, sub@, j),
        decreases n - i,
    {
        let mut k: usize = 0;
        let mut matched: bool = true;
        while k < m
            invariant
                0 <= k <= m,
                i + m <= n,
                n == s@.len(),
                m == sub@.len(),
                matched ==> s@.subrange(i as int, i + k) =~= sub@.take(k as int),
                !matched ==> !match_at(s@, sub@, i as int),
            decreases m - k,
        {
            if matched && !(s[i + k] == sub[k]) {
                assert(match_at(s@, sub@, i as int) ==> s@.subrange(
                    i as int,
                    i + m,
                )[k as int] == sub@[k as int]);
                matched = false;
            }
            proof {
                if matched {
                    assert(s@.subrange(i as int, i + k + 1) =~= s@.subrange(
                        i as int,
                        i + k,
                    ).push(s@[i + k]));
                    assert(sub@.take(k + 1) =~= sub@.take(k as int).push(sub@[k as int]));
                }
            }
            k += 1;
        }
        if matched {
            assert(sub@.take(m as int) =~= sub@);
            assert(match_at(s@, sub@, i as int));
            proof {
                lemma_find_props(s@, sub@);
                match spec_find(s@, sub@) {
                    Some(w) => {
                        if w < i {
                            assert(!match_at(s@, sub@, w));
                            assert(false);
                        }
                        if w > i {
                            assert(!match_at(s@, sub@, i as int));
                            assert(false);
                        }
                    },
                    None => {
                        assert(!match_at(s@, sub@, i as int));
                        assert(false);
                    },
                }
            }
            return Some(i);
        }
        i += 1;
    }
    proof {
        assert forall|j: int| !match_at(s@, sub@, j) by {
            if 0 <= j && j + sub@.len() <= s@.len() {
                assert(j < i);
            }
        }
        lemma_find_props(s@, sub@);
        match spec_find(s@, sub@) {
            Some(w) => {
                assert(!match_at(s@, sub@, w));
                assert(false);
            },
            None => {},
        }
    }
    None
}

/// Whether `sub` occurs anywhere in `s`.
pub fn contains_seq(s: &[char], sub: &[char]) -> (r: bool)
    ensures
        r == (spec_find(s@, sub@) is Some),
{
    find_first(s, sub).is_some()
}

// ---------------------------------------------------------------------------
// Splitting and joining on a separator character
// ---------------------------------------------------------------------------

/// The views of a sequence of character vectors.
pub open spec fn views(vs: Seq<Vec<char>>) -> Seq<Seq<char>> {
    vs.map_values(|v: Vec<char>| v@)
}

/// The pieces of `s` between occurrences of `sep`; always at least one piece.
pub open spec fn spec_split(s: Seq<char>, sep: char) -> Seq<Seq<char>>
    decreases s.len(),
{
    if s.len() == 0 {
        seq![Seq::<char>::empty()]
    } else {
        let rest = spec_split(s.skip(1), sep);
        if s[0] == sep {
            seq![Seq::<char>::empty()] + rest
        } else {
            seq![seq![s[0]] + rest[0]] + rest.skip(1)
        }
    }
}

/// The pieces interleaved with the separator.
pub open spec fn spec_join(parts: Seq<Seq<char>>, sep: char) -> Seq<char>
    decreases parts.len(),
{
    if parts.len() == 0 {
        Seq::empty()
    } else if parts.len() == 1 {
        parts[0]
    } else {
        parts[0] + seq![sep] + spec_join(parts.skip(1), sep)
    }
}

/// A split has at least one piece.
pub proof fn lemma_split_len(s: Seq<char>, sep: char)
    ensures
        spec_split(s, sep).len() >= 1,
    decreases s.len(),
{
    if s.len() > 0 {
        lemma_split_len(s.skip(1), sep);
    }
}

/// No piece of a split contains the separator.
pub proof fn lemma_split_sep_free(s: Seq<char>, sep: char)
    ensures
        forall|k: int|
            0 <= k < spec_split(s, sep).len() ==> !(#[trigger] spec_split(s, sep)[k]).contains(
                sep,
            ),
    decreases s.len(),
{
    if s.len() == 0 {
        assert(!spec_split(s, sep)[0].contains(sep));
    } else {
        lemma_split_sep_free(s.skip(1), sep);
        lemma_split_len(s.skip(1), sep);
        let rest = spec_split(s.skip(1), sep);
        if s[0] == sep {
            assert forall|k: int| 0 <= k < spec_split(s, sep).len() implies !(
            #[trigger] spec_split(s, sep)[k]).contains(sep) by {
                if k == 0 {
                    assert(!Seq::<char>::empty().contains(sep));
                } else {
                    assert(spec_split(s, sep)[k] == rest[k - 1]);
                }
            }
        } else {
            assert forall|k: int| 0 <= k < spec_split(s, sep).len() implies !(
            #[trigger] spec_split(s, sep)[k]).contains(sep) by {
                if k == 0 {
                    assert(!rest[0].contains(sep));
                    let piece = seq![s[0]] + rest[0];
                    assert forall|j: int| 0 <= j < piece.len() implies piece[j] != sep by {
                        if j == 0 {
                        } else {
                            assert(piece[j] == rest[0][j - 1]);
                            assert(!rest[0].contains(sep));
                        }
                    }
                } else {
                    assert(spec_split(s, sep)[k] == rest.skip(1)[k - 1]);
                    assert(rest.skip(1)[k - 1] == rest[k]);
                }
            }
        }
    }
}

/// Splitting a separator-free sequence yields that one piece.
proof fn lemma_split_of_sep_free(s: Seq<char>, sep: char)
    requires
        !s.contains(sep),
    ensures
        spec_split(s, sep) =~= seq![s],
    decreases s.len(),
{
    if s.len() > 0 {
        assert(s[0] != sep);
        assert(!s.skip(1).contains(sep)) by {
            if s.skip(1).contains(sep) {
                let j = choose|j: int| 0 <= j < s.skip(1).len() && s.skip(1)[j] == sep;
                assert(s[j + 1] == sep);
            }
        }
        lemma_split_of_sep_free(s.skip(1), sep);
        let rest = spec_split(s.skip(1), sep);
        assert(rest =~~= seq![s.skip(1)]);
        assert(rest.skip(1) =~~= Seq::<Seq<char>>::empty());
        assert(seq![s[0]] + rest[0] =~= s);
        assert(spec_split(s, sep) =~~= seq![s]);
    } else {
        assert(s =~= Seq::<char>::empty());
        assert(spec_split(s, sep) =~~= seq![s]);
    }
}

/// Splitting after a separator-free prefix and a separator resumes on the
/// suffix.
proof fn lemma_split_prepend(p: Seq<char>, t: Seq<char>, sep: char)
    requires
        !p.contains(sep),
    ensures
        spec_split(p + seq![sep] + t, sep) =~= seq![p] + spec_split(t, sep),
    decreases p.len(),
{
    let s = p + seq![sep] + t;
    if p.len() == 0 {
        assert(s[0] == sep);
        assert(s.skip(1) =~= t);
        assert(p =~= Seq::<char>::empty());
        assert(spec_split(s, sep) =~~= seq![p] + spec_split(t, sep));
    } else {
        assert(s[0] == p[0]);
        assert(p[0] != sep);
        assert(!p.skip(1).contains(sep)) by {
            if p.skip(1).contains(sep) {
                let j = choose|j: int| 0 <= j < p.skip(1).len() && p.skip(1)[j] == sep;
                assert(p[j + 1] == sep);
            }
        }
        lemma_split_prepend(p.skip(1), t, sep);
        assert(s.skip(1) =~= p.skip(1) + seq![sep] + t);
        let rest = spec_split(s.skip(1), sep);
        assert(rest =~~= seq![p.skip(1)] + spec_split(t, sep));
        lemma_split_len(t, sep);
        assert(rest[0] == p.skip(1));
        assert(seq![s[0]] + rest[0] =~= p);
        assert(rest.skip(1) =~~= spec_split(t, sep));
        assert(spec_split(s, sep) =~~= seq![p] + spec_split(t, sep));
    }
}

/// Splitting undoes joining when every piece is separator-free.
pub proof fn lemma_split_join(parts: Seq<Seq<char>>, sep: char)
    requires
        parts.len() >= 1,
        forall|k: int| 0 <= k < parts.len() ==> !(#[trigger] parts[k]).contains(sep),
    ensures
        spec_split(spec_join(parts, sep), sep) =~= parts,
    decreases parts.len(),
{
    if parts.len() == 1 {
        lemma_split_of_sep_free(parts[0], sep);
    } else {
        assert(forall|k: int|
            0 <= k < parts.skip(1).len() ==> parts.skip(1)[k] == parts[k + 1]);
        lemma_split_join(parts.skip(1), sep);
        lemma_split_prepend(parts[0], spec_join(parts.skip(1), sep), sep);
    }
}

/// A fresh vector holding the characters of `v`.
pub fn copy_chars(v: &[char]) -> (r: Vec<char>)
    ensures
        r@ == v@,
{
    let mut r: Vec<char> = Vec::new();
    let mut i: usize = 0;
    while i < v.len()
        invariant
            i <= v@.len(),
            r@ == v@.take(i as int),
        decreases v@.len() - i,
    {
        r.push(v[i]);
        assert(r@ =~= v@.take(i + 1));
        i += 1;
    }
    assert(r@ =~= v@);
    r
}

/// Splits `s` at every occurrence of `sep`.
pub fn split_chars(s: &[char], sep: char) -> (r: Vec<Vec<char>>)
    ensures
        views(r@) == spec_split(s@, sep),
        r@.len() >= 1,
{
    let mut r: Vec<Vec<char>> = Vec::new();
    r.push(Vec::new());
    assert(s@.skip(s@.len() as int) =~= Seq::<char>::empty());
    assert(views(r@) =~= spec_split(s@.skip(s@.len() as int), sep));
    let mut i: usize = s.len();
    while i > 0
        invariant
            0 <= i <= s@.len(),
            r@.len() >= 1,
            views(r@) == spec_split(s@.skip(i as int), sep),
        decreases i,
    {
        i -= 1;
        let c: char = s[i];
        let ghost tail = s@.skip(i as int);
        assert(tail.len() > 0 && tail[0] == c);
        assert(tail.skip(1) =~= s@.skip(i + 1));
        if c == sep {
            r.insert(0, Vec::new());
            assert(views(r@) =~= spec_split(tail, sep));
        } else {
            let mut first: Vec<char> = r.remove(0);
            first.insert(0, c);
            r.insert(0, first);
            proof {
                let rest = spec_split(s@.skip(i + 1), sep);
                assert(first@ =~= seq![c] + rest[0]);
                assert(views(r@) =~= seq![seq![c] + rest[0]] + rest.skip(1));
            }
        }
    }
    assert(s@.skip(0) =~= s@);
    r
}

fn join_from(parts: &Vec<Vec<char>>, i: usize, sep: char) -> (r: Vec<char>)
    requires
        i <= parts@.len(),
    ensures
        r@ == spec_join(views(parts@).skip(i as int), sep),
    decreases parts@.len() - i,
{
    if i >= parts.len() {
        let r: Vec<char> = Vec::new();
        assert(views(parts@).skip(i as int) =~= Seq::<Seq<char>>::empty());
        r
    } else if i + 1 == parts.len() {
        let r = copy_chars(parts[i].as_slice());
        assert(views(parts@).skip(i as int) =~= seq![parts@[i as int]@]);
        r
    } else {
        let mut r = copy_chars(parts[i].as_slice());
        r.push(sep);
        let mut rest = join_from(parts, i + 1, sep);
        r.append(&mut rest);
        proof {
            let tail = views(parts@).skip(i as int);
            assert(tail[0] == parts@[i as int]@);
            assert(tail.skip(1) =~= views(parts@).skip(i + 1));
            assert(r@ =~= tail[0] + seq![sep] + spec_join(tail.skip(1), sep));
        }
        r
    }
}

/// Joins the pieces with `sep` between them.
pub fn join_chars(parts: &Vec<Vec<char>>, sep: char) -> (r: Vec<char>)
    ensures
        r@ == spec_join(views(parts@), sep),
{
    let r = join_from(parts, 0, sep);
    assert(views(parts@).skip(0) =~= views(parts@));
    r
}

// ---------------------------------------------------------------------------
// Whitespace and quote trimming, lines
// ---------------------------------------------------------------------------

/// Whether `c` has the Unicode white-space property, as `char::is_whitespace`
/// reports it.
pub open spec fn is_ws_char(c: char) -> bool {
    ||| c == '\u{0009}'
    ||| c == '\u{000A}'
    ||| c == '\u{000B}'
    ||| c == '\u{000C}'
    ||| c == '\u{000D}'
    ||| c == ' '
    ||| c == '\u{0085}'
    ||| c == '\u{00A0}'
    ||| c == '\u{1680}'
    ||| ('\u{2000}' <= c && c <= '\u{200A}')
    ||| c == '\u{2028}'
    ||| c == '\u{2029}'
    ||| c == '\u{202F}'
    ||| c == '\u{205F}'
    ||| c == '\u{3000}'
}

fn ws_char(c: char) -> (r: bool)
    ensures
        r == is_ws_char(c),
{
    c == '\u{0009}' || c == '\u{000A}' || c == '\u{000B}' || c == '\u{000C}' || c == '\u{000D}'
        || c == ' ' || c == '\u{0085}' || c == '\u{00A0}' || c == '\u{1680}' || ('\u{2000}' <= c
        && c <= '\u{200A}') || c == '\u{2028}' || c == '\u{2029}' || c == '\u{202F}' || c
        == '\u{205F}' || c == '\u{3000}'
}

/// `s` without leading characters satisfying the white-space test.
pub open spec fn spec_trim_start(s: Seq<char>) -> Seq<char>
    decreases s.len(),
{
    if s.len() > 0 && is_ws_char(s[0]) {
        spec_trim_start(s.skip(1))
    } else {
        s
    }
}

/// `s` without trailing characters satisfying the white-space test.
pub open spec fn spec_trim_end(s: Seq<char>) -> Seq<char>
    decreases s.len(),
{
    if s.len() > 0 && is_ws_char(s.last()) {
        spec_trim_end(s.drop_last())
    } else {
        s
    }
}

/// `s` without leading and trailing white space, as `str::trim` yields it.
pub open spec fn spec_trim(s: Seq<char>) -> Seq<char> {
    spec_trim_end(spec_trim_start(s))
}

/// Removes leading and trailing white space.
pub fn trim_chars(v: &[char]) -> (r: Vec<char>)
    ensures
        r@ == spec_trim(v@),
{
    let n: usize = v.len();
    let mut start: usize = 0;
    assert(v@.skip(0) =~= v@);
    while start < n && ws_char(v[start])
        invariant
            start <= n,
            n == v@.len(),
            spec_trim_start(v@) == spec_trim_start(v@.skip(start as int)),
        decreases n - start,
    {
        assert(v@.skip(start as int)[0] == v@[start as int]);
        assert(v@.skip(start as int).skip(1) =~= v@.skip(start + 1));
        start += 1;
    }
    proof {
        if start < n {
            assert(v@.skip(start as int)[0] == v@[start as int]);
        }
    }
    assert(spec_trim_start(v@) == v@.skip(start as int));
    let mut end: usize = n;
    assert(v@.skip(start as int).take(n - start) =~= v@.skip(start as int));
    while end > start && ws_char(v[end - 1])
        invariant
            start <= end <= n,
            n == v@.len(),
            spec_trim_end(v@.skip(start as int)) == spec_trim_end(
                v@.skip(start as int).take(end - start),
            ),
        decreases end,
    {
        assert(v@.skip(start as int).take(end - start).last() == v@[end - 1]);
        assert(v@.skip(start as int).take(end - start).drop_last() =~= v@.skip(
            start as int,
        ).take(end - 1 - start));
        end -= 1;
    }
    proof {
        let piece = v@.skip(start as int).take(end - start);
        if end > start {
            assert(piece.last() == v@[end - 1]);
        }
        assert(spec_trim_end(piece) == piece);
    }
    let r = sub_chars(v, start, end);
    assert(r@ =~= v@.skip(start as int).take(end - start));
    r
}

/// `s` without leading occurrences of `c`.
pub open spec fn spec_trim_start_char(s: Seq<char>, c: char) -> Seq<char>
    decreases s.len(),
{
    if s.len() > 0 && s[0] == c {
        spec_trim_start_char(s.skip(1), c)
    } else {
        s
    }
}

/// `s` without leading and trailing occurrences of `c`, as
/// `str::trim_matches` yields it for a single-character pattern.
pub open spec fn spec_trim_char(s: Seq<char>, c: char) -> Seq<char> {
    spec_trim_end_char(spec_trim_start_char(s, c), c)
}

/// Removes every leading and trailing occurrence of `c`.
pub fn trim_char(v: &[char], c: char) -> (r: Vec<char>)
    ensures
        r@ == spec_trim_char(v@, c),
{
    let n: usize = v.len();
    let mut start: usize = 0;
    assert(v@.skip(0) =~= v@);
    while start < n && v[start] == c
        invariant
            start <= n,
            n == v@.len(),
            spec_trim_start_char(v@, c) == spec_trim_start_char(v@.skip(start as int), c),
        decreases n - start,
    {
        assert(v@.skip(start as int)[0] == v@[start as int]);
        assert(v@.skip(start as int).skip(1) =~= v@.skip(start + 1));
        start += 1;
    }
    proof {
        if start < n {
            assert(v@.skip(start as int)[0] == v@[start as int]);
        }
    }
    assert(spec_trim_start_char(v@, c) == v@.skip(start as int));
    let mut end: usize = n;
    assert(v@.skip(start as int).take(n - start) =~= v@.skip(start as int));
    while end > start && v[end - 1] == c
        invariant
            start <= end <= n,
            n == v@.len(),
            spec_trim_end_char(v@.skip(start as int), c) == spec_trim_end_char(
                v@.skip(start as int).take(end - start),
                c,
            ),
        decreases end,
    {
        assert(v@.skip(start as int).take(end - start).last() == v@[end - 1]);
        assert(v@.skip(start as int).take(end - start).drop_last() =~= v@.skip(
            start as int,
        ).take(end - 1 - start));
        end -= 1;
    }
    proof {
        let piece = v@.skip(start as int).take(end - start);
        if end > start {
            assert(piece.last() == v@[end - 1]);
        }
        assert(spec_trim_end_char(piece, c) == piece);
    }
    let r = sub_chars(v, start, end);
    assert(r@ =~= v@.skip(start as int).take(end - start));
    r
}

/// One trailing carriage return removed, as `str::lines` strips it.
pub open spec fn spec_strip_cr(s: Seq<char>) -> Seq<char> {
    if s.len() > 0 && s.last() == '\r' {
        s.drop_last()
    } else {
        s
    }
}

/// The lines of `s`, as `str::lines` yields them: pieces between newlines,
/// a final empty piece dropped, and one trailing carriage return stripped
/// from each line.
pub open spec fn spec_lines(s: Seq<char>) -> Seq<Seq<char>> {
    let ps = spec_split(s, '\n');
    let kept = if ps.last().len() == 0 {
        ps.drop_last()
    } else {
        ps
    };
    kept.map_values(|p: Seq<char>| spec_strip_cr(p))
}

/// Splits `s` into lines.
pub fn lines_of(s: &[char]) -> (r: Vec<Vec<char>>)
    ensures
        views(r@) == spec_lines(s@),
{
    let mut parts = split_chars(s, '\n');
    proof {
        lemma_split_len(s@, '\n');
    }
    let last_index = parts.len() - 1;
    if parts[last_index].len() == 0 {
        let _dropped = parts.pop();
    }
    let ghost kept = if spec_split(s@, '\n').last().len() == 0 {
        spec_split(s@, '\n').drop_last()
    } else {
        spec_split(s@, '\n')
    };
    assert(views(parts@) =~= kept) by {
        assert forall|j: int| 0 <= j < parts@.len() implies views(parts@)[j] == kept[j] by {
            assert(views(parts@)[j] == parts@[j]@);
        }
    }
    let mut i: usize = 0;
    let ghost mapped = kept.map_values(|p: Seq<char>| spec_strip_cr(p));
    while i < parts.len()
        invariant
            i <= parts@.len(),
            parts@.len() == kept.len(),
            mapped == kept.map_values(|p: Seq<char>| spec_strip_cr(p)),
            forall|j: int| 0 <= j < i ==> #[trigger] parts@[j]@ == mapped[j],
            forall|j: int| i <= j < parts@.len() ==> #[trigger] parts@[j]@ == kept[j],
        decreases parts@.len() - i,
    {
        assert(mapped[i as int] == spec_strip_cr(kept[i as int]));
        let line_len = parts[i].len();
        if line_len > 0 && parts[i][line_len - 1] == '\r' {
            let line = &mut parts[i];
            let _cr = line.pop();
        }
        i += 1;
    }
    assert(views(parts@) =~= mapped) by {
        assert forall|j: int| 0 <= j < parts@.len() implies views(parts@)[j] == mapped[j] by {
            assert(views(parts@)[j] == parts@[j]@);
        }
    }
    parts
}

/// Whether two string slices hold the same characters.
pub fn str_eq(a: &str, b: &str) -> (r: bool)
    ensures
        r == (a@ == b@),
{
    let an: usize = a.unicode_len();
    let bn: usize = b.unicode_len();
    if an != bn {
        return false;
    }
    let mut i: usize = 0;
    while i < an
        invariant
            i <= an,
            an == a@.len(),
            an == b@.len(),
            forall|j: int| 0 <= j < i ==> a@[j] == b@[j],
        decreases an - i,
    {
        if a.get_char(i) != b.get_char(i) {
            return false;
        }
        i += 1;
    }
    assert(a@ =~= b@);
    true
}

} // verus!
