//! Decimal numbers and separated lists, as text.

use vstd::prelude::*;

verus! {

/// Appends `c` to `s`, by std's `String::push`: the characters of `s` after the
/// call are those before it followed by `c`.
#[verifier::external_body]
pub(crate) fn push_char(s: &mut String, c: char)
    ensures
        final(s)@ == old(s)@.push(c),
{
    s.push(c);
}

/// The characters of `s`, in order.
pub fn chars_of(s: &str) -> (v: Vec<char>)
    ensures
        v@ == s@,
{
    let mut v: Vec<char> = Vec::new();
    for c in it: s.chars()
        invariant
            v@ == it.seq().take(it.index() as int),
            it.seq() == s@,
    {
        v.push(c);
    }
    v
}

// ---------------------------------------------------------------------------
// Decimal numbers
// ---------------------------------------------------------------------------

/// The character of the decimal digit `d`.
pub open spec fn digit_char(d: nat) -> char {
    (48 + d) as char
}

/// Whether `c` is one of the ASCII digits `0` to `9`.
pub open spec fn is_digit(c: char) -> bool {
    '0' <= c && c <= '9'
}

/// Whether every character of `s` is an ASCII digit.
pub open spec fn all_digits(s: Seq<char>) -> bool {
    forall|i: int| 0 <= i < s.len() ==> #[trigger] is_digit(s[i])
}

/// The number that the decimal digits `s` stand for (0 for no digits).
pub open spec fn digits_value(s: Seq<char>) -> nat
    decreases s.len(),
{
    if s.len() == 0 {
        0
    } else {
        digits_value(s.drop_last()) * 10 + ((s.last() as int - 48) as nat)
    }
}

/// The decimal representation of `n`, with no leading zeros ("0" for zero).
pub open spec fn decimal(n: nat) -> Seq<char>
    decreases n,
{
    if n < 10 {
        seq![digit_char(n)]
    } else {
        decimal(n / 10).push(digit_char(n % 10))
    }
}

/// The decimal representation of the integer `n`: a `-` before the digits
/// of a negative number.
pub open spec fn signed_decimal(n: int) -> Seq<char> {
    if n < 0 {
        seq!['-'].add(decimal((-n) as nat))
    } else {
        decimal(n as nat)
    }
}

/// The decimal representation of a number is made of digits and stands for
/// that number.
pub proof fn lemma_decimal_digits(n: nat)
    ensures
        decimal(n).len() >= 1,
        all_digits(decimal(n)),
        digits_value(decimal(n)) == n,
    decreases n,
{
    if n >= 10 {
        lemma_decimal_digits(n / 10);
        let s = decimal(n / 10);
        assert(decimal(n).drop_last() =~= s);
        assert(decimal(n).last() as int == 48 + n % 10);
        assert(n == (n / 10) * 10 + n % 10);
        assert forall|i: int| 0 <= i < decimal(n).len() implies #[trigger] is_digit(
            decimal(n)[i],
        ) by {
            if i < s.len() {
                assert(decimal(n)[i] == s[i]);
            }
        }
        assert(digits_value(decimal(n)) == digits_value(s) * 10 + ((decimal(n).last() as int
            - 48) as nat));
    } else {
        assert(decimal(n).drop_last() =~= Seq::<char>::empty());
        assert(digits_value(Seq::<char>::empty()) == 0);
        assert(is_digit(decimal(n)[0]));
    }
}

/// The value of a prefix of digits is at most the value of all of them.
pub proof fn lemma_prefix_value(s: Seq<char>, k: int)
    requires
        all_digits(s),
        0 <= k <= s.len(),
    ensures
        digits_value(s.take(k)) <= digits_value(s),
    decreases s.len(),
{
    if k < s.len() {
        let pre = s.drop_last();
        assert(all_digits(pre)) by {
            assert forall|i: int| 0 <= i < pre.len() implies #[trigger] is_digit(pre[i]) by {
                assert(pre[i] == s[i]);
            }
        }
        lemma_prefix_value(pre, k);
        assert(pre.take(k) =~= s.take(k));
        assert(is_digit(s[s.len() - 1]));
    } else {
        assert(s.take(k) =~= s);
    }
}

/// The decimal digits of a number within `limit` read back as that number.
pub proof fn lemma_read_magnitude_decimal(n: nat, limit: nat, overflow: IntErrorKind)
    requires
        n <= limit,
    ensures
        read_magnitude(decimal(n), limit, overflow) == Ok::<nat, IntErrorKind>(n),
{
    lemma_decimal_digits(n);
    let d = decimal(n);
    assert forall|k: int| 0 < k <= d.len() && all_digits(#[trigger] d.take(k)) implies digits_value(
        d.take(k),
    ) <= limit by {
        lemma_prefix_value(d, k);
    }
}

/// A number within `max` written in decimal reads back as that number.
pub proof fn lemma_read_decimal(n: nat, max: nat)
    requires
        n <= max,
    ensures
        read_unsigned(decimal(n), max) == Ok::<nat, IntErrorKind>(n),
{
    lemma_decimal_digits(n);
    assert(is_digit(decimal(n)[0]));
    lemma_read_magnitude_decimal(n, max, IntErrorKind::PosOverflow);
}

/// An integer between `-max - 1` and `max` written in decimal reads back as
/// that integer.
pub proof fn lemma_read_signed_decimal(n: int, max: nat)
    requires
        -max - 1 <= n <= max,
    ensures
        read_signed(signed_decimal(n), max) == Ok::<int, IntErrorKind>(n),
{
    if n < 0 {
        let m = (-n) as nat;
        let s = signed_decimal(n);
        assert(s.drop_first() =~= decimal(m));
        assert(s[0] == '-');
        lemma_read_magnitude_decimal(m, max + 1, IntErrorKind::NegOverflow);
    } else {
        lemma_decimal_digits(n as nat);
        assert(is_digit(decimal(n as nat)[0]));
        lemma_read_decimal(n as nat, max);
    }
}

/// Writes `n` in decimal, as `u64::to_string` does.
pub fn u64_to_decimal(n: u64) -> (s: String)
    ensures
        s@ == decimal(n as nat),
    decreases n,
{
    if n < 10 {
        let mut s = String::new();
        push_char(&mut s, ((n as u8) + 48) as char);
        s
    } else {
        let mut s = u64_to_decimal(n / 10);
        push_char(&mut s, (((n % 10) as u8) + 48) as char);
        s
    }
}

/// Writes `n` in decimal, as `u32::to_string` does.
pub fn u32_to_decimal(n: u32) -> (s: String)
    ensures
        s@ == decimal(n as nat),
{
    u64_to_decimal(n as u64)
}

/// Writes `n` in decimal, as `i64::to_string` does.
pub fn i64_to_decimal(n: i64) -> (s: String)
    ensures
        s@ == signed_decimal(n as int),
{
    if n < 0 {
        let magnitude: u64 = if n == i64::MIN {
            9223372036854775808u64
        } else {
            (-n) as u64
        };
        let digits = u64_to_decimal(magnitude);
        let mut s = String::new();
        push_char(&mut s, '-');
        let mut out = s.concat(digits.as_str());
        out
    } else {
        u64_to_decimal(n as u64)
    }
}

/// How reading an integer failed, as std's `IntErrorKind` tells it.
#[derive(Debug, Clone, Copy, PartialEq, Eq, Structural)]
pub enum IntErrorKind {
    /// The text is empty.
    Empty,
    /// The text holds a character that is not a digit where a digit belongs.
    InvalidDigit,
    /// The number is above the largest value of the type.
    PosOverflow,
    /// The number is below the smallest value of the type.
    NegOverflow,
}

/// The error of reading an integer from text.
#[derive(Debug, Clone, Copy, PartialEq, Eq, Structural)]
pub struct ParseIntError {
    pub kind: IntErrorKind,
}

/// The message of an error of kind `kind`, as std's `ParseIntError` displays it.
pub open spec fn int_error_message(kind: IntErrorKind) -> Seq<char> {
    match kind {
        IntErrorKind::Empty => "cannot parse integer from empty string"@,
        IntErrorKind::InvalidDigit => "invalid digit found in string"@,
        IntErrorKind::PosOverflow => "number too large to fit in target type"@,
        IntErrorKind::NegOverflow => "number too small to fit in target type"@,
    }
}

impl ParseIntError {
    /// The message of this error, as std displays it.
    pub fn message(&self) -> (m: String)
        ensures
            m@ == int_error_message(self.kind),
    {
        match self.kind {
            IntErrorKind::Empty => String::from_str("cannot parse integer from empty string"),
            IntErrorKind::InvalidDigit => String::from_str("invalid digit found in string"),
            IntErrorKind::PosOverflow => String::from_str("number too large to fit in target type"),
            IntErrorKind::NegOverflow => String::from_str("number too small to fit in target type"),
        }
    }
}

/// Reads the digits `d` as a number of at most `limit`. The reading fails
/// with `overflow` where some all-digit prefix of `d` already stands for more
/// than `limit`; else with `InvalidDigit` where `d` is empty or holds a
/// character that is not a digit.
pub open spec fn read_magnitude(d: Seq<char>, limit: nat, overflow: IntErrorKind) -> Result<
    nat,
    IntErrorKind,
> {
    if exists|k: int|
        0 < k <= d.len() && all_digits(#[trigger] d.take(k)) && digits_value(d.take(k)) > limit {
        Err(overflow)
    } else if d.len() == 0 || !all_digits(d) {
        Err(IntErrorKind::InvalidDigit)
    } else {
        Ok(digits_value(d))
    }
}

/// What std's `from_str` gives for an unsigned type whose largest value is
/// `max`: an optional `+`, then decimal digits.
pub open spec fn read_unsigned(s: Seq<char>, max: nat) -> Result<nat, IntErrorKind> {
    if s.len() == 0 {
        Err(IntErrorKind::Empty)
    } else if s[0] == '+' {
        read_magnitude(s.drop_first(), max, IntErrorKind::PosOverflow)
    } else {
        read_magnitude(s, max, IntErrorKind::PosOverflow)
    }
}

/// What std's `from_str` gives for a signed type whose largest value is
/// `max` (and smallest `-max - 1`): an optional `+` or `-`, then decimal digits.
pub open spec fn read_signed(s: Seq<char>, max: nat) -> Result<int, IntErrorKind> {
    if s.len() == 0 {
        Err(IntErrorKind::Empty)
    } else if s[0] == '-' {
        match read_magnitude(s.drop_first(), max + 1, IntErrorKind::NegOverflow) {
            Ok(v) => Ok(-v),
            Err(e) => Err(e),
        }
    } else {
        match read_unsigned(s, max) {
            Ok(v) => Ok(v as int),
            Err(e) => Err(e),
        }
    }
}

/// Reads the digits of `d` from index `start` on, as a number of at most `limit`.
fn magnitude_from(d: &Vec<char>, start: usize, limit: u64, overflow: IntErrorKind) -> (r: Result<
    u64,
    IntErrorKind,
>)
    requires
        start <= d.len(),
    ensures
        match read_magnitude(d@.skip(start as int), limit as nat, overflow) {
            Ok(v) => r == Ok::<u64, IntErrorKind>(v as u64),
            Err(e) => r == Err::<u64, IntErrorKind>(e),
        },
        r matches Ok(v) ==> v <= limit,
        read_magnitude(d@.skip(start as int), limit as nat, overflow) matches Ok(v) ==> v <= limit,
{
    let ghost t = d@.skip(start as int);
    assert(t.take(t.len() as int) =~= t);
    let mut acc: u64 = 0;
    let mut i: usize = start;
    while i < d.len()
        invariant
            start <= i <= d.len(),
            t == d@.skip(start as int),
            all_digits(t.take(i - start)),
            acc as nat == digits_value(t.take(i - start)),
            forall|k: int|
                0 < k <= i - start ==> #[trigger] digits_value(t.take(k)) <= limit,
        decreases d.len() - i,
    {
        let c = d[i];
        let ghost k = i - start;
        assert(t.take(k + 1).drop_last() =~= t.take(k));
        assert(t[k] == c);
        if !('0' <= c && c <= '9') {
            proof {
                assert forall|j: int|
                    0 < j <= t.len() && all_digits(#[trigger] t.take(j)) implies digits_value(
                    t.take(j),
                ) <= limit by {
                    if j > k {
                        assert(t.take(j)[k] == c);
                        assert(!is_digit(t.take(j)[k]));
                    }
                }
                assert(!is_digit(t[k]));
            }
            return Err(IntErrorKind::InvalidDigit);
        }
        let x: u64 = ((c as u32) - 48) as u64;
        let next: u128 = (acc as u128) * 10 + (x as u128);
        assert(all_digits(t.take(k + 1)));
        assert(digits_value(t.take(k + 1)) == next);
        if next > limit as u128 {
            assert(0 < k + 1 <= t.len() && all_digits(t.take(k + 1)) && digits_value(t.take(k + 1))
                > limit);
            return Err(overflow);
        }
        acc = next as u64;
        i = i + 1;
    }
    assert(t.take(i - start) =~= t);
    assert(t.len() > 0 ==> digits_value(t.take(t.len() as int)) <= limit);
    if i == start {
        return Err(IntErrorKind::InvalidDigit);
    }
    Ok(acc)
}

/// Reads `s` as a `u64`, as `str::parse::<u64>` does.
pub fn parse_u64(s: &str) -> (r: Result<u64, ParseIntError>)
    ensures
        match read_unsigned(s@, u64::MAX as nat) {
            Ok(v) => r == Ok::<u64, ParseIntError>(v as u64),
            Err(kind) => r == Err::<u64, ParseIntError>(ParseIntError { kind }),
        },
{
    let d = chars_of(s);
    if d.len() == 0 {
        return Err(ParseIntError { kind: IntErrorKind::Empty });
    }
    let start: usize = if d[0] == '+' { 1 } else { 0 };
    assert(d@.skip(0) =~= d@);
    assert(d@.skip(1) =~= d@.drop_first());
    match magnitude_from(&d, start, u64::MAX, IntErrorKind::PosOverflow) {
        Ok(v) => Ok(v),
        Err(kind) => Err(ParseIntError { kind }),
    }
}

/// Reads `s` as a `u32`, as `str::parse::<u32>` does.
pub fn parse_u32(s: &str) -> (r: Result<u32, ParseIntError>)
    ensures
        match read_unsigned(s@, u32::MAX as nat) {
            Ok(v) => r == Ok::<u32, ParseIntError>(v as u32),
            Err(kind) => r == Err::<u32, ParseIntError>(ParseIntError { kind }),
        },
{
    let d = chars_of(s);
    if d.len() == 0 {
        return Err(ParseIntError { kind: IntErrorKind::Empty });
    }
    let start: usize = if d[0] == '+' { 1 } else { 0 };
    assert(d@.skip(0) =~= d@);
    assert(d@.skip(1) =~= d@.drop_first());
    match magnitude_from(&d, start, u32::MAX as u64, IntErrorKind::PosOverflow) {
        Ok(v) => Ok(v as u32),
        Err(kind) => Err(ParseIntError { kind }),
    }
}

/// Reads `s` as an `i64`, as `str::parse::<i64>` does.
pub fn parse_i64(s: &str) -> (r: Result<i64, ParseIntError>)
    ensures
        match read_signed(s@, i64::MAX as nat) {
            Ok(v) => r == Ok::<i64, ParseIntError>(v as i64),
            Err(kind) => r == Err::<i64, ParseIntError>(ParseIntError { kind }),
        },
{
    let d = chars_of(s);
    if d.len() == 0 {
        return Err(ParseIntError { kind: IntErrorKind::Empty });
    }
    assert(d@.skip(0) =~= d@);
    assert(d@.skip(1) =~= d@.drop_first());
    if d[0] == '-' {
        match magnitude_from(&d, 1, 9223372036854775808u64, IntErrorKind::NegOverflow) {
            Ok(v) => {
                if v == 9223372036854775808u64 {
                    Ok(i64::MIN)
                } else {
                    Ok(-(v as i64))
                }
            },
            Err(kind) => Err(ParseIntError { kind }),
        }
    } else {
        let start: usize = if d[0] == '+' { 1 } else { 0 };
        match magnitude_from(&d, start, i64::MAX as u64, IntErrorKind::PosOverflow) {
            Ok(v) => Ok(v as i64),
            Err(kind) => Err(ParseIntError { kind }),
        }
    }
}

// ---------------------------------------------------------------------------
// Separated lists
// ---------------------------------------------------------------------------

/// The pieces of `s` between the occurrences of `sep`, as `str::split` cuts
/// them: one piece more than there are separators, empty pieces included.
pub open spec fn split_on(s: Seq<char>, sep: char) -> Seq<Seq<char>>
    decreases s.len(),
{
    if s.len() == 0 {
        seq![Seq::<char>::empty()]
    } else {
        let pieces = split_on(s.drop_last(), sep);
        if s.last() == sep {
            pieces.push(Seq::<char>::empty())
        } else {
            pieces.update(pieces.len() - 1, pieces.last().push(s.last()))
        }
    }
}

/// The pieces `pieces` written one after the other with `sep` between each
/// two, as `join` on a slice of strings does (empty for no pieces).
pub open spec fn join_with(pieces: Seq<Seq<char>>, sep: char) -> Seq<char>
    decreases pieces.len(),
{
    if pieces.len() == 0 {
        Seq::<char>::empty()
    } else if pieces.len() == 1 {
        pieces[0]
    } else {
        join_with(pieces.drop_last(), sep).push(sep) + pieces.last()
    }
}

/// Whether `sep` occurs in none of `pieces`.
pub open spec fn free_of(pieces: Seq<Seq<char>>, sep: char) -> bool {
    forall|i: int| 0 <= i < pieces.len() ==> !(#[trigger] pieces[i]).contains(sep)
}

/// Cutting text gives at least one piece.
pub proof fn lemma_split_nonempty(s: Seq<char>, sep: char)
    ensures
        split_on(s, sep).len() >= 1,
    decreases s.len(),
{
    if s.len() > 0 {
        lemma_split_nonempty(s.drop_last(), sep);
    }
}

proof fn lemma_split_free(b: Seq<char>, sep: char)
    requires
        !b.contains(sep),
    ensures
        split_on(b, sep) == seq![b],
    decreases b.len(),
{
    if b.len() > 0 {
        let c = b.last();
        assert(b.drop_last().contains(sep) ==> b.contains(sep)) by {
            if b.drop_last().contains(sep) {
                let i = choose|i: int| 0 <= i < b.drop_last().len() && b.drop_last()[i] == sep;
                assert(b[i] == sep);
            }
        }
        lemma_split_free(b.drop_last(), sep);
        assert(b[b.len() - 1] == c);
        assert(c != sep);
        assert(b.drop_last().push(c) =~= b);
    } else {
        assert(b =~= Seq::<char>::empty());
    }
}

proof fn lemma_split_after_sep(x: Seq<char>, b: Seq<char>, sep: char)
    requires
        !b.contains(sep),
    ensures
        split_on(x.push(sep) + b, sep) == split_on(x, sep).push(b),
    decreases b.len(),
{
    lemma_split_nonempty(x, sep);
    if b.len() == 0 {
        assert(b =~= Seq::<char>::empty());
        assert(x.push(sep) + b =~= x.push(sep));
        assert((x.push(sep)).drop_last() =~= x);
        assert((x.push(sep)).last() == sep);
        assert(split_on(x.push(sep), sep) == split_on(x, sep).push(Seq::<char>::empty()));
    } else {
        let b2 = b.drop_last();
        assert(b2.contains(sep) ==> b.contains(sep)) by {
            if b2.contains(sep) {
                let i = choose|i: int| 0 <= i < b2.len() && b2[i] == sep;
                assert(b[i] == sep);
            }
        }
        lemma_split_after_sep(x, b2, sep);
        let whole = x.push(sep) + b;
        assert(whole.drop_last() =~= x.push(sep) + b2);
        assert(whole.last() == b.last());
        assert(b.last() != sep) by {
            assert(b[b.len() - 1] == b.last());
        }
        assert(b2.push(b.last()) =~= b);
        assert(split_on(whole, sep) == split_on(x.push(sep) + b2, sep).update(
            split_on(x.push(sep) + b2, sep).len() - 1,
            split_on(x.push(sep) + b2, sep).last().push(whole.last()),
        ));
        assert(split_on(x, sep).push(b2).update(
            split_on(x, sep).len() as int,
            b2.push(b.last()),
        ) =~= split_on(x, sep).push(b));
    }
}

/// Cutting the joined pieces at the separator gives the pieces back, where
/// there is at least one piece and none holds the separator.
pub proof fn lemma_split_join(pieces: Seq<Seq<char>>, sep: char)
    requires
        pieces.len() >= 1,
        free_of(pieces, sep),
    ensures
        split_on(join_with(pieces, sep), sep) == pieces,
    decreases pieces.len(),
{
    if pieces.len() == 1 {
        assert(!pieces[0].contains(sep));
        lemma_split_free(pieces[0], sep);
        assert(seq![pieces[0]] =~= pieces);
    } else {
        let q = pieces.drop_last();
        assert(free_of(q, sep)) by {
            assert forall|i: int| 0 <= i < q.len() implies !(#[trigger] q[i]).contains(sep) by {
                assert(q[i] == pieces[i]);
            }
        }
        lemma_split_join(q, sep);
        assert(!pieces[pieces.len() - 1].contains(sep));
        lemma_split_after_sep(join_with(q, sep), pieces.last(), sep);
        assert(q.push(pieces.last()) =~= pieces);
    }
}

proof fn lemma_join_extend_last(pieces: Seq<Seq<char>>, c: char, sep: char)
    requires
        pieces.len() >= 1,
    ensures
        join_with(pieces.update(pieces.len() - 1, pieces.last().push(c)), sep) == join_with(
            pieces,
            sep,
        ).push(c),
{
    let p2 = pieces.update(pieces.len() - 1, pieces.last().push(c));
    if pieces.len() == 1 {
    } else {
        assert(p2.drop_last() =~= pieces.drop_last());
        assert(join_with(pieces.drop_last(), sep).push(sep) + pieces.last().push(c) =~= (
        join_with(pieces.drop_last(), sep).push(sep) + pieces.last()).push(c));
    }
}

/// Joining the pieces that cutting gives writes the text back.
pub proof fn lemma_join_split(s: Seq<char>, sep: char)
    ensures
        join_with(split_on(s, sep), sep) == s,
    decreases s.len(),
{
    if s.len() == 0 {
        assert(s =~= Seq::<char>::empty());
    } else {
        let pre = s.drop_last();
        lemma_join_split(pre, sep);
        lemma_split_nonempty(pre, sep);
        let pieces = split_on(pre, sep);
        if s.last() == sep {
            let p2 = pieces.push(Seq::<char>::empty());
            assert(p2.drop_last() =~= pieces);
            assert(join_with(pieces, sep).push(sep) + Seq::<char>::empty() =~= s);
        } else {
            lemma_join_extend_last(pieces, s.last(), sep);
            assert(pre.push(s.last()) =~= s);
        }
    }
}

/// Cuts `s` at each `sep`, as `s.split(sep)` collected into a `Vec` does.
pub fn split_text(s: &str, sep: char) -> (pieces: Vec<String>)
    ensures
        pieces.deep_view() == split_on(s@, sep),
{
    let d = chars_of(s);
    let mut done: Vec<String> = Vec::new();
    let mut current = String::new();
    let mut i: usize = 0;
    while i < d.len()
        invariant
            i <= d.len(),
            d@ == s@,
            done.deep_view().push(current@) == split_on(d@.take(i as int), sep),
        decreases d.len() - i,
    {
        let c = d[i];
        let ghost pre = d@.take(i as int);
        let ghost next = d@.take(i + 1);
        assert(next.drop_last() =~= pre);
        assert(next.last() == c);
        proof {
            lemma_split_nonempty(pre, sep);
        }
        if c == sep {
            let finished = current;
            done.push(finished);
            current = String::new();
            assert(done.deep_view().push(current@) =~= split_on(next, sep));
        } else {
            let ghost before = done.deep_view().push(current@);
            push_char(&mut current, c);
            assert(done.deep_view().push(current@) =~= before.update(
                before.len() - 1,
                before.last().push(c),
            ));
        }
        i = i + 1;
    }
    assert(d@.take(d.len() as int) =~= s@);
    done.push(current);
    done
}

/// Writes `pieces` with `sep` between each two, as `pieces.join(sep)` does.
pub fn join_text(pieces: &Vec<String>, sep: char) -> (s: String)
    ensures
        s@ == join_with(pieces.deep_view(), sep),
{
    let mut out = String::new();
    let ghost all = pieces.deep_view();
    let mut i: usize = 0;
    while i < pieces.len()
        invariant
            i <= pieces.len(),
            all == pieces.deep_view(),
            out@ == join_with(all.take(i as int), sep),
        decreases pieces.len() - i,
    {
        let ghost before = all.take(i as int);
        assert(all.take(i + 1).drop_last() =~= before);
        assert(all.take(i + 1).last() == pieces[i as int]@);
        if i > 0 {
            push_char(&mut out, sep);
        } else {
            assert(out@ =~= Seq::<char>::empty());
            assert(Seq::<char>::empty() + pieces[0]@ =~= pieces[0]@);
        }
        out.append(pieces[i].as_str());
        i = i + 1;
    }
    assert(all.take(pieces.len() as int) =~= all);
    out
}

} // verus!
