//! Numbers as the chart dialects write them: unsigned integers in base 10 or
//! base 36, and decimal fractions that are kept as their text.
use vstd::prelude::*;
use crate::text::{CharClass, lemma_run_is, run, scan, to_chars, to_text};

verus! {

/// Value of a character as a digit: `0`-`9` count 0 to 9, letters of either
/// case count 10 to 35.
pub open spec fn digit_of(c: char) -> Option<nat> {
    if '0' <= c <= '9' {
        Some((c as int - '0' as int) as nat)
    } else if 'a' <= c <= 'z' {
        Some((c as int - 'a' as int + 10) as nat)
    } else if 'A' <= c <= 'Z' {
        Some((c as int - 'A' as int + 10) as nat)
    } else {
        None
    }
}

/// Whether `c` is a digit of the given radix.
pub open spec fn is_digit(c: char, radix: nat) -> bool {
    digit_of(c) matches Some(d) && d < radix
}

/// Whether `s` holds digits of the given radix only.
pub open spec fn all_digits(s: Seq<char>, radix: nat) -> bool {
    forall|i: int| 0 <= i < s.len() ==> is_digit(#[trigger] s[i], radix)
}

/// The number that the digits of `s` denote, most significant digit first.
pub open spec fn digits_value(s: Seq<char>, radix: nat) -> nat
    decreases s.len(),
{
    if s.len() == 0 {
        0
    } else {
        digits_value(s.drop_last(), radix) * radix + digit_of(s.last()).unwrap()
    }
}

/// `s` without one leading `+`.
pub open spec fn unsigned_body(s: Seq<char>) -> Seq<char> {
    if s.len() > 0 && s[0] == '+' {
        s.drop_first()
    } else {
        s
    }
}

/// An unsigned literal is an optional `+` and then one digit or more; no
/// other character, no white space.
pub open spec fn unsigned_literal(s: Seq<char>, radix: nat) -> Option<nat> {
    let body = unsigned_body(s);
    if body.len() > 0 && all_digits(body, radix) {
        Some(digits_value(body, radix))
    } else {
        None
    }
}

/// The value of `s` as an unsigned literal, where it is one and its value
/// does not exceed `max`.
pub open spec fn parse_within(s: Seq<char>, radix: nat, max: nat) -> Option<nat> {
    match unsigned_literal(s, radix) {
        Some(v) => if v <= max {
            Some(v)
        } else {
            None
        },
        None => None,
    }
}

/// A decimal literal that fits `u32`.
pub open spec fn decimal_u32(s: Seq<char>) -> Option<u32> {
    match parse_within(s, 10, u32::MAX as nat) {
        Some(v) => Some(v as u32),
        None => None,
    }
}

/// A decimal literal that fits `u64`.
pub open spec fn decimal_u64(s: Seq<char>) -> Option<u64> {
    match parse_within(s, 10, u64::MAX as nat) {
        Some(v) => Some(v as u64),
        None => None,
    }
}

/// The digits read so far never denote more than all of them do.
pub proof fn lemma_value_grows(s: Seq<char>, radix: nat, k: int)
    requires
        0 <= k <= s.len(),
        radix >= 1,
        all_digits(s, radix),
    ensures
        digits_value(s.take(k), radix) <= digits_value(s, radix),
    decreases s.len() - k,
{
    if k == s.len() {
        assert(s.take(k) =~= s);
    } else {
        let t = s.drop_last();
        assert(t.take(k) =~= s.take(k));
        assert(all_digits(t, radix)) by {
            assert forall|i: int| 0 <= i < t.len() implies is_digit(#[trigger] t[i], radix) by {
                assert(t[i] == s[i]);
            }
        }
        lemma_value_grows(t, radix, k);
        assert(digits_value(t, radix) * radix >= digits_value(t, radix)) by (nonlinear_arith)
            requires
                radix >= 1,
        ;
    }
}

/// The value of a character as a digit.
pub fn digit(c: char) -> (r: Option<u8>)
    ensures
        r is Some <==> digit_of(c) is Some,
        r matches Some(d) ==> digit_of(c) == Some(d as nat) && d < 36,
{
    if '0' <= c && c <= '9' {
        Some((c as u32 - '0' as u32) as u8)
    } else if 'a' <= c && c <= 'z' {
        Some((c as u32 - 'a' as u32 + 10) as u8)
    } else if 'A' <= c && c <= 'Z' {
        Some((c as u32 - 'A' as u32 + 10) as u8)
    } else {
        None
    }
}

/// Reads `cs[from..to]` as an unsigned literal of the given radix and
/// refuses a value above `max`.
pub fn parse_digits(cs: &Vec<char>, from: usize, to: usize, radix: u8, max: u64) -> (r: Option<u64>)
    requires
        from <= to <= cs.len(),
        2 <= radix <= 36,
    ensures
        r is Some <==> parse_within(cs@.subrange(from as int, to as int), radix as nat, max as nat)
            is Some,
        r matches Some(v) ==> parse_within(
            cs@.subrange(from as int, to as int),
            radix as nat,
            max as nat,
        ) == Some(v as nat),
{
    let ghost s = cs@.subrange(from as int, to as int);
    let start: usize = if from < to && cs[from] == '+' {
        from + 1
    } else {
        from
    };
    let ghost body = cs@.subrange(start as int, to as int);
    proof {
        assert(body =~= unsigned_body(s));
    }
    if start == to {
        return None;
    }
    let mut acc: u64 = 0;
    let mut i: usize = start;
    proof {
        assert(body.take(0) =~= Seq::<char>::empty());
    }
    while i < to
        invariant
            start <= i <= to <= cs.len(),
            2 <= radix <= 36,
            body == cs@.subrange(start as int, to as int),
            body == unsigned_body(cs@.subrange(from as int, to as int)),
            all_digits(body.take(i - start), radix as nat),
            acc == digits_value(body.take(i - start), radix as nat),
            acc <= max,
        decreases to - i,
    {
        let ghost seen = body.take(i - start);
        let ghost next = body.take(i - start + 1);
        proof {
            assert(next.drop_last() =~= seen);
            assert(next.last() == cs@[i as int]);
        }
        let d = match digit(cs[i]) {
            Some(d) => d,
            None => {
                assert(!is_digit(body[i - start], radix as nat));
                return None;
            },
        };
        if d >= radix {
            assert(!is_digit(body[i - start], radix as nat));
            return None;
        }
        assert(acc as u128 * radix as u128 <= 0xffff_ffff_ffff_ffff * 36) by (nonlinear_arith)
            requires
                acc <= 0xffff_ffff_ffff_ffff,
                radix <= 36,
        ;
        let wide: u128 = acc as u128 * radix as u128 + d as u128;
        proof {
            assert(all_digits(next, radix as nat)) by {
                assert forall|j: int| 0 <= j < next.len() implies is_digit(
                    #[trigger] next[j],
                    radix as nat,
                ) by {
                    if j < seen.len() {
                        assert(next[j] == seen[j]);
                    }
                }
            }
            assert(wide == digits_value(next, radix as nat));
        }
        if wide > max as u128 {
            proof {
                if all_digits(body, radix as nat) {
                    lemma_value_grows(body, radix as nat, i - start + 1);
                }
            }
            return None;
        }
        acc = wide as u64;
        i += 1;
    }
    proof {
        assert(body.take(to - start) =~= body);
    }
    Some(acc)
}

/// Reads a whole string slice as an unsigned literal of the given radix and
/// refuses a value above `max`.
pub fn parse_unsigned(s: &str, radix: u8, max: u64) -> (r: Option<u64>)
    requires
        2 <= radix <= 36,
    ensures
        r is Some <==> parse_within(s@, radix as nat, max as nat) is Some,
        r matches Some(v) ==> parse_within(s@, radix as nat, max as nat) == Some(v as nat),
{
    let cs = to_chars(s);
    proof {
        assert(cs@.subrange(0, cs.len() as int) =~= s@);
    }
    parse_digits(&cs, 0, cs.len(), radix, max)
}

/// Reads a decimal literal that fits `u32`.
pub fn parse_u32(s: &str) -> (r: Option<u32>)
    ensures
        r == decimal_u32(s@),
{
    match parse_unsigned(s, 10, 0xffff_ffff) {
        Some(v) => Some(v as u32),
        None => None,
    }
}

/// Reads a decimal literal that fits `u64`.
pub fn parse_u64(s: &str) -> (r: Option<u64>)
    ensures
        r == decimal_u64(s@),
{
    parse_unsigned(s, 10, 0xffff_ffff_ffff_ffff)
}

/// The character that writes the digit `d`: `0`-`9`, then `A`-`Z`.
pub open spec fn digit_char(d: nat) -> char {
    if d < 10 {
        ('0' as nat + d) as char
    } else {
        ('A' as nat + d - 10) as char
    }
}

/// `n` written in the given radix, without sign or leading zero.
pub open spec fn numeral(n: nat, radix: nat) -> Seq<char>
    decreases n,
    via numeral_decreases
{
    if n < radix || radix < 2 {
        seq![digit_char(n)]
    } else {
        numeral(n / radix, radix).push(digit_char(n % radix))
    }
}

#[via_fn]
proof fn numeral_decreases(n: nat, radix: nat) {
    if n >= radix && radix >= 2 {
        lemma_quotient_is_smaller(n, radix);
    }
}

proof fn lemma_quotient_is_smaller(n: nat, radix: nat)
    requires
        n >= radix >= 2,
    ensures
        n / radix < n,
{
    assert(n / radix < n) by (nonlinear_arith)
        requires
            n >= radix >= 2,
    ;
}

/// A numeral is never empty, holds digits of its radix only, and denotes
/// the number it was written for.
pub proof fn lemma_numeral(n: nat, radix: nat)
    requires
        2 <= radix <= 36,
    ensures
        numeral(n, radix).len() > 0,
        all_digits(numeral(n, radix), radix),
        digits_value(numeral(n, radix), radix) == n,
    decreases n,
{
    let s = numeral(n, radix);
    if n < radix {
        assert(s.drop_last() =~= Seq::<char>::empty());
        assert(digits_value(s.drop_last(), radix) == 0);
        assert(digit_of(s.last()) == Some(n));
        assert(digits_value(s, radix) == 0 * radix + n);
    } else {
        let t = numeral(n / radix, radix);
        lemma_numeral(n / radix, radix);
        assert(s.drop_last() =~= t);
        assert(digit_of(s.last()) == Some(n % radix));
        assert forall|i: int| 0 <= i < s.len() implies is_digit(#[trigger] s[i], radix) by {
            if i < t.len() {
                assert(s[i] == t[i]);
            }
        }
        assert((n / radix) * radix + n % radix == n) by (nonlinear_arith)
            requires
                radix >= 2,
        ;
    }
}

/// Writing a number in decimal digits and reading the digits gives the
/// number again.
pub proof fn lemma_numeral_round_trip(n: u32)
    ensures
        decimal_u32(numeral(n as nat, 10)) == Some(n),
        decimal_u64(numeral(n as nat, 10)) == Some(n as u64),
{
    let s = numeral(n as nat, 10);
    lemma_numeral(n as nat, 10);
    assert(is_digit(s[0], 10));
    assert(unsigned_body(s) == s);
}

fn push_digit(t: &mut String, d: u32)
    requires
        d < 36,
    ensures
        final(t)@ == old(t)@.push(digit_char(d as nat)),
{
    if d < 10 {
        t.push((48u8 + d as u8) as char);
    } else {
        t.push((55u8 + d as u8) as char);
    }
}

/// Appends `n`, written in the given radix, to `t`.
pub fn push_numeral(t: &mut String, n: u32, radix: u32)
    requires
        2 <= radix <= 36,
    ensures
        final(t)@ == old(t)@ + numeral(n as nat, radix as nat),
    decreases n,
{
    if n < radix {
        push_digit(t, n);
        assert(old(t)@.push(digit_char(n as nat)) =~= old(t)@ + numeral(n as nat, radix as nat));
    } else {
        proof {
            lemma_quotient_is_smaller(n as nat, radix as nat);
        }
        push_numeral(t, n / radix, radix);
        push_digit(t, n % radix);
        assert((old(t)@ + numeral((n / radix) as nat, radix as nat)).push(
            digit_char((n % radix) as nat),
        ) =~= old(t)@ + numeral(n as nat, radix as nat));
    }
}

/// The lower-case form of an ASCII letter; any other character itself.
pub open spec fn lower(c: char) -> char {
    if 'A' <= c <= 'Z' {
        (c as nat + 32) as char
    } else {
        c
    }
}

/// Whether `s` spells `word`, a lower-case word, in letters of either case.
pub open spec fn spells(s: Seq<char>, word: Seq<char>) -> bool {
    s.len() == word.len() && forall|i: int| 0 <= i < s.len() ==> lower(#[trigger] s[i]) == word[i]
}

/// `s` without one leading `+` or `-`.
pub open spec fn unsigned_part(s: Seq<char>) -> Seq<char> {
    if s.len() > 0 && (s[0] == '+' || s[0] == '-') {
        s.drop_first()
    } else {
        s
    }
}

/// An exponent: `e` or `E`, an optional sign, one decimal digit or more.
pub open spec fn is_exponent(s: Seq<char>) -> bool {
    s.len() > 0 && (s[0] == 'e' || s[0] == 'E') && {
        let d = unsigned_part(s.drop_first());
        d.len() > 0 && run(d, CharClass::Digit) == d.len()
    }
}

/// Length of the mantissa at the head of `s`: decimal digits, then
/// possibly a point and more digits.
pub open spec fn mantissa_len(s: Seq<char>) -> nat {
    let whole = run(s, CharClass::Digit);
    if whole < s.len() && s[whole as int] == '.' {
        whole + 1 + run(s.skip((whole + 1) as int), CharClass::Digit)
    } else {
        whole
    }
}

/// Number of decimal digits in the mantissa at the head of `s`.
pub open spec fn mantissa_digits(s: Seq<char>) -> nat {
    let whole = run(s, CharClass::Digit);
    if whole < s.len() && s[whole as int] == '.' {
        whole + run(s.skip((whole + 1) as int), CharClass::Digit)
    } else {
        whole
    }
}

/// A decimal number without sign: a mantissa with one digit at least, before
/// or after the point, and possibly an exponent.
pub open spec fn is_decimal(s: Seq<char>) -> bool {
    let tail = s.skip(mantissa_len(s) as int);
    mantissa_digits(s) > 0 && (tail.len() == 0 || is_exponent(tail))
}

/// The three words that stand for no finite number.
pub open spec fn is_special(s: Seq<char>) -> bool {
    spells(s, "inf"@) || spells(s, "nan"@) || spells(s, "infinity"@)
}

/// The texts that denote a number with a fraction: an optional sign, then a
/// decimal number or one of the special words. This is the grammar by which
/// Rust reads `f32` and `f64`.
pub open spec fn is_number_text(s: Seq<char>) -> bool {
    let body = unsigned_part(s);
    is_decimal(body) || is_special(body)
}

/// A run of decimal digits is a number text.
pub proof fn lemma_digits_are_number_text(s: Seq<char>)
    requires
        s.len() > 0,
        all_digits(s, 10),
    ensures
        is_number_text(s),
{
    assert(is_digit(s[0], 10));
    assert(unsigned_part(s) == s);
    assert forall|i: int| 0 <= i < s.len() implies CharClass::Digit.holds(#[trigger] s[i]) by {
        assert(is_digit(s[i], 10));
    }
    lemma_run_is(s, CharClass::Digit, s.len());
    assert(s.skip(s.len() as int) =~= Seq::<char>::empty());
}

fn lower_char(c: char) -> (r: char)
    ensures
        r == lower(c),
{
    if 'A' <= c && c <= 'Z' {
        ((c as u32 + 32) as u8) as char
    } else {
        c
    }
}

fn spells_word(cs: &Vec<char>, from: usize, word: &str) -> (r: bool)
    requires
        from <= cs.len(),
    ensures
        r == spells(cs@.skip(from as int), word@),
{
    let w = to_chars(word);
    let ghost s = cs@.skip(from as int);
    if cs.len() - from != w.len() {
        return false;
    }
    let mut i: usize = 0;
    while i < w.len()
        invariant
            i <= w.len(),
            from <= cs.len(),
            cs.len() - from == w.len(),
            w@ == word@,
            s == cs@.skip(from as int),
            forall|j: int| 0 <= j < i ==> lower(#[trigger] s[j]) == w@[j],
        decreases w.len() - i,
    {
        if lower_char(cs[from + i]) != w[i] {
            assert(s[i as int] == cs@[from + i]);
            return false;
        }
        assert(s[i as int] == cs@[from + i]);
        i += 1;
    }
    true
}

fn is_special_at(cs: &Vec<char>, from: usize) -> (r: bool)
    requires
        from <= cs.len(),
    ensures
        r == is_special(cs@.skip(from as int)),
{
    spells_word(cs, from, "inf") || spells_word(cs, from, "nan") || spells_word(
        cs,
        from,
        "infinity",
    )
}

/// End of the mantissa that starts at `from`, and the number of its digits.
fn scan_mantissa(cs: &Vec<char>, from: usize) -> (r: (usize, usize))
    requires
        from <= cs.len(),
    ensures
        from <= r.0 <= cs.len(),
        r.0 - from == mantissa_len(cs@.skip(from as int)),
        r.1 == mantissa_digits(cs@.skip(from as int)),
{
    let n = cs.len();
    let ghost body = cs@.skip(from as int);
    let whole = scan(cs, from, n, CharClass::Digit);
    proof {
        assert(cs@.subrange(from as int, n as int) =~= body);
        if whole < n {
            assert(body[whole - from] == cs@[whole as int]);
        }
    }
    if whole < n && cs[whole] == '.' {
        let end = scan(cs, whole + 1, n, CharClass::Digit);
        proof {
            assert(cs@.subrange(whole + 1, n as int) =~= body.skip(whole - from + 1));
        }
        (end, (whole - from) + (end - (whole + 1)))
    } else {
        (whole, whole - from)
    }
}

fn is_exponent_at(cs: &Vec<char>, from: usize) -> (r: bool)
    requires
        from <= cs.len(),
    ensures
        r == is_exponent(cs@.skip(from as int)),
{
    let n = cs.len();
    let ghost tail = cs@.skip(from as int);
    if from == n {
        return false;
    }
    proof {
        assert(tail[0] == cs@[from as int]);
    }
    if cs[from] != 'e' && cs[from] != 'E' {
        return false;
    }
    let exp: usize = if from + 1 < n && (cs[from + 1] == '+' || cs[from + 1] == '-') {
        from + 2
    } else {
        from + 1
    };
    let ghost d = unsigned_part(tail.drop_first());
    proof {
        assert(tail.drop_first() =~= cs@.skip(from + 1));
        if from + 1 < n {
            assert(cs@.skip(from + 1)[0] == cs@[from + 1]);
        }
        assert(d =~= cs@.skip(exp as int));
        assert(cs@.subrange(exp as int, n as int) =~= d);
    }
    if exp == n {
        return false;
    }
    let stop = scan(cs, exp, n, CharClass::Digit);
    stop == n
}

/// Whether `s` denotes a number with a fraction.
pub fn is_number(s: &str) -> (r: bool)
    ensures
        r == is_number_text(s@),
{
    let cs = to_chars(s);
    is_number_chars(&cs)
}

/// Whether the characters denote a number with a fraction.
pub fn is_number_chars(cs: &Vec<char>) -> (r: bool)
    ensures
        r == is_number_text(cs@),
{
    let n = cs.len();
    let start: usize = if n > 0 && (cs[0] == '+' || cs[0] == '-') {
        1
    } else {
        0
    };
    let ghost body = cs@.skip(start as int);
    proof {
        assert(body =~= unsigned_part(cs@));
    }
    if is_special_at(cs, start) {
        return true;
    }
    let (end, digits) = scan_mantissa(cs, start);
    proof {
        assert(body.skip(end - start) =~= cs@.skip(end as int));
    }
    if digits == 0 {
        return false;
    }
    end == n || is_exponent_at(cs, end)
}

/// A number with a fraction, kept as the text that denotes it. The text
/// always satisfies `is_number_text`; turning it into a binary floating-point
/// value is left to the caller.
#[derive(Debug, PartialEq, Eq)]
pub struct NumberText {
    text: String,
}

impl View for NumberText {
    type V = Seq<char>;

    closed spec fn view(&self) -> Seq<char> {
        self.text@
    }
}

impl Clone for NumberText {
    fn clone(&self) -> (r: Self)
        ensures
            r@ == self@,
    {
        proof {
            use_type_invariant(self);
        }
        NumberText { text: self.text.clone() }
    }
}

impl NumberText {
    #[verifier::type_invariant]
    spec fn well_formed(self) -> bool {
        is_number_text(self.text@)
    }

    /// Keeps `s` where it denotes a number.
    pub fn parse(s: &str) -> (r: Option<NumberText>)
        ensures
            r is Some <==> is_number_text(s@),
            r matches Some(n) ==> n@ == s@,
    {
        if is_number(s) {
            Some(NumberText { text: s.to_string() })
        } else {
            None
        }
    }

    /// Keeps the characters where they denote a number.
    pub fn from_chars(cs: &Vec<char>) -> (r: Option<NumberText>)
        ensures
            r is Some <==> is_number_text(cs@),
            r matches Some(n) ==> n@ == cs@,
    {
        if is_number_chars(cs) {
            let text = to_text(cs, 0, cs.len());
            assert(cs@.subrange(0, cs.len() as int) =~= cs@);
            Some(NumberText { text })
        } else {
            None
        }
    }

    /// The number `n`, written in decimal digits.
    pub fn from_u32(n: u32) -> (r: NumberText)
        ensures
            r@ == numeral(n as nat, 10),
    {
        let mut text = String::new();
        push_numeral(&mut text, n, 10);
        proof {
            assert(text@ =~= numeral(n as nat, 10));
            lemma_numeral(n as nat, 10);
            lemma_digits_are_number_text(text@);
        }
        NumberText { text }
    }

    /// The text of the number, which always denotes one.
    pub fn as_str(&self) -> (s: &str)
        ensures
            s@ == self@,
            is_number_text(self@),
    {
        proof {
            use_type_invariant(self);
        }
        self.text.as_str()
    }

}

} // verus!
