//! Textual renderings shared by the wire protocol: decimal digits for
//! numeric identifiers, uppercase hexadecimal for digests, and the
//! textual form of booleans.
use vstd::prelude::*;

verus! {

/// Relies on alloc's String::push: appends exactly the one character.
pub assume_specification[ String::push ](s: &mut String, ch: char)
    ensures
        final(s)@ == old(s)@.push(ch),
;

/// Compare two string slices by their character sequences.
pub fn str_eq(a: &str, b: &str) -> (r: bool)
    ensures
        r == (a@ == b@),
{
    let a_owned = a.to_owned();
    let b_owned = b.to_owned();
    a_owned == b_owned
}

/// The decimal digit character for a value below ten.
pub open spec fn dec_digit(n: int) -> char {
    if n == 0 {
        '0'
    } else if n == 1 {
        '1'
    } else if n == 2 {
        '2'
    } else if n == 3 {
        '3'
    } else if n == 4 {
        '4'
    } else if n == 5 {
        '5'
    } else if n == 6 {
        '6'
    } else if n == 7 {
        '7'
    } else if n == 8 {
        '8'
    } else {
        '9'
    }
}

/// The ordinary base-ten rendering of a natural number, most significant
/// digit first, with no leading zeros except for zero itself.
pub open spec fn dec_digits(n: nat) -> Seq<char>
    decreases n,
{
    if n < 10 {
        seq![dec_digit(n as int)]
    } else {
        dec_digits(n / 10) + seq![dec_digit((n % 10) as int)]
    }
}

fn dec_digit_str(n: u64) -> (r: &'static str)
    requires
        n < 10,
    ensures
        r@ =~= seq![dec_digit(n as int)],
{
    proof {
        reveal_strlit("0");
        reveal_strlit("1");
        reveal_strlit("2");
        reveal_strlit("3");
        reveal_strlit("4");
        reveal_strlit("5");
        reveal_strlit("6");
        reveal_strlit("7");
        reveal_strlit("8");
        reveal_strlit("9");
    }
    if n == 0 {
        "0"
    } else if n == 1 {
        "1"
    } else if n == 2 {
        "2"
    } else if n == 3 {
        "3"
    } else if n == 4 {
        "4"
    } else if n == 5 {
        "5"
    } else if n == 6 {
        "6"
    } else if n == 7 {
        "7"
    } else if n == 8 {
        "8"
    } else {
        "9"
    }
}

/// Append the base-ten rendering of `n` to `out`.
pub fn append_u64(out: &mut String, n: u64)
    ensures
        final(out)@ == old(out)@ + dec_digits(n as nat),
    decreases n,
{
    if n < 10 {
        out.append(dec_digit_str(n));
    } else {
        append_u64(out, n / 10);
        out.append(dec_digit_str(n % 10));
    }
}

/// Render `n` in base ten.
pub fn u64_to_string(n: u64) -> (r: String)
    ensures
        r@ == dec_digits(n as nat),
{
    let mut out = String::new();
    append_u64(&mut out, n);
    proof {
        assert(out@ =~= dec_digits(n as nat));
    }
    out
}

/// The uppercase hexadecimal digit character for a value below sixteen.
pub open spec fn hex_digit(n: int) -> char {
    if n < 10 {
        dec_digit(n)
    } else if n == 10 {
        'A'
    } else if n == 11 {
        'B'
    } else if n == 12 {
        'C'
    } else if n == 13 {
        'D'
    } else if n == 14 {
        'E'
    } else {
        'F'
    }
}

fn hex_digit_str(n: u8) -> (r: &'static str)
    requires
        n < 16,
    ensures
        r@ =~= seq![hex_digit(n as int)],
{
    proof {
        reveal_strlit("A");
        reveal_strlit("B");
        reveal_strlit("C");
        reveal_strlit("D");
        reveal_strlit("E");
        reveal_strlit("F");
    }
    if n < 10 {
        dec_digit_str(n as u64)
    } else if n == 10 {
        "A"
    } else if n == 11 {
        "B"
    } else if n == 12 {
        "C"
    } else if n == 13 {
        "D"
    } else if n == 14 {
        "E"
    } else {
        "F"
    }
}

/// The two uppercase hexadecimal digits of a byte, high nibble first.
pub open spec fn hex_byte(b: u8) -> Seq<char> {
    seq![hex_digit(b as int / 16), hex_digit(b as int % 16)]
}

/// The uppercase hexadecimal rendering of a byte string: two digits per
/// byte, in order.
pub open spec fn hex_upper_of(bytes: Seq<u8>) -> Seq<char>
    decreases bytes.len(),
{
    if bytes.len() == 0 {
        Seq::empty()
    } else {
        hex_byte(bytes[0]) + hex_upper_of(bytes.skip(1))
    }
}

proof fn lemma_hex_upper_push(bytes: Seq<u8>, i: int)
    requires
        0 <= i < bytes.len(),
    ensures
        hex_upper_of(bytes.take(i + 1)) == hex_upper_of(bytes.take(i)) + hex_byte(bytes[i]),
    decreases i,
{
    let a = bytes.take(i + 1);
    if i == 0 {
        assert(a =~= seq![bytes[0]]);
        assert(a.skip(1) =~= Seq::<u8>::empty());
        assert(bytes.take(0) =~= Seq::<u8>::empty());
        assert(hex_upper_of(bytes.take(0)) + hex_byte(bytes[0]) =~= hex_byte(bytes[0]));
    } else {
        assert(a.skip(1) =~= bytes.skip(1).take(i));
        assert(bytes.take(i).skip(1) =~= bytes.skip(1).take(i - 1));
        lemma_hex_upper_push(bytes.skip(1), i - 1);
        assert(bytes.skip(1)[i - 1] == bytes[i]);
        assert(hex_upper_of(a) =~= hex_byte(bytes[0]) + (hex_upper_of(bytes.skip(1).take(i - 1))
            + hex_byte(bytes[i])));
        assert(hex_upper_of(bytes.take(i)) =~= hex_byte(bytes[0]) + hex_upper_of(
            bytes.skip(1).take(i - 1),
        ));
        assert(hex_upper_of(bytes.take(i)) + hex_byte(bytes[i]) =~= hex_byte(bytes[0]) + (
        hex_upper_of(bytes.skip(1).take(i - 1)) + hex_byte(bytes[i])));
    }
}

/// Render a byte string as uppercase hexadecimal.
pub fn to_hex_upper(bytes: &Vec<u8>) -> (r: String)
    ensures
        r@ == hex_upper_of(bytes@),
{
    let mut out = String::new();
    let mut i: usize = 0;
    while i < bytes.len()
        invariant
            i <= bytes.len(),
            out@ == hex_upper_of(bytes@.take(i as int)),
        decreases bytes.len() - i,
    {
        let b = bytes[i];
        out.append(hex_digit_str(b / 16));
        out.append(hex_digit_str(b % 16));
        proof {
            lemma_hex_upper_push(bytes@, i as int);
            assert(out@ =~= hex_upper_of(bytes@.take(i as int)) + hex_byte(b));
        }
        i = i + 1;
    }
    proof {
        assert(bytes@.take(bytes@.len() as int) =~= bytes@);
    }
    out
}

/// The hexadecimal rendering is two digits per byte.
pub proof fn lemma_hex_upper_len(bytes: Seq<u8>)
    ensures
        hex_upper_of(bytes).len() == 2 * bytes.len(),
    decreases bytes.len(),
{
    if bytes.len() > 0 {
        lemma_hex_upper_len(bytes.skip(1));
    }
}

proof fn lemma_hex_upper_index(bytes: Seq<u8>, i: int)
    requires
        0 <= i < bytes.len(),
    ensures
        hex_upper_of(bytes).len() >= 2 * i + 2,
        hex_upper_of(bytes)[2 * i] == hex_digit(bytes[i] as int / 16),
        hex_upper_of(bytes)[2 * i + 1] == hex_digit(bytes[i] as int % 16),
    decreases i,
{
    lemma_hex_upper_len(bytes);
    if i == 0 {
    } else {
        lemma_hex_upper_index(bytes.skip(1), i - 1);
        assert(bytes.skip(1)[i - 1] == bytes[i]);
    }
}

proof fn lemma_hex_digit_injective(x: int, y: int)
    requires
        0 <= x < 16,
        0 <= y < 16,
        hex_digit(x) == hex_digit(y),
    ensures
        x == y,
{
}

/// Distinct byte strings have distinct hexadecimal renderings.
pub proof fn lemma_hex_upper_injective(a: Seq<u8>, b: Seq<u8>)
    requires
        a != b,
    ensures
        hex_upper_of(a) != hex_upper_of(b),
{
    lemma_hex_upper_len(a);
    lemma_hex_upper_len(b);
    if hex_upper_of(a) == hex_upper_of(b) {
        assert(a.len() == b.len());
        assert forall|i: int| 0 <= i < a.len() implies a[i] == b[i] by {
            lemma_hex_upper_index(a, i);
            lemma_hex_upper_index(b, i);
            lemma_hex_digit_injective(a[i] as int / 16, b[i] as int / 16);
            lemma_hex_digit_injective(a[i] as int % 16, b[i] as int % 16);
        }
        assert(a =~= b);
    }
}

/// The value of a decimal digit character, or -1 for any other
/// character.
pub open spec fn digit_of(c: char) -> int {
    if c == '0' {
        0
    } else if c == '1' {
        1
    } else if c == '2' {
        2
    } else if c == '3' {
        3
    } else if c == '4' {
        4
    } else if c == '5' {
        5
    } else if c == '6' {
        6
    } else if c == '7' {
        7
    } else if c == '8' {
        8
    } else if c == '9' {
        9
    } else {
        -1
    }
}

/// Whether every character of `s` is a decimal digit.
pub open spec fn all_digits(s: Seq<char>) -> bool {
    forall|i: int| 0 <= i < s.len() ==> digit_of(s[i]) >= 0
}

/// The numeric value of a digit string, most significant digit first.
pub open spec fn digits_value(s: Seq<char>) -> int
    decreases s.len(),
{
    if s.len() == 0 {
        0
    } else {
        digits_value(s.drop_last()) * 10 + digit_of(s.last())
    }
}

/// Whether `s` is the wire form of a `u64`: at least one digit, nothing
/// but digits, and a value that fits.
pub open spec fn is_u64_text(s: Seq<char>) -> bool {
    s.len() > 0 && all_digits(s) && digits_value(s) <= u64::MAX
}

proof fn lemma_digits_value_nonneg(s: Seq<char>)
    requires
        all_digits(s),
    ensures
        digits_value(s) >= 0,
    decreases s.len(),
{
    if s.len() > 0 {
        assert(all_digits(s.drop_last()));
        lemma_digits_value_nonneg(s.drop_last());
        assert(digits_value(s.drop_last()) * 10 >= 0) by (nonlinear_arith)
            requires
                digits_value(s.drop_last()) >= 0,
        ;
    }
}

/// The value of a digit character, as an executable step.
fn digit_val(c: char) -> (r: i8)
    ensures
        r as int == digit_of(c),
{
    if c == '0' {
        0
    } else if c == '1' {
        1
    } else if c == '2' {
        2
    } else if c == '3' {
        3
    } else if c == '4' {
        4
    } else if c == '5' {
        5
    } else if c == '6' {
        6
    } else if c == '7' {
        7
    } else if c == '8' {
        8
    } else if c == '9' {
        9
    } else {
        -1
    }
}

/// Parse the base-ten wire form of a `u64`. Returns the value exactly
/// when the text is nonempty, all digits, and within range.
pub fn parse_u64(s: &str) -> (r: Option<u64>)
    ensures
        match r {
            Option::Some(v) => is_u64_text(s@) && v as int == digits_value(s@),
            Option::None => !is_u64_text(s@),
        },
{
    let n = s.unicode_len();
    if n == 0 {
        return None;
    }
    let mut acc: u64 = 0;
    let mut i: usize = 0;
    while i < n
        invariant
            0 < n == s@.len(),
            i <= n,
            all_digits(s@.take(i as int)),
            acc as int == digits_value(s@.take(i as int)),
        decreases n - i,
    {
        let c = s.get_char(i);
        let d = digit_val(c);
        if d < 0 {
            proof {
                assert(digit_of(s@[i as int]) < 0);
            }
            return None;
        }
        proof {
            assert(s@.take(i + 1).drop_last() =~= s@.take(i as int));
            assert(s@.take(i + 1).last() == s@[i as int]);
        }
        if acc > u64::MAX / 10 || (acc == u64::MAX / 10 && (d as u64) > u64::MAX % 10) {
            proof {
                lemma_digits_overflow(s@, i as int);
            }
            return None;
        }
        acc = acc * 10 + (d as u64);
        i = i + 1;
    }
    proof {
        assert(s@.take(n as int) =~= s@);
    }
    Some(acc)
}

/// Once a prefix of a digit string already exceeds `u64::MAX`, the whole
/// string does.
proof fn lemma_digits_overflow(s: Seq<char>, i: int)
    requires
        0 <= i < s.len(),
        digits_value(s.take(i)) * 10 + digit_of(s[i]) > u64::MAX,
        all_digits(s.take(i)),
        digit_of(s[i]) >= 0,
    ensures
        !is_u64_text(s),
    decreases s.len() - i,
{
    if all_digits(s) {
        assert(s.take(i + 1).drop_last() =~= s.take(i));
        assert(s.take(i + 1).last() == s[i]);
        assert(digits_value(s.take(i + 1)) > u64::MAX);
        if i + 1 == s.len() {
            assert(s.take(i + 1) =~= s);
        } else {
            assert(all_digits(s.take(i + 1)));
            assert(digits_value(s.take(i + 1)) * 10 + digit_of(s[i + 1]) > u64::MAX) by (
            nonlinear_arith)
                requires
                    digits_value(s.take(i + 1)) > u64::MAX,
                    digit_of(s[i + 1]) >= 0,
            ;
            lemma_digits_overflow(s, i + 1);
        }
    }
}

/// Whether `s` is a plain decimal amount: an optional leading minus,
/// then digits, with at most one decimal point that both follows and
/// precedes a digit.
pub open spec fn is_decimal_text(s: Seq<char>) -> bool {
    if s.len() > 0 && s[0] == '-' {
        decimal_scan(s, 1, false, false)
    } else {
        decimal_scan(s, 0, false, false)
    }
}

/// Scanner for the decimal grammar: `seen_dot` records whether the
/// decimal point was already consumed, `prev_digit` whether the previous
/// character was a digit.
pub open spec fn decimal_scan(s: Seq<char>, i: int, seen_dot: bool, prev_digit: bool) -> bool
    decreases s.len() - i when 0 <= i <= s.len()
{
    if i >= s.len() {
        prev_digit
    } else if digit_of(s[i]) >= 0 {
        decimal_scan(s, i + 1, seen_dot, true)
    } else if s[i] == '.' && !seen_dot && prev_digit {
        decimal_scan(s, i + 1, true, false)
    } else {
        false
    }
}

/// Decide the decimal-amount grammar.
pub fn is_decimal_str(s: &str) -> (r: bool)
    ensures
        r == is_decimal_text(s@),
{
    let n = s.unicode_len();
    let mut i: usize = 0;
    if n > 0 && s.get_char(0) == '-' {
        i = 1;
    }
    let mut seen_dot = false;
    let mut prev_digit = false;
    while i < n
        invariant
            i <= n == s@.len(),
            is_decimal_text(s@) == decimal_scan(s@, i as int, seen_dot, prev_digit),
        decreases n - i,
    {
        let c = s.get_char(i);
        if digit_val(c) >= 0 {
            prev_digit = true;
        } else if c == '.' && !seen_dot && prev_digit {
            seen_dot = true;
            prev_digit = false;
        } else {
            proof {
                assert(!decimal_scan(s@, i as int, seen_dot, prev_digit));
            }
            return false;
        }
        i = i + 1;
    }
    prev_digit
}

/// The textual true/false form of a boolean.
pub open spec fn bool_text(b: bool) -> Seq<char> {
    if b {
        "true"@
    } else {
        "false"@
    }
}

/// Render a boolean the way the wire protocol expects: "true" or "false".
pub fn bool_to_str(b: bool) -> (r: &'static str)
    ensures
        r@ == bool_text(b),
{
    if b {
        "true"
    } else {
        "false"
    }
}

} // verus!
