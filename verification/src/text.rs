//! Text in and out: decimal numbers, hexadecimal bytes, separated fields and ASCII case.

use vstd::arithmetic::power::pow;
use vstd::prelude::*;

verus! {

/// `String::push` of std: the character is added at the end of the string.
pub assume_specification[ String::push ](s: &mut String, c: char)
    ensures
        final(s)@ == old(s)@.push(c),
;

/// The decimal digit for `0 <= d < 10`.
pub open spec fn digit_char(d: int) -> char {
    (48 + d) as char
}

pub open spec fn is_digit(c: char) -> bool {
    '0' <= c <= '9'
}

pub open spec fn digit_value(c: char) -> nat {
    (c as int - 48) as nat
}

/// `n` written in decimal, without leading zeros.
pub open spec fn decimal(n: nat) -> Seq<char>
    decreases n,
{
    if n < 10 {
        seq![digit_char(n as int)]
    } else {
        decimal(n / 10).push(digit_char((n % 10) as int))
    }
}

/// The number that a row of decimal digits stands for.
pub open spec fn decimal_value(s: Seq<char>) -> nat
    decreases s.len(),
{
    if s.len() == 0 {
        0
    } else {
        decimal_value(s.drop_last()) * 10 + digit_value(s.last())
    }
}

pub open spec fn all_digits(s: Seq<char>) -> bool {
    forall|i: int| 0 <= i < s.len() ==> is_digit(#[trigger] s[i])
}

/// `s` without one leading plus sign.
pub open spec fn without_plus(s: Seq<char>) -> Seq<char> {
    if s.len() > 0 && s[0] == '+' {
        s.skip(1)
    } else {
        s
    }
}

/// What `s` reads as: an optional plus sign, then one or more decimal digits, of a value that
/// fits in 64 bits. Anything else reads as nothing.
pub open spec fn parsed_u64(s: Seq<char>) -> Option<u64> {
    let digits = without_plus(s);
    if digits.len() > 0 && all_digits(digits) && decimal_value(digits) <= u64::MAX {
        Some(decimal_value(digits) as u64)
    } else {
        None
    }
}

/// The fields of `s` between the separators: always at least one, and one more than there are
/// separators.
pub open spec fn fields(s: Seq<char>, separator: char) -> Seq<Seq<char>>
    decreases s.len(),
{
    if s.len() == 0 {
        seq![Seq::empty()]
    } else {
        let before = fields(s.drop_last(), separator);
        if s.last() == separator {
            before.push(Seq::empty())
        } else {
            before.drop_last().push(before.last().push(s.last()))
        }
    }
}

/// The lowercase hexadecimal digit for `0 <= d < 16`.
pub open spec fn hex_char(d: int) -> char {
    if d < 10 {
        (48 + d) as char
    } else {
        (87 + d) as char
    }
}

/// Two lowercase hexadecimal digits for each byte, the high one first.
pub open spec fn hex(bytes: Seq<u8>) -> Seq<char> {
    Seq::new(
        2 * bytes.len(),
        |i: int|
            if i % 2 == 0 {
                hex_char(bytes[i / 2] as int / 16)
            } else {
                hex_char(bytes[i / 2] as int % 16)
            },
    )
}

pub open spec fn upper_char(c: char) -> char {
    if 'a' <= c <= 'z' {
        (c as int - 32) as char
    } else {
        c
    }
}

/// `s` with the letters `a` to `z` in upper case and every other character as it was.
pub open spec fn ascii_upper(s: Seq<char>) -> Seq<char> {
    s.map_values(|c: char| upper_char(c))
}

fn digit(d: u64) -> (c: char)
    requires
        d < 10,
    ensures
        c == digit_char(d as int),
{
    (48 + d as u8) as char
}

/// Adds `n` in decimal to the end of `out`.
pub fn push_decimal(out: &mut String, n: u64)
    ensures
        final(out)@ == old(out)@ + decimal(n as nat),
    decreases n,
{
    if n >= 10 {
        push_decimal(out, n / 10);
    }
    out.push(digit(n % 10));
    proof {
        assert(out@ =~= old(out)@ + decimal(n as nat));
    }
}

/// The characters of `s`, in order.
pub fn chars_of(s: &str) -> (res: Vec<char>)
    ensures
        res@ == s@,
{
    let mut res: Vec<char> = Vec::new();
    for c in it: s.chars()
        invariant
            it.seq() == s@,
            res@ == s@.take(it.index() as int),
    {
        res.push(c);
    }
    res
}

/// A row of digits never stands for less than its beginning does.
proof fn lemma_value_of_prefix(s: Seq<char>, n: int)
    requires
        0 <= n <= s.len(),
    ensures
        decimal_value(s.take(n)) <= decimal_value(s),
    decreases s.len() - n,
{
    if n < s.len() {
        lemma_value_of_prefix(s, n + 1);
        assert(s.take(n + 1).drop_last() =~= s.take(n));
    } else {
        assert(s.take(n) =~= s);
    }
}

/// Reads a decimal number of 64 bits.
pub fn parse_u64(s: &Vec<char>) -> (res: Option<u64>)
    ensures
        res == parsed_u64(s@),
{
    let first: usize = if s.len() > 0 && s[0] == '+' {
        1
    } else {
        0
    };
    let ghost digits = without_plus(s@);
    assert(digits =~= s@.skip(first as int));
    if s.len() == first {
        return None;
    }
    let mut value: u64 = 0;
    let mut i: usize = first;
    assert(digits.take(0) =~= Seq::<char>::empty());
    while i < s.len()
        invariant
            first <= i <= s.len(),
            first <= 1,
            digits == without_plus(s@),
            digits == s@.skip(first as int),
            all_digits(digits.take(i - first)),
            value == decimal_value(digits.take(i - first)),
        decreases s.len() - i,
    {
        let c: char = s[i];
        proof {
            assert(digits[i - first] == c);
            assert(digits.take(i - first + 1).drop_last() =~= digits.take(i - first));
            assert(digits.take(i - first + 1).last() == c);
            lemma_value_of_prefix(digits, i - first + 1);
        }
        if c < '0' || c > '9' {
            return None;
        }
        let d: u64 = c as u64 - 48;
        if value > (u64::MAX - d) / 10 {
            return None;
        }
        value = value * 10 + d;
        proof {
            let longer = digits.take(i - first + 1);
            assert forall|j: int| 0 <= j < longer.len() implies is_digit(#[trigger] longer[j]) by {
                if j < i - first {
                    assert(longer[j] == digits.take(i - first)[j]);
                }
            }
        }
        i += 1;
    }
    assert(digits.take(i - first) =~= digits);
    Some(value)
}

/// Splits `s` at each separator.
pub fn split(s: &str, separator: char) -> (res: Vec<Vec<char>>)
    ensures
        res@.map_values(|field: Vec<char>| field@) == fields(s@, separator),
        res.len() >= 1,
{
    let chars = chars_of(s);
    let mut done: Vec<Vec<char>> = Vec::new();
    let mut current: Vec<char> = Vec::new();
    let mut i: usize = 0;
    let ghost views = |field: Vec<char>| field@;
    proof {
        assert(s@.take(0) =~= Seq::<char>::empty());
        assert(done@.map_values(views).push(current@) =~= fields(s@.take(0), separator));
    }
    while i < chars.len()
        invariant
            i <= chars.len(),
            chars@ == s@,
            views == (|field: Vec<char>| field@),
            done@.map_values(views).push(current@) == fields(s@.take(i as int), separator),
        decreases chars.len() - i,
    {
        let c: char = chars[i];
        let ghost before = done@.map_values(views).push(current@);
        proof {
            assert(s@.take(i + 1).drop_last() =~= s@.take(i as int));
            assert(s@.take(i + 1).last() == c);
            assert(before.drop_last() =~= done@.map_values(views));
            assert(before.last() == current@);
        }
        if c == separator {
            let ghost old_done = done@;
            let ghost old_current = current@;
            done.push(current);
            current = Vec::new();
            proof {
                assert(done@.map_values(views) =~= old_done.map_values(views).push(old_current));
                assert(current@ =~= Seq::<char>::empty());
            }
        } else {
            current.push(c);
        }
        i += 1;
    }
    let ghost old_done = done@;
    let ghost old_current = current@;
    done.push(current);
    proof {
        assert(s@.take(i as int) =~= s@);
        assert(done@.map_values(views) =~= old_done.map_values(views).push(old_current));
    }
    done
}

fn hex_digit(d: u8) -> (c: char)
    requires
        d < 16,
    ensures
        c == hex_char(d as int),
{
    if d < 10 {
        (48 + d) as char
    } else {
        (87 + d) as char
    }
}

/// The bytes in lowercase hexadecimal.
pub fn bytes_to_hex(bytes: &[u8]) -> (res: String)
    ensures
        res@ == hex(bytes@),
{
    let mut res = String::new();
    let mut i: usize = 0;
    while i < bytes.len()
        invariant
            i <= bytes.len(),
            res@ == hex(bytes@.take(i as int)),
        decreases bytes.len() - i,
    {
        let byte: u8 = bytes[i];
        res.push(hex_digit(byte / 16));
        res.push(hex_digit(byte % 16));
        proof {
            assert(res@ =~= hex(bytes@.take(i + 1)));
        }
        i += 1;
    }
    assert(bytes@.take(i as int) =~= bytes@);
    res
}

/// `s` with its ASCII letters in upper case.
pub fn to_ascii_upper(s: &str) -> (res: String)
    ensures
        res@ == ascii_upper(s@),
{
    let mut res = String::new();
    for c in it: s.chars()
        invariant
            it.seq() == s@,
            res@ == ascii_upper(s@.take(it.index() as int)),
    {
        if 'a' <= c && c <= 'z' {
            res.push((c as u8 - 32) as char);
        } else {
            res.push(c);
        }
        proof {
            assert(res@ =~= ascii_upper(s@.take(it.index() + 1)));
        }
    }
    assert(s@.take(s@.len() as int) =~= s@);
    res
}

proof fn lemma_decimal_digits(n: nat)
    ensures
        decimal(n).len() > 0,
        all_digits(decimal(n)),
        decimal_value(decimal(n)) == n,
    decreases n,
{
    if n < 10 {
        assert(decimal(n).drop_last() =~= Seq::<char>::empty());
        assert(decimal_value(decimal(n).drop_last()) == 0);
    } else {
        lemma_decimal_digits(n / 10);
        assert(decimal(n).drop_last() =~= decimal(n / 10));
        assert forall|i: int| 0 <= i < decimal(n).len() implies is_digit(
            #[trigger] decimal(n)[i],
        ) by {
            if i < decimal(n / 10).len() {
                assert(decimal(n)[i] == decimal(n / 10)[i]);
            }
        }
    }
}

/// A number written in decimal reads back as itself.
pub proof fn law_decimal_reads_back(n: u64)
    ensures
        parsed_u64(decimal(n as nat)) == Some(n),
{
    lemma_decimal_digits(n as nat);
    assert(is_digit(decimal(n as nat)[0]));
}

/// No decimal number holds a separator that is not a digit.
pub proof fn lemma_decimal_has_no_separator(n: nat, separator: char)
    requires
        !is_digit(separator),
    ensures
        !decimal(n).contains(separator),
{
    lemma_decimal_digits(n);
}

/// Text without a separator, added at the end, only makes the last field longer.
pub proof fn lemma_fields_extend(s: Seq<char>, t: Seq<char>, separator: char)
    requires
        !t.contains(separator),
    ensures
        fields(s + t, separator) == fields(s, separator).drop_last().push(
            fields(s, separator).last() + t,
        ),
    decreases t.len(),
{
    let before = fields(s, separator);
    lemma_fields_not_empty(s, separator);
    if t.len() == 0 {
        assert(s + t =~= s);
        assert(before.last() + t =~= before.last());
        assert(before.drop_last().push(before.last()) =~= before);
    } else {
        let shorter = t.drop_last();
        assert forall|i: int| 0 <= i < shorter.len() implies #[trigger] shorter[i] != separator by {
            assert(t[i] == shorter[i]);
        }
        lemma_fields_extend(s, shorter, separator);
        assert((s + t).drop_last() =~= s + shorter);
        assert((s + t).last() == t.last());
        assert(t[t.len() - 1] == t.last());
        let middle = fields(s + shorter, separator);
        assert(middle.drop_last() =~= before.drop_last());
        assert(middle.last().push(t.last()) =~= before.last() + t);
    }
}

/// A separator, added at the end, opens an empty field.
pub proof fn lemma_fields_separator(s: Seq<char>, separator: char)
    ensures
        fields(s.push(separator), separator) == fields(s, separator).push(Seq::empty()),
{
    assert(s.push(separator).drop_last() =~= s);
}

proof fn lemma_fields_not_empty(s: Seq<char>, separator: char)
    ensures
        fields(s, separator).len() >= 1,
    decreases s.len(),
{
    if s.len() > 0 {
        lemma_fields_not_empty(s.drop_last(), separator);
    }
}

/// Different bytes are never shown as the same text.
pub proof fn law_hex_is_injective(a: Seq<u8>, b: Seq<u8>)
    requires
        hex(a) == hex(b),
    ensures
        a == b,
{
    assert(hex(a).len() == 2 * a.len() && hex(b).len() == 2 * b.len());
    assert forall|i: int| 0 <= i < a.len() implies a[i] == b[i] by {
        assert((2 * i) / 2 == i && (2 * i) % 2 == 0);
        assert((2 * i + 1) / 2 == i && (2 * i + 1) % 2 == 1);
        assert(hex(a)[2 * i] == hex_char(a[i] as int / 16));
        assert(hex(b)[2 * i] == hex_char(b[i] as int / 16));
        assert(hex(a)[2 * i + 1] == hex_char(a[i] as int % 16));
        assert(hex(b)[2 * i + 1] == hex_char(b[i] as int % 16));
    }
    assert(a =~= b);
}

proof fn lemma_decimal_places(n: nat)
    ensures
        decimal(n).len() >= 1,
        n < pow(10, decimal(n).len()),
        decimal(n).len() > 1 ==> pow(10, (decimal(n).len() - 1) as nat) <= n,
        forall|i: int|
            0 <= i < decimal(n).len() ==> (#[trigger] decimal(n)[i]) as int == '0' as int + (
            n as int / pow(10, (decimal(n).len() - 1 - i) as nat)) % 10,
    decreases n,
{
    reveal(pow);
    let len = decimal(n).len();
    if n < 10 {
        assert(pow(10, 0) == 1);
        assert(pow(10, 1) == 10 * pow(10, 0));
        assert(decimal(n)[0] == digit_char(n as int));
        assert(n as int / pow(10, 0) == n);
    } else {
        let before = decimal(n / 10);
        lemma_decimal_places(n / 10);
        assert(len == before.len() + 1);
        assert(pow(10, len) == 10 * pow(10, before.len()));
        assert(pow(10, before.len()) == 10 * pow(10, (before.len() - 1) as nat));
        if before.len() == 1 {
            assert(pow(10, 0) == 1);
        }
        assert forall|i: int| 0 <= i < len implies (#[trigger] decimal(n)[i]) as int == '0' as int
            + (n as int / pow(10, (len - 1 - i) as nat)) % 10 by {
            if i < before.len() {
                let k = (before.len() - 1 - i) as nat;
                assert(decimal(n)[i] == before[i]);
                vstd::arithmetic::power::lemma_pow_positive(10, k);
                assert(pow(10, (len - 1 - i) as nat) == 10 * pow(10, k));
                vstd::arithmetic::div_mod::lemma_div_denominator(n as int, 10, pow(10, k));
            } else {
                assert(pow(10, 0) == 1);
                assert(decimal(n)[i] == digit_char((n % 10) as int));
            }
        }
    }
}

/// A number in decimal has the digit of each power of ten in its place, and no more places than
/// it takes.
pub proof fn law_decimal_has_each_digit_in_its_place(n: u64)
    ensures
        decimal(n as nat).len() >= 1,
        n < pow(10, decimal(n as nat).len()),
        decimal(n as nat).len() > 1 ==> pow(10, (decimal(n as nat).len() - 1) as nat) <= n,
        forall|i: int|
            0 <= i < decimal(n as nat).len() ==> (#[trigger] decimal(n as nat)[i]) as int
                == '0' as int + (n as int / pow(10, (decimal(n as nat).len() - 1 - i) as nat)) % 10,
{
    lemma_decimal_places(n as nat);
}

/// How a number that is read changes with one more character: a digit at the beginning, or after
/// a plus sign, is the number itself, a later one makes ten times the number and the digit where
/// that fits in 64 bits, and after anything else there is no number to be read.
pub proof fn law_numbers_are_read_digit_by_digit(s: Seq<char>, c: char)
    ensures
        parsed_u64(Seq::<char>::empty()) is None,
        !('0' <= c <= '9') ==> parsed_u64(s.push(c)) is None,
        '0' <= c <= '9' && (s.len() == 0 || s == seq!['+']) ==> parsed_u64(s.push(c)) == Some(
            (c as int - '0' as int) as u64,
        ),
        '0' <= c <= '9' && s.len() > 0 && s != seq!['+'] ==> parsed_u64(s.push(c)) == (
        match parsed_u64(s) {
            Some(value) => if value * 10 + (c as int - '0' as int) <= 0xffff_ffff_ffff_ffff {
                Some((value * 10 + (c as int - '0' as int)) as u64)
            } else {
                None
            },
            None => None,
        }),
{
    let longer = s.push(c);
    let digits = without_plus(longer);
    if s.len() == 0 {
        assert(without_plus(s) =~= s);
        if c == '+' {
            assert(digits.len() == 0);
        } else {
            assert(digits =~= seq![c]);
            assert(digits[0] == c);
            assert(digits.drop_last() =~= Seq::<char>::empty());
            assert(decimal_value(digits.drop_last()) == 0);
        }
    } else {
        let before = without_plus(s);
        assert(longer[0] == s[0]);
        assert(digits =~= before.push(c));
        assert(digits.drop_last() =~= before);
        assert(digits[before.len() as int] == c);
        if s == seq!['+'] {
            assert(before.len() == 0);
            assert(digits =~= seq![c]);
            assert(digits[0] == c);
            assert(digits.drop_last() =~= Seq::<char>::empty());
            assert(decimal_value(digits.drop_last()) == 0);
        } else {
            if before.len() == 0 {
                assert(s =~= seq!['+']);
            }
            if all_digits(before) && is_digit(c) {
                assert forall|i: int| 0 <= i < digits.len() implies is_digit(
                    #[trigger] digits[i],
                ) by {
                    if i < before.len() {
                        assert(digits[i] == before[i]);
                    }
                }
            }
            if all_digits(digits) {
                assert forall|i: int| 0 <= i < before.len() implies is_digit(
                    #[trigger] before[i],
                ) by {
                    assert(digits[i] == before[i]);
                }
            }
        }
    }
}

/// How the fields of a text change with one more character: a separator opens an empty field, and
/// any other character makes the last field longer.
pub proof fn law_fields_grow_character_by_character(s: Seq<char>, c: char, separator: char)
    ensures
        fields(Seq::<char>::empty(), separator) == seq![Seq::<char>::empty()],
        fields(s, separator).len() >= 1,
        c == separator ==> fields(s.push(c), separator) == fields(s, separator).push(Seq::empty()),
        c != separator ==> fields(s.push(c), separator) == fields(s, separator).update(
            fields(s, separator).len() - 1,
            fields(s, separator).last().push(c),
        ),
{
    lemma_fields_not_empty(s, separator);
    assert(s.push(c).drop_last() =~= s);
    let before = fields(s, separator);
    assert(before.drop_last().push(before.last().push(c)) =~= before.update(
        before.len() - 1,
        before.last().push(c),
    ));
}

/// Each byte is shown by two of the sixteen digits, the one for its sixteens first.
pub proof fn law_each_byte_has_two_digits(bytes: Seq<u8>, i: int)
    requires
        0 <= i < bytes.len(),
    ensures
        hex(bytes).len() == 2 * bytes.len(),
        hex(bytes)[2 * i] == "0123456789abcdef"@[bytes[i] as int / 16],
        hex(bytes)[2 * i + 1] == "0123456789abcdef"@[bytes[i] as int % 16],
{
    reveal_strlit("0123456789abcdef");
    assert((2 * i) / 2 == i && (2 * i) % 2 == 0);
    assert((2 * i + 1) / 2 == i && (2 * i + 1) % 2 == 1);
    let digits = "0123456789abcdef"@;
    assert(digits.len() == 16);
    assert(digits[0] == '0' && digits[1] == '1' && digits[2] == '2' && digits[3] == '3');
    assert(digits[4] == '4' && digits[5] == '5' && digits[6] == '6' && digits[7] == '7');
    assert(digits[8] == '8' && digits[9] == '9' && digits[10] == 'a' && digits[11] == 'b');
    assert(digits[12] == 'c' && digits[13] == 'd' && digits[14] == 'e' && digits[15] == 'f');
    assert forall|d: int| 0 <= d < 16 implies #[trigger] hex_char(d) == digits[d] by {
        if d < 8 {
        } else if d < 12 {
        } else {
        }
    }
    assert(hex_char(bytes[i] as int / 16) == digits[bytes[i] as int / 16]);
    assert(hex_char(bytes[i] as int % 16) == digits[bytes[i] as int % 16]);
}

/// Only the letters from `a` to `z` change, each to the capital that stands 32 places before it,
/// and no character is added or lost.
pub proof fn law_only_small_letters_change(s: Seq<char>)
    ensures
        ascii_upper(s).len() == s.len(),
        forall|i: int|
            0 <= i < s.len() ==> (#[trigger] ascii_upper(s)[i]) as int == if 97 <= s[i] as int <= 122 {
                s[i] as int - 32
            } else {
                s[i] as int
            },
{
}

} // verus!
