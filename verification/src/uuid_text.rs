//! The hyphenated text form of a 128-bit identifier.
//!
//! An identifier is written as thirty-two hexadecimal digits, most significant
//! first, in groups of 8-4-4-4-12 digits parted by hyphens. Reading accepts
//! digits of either case; writing uses lower case.
use vstd::arithmetic::div_mod::lemma_div_denominator;
use vstd::prelude::*;
use vstd::string::*;

verus! {

/// Whether `i` is one of the places of the text form that hold a hyphen.
pub open spec fn is_hyphen_place(i: int) -> bool {
    i == 8 || i == 13 || i == 18 || i == 23
}

/// How many of the first `n` places of the text form hold a digit.
pub open spec fn digits_before(n: int) -> int {
    n - (if n > 8 { 1int } else { 0 }) - (if n > 13 { 1int } else { 0 }) - (if n > 18 {
        1int
    } else {
        0
    }) - (if n > 23 { 1int } else { 0 })
}

/// Whether `c` is a hexadecimal digit, in either case.
pub open spec fn is_hex_digit(c: char) -> bool {
    '0' <= c <= '9' || 'a' <= c <= 'f' || 'A' <= c <= 'F'
}

/// The number that the hexadecimal digit `c` stands for.
pub open spec fn hex_value(c: char) -> int
    recommends
        is_hex_digit(c),
{
    if '0' <= c <= '9' {
        c as int - '0' as int
    } else if 'a' <= c <= 'f' {
        c as int - 'a' as int + 10
    } else {
        c as int - 'A' as int + 10
    }
}

/// The lower-case hexadecimal digit that stands for `n`.
pub open spec fn hex_digit(n: int) -> char
    recommends
        0 <= n < 16,
{
    if n < 10 {
        ('0' as int + n) as char
    } else {
        ('a' as int + n - 10) as char
    }
}

/// `c` with an upper-case hexadecimal digit turned to lower case.
pub open spec fn lower_hex(c: char) -> char {
    if 'A' <= c <= 'F' {
        (c as int + 32) as char
    } else {
        c
    }
}

/// Whether `s` is the text form of an identifier.
pub open spec fn is_uuid_text(s: Seq<char>) -> bool {
    &&& s.len() == 36
    &&& forall|i: int|
        0 <= i < 36 ==> if is_hyphen_place(i) {
            #[trigger] s[i] == '-'
        } else {
            is_hex_digit(s[i])
        }
}

/// Sixteen to the power of `k`.
pub open spec fn pow16(k: nat) -> nat
    decreases k,
{
    if k == 0 {
        1
    } else {
        16 * pow16((k - 1) as nat)
    }
}

/// The number written by the digits among the first `n` characters of `s`.
pub open spec fn value_of_prefix(s: Seq<char>, n: nat) -> int
    decreases n,
{
    if n == 0 {
        0
    } else if is_hyphen_place(n - 1) {
        value_of_prefix(s, (n - 1) as nat)
    } else {
        16 * value_of_prefix(s, (n - 1) as nat) + hex_value(s[n - 1])
    }
}

/// The identifier that the text form `s` stands for.
pub open spec fn uuid_value(s: Seq<char>) -> int
    recommends
        is_uuid_text(s),
{
    value_of_prefix(s, 36)
}

/// Digit number `k` of `value`, counted from the most significant.
pub open spec fn digit_at(value: int, k: int) -> int
    recommends
        0 <= k < 32,
{
    (value / pow16((31 - k) as nat) as int) % 16
}

/// The text form of the identifier `value`.
pub open spec fn uuid_text(value: int) -> Seq<char> {
    Seq::new(
        36,
        |i: int|
            if is_hyphen_place(i) {
                '-'
            } else {
                hex_digit(digit_at(value, digits_before(i)))
            },
    )
}

proof fn lemma_pow16_positive(k: nat)
    ensures
        pow16(k) > 0,
    decreases k,
{
    if k > 0 {
        lemma_pow16_positive((k - 1) as nat);
    }
}

proof fn lemma_pow16_monotone(j: nat, k: nat)
    requires
        j <= k,
    ensures
        pow16(j) <= pow16(k),
    decreases k,
{
    if j < k {
        lemma_pow16_monotone(j, (k - 1) as nat);
    }
}

proof fn lemma_pow16_32()
    ensures
        pow16(32) == u128::MAX + 1,
        pow16(31) == 0x1000_0000_0000_0000_0000_0000_0000_0000,
{
    reveal_with_fuel(pow16, 33);
}

/// The value of a prefix has no more digits than the prefix.
proof fn lemma_prefix_bound(s: Seq<char>, n: nat)
    requires
        is_uuid_text(s),
        n <= 36,
    ensures
        0 <= value_of_prefix(s, n) < pow16(digits_before(n as int) as nat),
    decreases n,
{
    if n > 0 {
        let m = (n - 1) as nat;
        lemma_prefix_bound(s, m);
        let c = s[m as int];
        if !is_hyphen_place(m as int) {
            assert(is_hex_digit(c));
            assert(0 <= hex_value(c) < 16);
            assert(digits_before(n as int) == digits_before(m as int) + 1);
            assert(pow16(digits_before(n as int) as nat) == 16 * pow16(
                digits_before(m as int) as nat,
            ));
        }
    }
}

/// A prefix holds what is left of the whole when the digits behind it are cut off.
proof fn lemma_prefix_of_value(s: Seq<char>, n: nat)
    requires
        is_uuid_text(s),
        n <= 36,
    ensures
        uuid_value(s) / pow16((32 - digits_before(n as int)) as nat) as int == value_of_prefix(s, n),
    decreases 36 - n,
{
    if n < 36 {
        lemma_prefix_of_value(s, n + 1);
        let v = uuid_value(s);
        if !is_hyphen_place(n as int) {
            let rest = (31 - digits_before(n as int)) as nat;
            assert((32 - digits_before(n as int)) as nat == rest + 1);
            assert((32 - digits_before(n as int + 1)) as nat == rest);
            assert(pow16(rest + 1) == 16 * pow16(rest));
            lemma_pow16_positive(rest);
            lemma_prefix_bound(s, 36);
            lemma_div_denominator(v, pow16(rest) as int, 16);
            assert(pow16(rest) as int * 16 == pow16(rest + 1));
            assert(is_hex_digit(s[n as int]));
            assert(0 <= hex_value(s[n as int]) < 16);
            assert(value_of_prefix(s, n + 1) == 16 * value_of_prefix(s, n) + hex_value(
                s[n as int],
            ));
            assert(v / pow16(rest + 1) as int == value_of_prefix(s, n + 1) / 16);
        } else {
            assert(digits_before(n as int + 1) == digits_before(n as int));
            assert(value_of_prefix(s, n + 1) == value_of_prefix(s, n));
        }
    } else {
        assert(digits_before(n as int) == 32);
        assert(pow16(0) == 1);
        let v = uuid_value(s);
        assert(v / 1 == v);
    }
}

proof fn lemma_digits_of_text(value: int, n: nat)
    requires
        0 <= value <= u128::MAX,
        n <= 36,
    ensures
        value_of_prefix(uuid_text(value), n) == value / pow16(
            (32 - digits_before(n as int)) as nat,
        ) as int,
    decreases n,
{
    if n == 0 {
        lemma_pow16_32();
        assert(value / pow16(32) as int == 0) by (nonlinear_arith)
            requires
                0 <= value < pow16(32),
        ;
    } else {
        let m = (n - 1) as nat;
        lemma_digits_of_text(value, m);
        if !is_hyphen_place(m as int) {
            let rest = (31 - digits_before(m as int)) as nat;
            assert((32 - digits_before(m as int)) as nat == rest + 1);
            assert(pow16(rest + 1) == 16 * pow16(rest));
            lemma_pow16_positive(rest);
            lemma_div_denominator(value, pow16(rest) as int, 16);
            assert(pow16(rest) as int * 16 == pow16(rest + 1));
            let d = digit_at(value, digits_before(m as int));
            assert(0 <= d < 16);
            assert(hex_value(hex_digit(d)) == d);
        }
    }
}

/// Writing an identifier gives a well-formed text, and reading that text gives
/// the identifier back.
pub proof fn law_text_reads_back(value: u128)
    ensures
        is_uuid_text(uuid_text(value as int)),
        uuid_value(uuid_text(value as int)) == value,
{
    let s = uuid_text(value as int);
    assert forall|i: int| 0 <= i < 36 implies if is_hyphen_place(i) {
        #[trigger] s[i] == '-'
    } else {
        is_hex_digit(s[i])
    } by {
        let d = digit_at(value as int, digits_before(i));
        assert(0 <= d < 16);
    }
    lemma_digits_of_text(value as int, 36);
    assert(digits_before(36) == 32);
    assert(pow16(0) == 1);
    assert(value as int / 1 == value);
}

/// Reading a well-formed text gives a 128-bit number, and writing that number
/// gives the text back, in lower case.
pub proof fn law_value_writes_back(s: Seq<char>)
    requires
        is_uuid_text(s),
    ensures
        0 <= uuid_value(s) <= u128::MAX,
        uuid_text(uuid_value(s)) == s.map_values(|c: char| lower_hex(c)),
{
    let v = uuid_value(s);
    lemma_prefix_bound(s, 36);
    lemma_pow16_32();
    let t = uuid_text(v);
    let lowered = s.map_values(|c: char| lower_hex(c));
    assert forall|i: int| 0 <= i < 36 implies t[i] == lowered[i] by {
        let c = s[i];
        if !is_hyphen_place(i) {
            assert(is_hex_digit(c));
            lemma_prefix_of_value(s, (i + 1) as nat);
            assert((32 - digits_before(i + 1)) as nat == (31 - digits_before(i)) as nat);
            assert(v / pow16((31 - digits_before(i)) as nat) as int == 16 * value_of_prefix(
                s,
                i as nat,
            ) + hex_value(c));
            assert(0 <= hex_value(c) < 16);
            assert(digit_at(v, digits_before(i)) == hex_value(c));
            assert(hex_digit(hex_value(c)) == lower_hex(c));
        }
    }
    assert(t =~= lowered);
}

/// Two identifiers with the same text are the same identifier.
pub proof fn law_text_is_injective(a: u128, b: u128)
    requires
        uuid_text(a as int) == uuid_text(b as int),
    ensures
        a == b,
{
    law_text_reads_back(a);
    law_text_reads_back(b);
}

/// Reads one hexadecimal digit.
fn read_hex_digit(c: char) -> (digit: Option<u128>)
    ensures
        match digit {
            Some(d) => is_hex_digit(c) && d == hex_value(c),
            None => !is_hex_digit(c),
        },
{
    if '0' <= c && c <= '9' {
        Some((c as u32 - '0' as u32) as u128)
    } else if 'a' <= c && c <= 'f' {
        Some((c as u32 - 'a' as u32 + 10) as u128)
    } else if 'A' <= c && c <= 'F' {
        Some((c as u32 - 'A' as u32 + 10) as u128)
    } else {
        None
    }
}

/// Reads an identifier from its text form; `None` where `s` is no such text.
pub fn parse_uuid(s: &str) -> (value: Option<u128>)
    ensures
        match value {
            Some(v) => is_uuid_text(s@) && v == uuid_value(s@),
            None => !is_uuid_text(s@),
        },
{
    if s.unicode_len() != 36 {
        return None;
    }
    let mut value: u128 = 0;
    let mut i: usize = 0;
    while i < 36
        invariant
            i <= 36,
            s@.len() == 36,
            forall|j: int|
                0 <= j < i ==> if is_hyphen_place(j) {
                    #[trigger] s@[j] == '-'
                } else {
                    is_hex_digit(s@[j])
                },
            value == value_of_prefix(s@, i as nat),
            value < pow16(digits_before(i as int) as nat),
        decreases 36 - i,
    {
        let c = s.get_char(i);
        if i == 8 || i == 13 || i == 18 || i == 23 {
            if c != '-' {
                return None;
            }
        } else {
            match read_hex_digit(c) {
                Some(digit) => {
                    proof {
                        let k = digits_before(i as int) as nat;
                        assert(pow16(k + 1) == 16 * pow16(k));
                        lemma_pow16_monotone(k + 1, 32);
                        lemma_pow16_32();
                        assert(0 <= hex_value(c) < 16);
                    }
                    value = 16 * value + digit;
                },
                None => {
                    return None;
                },
            }
        }
        i = i + 1;
    }
    Some(value)
}

/// Writes an identifier in its text form.
pub fn format_uuid(value: u128) -> (text: String)
    ensures
        text@ == uuid_text(value as int),
{
    let digits = "0123456789abcdef";
    let mut text = String::new();
    let mut divisor: u128 = 0x1000_0000_0000_0000_0000_0000_0000_0000;
    let mut i: usize = 0;
    proof {
        lemma_pow16_32();
    }
    while i < 36
        invariant
            i <= 36,
            digits@ == "0123456789abcdef"@,
            i < 36 ==> divisor == pow16((31 - digits_before(i as int)) as nat),
            text@ == uuid_text(value as int).take(i as int),
        decreases 36 - i,
    {
        let ghost whole = uuid_text(value as int);
        if i == 8 || i == 13 || i == 18 || i == 23 {
            text.append("-");
            proof {
                reveal_strlit("-");
            }
        } else {
            proof {
                lemma_pow16_positive((31 - digits_before(i as int)) as nat);
            }
            let digit: usize = ((value / divisor) % 16) as usize;
            proof {
                reveal_strlit("0123456789abcdef");
                assert(digit == digit_at(value as int, digits_before(i as int)));
                assert(digits@[digit as int] == hex_digit(digit as int));
            }
            text.append(digits.substring_char(digit, digit + 1));
            divisor = divisor / 16;
            proof {
                if i < 35 {
                    let k = (31 - digits_before(i as int)) as nat;
                    assert(pow16(k) == 16 * pow16((k - 1) as nat));
                }
            }
        }
        assert(text@ =~= whole.take(i + 1));
        i = i + 1;
    }
    assert(uuid_text(value as int).take(36) =~= uuid_text(value as int));
    text
}

/// What a well-formed text is: thirty-six characters, hyphens in four places, hexadecimal
/// digits of either case in all others.
pub proof fn law_shape_of_text(s: Seq<char>)
    ensures
        is_uuid_text(s) <==> {
            &&& s.len() == 36
            &&& s[8] == '-' && s[13] == '-' && s[18] == '-' && s[23] == '-'
            &&& forall|i: int|
                0 <= i < 36 && i != 8 && i != 13 && i != 18 && i != 23 ==> {
                    let c = #[trigger] s[i];
                    ||| '0' <= c <= '9'
                    ||| 'a' <= c <= 'f'
                    ||| 'A' <= c <= 'F'
                }
        },
{
    if is_uuid_text(s) {
        assert(is_hyphen_place(8) && is_hyphen_place(13) && is_hyphen_place(18) && is_hyphen_place(
            23,
        ));
        assert(s[8] == '-' && s[13] == '-' && s[18] == '-' && s[23] == '-');
        assert forall|i: int| 0 <= i < 36 && i != 8 && i != 13 && i != 18 && i != 23 implies ({
            let c = #[trigger] s[i];
            ||| '0' <= c <= '9'
            ||| 'a' <= c <= 'f'
            ||| 'A' <= c <= 'F'
        }) by {
            assert(!is_hyphen_place(i));
        }
    }
}

/// The powers of sixteen begin with one, and each is sixteen times the one before.
pub proof fn law_powers(k: nat)
    ensures
        pow16(0) == 1,
        pow16(k + 1) == 16 * pow16(k),
{
}

/// Each digit of a text counts at its place: the last one once, and each other one sixteen
/// times as much as the digit behind it.
pub proof fn law_place_of_digit(s: Seq<char>, i: int)
    requires
        is_uuid_text(s),
        0 <= i < 36,
        i != 8 && i != 13 && i != 18 && i != 23,
    ensures
        ({
            let behind: int = if i < 8 {
                31 - i
            } else if i < 13 {
                32 - i
            } else if i < 18 {
                33 - i
            } else if i < 23 {
                34 - i
            } else {
                35 - i
            };
            let c = s[i];
            (uuid_value(s) / pow16(behind as nat) as int) % 16 == if '0' <= c <= '9' {
                c as int - 48
            } else if 'a' <= c <= 'f' {
                c as int - 87
            } else {
                c as int - 55
            }
        }),
{
    let c = s[i];
    assert(!is_hyphen_place(i));
    assert(is_hex_digit(c));
    lemma_prefix_of_value(s, (i + 1) as nat);
    assert((32 - digits_before(i + 1)) as nat == (31 - digits_before(i)) as nat);
    assert(value_of_prefix(s, (i + 1) as nat) == 16 * value_of_prefix(s, i as nat) + hex_value(c));
    assert(0 <= hex_value(c) < 16);
}

/// An identifier is written without upper-case digits.
pub proof fn law_text_is_lower_case(value: u128, i: int)
    requires
        0 <= i < 36,
    ensures
        uuid_text(value as int).len() == 36,
        !('A' <= uuid_text(value as int)[i] <= 'F'),
{
    let d = digit_at(value as int, digits_before(i));
    assert(0 <= d < 16);
}

} // verus!
