use vstd::prelude::*;
use vstd::arithmetic::div_mod::{lemma_div_denominator, lemma_fundamental_div_mod};
use vstd::arithmetic::power::{lemma_pow_positive, pow};

verus! {

/// The character of a decimal digit `d` (0 to 9).
pub open spec fn digit_char(d: int) -> char {
    ('0' as int + d) as char
}

/// The decimal representation of `n`, without leading zeros.
pub open spec fn decimal(n: nat) -> Seq<char>
    decreases n,
{
    if n < 10 {
        seq![digit_char(n as int)]
    } else {
        decimal(n / 10).push(digit_char((n % 10) as int))
    }
}

/// The number that a string of decimal digits stands for.
pub open spec fn digits_value(digits: Seq<char>) -> int
    decreases digits.len(),
{
    if digits.len() == 0 {
        0
    } else {
        digits_value(digits.drop_last()) * 10 + (digits.last() as int - '0' as int)
    }
}

/// `decimal(n)` is the usual way of writing `n`: digits only, the number they stand for is `n`,
/// and there is no leading zero.
pub proof fn decimal_writes_the_number(n: nat)
    ensures
        decimal(n).len() >= 1,
        forall|i: int| 0 <= i < decimal(n).len() ==> '0' <= #[trigger] decimal(n)[i] <= '9',
        digits_value(decimal(n)) == n,
        decimal(n).len() > 1 ==> decimal(n)[0] != '0',
        n < 10 <==> decimal(n).len() == 1,
    decreases n,
{
    if n >= 10 {
        decimal_writes_the_number(n / 10);
        let d = decimal(n);
        let high = decimal(n / 10);
        assert(d.drop_last() =~= high);
        assert(d[d.len() - 1] as int == '0' as int + (n % 10));
        assert(n == (n / 10) * 10 + n % 10);
        assert forall|i: int| 0 <= i < d.len() implies '0' <= #[trigger] d[i] <= '9' by {
            if i < d.len() - 1 {
                assert(d[i] == high[i]);
            }
        }
        assert(d[0] == high[0]);
        if high.len() == 1 {
            assert(n / 10 < 10);
            assert(n / 10 >= 1);
            assert(high[0] as int == '0' as int + n / 10);
        }
        assert(digits_value(d) == digits_value(high) * 10 + (d.last() as int - '0' as int));
    } else {
        let d = decimal(n);
        assert(d.drop_last() =~= Seq::<char>::empty());
        assert(digits_value(d.drop_last()) == 0);
        assert(d.last() as int == '0' as int + n);
    }
}

/// The character of a hexadecimal digit `d` (0 to 15), in lower case.
pub open spec fn hex_char(d: int) -> char {
    if d < 10 {
        ('0' as int + d) as char
    } else {
        ('a' as int + (d - 10)) as char
    }
}

/// The 32 lower-case hexadecimal digits of a 128-bit value, most significant first.
pub open spec fn simple_hex(v: u128) -> Seq<char> {
    Seq::new(32, |i: int| hex_char((v as int / pow(16, (31 - i) as nat)) % 16))
}

/// The digits of `simple_hex(v)` in groups of 8, 4, 4, 4 and 12, joined by `-`.
pub open spec fn hyphenated_hex(v: u128) -> Seq<char> {
    let h = simple_hex(v);
    h.subrange(0, 8) + seq!['-'] + h.subrange(8, 12) + seq!['-'] + h.subrange(12, 16) + seq!['-']
        + h.subrange(16, 20) + seq!['-'] + h.subrange(20, 32)
}

/// The value of a lower-case hexadecimal digit.
pub open spec fn hex_digit_value(c: char) -> int {
    if '0' <= c <= '9' {
        c as int - '0' as int
    } else {
        c as int - 'a' as int + 10
    }
}

/// The number that a string of hexadecimal digits stands for.
pub open spec fn hex_value(digits: Seq<char>) -> int
    decreases digits.len(),
{
    if digits.len() == 0 {
        0
    } else {
        hex_value(digits.drop_last()) * 16 + hex_digit_value(digits.last())
    }
}

proof fn hex_prefix_value(v: u128, k: nat)
    requires
        k <= 32,
    ensures
        hex_value(simple_hex(v).take(k as int)) == v as int / pow(16, (32 - k) as nat),
    decreases k,
{
    let h = simple_hex(v);
    if k == 0 {
        assert(h.take(0) =~= Seq::<char>::empty());
        reveal_with_fuel(pow, 33);
        assert(pow(16, 32) == 0x1_0000_0000_0000_0000_0000_0000_0000_0000int);
        assert(v as int / 0x1_0000_0000_0000_0000_0000_0000_0000_0000int == 0);
    } else {
        let j = (k - 1) as nat;
        hex_prefix_value(v, j);
        let p = pow(16, (32 - k) as nat);
        lemma_pow_positive(16, (32 - k) as nat);
        assert(pow(16, (32 - j) as nat) == 16 * p) by {
            reveal(pow);
        }
        let q = v as int / p;
        let d = q % 16;
        assert(h.take(k as int).drop_last() =~= h.take(j as int));
        assert(h.take(k as int).last() == hex_char(d));
        assert(hex_digit_value(hex_char(d)) == d);
        lemma_div_denominator(v as int, p, 16);
        assert(p * 16 == 16 * p);
        lemma_fundamental_div_mod(q, 16);
        assert(v as int / pow(16, (32 - j) as nat) == q / 16);
        assert(hex_value(h.take(j as int)) == q / 16);
        assert(hex_value(h.take(k as int)) == (q / 16) * 16 + d);
        assert(q == (q / 16) * 16 + d);
    }
}

/// `simple_hex(v)` writes `v` in base 16: 32 lower-case hexadecimal digits, most significant
/// first, whose value is `v`.
pub proof fn simple_hex_writes_the_value(v: u128)
    ensures
        simple_hex(v).len() == 32,
        forall|i: int| 0 <= i < 32 ==> ('0' <= #[trigger] simple_hex(v)[i] <= '9' || 'a' <= simple_hex(v)[i] <= 'f'),
        hex_value(simple_hex(v)) == v,
{
    hex_prefix_value(v, 32);
    assert(simple_hex(v).take(32) =~= simple_hex(v));
    assert(pow(16, 0) == 1) by {
        reveal(pow);
    }
    assert forall|i: int| 0 <= i < 32 implies ('0' <= #[trigger] simple_hex(v)[i] <= '9' || 'a' <= simple_hex(v)[i] <= 'f') by {
        let p = pow(16, (31 - i) as nat);
        lemma_pow_positive(16, (31 - i) as nat);
        let d = (v as int / p) % 16;
        assert(0 <= d < 16);
    }
}

/// The hyphenated form is the simple form with `-` after its 8th, 12th, 16th and 20th digit.
pub proof fn hyphenated_hex_groups_the_simple_form(v: u128)
    ensures
        hyphenated_hex(v).len() == 36,
        forall|i: int| #![trigger hyphenated_hex(v)[i]] i == 8 || i == 13 || i == 18 || i == 23 ==> hyphenated_hex(v)[i] == '-',
        forall|i: int| 0 <= i < 8 ==> #[trigger] hyphenated_hex(v)[i] == simple_hex(v)[i],
        forall|i: int| 9 <= i < 13 ==> #[trigger] hyphenated_hex(v)[i] == simple_hex(v)[i - 1],
        forall|i: int| 14 <= i < 18 ==> #[trigger] hyphenated_hex(v)[i] == simple_hex(v)[i - 2],
        forall|i: int| 19 <= i < 23 ==> #[trigger] hyphenated_hex(v)[i] == simple_hex(v)[i - 3],
        forall|i: int| 24 <= i < 36 ==> #[trigger] hyphenated_hex(v)[i] == simple_hex(v)[i - 4],
{
}

fn digit_str(d: u64) -> (s: &'static str)
    requires
        d < 10,
    ensures
        s@ == seq![digit_char(d as int)],
{
    match d {
        0 => {
            proof { reveal_strlit("0"); }
            "0"
        },
        1 => {
            proof { reveal_strlit("1"); }
            "1"
        },
        2 => {
            proof { reveal_strlit("2"); }
            "2"
        },
        3 => {
            proof { reveal_strlit("3"); }
            "3"
        },
        4 => {
            proof { reveal_strlit("4"); }
            "4"
        },
        5 => {
            proof { reveal_strlit("5"); }
            "5"
        },
        6 => {
            proof { reveal_strlit("6"); }
            "6"
        },
        7 => {
            proof { reveal_strlit("7"); }
            "7"
        },
        8 => {
            proof { reveal_strlit("8"); }
            "8"
        },
        _ => {
            proof { reveal_strlit("9"); }
            "9"
        },
    }
}

/// Appends the decimal representation of `n` to `s`.
pub fn push_decimal(s: &mut String, n: u64)
    ensures
        final(s)@ == old(s)@ + decimal(n as nat),
    decreases n,
{
    if n >= 10 {
        push_decimal(s, n / 10);
    }
    s.append(digit_str(n % 10));
    proof {
        if n >= 10 {
            assert(decimal(n as nat) == decimal((n / 10) as nat).push(digit_char((n % 10) as int)));
        }
    }
}

/// The decimal representation of `n`.
pub fn decimal_string(n: u64) -> (s: String)
    ensures
        s@ == decimal(n as nat),
{
    let mut s = String::new();
    push_decimal(&mut s, n);
    s
}

/// The UUID with the value `v`, written by the `uuid` crate in its simple form:
/// 32 lower-case hexadecimal digits without hyphens.
#[verifier::external_body]
pub(crate) fn uuid_simple(v: u128) -> (s: String)
    ensures
        s@ == simple_hex(v),
{
    uuid::Uuid::from_u128(v).simple().to_string()
}

/// The UUID with the value `v`, written by the `uuid` crate in its hyphenated form:
/// lower-case hexadecimal digits in groups of 8, 4, 4, 4 and 12.
#[verifier::external_body]
pub(crate) fn uuid_hyphenated(v: u128) -> (s: String)
    ensures
        s@ == hyphenated_hex(v),
{
    uuid::Uuid::from_u128(v).hyphenated().to_string()
}

} // verus!
