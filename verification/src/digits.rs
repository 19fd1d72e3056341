//! Decimal numbers (reading and writing) and lower-case hexadecimal.
use vstd::prelude::*;

verus! {

/// The decimal digit for `d` (taken modulo nothing: `d` is expected below ten).
pub open spec fn decimal_digit(d: nat) -> char {
    if d == 0 {
        '0'
    } else if d == 1 {
        '1'
    } else if d == 2 {
        '2'
    } else if d == 3 {
        '3'
    } else if d == 4 {
        '4'
    } else if d == 5 {
        '5'
    } else if d == 6 {
        '6'
    } else if d == 7 {
        '7'
    } else if d == 8 {
        '8'
    } else {
        '9'
    }
}

/// The lower-case hexadecimal digit for `d` (expected below sixteen).
pub open spec fn hex_digit(d: nat) -> char {
    if d < 10 {
        decimal_digit(d)
    } else if d == 10 {
        'a'
    } else if d == 11 {
        'b'
    } else if d == 12 {
        'c'
    } else if d == 13 {
        'd'
    } else if d == 14 {
        'e'
    } else {
        'f'
    }
}

/// `c` is one of `0` to `9`.
pub open spec fn is_decimal_char(c: char) -> bool {
    48 <= (c as u32) <= 57
}

/// `c` is one of `0` to `9` or `a` to `f`.
pub open spec fn is_lower_hex_char(c: char) -> bool {
    ||| 48 <= (c as u32) <= 57
    ||| 97 <= (c as u32) <= 102
}

/// The value of a decimal digit.
pub open spec fn decimal_value(c: char) -> nat {
    ((c as u32) - 48) as nat
}

/// The shortest decimal writing of `n`, as `u64::to_string` gives it.
pub open spec fn decimal_seq(n: nat) -> Seq<char>
    decreases n,
{
    if n < 10 {
        seq![decimal_digit(n)]
    } else {
        decimal_seq(n / 10).push(decimal_digit(n % 10))
    }
}

/// The number that the decimal digits `ds` write.
pub open spec fn digits_value(ds: Seq<char>) -> nat
    decreases ds.len(),
{
    if ds.len() == 0 {
        0
    } else {
        digits_value(ds.drop_last()) * 10 + decimal_value(ds.last())
    }
}

/// Every character of `ds` is a decimal digit.
pub open spec fn all_decimal(ds: Seq<char>) -> bool {
    forall|i: int| 0 <= i < ds.len() ==> is_decimal_char(#[trigger] ds[i])
}

/// What follows the optional leading `+` that unsigned integer parsing accepts.
pub open spec fn unsigned_digits(s: Seq<char>) -> Seq<char> {
    if s.len() > 0 && s[0] == '+' {
        s.drop_first()
    } else {
        s
    }
}

/// How `str::parse` reads an unsigned integer no larger than `max`: an optional
/// `+`, then one or more decimal digits and nothing else, whose value is at
/// most `max`.
pub open spec fn parse_unsigned_spec(s: Seq<char>, max: nat) -> Option<nat> {
    let ds = unsigned_digits(s);
    if ds.len() > 0 && all_decimal(ds) && digits_value(ds) <= max {
        Some(digits_value(ds))
    } else {
        None
    }
}

/// Lower-case hexadecimal writing of `bytes`, two digits per byte, high half first.
pub open spec fn hex_seq(bytes: Seq<u8>) -> Seq<char>
    decreases bytes.len(),
{
    if bytes.len() == 0 {
        Seq::empty()
    } else {
        hex_seq(bytes.drop_last()) + seq![
            hex_digit((bytes.last() / 16) as nat),
            hex_digit((bytes.last() % 16) as nat),
        ]
    }
}

fn decimal_digit_str(d: u64) -> (r: &'static str)
    requires
        d < 10,
    ensures
        r@ == seq![decimal_digit(d as nat)],
{
    proof {
        reveal_strlit("0");
        reveal_strlit("1");
        reveal_strlit("2");
        reveal_strlit("3");
        reveal_strlit("4");
        reveal_strlit("5");
        reveal_strlit("6");
        reveal_strlit("7");
        reveal_strlit("8");
        reveal_strlit("9");
    }
    match d {
        0 => "0",
        1 => "1",
        2 => "2",
        3 => "3",
        4 => "4",
        5 => "5",
        6 => "6",
        7 => "7",
        8 => "8",
        _ => "9",
    }
}

fn hex_digit_str(d: u8) -> (r: &'static str)
    requires
        d < 16,
    ensures
        r@ == seq![hex_digit(d as nat)],
{
    proof {
        reveal_strlit("a");
        reveal_strlit("b");
        reveal_strlit("c");
        reveal_strlit("d");
        reveal_strlit("e");
        reveal_strlit("f");
    }
    if d < 10 {
        decimal_digit_str(d as u64)
    } else {
        match d {
            10 => "a",
            11 => "b",
            12 => "c",
            13 => "d",
            14 => "e",
            _ => "f",
        }
    }
}

/// The decimal writing of `n`.
pub fn format_u64(n: u64) -> (r: String)
    ensures
        r@ == decimal_seq(n as nat),
    decreases n,
{
    if n < 10 {
        String::from_str(decimal_digit_str(n))
    } else {
        let mut r = format_u64(n / 10);
        r.append(decimal_digit_str(n % 10));
        r
    }
}

proof fn lemma_digits_value_prefix_monotone(ds: Seq<char>, k: int)
    requires
        0 <= k <= ds.len(),
    ensures
        digits_value(ds.take(k)) <= digits_value(ds),
    decreases ds.len() - k,
{
    if k < ds.len() {
        lemma_digits_value_prefix_monotone(ds, k + 1);
        assert(ds.take(k + 1).drop_last() =~= ds.take(k));
    } else {
        assert(ds.take(k) =~= ds);
    }
}

proof fn lemma_mul_step(acc: nat, d: nat, max: nat)
    requires
        d <= 9,
        acc <= (max - d) / 10,
        d <= max,
    ensures
        acc * 10 + d <= max,
{
    assert(acc * 10 + d <= max) by (nonlinear_arith)
        requires
            d <= 9,
            acc <= (max - d) / 10,
            d <= max,
    ;
}

proof fn lemma_mul_overflow(acc: nat, d: nat, max: nat)
    requires
        d <= 9,
        d <= max,
        acc > (max - d) / 10,
    ensures
        acc * 10 + d > max,
{
    assert(acc * 10 + d > max) by (nonlinear_arith)
        requires
            d <= 9,
            d <= max,
            acc > (max - d) / 10,
    ;
}

/// Reads an unsigned decimal integer that fits a `u64`, as `u64::from_str` does.
pub fn parse_u64(s: &str) -> (r: Option<u64>)
    ensures
        match r {
            Some(v) => parse_unsigned_spec(s@, u64::MAX as nat) == Some(v as nat),
            None => parse_unsigned_spec(s@, u64::MAX as nat) is None,
        },
{
    let n = s.unicode_len();
    if n == 0 {
        return None;
    }
    let mut start: usize = 0;
    if s.get_char(0) == '+' {
        start = 1;
    }
    let ghost ds = unsigned_digits(s@);
    assert(ds =~= s@.subrange(start as int, n as int));
    if start == n {
        return None;
    }
    let mut i: usize = start;
    let mut acc: u64 = 0;
    while i < n
        invariant
            n == s@.len(),
            start <= i <= n,
            start < n,
            ds == unsigned_digits(s@),
            ds == s@.subrange(start as int, n as int),
            acc as nat == digits_value(ds.take(i - start)),
            all_decimal(ds.take(i - start)),
        decreases n - i,
    {
        let c = s.get_char(i);
        let ghost k = (i - start) as int;
        assert(ds[k] == c);
        let cu = c as u32;
        if !(48 <= cu && cu <= 57) {
            assert(!is_decimal_char(ds[k]));
            return None;
        }
        let d: u64 = (cu - 48) as u64;
        assert(ds.take(k + 1).drop_last() =~= ds.take(k));
        assert(ds.take(k + 1).last() == c);
        assert(decimal_value(c) == d);
        assert(digits_value(ds.take(k + 1)) == acc * 10 + d);
        if acc > (u64::MAX - d) / 10 {
            proof {
                lemma_mul_overflow(acc as nat, d as nat, u64::MAX as nat);
                lemma_digits_value_prefix_monotone(ds, k + 1);
            }
            return None;
        }
        proof {
            lemma_mul_step(acc as nat, d as nat, u64::MAX as nat);
        }
        acc = acc * 10 + d;
        assert forall|j: int| 0 <= j < k + 1 implies is_decimal_char(
            #[trigger] ds.take(k + 1)[j],
        ) by {
            if j < k {
                assert(ds.take(k + 1)[j] == ds.take(k)[j]);
            }
        }
        i = i + 1;
    }
    assert(ds.take(n - start) =~= ds);
    Some(acc)
}

/// Reads an unsigned decimal integer that fits a `u16`, as `u16::from_str` does.
pub fn parse_u16(s: &str) -> (r: Option<u16>)
    ensures
        match r {
            Some(v) => parse_unsigned_spec(s@, u16::MAX as nat) == Some(v as nat),
            None => parse_unsigned_spec(s@, u16::MAX as nat) is None,
        },
{
    match parse_u64(s) {
        Some(v) => {
            if v <= 65535 {
                Some(v as u16)
            } else {
                None
            }
        },
        None => None,
    }
}

/// Lower-case hexadecimal writing of `bytes`, two digits per byte.
pub fn hex_encode(bytes: &[u8]) -> (r: String)
    ensures
        r@ == hex_seq(bytes@),
{
    let mut output = String::new();
    let n = bytes.len();
    let mut i: usize = 0;
    while i < n
        invariant
            n == bytes@.len(),
            i <= n,
            output@ == hex_seq(bytes@.take(i as int)),
        decreases n - i,
    {
        let byte = bytes[i];
        let hi = byte >> 4;
        let lo = byte & 0x0f;
        assert(hi == byte / 16 && lo == byte % 16) by (bit_vector)
            requires
                hi == byte >> 4,
                lo == byte & 0x0f,
        ;
        output.append(hex_digit_str(hi));
        output.append(hex_digit_str(lo));
        assert(bytes@.take(i + 1).drop_last() =~= bytes@.take(i as int));
        i = i + 1;
    }
    assert(bytes@.take(n as int) =~= bytes@);
    output
}

proof fn lemma_decimal_digit_value(d: nat)
    requires
        d < 10,
    ensures
        is_decimal_char(decimal_digit(d)),
        decimal_value(decimal_digit(d)) == d,
{
}

/// Every decimal writing of a number consists of digits and reads back as
/// that number.
pub proof fn lemma_decimal_roundtrip(n: nat)
    ensures
        decimal_seq(n).len() > 0,
        all_decimal(decimal_seq(n)),
        digits_value(decimal_seq(n)) == n,
    decreases n,
{
    if n < 10 {
        lemma_decimal_digit_value(n);
        assert(decimal_seq(n).drop_last() =~= Seq::<char>::empty());
        assert(digits_value(Seq::<char>::empty()) == 0);
    } else {
        lemma_decimal_roundtrip(n / 10);
        lemma_decimal_digit_value(n % 10);
        let s = decimal_seq(n);
        assert(s.drop_last() =~= decimal_seq(n / 10));
        assert(s.last() == decimal_digit(n % 10));
        assert(digits_value(s) == (n / 10) * 10 + n % 10);
        assert forall|i: int| 0 <= i < s.len() implies is_decimal_char(#[trigger] s[i]) by {
            if i < s.len() - 1 {
                assert(s[i] == decimal_seq(n / 10)[i]);
            }
        }
    }
}

/// Writing a `u64` in decimal and reading it back gives the same number.
pub proof fn lemma_format_then_parse(n: u64)
    ensures
        parse_unsigned_spec(decimal_seq(n as nat), u64::MAX as nat) == Some(n as nat),
{
    lemma_decimal_roundtrip(n as nat);
    let s = decimal_seq(n as nat);
    assert(is_decimal_char(s[0]));
    assert(unsigned_digits(s) == s);
}

proof fn lemma_hex_digit_injective(a: nat, b: nat)
    requires
        a < 16,
        b < 16,
        hex_digit(a) == hex_digit(b),
    ensures
        a == b,
{
}

/// The hexadecimal writing has two characters per byte, all of them
/// lower-case hexadecimal digits.
pub proof fn lemma_hex_shape(bytes: Seq<u8>)
    ensures
        hex_seq(bytes).len() == 2 * bytes.len(),
        forall|i: int| 0 <= i < hex_seq(bytes).len() ==> is_lower_hex_char(#[trigger] hex_seq(bytes)[i]),
    decreases bytes.len(),
{
    if bytes.len() > 0 {
        lemma_hex_shape(bytes.drop_last());
        let p = hex_seq(bytes.drop_last());
        let s = hex_seq(bytes);
        assert forall|i: int| 0 <= i < s.len() implies is_lower_hex_char(#[trigger] s[i]) by {
            if i < p.len() {
                assert(s[i] == p[i]);
            }
        }
    }
}

/// Distinct byte strings have distinct hexadecimal writings.
pub proof fn lemma_hex_injective(a: Seq<u8>, b: Seq<u8>)
    requires
        hex_seq(a) == hex_seq(b),
    ensures
        a == b,
    decreases a.len(),
{
    lemma_hex_shape(a);
    lemma_hex_shape(b);
    if a.len() > 0 {
        let ha = hex_seq(a);
        let hb = hex_seq(b);
        let pa = hex_seq(a.drop_last());
        let pb = hex_seq(b.drop_last());
        lemma_hex_shape(a.drop_last());
        lemma_hex_shape(b.drop_last());
        assert(ha[ha.len() - 2] == hex_digit((a.last() / 16) as nat));
        assert(hb[hb.len() - 2] == hex_digit((b.last() / 16) as nat));
        assert(ha[ha.len() - 1] == hex_digit((a.last() % 16) as nat));
        assert(hb[hb.len() - 1] == hex_digit((b.last() % 16) as nat));
        lemma_hex_digit_injective((a.last() / 16) as nat, (b.last() / 16) as nat);
        lemma_hex_digit_injective((a.last() % 16) as nat, (b.last() % 16) as nat);
        assert(a.last() == b.last());
        assert(pa =~= ha.subrange(0, ha.len() - 2));
        assert(pb =~= hb.subrange(0, hb.len() - 2));
        lemma_hex_injective(a.drop_last(), b.drop_last());
        assert(a =~= a.drop_last().push(a.last()));
        assert(b =~= b.drop_last().push(b.last()));
    } else {
        assert(a =~= b);
    }
}

} // verus!
