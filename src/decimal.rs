use vstd::prelude::*;

verus! {

/// The ten decimal digits, in order of value.
pub open spec fn digit_chars() -> Seq<char> {
    seq!['0', '1', '2', '3', '4', '5', '6', '7', '8', '9']
}

/// The decimal digits of `n`, most significant first, with no sign and no
/// leading zero.
pub open spec fn decimal_of(n: nat) -> Seq<char>
    decreases n,
{
    if n < 10 {
        seq![digit_chars()[n as int]]
    } else {
        decimal_of(n / 10).push(digit_chars()[(n % 10) as int])
    }
}

pub open spec fn is_digit(c: char) -> bool {
    '0' <= c && c <= '9'
}

pub open spec fn digit_value(c: char) -> nat {
    (c as u32 - '0' as u32) as nat
}

/// The number that the digits `s` write in base ten.
pub open spec fn digits_value(s: Seq<char>) -> nat
    decreases s.len(),
{
    if s.len() == 0 {
        0
    } else {
        digits_value(s.drop_last()) * 10 + digit_value(s.last())
    }
}

/// `s` without a leading `+`.
pub open spec fn unsigned_digits(s: Seq<char>) -> Seq<char> {
    if s.len() > 0 && s[0] == '+' {
        s.drop_first()
    } else {
        s
    }
}

/// Whether `s` is an optional `+` followed by one or more decimal digits
/// whose value fits in 128 bits.
pub open spec fn parses_as_u128(s: Seq<char>) -> bool {
    let t = unsigned_digits(s);
    &&& t.len() > 0
    &&& forall|i: int| 0 <= i < t.len() ==> is_digit(#[trigger] t[i])
    &&& digits_value(t) <= u128::MAX
}

/// The number that `s` writes, where `parses_as_u128(s)`.
pub open spec fn parsed_value(s: Seq<char>) -> nat {
    digits_value(unsigned_digits(s))
}

/// Relies on `itoa::Buffer::format` for `u128`: the decimal digits of `n`,
/// most significant first, with no sign and no leading zero.
#[verifier::external_body]
pub(crate) fn format_u128(n: u128) -> (r: String)
    ensures
        r@ == decimal_of(n as nat),
{
    itoa::Buffer::new().format(n).to_string()
}

/// Relies on `str::parse::<u128>`: it accepts an optional `+` followed by
/// one or more ASCII digits whose value fits in 128 bits, and nothing else.
#[verifier::external_body]
pub(crate) fn parse_u128(s: &str) -> (r: Option<u128>)
    ensures
        r is Some <==> parses_as_u128(s@),
        r matches Some(v) ==> v as nat == parsed_value(s@),
{
    s.parse::<u128>().ok()
}

proof fn lemma_digit_char(d: nat)
    requires
        d < 10,
    ensures
        is_digit(digit_chars()[d as int]),
        digit_value(digit_chars()[d as int]) == d,
{
    let c = digit_chars();
    assert(c[0] == '0' && c[1] == '1' && c[2] == '2' && c[3] == '3' && c[4] == '4');
    assert(c[5] == '5' && c[6] == '6' && c[7] == '7' && c[8] == '8' && c[9] == '9');
}

/// The decimal digits of a number are digits, and write that number.
pub proof fn lemma_decimal_of(n: nat)
    ensures
        decimal_of(n).len() > 0,
        forall|i: int| 0 <= i < decimal_of(n).len() ==> is_digit(#[trigger] decimal_of(n)[i]),
        digits_value(decimal_of(n)) == n,
    decreases n,
{
    if n < 10 {
        lemma_digit_char(n);
        let s = decimal_of(n);
        assert(s.drop_last() =~= Seq::<char>::empty());
        assert(digits_value(s.drop_last()) == 0);
        assert(s.last() == digit_chars()[n as int]);
    } else {
        lemma_decimal_of(n / 10);
        lemma_digit_char(n % 10);
        let s = decimal_of(n);
        let prev = decimal_of(n / 10);
        assert(s.drop_last() =~= prev);
        assert(s.last() == digit_chars()[(n % 10) as int]);
        assert forall|i: int| 0 <= i < s.len() implies is_digit(#[trigger] s[i]) by {
            if i < prev.len() {
                assert(s[i] == prev[i]);
            }
        }
        assert(digits_value(s) == (n / 10) * 10 + n % 10);
        assert((n / 10) * 10 + n % 10 == n) by (nonlinear_arith);
    }
}

/// Writing a number in decimal and reading it back gives that number.
pub proof fn lemma_decimal_round_trip(n: u128)
    ensures
        parses_as_u128(decimal_of(n as nat)),
        parsed_value(decimal_of(n as nat)) == n,
{
    lemma_decimal_of(n as nat);
    assert(is_digit(decimal_of(n as nat)[0]));
}

} // verus!
