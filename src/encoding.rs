//! Base-62 encoding of integers into keys of a fixed number of digits.
use vstd::prelude::*;
use vstd::arithmetic::power::{pow, lemma_pow_positive};
use vstd::arithmetic::div_mod::lemma_fundamental_div_mod;
use vstd::string::*;

verus! {

/// Symbols of the key alphabet in ascending digit order: `[0-9][A-Z][a-z]`.
pub open spec fn alphabet() -> Seq<char> {
    "0123456789ABCDEFGHIJKLMNOPQRSTUVWXYZabcdefghijklmnopqrstuvwxyz"@
}

/// Digit value of one symbol of the alphabet.
pub open spec fn digit_value(c: char) -> int {
    let u = c as u32;
    if 48 <= u <= 57 {
        u - 48
    } else if 65 <= u <= 90 {
        u - 65 + 10
    } else if 97 <= u <= 122 {
        u - 97 + 36
    } else {
        0
    }
}

proof fn lemma_alphabet()
    ensures
        alphabet().len() == 62,
        forall|d: int| 0 <= d < 62 ==> #[trigger] digit_value(alphabet()[d]) == d,
{
    reveal_strlit("0123456789ABCDEFGHIJKLMNOPQRSTUVWXYZabcdefghijklmnopqrstuvwxyz");
}


/// Digit count of keys when none is configured.
pub const DEFAULT_NUMBER_DIGITS: usize = 8;

/// Widest key whose numbers still fit in a `u64` (`62^10 - 1 < 2^64`).
pub const MAX_NUMBER_DIGITS: usize = 10;

/// Number of symbols in the key alphabet.
pub const BASE: u64 = 62;

/// The key of `digits` symbols for `n`: its `digits` lowest base-62 digits,
/// most significant first. Higher digits are dropped.
pub open spec fn encode(n: nat, digits: nat) -> Seq<char>
    decreases digits,
{
    if digits == 0 {
        Seq::empty()
    } else {
        encode(n / 62, (digits - 1) as nat).push(alphabet()[(n % 62) as int])
    }
}

/// The number that a key denotes, read as base 62, most significant first.
pub open spec fn decode(s: Seq<char>) -> int
    decreases s.len(),
{
    if s.len() == 0 {
        0
    } else {
        decode(s.drop_last()) * 62 + digit_value(s.last())
    }
}

/// Largest number that a key of `digits` symbols can hold.
pub open spec fn max_number_spec(digits: nat) -> int {
    pow(62, digits) - 1
}

/// A key has exactly the configured number of symbols.
pub proof fn lemma_encode_len(n: nat, digits: nat)
    ensures
        encode(n, digits).len() == digits,
    decreases digits,
{
    if digits > 0 {
        lemma_encode_len(n / 62, (digits - 1) as nat);
    }
}

/// Every number from zero up to the largest that `digits` symbols can hold
/// encodes to a key of exactly `digits` symbols that decodes back to it.
pub proof fn lemma_encode_decode(n: nat, digits: nat)
    requires
        n <= max_number_spec(digits),
    ensures
        encode(n, digits).len() == digits,
        decode(encode(n, digits)) == n,
    decreases digits,
{
    lemma_encode_len(n, digits);
    lemma_alphabet();
    reveal(pow);
    if digits > 0 {
        let d = (digits - 1) as nat;
        let q = n / 62;
        lemma_fundamental_div_mod(n as int, 62);
        lemma_pow_positive(62, d);
        assert(q <= max_number_spec(d)) by (nonlinear_arith)
            requires
                n == 62 * q + n % 62,
                0 <= n % 62 < 62,
                n <= pow(62, digits) - 1,
                pow(62, digits) == 62 * pow(62, d),
        ;
        lemma_encode_decode(q, d);
        let s = encode(n, digits);
        assert(s.drop_last() == encode(q, d));
    } else {
        assert(n == 0);
    }
}

/// The largest number a key of at most `MAX_NUMBER_DIGITS` symbols can hold
/// stays below `62^10`.
pub proof fn lemma_max_number_bound(digits: nat)
    requires
        digits <= MAX_NUMBER_DIGITS,
    ensures
        0 <= max_number_spec(digits) < 839299365868340224,
{
    vstd::arithmetic::power::lemma_pow_increases(62, digits, 10);
    lemma_pow_positive(62, digits);
    reveal_with_fuel(pow, 11);
    assert(pow(62, 10) == 839299365868340224);
}

/// Largest number that a key of `digits` base-62 symbols can hold,
/// `62^digits - 1`.
pub fn max_number(digits: usize) -> (r: u64)
    requires
        digits <= MAX_NUMBER_DIGITS,
    ensures
        r == max_number_spec(digits as nat),
{
    let mut p: u64 = 1;
    let mut i: usize = 0;
    proof {
        reveal(pow);
    }
    while i < digits
        invariant
            i <= digits <= MAX_NUMBER_DIGITS,
            p == pow(62, i as nat),
        decreases digits - i,
    {
        proof {
            reveal(pow);
            vstd::arithmetic::power::lemma_pow_increases(62, (i + 1) as nat, 10);
            reveal_with_fuel(pow, 11);
            assert(pow(62, 10) == 839299365868340224);
            assert(pow(62, (i + 1) as nat) == 62 * pow(62, i as nat));
        }
        p = p * BASE;
        i = i + 1;
    }
    proof {
        lemma_pow_positive(62, digits as nat);
    }
    p - 1
}

/// Writes `number` as a key of exactly `digits` base-62 symbols, most
/// significant first. Digits above `digits` are dropped, so the key decodes
/// back to `number` exactly when `number <= max_number(digits)`.
pub fn convert_to_string(number: u64, digits: usize) -> (r: String)
    ensures
        r@ == encode(number as nat, digits as nat),
        r@.len() == digits,
        number <= max_number_spec(digits as nat) ==> decode(r@) == number,
{
    let symbols = "0123456789ABCDEFGHIJKLMNOPQRSTUVWXYZabcdefghijklmnopqrstuvwxyz";
    proof {
        lemma_alphabet();
    }
    let mut result = String::new();
    let mut num: u64 = number;
    let mut i: usize = 0;
    while i < digits
        invariant
            i <= digits,
            symbols@ == alphabet(),
            alphabet().len() == 62,
            encode(number as nat, digits as nat) == encode(num as nat, (digits - i) as nat) + result@,
        decreases digits - i,
    {
        let remainder = (num % BASE) as usize;
        let symbol = symbols.substring_char(remainder, remainder + 1);
        assert(symbol@ == seq![alphabet()[remainder as int]]);
        let ghost rest = result@;
        result = String::from_str(symbol).concat(result.as_str());
        proof {
            let k = (digits - i) as nat;
            assert(encode(num as nat, k) == encode((num / BASE) as nat, (k - 1) as nat).push(
                alphabet()[remainder as int],
            ));
            assert(encode(num as nat, k) + rest =~= encode((num / BASE) as nat, (k - 1) as nat)
                + result@);
        }
        num = num / BASE;
        i = i + 1;
    }
    proof {
        assert(encode(num as nat, 0) + result@ =~= result@);
        lemma_encode_len(number as nat, digits as nat);
        if number <= max_number_spec(digits as nat) {
            lemma_encode_decode(number as nat, digits as nat);
        }
    }
    result
}

} // verus!
