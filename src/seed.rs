//! The seed: an unsigned 256-bit integer held as four little-endian limbs,
//! its conversions from integers and decimal strings, and the draw operation.
use vstd::arithmetic::div_mod::lemma_fundamental_div_mod_converse;
use vstd::prelude::*;

verus! {

/// Weight of one 64-bit limb.
pub open spec fn limb_base() -> nat {
    0x1_0000_0000_0000_0000
}

/// One more than the largest value a `U256` can hold.
pub open spec fn u256_bound() -> nat {
    limb_base() * limb_base() * limb_base() * limb_base()
}

/// An unsigned 256-bit integer, least significant limb first.
#[derive(Clone, Copy, Debug, PartialEq, Eq)]
pub struct U256 {
    limbs: [u64; 4],
}

impl View for U256 {
    type V = nat;

    closed spec fn view(&self) -> nat {
        self.limbs@[0] as nat + limb_base() * (self.limbs@[1] as nat + limb_base() * (
        self.limbs@[2] as nat + limb_base() * (self.limbs@[3] as nat)))
    }
}

/// The seed text is not a non-empty string of decimal digits whose value fits
/// in 256 bits, or the seed integer is negative.
#[derive(Clone, Copy, Debug, PartialEq, Eq)]
pub struct SeedFormatError;

#[verifier::external_type_specification]
#[verifier::external_body]
pub struct ExParseError(ruint::ParseError);

/// A decimal digit character.
pub open spec fn is_digit(c: char) -> bool {
    '0' <= c && c <= '9'
}

/// A non-empty string of decimal digits.
pub open spec fn is_decimal(s: Seq<char>) -> bool {
    s.len() > 0 && forall|i: int| 0 <= i < s.len() ==> #[trigger] is_digit(s[i])
}

/// The number that a string of decimal digits denotes.
pub open spec fn decimal_value(s: Seq<char>) -> nat
    decreases s.len(),
{
    if s.len() == 0 {
        0
    } else {
        decimal_value(s.drop_last()) * 10 + ((s.last() as int - '0' as int) as nat)
    }
}

/// The seed that a decimal string stands for, if it is one.
pub open spec fn parse_seed(s: Seq<char>) -> Option<nat> {
    if is_decimal(s) && decimal_value(s) < u256_bound() {
        Some(decimal_value(s))
    } else {
        None
    }
}

/// Relies on ruint's `Uint::from_str_radix` in base 10: on a string of
/// decimal digits it fails exactly when the value does not fit in 256 bits,
/// and otherwise returns that value.
#[verifier::external_body]
fn parse_decimal_limbs(s: &str) -> (r: Result<U256, ruint::ParseError>)
    ensures
        is_decimal(s@) ==> (r is Ok <==> decimal_value(s@) < u256_bound()),
        is_decimal(s@) && r is Ok ==> r->Ok_0@ == decimal_value(s@),
{
    match ruint::aliases::U256::from_str_radix(s, 10) {
        Ok(v) => Ok(U256 { limbs: v.into_limbs() }),
        Err(e) => Err(e),
    }
}

/// Relies on ruint's `Uint::div_rem`: quotient and remainder of a division by
/// a non-zero divisor.
#[verifier::external_body]
fn div_rem_limbs(n: U256, d: u64) -> (r: (U256, u64))
    requires
        d > 0,
    ensures
        r.0@ * (d as nat) + (r.1 as nat) == n@,
        r.1 < d,
{
    let (q, m) = ruint::aliases::U256::from_limbs(n.limbs).div_rem(
        ruint::aliases::U256::from(d),
    );
    (U256 { limbs: q.into_limbs() }, m.as_limbs()[0])
}

impl U256 {
    /// The value of a machine integer.
    pub fn from_u64(n: u64) -> (r: U256)
        ensures
            r@ == n as nat,
    {
        U256 { limbs: [n, 0u64, 0u64, 0u64] }
    }

    /// Divides the value by `d` in place and returns the remainder.
    pub fn div_rem_assign(&mut self, d: u64) -> (r: u64)
        requires
            d > 0,
        ensures
            r as nat == old(self)@ % (d as nat),
            final(self)@ == old(self)@ / (d as nat),
    {
        let (q, m) = div_rem_limbs(*self, d);
        proof {
            lemma_fundamental_div_mod_converse(
                self@ as int,
                d as int,
                q@ as int,
                m as int,
            );
        }
        *self = q;
        m
    }
}

/// Checks that every character is a decimal digit and that there is one.
fn all_digits(s: &str) -> (r: bool)
    ensures
        r == is_decimal(s@),
{
    let n = s.unicode_len();
    if n == 0 {
        return false;
    }
    let mut i: usize = 0;
    while i < n
        invariant
            n as nat == s@.len(),
            i <= n,
            forall|j: int| 0 <= j < i ==> #[trigger] is_digit(s@[j]),
        decreases n - i,
    {
        let c = s.get_char(i);
        if !('0' <= c && c <= '9') {
            assert(!is_digit(s@[i as int]));
            return false;
        }
        i = i + 1;
    }
    true
}

/// Reads a seed from decimal text: digits only, at least one, value below
/// 2^256.
pub fn parse_decimal(s: &str) -> (r: Result<U256, SeedFormatError>)
    ensures
        match parse_seed(s@) {
            Some(v) => r is Ok && r->Ok_0@ == v,
            None => r == Err::<U256, SeedFormatError>(SeedFormatError),
        },
{
    if !all_digits(s) {
        return Err(SeedFormatError);
    }
    match parse_decimal_limbs(s) {
        Ok(v) => Ok(v),
        Err(_) => Err(SeedFormatError),
    }
}

/// A value that can serve as a marble's seed: a non-negative integer, or
/// its decimal text.
pub trait Seedable: Sized {
    /// The seed this value stands for; `None` when it stands for none.
    spec fn seed_value(&self) -> Option<nat>;

    /// Converts to a seed, failing exactly when the value stands for none.
    fn into_seed(self) -> (r: Result<U256, SeedFormatError>)
        ensures
            match self.seed_value() {
                Some(v) => r is Ok && r->Ok_0@ == v,
                None => r is Err,
            },
    ;
}

impl Seedable for U256 {
    open spec fn seed_value(&self) -> Option<nat> {
        Some(self@)
    }

    fn into_seed(self) -> (r: Result<U256, SeedFormatError>) {
        Ok(self)
    }
}

impl Seedable for u64 {
    open spec fn seed_value(&self) -> Option<nat> {
        Some(*self as nat)
    }

    fn into_seed(self) -> (r: Result<U256, SeedFormatError>) {
        Ok(U256::from_u64(self))
    }
}

impl Seedable for u32 {
    open spec fn seed_value(&self) -> Option<nat> {
        Some(*self as nat)
    }

    fn into_seed(self) -> (r: Result<U256, SeedFormatError>) {
        Ok(U256::from_u64(self as u64))
    }
}

impl Seedable for usize {
    open spec fn seed_value(&self) -> Option<nat> {
        Some(*self as nat)
    }

    fn into_seed(self) -> (r: Result<U256, SeedFormatError>) {
        Ok(U256::from_u64(self as u64))
    }
}

impl Seedable for i32 {
    open spec fn seed_value(&self) -> Option<nat> {
        if *self >= 0 {
            Some(*self as nat)
        } else {
            None
        }
    }

    fn into_seed(self) -> (r: Result<U256, SeedFormatError>) {
        if self >= 0 {
            Ok(U256::from_u64(self as u64))
        } else {
            Err(SeedFormatError)
        }
    }
}

impl Seedable for String {
    open spec fn seed_value(&self) -> Option<nat> {
        parse_seed(self@)
    }

    fn into_seed(self) -> (r: Result<U256, SeedFormatError>) {
        parse_decimal(self.as_str())
    }
}

impl<'a> Seedable for &'a str {
    open spec fn seed_value(&self) -> Option<nat> {
        parse_seed(self@)
    }

    fn into_seed(self) -> (r: Result<U256, SeedFormatError>) {
        parse_decimal(self)
    }
}

} // verus!
