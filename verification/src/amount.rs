//! Token quantities: unsigned 256-bit integers and the arithmetic on them.

use ethers::types::U256;
use vstd::prelude::*;

verus! {

/// A token quantity in its smallest unit: an unsigned integer below 2^256,
/// held as four 64-bit words, least significant first.
#[derive(Clone, Copy, Debug)]
pub struct Amount {
    pub limbs: [u64; 4],
}

/// 2^64, the weight of the second word.
pub open spec fn word_base() -> nat {
    0x1_0000_0000_0000_0000nat
}

/// 2^128, the weight of the third word.
pub open spec fn word_base_2() -> nat {
    0x1_0000_0000_0000_0000_0000_0000_0000_0000nat
}

/// 2^192, the weight of the fourth word.
pub open spec fn word_base_3() -> nat {
    0x1_0000_0000_0000_0000_0000_0000_0000_0000_0000_0000_0000_0000nat
}

/// 2^256, the first integer that no amount can hold.
pub open spec fn amount_limit() -> nat {
    0x1_0000_0000_0000_0000_0000_0000_0000_0000_0000_0000_0000_0000_0000_0000_0000_0000nat
}

/// The integer that four words stand for, least significant word first.
pub open spec fn limbs_value(limbs: Seq<u64>) -> nat {
    (limbs[0] as nat)
        + (limbs[1] as nat) * word_base()
        + (limbs[2] as nat) * word_base_2()
        + (limbs[3] as nat) * word_base_3()
}

impl View for Amount {
    type V = nat;

    open spec fn view(&self) -> nat {
        limbs_value(self.limbs@)
    }
}

impl Amount {
    /// The amount with the value of a 64-bit integer.
    pub fn from_u64(value: u64) -> (res: Amount)
        ensures
            res@ == value,
    {
        Amount { limbs: [value, 0, 0, 0] }
    }

    /// Zero.
    pub fn zero() -> (res: Amount)
        ensures
            res@ == 0,
    {
        Amount::from_u64(0)
    }

    /// Whether two amounts are the same integer.
    pub fn same_as(&self, other: &Amount) -> (res: bool)
        ensures
            res == (self@ == other@),
    {
        proof {
            if self@ == other@ {
                lemma_value_determines_limbs(self.limbs@, other.limbs@);
            }
        }
        self.limbs[0] == other.limbs[0] && self.limbs[1] == other.limbs[1] && self.limbs[2]
            == other.limbs[2] && self.limbs[3] == other.limbs[3]
    }
}

impl PartialEq for Amount {
    fn eq(&self, other: &Amount) -> (res: bool) {
        self.same_as(other)
    }
}

impl Eq for Amount {

}

impl vstd::std_specs::cmp::PartialEqSpecImpl for Amount {
    open spec fn obeys_eq_spec() -> bool {
        true
    }

    open spec fn eq_spec(&self, other: &Amount) -> bool {
        self@ == other@
    }
}

/// The difference of two amounts, where it is not negative.
///
/// Trusted: calls `U256::checked_sub` of the `ethers` crate on the two word
/// groups. The contract claims what its documentation says: the exact
/// difference, or `None` exactly when the subtrahend is the larger.
#[verifier::external_body]
pub(crate) fn checked_sub(a: &Amount, b: &Amount) -> (res: Option<Amount>)
    ensures
        res is Some <==> b@ <= a@,
        res matches Some(d) ==> d@ == a@ - b@,
{
    match U256(a.limbs).checked_sub(U256(b.limbs)) {
        Some(d) => Some(Amount { limbs: d.0 }),
        None => None,
    }
}

/// The product of two amounts, where it is below 2^256.
///
/// Trusted: calls `U256::checked_mul` of the `ethers` crate on the two word
/// groups. The contract claims what its documentation says: the exact
/// product, or `None` exactly when the product does not fit in 256 bits.
#[verifier::external_body]
pub(crate) fn checked_mul(a: &Amount, b: &Amount) -> (res: Option<Amount>)
    ensures
        res is Some <==> a@ * b@ < amount_limit(),
        res matches Some(p) ==> p@ == a@ * b@,
{
    match U256(a.limbs).checked_mul(U256(b.limbs)) {
        Some(p) => Some(Amount { limbs: p.0 }),
        None => None,
    }
}

/// The quotient of two amounts, rounded down.
///
/// Trusted: calls the division operator of `U256` of the `ethers` crate,
/// which panics on a zero divisor; the precondition leaves that out. The
/// contract claims that the result is the integer quotient.
#[verifier::external_body]
pub(crate) fn div(a: &Amount, b: &Amount) -> (res: Amount)
    requires
        b@ != 0,
    ensures
        res@ == a@ / b@,
{
    Amount { limbs: (U256(a.limbs) / U256(b.limbs)).0 }
}

/// Two groups of four words that stand for the same integer are word for
/// word the same.
pub proof fn lemma_value_determines_limbs(a: Seq<u64>, b: Seq<u64>)
    requires
        limbs_value(a) == limbs_value(b),
    ensures
        a[0] == b[0],
        a[1] == b[1],
        a[2] == b[2],
        a[3] == b[3],
{
    let base = 0x1_0000_0000_0000_0000int;
    let a_top = a[2] as int + base * a[3] as int;
    let b_top = b[2] as int + base * b[3] as int;
    let a_high = a[1] as int + base * a_top;
    let b_high = b[1] as int + base * b_top;
    assert(limbs_value(a) == a[0] as int + base * a_high);
    assert(limbs_value(b) == b[0] as int + base * b_high);
    lemma_split_is_unique(a[0] as int, a_high, b[0] as int, b_high);
    lemma_split_is_unique(a[1] as int, a_top, b[1] as int, b_top);
    lemma_split_is_unique(a[2] as int, a[3] as int, b[2] as int, b[3] as int);
}

/// An integer splits in one way only into a word and a multiple of 2^64.
proof fn lemma_split_is_unique(low_a: int, high_a: int, low_b: int, high_b: int)
    requires
        0 <= low_a < 0x1_0000_0000_0000_0000,
        0 <= low_b < 0x1_0000_0000_0000_0000,
        low_a + 0x1_0000_0000_0000_0000 * high_a == low_b + 0x1_0000_0000_0000_0000 * high_b,
    ensures
        low_a == low_b,
        high_a == high_b,
{
    if high_a < high_b {
        assert(0x1_0000_0000_0000_0000 * high_a + 0x1_0000_0000_0000_0000
            <= 0x1_0000_0000_0000_0000 * high_b);
    } else if high_b < high_a {
        assert(0x1_0000_0000_0000_0000 * high_b + 0x1_0000_0000_0000_0000
            <= 0x1_0000_0000_0000_0000 * high_a);
    }
}

} // verus!
