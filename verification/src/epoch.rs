//! Positions within the chain, expressed as a fraction `index / length` of
//! the way through epoch `number`, with exact rational ordering.

use vstd::prelude::*;

verus! {

/// Upper bound (exclusive) of the `number` sub-field of the wire format.
pub const EPOCH_NUMBER_LIMIT: u64 = 0x100_0000;
/// Upper bound (exclusive) of the `index` and `length` sub-fields.
pub const EPOCH_INDEX_LIMIT: u64 = 0x1_0000;

/// A position within the chain: the fraction `index / length` of the way
/// through epoch `number`. A `length` of zero stands for the degenerate
/// fraction zero; a triple with `index >= length > 0` or with
/// `index > length == 0` is malformed but still carries a rational value,
/// because the legacy validation regime compares such triples without
/// rejecting them.
#[derive(Clone, Copy, Debug, PartialEq, Eq, Structural)]
pub struct EpochFraction {
    /// The epoch the position lies in (or starts counting from).
    pub number: u64,
    /// Numerator of the fractional part.
    pub index: u64,
    /// Denominator of the fractional part; zero stands for the fraction zero.
    pub length: u64,
}

impl EpochFraction {
    /// Well-formed positions either have the degenerate zero fraction or an
    /// index strictly below the length.
    pub open spec fn spec_well_formed(self) -> bool {
        (self.length == 0 && self.index == 0) || (0 < self.length && self.index < self.length)
    }

    /// The triple fits the fixed sub-field widths of the wire format.
    pub open spec fn spec_fits(self) -> bool {
        self.number < EPOCH_NUMBER_LIMIT && self.index < EPOCH_INDEX_LIMIT && self.length
            < EPOCH_INDEX_LIMIT
    }

    /// Numerator of the exact rational value of the position, taken over
    /// [`Self::spec_denominator`]: the value is `number + index / length`,
    /// with a zero `length` read as the fraction zero.
    pub open spec fn spec_numerator(self) -> int {
        if self.length == 0 {
            self.number as int
        } else {
            self.number * self.length + self.index
        }
    }

    /// Denominator of the exact rational value of the position.
    pub open spec fn spec_denominator(self) -> int {
        if self.length == 0 {
            1
        } else {
            self.length as int
        }
    }

    /// Strict rational ordering: `self` lies strictly before `other` on the
    /// chain. Total over all triples, malformed ones included.
    pub open spec fn spec_lt(self, other: Self) -> bool {
        self.spec_numerator() * other.spec_denominator() < other.spec_numerator()
            * self.spec_denominator()
    }

    /// Non-strict rational ordering.
    pub open spec fn spec_le(self, other: Self) -> bool {
        !other.spec_lt(self)
    }

    /// `self` lies strictly before the position `base + delta`, the sum taken
    /// over exact rationals. This is the comparison a relative epoch lock
    /// needs: `base` is where the spent output was committed and `delta` the
    /// distance the descriptor demands.
    pub open spec fn spec_lt_sum(self, base: Self, delta: Self) -> bool {
        self.spec_numerator() * (base.spec_denominator() * delta.spec_denominator()) < (
        base.spec_numerator() * delta.spec_denominator() + delta.spec_numerator()
            * base.spec_denominator()) * self.spec_denominator()
    }

    /// Whether the position is well-formed.
    pub fn is_well_formed(&self) -> (r: bool)
        ensures
            r == self.spec_well_formed(),
    {
        (self.length == 0 && self.index == 0) || (self.length > 0 && self.index < self.length)
    }

    /// Whether the triple fits the fixed sub-field widths of the wire format.
    pub fn fits(&self) -> (r: bool)
        ensures
            r == self.spec_fits(),
    {
        self.number < EPOCH_NUMBER_LIMIT && self.index < EPOCH_INDEX_LIMIT && self.length
            < EPOCH_INDEX_LIMIT
    }

    /// Numerator of the exact rational value, computed without overflow.
    fn numerator_u64(&self) -> (r: u64)
        requires
            self.spec_fits(),
        ensures
            r == self.spec_numerator(),
            r < 0x100_0000_0000,
    {
        if self.length == 0 {
            self.number
        } else {
            proof {
                assert(self.number * self.length <= 0xFF_FFFF * 0xFFFF) by (nonlinear_arith)
                    requires
                        self.number <= 0xFF_FFFF,
                        self.length <= 0xFFFF,
                ;
            }
            self.number * self.length + self.index
        }
    }

    /// Denominator of the exact rational value.
    fn denominator_u64(&self) -> (r: u64)
        requires
            self.spec_fits(),
        ensures
            r == self.spec_denominator(),
            1 <= r < EPOCH_INDEX_LIMIT,
    {
        if self.length == 0 {
            1
        } else {
            self.length
        }
    }

    /// Strict rational ordering, decided by cross-multiplication.
    pub fn lt(&self, other: &Self) -> (r: bool)
        requires
            self.spec_fits(),
            other.spec_fits(),
        ensures
            r == self.spec_lt(*other),
    {
        let na = self.numerator_u64();
        let da = self.denominator_u64();
        let nb = other.numerator_u64();
        let db = other.denominator_u64();
        proof {
            assert(na * db < 0x100_0000_0000 * 0x1_0000) by (nonlinear_arith)
                requires
                    na < 0x100_0000_0000,
                    db < 0x1_0000,
            ;
            assert(nb * da < 0x100_0000_0000 * 0x1_0000) by (nonlinear_arith)
                requires
                    nb < 0x100_0000_0000,
                    da < 0x1_0000,
            ;
        }
        na * db < nb * da
    }

    /// Non-strict rational ordering.
    pub fn le(&self, other: &Self) -> (r: bool)
        requires
            self.spec_fits(),
            other.spec_fits(),
        ensures
            r == self.spec_le(*other),
    {
        !other.lt(self)
    }

    /// Whether `self` lies strictly before `base + delta`, the sum taken over
    /// exact rationals.
    pub fn lt_sum(&self, base: &Self, delta: &Self) -> (r: bool)
        requires
            self.spec_fits(),
            base.spec_fits(),
            delta.spec_fits(),
        ensures
            r == self.spec_lt_sum(*base, *delta),
    {
        let nt: u128 = self.numerator_u64() as u128;
        let dt: u128 = self.denominator_u64() as u128;
        let nb: u128 = base.numerator_u64() as u128;
        let db: u128 = base.denominator_u64() as u128;
        let nd: u128 = delta.numerator_u64() as u128;
        let dd: u128 = delta.denominator_u64() as u128;
        proof {
            assert(db * dd < 0x1_0000 * 0x1_0000) by (nonlinear_arith)
                requires
                    db < 0x1_0000,
                    dd < 0x1_0000,
            ;
            assert(nt * (db * dd) < 0x100_0000_0000 * (0x1_0000 * 0x1_0000)) by (nonlinear_arith)
                requires
                    nt < 0x100_0000_0000,
                    db * dd < 0x1_0000 * 0x1_0000,
            ;
            assert(nb * dd < 0x100_0000_0000 * 0x1_0000) by (nonlinear_arith)
                requires
                    nb < 0x100_0000_0000,
                    dd < 0x1_0000,
            ;
            assert(nd * db < 0x100_0000_0000 * 0x1_0000) by (nonlinear_arith)
                requires
                    nd < 0x100_0000_0000,
                    db < 0x1_0000,
            ;
            assert((nb * dd + nd * db) * dt < 0x2_0000_0000_0000_0000 * 0x1_0000)
                by (nonlinear_arith)
                requires
                    nb * dd + nd * db < 0x2_0000_0000_0000_0000,
                    dt < 0x1_0000,
            ;
        }
        nt * (db * dd) < (nb * dd + nd * db) * dt
    }

    /// Normalized comparison key: whole epochs first, then the remaining
    /// fraction, with `length == 0` read as the fraction `0 / 1`. The key
    /// carries the same rational value as the position itself.
    pub fn to_rational(&self) -> (r: (u64, u64, u64))
        requires
            self.spec_fits(),
        ensures
            r.2 == self.spec_denominator(),
            r.0 * r.2 + r.1 == self.spec_numerator(),
            r.1 < r.2,
    {
        if self.length == 0 {
            (self.number, 0, 1)
        } else {
            let whole: u64 = self.number + self.index / self.length;
            let rest: u64 = self.index % self.length;
            proof {
                vstd::arithmetic::div_mod::lemma_fundamental_div_mod(
                    self.index as int,
                    self.length as int,
                );
                assert((self.number + self.index / self.length) * self.length == self.number
                    * self.length + (self.index / self.length) * self.length)
                    by (nonlinear_arith);
                assert(self.length * (self.index / self.length) == (self.index / self.length)
                    * self.length) by (nonlinear_arith);
            }
            (whole, rest, self.length)
        }
    }
}

/// The well-formedness boundary: the degenerate zero fraction is well-formed
/// for any epoch, an index strictly below a positive length is well-formed,
/// and everything else is malformed.
pub proof fn lemma_well_formed_boundary(number: u64, k: u64, l: u64)
    ensures
        (EpochFraction { number, index: 0, length: 0 }).spec_well_formed(),
        0 < l && k < l ==> (EpochFraction { number, index: k, length: l }).spec_well_formed(),
        k >= l > 0 ==> !(EpochFraction { number, index: k, length: l }).spec_well_formed(),
        k > 0 && l == 0 ==> !(EpochFraction { number, index: k, length: l }).spec_well_formed(),
{
}

/// Among well-formed positions in the same epoch, the rational ordering is
/// exactly the ordering of the fractional parts `index / length`, with a zero
/// `length` read as `0 / 1`.
pub proof fn lemma_same_number_orders_by_fraction(a: EpochFraction, b: EpochFraction)
    requires
        a.spec_well_formed(),
        b.spec_well_formed(),
        a.number == b.number,
    ensures
        a.spec_lt(b) <==> a.index * b.spec_denominator() < b.index * a.spec_denominator(),
{
    let n = a.number as int;
    let da = a.spec_denominator();
    let db = b.spec_denominator();
    let ia = a.index as int;
    let ib = b.index as int;
    assert(a.spec_numerator() == n * da + ia);
    assert(b.spec_numerator() == n * db + ib);
    assert((n * da + ia) * db == n * (da * db) + ia * db) by (nonlinear_arith);
    assert((n * db + ib) * da == n * (da * db) + ib * da) by (nonlinear_arith);
}

/// Lexicographic comparison splits a quotient-remainder form: with both
/// remainders below the shared modulus, the whole parts decide, and equal
/// whole parts leave the remainders to decide.
proof fn lemma_lex_split(wa: int, wb: int, x: int, y: int, d: int)
    by (nonlinear_arith)
    requires
        d > 0,
        0 <= x < d,
        0 <= y < d,
    ensures
        (wa * d + x < wb * d + y) <==> (wa < wb || (wa == wb && x < y)),
{
}

/// The rational ordering is the lexicographic ordering of the normalized key
/// that [`EpochFraction::to_rational`] computes: whole epochs first and, when
/// those are equal, the remaining fractions compared by cross-multiplication.
pub proof fn lemma_order_by_normalized_key(a: EpochFraction, b: EpochFraction)
    ensures
        a.spec_lt(b) <==> (a.spec_numerator() / a.spec_denominator() < b.spec_numerator()
            / b.spec_denominator() || (a.spec_numerator() / a.spec_denominator()
            == b.spec_numerator() / b.spec_denominator() && (a.spec_numerator()
            % a.spec_denominator()) * b.spec_denominator() < (b.spec_numerator()
            % b.spec_denominator()) * a.spec_denominator())),
{
    let na = a.spec_numerator();
    let da = a.spec_denominator();
    let nb = b.spec_numerator();
    let db = b.spec_denominator();
    let wa = na / da;
    let ra = na % da;
    let wb = nb / db;
    let rb = nb % db;
    vstd::arithmetic::div_mod::lemma_fundamental_div_mod(na, da);
    vstd::arithmetic::div_mod::lemma_fundamental_div_mod(nb, db);
    let dd = da * db;
    assert(dd > 0) by (nonlinear_arith)
        requires
            da >= 1,
            db >= 1,
            dd == da * db,
    ;
    assert(na * db == wa * dd + ra * db) by (nonlinear_arith)
        requires
            na == da * wa + ra,
            dd == da * db,
    ;
    assert(nb * da == wb * dd + rb * da) by (nonlinear_arith)
        requires
            nb == db * wb + rb,
            dd == da * db,
    ;
    assert(0 <= ra * db < dd) by (nonlinear_arith)
        requires
            0 <= ra < da,
            db >= 1,
            dd == da * db,
    ;
    assert(0 <= rb * da < dd) by (nonlinear_arith)
        requires
            0 <= rb < db,
            da >= 1,
            dd == da * db,
    ;
    lemma_lex_split(wa, wb, ra * db, rb * da, dd);
}

/// The rational ordering is total: any two positions compare.
pub proof fn lemma_order_total(a: EpochFraction, b: EpochFraction)
    ensures
        a.spec_lt(b) || b.spec_lt(a) || a.spec_numerator() * b.spec_denominator()
            == b.spec_numerator() * a.spec_denominator(),
{
}

/// The rational ordering is transitive.
pub proof fn lemma_order_transitive(a: EpochFraction, b: EpochFraction, c: EpochFraction)
    requires
        a.spec_lt(b),
        b.spec_lt(c),
    ensures
        a.spec_lt(c),
{
    let na = a.spec_numerator();
    let nb = b.spec_numerator();
    let nc = c.spec_numerator();
    let da = a.spec_denominator();
    let db = b.spec_denominator();
    let dc = c.spec_denominator();
    assert(na * dc < nc * da) by (nonlinear_arith)
        requires
            na * db < nb * da,
            nb * dc < nc * db,
            na >= 0,
            nb >= 0,
            nc >= 0,
            da >= 1,
            db >= 1,
            dc >= 1,
    ;
}

} // verus!
