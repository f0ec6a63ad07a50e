//! The fixed-shape status vector: seventeen named numeric slots in one
//! global order shared by every producer and consumer of stat bundles.
//!
//! Entries are raw fixed-point values (see `limits`): a slot holding `x`
//! stands for the rational `x / SCALE` when the vector carries fractional
//! data, or for the plain integer `x` when it carries already-rounded data.

use vstd::prelude::*;
use crate::limits::{SCALE, B_ENHANCE_RAW, B_STATUS, B_DOT, MAX_STAT};
use crate::round::{round_cy, ceil_scale, round_scaled, ceil_scaled, lemma_ceil_scale_bound};

verus! {

/// Number of named stat slots; the slot order is fixed globally:
/// hp, atk, def, magic_str, magic_def, physical_critical, magic_critical,
/// dodge, life_steal, wave_hp_recovery, wave_energy_recovery,
/// physical_penetrate, magic_penetrate, energy_reduce_rate,
/// hp_recovery_rate, energy_recovery_rate, accuracy.
pub const STATUS_LEN: usize = 17;

pub open spec fn fits_i128(x: int) -> bool {
    i128::MIN <= x <= i128::MAX
}

/// Every entry of `a` has magnitude at most `b`.
pub open spec fn seq_bounded(a: Seq<int>, b: int) -> bool {
    forall|i: int| 0 <= i < a.len() ==> -b <= #[trigger] a[i] <= b
}

pub open spec fn seq_add(a: Seq<int>, b: Seq<int>) -> Seq<int> {
    Seq::new(a.len(), |i: int| a[i] + b[i])
}

pub open spec fn seq_sub(a: Seq<int>, b: Seq<int>) -> Seq<int> {
    Seq::new(a.len(), |i: int| a[i] - b[i])
}

pub open spec fn seq_scale(a: Seq<int>, k: int) -> Seq<int> {
    Seq::new(a.len(), |i: int| a[i] * k)
}

pub open spec fn seq_emul(a: Seq<int>, b: Seq<int>) -> Seq<int> {
    Seq::new(a.len(), |i: int| a[i] * b[i])
}

pub open spec fn seq_round(a: Seq<int>) -> Seq<int> {
    Seq::new(a.len(), |i: int| round_cy(a[i]))
}

/// Per-slot ceiling of `a[i] / SCALE`, re-expressed as a raw fixed-point
/// value (hence the multiplication by `SCALE`).
pub open spec fn seq_ceil_scale(a: Seq<int>) -> Seq<int> {
    Seq::new(a.len(), |i: int| SCALE * ceil_scale(a[i]))
}

pub open spec fn zero_status() -> Seq<int> {
    Seq::new(STATUS_LEN as nat, |i: int| 0)
}

pub open spec fn dot_prefix(a: Seq<int>, b: Seq<int>, n: int) -> int
    decreases n,
{
    if n <= 0 {
        0
    } else {
        dot_prefix(a, b, n - 1) + a[n - 1] * b[n - 1]
    }
}

pub open spec fn dot_spec(a: Seq<int>, b: Seq<int>) -> int {
    dot_prefix(a, b, a.len() as int)
}

/// `|x| <= a` and `|y| <= b` bound the product by `a * b`.
pub proof fn lemma_abs_mul_bound(x: int, y: int, a: int, b: int)
    requires
        0 <= a,
        0 <= b,
        -a <= x <= a,
        -b <= y <= b,
    ensures
        -(a * b) <= x * y <= a * b,
{
    assert(-(a * b) <= x * y <= a * b) by (nonlinear_arith)
        requires
            0 <= a,
            0 <= b,
            -a <= x <= a,
            -b <= y <= b,
    ;
}

/// A fixed-length vector of seventeen stat slots.
#[derive(Clone, Debug)]
pub struct StatusVector {
    pub v: Vec<i128>,
}

impl View for StatusVector {
    type V = Seq<int>;

    open spec fn view(&self) -> Seq<int> {
        self.v@.map_values(|x: i128| x as int)
    }
}

impl StatusVector {
    pub open spec fn wf(&self) -> bool {
        self@.len() == STATUS_LEN
    }

    /// The all-zero vector.
    pub fn zeros() -> (r: StatusVector)
        ensures
            r.wf(),
            r@ == zero_status(),
    {
        let mut v: Vec<i128> = Vec::new();
        let mut i: usize = 0;
        while i < STATUS_LEN
            invariant
                i <= STATUS_LEN,
                v@.len() == i,
                forall|j: int| 0 <= j < i ==> v@[j] == 0i128,
            decreases STATUS_LEN - i,
        {
            v.push(0);
            i = i + 1;
        }
        let r = StatusVector { v };
        assert(r@ =~= zero_status());
        r
    }

    /// Wrap a plain vector of seventeen raw values; rejects any other length.
    pub fn from_vec(v: Vec<i128>) -> (r: Option<StatusVector>)
        ensures
            match r {
                Some(s) => v@.len() == STATUS_LEN && s.wf()
                    && forall|i: int| 0 <= i < STATUS_LEN ==> s@[i] == v@[i] as int,
                None => v@.len() != STATUS_LEN,
            },
    {
        if v.len() == STATUS_LEN {
            Some(StatusVector { v })
        } else {
            None
        }
    }

    /// An element-for-element copy.
    pub fn duplicate(&self) -> (r: StatusVector)
        ensures
            r@ == self@,
    {
        let mut v: Vec<i128> = Vec::new();
        let n = self.v.len();
        let mut i: usize = 0;
        while i < n
            invariant
                i <= n,
                n == self.v@.len(),
                v@ == self.v@.take(i as int),
            decreases n - i,
        {
            v.push(self.v[i]);
            assert(v@ =~= self.v@.take(i + 1 as int));
            i = i + 1;
        }
        assert(v@ =~= self.v@);
        let r = StatusVector { v };
        assert(r@ =~= self@);
        r
    }

    /// Read one slot.
    pub fn get(&self, i: usize) -> (r: i128)
        requires
            self.wf(),
            i < STATUS_LEN,
        ensures
            r == self@[i as int],
    {
        self.v[i]
    }

    /// Add `d` to one slot.
    pub fn add_at(&mut self, i: usize, d: i128)
        requires
            old(self).wf(),
            i < STATUS_LEN,
            fits_i128(old(self)@[i as int] + d),
        ensures
            final(self).wf(),
            final(self)@ == old(self)@.update(i as int, old(self)@[i as int] + d),
    {
        let cur = self.v[i];
        self.v.set(i, cur + d);
        assert(self@ =~= old(self)@.update(i as int, old(self)@[i as int] + d as int));
    }

    /// Elementwise sum.
    pub fn add(&self, other: &StatusVector) -> (r: StatusVector)
        requires
            self.wf(),
            other.wf(),
            forall|i: int| 0 <= i < STATUS_LEN ==> fits_i128(self@[i] + other@[i]),
        ensures
            r.wf(),
            r@ == seq_add(self@, other@),
    {
        let mut v: Vec<i128> = Vec::new();
        let mut i: usize = 0;
        while i < STATUS_LEN
            invariant
                i <= STATUS_LEN,
                v@.len() == i,
                forall|j: int| 0 <= j < i ==> v@[j] as int == self@[j] + other@[j],
            decreases STATUS_LEN - i,
        {
            assert(fits_i128(self@[i as int] + other@[i as int]));
            v.push(self.v[i] + other.v[i]);
            i = i + 1;
        }
        let r = StatusVector { v };
        assert(r@ =~= seq_add(self@, other@));
        r
    }

    /// Elementwise difference.
    pub fn sub(&self, other: &StatusVector) -> (r: StatusVector)
        requires
            self.wf(),
            other.wf(),
            forall|i: int| 0 <= i < STATUS_LEN ==> fits_i128(self@[i] - other@[i]),
        ensures
            r.wf(),
            r@ == seq_sub(self@, other@),
    {
        let mut v: Vec<i128> = Vec::new();
        let mut i: usize = 0;
        while i < STATUS_LEN
            invariant
                i <= STATUS_LEN,
                v@.len() == i,
                forall|j: int| 0 <= j < i ==> v@[j] as int == self@[j] - other@[j],
            decreases STATUS_LEN - i,
        {
            assert(fits_i128(self@[i as int] - other@[i as int]));
            v.push(self.v[i] - other.v[i]);
            i = i + 1;
        }
        let r = StatusVector { v };
        assert(r@ =~= seq_sub(self@, other@));
        r
    }

    /// Multiply every slot by the scalar `k`.
    pub fn scale_mul(&self, k: i128) -> (r: StatusVector)
        requires
            self.wf(),
            forall|i: int| 0 <= i < STATUS_LEN ==> fits_i128(self@[i] * k),
        ensures
            r.wf(),
            r@ == seq_scale(self@, k as int),
    {
        let mut v: Vec<i128> = Vec::new();
        let mut i: usize = 0;
        while i < STATUS_LEN
            invariant
                i <= STATUS_LEN,
                v@.len() == i,
                forall|j: int| 0 <= j < i ==> v@[j] as int == self@[j] * k,
            decreases STATUS_LEN - i,
        {
            assert(fits_i128(self@[i as int] * k));
            v.push(self.v[i] * k);
            i = i + 1;
        }
        let r = StatusVector { v };
        assert(r@ =~= seq_scale(self@, k as int));
        r
    }

    /// Elementwise product.
    pub fn component_mul(&self, other: &StatusVector) -> (r: StatusVector)
        requires
            self.wf(),
            other.wf(),
            forall|i: int| 0 <= i < STATUS_LEN ==> fits_i128(self@[i] * other@[i]),
        ensures
            r.wf(),
            r@ == seq_emul(self@, other@),
    {
        let mut v: Vec<i128> = Vec::new();
        let mut i: usize = 0;
        while i < STATUS_LEN
            invariant
                i <= STATUS_LEN,
                v@.len() == i,
                forall|j: int| 0 <= j < i ==> v@[j] as int == self@[j] * other@[j],
            decreases STATUS_LEN - i,
        {
            assert(fits_i128(self@[i as int] * other@[i as int]));
            v.push(self.v[i] * other.v[i]);
            i = i + 1;
        }
        let r = StatusVector { v };
        assert(r@ =~= seq_emul(self@, other@));
        r
    }

    /// Round every raw slot to the integer it displays as.
    pub fn round_vec(&self) -> (r: StatusVector)
        requires
            self.wf(),
        ensures
            r.wf(),
            r@ == seq_round(self@),
    {
        let mut v: Vec<i128> = Vec::new();
        let mut i: usize = 0;
        while i < STATUS_LEN
            invariant
                i <= STATUS_LEN,
                v@.len() == i,
                forall|j: int| 0 <= j < i ==> v@[j] as int == round_cy(self@[j]),
            decreases STATUS_LEN - i,
        {
            v.push(round_scaled(self.v[i]));
            i = i + 1;
        }
        let r = StatusVector { v };
        assert(r@ =~= seq_round(self@));
        r
    }

    /// Per-slot ceiling of `self[i] / SCALE`, returned as raw fixed-point.
    /// The entry bound keeps `SCALE * ceiling` inside `i128`.
    pub fn ceil_vec(&self) -> (r: StatusVector)
        requires
            self.wf(),
            seq_bounded(self@, B_ENHANCE_RAW as int),
        ensures
            r.wf(),
            r@ == seq_ceil_scale(self@),
            seq_bounded(r@, B_ENHANCE_RAW + SCALE),
    {
        let mut v: Vec<i128> = Vec::new();
        let mut i: usize = 0;
        while i < STATUS_LEN
            invariant
                i <= STATUS_LEN,
                v@.len() == i,
                forall|j: int| 0 <= j < i ==> v@[j] as int == SCALE * ceil_scale(self@[j]),
            decreases STATUS_LEN - i,
        {
            proof {
                lemma_ceil_scale_bound(self@[i as int], B_ENHANCE_RAW as int);
            }
            let c = ceil_scaled(self.v[i]);
            v.push(SCALE * c);
            i = i + 1;
        }
        let r = StatusVector { v };
        assert(r@ =~= seq_ceil_scale(self@));
        assert forall|j: int| 0 <= j < r@.len() implies
            -(B_ENHANCE_RAW + SCALE) <= #[trigger] r@[j] <= B_ENHANCE_RAW + SCALE by {
            lemma_ceil_scale_bound(self@[j], B_ENHANCE_RAW as int);
        }
        r
    }
}

} // verus!

verus! {

/// Accumulated dot product of two status vectors. The magnitude bounds
/// keep every partial sum inside `i128`.
impl StatusVector {
    pub fn dot(&self, other: &StatusVector) -> (r: i128)
        requires
            self.wf(),
            other.wf(),
            seq_bounded(self@, B_STATUS as int),
            seq_bounded(other@, MAX_STAT as int),
        ensures
            r == dot_spec(self@, other@),
            -(17 * B_DOT as int) <= r <= 17 * B_DOT as int,
    {
        let mut acc: i128 = 0;
        let mut i: usize = 0;
        while i < STATUS_LEN
            invariant
                i <= STATUS_LEN,
                acc == dot_prefix(self@, other@, i as int),
                -((i as int) * (B_DOT as int)) <= acc <= (i as int) * (B_DOT as int),
            decreases STATUS_LEN - i,
        {
            proof {
                lemma_abs_mul_bound(self@[i as int], other@[i as int],
                    B_STATUS as int, MAX_STAT as int);
                assert(B_STATUS as int * MAX_STAT as int == B_DOT as int);
                assert(self.v@[i as int] as int == self@[i as int]);
                assert(other.v@[i as int] as int == other@[i as int]);
            }
            acc = acc + self.v[i] * other.v[i];
            i = i + 1;
        }
        assert(dot_prefix(self@, other@, STATUS_LEN as int) == dot_spec(self@, other@));
        acc
    }
}

/// Named accessors for the seventeen stat slots, in the one global order.
pub trait UnitStatusTrait<T> {
    /// Whether the underlying bundle is well formed.
    spec fn stat_wf(&self) -> bool;

    /// The value stored in slot `i`.
    spec fn stat_at(&self, i: int) -> T;

    fn hp(&self) -> (r: T)
        requires
            self.stat_wf(),
        ensures
            r == self.stat_at(0),
    ;

    fn atk(&self) -> (r: T)
        requires
            self.stat_wf(),
        ensures
            r == self.stat_at(1),
    ;

    fn def(&self) -> (r: T)
        requires
            self.stat_wf(),
        ensures
            r == self.stat_at(2),
    ;

    fn magic_str(&self) -> (r: T)
        requires
            self.stat_wf(),
        ensures
            r == self.stat_at(3),
    ;

    fn magic_def(&self) -> (r: T)
        requires
            self.stat_wf(),
        ensures
            r == self.stat_at(4),
    ;

    fn physical_critical(&self) -> (r: T)
        requires
            self.stat_wf(),
        ensures
            r == self.stat_at(5),
    ;

    fn magic_critical(&self) -> (r: T)
        requires
            self.stat_wf(),
        ensures
            r == self.stat_at(6),
    ;

    fn dodge(&self) -> (r: T)
        requires
            self.stat_wf(),
        ensures
            r == self.stat_at(7),
    ;

    fn life_steal(&self) -> (r: T)
        requires
            self.stat_wf(),
        ensures
            r == self.stat_at(8),
    ;

    fn wave_hp_recovery(&self) -> (r: T)
        requires
            self.stat_wf(),
        ensures
            r == self.stat_at(9),
    ;

    fn wave_energy_recovery(&self) -> (r: T)
        requires
            self.stat_wf(),
        ensures
            r == self.stat_at(10),
    ;

    fn physical_penetrate(&self) -> (r: T)
        requires
            self.stat_wf(),
        ensures
            r == self.stat_at(11),
    ;

    fn magic_penetrate(&self) -> (r: T)
        requires
            self.stat_wf(),
        ensures
            r == self.stat_at(12),
    ;

    fn energy_reduce_rate(&self) -> (r: T)
        requires
            self.stat_wf(),
        ensures
            r == self.stat_at(13),
    ;

    fn hp_recovery_rate(&self) -> (r: T)
        requires
            self.stat_wf(),
        ensures
            r == self.stat_at(14),
    ;

    fn energy_recovery_rate(&self) -> (r: T)
        requires
            self.stat_wf(),
        ensures
            r == self.stat_at(15),
    ;

    fn accuracy(&self) -> (r: T)
        requires
            self.stat_wf(),
        ensures
            r == self.stat_at(16),
    ;

}

impl UnitStatusTrait<i128> for StatusVector {
    open spec fn stat_wf(&self) -> bool {
        self.wf()
    }

    open spec fn stat_at(&self, i: int) -> i128 {
        self.v@[i]
    }

    fn hp(&self) -> (r: i128) {
        self.v[0]
    }

    fn atk(&self) -> (r: i128) {
        self.v[1]
    }

    fn def(&self) -> (r: i128) {
        self.v[2]
    }

    fn magic_str(&self) -> (r: i128) {
        self.v[3]
    }

    fn magic_def(&self) -> (r: i128) {
        self.v[4]
    }

    fn physical_critical(&self) -> (r: i128) {
        self.v[5]
    }

    fn magic_critical(&self) -> (r: i128) {
        self.v[6]
    }

    fn dodge(&self) -> (r: i128) {
        self.v[7]
    }

    fn life_steal(&self) -> (r: i128) {
        self.v[8]
    }

    fn wave_hp_recovery(&self) -> (r: i128) {
        self.v[9]
    }

    fn wave_energy_recovery(&self) -> (r: i128) {
        self.v[10]
    }

    fn physical_penetrate(&self) -> (r: i128) {
        self.v[11]
    }

    fn magic_penetrate(&self) -> (r: i128) {
        self.v[12]
    }

    fn energy_reduce_rate(&self) -> (r: i128) {
        self.v[13]
    }

    fn hp_recovery_rate(&self) -> (r: i128) {
        self.v[14]
    }

    fn energy_recovery_rate(&self) -> (r: i128) {
        self.v[15]
    }

    fn accuracy(&self) -> (r: i128) {
        self.v[16]
    }

}

} // verus!
