//! Packed 64-bit time-lock values.
//!
//! A since value packs a relative/absolute flag, a metric tag (block number,
//! epoch fraction or timestamp) and a 56-bit value. An epoch-with-fraction
//! value packs `(length:16 | index:16 | number:24)`. Values of different
//! metrics, or mixed relative and absolute values, are incomparable: their
//! comparison answers with no ordering, never with a default one.

use core::cmp::Ordering;
use vstd::prelude::*;

use crate::arith::{gcd_of, lemma_div_exact, lemma_gcd_divides};

verus! {

/// Set when the value is relative, clear when absolute.
pub const LOCK_TYPE_FLAG: u64 = 0x8000_0000_0000_0000;

/// The two metric bits.
pub const METRIC_TYPE_FLAG_MASK: u64 = 0x6000_0000_0000_0000;

/// The whole flags byte.
pub const FLAGS_MASK: u64 = 0xff00_0000_0000_0000;

/// The 56-bit payload.
pub const VALUE_MASK: u64 = 0x00ff_ffff_ffff_ffff;

/// The flag bits that must stay clear for a valid value.
pub const REMAIN_FLAGS_BITS: u64 = 0x1f00_0000_0000_0000;

/// Metric tag: block number.
pub const LOCK_BY_BLOCK_NUMBER_MASK: u64 = 0x0000_0000_0000_0000;

/// Metric tag: epoch number with fraction.
pub const LOCK_BY_EPOCH_MASK: u64 = 0x2000_0000_0000_0000;

/// Metric tag: timestamp.
pub const LOCK_BY_TIMESTAMP_MASK: u64 = 0x4000_0000_0000_0000;

/// Width of the epoch number field.
pub const NUMBER_BITS: u64 = 24;

/// One past the largest epoch number.
pub const NUMBER_MAXIMUM_VALUE: u64 = 0x100_0000;

/// Mask of the epoch number field.
pub const NUMBER_MASK: u64 = 0xff_ffff;

/// Bit offset of the index field.
pub const INDEX_OFFSET: u64 = 24;

/// Width of the index field.
pub const INDEX_BITS: u64 = 16;

/// One past the largest index.
pub const INDEX_MAXIMUM_VALUE: u64 = 0x1_0000;

/// Mask of the index field.
pub const INDEX_MASK: u64 = 0xffff;

/// Bit offset of the length field.
pub const LENGTH_OFFSET: u64 = 40;

/// Width of the length field.
pub const LENGTH_BITS: u64 = 16;

/// One past the largest length.
pub const LENGTH_MAXIMUM_VALUE: u64 = 0x1_0000;

/// Mask of the length field.
pub const LENGTH_MASK: u64 = 0xffff;

/// An epoch position: a whole epoch number plus the fraction `index/length`.
#[derive(Debug, Default, Clone, Copy, Eq, PartialEq, Structural, Hash)]
pub struct EpochNumberWithFraction(pub u64);

/// The epoch number packed in `v`.
pub open spec fn spec_epoch_number(v: u64) -> u64 {
    v & NUMBER_MASK
}

/// The index packed in `v`.
pub open spec fn spec_epoch_index(v: u64) -> u64 {
    (v >> INDEX_OFFSET) & INDEX_MASK
}

/// The length packed in `v`.
pub open spec fn spec_epoch_length(v: u64) -> u64 {
    (v >> LENGTH_OFFSET) & LENGTH_MASK
}

/// The packed representation of `(number, index, length)`.
pub open spec fn spec_epoch_pack(number: u64, index: u64, length: u64) -> u64 {
    (length << LENGTH_OFFSET) | (index << INDEX_OFFSET) | number
}

/// The three fields of an epoch value stay within their widths.
pub proof fn lemma_epoch_field_bounds(v: u64)
    ensures
        spec_epoch_number(v) < NUMBER_MAXIMUM_VALUE,
        spec_epoch_index(v) < INDEX_MAXIMUM_VALUE,
        spec_epoch_length(v) < LENGTH_MAXIMUM_VALUE,
{
    assert((v & 0xff_ffffu64) < 0x100_0000u64) by (bit_vector);
    assert(((v >> 24u64) & 0xffffu64) < 0x1_0000u64) by (bit_vector);
    assert(((v >> 40u64) & 0xffffu64) < 0x1_0000u64) by (bit_vector);
}

/// Packing in-range fields and unpacking them gives the fields back.
pub proof fn lemma_epoch_pack_unpack(number: u64, index: u64, length: u64)
    requires
        number < NUMBER_MAXIMUM_VALUE,
        index < INDEX_MAXIMUM_VALUE,
        length < LENGTH_MAXIMUM_VALUE,
    ensures
        spec_epoch_number(spec_epoch_pack(number, index, length)) == number,
        spec_epoch_index(spec_epoch_pack(number, index, length)) == index,
        spec_epoch_length(spec_epoch_pack(number, index, length)) == length,
{
    assert(number < 0x100_0000u64 && index < 0x1_0000u64 && length < 0x1_0000u64 ==> ((((length
        << 40u64) | (index << 24u64) | number) & 0xff_ffffu64) == number && ((((length << 40u64) | (
    index << 24u64) | number) >> 24u64) & 0xffffu64) == index && ((((length << 40u64) | (index
        << 24u64) | number) >> 40u64) & 0xffffu64) == length)) by (bit_vector);
}

impl EpochNumberWithFraction {
    /// The whole epoch number.
    pub open spec fn number_spec(self) -> u64 {
        spec_epoch_number(self.0)
    }

    /// The numerator of the fraction.
    pub open spec fn index_spec(self) -> u64 {
        spec_epoch_index(self.0)
    }

    /// The denominator of the fraction.
    pub open spec fn length_spec(self) -> u64 {
        spec_epoch_length(self.0)
    }

    /// A well-formed epoch fraction: the denominator is positive and the
    /// numerator lies under it.
    pub open spec fn wf(self) -> bool {
        &&& self.length_spec() > 0
        &&& self.index_spec() < self.length_spec()
    }

    /// Pack the fields without checking them.
    pub fn new_unchecked(number: u64, index: u64, length: u64) -> (r: Self)
        ensures
            r.0 == spec_epoch_pack(number, index, length),
    {
        EpochNumberWithFraction((length << LENGTH_OFFSET) | (index << INDEX_OFFSET) | number)
    }

    /// Pack in-range fields.
    pub fn new(number: u64, index: u64, length: u64) -> (r: Self)
        requires
            number < NUMBER_MAXIMUM_VALUE,
            index < INDEX_MAXIMUM_VALUE,
            length < LENGTH_MAXIMUM_VALUE,
            length > 0,
            index < length,
    ensures
            r.0 == spec_epoch_pack(number, index, length),
            r.number_spec() == number,
            r.index_spec() == index,
            r.length_spec() == length,
            r.wf(),
    {
        proof {
            lemma_epoch_pack_unpack(number, index, length);
        }
        Self::new_unchecked(number, index, length)
    }

    /// Pack the fields if, and only if, they are in range, the length is
    /// positive and the index lies under the length.
    pub fn create(number: u64, index: u64, length: u64) -> (r: Option<EpochNumberWithFraction>)
        ensures
            (number < NUMBER_MAXIMUM_VALUE && index < INDEX_MAXIMUM_VALUE && length
                < LENGTH_MAXIMUM_VALUE && length > 0 && index < length) <==> r is Some,
            r matches Some(e) ==> e.0 == spec_epoch_pack(number, index, length)
                && e.number_spec() == number && e.index_spec() == index && e.length_spec()
                == length && e.wf(),
    {
        if number < NUMBER_MAXIMUM_VALUE && index < INDEX_MAXIMUM_VALUE && length
            < LENGTH_MAXIMUM_VALUE && length > 0 && index < length {
            Some(Self::new(number, index, length))
        } else {
            None
        }
    }

    /// The whole epoch number.
    pub fn number(self) -> (r: u64)
        ensures
            r == self.number_spec(),
            r < NUMBER_MAXIMUM_VALUE,
    {
        proof {
            lemma_epoch_field_bounds(self.0);
        }
        self.0 & NUMBER_MASK
    }

    /// The numerator of the fraction.
    pub fn index(self) -> (r: u64)
        ensures
            r == self.index_spec(),
            r < INDEX_MAXIMUM_VALUE,
    {
        proof {
            lemma_epoch_field_bounds(self.0);
        }
        (self.0 >> INDEX_OFFSET) & INDEX_MASK
    }

    /// The denominator of the fraction.
    pub fn length(self) -> (r: u64)
        ensures
            r == self.length_spec(),
            r < LENGTH_MAXIMUM_VALUE,
    {
        proof {
            lemma_epoch_field_bounds(self.0);
        }
        (self.0 >> LENGTH_OFFSET) & LENGTH_MASK
    }

    /// The raw packed value.
    pub fn full_value(self) -> (r: u64)
        ensures
            r == self.0,
    {
        self.0
    }

    /// Read a packed value back. A zero length is rewritten to the fraction
    /// `0/1`, so that later fraction arithmetic cannot divide by zero.
    pub fn from_full_value(value: u64) -> (r: Self)
        ensures
            r == spec_epoch_from_full_value(value),
    {
        let epoch = EpochNumberWithFraction(value);
        if epoch.length() == 0 {
            Self::new(epoch.number(), 0, 1)
        } else {
            epoch
        }
    }
}


impl EpochNumberWithFraction {
    /// The cross-multiplied numerator of the sum of the two fractions.
    pub open spec fn spec_sum_numerator(self, rhs: Self) -> nat {
        (self.index_spec() * rhs.length_spec() + rhs.index_spec() * self.length_spec()) as nat
    }

    /// The common denominator of the sum of the two fractions.
    pub open spec fn spec_sum_denominator(self, rhs: Self) -> nat {
        (self.length_spec() * rhs.length_spec()) as nat
    }

    /// What adding two epoch fractions yields: the fraction sum is brought
    /// over the common denominator, reduced by the greatest common divisor,
    /// and its whole part carried into the epoch number; the sum exists
    /// exactly when the carried number and the reduced denominator still fit
    /// their fields.
    pub open spec fn spec_checked_add(self, rhs: Self) -> Option<EpochNumberWithFraction> {
        let num = self.spec_sum_numerator(rhs);
        let den = self.spec_sum_denominator(rhs);
        let g = gcd_of(num, den);
        let num_r = num / g;
        let den_r = den / g;
        let whole = num_r / den_r;
        let idx = num_r % den_r;
        let n_total = self.number_spec() + rhs.number_spec() + whole;
        if n_total < NUMBER_MAXIMUM_VALUE && idx < INDEX_MAXIMUM_VALUE && den_r
            < LENGTH_MAXIMUM_VALUE && den_r > 0 && idx < den_r {
            Some(
                EpochNumberWithFraction(
                    spec_epoch_pack(n_total as u64, idx as u64, den_r as u64),
                ),
            )
        } else {
            None
        }
    }

    /// Add two epoch fractions. The fraction sum is reduced by the greatest
    /// common divisor and its whole part carried into the epoch number.
    /// Overflow of the number field, or a reduced denominator too wide for
    /// the length field, is a hard failure, not a wraparound.
    pub fn checked_add(self, rhs: Self) -> (r: Option<EpochNumberWithFraction>)
        requires
            self.length_spec() > 0,
            rhs.length_spec() > 0,
        ensures
            r == self.spec_checked_add(rhs),
    {
        let n1 = self.number();
        let n2 = rhs.number();
        let i1 = self.index();
        let i2 = rhs.index();
        let l1 = self.length();
        let l2 = rhs.length();
        let number: u64 = n1 + n2;
        proof {
            assert((i1 as u128) * (l2 as u128) < 0x1_0000_0000u128 && (i2 as u128) * (l1 as u128)
                < 0x1_0000_0000u128 && (l1 as u128) * (l2 as u128) < 0x1_0000_0000u128 && (l1
                as u128) * (l2 as u128) >= 1) by (nonlinear_arith)
                requires
                    i1 < 0x1_0000,
                    i2 < 0x1_0000,
                    l2 < 0x1_0000,
                    l1 < 0x1_0000,
                    l1 >= 1,
                    l2 >= 1,
            ;
        }
        let numerator: u128 = (i1 as u128) * (l2 as u128) + (i2 as u128) * (l1 as u128);
        let denominator: u128 = (l1 as u128) * (l2 as u128);
        let divisor = gcd::binary_u128(numerator, denominator);
        proof {
            crate::arith::lemma_binary_gcd_result(numerator, denominator, divisor);
            lemma_gcd_divides(numerator as nat, denominator as nat);
            lemma_div_exact(divisor as nat, numerator as nat);
            lemma_div_exact(divisor as nat, denominator as nat);
            assert(denominator as nat / divisor as nat >= 1) by (nonlinear_arith)
                requires
                    denominator as nat == (denominator as nat / divisor as nat) * (divisor as nat),
                    denominator >= 1,
                    divisor >= 1,
            ;
        }
        let numerator2 = numerator / divisor;
        let denominator2 = denominator / divisor;
        proof {
            assert(numerator2 <= numerator && denominator2 <= denominator) by (nonlinear_arith)
                requires
                    numerator as nat == (numerator as nat / divisor as nat) * (divisor as nat),
                    denominator as nat == (denominator as nat / divisor as nat) * (divisor as nat),
                    numerator2 == numerator as nat / divisor as nat,
                    denominator2 == denominator as nat / divisor as nat,
                    divisor >= 1,
            ;
            assert(numerator2 / denominator2 <= numerator2) by (nonlinear_arith)
                requires
                    denominator2 >= 1,
            ;
            vstd::arithmetic::div_mod::lemma_mod_division_less_than_divisor(
                numerator2 as int,
                denominator2 as int,
            );
        }
        let full_epoches = numerator2 / denominator2;
        let number_total: u64 = number + (full_epoches as u64);
        let index_rest = numerator2 % denominator2;
        proof {
            let num = self.spec_sum_numerator(rhs);
            let den = self.spec_sum_denominator(rhs);
            assert(num == numerator as nat);
            assert(den == denominator as nat);
            assert(divisor as nat == gcd_of(num, den));
            assert(numerator2 as nat == num / gcd_of(num, den));
            assert(denominator2 as nat == den / gcd_of(num, den));
            assert(full_epoches as nat == (num / gcd_of(num, den)) / (den / gcd_of(num, den)));
            assert(index_rest as nat == (num / gcd_of(num, den)) % (den / gcd_of(num, den)));
        }
        Self::create(number_total, index_rest as u64, denominator2 as u64)
    }
}


/// How two epoch positions compare: by whole epoch number first, then by the
/// cross-multiplied fractions. Two distinct representations of the same
/// rational position compare as equal.
pub open spec fn spec_epoch_cmp(a: EpochNumberWithFraction, b: EpochNumberWithFraction) -> Option<
    Ordering,
> {
    if a.number_spec() < b.number_spec() {
        Some(Ordering::Less)
    } else if a.number_spec() > b.number_spec() {
        Some(Ordering::Greater)
    } else {
        let block_a = a.index_spec() * b.length_spec();
        let block_b = b.index_spec() * a.length_spec();
        if block_a < block_b {
            Some(Ordering::Less)
        } else if block_a > block_b {
            Some(Ordering::Greater)
        } else {
            Some(Ordering::Equal)
        }
    }
}

impl PartialOrd for EpochNumberWithFraction {
    fn partial_cmp(&self, other: &EpochNumberWithFraction) -> (r: Option<Ordering>) {
        let na = self.number();
        let nb = other.number();
        if na < nb {
            Some(Ordering::Less)
        } else if na > nb {
            Some(Ordering::Greater)
        } else {
            let ia = self.index();
            let la = self.length();
            let ib = other.index();
            let lb = other.length();
            proof {
                assert((ia as u128) * (lb as u128) < 0x1_0000_0000u128 && (ib as u128) * (la
                    as u128) < 0x1_0000_0000u128) by (nonlinear_arith)
                    requires
                        ia < 0x1_0000,
                        lb < 0x1_0000,
                        ib < 0x1_0000,
                        la < 0x1_0000,
                ;
            }
            let block_a = (ia as u128) * (lb as u128);
            let block_b = (ib as u128) * (la as u128);
            if block_a < block_b {
                Some(Ordering::Less)
            } else if block_a > block_b {
                Some(Ordering::Greater)
            } else {
                Some(Ordering::Equal)
            }
        }
    }
}

impl vstd::std_specs::cmp::PartialOrdSpecImpl for EpochNumberWithFraction {
    open spec fn obeys_partial_cmp_spec() -> bool {
        true
    }

    open spec fn partial_cmp_spec(&self, other: &EpochNumberWithFraction) -> Option<Ordering> {
        spec_epoch_cmp(*self, *other)
    }
}

/// One decoded time-lock condition.
#[derive(Debug, Clone, Copy, Eq, PartialEq, Structural)]
pub enum LockValue {
    BlockNumber(u64),
    EpochNumberWithFraction(EpochNumberWithFraction),
    Timestamp(u64),
}

impl LockValue {
    /// The block number, when that is the metric.
    pub fn block_number(&self) -> (r: Option<u64>)
        ensures
            r == (if self is BlockNumber {
                Some(self->BlockNumber_0)
            } else {
                Option::<u64>::None
            }),
    {
        if let Self::BlockNumber(v) = self {
            Some(*v)
        } else {
            None
        }
    }

    /// The epoch position, when that is the metric.
    pub fn epoch(&self) -> (r: Option<EpochNumberWithFraction>)
        ensures
            r == (if self is EpochNumberWithFraction {
                Some(self->EpochNumberWithFraction_0)
            } else {
                Option::<EpochNumberWithFraction>::None
            }),
    {
        if let Self::EpochNumberWithFraction(v) = self {
            Some(*v)
        } else {
            None
        }
    }

    /// The timestamp, when that is the metric.
    pub fn timestamp(&self) -> (r: Option<u64>)
        ensures
            r == (if self is Timestamp {
                Some(self->Timestamp_0)
            } else {
                Option::<u64>::None
            }),
    {
        if let Self::Timestamp(v) = self {
            Some(*v)
        } else {
            None
        }
    }
}

/// A transaction input's packed time-lock value.
#[derive(Debug, Clone, Copy, PartialEq, Eq, Structural)]
pub struct Since(pub u64);

/// Reading an epoch payload back, with a zero length rewritten to `0/1`.
pub open spec fn spec_epoch_from_full_value(value: u64) -> EpochNumberWithFraction {
    if spec_epoch_length(value) != 0 {
        EpochNumberWithFraction(value)
    } else {
        EpochNumberWithFraction(spec_epoch_pack(spec_epoch_number(value), 0, 1))
    }
}

/// What decoding the lock value of `v` yields, as a function of the metric
/// bits and the 56-bit payload.
pub open spec fn spec_extract_lock_value(v: u64) -> Option<LockValue> {
    let value = v & VALUE_MASK;
    let metric = v & METRIC_TYPE_FLAG_MASK;
    if metric == LOCK_BY_BLOCK_NUMBER_MASK {
        Some(LockValue::BlockNumber(value))
    } else if metric == LOCK_BY_EPOCH_MASK {
        Some(LockValue::EpochNumberWithFraction(spec_epoch_from_full_value(value)))
    } else if metric == LOCK_BY_TIMESTAMP_MASK {
        Some(LockValue::Timestamp((value * 1000) as u64))
    } else {
        None
    }
}

/// How two since values compare: only within the same relative/absolute flag
/// and the same metric; anything else is incomparable.
pub open spec fn spec_since_cmp(a: Since, b: Since) -> Option<Ordering> {
    if (a.0 & LOCK_TYPE_FLAG) != (b.0 & LOCK_TYPE_FLAG) {
        None
    } else if (a.0 & METRIC_TYPE_FLAG_MASK) != (b.0 & METRIC_TYPE_FLAG_MASK) {
        None
    } else if (a.0 & METRIC_TYPE_FLAG_MASK) == LOCK_BY_EPOCH_MASK {
        spec_epoch_cmp(
            spec_epoch_from_full_value(a.0 & VALUE_MASK),
            spec_epoch_from_full_value(b.0 & VALUE_MASK),
        )
    } else if (a.0 & METRIC_TYPE_FLAG_MASK) == METRIC_TYPE_FLAG_MASK {
        None
    } else {
        let va = a.0 & VALUE_MASK;
        let vb = b.0 & VALUE_MASK;
        if va < vb {
            Some(Ordering::Less)
        } else if va > vb {
            Some(Ordering::Greater)
        } else {
            Some(Ordering::Equal)
        }
    }
}

impl Since {
    /// Wrap a raw since value.
    pub fn new(v: u64) -> (r: Self)
        ensures
            r.0 == v,
    {
        Since(v)
    }

    /// Build an absolute or relative block-number lock; the number must leave
    /// the flags byte clear.
    pub fn from_block_number(number: u64, absolute: bool) -> (r: Option<Self>)
        ensures
            number & FLAGS_MASK != 0 ==> r is None,
            number & FLAGS_MASK == 0 ==> r == Some(
                Since(
                    number | LOCK_BY_BLOCK_NUMBER_MASK | (if absolute {
                        0
                    } else {
                        LOCK_TYPE_FLAG
                    }),
                ),
            ),
    {
        if number & FLAGS_MASK != 0 {
            return None;
        }
        Some(
            Self::new(
                number | LOCK_BY_BLOCK_NUMBER_MASK | (if absolute {
                    0
                } else {
                    LOCK_TYPE_FLAG
                }),
            ),
        )
    }

    /// Build an absolute or relative timestamp lock; the timestamp must leave
    /// the flags byte clear.
    pub fn from_timestamp(timestamp: u64, absolute: bool) -> (r: Option<Self>)
        ensures
            timestamp & FLAGS_MASK != 0 ==> r is None,
            timestamp & FLAGS_MASK == 0 ==> r == Some(
                Since(
                    timestamp | LOCK_BY_TIMESTAMP_MASK | (if absolute {
                        0
                    } else {
                        LOCK_TYPE_FLAG
                    }),
                ),
            ),
    {
        if timestamp & FLAGS_MASK != 0 {
            return None;
        }
        Some(
            Self::new(
                timestamp | LOCK_BY_TIMESTAMP_MASK | (if absolute {
                    0
                } else {
                    LOCK_TYPE_FLAG
                }),
            ),
        )
    }

    /// Build an absolute or relative epoch lock; the epoch's packed value
    /// must leave the flags byte clear.
    pub fn from_epoch(epoch: EpochNumberWithFraction, absolute: bool) -> (r: Self)
        requires
            epoch.0 & FLAGS_MASK == 0,
        ensures
            r == Since(
                epoch.0 | LOCK_BY_EPOCH_MASK | (if absolute {
                    0
                } else {
                    LOCK_TYPE_FLAG
                }),
            ),
    {
        Self::new(
            epoch.full_value() | LOCK_BY_EPOCH_MASK | (if absolute {
                0
            } else {
                LOCK_TYPE_FLAG
            }),
        )
    }

    /// The raw packed value.
    pub fn as_u64(self) -> (r: u64)
        ensures
            r == self.0,
    {
        self.0
    }

    /// Whether the lock is absolute: the top bit is clear.
    pub fn is_absolute(self) -> (r: bool)
        ensures
            r == (self.0 & LOCK_TYPE_FLAG == 0),
    {
        self.0 & LOCK_TYPE_FLAG == 0
    }

    /// Whether the lock is relative.
    pub fn is_relative(self) -> (r: bool)
        ensures
            r == (self.0 & LOCK_TYPE_FLAG != 0),
    {
        !self.is_absolute()
    }

    /// Whether the flags byte is valid: the reserved bits are clear and the
    /// metric is not the reserved one.
    pub fn flags_is_valid(self) -> (r: bool)
        ensures
            r == ((self.0 & REMAIN_FLAGS_BITS == 0) && (self.0 & METRIC_TYPE_FLAG_MASK
                != METRIC_TYPE_FLAG_MASK)),
    {
        (self.0 & REMAIN_FLAGS_BITS == 0) && ((self.0 & METRIC_TYPE_FLAG_MASK)
            != METRIC_TYPE_FLAG_MASK)
    }

    /// The flags byte.
    pub fn flags(self) -> (r: u64)
        ensures
            r == self.0 & FLAGS_MASK,
    {
        self.0 & FLAGS_MASK
    }

    /// Decode the metric and the payload. A reserved metric yields `None`.
    /// A timestamp payload is scaled to milliseconds, so it must not
    /// overflow when scaled.
    pub fn extract_lock_value(self) -> (r: Option<LockValue>)
        requires
            self.0 & METRIC_TYPE_FLAG_MASK == LOCK_BY_TIMESTAMP_MASK ==> (self.0 & VALUE_MASK)
                * 1000 <= u64::MAX,
        ensures
            r == spec_extract_lock_value(self.0),
    {
        let value = self.0 & VALUE_MASK;
        let metric = self.0 & METRIC_TYPE_FLAG_MASK;
        if metric == LOCK_BY_BLOCK_NUMBER_MASK {
            Some(LockValue::BlockNumber(value))
        } else if metric == LOCK_BY_EPOCH_MASK {
            Some(LockValue::EpochNumberWithFraction(EpochNumberWithFraction::from_full_value(value)))
        } else if metric == LOCK_BY_TIMESTAMP_MASK {
            Some(LockValue::Timestamp(value * 1000))
        } else {
            None
        }
    }
}

impl PartialOrd for Since {
    fn partial_cmp(&self, other: &Since) -> (r: Option<Ordering>) {
        if (self.0 & LOCK_TYPE_FLAG) != (other.0 & LOCK_TYPE_FLAG) {
            return None;
        }
        let metric_a = self.0 & METRIC_TYPE_FLAG_MASK;
        let metric_b = other.0 & METRIC_TYPE_FLAG_MASK;
        if metric_a != metric_b {
            return None;
        }
        if metric_a == LOCK_BY_EPOCH_MASK {
            let ea = EpochNumberWithFraction::from_full_value(self.0 & VALUE_MASK);
            let eb = EpochNumberWithFraction::from_full_value(other.0 & VALUE_MASK);
            ea.partial_cmp(&eb)
        } else if metric_a == METRIC_TYPE_FLAG_MASK {
            None
        } else {
            let va = self.0 & VALUE_MASK;
            let vb = other.0 & VALUE_MASK;
            if va < vb {
                Some(Ordering::Less)
            } else if va > vb {
                Some(Ordering::Greater)
            } else {
                Some(Ordering::Equal)
            }
        }
    }
}

impl vstd::std_specs::cmp::PartialOrdSpecImpl for Since {
    open spec fn obeys_partial_cmp_spec() -> bool {
        true
    }

    open spec fn partial_cmp_spec(&self, other: &Since) -> Option<Ordering> {
        spec_since_cmp(*self, *other)
    }
}


/// Law: epoch addition is exact and canonical. Whenever the sum of two epoch
/// fractions exists, its rational value equals the sum of the two operands —
/// stated cross-multiplied, so no division appears — and its fraction is
/// fully reduced: the denominator and the numerator have no common divisor
/// but one.
pub proof fn lemma_checked_add_exact(a: EpochNumberWithFraction, b: EpochNumberWithFraction)
    requires
        a.length_spec() > 0,
        b.length_spec() > 0,
        a.spec_checked_add(b) is Some,
    ensures
        ({
            let e = a.spec_checked_add(b)->Some_0;
            let den = a.length_spec() * b.length_spec();
            let num = a.index_spec() * b.length_spec() + b.index_spec() * a.length_spec();
            &&& (e.number_spec() * e.length_spec() + e.index_spec()) * den == ((a.number_spec()
                + b.number_spec()) * den + num) * e.length_spec()
            &&& gcd_of(e.length_spec() as nat, e.index_spec() as nat) == 1
            &&& e.wf()
        }),
{
    let e = a.spec_checked_add(b)->Some_0;
    let num = a.spec_sum_numerator(b);
    let den = a.spec_sum_denominator(b);
    assert(den >= 1) by (nonlinear_arith)
        requires
            den == a.length_spec() * b.length_spec(),
            a.length_spec() >= 1,
            b.length_spec() >= 1,
    ;
    let g = gcd_of(num, den);
    lemma_gcd_divides(num, den);
    lemma_div_exact(g, num);
    lemma_div_exact(g, den);
    let num_r = num / g;
    let den_r = den / g;
    let whole = num_r / den_r;
    let idx = num_r % den_r;
    let n_total = a.number_spec() + b.number_spec() + whole;
    assert(den_r >= 1) by (nonlinear_arith)
        requires
            den == den_r * g,
            den >= 1,
            g >= 1,
    ;
    vstd::arithmetic::div_mod::lemma_fundamental_div_mod(num_r as int, den_r as int);
    vstd::arithmetic::div_mod::lemma_mod_division_less_than_divisor(num_r as int, den_r as int);
    // the packed fields read back as the reduced parts
    lemma_epoch_pack_unpack(n_total as u64, idx as u64, den_r as u64);
    assert(e.number_spec() == n_total && e.index_spec() == idx && e.length_spec() == den_r);
    // the cross-multiplied value equality
    assert((n_total * den_r + idx) * den == ((a.number_spec() + b.number_spec()) * den + num)
        * den_r) by (nonlinear_arith)
        requires
            num == num_r * g,
            den == den_r * g,
            num_r as int == den_r as int * (whole as int) + idx,
            n_total == a.number_spec() + b.number_spec() + whole,
            den_r >= 1,
            g >= 1,
    ;
    // canonicity: the reduced parts are coprime, and taking the remainder
    // keeps them so
    crate::arith::lemma_gcd_reduced_coprime(num, den);
    assert(gcd_of(num_r, den_r) == 1);
    assert(gcd_of(num_r, den_r) == gcd_of(den_r, idx));
}


impl Since {
    /// What converting this relative lock to an absolute one, against the
    /// named base values, yields.
    pub open spec fn spec_to_absolute_value(
        self,
        base_number: u64,
        base_timestamp: u64,
        base_epoch: u64,
    ) -> Option<Since> {
        match spec_extract_lock_value(self.0) {
            Some(LockValue::BlockNumber(number)) => {
                if base_number + number > u64::MAX || ((base_number + number) as u64) & FLAGS_MASK
                    != 0 {
                    None
                } else {
                    Some(Since(((base_number + number) as u64) | LOCK_BY_BLOCK_NUMBER_MASK))
                }
            },
            Some(LockValue::Timestamp(timestamp)) => {
                if base_timestamp + timestamp > u64::MAX || ((base_timestamp + timestamp) as u64)
                    & FLAGS_MASK != 0 {
                    None
                } else {
                    Some(Since(((base_timestamp + timestamp) as u64) | LOCK_BY_TIMESTAMP_MASK))
                }
            },
            Some(LockValue::EpochNumberWithFraction(epoch)) => {
                let base = spec_epoch_from_full_value(base_epoch & VALUE_MASK);
                match epoch.spec_checked_add(base) {
                    Some(sum) => {
                        if sum.0 & FLAGS_MASK == 0 {
                            Some(Since(sum.0 | LOCK_BY_EPOCH_MASK))
                        } else {
                            None
                        }
                    },
                    None => None,
                }
            },
            None => None,
        }
    }

    /// Convert a relative lock to an absolute one against the base
    /// commitment block, given as its plain header values: the block number,
    /// the timestamp in milliseconds, and the raw epoch field. Overflow of
    /// any base is a failure, never a wraparound.
    pub fn to_absolute_value(self, base_number: u64, base_timestamp: u64, base_epoch: u64) -> (r:
        Option<Since>)
        requires
            self.0 & LOCK_TYPE_FLAG != 0,
            self.0 & METRIC_TYPE_FLAG_MASK == LOCK_BY_TIMESTAMP_MASK ==> (self.0 & VALUE_MASK)
                * 1000 <= u64::MAX,
        ensures
            r == self.spec_to_absolute_value(base_number, base_timestamp, base_epoch),
    {
        match self.extract_lock_value() {
            Some(LockValue::BlockNumber(number)) => match base_number.checked_add(number) {
                Some(block_number) => {
                    proof {
                        let v = block_number | LOCK_BY_BLOCK_NUMBER_MASK;
                        assert(v | 0u64 == v) by (bit_vector);
                    }
                    Self::from_block_number(block_number, true)
                },
                None => None,
            },
            Some(LockValue::Timestamp(timestamp)) => match base_timestamp.checked_add(timestamp) {
                Some(stamp) => {
                    // the payload is already in milliseconds: pack it back
                    // without scaling it again
                    if stamp & FLAGS_MASK != 0 {
                        None
                    } else {
                        Some(Since::new(stamp | LOCK_BY_TIMESTAMP_MASK))
                    }
                },
                None => None,
            },
            Some(LockValue::EpochNumberWithFraction(epoch)) => {
                let base = EpochNumberWithFraction::from_full_value(base_epoch & VALUE_MASK);
                proof {
                    lemma_epoch_field_bounds(base_epoch & VALUE_MASK);
                    if spec_epoch_length(base_epoch & VALUE_MASK) == 0 {
                        lemma_epoch_pack_unpack(spec_epoch_number(base_epoch & VALUE_MASK), 0, 1);
                    }
                    lemma_epoch_field_bounds(self.0 & VALUE_MASK);
                    if spec_epoch_length(self.0 & VALUE_MASK) == 0 {
                        lemma_epoch_pack_unpack(spec_epoch_number(self.0 & VALUE_MASK), 0, 1);
                    }
                }
                match epoch.checked_add(base) {
                    Some(sum) => {
                        if sum.full_value() & FLAGS_MASK != 0 {
                            None
                        } else {
                            proof {
                                let v = sum.0 | LOCK_BY_EPOCH_MASK;
                                assert(v | 0u64 == v) by (bit_vector);
                            }
                            Some(Self::from_epoch(sum, true))
                        }
                    },
                    None => None,
                }
            },
            None => None,
        }
    }
}

} // verus!
