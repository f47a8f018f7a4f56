use vstd::prelude::*;

verus! {

/// The largest bit pattern of a finite, non-negative `f64` (`f64::MAX`).
/// Every pattern from `0` up to it is `+0.0`, a subnormal or a normal number.
pub const MAX_FINITE_PRICE_BITS: u64 = 0x7FEF_FFFF_FFFF_FFFF;

/// The bit pattern of `-0.0`, which compares equal to zero.
pub const NEGATIVE_ZERO_BITS: u64 = 0x8000_0000_0000_0000;

/// A price, given as the IEEE-754 bits of an `f64`, is finite and not below
/// zero: the sign bit is clear and the exponent is not all ones, or the value
/// is negative zero.
pub open spec fn price_ok(bits: u64) -> bool {
    bits <= MAX_FINITE_PRICE_BITS || bits == NEGATIVE_ZERO_BITS
}

/// Decides whether the `f64` with these bits may be stored as a price.
pub fn is_valid_price_bits(bits: u64) -> (r: bool)
    ensures
        r == price_ok(bits),
{
    bits <= MAX_FINITE_PRICE_BITS || bits == NEGATIVE_ZERO_BITS
}

/// One recorded observation, as the log hands it out.
#[derive(Clone, Debug, PartialEq)]
pub struct Sample {
    /// Assigned by the log when the observation was appended.
    pub sequence_id: i64,
    /// The chain's tip height.
    pub block_height: u64,
    /// The price, as the bits of an `f64`.
    pub price_bits: u64,
    /// The moment of the append, as the log wrote it.
    pub timestamp: String,
}

/// One row as the durable table holds it: the height is a signed integer
/// there, and nothing in the table itself keeps it or the price in range.
#[derive(Clone, Debug, PartialEq)]
pub struct StoredRow {
    pub id: i64,
    pub block_height: i64,
    pub price_bits: u64,
    pub timestamp: String,
}

/// Why a stored row is no sample.
#[derive(Clone, Copy, Debug, PartialEq, Eq, Structural)]
pub enum RowError {
    NegativeHeight,
    InvalidPrice,
}

impl StoredRow {
    /// The row is a sample: its height is not negative and its price is valid.
    pub open spec fn is_sample(&self) -> bool {
        self.block_height >= 0 && price_ok(self.price_bits)
    }

    /// The sample that a well-formed row stands for.
    pub open spec fn to_sample(&self) -> Sample {
        Sample {
            sequence_id: self.id,
            block_height: self.block_height as u64,
            price_bits: self.price_bits,
            timestamp: self.timestamp,
        }
    }
}

impl Sample {
    /// Reads a stored row as a sample, refusing a negative height and then an
    /// invalid price.
    pub fn from_row(row: &StoredRow) -> (r: Result<Sample, RowError>)
        ensures
            row.is_sample() <==> r is Ok,
            r is Ok ==> r->Ok_0 == row.to_sample(),
            row.block_height < 0 ==> r == Err::<Sample, RowError>(RowError::NegativeHeight),
            row.block_height >= 0 && !price_ok(row.price_bits) ==> r == Err::<Sample, RowError>(
                RowError::InvalidPrice,
            ),
    {
        if row.block_height < 0 {
            return Err(RowError::NegativeHeight);
        }
        if !is_valid_price_bits(row.price_bits) {
            return Err(RowError::InvalidPrice);
        }
        Ok(Sample {
            sequence_id: row.id,
            block_height: row.block_height as u64,
            price_bits: row.price_bits,
            timestamp: row.timestamp.clone(),
        })
    }
}

} // verus!
