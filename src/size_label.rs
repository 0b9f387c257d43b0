//! Byte counts in decimal units, for naming the output.
use vstd::prelude::*;

verus! {

#[derive(Debug, Clone, Copy, PartialEq, Eq, Structural)]
pub enum SizeUnit {
    B,
    KB,
    MB,
    GB,
    TB,
}

/// The unit a byte count is shown in: the largest power of a thousand up to
/// terabytes; counts of a thousand terabytes and more stay in bytes.
pub open spec fn unit_of(bytes: u64) -> SizeUnit {
    if 1_000 <= bytes <= 999_999 {
        SizeUnit::KB
    } else if 1_000_000 <= bytes <= 999_999_999 {
        SizeUnit::MB
    } else if 1_000_000_000 <= bytes <= 999_999_999_999 {
        SizeUnit::GB
    } else if 1_000_000_000_000 <= bytes <= 999_999_999_999_999 {
        SizeUnit::TB
    } else {
        SizeUnit::B
    }
}

impl SizeUnit {
    pub open spec fn factor(self) -> u64 {
        match self {
            SizeUnit::B => 1,
            SizeUnit::KB => 1_000,
            SizeUnit::MB => 1_000_000,
            SizeUnit::GB => 1_000_000_000,
            SizeUnit::TB => 1_000_000_000_000,
        }
    }

    pub fn divisor(&self) -> (r: u64)
        ensures
            r == self.factor(),
    {
        match self {
            SizeUnit::B => 1,
            SizeUnit::KB => 1_000,
            SizeUnit::MB => 1_000_000,
            SizeUnit::GB => 1_000_000_000,
            SizeUnit::TB => 1_000_000_000_000,
        }
    }

    pub fn suffix(&self) -> (r: &'static str)
        ensures
            *self == SizeUnit::B ==> r@ == "B"@,
            *self == SizeUnit::KB ==> r@ == "KB"@,
            *self == SizeUnit::MB ==> r@ == "MB"@,
            *self == SizeUnit::GB ==> r@ == "GB"@,
            *self == SizeUnit::TB ==> r@ == "TB"@,
    {
        match self {
            SizeUnit::B => "B",
            SizeUnit::KB => "KB",
            SizeUnit::MB => "MB",
            SizeUnit::GB => "GB",
            SizeUnit::TB => "TB",
        }
    }
}

/// `bytes` in its unit, rounded down, and the unit.
pub fn size_label(bytes: u64) -> (r: (u64, SizeUnit))
    ensures
        r.1 == unit_of(bytes),
        r.0 == bytes / unit_of(bytes).factor(),
{
    let unit = if 1_000 <= bytes && bytes <= 999_999 {
        SizeUnit::KB
    } else if 1_000_000 <= bytes && bytes <= 999_999_999 {
        SizeUnit::MB
    } else if 1_000_000_000 <= bytes && bytes <= 999_999_999_999 {
        SizeUnit::GB
    } else if 1_000_000_000_000 <= bytes && bytes <= 999_999_999_999_999 {
        SizeUnit::TB
    } else {
        SizeUnit::B
    };
    (bytes / unit.divisor(), unit)
}

} // verus!
