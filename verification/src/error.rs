//! The ways a computation on a price series can fail.

use vstd::prelude::*;
use vstd::string::StringExecFns;

verus! {

/// Why a metric could not be computed.
#[derive(Clone, Copy, Debug, PartialEq, Eq, Structural)]
pub enum MetricsError {
    /// A close by which a change is measured is zero.
    DivisionByZero,
    /// A field that the report needs is absent.
    MissingData,
    /// A decimal result does not fit in an amount.
    Overflow,
}

impl MetricsError {
    /// The diagnostic shown for this error.
    pub open spec fn spec_message(self) -> Seq<char> {
        match self {
            MetricsError::DivisionByZero => "division by zero: a reference close is zero"@,
            MetricsError::MissingData => "missing data: a price bar has no volume"@,
            MetricsError::Overflow => "overflow: a decimal result is out of range"@,
        }
    }

    /// The diagnostic shown for this error.
    pub fn message(&self) -> (r: String)
        ensures
            r@ == self.spec_message(),
    {
        match self {
            MetricsError::DivisionByZero => String::from_str(
                "division by zero: a reference close is zero",
            ),
            MetricsError::MissingData => String::from_str(
                "missing data: a price bar has no volume",
            ),
            MetricsError::Overflow => String::from_str(
                "overflow: a decimal result is out of range",
            ),
        }
    }
}

} // verus!
