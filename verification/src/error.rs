use vstd::prelude::*;

verus! {

/// The verdict's reject reasons.
///
/// The first tier mirrors the host's structural access errors (a cell or
/// header index past the end, a missing item, a payload shorter than a fixed
/// layout, a codec failure). The second tier holds the business rules of the
/// oracle transition itself. The reason is the only externally visible
/// diagnostic of a run, so each variant keeps a stable numeric code.
#[derive(Debug, Clone, Copy, PartialEq, Eq, Structural)]
pub enum Error {
    IndexOutOfBound,
    ItemMissing,
    LengthNotEnough,
    Encoding,
    UnexpectedOutputTimeOracleCells,
    UnexpectOracleId,
    NotFoundAnchoredHeaderDep,
    NotAllowedToUpdateInATimeSpanLessThan60s,
    NotAllowedToIssueMoreThan1000000Tokens,
    InvalidTimeOracleData,
    Unreachable,
}

impl Error {
    /// The stable numeric code of each reason, as it is surfaced to the host.
    pub open spec fn spec_code(self) -> i8 {
        match self {
            Error::IndexOutOfBound => 1,
            Error::ItemMissing => 2,
            Error::LengthNotEnough => 3,
            Error::Encoding => 4,
            Error::UnexpectedOutputTimeOracleCells => 100,
            Error::UnexpectOracleId => 101,
            Error::NotFoundAnchoredHeaderDep => 102,
            Error::NotAllowedToUpdateInATimeSpanLessThan60s => 103,
            Error::NotAllowedToIssueMoreThan1000000Tokens => 104,
            Error::InvalidTimeOracleData => 105,
            Error::Unreachable => 106,
        }
    }

    pub fn code(&self) -> (r: i8)
        ensures
            r == self.spec_code(),
    {
        match self {
            Error::IndexOutOfBound => 1,
            Error::ItemMissing => 2,
            Error::LengthNotEnough => 3,
            Error::Encoding => 4,
            Error::UnexpectedOutputTimeOracleCells => 100,
            Error::UnexpectOracleId => 101,
            Error::NotFoundAnchoredHeaderDep => 102,
            Error::NotAllowedToUpdateInATimeSpanLessThan60s => 103,
            Error::NotAllowedToIssueMoreThan1000000Tokens => 104,
            Error::InvalidTimeOracleData => 105,
            Error::Unreachable => 106,
        }
    }
}

} // verus!
