//! The semantic-convention policy: how a raw result of the storage engine
//! is turned into the value a repository operation reports. Mutating
//! operations report a boolean derived from the affected-row count, and a
//! count aggregation is converted to an unsigned integer.
use vstd::prelude::*;

use crate::RepoError;

verus! {

/// Derive the reported boolean of a key-scoped mutation from its
/// affected-row count: no row is "not changed", one row is "changed", and
/// more than one row breaks the single-row invariant of a key and is a
/// fatal internal-consistency failure, never a silent success.
pub fn affected_to_changed(affected: usize) -> (r: Result<bool, RepoError>)
    ensures
        affected == 0 ==> r == Ok::<bool, RepoError>(false),
        affected == 1 ==> r == Ok::<bool, RepoError>(true),
        affected > 1 ==> r == Err::<bool, RepoError>(RepoError::InvariantViolation),
{
    if affected == 0 {
        Ok(false)
    } else if affected == 1 {
        Ok(true)
    } else {
        Err(RepoError::InvariantViolation)
    }
}

/// Convert the signed count a storage engine aggregates into the unsigned
/// count a repository reports. A negative count cannot stand for a number
/// of rows: it is rejected as a conversion failure, never truncated.
pub fn count_from_engine(raw: i64) -> (r: Result<u64, RepoError>)
    ensures
        raw >= 0 ==> r == Ok::<u64, RepoError>(raw as u64),
        raw < 0 ==> r == Err::<u64, RepoError>(RepoError::TypeConversionFailure),
{
    if raw >= 0 {
        Ok(raw as u64)
    } else {
        Err(RepoError::TypeConversionFailure)
    }
}

} // verus!
