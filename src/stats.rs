use vstd::prelude::*;

use polars::prelude::{DataFrame, Series};

use crate::error::{AnalysisError, ErrorKind};
use crate::frame::{
    cast_to_f64, f64_validity, find_column, frame_column, frame_columns,
    lemma_missing_count_zero, missing_count, series_len, series_null_count, series_validity,
};

verus! {

/// What reading a column allows: `Ok(n)` when its `n` values can be summarised,
/// otherwise the kind of failure.
///
/// A column that is absent, or that holds a value which could not be read as a
/// number, is a schema failure; a column of fewer than two values leaves the
/// sample variance (divisor `n - 1`) undefined.
pub open spec fn column_outcome(present: bool, len: nat, unparsed: nat) -> Result<nat, ErrorKind> {
    if !present || unparsed > 0 {
        Err(ErrorKind::Schema)
    } else if len < 2 {
        Err(ErrorKind::InsufficientData)
    } else {
        Ok(len)
    }
}

/// Decides whether the column `column_name` may be summarised, from what reading
/// the table found: whether the column is there, how many values it holds, and
/// how many of them could not be read as numbers.
///
/// On success the result is the number of values, at least two. A failure names
/// the column.
pub fn check_column(column_name: &str, present: bool, len: usize, unparsed: usize) -> (r: Result<
    usize,
    AnalysisError,
>)
    ensures
        match r {
            Ok(n) => column_outcome(present, len as nat, unparsed as nat) == Ok::<nat, ErrorKind>(
                n as nat,
            ),
            Err(e) => column_outcome(present, len as nat, unparsed as nat) == Err::<nat, ErrorKind>(
                e.kind,
            ) && e.subject@ == column_name@,
        },
{
    if !present || unparsed > 0 {
        Err(AnalysisError::new(ErrorKind::Schema, column_name))
    } else if len < 2 {
        Err(AnalysisError::new(ErrorKind::InsufficientData, column_name))
    } else {
        Ok(len)
    }
}

/// Selects the column `column_name` of `df` and reads each of its values as a
/// number.
///
/// An absent column, a column that cannot be cast to numbers, and a column with
/// a value that could not be read as a number are schema failures; a column of
/// fewer than two values is short of data. Otherwise the call succeeds, and the
/// column returned holds at least two values, none of them null. Every failure
/// names the column.
pub fn numeric_column(df: &DataFrame, column_name: &str) -> (r: Result<Series, AnalysisError>)
    ensures
        !frame_columns(*df).contains(column_name@) ==> (r is Err && r->Err_0.kind
            == ErrorKind::Schema),
        frame_columns(*df).contains(column_name@) ==> match f64_validity(
            frame_column(*df, column_name@),
        ) {
            None => r is Err && r->Err_0.kind == ErrorKind::Schema,
            Some(v) => match column_outcome(true, v.len(), missing_count(v)) {
                Ok(_) => r is Ok,
                Err(k) => r is Err && r->Err_0.kind == k,
            },
        },
        match r {
            Ok(c) => frame_columns(*df).contains(column_name@) && series_validity(c).len() >= 2
                && forall|i: int| 0 <= i < series_validity(c).len() ==> series_validity(c)[i],
            Err(e) => e.subject@ == column_name@ && (e.kind == ErrorKind::Schema || e.kind
                == ErrorKind::InsufficientData),
        },
{
    let found = find_column(df, column_name);
    let cast = match found {
        Some(s) => Some(cast_to_f64(s)),
        None => None,
    };
    match cast {
        Some(Ok(c)) => {
            let len = series_len(&c);
            let missing = series_null_count(&c);
            proof {
                lemma_missing_count_zero(series_validity(c));
            }
            match check_column(column_name, true, len, missing) {
                Ok(_) => Ok(c),
                Err(e) => Err(e),
            }
        },
        _ => Err(AnalysisError::new(ErrorKind::Schema, column_name)),
    }
}

} // verus!
