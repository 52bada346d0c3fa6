//! The table, as the polars crate holds it, and the few of its operations that
//! choosing a column needs.

use vstd::prelude::*;

use polars::prelude::{DataFrame, DataType, PolarsError, Series};

verus! {

#[verifier::external_type_specification]
#[verifier::external_body]
pub struct ExDataFrame(DataFrame);

#[verifier::external_type_specification]
#[verifier::external_body]
pub struct ExSeries(Series);

#[verifier::external_type_specification]
#[verifier::external_body]
pub struct ExPolarsError(PolarsError);

/// The names of a table's columns, in order.
pub uninterp spec fn frame_columns(df: DataFrame) -> Seq<Seq<char>>;

/// The first column of a table whose name is `name`.
pub uninterp spec fn frame_column(df: DataFrame, name: Seq<char>) -> Series;

/// What reading a column as `Float64` gives: `None` when the cast fails,
/// otherwise for each value, in order, whether it came out present (not null).
pub uninterp spec fn f64_validity(s: Series) -> Option<Seq<bool>>;

/// For each value of a column, in order, whether it is present (not null).
pub uninterp spec fn series_validity(s: Series) -> Seq<bool>;

/// How many values of a validity sequence are missing.
pub open spec fn missing_count(v: Seq<bool>) -> nat
    decreases v.len(),
{
    if v.len() == 0 {
        0
    } else {
        missing_count(v.drop_last()) + if v.last() {
            0nat
        } else {
            1nat
        }
    }
}

/// No value is missing exactly when none is counted as missing.
pub proof fn lemma_missing_count_zero(v: Seq<bool>)
    ensures
        missing_count(v) == 0 <==> forall|i: int| 0 <= i < v.len() ==> v[i],
    decreases v.len(),
{
    if v.len() > 0 {
        lemma_missing_count_zero(v.drop_last());
        if missing_count(v) == 0 {
            assert forall|i: int| 0 <= i < v.len() implies v[i] by {
                if i < v.len() - 1 {
                    assert(v.drop_last()[i] == v[i]);
                }
            }
        } else if forall|i: int| 0 <= i < v.len() ==> v[i] {
            assert(v.last());
            assert forall|i: int| 0 <= i < v.drop_last().len() implies v.drop_last()[i] by {
                assert(v.drop_last()[i] == v[i]);
            }
        }
    }
}

/// Relies on `DataFrame::column`: it finds the column whose name equals `name`,
/// and fails when no column has that name.
#[verifier::external_body]
pub(crate) fn find_column<'a>(df: &'a DataFrame, name: &str) -> (r: Option<&'a Series>)
    ensures
        r is Some <==> frame_columns(*df).contains(name@),
        r is Some ==> *r->Some_0 == frame_column(*df, name@),
{
    df.column(name).ok()
}

/// Relies on `Series::cast` to `Float64`: numbers are widened and text is parsed;
/// values that cannot be read as numbers become null. The outcome depends on the
/// column alone.
#[verifier::external_body]
pub(crate) fn cast_to_f64(s: &Series) -> (r: Result<Series, PolarsError>)
    ensures
        r is Ok <==> f64_validity(*s) is Some,
        r is Ok ==> f64_validity(*s) == Some(series_validity(r->Ok_0)),
{
    s.cast(&DataType::Float64)
}

/// Relies on `Series::len`: the number of values, null or not.
#[verifier::external_body]
pub(crate) fn series_len(s: &Series) -> (r: usize)
    ensures
        r == series_validity(*s).len(),
{
    s.len()
}

/// Relies on `Series::null_count`: the number of null values.
#[verifier::external_body]
pub(crate) fn series_null_count(s: &Series) -> (r: usize)
    ensures
        r == missing_count(series_validity(*s)),
{
    s.null_count()
}

} // verus!
