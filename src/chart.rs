use vstd::prelude::*;

verus! {

/// Position of the mean's bar on the categorical horizontal axis.
pub const MEAN_TICK: i32 = 1;

/// Position of the variance's bar on the categorical horizontal axis.
pub const VARIANCE_TICK: i32 = 2;

/// End (exclusive) of the horizontal axis, which starts at zero.
pub const TICK_END: i32 = 3;

/// Whether a character cannot stand in a file name: a path separator or NUL.
pub open spec fn is_path_unsafe(c: char) -> bool {
    c == '/' || c == '\\' || c == '\0'
}

/// A character as it stands in a file name: unsafe ones become `_`.
pub open spec fn file_name_char(c: char) -> char {
    if is_path_unsafe(c) {
        '_'
    } else {
        c
    }
}

/// A column name made fit to be part of a file name, one character for one.
pub open spec fn file_name_part(name: Seq<char>) -> Seq<char> {
    name.map_values(|c: char| file_name_char(c))
}

/// Where the chart for a column is written: a file in `output/` named after the
/// column, so that no column name reaches outside that directory.
pub open spec fn chart_path_of(column_name: Seq<char>) -> Seq<char> {
    "output/"@ + file_name_part(column_name) + "_summary_chart.svg"@
}

/// The chart's title, which names the column.
pub open spec fn caption_of(column_name: Seq<char>) -> Seq<char> {
    "Statistical Summary of '"@ + column_name + "'"@
}

/// The label under a tick of the horizontal axis: the statistic drawn there, or
/// nothing.
pub open spec fn tick_label_of(tick: int) -> Seq<char> {
    if tick == MEAN_TICK {
        "Mean"@
    } else if tick == VARIANCE_TICK {
        "Variance"@
    } else {
        Seq::empty()
    }
}

/// The status line that reports where a chart was written.
pub open spec fn saved_line_of(path: Seq<char>) -> Seq<char> {
    "Chart saved to "@ + path
}

/// The file that the chart for `column_name` goes to: `output/<column>_summary_chart.svg`,
/// with each path separator or NUL of the name replaced by `_`.
pub fn chart_path(column_name: &str) -> (r: String)
    ensures
        r@ == chart_path_of(column_name@),
{
    let mut s = String::from_str("output/");
    let n = column_name.unicode_len();
    let mut i: usize = 0;
    while i < n
        invariant
            i <= n,
            n == column_name@.len(),
            s@ == "output/"@ + file_name_part(column_name@.subrange(0, i as int)),
        decreases n - i,
    {
        let c = column_name.get_char(i);
        let ghost before = s@;
        if c == '/' || c == '\\' || c == '\0' {
            proof {
                reveal_strlit("_");
            }
            s.append("_");
        } else {
            s.append(column_name.substring_char(i, i + 1));
        }
        proof {
            let name = column_name@;
            assert(name.subrange(0, i + 1) =~= name.subrange(0, i as int).push(c));
            assert(file_name_part(name.subrange(0, i + 1)) =~= file_name_part(
                name.subrange(0, i as int),
            ).push(file_name_char(c)));
            assert(s@ =~= before.push(file_name_char(c)));
        }
        i = i + 1;
    }
    proof {
        assert(column_name@.subrange(0, n as int) =~= column_name@);
    }
    s.append("_summary_chart.svg");
    s
}

/// The title of the chart for `column_name`.
pub fn chart_caption(column_name: &str) -> (r: String)
    ensures
        r@ == caption_of(column_name@),
{
    let mut s = String::from_str("Statistical Summary of '");
    s.append(column_name);
    s.append("'");
    s
}

/// The label written under `tick` on the horizontal axis.
pub fn tick_label(tick: i32) -> (r: String)
    ensures
        r@ == tick_label_of(tick as int),
{
    if tick == MEAN_TICK {
        String::from_str("Mean")
    } else if tick == VARIANCE_TICK {
        String::from_str("Variance")
    } else {
        String::new()
    }
}

/// The status line reporting that the chart was written to `path`.
pub fn saved_message(path: &str) -> (r: String)
    ensures
        r@ == saved_line_of(path@),
{
    let mut s = String::from_str("Chart saved to ");
    s.append(path);
    s
}

} // verus!
