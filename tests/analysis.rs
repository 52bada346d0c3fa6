use csv_summary::chart::{
    chart_caption, chart_path, saved_message, tick_label, MEAN_TICK, TICK_END, VARIANCE_TICK,
};
use csv_summary::error::{AnalysisError, ErrorKind};
use csv_summary::stats::check_column;

#[test]
fn absent_column_is_a_schema_error() {
    let e = check_column("height", false, 0, 0).unwrap_err();
    assert_eq!(e.kind, ErrorKind::Schema);
    assert_eq!(e.subject, "height");
}

#[test]
fn absent_column_is_a_schema_error_whatever_the_counts() {
    let e = check_column("height", false, 10, 0).unwrap_err();
    assert_eq!(e.kind, ErrorKind::Schema);
}

#[test]
fn unreadable_value_is_a_schema_error() {
    let e = check_column("score", true, 4, 1).unwrap_err();
    assert_eq!(e.kind, ErrorKind::Schema);
    assert_eq!(e.subject, "score");
}

#[test]
fn unreadable_value_outranks_short_column() {
    let e = check_column("score", true, 1, 1).unwrap_err();
    assert_eq!(e.kind, ErrorKind::Schema);
}

#[test]
fn single_value_is_insufficient_data() {
    let e = check_column("score", true, 1, 0).unwrap_err();
    assert_eq!(e.kind, ErrorKind::InsufficientData);
    assert_eq!(e.subject, "score");
}

#[test]
fn empty_column_is_insufficient_data() {
    let e = check_column("score", true, 0, 0).unwrap_err();
    assert_eq!(e.kind, ErrorKind::InsufficientData);
}

#[test]
fn two_values_are_enough() {
    assert_eq!(check_column("score", true, 2, 0).unwrap(), 2);
}

#[test]
fn four_scores_are_accepted() {
    assert_eq!(check_column("score", true, 4, 0).unwrap(), 4);
}

#[test]
fn largest_column_is_accepted() {
    assert_eq!(check_column("x", true, usize::MAX, 0).unwrap(), usize::MAX);
}

#[test]
fn chart_path_for_score() {
    assert_eq!(chart_path("score"), "output/score_summary_chart.svg");
}

#[test]
fn chart_path_for_empty_name() {
    assert_eq!(chart_path(""), "output/_summary_chart.svg");
}

#[test]
fn caption_names_the_column() {
    assert_eq!(chart_caption("score"), "Statistical Summary of 'score'");
}

#[test]
fn tick_labels() {
    assert_eq!(tick_label(MEAN_TICK), "Mean");
    assert_eq!(tick_label(VARIANCE_TICK), "Variance");
    assert_eq!(tick_label(0), "");
    assert_eq!(tick_label(TICK_END), "");
    assert_eq!(tick_label(-1), "");
}

#[test]
fn bars_sit_inside_the_axis() {
    assert!(0 < MEAN_TICK && MEAN_TICK < VARIANCE_TICK && VARIANCE_TICK < TICK_END);
}

#[test]
fn saved_message_names_the_path() {
    assert_eq!(
        saved_message("output/score_summary_chart.svg"),
        "Chart saved to output/score_summary_chart.svg"
    );
}

#[test]
fn error_messages_name_kind_and_input() {
    assert_eq!(
        AnalysisError::new(ErrorKind::Io, "data.csv").message(),
        "I/O error on 'data.csv'"
    );
    assert_eq!(
        AnalysisError::new(ErrorKind::Schema, "height").message(),
        "schema error on 'height'"
    );
    assert_eq!(
        AnalysisError::new(ErrorKind::InsufficientData, "score").message(),
        "insufficient data error on 'score'"
    );
    assert_eq!(
        AnalysisError::new(ErrorKind::Render, "output/score_summary_chart.svg").message(),
        "render error on 'output/score_summary_chart.svg'"
    );
}

#[test]
fn kind_labels() {
    assert_eq!(ErrorKind::Io.label(), "I/O");
    assert_eq!(ErrorKind::Schema.label(), "schema");
    assert_eq!(ErrorKind::InsufficientData.label(), "insufficient data");
    assert_eq!(ErrorKind::Render.label(), "render");
}

#[test]
fn chart_path_replaces_separators() {
    assert_eq!(chart_path("a/b"), "output/a_b_summary_chart.svg");
    assert_eq!(chart_path("../up"), "output/.._up_summary_chart.svg");
    assert_eq!(chart_path("c:\\d"), "output/c:_d_summary_chart.svg");
    assert_eq!(chart_path("x\0y"), "output/x_y_summary_chart.svg");
}

#[test]
fn chart_path_keeps_other_characters() {
    assert_eq!(chart_path("höhe (cm)"), "output/höhe (cm)_summary_chart.svg");
}
