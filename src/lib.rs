//! Descriptive statistics of one column of a table, and the text and layout of
//! the two-bar chart that compares them: which column can be summarised, why a
//! run fails, and where and under which labels the chart is written.

pub mod chart;
pub mod error;
pub mod frame;
pub mod stats;
