//! Output formatting of diagnostic reports.

pub mod terminal;

pub use terminal::write_report as write_report_terminal;
