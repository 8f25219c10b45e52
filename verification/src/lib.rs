mod palette;
mod query;
mod report;

pub use palette::PaletteColor;
pub use palette::ansi_prefix;
pub use palette::ansi_reset;
pub use palette::color_for_index;
pub use palette::colorized_ok;
pub use palette::get_random_color;
pub use palette::has_no_escape;
pub use palette::index_color;
pub use query::QueryOutcome;
pub use query::branch_text;
pub use query::lossy_decode;
pub use query::spec_branch_text;
pub use query::trim_ws;
pub use report::BRANCH_RULE_WIDTH;
pub use report::NAME_WIDTH;
pub use report::format_row;
pub use report::header_line;
pub use report::lemma_file_entry_never_reported;
pub use report::lemma_fitting_name_aligns_columns;
pub use report::lemma_long_name_keeps_row_shape;
pub use report::lemma_plain_directory_never_reported;
pub use report::pad_name;
pub use report::pad_to;
pub use report::qualifies;
pub use report::repeat_char;
pub use report::report_row;
pub use report::row_matches;
pub use report::separator_line;
pub use report::should_report;
pub use report::spec_row;
pub use report::spec_separator;
