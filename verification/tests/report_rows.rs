use branch_report::QueryOutcome;
use branch_report::branch_text;
use branch_report::format_row;
use branch_report::header_line;
use branch_report::pad_name;
use branch_report::separator_line;
use branch_report::should_report;

#[test]
fn success_output_is_trimmed() {
    let q = QueryOutcome::Success { stdout: b"main\n".to_vec() };
    assert_eq!(branch_text(&q), "main");
}

#[test]
fn success_output_trims_surrounding_whitespace() {
    let q = QueryOutcome::Success { stdout: b"  feature/login \t\r\n".to_vec() };
    assert_eq!(branch_text(&q), "feature/login");
}

#[test]
fn success_output_decodes_invalid_bytes_permissively() {
    let q = QueryOutcome::Success { stdout: vec![0xff, b'm', b'a', b'i', b'n', b'\n'] };
    assert_eq!(branch_text(&q), "\u{fffd}main");
}

#[test]
fn empty_success_output_gives_empty_branch() {
    let q = QueryOutcome::Success { stdout: Vec::new() };
    assert_eq!(branch_text(&q), "");
}

#[test]
fn failed_query_reports_sentinel() {
    assert_eq!(branch_text(&QueryOutcome::Failed), "Error/No Commit");
}

#[test]
fn missing_tool_reports_sentinel() {
    assert_eq!(branch_text(&QueryOutcome::ToolMissing), "Git missing?");
}

#[test]
fn pad_name_fills_column() {
    assert_eq!(pad_name("repo"), "repo                          ");
    assert_eq!(pad_name(""), " ".repeat(30));
}

#[test]
fn pad_name_keeps_wide_names_whole() {
    let name = "a-folder-name-well-over-thirty-characters-long";
    assert_eq!(pad_name(name), name);
}

#[test]
fn row_has_fixed_columns() {
    assert_eq!(format_row("repo", "main"), "repo                           | main");
}

#[test]
fn row_with_wide_name_stays_intact() {
    let name = "a-folder-name-well-over-thirty-characters-long";
    let row = format_row(name, "main");
    assert_eq!(row, format!("{} | main", name));
    assert!(row.starts_with(name));
    assert!(row.ends_with("| main"));
}

#[test]
fn header_matches_fixed_width_format() {
    assert_eq!(header_line(), format!("{:<30} | {}", "Folder", "Branch"));
}

#[test]
fn separator_matches_fixed_width_format() {
    assert_eq!(separator_line(), format!("{:-<30}-|-{:-<20}", "", ""));
}

#[test]
fn files_are_never_reported() {
    assert!(!should_report(false, false));
    assert!(!should_report(false, true));
}

#[test]
fn directories_are_reported_iff_marked() {
    assert!(should_report(true, true));
    assert!(!should_report(true, false));
}
