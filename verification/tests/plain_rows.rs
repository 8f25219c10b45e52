use branch_report::QueryOutcome;
use branch_report::report_row;

#[test]
fn row_for_successful_query_without_colors() {
    colored::control::set_override(false);
    let q = QueryOutcome::Success { stdout: b"main\n".to_vec() };
    assert_eq!(report_row("repo", &q), format!("{:<30} | main", "repo"));
}

#[test]
fn row_for_failed_query_without_colors() {
    colored::control::set_override(false);
    assert_eq!(
        report_row("repo", &QueryOutcome::Failed),
        format!("{:<30} | Error/No Commit", "repo"),
    );
}

#[test]
fn row_for_missing_tool_without_colors() {
    colored::control::set_override(false);
    assert_eq!(
        report_row("repo", &QueryOutcome::ToolMissing),
        format!("{:<30} | Git missing?", "repo"),
    );
}
