use vstd::prelude::*;

use crate::palette::colorized_ok;
use crate::palette::get_random_color;
use crate::query::QueryOutcome;
use crate::query::branch_text;
use crate::query::spec_branch_text;

verus! {

/// The character `c` repeated `n` times.
pub open spec fn repeat_char(c: char, n: nat) -> Seq<char>
    decreases n,
{
    if n == 0 {
        Seq::empty()
    } else {
        repeat_char(c, (n - 1) as nat).push(c)
    }
}

/// The text left-aligned in a column of width `w`: padded with trailing
/// spaces when shorter, and left as it is (overflowing the column) when
/// `w` or longer.
pub open spec fn pad_to(s: Seq<char>, w: nat) -> Seq<char> {
    if s.len() >= w {
        s
    } else {
        s + repeat_char(' ', (w - s.len()) as nat)
    }
}

/// The width of the report's folder-name column.
pub const NAME_WIDTH: usize = 30;

/// The width that the separator line gives the branch column.
pub const BRANCH_RULE_WIDTH: usize = 20;

/// One report line: the folder name left-aligned to the name column's
/// width, the column separator, and the branch column's text.
pub open spec fn spec_row(name: Seq<char>, branch_display: Seq<char>) -> Seq<char> {
    pad_to(name, NAME_WIDTH as nat) + " | "@ + branch_display
}

/// The rule drawn under the header: a dashed run as wide as the name
/// column, a dashed column separator, and a dashed run for the branch column.
pub open spec fn spec_separator() -> Seq<char> {
    repeat_char('-', NAME_WIDTH as nat) + "-|-"@ + repeat_char('-', BRANCH_RULE_WIDTH as nat)
}

/// A run of `n` dashes.
fn dash_run(n: usize) -> (r: String)
    ensures
        r@ == repeat_char('-', n as nat),
{
    let mut out = String::new();
    let mut i: usize = 0;
    while i < n
        invariant
            i <= n,
            out@ == repeat_char('-', i as nat),
        decreases n - i,
    {
        proof {
            reveal_strlit("-");
            assert(out@ + "-"@ =~= repeat_char('-', (i + 1) as nat));
        }
        out.append("-");
        i = i + 1;
    }
    out
}

/// Left-aligns a folder name in the name column: appends spaces up to the
/// column width, and leaves longer names as they are.
pub fn pad_name(name: &str) -> (r: String)
    ensures
        r@ == pad_to(name@, NAME_WIDTH as nat),
{
    let mut out: String = name.to_owned();
    let mut n: usize = name.unicode_len();
    while n < NAME_WIDTH
        invariant
            name@.len() <= n,
            n <= NAME_WIDTH || n == name@.len(),
            out@ == pad_to(name@, n as nat),
        decreases NAME_WIDTH - n,
    {
        proof {
            reveal_strlit(" ");
            assert(pad_to(name@, n as nat) + " "@ =~= pad_to(name@, (n + 1) as nat));
        }
        out.append(" ");
        n = n + 1;
    }
    out
}

/// Builds one report line from a folder name and the branch column's text.
pub fn format_row(name: &str, branch_display: &str) -> (r: String)
    ensures
        r@ == spec_row(name@, branch_display@),
{
    let mut out = pad_name(name);
    out.append(" | ");
    out.append(branch_display);
    out
}

/// The report's header line, with the two column titles.
pub fn header_line() -> (r: String)
    ensures
        r@ == spec_row("Folder"@, "Branch"@),
{
    format_row("Folder", "Branch")
}

/// The report's separator line.
pub fn separator_line() -> (r: String)
    ensures
        r@ == spec_separator(),
{
    let mut out = dash_run(NAME_WIDTH);
    out.append("-|-");
    let tail = dash_run(BRANCH_RULE_WIDTH);
    out.append(tail.as_str());
    proof {
        assert(out@ =~= spec_separator());
    }
    out
}

/// A directory entry earns a report row exactly when it is itself a
/// directory and contains the version-control metadata folder.
pub open spec fn qualifies(is_dir: bool, has_vcs_metadata: bool) -> bool {
    is_dir && has_vcs_metadata
}

/// Decides whether a directory entry is reported, from whether the entry
/// is a directory and whether it contains the version-control metadata
/// folder.
pub fn should_report(is_dir: bool, has_vcs_metadata: bool) -> (r: bool)
    ensures
        r == qualifies(is_dir, has_vcs_metadata),
{
    is_dir && has_vcs_metadata
}

/// An entry that is not itself a directory — a plain file, say — never
/// qualifies for a report row, whatever else holds of it.
pub proof fn lemma_file_entry_never_reported(has_vcs_metadata: bool)
    ensures
        !qualifies(false, has_vcs_metadata),
{
}

/// A directory without the version-control metadata folder never qualifies
/// for a report row.
pub proof fn lemma_plain_directory_never_reported(is_dir: bool)
    ensures
        !qualifies(is_dir, false),
{
}

/// Holds of a row printed for a folder with the given query outcome: the
/// row starts with the name left-aligned to the name column and the column
/// separator, and the rest of the row is the outcome's branch text, either
/// plain or wrapped in one palette color's ANSI sequences.
pub open spec fn row_matches(name: Seq<char>, q: QueryOutcome, row: Seq<char>) -> bool {
    let head = pad_to(name, NAME_WIDTH as nat) + " | "@;
    &&& row.len() >= head.len()
    &&& row.subrange(0, head.len() as int) == head
    &&& colorized_ok(spec_branch_text(q), row.subrange(head.len() as int, row.len() as int))
}

/// Builds the report row for one qualifying folder: its name left-aligned
/// in the name column, then the outcome's branch text in a randomly drawn
/// palette color.
pub fn report_row(name: &str, q: &QueryOutcome) -> (r: String)
    ensures
        row_matches(name@, *q, r@),
{
    let branch = branch_text(q);
    let display = get_random_color(branch.as_str());
    let r = format_row(name, display.as_str());
    proof {
        let head = pad_to(name@, NAME_WIDTH as nat) + " | "@;
        assert(r@.subrange(0, head.len() as int) =~= head);
        assert(r@.subrange(head.len() as int, r@.len() as int) =~= display@);
    }
    r
}

proof fn lemma_repeat_char_elts(c: char, n: nat)
    ensures
        repeat_char(c, n).len() == n,
        forall|i: int| 0 <= i < n ==> repeat_char(c, n)[i] == c,
    decreases n,
{
    if n > 0 {
        lemma_repeat_char_elts(c, (n - 1) as nat);
    }
}

/// Every row whose folder name fits the name column has the same shape:
/// the padded name fills the column exactly, the column separator stands
/// right after it, and the branch text fills the rest of the line.
pub proof fn lemma_fitting_name_aligns_columns(name: Seq<char>, branch_display: Seq<char>)
    requires
        name.len() <= NAME_WIDTH,
    ensures
        pad_to(name, NAME_WIDTH as nat).len() == NAME_WIDTH,
        spec_row(name, branch_display).len() == NAME_WIDTH + 3 + branch_display.len(),
        spec_row(name, branch_display).subrange(NAME_WIDTH as int, NAME_WIDTH as int + 3) == " | "@,
{
    reveal_strlit(" | ");
    if name.len() < NAME_WIDTH {
        lemma_repeat_char_elts(' ', (NAME_WIDTH - name.len()) as nat);
    }
    assert(spec_row(name, branch_display).subrange(NAME_WIDTH as int, NAME_WIDTH as int + 3)
        =~= " | "@);
}

/// A row longer than the name column keeps the report's shape: for a name
/// at least as wide as the column, the row is exactly the name, the column
/// separator, and the branch column's text, with nothing cut off.
pub proof fn lemma_long_name_keeps_row_shape(name: Seq<char>, branch_display: Seq<char>)
    requires
        name.len() >= NAME_WIDTH,
    ensures
        spec_row(name, branch_display) == name + " | "@ + branch_display,
{
}

} // verus!
