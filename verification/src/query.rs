use vstd::prelude::*;

verus! {

/// The outcome of running the version-control branch query in one folder:
/// the query ran and succeeded with the given raw standard output, it ran
/// but exited with a failure status, or the tool could not be launched.
pub enum QueryOutcome {
    Success { stdout: Vec<u8> },
    Failed,
    ToolMissing,
}

/// The characters that permissively decoding the given bytes as UTF-8
/// yields: a function of the bytes alone, with invalid sequences replaced.
pub uninterp spec fn lossy_decode(bytes: Seq<u8>) -> Seq<char>;

/// The given characters with leading and trailing whitespace removed:
/// a function of the characters alone.
pub uninterp spec fn trim_ws(s: Seq<char>) -> Seq<char>;

/// Relies on String::from_utf8_lossy: it decodes the bytes permissively,
/// replacing invalid UTF-8 sequences instead of failing, and its result
/// depends on the bytes alone.
#[verifier::external_body]
fn decode_lossy(bytes: &Vec<u8>) -> (r: String)
    ensures
        r@ == lossy_decode(bytes@),
{
    String::from_utf8_lossy(bytes).into_owned()
}

/// Relies on str::trim: it removes leading and trailing whitespace, and
/// its result depends on the characters alone.
#[verifier::external_body]
fn trim_text(s: &str) -> (r: String)
    ensures
        r@ == trim_ws(s@),
{
    s.trim().to_owned()
}

/// The branch text that an outcome is reported as: the trimmed, permissively
/// decoded standard output on success, and a fixed sentinel for each of the
/// two failure modes.
pub open spec fn spec_branch_text(q: QueryOutcome) -> Seq<char> {
    match q {
        QueryOutcome::Success { stdout } => trim_ws(lossy_decode(stdout@)),
        QueryOutcome::Failed => "Error/No Commit"@,
        QueryOutcome::ToolMissing => "Git missing?"@,
    }
}

/// Turns a query outcome into the text shown in the report's branch column.
pub fn branch_text(q: &QueryOutcome) -> (r: String)
    ensures
        r@ == spec_branch_text(*q),
{
    match q {
        QueryOutcome::Success { stdout } => {
            let decoded = decode_lossy(stdout);
            trim_text(decoded.as_str())
        },
        QueryOutcome::Failed => "Error/No Commit".to_owned(),
        QueryOutcome::ToolMissing => "Git missing?".to_owned(),
    }
}

} // verus!
