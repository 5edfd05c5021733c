//! The repository inspector: which questions are put to the version-control
//! tool, with which arguments, and what is read out of each answer.
//!
//! Nothing here starts a process. The caller runs the tool with the arguments
//! given by [`arguments`] and hands back what it printed as a
//! [`CommandOutput`].

use vstd::prelude::*;
use vstd::string::StringExecFns;
use vstd::utf8::{decode_utf8, valid_utf8};
use crate::error::RunError;
use crate::text::{
    is_blank, lines, non_blank_lines, split_non_blank_lines, texts, trim, trimmed,
};

verus! {

/// What a finished command left behind.
pub struct CommandOutput {
    /// The exit status; `None` when the tool could not be started.
    pub status: Option<i32>,
    /// The bytes it wrote to standard output.
    pub stdout: Vec<u8>,
}

/// The questions that are put to the version-control tool.
#[derive(Debug, Clone, Copy, PartialEq, Eq, Structural)]
pub enum Query {
    /// Name of the branch that is checked out.
    CurrentBranch,
    /// Paths of the files that differ between the two branch tips.
    ChangedFiles,
    /// Unified diff between the two branch tips.
    Diff,
    /// Log of the commits on the current branch that the base lacks.
    Log,
    /// Author times of those commits, oldest first.
    FirstCommitTime,
    /// Author time of the newest commit of the current branch.
    LastCommitTime,
    /// Number of commits on the current branch that the base lacks.
    CommitCount,
    /// Commit counts per author, merges left out, most commits first.
    Contributors,
}

/// The range `base..current`: what `current` reaches and `base` does not.
pub open spec fn range_of(base: Seq<char>, current: Seq<char>) -> Seq<char> {
    base + ".."@ + current
}

/// The arguments with which the version-control tool answers `query`.
///
/// Diffs compare the two branch tips directly (the two-dot form); logs and
/// counts cover the commits in `base..current`.
pub open spec fn arguments_of(query: Query, base: Seq<char>, current: Seq<char>) -> Seq<
    Seq<char>,
> {
    match query {
        Query::CurrentBranch => seq!["rev-parse"@, "--abbrev-ref"@, "HEAD"@],
        Query::ChangedFiles => seq!["diff"@, "--name-only"@, base, current],
        Query::Diff => seq!["diff"@, base, current],
        Query::Log => seq!["log"@, range_of(base, current)],
        Query::FirstCommitTime => seq![
            "log"@,
            "--reverse"@,
            "--format=%at"@,
            range_of(base, current),
        ],
        Query::LastCommitTime => seq!["log"@, "-1"@, "--format=%at"@, current],
        Query::CommitCount => seq!["rev-list"@, "--count"@, range_of(base, current)],
        Query::Contributors => seq![
            "shortlog"@,
            "-sn"@,
            "--no-merges"@,
            range_of(base, current),
        ],
    }
}

/// The arguments of the directory listing: two levels deep, no summary line,
/// ASCII line drawing.
pub open spec fn listing_arguments_of() -> Seq<Seq<char>> {
    seq!["-L"@, "2"@, "--noreport"@, "--charset"@, "ascii"@]
}

/// The text that a version-control command printed: an error unless it ended
/// with status zero and printed valid UTF-8.
pub open spec fn vcs_text(status: Option<i32>, stdout: Seq<u8>) -> Result<Seq<char>, RunError> {
    if status != Some(0i32) {
        Err(RunError::VcsCommand)
    } else if !valid_utf8(stdout) {
        Err(RunError::Encoding)
    } else {
        Ok(decode_utf8(stdout))
    }
}

/// The text that the directory listing printed. Its exit status is not
/// looked at, only whether it ran at all.
pub open spec fn listing_text(status: Option<i32>, stdout: Seq<u8>) -> Result<Seq<char>, RunError> {
    if status is None {
        Err(RunError::Io)
    } else if !valid_utf8(stdout) {
        Err(RunError::Encoding)
    } else {
        Ok(trimmed(decode_utf8(stdout)))
    }
}

/// What each kind of answer holds, once decoded: trimmed text.
pub open spec fn trimmed_answer(status: Option<i32>, stdout: Seq<u8>) -> Result<
    Seq<char>,
    RunError,
> {
    match vcs_text(status, stdout) {
        Ok(t) => Ok(trimmed(t)),
        Err(e) => Err(e),
    }
}

/// The changed files that an answer names: its lines that are not blank.
pub open spec fn changed_files_of(status: Option<i32>, stdout: Seq<u8>) -> Result<
    Seq<Seq<char>>,
    RunError,
> {
    match vcs_text(status, stdout) {
        Ok(t) => Ok(non_blank_lines(t)),
        Err(e) => Err(e),
    }
}

/// Whether `r` is `expected`, comparing a string by its characters.
pub open spec fn is_text_result(
    r: Result<String, RunError>,
    expected: Result<Seq<char>, RunError>,
) -> bool {
    match r {
        Ok(s) => expected == Ok::<Seq<char>, RunError>(s@),
        Err(e) => expected == Err::<Seq<char>, RunError>(e),
    }
}

/// Decodes UTF-8 with `std::str::from_utf8`: `Some` exactly for the byte
/// sequences that are valid UTF-8, and then the text that they encode.
#[verifier::external_body]
fn utf8_text(bytes: &[u8]) -> (r: Option<&str>)
    ensures
        r is Some <==> valid_utf8(bytes@),
        r matches Some(s) ==> s@ == decode_utf8(bytes@),
{
    match std::str::from_utf8(bytes) {
        Ok(s) => Some(s),
        Err(_) => None,
    }
}

/// The range `base..current`.
pub fn range(base: &str, current: &str) -> (r: String)
    ensures
        r@ == range_of(base@, current@),
{
    let mut r = base.to_owned();
    r.append("..");
    r.append(current);
    r
}

/// The arguments with which the version-control tool answers `query` about
/// the branches `base` and `current`.
pub fn arguments(query: Query, base: &str, current: &str) -> (args: Vec<String>)
    ensures
        texts(args@) == arguments_of(query, base@, current@),
{
    let mut args: Vec<String> = Vec::new();
    match query {
        Query::CurrentBranch => {
            args.push("rev-parse".to_owned());
            args.push("--abbrev-ref".to_owned());
            args.push("HEAD".to_owned());
        },
        Query::ChangedFiles => {
            args.push("diff".to_owned());
            args.push("--name-only".to_owned());
            args.push(base.to_owned());
            args.push(current.to_owned());
        },
        Query::Diff => {
            args.push("diff".to_owned());
            args.push(base.to_owned());
            args.push(current.to_owned());
        },
        Query::Log => {
            args.push("log".to_owned());
            args.push(range(base, current));
        },
        Query::FirstCommitTime => {
            args.push("log".to_owned());
            args.push("--reverse".to_owned());
            args.push("--format=%at".to_owned());
            args.push(range(base, current));
        },
        Query::LastCommitTime => {
            args.push("log".to_owned());
            args.push("-1".to_owned());
            args.push("--format=%at".to_owned());
            args.push(current.to_owned());
        },
        Query::CommitCount => {
            args.push("rev-list".to_owned());
            args.push("--count".to_owned());
            args.push(range(base, current));
        },
        Query::Contributors => {
            args.push("shortlog".to_owned());
            args.push("-sn".to_owned());
            args.push("--no-merges".to_owned());
            args.push(range(base, current));
        },
    }
    proof {
        assert(texts(args@) =~= arguments_of(query, base@, current@));
    }
    args
}

/// The arguments of the directory listing.
pub fn listing_arguments() -> (args: Vec<String>)
    ensures
        texts(args@) == listing_arguments_of(),
{
    let mut args: Vec<String> = Vec::new();
    args.push("-L".to_owned());
    args.push("2".to_owned());
    args.push("--noreport".to_owned());
    args.push("--charset".to_owned());
    args.push("ascii".to_owned());
    proof {
        assert(texts(args@) =~= listing_arguments_of());
    }
    args
}

/// Decodes what a version-control command printed.
pub fn read_output(out: &CommandOutput) -> (r: Result<String, RunError>)
    ensures
        is_text_result(r, vcs_text(out.status, out.stdout@)),
{
    match out.status {
        Some(0) => {},
        _ => {
            return Err(RunError::VcsCommand);
        },
    }
    match utf8_text(out.stdout.as_slice()) {
        Some(s) => Ok(s.to_owned()),
        None => Err(RunError::Encoding),
    }
}

/// Decodes what a version-control command printed and trims it. This reads
/// the answers to `CurrentBranch`, `Diff`, `Log`, `CommitCount` and
/// `Contributors`.
pub fn read_trimmed(out: &CommandOutput) -> (r: Result<String, RunError>)
    ensures
        is_text_result(r, trimmed_answer(out.status, out.stdout@)),
{
    match read_output(out) {
        Ok(s) => Ok(trim(s.as_str())),
        Err(e) => Err(e),
    }
}

/// Reads the answer to `ChangedFiles`: one path per line, blank lines left
/// out, in the order in which the tool printed them.
pub fn read_changed_files(out: &CommandOutput) -> (r: Result<Vec<String>, RunError>)
    ensures
        match r {
            Ok(files) => changed_files_of(out.status, out.stdout@) == Ok::<
                Seq<Seq<char>>,
                RunError,
            >(texts(files@)),
            Err(e) => changed_files_of(out.status, out.stdout@) == Err::<Seq<Seq<char>>, RunError>(
                e,
            ),
        },
        r matches Ok(files) ==> forall|i: int|
            0 <= i < files@.len() ==> !is_blank(#[trigger] files@[i]@),
{
    match read_output(out) {
        Ok(s) => Ok(split_non_blank_lines(s.as_str())),
        Err(e) => Err(e),
    }
}

/// Decodes what the directory listing printed and trims it.
pub fn read_listing(out: &CommandOutput) -> (r: Result<String, RunError>)
    ensures
        is_text_result(r, listing_text(out.status, out.stdout@)),
{
    if out.status.is_none() {
        return Err(RunError::Io);
    }
    match utf8_text(out.stdout.as_slice()) {
        Some(s) => Ok(trim(s)),
        None => Err(RunError::Encoding),
    }
}

/// The changed files are the non-blank lines of the answer, in order: none of
/// them is blank, there are as many as the answer has non-blank lines, and
/// there is at least one as soon as the answer names a file.
pub proof fn lemma_changed_files(text: Seq<char>)
    ensures
        forall|i: int|
            0 <= i < non_blank_lines(text).len() ==> !is_blank(#[trigger] non_blank_lines(text)[i]),
        non_blank_lines(text).len() <= lines(text).len(),
        (exists|k: int| 0 <= k < lines(text).len() && !is_blank(#[trigger] lines(text)[k]))
            ==> non_blank_lines(text).len() > 0,
{
    let keep = |l: Seq<char>| !is_blank(l);
    let all = lines(text);
    all.lemma_filter_len(keep);
    assert forall|i: int| 0 <= i < all.filter(keep).len() implies !is_blank(
        #[trigger] all.filter(keep)[i],
    ) by {
        all.lemma_filter_pred(keep, i);
    }
    if exists|k: int| 0 <= k < all.len() && !is_blank(#[trigger] all[k]) {
        let k = choose|k: int| 0 <= k < all.len() && !is_blank(#[trigger] all[k]);
        all.lemma_filter_contains(keep, k);
        assert(all.filter(keep).contains(all[k]));
    }
}

} // verus!
