//! The composed prompt: a fixed frame around a code analysis and the commit
//! log, for callers that work without a template.
//!
//! The code analysis comes from a summarizing tool that the caller runs on
//! the changed files alone; [`include_patterns`] names those files to it.
//! Nothing of a composed prompt is written to disk.

use vstd::prelude::*;
use vstd::string::StringExecFns;
use crate::text::texts;

verus! {

/// The pattern that matches `path` wherever it lies below the root.
pub open spec fn include_pattern_of(path: Seq<char>) -> Seq<char> {
    "**/"@ + path
}

/// The sentence that opens a composed prompt.
pub open spec fn header() -> Seq<char> {
    "Analyze the following pull request and write a description for it."@
}

/// What a description must hold.
pub open spec fn instructions() -> Seq<char> {
    "The description must contain:\n1. A title\n2. A summary of the changes\n3. Technical details\n4. Impact and considerations"@
}

/// The composed prompt: the header, the code analysis under its label, the
/// commit log under its label, and the instructions, in this order.
pub open spec fn composed_prompt_of(analysis: Seq<char>, log: Seq<char>) -> Seq<char> {
    header() + "\n\nCode Analysis:\n"@ + analysis + "\n\nGit Log:\n"@ + log + "\n\n"@
        + instructions()
}

/// The include pattern for one changed file.
pub fn include_pattern(path: &str) -> (r: String)
    ensures
        r@ == include_pattern_of(path@),
{
    let mut r = "**/".to_owned();
    r.append(path);
    r
}

/// The include patterns for the changed files, one for each, in order.
pub fn include_patterns(files: &Vec<String>) -> (r: Vec<String>)
    ensures
        texts(r@) == texts(files@).map_values(|p: Seq<char>| include_pattern_of(p)),
{
    let mut r: Vec<String> = Vec::new();
    let mut i: usize = 0;
    while i < files.len()
        invariant
            i <= files.len(),
            r@.len() == i,
            forall|k: int| 0 <= k < i ==> #[trigger] r@[k]@ == include_pattern_of(files@[k]@),
        decreases files.len() - i,
    {
        r.push(include_pattern(files[i].as_str()));
        i += 1;
    }
    proof {
        assert(texts(r@) =~= texts(files@).map_values(|p: Seq<char>| include_pattern_of(p)));
    }
    r
}

/// Composes the prompt from the code analysis and the commit log.
pub fn compose_prompt(analysis: &str, log: &str) -> (r: String)
    ensures
        r@ == composed_prompt_of(analysis@, log@),
{
    let mut r = "Analyze the following pull request and write a description for it.".to_owned();
    r.append("\n\nCode Analysis:\n");
    r.append(analysis);
    r.append("\n\nGit Log:\n");
    r.append(log);
    r.append("\n\n");
    r.append(
        "The description must contain:\n1. A title\n2. A summary of the changes\n3. Technical details\n4. Impact and considerations",
    );
    r
}

} // verus!
