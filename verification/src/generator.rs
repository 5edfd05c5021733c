//! The settings of a run.

use vstd::prelude::*;
use crate::text::texts;

verus! {

/// The settings with which pull-request descriptions are generated.
pub struct PrGenerator {
    template_path: String,
    exclude_patterns: Vec<String>,
    claude_api_key: String,
    token_github: String,
}

/// `PrGenerator` as mathematical values.
pub struct GeneratorView {
    /// Where the prompt template is read from.
    pub template_path: Seq<char>,
    /// Glob patterns of the paths that are of no interest.
    pub exclude_patterns: Seq<Seq<char>>,
    /// The key that opens the text-generation service.
    pub claude_api_key: Seq<char>,
    /// The access token for the host of the repository.
    pub token_github: Seq<char>,
}

impl View for PrGenerator {
    type V = GeneratorView;

    closed spec fn view(&self) -> GeneratorView {
        GeneratorView {
            template_path: self.template_path@,
            exclude_patterns: texts(self.exclude_patterns@),
            claude_api_key: self.claude_api_key@,
            token_github: self.token_github@,
        }
    }
}

impl PrGenerator {
    /// Keeps the four settings as they are given.
    pub fn new(
        template_path: String,
        exclude_patterns: Vec<String>,
        claude_api_key: String,
        token_github: String,
    ) -> (g: Self)
        ensures
            g@ == (GeneratorView {
                template_path: template_path@,
                exclude_patterns: texts(exclude_patterns@),
                claude_api_key: claude_api_key@,
                token_github: token_github@,
            }),
    {
        Self { template_path, exclude_patterns, claude_api_key, token_github }
    }

    /// Where the prompt template is read from.
    pub fn template_path(&self) -> (p: &str)
        ensures
            p@ == self@.template_path,
    {
        self.template_path.as_str()
    }

    /// Glob patterns of the paths that are of no interest.
    pub fn exclude_patterns(&self) -> (p: &Vec<String>)
        ensures
            texts(p@) == self@.exclude_patterns,
    {
        &self.exclude_patterns
    }

    /// The key that opens the text-generation service.
    pub fn api_key(&self) -> (k: &str)
        ensures
            k@ == self@.claude_api_key,
    {
        self.claude_api_key.as_str()
    }

    /// The access token for the host of the repository.
    pub fn vcs_token(&self) -> (t: &str)
        ensures
            t@ == self@.token_github,
    {
        self.token_github.as_str()
    }
}

} // verus!
