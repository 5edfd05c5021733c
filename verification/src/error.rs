//! The ways in which a run can fail.

use vstd::prelude::*;

verus! {

/// Why a run stopped. Every failure ends the run; nothing is retried.
#[derive(Debug, Clone, Copy, PartialEq, Eq, Structural)]
pub enum RunError {
    /// A required environment variable is not set.
    MissingCredential,
    /// The version-control tool could not be run, ended with a status other
    /// than zero, or printed a commit time or a commit count that is no
    /// number.
    VcsCommand,
    /// A tool printed bytes that are not UTF-8 text.
    Encoding,
    /// The template could not be read or did not render.
    Template,
    /// The generation service answered with a status outside 200..=299, or
    /// could not be reached.
    Service,
    /// The body of the service's answer is not the expected JSON.
    Decode,
    /// The service's answer holds no content block.
    EmptyResponse,
    /// A result file could not be written, or the surroundings of the run
    /// (working directory, directory listing) could not be read.
    Io,
}

impl RunError {
    /// The text that `describe` gives for each failure.
    pub open spec fn description(self) -> Seq<char> {
        match self {
            RunError::MissingCredential => "a required environment variable is not set"@,
            RunError::VcsCommand => "the version-control command failed"@,
            RunError::Encoding => "a command printed text that is not valid UTF-8"@,
            RunError::Template => "the template could not be read or rendered"@,
            RunError::Service => "the generation service refused the request"@,
            RunError::Decode => "the generation service sent a malformed answer"@,
            RunError::EmptyResponse => "the generation service sent no content"@,
            RunError::Io => "a file or directory could not be read or written"@,
        }
    }

    /// One line of text for the person who started the run.
    pub fn describe(&self) -> (s: String)
        ensures
            s@ == self.description(),
    {
        match self {
            RunError::MissingCredential => "a required environment variable is not set".to_owned(),
            RunError::VcsCommand => "the version-control command failed".to_owned(),
            RunError::Encoding => "a command printed text that is not valid UTF-8".to_owned(),
            RunError::Template => "the template could not be read or rendered".to_owned(),
            RunError::Service => "the generation service refused the request".to_owned(),
            RunError::Decode => "the generation service sent a malformed answer".to_owned(),
            RunError::EmptyResponse => "the generation service sent no content".to_owned(),
            RunError::Io => "a file or directory could not be read or written".to_owned(),
        }
    }
}

} // verus!
