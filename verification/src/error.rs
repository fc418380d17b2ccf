//! What can end the sync of an image.

use vstd::prelude::*;

verus! {

/// The reasons for which the sync of one image ends without success.
#[derive(Clone, Copy, Debug, PartialEq, Eq, Structural)]
pub enum SyncError {
    /// The image reference does not split into a repository and an image.
    MalformedReference,
    /// The target directory is absent and may not be created.
    MissingDirectory,
    /// The target directory is absent and could not be created.
    DirectoryNotCreated,
    /// The target directory could not be listed.
    ScanFailed,
    /// A page of tags could not be fetched or read.
    RegistryFailed,
    /// A build or a submission ended in failure.
    JobFailed,
    /// An event arrived that answers no pending request.
    UnexpectedEvent,
}

impl SyncError {
    /// The sentence that `message` returns for each error.
    pub open spec fn text(self) -> Seq<char> {
        match self {
            SyncError::MalformedReference => "Image reference is not of the form repository/image"@,
            SyncError::MissingDirectory => "Image directory not found"@,
            SyncError::DirectoryNotCreated => "Could not create directory"@,
            SyncError::ScanFailed => "Could not read image directory"@,
            SyncError::RegistryFailed => "Could not fetch tags from the registry"@,
            SyncError::JobFailed => "Build job failed"@,
            SyncError::UnexpectedEvent => "Event does not answer the pending request"@,
        }
    }

    /// A sentence that says what went wrong.
    pub fn message(&self) -> (sentence: String)
        ensures
            sentence@ == self.text(),
    {
        match self {
            SyncError::MalformedReference => String::from_str(
                "Image reference is not of the form repository/image",
            ),
            SyncError::MissingDirectory => String::from_str("Image directory not found"),
            SyncError::DirectoryNotCreated => String::from_str("Could not create directory"),
            SyncError::ScanFailed => String::from_str("Could not read image directory"),
            SyncError::RegistryFailed => String::from_str("Could not fetch tags from the registry"),
            SyncError::JobFailed => String::from_str("Build job failed"),
            SyncError::UnexpectedEvent => String::from_str(
                "Event does not answer the pending request",
            ),
        }
    }
}

/// An error together with what it is about: the reference that names no
/// image, the directory that is missing or unreadable, the address that gave
/// no page, the build that failed.
#[derive(Debug, PartialEq, Eq)]
pub struct Failure {
    pub error: SyncError,
    pub subject: String,
}

/// A failure, with its subject as a text.
pub ghost struct FailureModel {
    pub error: SyncError,
    pub subject: Seq<char>,
}

impl FailureModel {
    /// The sentence of the error, a colon and a blank, and the subject.
    pub open spec fn text(self) -> Seq<char> {
        self.error.text() + ": "@ + self.subject
    }
}

impl View for Failure {
    type V = FailureModel;

    open spec fn view(&self) -> FailureModel {
        FailureModel { error: self.error, subject: self.subject@ }
    }
}

/// How a sync ended, with the subject of a failure as a text.
pub open spec fn outcome_model(outcome: Result<(), Failure>) -> Result<(), FailureModel> {
    match outcome {
        Ok(_) => Ok(()),
        Err(failure) => Err(failure@),
    }
}

impl Failure {
    /// A sentence that says what went wrong, and with what.
    pub fn message(&self) -> (sentence: String)
        ensures
            sentence@ == self@.text(),
    {
        let mut sentence = self.error.message();
        sentence.append(": ");
        sentence.append(self.subject.as_str());
        sentence
    }

    /// A second value that reports the same failure.
    pub fn duplicate(&self) -> (copy: Failure)
        ensures
            copy@ == self@,
    {
        Failure { error: self.error, subject: self.subject.clone() }
    }
}

/// A second value that reports the same outcome.
pub fn copy_outcome(outcome: &Result<(), Failure>) -> (copy: Result<(), Failure>)
    ensures
        outcome_model(copy) == outcome_model(*outcome),
{
    match outcome {
        Ok(_) => Ok(()),
        Err(failure) => Err(failure.duplicate()),
    }
}

} // verus!
