//! The two ways a job can fail.

use vstd::prelude::*;

verus! {

/// Why a job could not be started or could not be followed to its end.
/// Either failure ends the job; nothing is retried.
#[derive(Debug, PartialEq, Eq)]
pub enum JobError {
    /// The external process could not be started.
    Launch(String),
    /// Asking the running process for its status failed.
    Poll(String),
}

/// Mathematical content of a [`JobError`].
pub enum JobErrorView {
    Launch(Seq<char>),
    Poll(Seq<char>),
}

impl JobErrorView {
    /// The failure detail, as it is shown to the user.
    pub open spec fn message(self) -> Seq<char> {
        match self {
            JobErrorView::Launch(detail) => detail,
            JobErrorView::Poll(detail) => detail,
        }
    }
}

impl DeepView for JobError {
    type V = JobErrorView;

    open spec fn deep_view(&self) -> JobErrorView {
        match self {
            JobError::Launch(detail) => JobErrorView::Launch(detail@),
            JobError::Poll(detail) => JobErrorView::Poll(detail@),
        }
    }
}

impl JobError {
    /// The text to show to the user: the failure detail, unchanged.
    pub fn message(&self) -> (text: &str)
        ensures
            text@ == self.deep_view().message(),
    {
        match self {
            JobError::Launch(detail) => detail.as_str(),
            JobError::Poll(detail) => detail.as_str(),
        }
    }
}

} // verus!
