//! The state of a download job.

use vstd::prelude::*;
use crate::domain::manga::Chapter;
use crate::text::{dec, decimal};

verus! {

/// Where a download job stands.
#[derive(Debug, Clone, PartialEq, Eq)]
pub enum JobStatus {
    Idle,
    Downloading { current: usize, total: usize },
    PackagingCbz,
    ConvertingKcc { message: String },
    Done(String),
    Failed(String),
}

/// The line that describes a job's state.
pub open spec fn status_text(s: JobStatus) -> Seq<char> {
    match s {
        JobStatus::Idle => "Idle"@,
        JobStatus::Downloading { current, total } => "Downloading pages: "@ + dec(current as nat)
            + " / "@ + dec(total as nat),
        JobStatus::PackagingCbz => "Packaging CBZ archive..."@,
        JobStatus::ConvertingKcc { message } => "KCC: "@ + message@,
        JobStatus::Done(msg) => "Completed: "@ + msg@,
        JobStatus::Failed(err) => "Failed: "@ + err@,
    }
}

impl JobStatus {
    /// Whether the job is still working: downloading, packaging or converting.
    pub fn is_active(&self) -> (r: bool)
        ensures
            r == (self is Downloading || self is PackagingCbz || self is ConvertingKcc),
    {
        match self {
            JobStatus::Downloading { .. } => true,
            JobStatus::PackagingCbz => true,
            JobStatus::ConvertingKcc { .. } => true,
            _ => false,
        }
    }

    /// The line that describes the job's state.
    pub fn message(&self) -> (r: String)
        ensures
            r@ == status_text(*self),
    {
        match self {
            JobStatus::Idle => String::from_str("Idle"),
            JobStatus::Downloading { current, total } => {
                let mut s = String::from_str("Downloading pages: ");
                s.append(decimal(*current as u64).as_str());
                s.append(" / ");
                s.append(decimal(*total as u64).as_str());
                s
            },
            JobStatus::PackagingCbz => String::from_str("Packaging CBZ archive..."),
            JobStatus::ConvertingKcc { message } => {
                let mut s = String::from_str("KCC: ");
                s.append(message.as_str());
                s
            },
            JobStatus::Done(msg) => {
                let mut s = String::from_str("Completed: ");
                s.append(msg.as_str());
                s
            },
            JobStatus::Failed(err) => {
                let mut s = String::from_str("Failed: ");
                s.append(err.as_str());
                s
            },
        }
    }
}

/// A chapter to download, where to, and how far it got.
#[derive(Debug, Clone)]
pub struct DownloadJob {
    pub manga_title: String,
    pub chapter: Chapter,
    pub output_dir: String,
    pub custom_cover: Option<String>,
    pub convert_to_kcc: bool,
    pub status: JobStatus,
}

} // verus!
