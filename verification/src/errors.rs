//! The error kinds that the core distinguishes.

use vstd::prelude::*;

verus! {

/// Why an operation of the core could not produce a normal result.
///
/// * `Validation`: a required field was empty or missing; no remote call
///   was made.
/// * `RemoteCall`: a remote service reported a transport- or
///   service-level failure.
/// * `ScratchConflict`: a scratch directory that must be created fresh
///   already exists; the operator has to remove it.
/// * `Parse`: a persisted job result was malformed.
/// * `UnknownState`: a remote status snapshot used a vocabulary word that
///   the mapping tables do not know.
#[derive(Debug, PartialEq, Eq)]
pub enum CoreError {
    Validation { field: String },
    RemoteCall { detail: String },
    ScratchConflict { dir: String },
    Parse { detail: String },
    UnknownState { raw: String },
}

impl CoreError {
    /// The text that `describe` returns for a given error.
    pub open spec fn describe_spec(self) -> Seq<char> {
        match self {
            CoreError::Validation { field } => "required field is empty: "@ + field@,
            CoreError::RemoteCall { detail } => "remote call failed: "@ + detail@,
            CoreError::ScratchConflict { dir } => "scratch directory already exists: "@ + dir@,
            CoreError::Parse { detail } => "malformed job result: "@ + detail@,
            CoreError::UnknownState { raw } => "unknown remote job state: "@ + raw@,
        }
    }

    /// One line for the operator naming the error kind and its subject.
    pub fn describe(&self) -> (text: String)
        ensures
            text@ == self.describe_spec(),
    {
        let mut text: String;
        match self {
            CoreError::Validation { field } => {
                text = String::from_str("required field is empty: ");
                text.append(field.as_str());
            },
            CoreError::RemoteCall { detail } => {
                text = String::from_str("remote call failed: ");
                text.append(detail.as_str());
            },
            CoreError::ScratchConflict { dir } => {
                text = String::from_str("scratch directory already exists: ");
                text.append(dir.as_str());
            },
            CoreError::Parse { detail } => {
                text = String::from_str("malformed job result: ");
                text.append(detail.as_str());
            },
            CoreError::UnknownState { raw } => {
                text = String::from_str("unknown remote job state: ");
                text.append(raw.as_str());
            },
        }
        text
    }
}

} // verus!
