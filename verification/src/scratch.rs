//! The scratch-area discipline of a batch run: a run refuses to start
//! over leftover directories, and only the intermediate directories are
//! deleted after success.

use vstd::prelude::*;

use crate::errors::CoreError;

verus! {

/// The run-scoped scratch directory tree: raw downloads are staged under
/// one name, transformed artifacts under a second, compressed copies
/// under a third.
#[derive(Debug)]
pub struct ScratchArea {
    pub raw_dir: String,
    pub artifact_dir: String,
    pub compressed_dir: String,
}

impl ScratchArea {
    /// The scratch names the reference pipeline stages its work under.
    pub fn standard() -> (r: ScratchArea)
        ensures
            r.raw_dir@ == "read_images/"@,
            r.artifact_dir@ == "face_details_images/"@,
            r.compressed_dir@ == "compressed_images/"@,
    {
        ScratchArea {
            raw_dir: String::from_str("read_images/"),
            artifact_dir: String::from_str("face_details_images/"),
            compressed_dir: String::from_str("compressed_images/"),
        }
    }

    /// The directory a conflict names: the first of the three that
    /// already exists.
    pub open spec fn conflict_spec(self, raw: bool, artifact: bool, compressed: bool) -> Seq<
        char,
    > {
        if raw {
            self.raw_dir@
        } else if artifact {
            self.artifact_dir@
        } else {
            self.compressed_dir@
        }
    }

    /// Fail-fast check before a run: given which of the designated
    /// directories already exist on disk, either clears the run to
    /// start, or names the first conflicting directory so the operator
    /// can remove it. A stale directory is never silently merged with.
    pub fn preflight(&self, raw_exists: bool, artifact_exists: bool, compressed_exists: bool) -> (r:
        Result<(), CoreError>)
        ensures
            r is Ok <==> (!raw_exists && !artifact_exists && !compressed_exists),
            r matches Err(e) ==> e matches CoreError::ScratchConflict { dir } && dir@
                == self.conflict_spec(raw_exists, artifact_exists, compressed_exists),
    {
        if raw_exists {
            Err(CoreError::ScratchConflict { dir: self.raw_dir.clone() })
        } else if artifact_exists {
            Err(CoreError::ScratchConflict { dir: self.artifact_dir.clone() })
        } else if compressed_exists {
            Err(CoreError::ScratchConflict { dir: self.compressed_dir.clone() })
        } else {
            Ok(())
        }
    }

    /// The directories a run creates, in creation order.
    pub fn dirs_to_create(&self) -> (r: Vec<String>)
        ensures
            r@.len() == 3,
            r@[0]@ == self.raw_dir@,
            r@[1]@ == self.artifact_dir@,
            r@[2]@ == self.compressed_dir@,
    {
        let mut dirs: Vec<String> = Vec::new();
        dirs.push(self.raw_dir.clone());
        dirs.push(self.artifact_dir.clone());
        dirs.push(self.compressed_dir.clone());
        dirs
    }

    /// The directories deleted after a successful run: only the raw
    /// downloads; the final artifacts stay for the caller to inspect.
    pub fn dirs_to_remove_after_success(&self) -> (r: Vec<String>)
        ensures
            r@.len() == 1,
            r@[0]@ == self.raw_dir@,
    {
        let mut dirs: Vec<String> = Vec::new();
        dirs.push(self.raw_dir.clone());
        dirs
    }
}

} // verus!
