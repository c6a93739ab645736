//! The request and the response of the file-listing tool.

use vstd::prelude::*;

verus! {

/// A request to list the files of a directory of the workspace.
#[derive(Debug)]
pub struct ListFilesRequest {
    /// The directory, relative to the workspace; the workspace itself where
    /// none is given.
    pub path: Option<String>,
}

/// The names found in the directory.
#[derive(Debug)]
pub struct ListFilesResponse {
    pub files: Vec<String>,
}

/// The directory that a request with the given path asks for.
pub open spec fn requested_path(path: Option<Seq<char>>) -> Seq<char> {
    match path {
        Some(p) => p,
        None => "."@,
    }
}

impl ListFilesRequest {
    /// The directory to list, relative to the workspace: `.` where the
    /// request names none.
    pub fn into_path(self) -> (r: String)
        ensures
            r@ == requested_path(self.path.deep_view()),
    {
        match self.path {
            Some(p) => p,
            None => String::from_str("."),
        }
    }
}

impl ListFilesResponse {
    /// The response that lists `files`, in the order given.
    pub fn new(files: Vec<String>) -> (r: Self)
        ensures
            r.files == files,
    {
        ListFilesResponse { files }
    }
}

} // verus!
