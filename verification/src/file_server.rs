//! Serving files from below a root directory.
//!
//! The file system itself is never touched here. A caller computes the
//! location a request names, looks at what stands there, reads the file that
//! [`FileServer::resolve_file`] then points at, and hands both findings back.

use vstd::prelude::*;
use vstd::string::*;
use crate::message::{found, Response, ResponseView};
use crate::path::{extension, extension_of, join, join_path, locate, locate_path};

verus! {

/// The file served for a directory.
pub const INDEX_FILE: &'static str = "index.html";

/// The content type of a file whose name tells nothing about its contents.
pub const OCTET_STREAM: &'static str = "application/octet-stream";

/// The request path names neither a file nor a directory.
#[derive(Debug, PartialEq, Eq)]
pub struct FileResolveError;

impl FileResolveError {
    /// A short description for an operator.
    pub fn message(&self) -> (text: String)
        ensures
            text@ == "file resolve error"@,
    {
        String::from_str("file resolve error")
    }
}

/// What stands at a location.
#[derive(Debug, Clone, Copy, PartialEq, Eq, Structural)]
pub enum EntryKind {
    /// A regular file.
    File,
    /// A directory.
    Directory,
    /// Neither: nothing is there, or nothing that can be served.
    Missing,
}

/// Why a request could not be served.
#[derive(Debug, PartialEq, Eq)]
pub enum ServeError {
    /// The path names neither a file nor a directory.
    NotResolved(FileResolveError),
    /// The path names something, but the file to serve could not be read.
    ReadFailed,
}

/// The content type that the `mime_guess` crate registers for an
/// extension, or `application/octet-stream` where it registers none.
pub uninterp spec fn registered_content_type(extension: Seq<char>) -> Seq<char>;

/// `mime_guess::from_ext` followed by `MimeGuess::first_or_octet_stream`,
/// written out as text. The text is the one the crate's table gives for
/// this extension. One case is spelled out: for the empty extension the
/// guess is empty, and the text is `application/octet-stream`.
#[verifier::external_body]
fn guess_content_type(extension: &str) -> (content_type: String)
    ensures
        content_type@ == registered_content_type(extension@),
        extension@.len() == 0 ==> content_type@ == OCTET_STREAM@,
{
    mime_guess::from_ext(extension).first_or_octet_stream().to_string()
}

/// The content type of the file at `path`. It follows from the extension
/// of the path alone: `application/octet-stream` where there is none, else
/// what is registered for it.
pub open spec fn content_type_of(path: Seq<char>) -> Seq<char> {
    if extension(path).len() == 0 {
        OCTET_STREAM@
    } else {
        registered_content_type(extension(path))
    }
}

/// Computes the content type of the file at `path`.
pub fn content_type(path: &str) -> (content_type: String)
    ensures
        content_type@ == content_type_of(path@),
{
    let ext = extension_of(path);
    guess_content_type(ext.as_str())
}

/// The file to serve for a request whose location holds `kind`: the location
/// itself where it is a file, the index file inside it where it is a
/// directory (whether or not that file exists), and none otherwise.
pub open spec fn target(location: Seq<char>, kind: EntryKind) -> Option<Seq<char>> {
    match kind {
        EntryKind::File => Some(location),
        EntryKind::Directory => Some(join(location, INDEX_FILE@)),
        EntryKind::Missing => None,
    }
}

/// The answer that serves the file at `path` with the given contents.
pub open spec fn served(path: Seq<char>, contents: Seq<u8>) -> ResponseView {
    found(content_type_of(path), contents)
}

/// Serves files from below one root directory.
pub struct FileServer {
    pub root: String,
}

impl FileServer {
    /// A server of the files below `root`.
    pub fn new(root: String) -> (server: FileServer)
        ensures
            server.root == root,
    {
        FileServer { root }
    }

    /// The location that `path` names below the root. No segment of `path`
    /// is interpreted, so a path with `..` in it may name a location outside
    /// the root.
    pub fn locate(&self, path: &str) -> (location: String)
        ensures
            location@ == locate(self.root@, path@),
    {
        locate_path(self.root.as_str(), path)
    }

    /// The file to serve where `location` holds `kind`.
    pub fn target_of(location: String, kind: EntryKind) -> (resolved: Result<
        String,
        FileResolveError,
    >)
        ensures
            match target(location@, kind) {
                Some(file) => resolved is Ok && resolved->Ok_0@ == file,
                None => resolved is Err,
            },
    {
        match kind {
            EntryKind::File => Ok(location),
            EntryKind::Directory => Ok(join_path(location.as_str(), INDEX_FILE)),
            EntryKind::Missing => Err(FileResolveError),
        }
    }

    /// The file to serve for `path`, given what stands at the location that
    /// `path` names.
    pub fn resolve_file(&self, path: &str, kind: EntryKind) -> (resolved: Result<
        String,
        FileResolveError,
    >)
        ensures
            match target(locate(self.root@, path@), kind) {
                Some(file) => resolved is Ok && resolved->Ok_0@ == file,
                None => resolved is Err,
            },
    {
        Self::target_of(self.locate(path), kind)
    }

    /// The answer that serves the file at `file` with the contents that were
    /// read from it.
    pub fn serve_file(file: &str, contents: Vec<u8>) -> (response: Response)
        ensures
            response@ == served(file@, contents@),
            extension(file@).len() == 0 ==> response@.content_type == Some(OCTET_STREAM@),
            response.wf(),
    {
        Response::ok(content_type(file), contents)
    }

    /// The answer to a request for `path`, given what stands at the location
    /// it names and, where that resolves to a file, what reading that file
    /// gave: its contents, or `None` where it could not be read.
    pub fn resolve(&self, path: &str, kind: EntryKind, contents: Option<Vec<u8>>) -> (outcome:
        Result<Response, ServeError>)
        ensures
            match (target(locate(self.root@, path@), kind), contents) {
                (Some(file), Some(bytes)) => outcome is Ok && outcome->Ok_0@ == served(
                    file,
                    bytes@,
                ) && outcome->Ok_0.wf() && (extension(file).len() == 0
                    ==> outcome->Ok_0@.content_type == Some(OCTET_STREAM@)),
                (Some(_), None) => outcome == Err::<Response, ServeError>(ServeError::ReadFailed),
                (None, _) => outcome == Err::<Response, ServeError>(
                    ServeError::NotResolved(FileResolveError),
                ),
            },
    {
        match self.resolve_file(path, kind) {
            Err(e) => Err(ServeError::NotResolved(e)),
            Ok(file) => match contents {
                None => Err(ServeError::ReadFailed),
                Some(bytes) => Ok(Self::serve_file(file.as_str(), bytes)),
            },
        }
    }
}

} // verus!
