//! A mathematical picture of the file system, and what the server answers
//! for every state of it.
//!
//! Nothing here runs. A [`Disk`] says what stands at each location; the
//! functions and proofs below state which answer each request gets when the
//! steps of the file handler are carried out against it.

use vstd::prelude::*;
use crate::file_server::{content_type_of, served, target, EntryKind, INDEX_FILE, OCTET_STREAM};
use crate::handler::{handled, EventView, FileServerHandler, Handler, StepView};
use crate::message::{found, not_found, RequestView, ResponseView};
use crate::path::{
    child_request,
    collapse,
    extension,
    has_doubled,
    is_relative,
    is_segment,
    join,
    lemma_extension_of_joined,
    lemma_last_position_is,
    lemma_locate_child,
    lemma_locate_collapsed,
    lemma_locate_relative,
    locate,
    request_for,
    DOT,
    SEPARATOR,
};

verus! {

/// What stands at one location.
pub ghost enum Entry {
    /// A regular file that can be read, with its contents.
    File { contents: Seq<u8> },
    /// A regular file that cannot be read.
    Sealed,
    /// A directory.
    Directory,
}

/// What stands at each location; a location that is no key holds nothing.
pub ghost struct Disk {
    pub entries: Map<Seq<char>, Entry>,
}

impl Disk {
    /// What a probe of `location` finds.
    pub open spec fn kind_at(self, location: Seq<char>) -> EntryKind {
        if !self.entries.contains_key(location) {
            EntryKind::Missing
        } else {
            match self.entries[location] {
                Entry::File { .. } => EntryKind::File,
                Entry::Sealed => EntryKind::File,
                Entry::Directory => EntryKind::Directory,
            }
        }
    }

    /// What reading `file` to its end gives: its contents, or nothing where
    /// no readable file stands there.
    pub open spec fn read(self, file: Seq<char>) -> Option<Seq<u8>> {
        if !self.entries.contains_key(file) {
            None
        } else {
            match self.entries[file] {
                Entry::File { contents } => Some(contents),
                _ => None,
            }
        }
    }

    /// Whether `location` holds a directory.
    pub open spec fn holds_directory(self, location: Seq<char>) -> bool {
        self.kind_at(location) == EntryKind::Directory
    }

    /// Whether a directory is also found under its name with a separator
    /// at the end, as it is on every file system.
    pub open spec fn wf(self) -> bool {
        forall|location: Seq<char>|
            location.len() > 0 && location.last() != SEPARATOR && #[trigger] self.holds_directory(
                location,
            ) ==> self.kind_at(location.push(SEPARATOR)) == EntryKind::Directory
    }

    /// Whether `location` holds a readable file with these contents.
    pub open spec fn holds_file(self, location: Seq<char>, contents: Seq<u8>) -> bool {
        self.entries.contains_key(location) && self.entries[location] == (Entry::File {
            contents,
        })
    }

    /// The event that comes of carrying out `step` against this disk.
    pub open spec fn perform(self, step: StepView) -> EventView {
        match step {
            StepView::Probe { location } => EventView::Probed { kind: self.kind_at(location) },
            StepView::Read { file } => match self.read(file) {
                Some(contents) => EventView::Loaded { contents },
                None => EventView::Unreadable,
            },
            StepView::Respond { .. } => EventView::Unreadable,
        }
    }
}

/// The answer to a request for `path` from the files below `root`.
pub open spec fn answer(root: Seq<char>, disk: Disk, path: Seq<char>) -> ResponseView {
    match target(locate(root, path), disk.kind_at(locate(root, path))) {
        None => not_found(),
        Some(file) => match disk.read(file) {
            Some(contents) => served(file, contents),
            None => not_found(),
        },
    }
}

/// The step a handler has reached after it began with `step` and at most
/// `rounds` steps were carried out against `disk`.
pub open spec fn run<H: Handler>(handler: &H, disk: Disk, step: StepView, rounds: nat) -> StepView
    decreases rounds,
{
    if rounds == 0 || step is Respond {
        step
    } else {
        run(handler, disk, handler.next(step, disk.perform(step)), (rounds - 1) as nat)
    }
}

/// The file handler is done after two steps, a probe and a read, and what it
/// then sends is [`answer`].
pub proof fn lemma_handler_answers(handler: &FileServerHandler, disk: Disk, request: RequestView)
    ensures
        run(handler, disk, handler.first(request), 2) == (StepView::Respond {
            response: answer(handler.file_server.root@, disk, request.path),
        }),
{
    let first = handler.first(request);
    let second = handler.next(first, disk.perform(first));
    assert(run(handler, disk, first, 2) == run(handler, disk, second, 1));
    if !(second is Respond) {
        let third = handler.next(second, disk.perform(second));
        assert(run(handler, disk, second, 1) == run(handler, disk, third, 0));
    }
}

/// Answering in one call, with the findings taken from the disk, gives
/// [`answer`] too.
pub proof fn lemma_handle_answers(root: Seq<char>, disk: Disk, path: Seq<char>)
    ensures
        answer(root, disk, path) == handled(
            root,
            path,
            disk.kind_at(locate(root, path)),
            match target(locate(root, path), disk.kind_at(locate(root, path))) {
                Some(file) => disk.read(file),
                None => None,
            },
        ),
{
}

/// Every answer is one of two: status 200 with a content type, or status
/// 404 with neither a content type nor a body.
pub proof fn lemma_answer_is_one_of_two(root: Seq<char>, disk: Disk, path: Seq<char>)
    ensures
        answer(root, disk, path).status == 200 || answer(root, disk, path).status == 404,
        answer(root, disk, path).status == 200 <==> answer(root, disk, path).content_type is Some,
        answer(root, disk, path).status == 404 ==> answer(root, disk, path) == not_found(),
{
}

/// The content type follows from the extension alone: two files with one
/// extension are served with one content type, whatever they hold.
pub proof fn lemma_content_type_by_extension(
    first: Seq<char>,
    second: Seq<char>,
    contents: Seq<u8>,
    others: Seq<u8>,
)
    requires
        extension(first) == extension(second),
    ensures
        served(first, contents).content_type == served(second, others).content_type,
{
}

/// The index file has the extension `html`.
pub proof fn lemma_index_extension()
    ensures
        is_segment(INDEX_FILE@),
        extension(INDEX_FILE@) == "html"@,
{
    reveal_strlit("index.html");
    reveal_strlit("html");
    let name = INDEX_FILE@;
    lemma_last_position_is(name, SEPARATOR, -1);
    assert(name.skip(0) =~= name);
    lemma_last_position_is(name, DOT, 5);
    assert(name.skip(6) =~= "html"@);
}

/// A request for a readable file is answered with status 200, the file's
/// contents as the body, and the content type that belongs to the
/// extension of the file's location.
pub proof fn lemma_file_is_served(
    root: Seq<char>,
    disk: Disk,
    path: Seq<char>,
    contents: Seq<u8>,
)
    requires
        disk.holds_file(locate(root, path), contents),
    ensures
        answer(root, disk, path) == found(content_type_of(locate(root, path)), contents),
        answer(root, disk, path).status == 200,
        answer(root, disk, path).body == contents,
{
}

/// A readable file below the root, asked for by its relative path, is
/// served with status 200, its contents byte for byte, and the content
/// type of its extension: `application/octet-stream` where it has none.
/// The separator in front of the request path may be left out.
pub proof fn lemma_file_below_root_is_served(
    root: Seq<char>,
    disk: Disk,
    rel: Seq<char>,
    contents: Seq<u8>,
)
    requires
        is_relative(rel),
        disk.holds_file(join(root, rel), contents),
    ensures
        answer(root, disk, request_for(rel)) == found(content_type_of(rel), contents),
        answer(root, disk, rel) == answer(root, disk, request_for(rel)),
        answer(root, disk, request_for(rel)).status == 200,
        answer(root, disk, request_for(rel)).body == contents,
        extension(rel).len() == 0 ==> answer(root, disk, request_for(rel)).content_type == Some(
            OCTET_STREAM@,
        ),
{
    lemma_locate_relative(root, rel);
    lemma_extension_of_joined(root, rel);
}

/// A request for a directory is answered as the request for the index file
/// in it is, whether or not the directory's path ends with a separator.
pub proof fn lemma_directory_serves_index(
    root: Seq<char>,
    disk: Disk,
    dir: Seq<char>,
    contents: Seq<u8>,
)
    requires
        disk.kind_at(locate(root, dir)) == EntryKind::Directory,
        disk.holds_file(join(locate(root, dir), INDEX_FILE@), contents),
    ensures
        answer(root, disk, dir) == answer(root, disk, child_request(dir, INDEX_FILE@)),
        answer(root, disk, dir) == found(content_type_of(INDEX_FILE@), contents),
{
    lemma_index_extension();
    lemma_locate_child(root, dir, INDEX_FILE@);
    lemma_extension_of_joined(locate(root, dir), INDEX_FILE@);
}

/// A directory that is found under its relative path is found under that
/// path with a separator at its end too, and the index file in it is the
/// same file either way.
proof fn lemma_trailing_separator(root: Seq<char>, disk: Disk, dir: Seq<char>)
    requires
        disk.wf(),
        is_relative(dir),
        dir.len() > 0,
        dir.last() != SEPARATOR,
        disk.holds_directory(join(root, dir)),
    ensures
        is_relative(dir.push(SEPARATOR)),
        disk.holds_directory(join(root, dir.push(SEPARATOR))),
        join(join(root, dir.push(SEPARATOR)), INDEX_FILE@) == join(join(root, dir), INDEX_FILE@),
{
    let longer = dir.push(SEPARATOR);
    let location = join(root, dir);
    assert(!has_doubled(longer)) by {
        assert forall|i: int| 0 <= i < longer.len() - 1 implies !(longer[i] == SEPARATOR
            && #[trigger] longer[i + 1] == SEPARATOR) by {
            if i + 1 < dir.len() {
                assert(longer[i] == dir[i] && longer[i + 1] == dir[i + 1]);
            }
        }
    }
    assert(longer[0] == dir[0]);
    assert(location.last() == dir.last());
    assert(join(root, longer) =~= location.push(SEPARATOR));
    lemma_index_extension();
    assert(join(location.push(SEPARATOR), INDEX_FILE@) =~= join(location, INDEX_FILE@));
}

/// A directory below the root that holds a readable index file, asked for
/// by its relative path, is answered as a request for that index file is:
/// with status 200, the index file's contents, and the content type of the
/// extension `html`. With the directory's name ending in a separator the
/// answer is the same.
pub proof fn lemma_directory_below_root_serves_index(
    root: Seq<char>,
    disk: Disk,
    dir: Seq<char>,
    contents: Seq<u8>,
)
    requires
        disk.wf(),
        is_relative(dir),
        disk.holds_directory(join(root, dir)),
        disk.holds_file(join(join(root, dir), INDEX_FILE@), contents),
    ensures
        answer(root, disk, request_for(dir)) == found(content_type_of(INDEX_FILE@), contents),
        answer(root, disk, child_request(request_for(dir), INDEX_FILE@)) == answer(
            root,
            disk,
            request_for(dir),
        ),
        dir.len() > 0 && dir.last() != SEPARATOR ==> answer(
            root,
            disk,
            request_for(dir.push(SEPARATOR)),
        ) == answer(root, disk, request_for(dir)),
{
    lemma_locate_relative(root, dir);
    lemma_directory_serves_index(root, disk, request_for(dir), contents);
    if dir.len() > 0 && dir.last() != SEPARATOR {
        let longer = dir.push(SEPARATOR);
        lemma_trailing_separator(root, disk, dir);
        lemma_locate_relative(root, longer);
        lemma_directory_serves_index(root, disk, request_for(longer), contents);
    }
}

/// A request for a directory without an index file is answered with the
/// not-found answer.
pub proof fn lemma_directory_without_index(root: Seq<char>, disk: Disk, dir: Seq<char>)
    requires
        disk.kind_at(locate(root, dir)) == EntryKind::Directory,
        !disk.entries.contains_key(join(locate(root, dir), INDEX_FILE@)),
    ensures
        answer(root, disk, dir) == not_found(),
{
}

/// A directory below the root that holds no index file, asked for by its
/// relative path, is answered with status 404, no content type and an empty
/// body, with or without a separator at the end of its name. Nothing else
/// that the directory holds is served.
pub proof fn lemma_directory_below_root_without_index(
    root: Seq<char>,
    disk: Disk,
    dir: Seq<char>,
)
    requires
        disk.wf(),
        is_relative(dir),
        disk.holds_directory(join(root, dir)),
        !disk.entries.contains_key(join(join(root, dir), INDEX_FILE@)),
    ensures
        answer(root, disk, request_for(dir)) == not_found(),
        dir.len() > 0 && dir.last() != SEPARATOR ==> answer(
            root,
            disk,
            request_for(dir.push(SEPARATOR)),
        ) == not_found(),
{
    lemma_locate_relative(root, dir);
    if dir.len() > 0 && dir.last() != SEPARATOR {
        lemma_trailing_separator(root, disk, dir);
        lemma_locate_relative(root, dir.push(SEPARATOR));
    }
}

/// A request that names neither a file nor a directory is answered with
/// status 404 and an empty body.
pub proof fn lemma_missing_is_not_found(root: Seq<char>, disk: Disk, path: Seq<char>)
    requires
        !disk.entries.contains_key(locate(root, path)),
    ensures
        answer(root, disk, path) == not_found(),
        answer(root, disk, path).status == 404,
        answer(root, disk, path).body.len() == 0,
        answer(root, disk, path).content_type is None,
{
}

/// A relative path below the root at which nothing stands is answered with
/// status 404 and an empty body.
pub proof fn lemma_nothing_below_root_is_not_found(root: Seq<char>, disk: Disk, rel: Seq<char>)
    requires
        is_relative(rel),
        !disk.entries.contains_key(join(root, rel)),
    ensures
        answer(root, disk, request_for(rel)) == not_found(),
        answer(root, disk, rel) == not_found(),
        not_found().status == 404,
        not_found().body.len() == 0,
{
    lemma_locate_relative(root, rel);
}

/// A request path with doubled separators is answered as the path with each
/// of them replaced by one separator is, where that path has none left.
pub proof fn lemma_doubled_separators_ignored(
    root: Seq<char>,
    disk: Disk,
    path: Seq<char>,
    single: Seq<char>,
)
    requires
        single == collapse(path),
        !has_doubled(single),
    ensures
        locate(root, path) == locate(root, single),
        answer(root, disk, path) == answer(root, disk, single),
{
    lemma_locate_collapsed(root, path);
}

} // verus!
