//! Handling a request step by step.
//!
//! A handler never performs I/O. It says what it needs next, as a [`Step`],
//! and is told what came of it, as an [`Event`], until the step it gives is
//! the answer to send.

use vstd::prelude::*;
use crate::config::Config;
use crate::file_server::{served, target, EntryKind, FileServer, OCTET_STREAM};
use crate::message::{not_found, Request, RequestView, Response, ResponseView};
use crate::path::{extension, locate};

verus! {

/// What a handler needs done next.
pub enum Step {
    /// Find out what stands at `location`.
    Probe { location: String },
    /// Read the whole of `file`.
    Read { file: String },
    /// Send `response`: the request is handled.
    Respond { response: Response },
}

/// The mathematical value of a [`Step`].
pub ghost enum StepView {
    Probe { location: Seq<char> },
    Read { file: Seq<char> },
    Respond { response: ResponseView },
}

impl View for Step {
    type V = StepView;

    open spec fn view(&self) -> StepView {
        match *self {
            Step::Probe { location } => StepView::Probe { location: location@ },
            Step::Read { file } => StepView::Read { file: file@ },
            Step::Respond { response } => StepView::Respond { response: response@ },
        }
    }
}

/// What came of a step.
pub enum Event {
    /// The probed location holds `kind`.
    Probed { kind: EntryKind },
    /// The file was read to its end and holds `contents`.
    Loaded { contents: Vec<u8> },
    /// The file could not be opened, or not read to its end.
    Unreadable,
}

/// The mathematical value of an [`Event`].
pub ghost enum EventView {
    Probed { kind: EntryKind },
    Loaded { contents: Seq<u8> },
    Unreadable,
}

impl View for Event {
    type V = EventView;

    open spec fn view(&self) -> EventView {
        match *self {
            Event::Probed { kind } => EventView::Probed { kind },
            Event::Loaded { contents } => EventView::Loaded { contents: contents@ },
            Event::Unreadable => EventView::Unreadable,
        }
    }
}

/// The capability to answer requests.
///
/// `first` and `next` say, as mathematics, which steps an implementation
/// takes; `begin` and `advance` compute them.
pub trait Handler {
    /// The step that handling `request` begins with.
    spec fn first(&self, request: RequestView) -> StepView;

    /// The step that follows `step` once `event` came of it.
    spec fn next(&self, step: StepView, event: EventView) -> StepView;

    /// Begins to handle `request`.
    fn begin(&self, request: &Request) -> (step: Step)
        ensures
            step@ == self.first(request@),
    ;

    /// Goes on after `event` came of `step`.
    fn advance(&self, step: Step, event: Event) -> (following: Step)
        ensures
            following@ == self.next(step@, event@),
    ;
}

/// The step with which serving files from below `root` begins: probing the
/// location that the request path names.
pub open spec fn file_first(root: Seq<char>, request: RequestView) -> StepView {
    StepView::Probe { location: locate(root, request.path) }
}

/// The step that follows when serving files. A probe that found a file or a
/// directory leads to reading the file to serve, one that found neither to
/// the not-found answer; a read leads to the answer with the file, or to the
/// not-found answer where it failed. An event that does not answer the step
/// leaves the step as it is.
pub open spec fn file_next(step: StepView, event: EventView) -> StepView {
    match (step, event) {
        (StepView::Probe { location }, EventView::Probed { kind }) => match target(
            location,
            kind,
        ) {
            Some(file) => StepView::Read { file },
            None => StepView::Respond { response: not_found() },
        },
        (StepView::Read { file }, EventView::Loaded { contents }) => StepView::Respond {
            response: served(file, contents),
        },
        (StepView::Read { file }, EventView::Unreadable) => StepView::Respond {
            response: not_found(),
        },
        _ => step,
    }
}

/// The answer to a request for `path` from the files below `root`, given
/// what stands at the location that `path` names and what reading the file
/// to serve gave. Whatever went wrong, the answer is the not-found answer.
pub open spec fn handled(
    root: Seq<char>,
    path: Seq<char>,
    kind: EntryKind,
    contents: Option<Seq<u8>>,
) -> ResponseView {
    match (target(locate(root, path), kind), contents) {
        (Some(file), Some(bytes)) => served(file, bytes),
        _ => not_found(),
    }
}

/// The handler that serves static files.
pub struct FileServerHandler {
    pub file_server: FileServer,
}

impl FileServerHandler {
    /// A handler that answers from `file_server`.
    pub fn new(file_server: FileServer) -> (handler: FileServerHandler)
        ensures
            handler.file_server == file_server,
    {
        FileServerHandler { file_server }
    }

    /// The answer to `request`, given what stands at the location that its
    /// path names and, where that leads to a file, what reading that file
    /// gave: its contents, or `None` where it could not be read. Only the
    /// path of the request is looked at.
    pub fn handle(&self, request: &Request, kind: EntryKind, contents: Option<Vec<u8>>) -> (response:
        Response)
        ensures
            response@ == handled(
                self.file_server.root@,
                request.path@,
                kind,
                match contents {
                    Some(bytes) => Some(bytes@),
                    None => None,
                },
            ),
            match target(locate(self.file_server.root@, request.path@), kind) {
                Some(file) => contents is Some && extension(file).len() == 0
                    ==> response@.content_type == Some(OCTET_STREAM@),
                None => true,
            },
            response.wf(),
    {
        match self.file_server.resolve(request.path.as_str(), kind, contents) {
            Ok(response) => response,
            Err(_) => Response::not_found(),
        }
    }
}

impl Handler for FileServerHandler {
    open spec fn first(&self, request: RequestView) -> StepView {
        file_first(self.file_server.root@, request)
    }

    open spec fn next(&self, step: StepView, event: EventView) -> StepView {
        file_next(step, event)
    }

    fn begin(&self, request: &Request) -> (step: Step) {
        Step::Probe { location: self.file_server.locate(request.path.as_str()) }
    }

    fn advance(&self, step: Step, event: Event) -> (following: Step) {
        match (step, event) {
            (Step::Probe { location }, Event::Probed { kind }) => {
                match FileServer::target_of(location, kind) {
                    Ok(file) => Step::Read { file },
                    Err(_) => Step::Respond { response: Response::not_found() },
                }
            },
            (Step::Read { file }, Event::Loaded { contents }) => Step::Respond {
                response: FileServer::serve_file(file.as_str(), contents),
            },
            (Step::Read { file }, Event::Unreadable) => Step::Respond {
                response: Response::not_found(),
            },
            (step, _) => step,
        }
    }
}

/// The handler a connection talks to. It passes every request on to the
/// handler it was made with.
pub struct HttpHandler<H: Handler> {
    pub handler: H,
}

impl<H: Handler> HttpHandler<H> {
    /// A handler that answers as `handler` does.
    pub fn new(handler: H) -> (outer: HttpHandler<H>)
        ensures
            outer.handler == handler,
    {
        HttpHandler { handler }
    }

    /// Begins to handle `request`.
    pub fn handle_request(&self, request: &Request) -> (step: Step)
        ensures
            step@ == self.handler.first(request@),
    {
        self.handler.begin(request)
    }

    /// Goes on after `event` came of `step`.
    pub fn advance(&self, step: Step, event: Event) -> (following: Step)
        ensures
            following@ == self.handler.next(step@, event@),
    {
        self.handler.advance(step, event)
    }
}

impl HttpHandler<FileServerHandler> {
    /// The handler that serves the files below the directory that `config`
    /// names.
    pub fn from_config(config: &Config) -> (outer: HttpHandler<FileServerHandler>)
        ensures
            outer.handler.file_server.root@ == config.public@,
    {
        let file_server = FileServer::new(config.public.clone());
        HttpHandler { handler: FileServerHandler::new(file_server) }
    }
}

} // verus!
