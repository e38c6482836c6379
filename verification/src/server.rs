//! The server around the handler: where it listens, what its accept loop
//! does next, and the lines it writes to its log.

use vstd::prelude::*;
use vstd::string::*;
use crate::config::{Config, Host};
use crate::handler::{FileServerHandler, Handler, HttpHandler, Step};
use crate::message::{Request, Response};
use crate::text::{decimal, decimal_text, push_char};

verus! {

/// The line logged when a request arrives: the method, a space, the path.
pub open spec fn request_line(method: Seq<char>, path: Seq<char>) -> Seq<char> {
    method + seq![' '] + path
}

/// The line logged when a response is ready: the status, the word `in`,
/// the milliseconds it took, and the unit.
pub open spec fn response_line(status: nat, millis: nat) -> Seq<char> {
    decimal(status) + " in "@ + decimal(millis) + " ms"@
}

/// The line written to the operator when a connection ends in an error.
pub open spec fn error_line(reason: Seq<char>) -> Seq<char> {
    "Server error: "@ + reason
}

/// Where the accept loop stands.
#[derive(Debug, Clone, Copy, PartialEq, Eq, Structural)]
pub enum Phase {
    /// The listening socket is being bound.
    Starting,
    /// The socket is bound and connections are accepted.
    Listening,
    /// The server has given up.
    Stopped,
}

/// What happened to the listening socket.
#[derive(Debug, Clone, Copy, PartialEq, Eq, Structural)]
pub enum Signal {
    /// The socket was bound.
    Bound,
    /// The socket could not be bound.
    BindFailed,
    /// A connection was accepted.
    Accepted,
    /// Accepting a connection failed.
    AcceptFailed,
}

/// What the accept loop does next.
#[derive(Debug, Clone, Copy, PartialEq, Eq, Structural)]
pub enum Command {
    /// Wait for a connection.
    Accept,
    /// Serve the accepted connection in a task of its own, and wait for the
    /// next one.
    Serve,
    /// End the process.
    Abort,
}

/// The accept loop. The socket is bound once, before the loop begins; from
/// then on each accepted connection is served while the next is awaited. A
/// failure to bind or to accept ends the server, and so does a signal that
/// cannot come in the phase it came in.
pub open spec fn react(phase: Phase, signal: Signal) -> (Phase, Command) {
    match (phase, signal) {
        (Phase::Starting, Signal::Bound) => (Phase::Listening, Command::Accept),
        (Phase::Listening, Signal::Accepted) => (Phase::Listening, Command::Serve),
        _ => (Phase::Stopped, Command::Abort),
    }
}

/// A server with its settings.
pub struct Server {
    pub config: Config,
}

impl Server {
    /// A server that runs with `config`.
    pub fn new(config: Config) -> (server: Server)
        ensures
            server.config == config,
    {
        Server { config }
    }

    /// The address and the port to bind the listening socket to.
    pub fn address(&self) -> (bind: (Host, u16))
        ensures
            bind.0 == self.config.host,
            bind.1 == self.config.port,
    {
        (self.config.host, self.config.port)
    }

    /// The handler that every connection of this server shares.
    pub fn handler(&self) -> (handler: HttpHandler<FileServerHandler>)
        ensures
            handler.handler.file_server.root@ == self.config.public@,
    {
        HttpHandler::from_config(&self.config)
    }

    /// One turn of the accept loop, which begins in [`Phase::Starting`]:
    /// the next phase and what to do in it, after `signal` came in `phase`.
    /// The socket is never bound again, and a stopped server stays stopped.
    pub fn run(phase: Phase, signal: Signal) -> (next: (Phase, Command))
        ensures
            next == react(phase, signal),
            next.0 != Phase::Starting,
            phase == Phase::Stopped ==> next.0 == Phase::Stopped,
            (next.0 == Phase::Stopped) <==> (next.1 == Command::Abort),
    {
        match (phase, signal) {
            (Phase::Starting, Signal::Bound) => (Phase::Listening, Command::Accept),
            (Phase::Listening, Signal::Accepted) => (Phase::Listening, Command::Serve),
            _ => (Phase::Stopped, Command::Abort),
        }
    }

    /// Begins to serve one request of a connection: the line to log, and
    /// the first step of handling it.
    pub fn serve<H: Handler>(handler: &HttpHandler<H>, request: &Request) -> (begun: (
        String,
        Step,
    ))
        ensures
            begun.0@ == request_line(request.method@, request.path@),
            begun.1@ == handler.handler.first(request@),
    {
        (log_request(request), st(handler, request))
    }
}

/// Begins to handle `request` with `handler`.
pub fn st<H: Handler>(handler: &HttpHandler<H>, request: &Request) -> (step: Step)
    ensures
        step@ == handler.handler.first(request@),
{
    handler.handle_request(request)
}

/// The line to log when `request` arrives.
pub fn log_request(request: &Request) -> (line: String)
    ensures
        line@ == request_line(request.method@, request.path@),
{
    let mut line = request.method.clone();
    push_char(&mut line, ' ');
    line.append(request.path.as_str());
    line
}

/// The line to log when `response` is ready, `millis` milliseconds after
/// its request arrived.
pub fn log_response(response: &Response, millis: u128) -> (line: String)
    ensures
        line@ == response_line(response.status as nat, millis as nat),
{
    let mut line = decimal_text(response.status as u128);
    line.append(" in ");
    line.append(decimal_text(millis).as_str());
    line.append(" ms");
    line
}

/// The line to write to the operator when a connection ends in an error
/// that `reason` describes.
pub fn log_error(reason: &str) -> (line: String)
    ensures
        line@ == error_line(reason@),
{
    let mut line = String::from_str("Server error: ");
    line.append(reason);
    line
}

} // verus!
