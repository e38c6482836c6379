use std::collections::HashMap;

use rserve::file_server::{EntryKind, FileResolveError, FileServer, ServeError};
use rserve::handler::{Event, FileServerHandler, Handler, HttpHandler, Step};
use rserve::message::{Request, Response};

/// A file system in memory: what stands at each location.
enum Node {
    File(Vec<u8>),
    Sealed,
    Directory,
}

struct Disk {
    nodes: HashMap<String, Node>,
}

impl Disk {
    fn site() -> Disk {
        let mut nodes = HashMap::new();
        nodes.insert("root/".to_string(), Node::Directory);
        nodes.insert("root/index.html".to_string(), Node::File(b"hello".to_vec()));
        nodes.insert("root/css".to_string(), Node::Directory);
        nodes.insert("root/css/".to_string(), Node::Directory);
        nodes.insert("root/css/site.css".to_string(), Node::File(b"body {}".to_vec()));
        nodes.insert("root/docs".to_string(), Node::Directory);
        nodes.insert("root/docs/".to_string(), Node::Directory);
        nodes.insert("root/docs/index.html".to_string(), Node::File(b"<p>docs</p>".to_vec()));
        nodes.insert("root/data.bin9".to_string(), Node::File(vec![0, 159, 146, 150]));
        nodes.insert("root/README".to_string(), Node::File(b"read me".to_vec()));
        nodes.insert("root/secret.txt".to_string(), Node::Sealed);
        Disk { nodes }
    }

    fn perform(&self, step: &Step) -> Event {
        match step {
            Step::Probe { location } => Event::Probed {
                kind: match self.nodes.get(location) {
                    Some(Node::File(_)) | Some(Node::Sealed) => EntryKind::File,
                    Some(Node::Directory) => EntryKind::Directory,
                    None => EntryKind::Missing,
                },
            },
            Step::Read { file } => match self.nodes.get(file) {
                Some(Node::File(contents)) => Event::Loaded { contents: contents.clone() },
                _ => Event::Unreadable,
            },
            Step::Respond { .. } => Event::Unreadable,
        }
    }
}

fn get(disk: &Disk, path: &str) -> Response {
    let handler = HttpHandler::new(FileServerHandler::new(FileServer::new("root".to_string())));
    let request = Request::new("GET".to_string(), path.to_string());
    let mut step = handler.handle_request(&request);
    for _ in 0..2 {
        if let Step::Respond { .. } = step {
            break;
        }
        let event = disk.perform(&step);
        step = handler.advance(step, event);
    }
    match step {
        Step::Respond { response } => response,
        _ => panic!("the handler did not answer within two steps"),
    }
}

fn assert_same(a: &Response, b: &Response) {
    assert_eq!(a.status, b.status);
    assert_eq!(a.content_type, b.content_type);
    assert_eq!(a.body, b.body);
}

#[test]
fn root_serves_its_index() {
    let response = get(&Disk::site(), "/");
    assert_eq!(response.status, 200);
    assert_eq!(response.body, b"hello".to_vec());
    assert_eq!(response.content_type.as_deref(), Some("text/html"));
}

#[test]
fn stylesheet_is_served_as_css() {
    let response = get(&Disk::site(), "/css/site.css");
    assert_eq!(response.status, 200);
    assert_eq!(response.body, b"body {}".to_vec());
    assert_eq!(response.content_type.as_deref(), Some("text/css"));
}

#[test]
fn missing_file_is_not_found() {
    let response = get(&Disk::site(), "/missing.txt");
    assert_eq!(response.status, 404);
    assert!(response.body.is_empty());
    assert_eq!(response.content_type, None);
}

#[test]
fn doubled_separator_serves_the_same() {
    let disk = Disk::site();
    let doubled = get(&disk, "/css//site.css");
    assert_eq!(doubled.status, 200);
    assert_same(&doubled, &get(&disk, "/css/site.css"));
}

#[test]
fn existing_file_is_served_byte_for_byte() {
    let response = get(&Disk::site(), "/data.bin9");
    assert_eq!(response.status, 200);
    assert_eq!(response.body, vec![0, 159, 146, 150]);
    assert_eq!(response.content_type.as_deref(), Some("application/octet-stream"));
}

#[test]
fn file_without_extension_is_an_octet_stream() {
    let response = get(&Disk::site(), "/README");
    assert_eq!(response.status, 200);
    assert_eq!(response.body, b"read me".to_vec());
    assert_eq!(response.content_type.as_deref(), Some("application/octet-stream"));
}

#[test]
fn directory_serves_its_index_with_or_without_trailing_separator() {
    let disk = Disk::site();
    let direct = get(&disk, "/docs/index.html");
    assert_eq!(direct.status, 200);
    assert_eq!(direct.body, b"<p>docs</p>".to_vec());
    assert_eq!(direct.content_type.as_deref(), Some("text/html"));
    assert_same(&get(&disk, "/docs"), &direct);
    assert_same(&get(&disk, "/docs/"), &direct);
}

#[test]
fn directory_without_index_is_not_found() {
    let disk = Disk::site();
    for path in ["/css", "/css/"] {
        let response = get(&disk, path);
        assert_eq!(response.status, 404);
        assert!(response.body.is_empty());
        assert_eq!(response.content_type, None);
    }
}

#[test]
fn unreadable_file_is_not_found() {
    let response = get(&Disk::site(), "/secret.txt");
    assert_eq!(response.status, 404);
    assert!(response.body.is_empty());
    assert_eq!(response.content_type, None);
}

#[test]
fn method_does_not_matter() {
    let disk = Disk::site();
    let handler = FileServerHandler::new(FileServer::new("root".to_string()));
    let get = handler.begin(&Request::new("GET".to_string(), "/index.html".to_string()));
    let post = handler.begin(&Request::new("POST".to_string(), "/index.html".to_string()));
    match (&get, &post) {
        (Step::Probe { location: a }, Step::Probe { location: b }) => {
            assert_eq!(a, "root/index.html");
            assert_eq!(a, b);
        }
        _ => panic!("handling begins with a probe"),
    }
    let event = disk.perform(&post);
    match handler.advance(post, event) {
        Step::Read { file } => assert_eq!(file, "root/index.html"),
        _ => panic!("a file that was found is read"),
    }
}

#[test]
fn event_out_of_turn_changes_nothing() {
    let handler = FileServerHandler::new(FileServer::new("root".to_string()));
    let probe = Step::Probe { location: "root/a".to_string() };
    match handler.advance(probe, Event::Unreadable) {
        Step::Probe { location } => assert_eq!(location, "root/a"),
        _ => panic!("the probe is still to be done"),
    }
    let read = Step::Read { file: "root/a".to_string() };
    match handler.advance(read, Event::Probed { kind: EntryKind::File }) {
        Step::Read { file } => assert_eq!(file, "root/a"),
        _ => panic!("the read is still to be done"),
    }
    let done = Step::Respond { response: Response::not_found() };
    match handler.advance(done, Event::Loaded { contents: vec![1] }) {
        Step::Respond { response } => assert_eq!(response.status, 404),
        _ => panic!("an answer stays an answer"),
    }
}

#[test]
fn resolve_file_returns_the_file_itself() {
    let server = FileServer::new("root".to_string());
    assert_eq!(
        server.resolve_file("/a//b.txt", EntryKind::File),
        Ok("root/a/b.txt".to_string())
    );
}

#[test]
fn resolve_file_points_into_a_directory() {
    let server = FileServer::new("root".to_string());
    assert_eq!(
        server.resolve_file("/docs", EntryKind::Directory),
        Ok("root/docs/index.html".to_string())
    );
    assert_eq!(
        server.resolve_file("/docs/", EntryKind::Directory),
        Ok("root/docs/index.html".to_string())
    );
    assert_eq!(
        server.resolve_file("/", EntryKind::Directory),
        Ok("root/index.html".to_string())
    );
}

#[test]
fn resolve_file_fails_where_nothing_stands() {
    let server = FileServer::new("root".to_string());
    assert_eq!(server.resolve_file("/nothing", EntryKind::Missing), Err(FileResolveError));
}

#[test]
fn resolve_file_does_not_stay_below_the_root() {
    let server = FileServer::new("root".to_string());
    assert_eq!(
        server.resolve_file("/../outside.txt", EntryKind::File),
        Ok("root/../outside.txt".to_string())
    );
}

#[test]
fn resolve_gives_each_outcome() {
    let server = FileServer::new("root".to_string());
    let served = server.resolve("/css/site.css", EntryKind::File, Some(vec![1, 2, 3])).unwrap();
    assert_eq!(served.status, 200);
    assert_eq!(served.content_type.as_deref(), Some("text/css"));
    assert_eq!(served.body, vec![1, 2, 3]);
    assert!(served.is_ok());
    assert_eq!(
        server.resolve("/css", EntryKind::Directory, None).err(),
        Some(ServeError::ReadFailed)
    );
    assert_eq!(
        server.resolve("/nothing", EntryKind::Missing, Some(vec![1])).err(),
        Some(ServeError::NotResolved(FileResolveError))
    );
    assert_eq!(
        server.resolve("/nothing", EntryKind::Missing, None).err(),
        Some(ServeError::NotResolved(FileResolveError))
    );
}

#[test]
fn content_type_follows_the_extension() {
    let cases = [
        ("root/index.html", "text/html"),
        ("root/site.css", "text/css"),
        ("root/app.js", "text/javascript"),
        ("root/photo.PNG", "image/png"),
        ("root/data.json", "application/json"),
        ("root/archive.unknown-ext", "application/octet-stream"),
        ("root/Makefile", "application/octet-stream"),
        ("root.d/file", "application/octet-stream"),
    ];
    for (file, expected) in cases {
        let response = FileServer::serve_file(file, vec![7]);
        assert_eq!(response.status, 200);
        assert_eq!(response.content_type.as_deref(), Some(expected));
        assert_eq!(response.body, vec![7]);
    }
}

#[test]
fn resolve_error_describes_itself() {
    assert_eq!(FileResolveError.message(), "file resolve error");
    assert_eq!(format!("{:?}", FileResolveError), "FileResolveError");
}

#[test]
fn the_two_answers() {
    let ok = Response::ok("text/plain".to_string(), b"x".to_vec());
    assert_eq!(ok.status, 200);
    assert!(ok.is_ok());
    let missing = Response::not_found();
    assert_eq!(missing.status, 404);
    assert_eq!(missing.content_type, None);
    assert!(missing.body.is_empty());
    assert!(!missing.is_ok());
}

#[test]
fn handle_answers_in_one_call() {
    let handler = FileServerHandler::new(FileServer::new("root".to_string()));
    let request = Request::new("GET".to_string(), "/index.html".to_string());
    let served = handler.handle(&request, EntryKind::File, Some(b"hello".to_vec()));
    assert_eq!(served.status, 200);
    assert_eq!(served.content_type.as_deref(), Some("text/html"));
    assert_eq!(served.body, b"hello".to_vec());
}

#[test]
fn handle_turns_every_failure_into_not_found() {
    let handler = FileServerHandler::new(FileServer::new("root".to_string()));
    let request = Request::new("GET".to_string(), "/docs".to_string());
    for (kind, contents) in [
        (EntryKind::Missing, None),
        (EntryKind::Missing, Some(vec![1u8])),
        (EntryKind::File, None),
        (EntryKind::Directory, None),
    ] {
        let response = handler.handle(&request, kind, contents);
        assert_eq!(response.status, 404);
        assert_eq!(response.content_type, None);
        assert!(response.body.is_empty());
    }
}

#[test]
fn content_type_does_not_depend_on_the_directories() {
    for (a, b) in [
        ("index.html", "/srv/v1.2/deep/other.html"),
        ("site.css", "root.d/x.y/site.css"),
        ("README", "/srv/v1.2/README"),
    ] {
        let first = FileServer::serve_file(a, vec![1]);
        let second = FileServer::serve_file(b, vec![2, 3]);
        assert_eq!(first.content_type, second.content_type);
    }
    let readme = FileServer::serve_file("/srv/v1.2/README", Vec::new());
    assert_eq!(readme.content_type.as_deref(), Some("application/octet-stream"));
}

#[test]
fn request_with_many_leading_separators_stays_below_the_root() {
    let server = FileServer::new("/srv".to_string());
    assert_eq!(server.resolve_file("///a.txt", EntryKind::File), Ok("/srv/a.txt".to_string()));
    let disk = Disk::site();
    let response = get(&disk, "///index.html");
    assert_eq!(response.status, 200);
    assert_eq!(response.body, b"hello".to_vec());
}

#[test]
fn name_without_a_dot_is_an_octet_stream() {
    for file in ["", "root/LICENSE", "/srv/www/bin/tool", "/srv/v1.2/tool", "root/.hidden"] {
        let response = FileServer::serve_file(file, Vec::new());
        assert_eq!(response.content_type.as_deref(), Some("application/octet-stream"));
    }
}
