//! The built-in handlers: what each of them answers.

use crate::server::request::{lookup, Request};
use crate::server::routing::{Route, Router, RouteView};
use crate::server::wire::{HTTPStatus, HttpMethod};
use crate::text::{decimal, same, trim_start_matches, without_leading, write_number};
use vstd::prelude::*;
use vstd::string::StringSliceAdditionalSpecFns;
use vstd::utf8::encode_utf8;

verus! {

/// The handlers that a route can name.
#[derive(Clone, Copy, Debug, PartialEq, Eq, Structural)]
pub enum Handler {
    /// Answers "not found".
    NotFound,
    /// Answers with an empty "OK".
    Empty,
    /// Answers with the rest of the path.
    Echo,
    /// Answers with the user agent of the request.
    UserAgent,
    /// Answers with a file.
    GetFile,
    /// Stores the body of the request in a file.
    PostFile,
}

/// What the handlers are set up with.
pub struct Cfg {
    /// The directory of the files that are served and stored, if there is
    /// one.
    pub files_dir: Option<String>,
}

/// A response without headers and without a body: the status line and an
/// empty line.
pub open spec fn bare(status: HTTPStatus) -> Seq<char> {
    status.line() + "\r\n\r\n"@
}

/// A response with a body: the status line, the content type, the length
/// of the body in bytes, an empty line, and the body.
pub open spec fn full(status: HTTPStatus, content_type: Seq<char>, body: Seq<char>) -> Seq<char> {
    status.line() + "\r\nContent-Type: "@ + content_type + "\r\nContent-Length: "@ + decimal(
        encode_utf8(body).len(),
    ) + "\r\n\r\n"@ + body
}

/// Writes a response without headers.
fn write_bare(status: HTTPStatus) -> (response: String)
    ensures
        response@ == bare(status),
{
    let mut response = status.as_str().to_owned();
    response.append("\r\n\r\n");
    response
}

/// Writes a response with a body.
fn write_full(status: HTTPStatus, content_type: &str, body: &str) -> (response: String)
    ensures
        response@ == full(status, content_type@, body@),
{
    let mut response = status.as_str().to_owned();
    response.append("\r\nContent-Type: ");
    response.append(content_type);
    response.append("\r\nContent-Length: ");
    response.append(write_number(body.as_bytes().len()).as_str());
    response.append("\r\n\r\n");
    response.append(body);
    response
}

/// Answers "not found".
pub fn handle_404() -> (response: String)
    ensures
        response@ == bare(HTTPStatus::NotFound),
{
    write_bare(HTTPStatus::NotFound)
}

/// Answers with an empty "OK".
pub fn handle_200() -> (response: String)
    ensures
        response@ == bare(HTTPStatus::OK),
{
    write_bare(HTTPStatus::OK)
}

/// Answers with what stands behind `/echo/` in the path, as plain text.
pub fn handle_echo(request: &Request) -> (response: String)
    ensures
        response@ == full(
            HTTPStatus::OK,
            "text/plain"@,
            without_leading(request@.path, "/echo/"@),
        ),
{
    let path = trim_start_matches(request.path.path.as_str(), "/echo/");
    write_full(HTTPStatus::OK, "text/plain", path)
}

/// The user agent that a request names, or "Unknown".
pub open spec fn user_agent(headers: Seq<(Seq<char>, Seq<char>)>) -> Seq<char> {
    match lookup(headers, "User-Agent"@) {
        Some(agent) => agent,
        None => "Unknown"@,
    }
}

/// Answers with the user agent of the request, as plain text.
pub fn handle_user_agent(request: &Request) -> (response: String)
    ensures
        response@ == full(HTTPStatus::OK, "text/plain"@, user_agent(request@.headers)),
{
    match request.headers.get("User-Agent") {
        Some(agent) => write_full(HTTPStatus::OK, "text/plain", agent.as_str()),
        None => write_full(HTTPStatus::OK, "text/plain", "Unknown"),
    }
}

/// Where the file of a request lies: below the directory of the files, at
/// what stands behind `/files/` in the path.
pub open spec fn file_of(directory: Option<Seq<char>>, path: Seq<char>) -> Option<Seq<char>> {
    match directory {
        Some(directory) => Some(directory + "/"@ + without_leading(path, "/files/"@)),
        None => None,
    }
}

/// Where the file of a request lies, if the handlers have a directory.
pub fn file_path(cfg: &Cfg, request: &Request) -> (file: Option<String>)
    ensures
        crate::config::text_view(file) == file_of(
            crate::config::text_view(cfg.files_dir),
            request@.path,
        ),
{
    match &cfg.files_dir {
        Some(directory) => {
            let mut file = directory.clone();
            file.append("/");
            file.append(trim_start_matches(request.path.path.as_str(), "/files/"));
            Some(file)
        },
        None => None,
    }
}

/// Answers a request for a file, whose content is `contents` if it could
/// be read: with the content, or with "not found". Without a directory
/// nothing is found.
pub fn handle_get_file(cfg: &Cfg, contents: Option<&str>) -> (response: String)
    ensures
        response@ == match (cfg.files_dir, contents) {
            (Some(_), Some(contents)) => full(
                HTTPStatus::OK,
                "application/octet-stream"@,
                contents@,
            ),
            _ => bare(HTTPStatus::NotFound),
        },
{
    match (&cfg.files_dir, contents) {
        (Some(_), Some(contents)) => write_full(HTTPStatus::OK, "application/octet-stream", contents),
        _ => write_bare(HTTPStatus::NotFound),
    }
}

/// Answers a request to store a file: with "created" if it was written,
/// with a server error if it was not. Without a directory nothing is
/// found.
pub fn handle_post_file(cfg: &Cfg, written: bool) -> (response: String)
    ensures
        response@ == match cfg.files_dir {
            Some(_) => if written {
                full(HTTPStatus::Created, "text/plain"@, Seq::empty())
            } else {
                bare(HTTPStatus::InternalServerError)
            },
            None => bare(HTTPStatus::NotFound),
        },
{
    match &cfg.files_dir {
        Some(_) => {
            if written {
                let empty = String::new();
                write_full(HTTPStatus::Created, "text/plain", empty.as_str())
            } else {
                write_bare(HTTPStatus::InternalServerError)
            }
        },
        None => write_bare(HTTPStatus::NotFound),
    }
}

/// The routes of the server: the root, `/echo/`, `/user-agent`, and
/// `/files/` for reading and for writing.
pub open spec fn routes() -> Seq<RouteView> {
    seq![
        RouteView { path: "/"@, method: HttpMethod::GET, handler: Handler::Empty },
        RouteView { path: "/echo/"@, method: HttpMethod::GET, handler: Handler::Echo },
        RouteView { path: "/user-agent"@, method: HttpMethod::GET, handler: Handler::UserAgent },
        RouteView { path: "/files/"@, method: HttpMethod::GET, handler: Handler::GetFile },
        RouteView { path: "/files/"@, method: HttpMethod::POST, handler: Handler::PostFile },
    ]
}

/// The router of the server.
pub fn setup_router() -> (router: Router)
    ensures
        router@ == routes(),
{
    let mut list: Vec<Route> = Vec::new();
    list.push(Route::new("/", HttpMethod::GET, Handler::Empty));
    list.push(Route::new("/echo/", HttpMethod::GET, Handler::Echo));
    list.push(Route::new("/user-agent", HttpMethod::GET, Handler::UserAgent));
    list.push(Route::new("/files/", HttpMethod::GET, Handler::GetFile));
    list.push(Route::new("/files/", HttpMethod::POST, Handler::PostFile));
    let router = Router::new(list);
    assert(router@ =~= routes());
    router
}

/// The flag that names the directory of the files.
pub const DIR_FLAG: &'static str = "--directory";

/// The place of the first argument that is the directory flag.
pub open spec fn flag_place(args: Seq<String>, from: int) -> int
    decreases args.len() - from,
{
    if from >= args.len() {
        args.len() as int
    } else if args[from]@ == DIR_FLAG@ {
        from
    } else {
        flag_place(args, from + 1)
    }
}

/// The directory that the arguments name: the argument behind the first
/// directory flag. `None` where there is no flag; where the flag is the last
/// argument, the directory is missing.
pub open spec fn directory_of(args: Seq<String>) -> Result<Option<Seq<char>>, ()> {
    let place = flag_place(args, 0);
    if place >= args.len() {
        Ok(None)
    } else if place + 1 < args.len() {
        Ok(Some(args[place + 1]@))
    } else {
        Err(())
    }
}

/// Whether the arguments name the directory they announce: the directory
/// flag, if it is there, is not the last argument.
pub fn names_directory(args: &Vec<String>) -> (named: bool)
    ensures
        named == directory_of(args@) is Ok,
{
    let place = find_flag(args);
    place >= args.len() || place + 1 < args.len()
}

/// The place of the first directory flag among the arguments.
fn find_flag(args: &Vec<String>) -> (place: usize)
    ensures
        place == flag_place(args@, 0),
        place <= args@.len(),
{
    let mut place: usize = 0;
    while place < args.len()
        invariant
            place <= args.len(),
            flag_place(args@, 0) == flag_place(args@, place as int),
        decreases args.len() - place,
    {
        if same(args[place].as_str(), DIR_FLAG) {
            return place;
        }
        place += 1;
    }
    place
}

/// The directory that the arguments name, if they name one. The directory
/// flag is not the last argument.
pub fn setup_directory(args: &Vec<String>) -> (directory: Option<String>)
    requires
        directory_of(args@) is Ok,
    ensures
        Ok::<Option<Seq<char>>, ()>(crate::config::text_view(directory)) == directory_of(args@),
{
    let place = find_flag(args);
    if place < args.len() {
        Some(args[place + 1].clone())
    } else {
        None
    }
}

/// What the handlers are set up with, as the arguments say.
pub fn setup_cfg(args: &Vec<String>) -> (cfg: Cfg)
    requires
        directory_of(args@) is Ok,
    ensures
        Ok::<Option<Seq<char>>, ()>(crate::config::text_view(cfg.files_dir)) == directory_of(args@),
{
    Cfg { files_dir: setup_directory(args) }
}

} // verus!
