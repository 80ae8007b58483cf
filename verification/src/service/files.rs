//! Serving files from a directory. The file that a request names is served
//! only if, with every link and every `..` in its path resolved, it still
//! lies below the directory.

use crate::config::text_view;
use crate::service::response::LocalResponse;
use crate::text::same;
use std::path::Path;
use vstd::prelude::*;

verus! {

/// Whether the path `file` lies at or below the path `base`, component by
/// component, as paths are read on the platform that the proxy is built
/// for.
pub uninterp spec fn path_starts_with(file: Seq<char>, base: Seq<char>) -> bool;

/// The extension of the file that `path` names, if it has one.
pub uninterp spec fn path_extension(path: Seq<char>) -> Option<Seq<char>>;

/// `Path::starts_with`: whether `base` is a prefix of `file`, where only
/// whole components count.
#[verifier::external_body]
pub(crate) fn starts_with(file: &str, base: &str) -> (within: bool)
    ensures
        within == path_starts_with(file@, base@),
{
    Path::new(file).starts_with(base)
}

/// `Path::extension`: what follows the last dot in the name of the file,
/// unless the name has no dot or only begins with its one dot.
#[verifier::external_body]
pub(crate) fn extension(path: &str) -> (extension: Option<String>)
    ensures
        text_view(extension) == path_extension(path@),
{
    Path::new(path).extension().and_then(|extension| extension.to_str()).map(String::from)
}

/// The content type that goes with an extension.
pub open spec fn content_type_of(extension: Option<Seq<char>>) -> Seq<char> {
    match extension {
        Some(extension) => if extension == "html"@ {
            "text/html"@
        } else if extension == "css"@ {
            "text/css"@
        } else if extension == "js"@ {
            "application/javascript"@
        } else if extension == "png"@ {
            "image/png"@
        } else if extension == "jpeg"@ {
            "image/jpeg"@
        } else {
            "text/plain"@
        },
        None => "text/plain"@,
    }
}

/// The content type of a file with the given extension: that of plain text
/// unless the extension is one of five that are known.
pub fn content_type(extension: Option<&str>) -> (content_type: &'static str)
    ensures
        content_type@ == content_type_of(
            match extension {
                Some(extension) => Some(extension@),
                None => None,
            },
        ),
{
    match extension {
        Some(extension) => {
            if same(extension, "html") {
                "text/html"
            } else if same(extension, "css") {
                "text/css"
            } else if same(extension, "js") {
                "application/javascript"
            } else if same(extension, "png") {
                "image/png"
            } else if same(extension, "jpeg") {
                "image/jpeg"
            } else {
                "text/plain"
            }
        },
        None => "text/plain",
    }
}

/// What to do about a request for a file.
#[derive(Clone, Copy, Debug)]
pub enum Transfer {
    /// Answer that there is no such file.
    NotFound,
    /// Read the file and send it with this content type.
    Read { content_type: &'static str },
}

/// Whether a file may be served. `directory` and `file` are the directory
/// that is served and the file that is asked for, each with every link
/// resolved, or `None` where that failed; `is_file` says whether the file is
/// a regular file.
pub open spec fn may_serve(
    directory: Option<Seq<char>>,
    file: Option<Seq<char>>,
    is_file: bool,
) -> bool {
    &&& directory is Some
    &&& file is Some
    &&& path_starts_with(file->0, directory->0)
    &&& is_file
}

/// Decides from what is known of the file on its own: whether its resolved
/// path lies within the directory, whether it is a regular file, and its
/// extension.
pub fn select(within: bool, is_file: bool, extension: Option<&str>) -> (transfer: Transfer)
    ensures
        match transfer {
            Transfer::NotFound => !(within && is_file),
            Transfer::Read { content_type: found } => within && is_file && found@
                == content_type_of(
                match extension {
                    Some(extension) => Some(extension@),
                    None => None,
                },
            ),
        },
{
    if !within || !is_file {
        Transfer::NotFound
    } else {
        Transfer::Read { content_type: content_type(extension) }
    }
}

/// Decides whether the file that a request asks for is served. Path
/// containment: a file is read only if its resolved path lies at or below
/// the resolved directory; every other request is answered with "not found".
pub fn transfer(directory: Option<&str>, file: Option<&str>, is_file: bool) -> (transfer: Transfer)
    ensures
        match transfer {
            Transfer::NotFound => !may_serve(
                match directory {
                    Some(directory) => Some(directory@),
                    None => None,
                },
                match file {
                    Some(file) => Some(file@),
                    None => None,
                },
                is_file,
            ),
            Transfer::Read { content_type: found } => {
                &&& directory is Some
                &&& file is Some
                &&& is_file
                &&& path_starts_with(file->0@, directory->0@)
                &&& found@ == content_type_of(path_extension(file->0@))
            },
        },
{
    let Some(directory) = directory else {
        return Transfer::NotFound;
    };
    let Some(file) = file else {
        return Transfer::NotFound;
    };
    let extension = extension(file);
    let extension = match &extension {
        Some(extension) => Some(extension.as_str()),
        None => None,
    };
    select(starts_with(file, directory), is_file, extension)
}

/// The response to a request for a file that may be served: the file with
/// its content type if it could be read, "not found" if it could not.
pub fn respond(content_type: &'static str, content: Option<Vec<u8>>) -> (response: LocalResponse)
    ensures
        match content {
            Some(content) => response.holds(200, Some(content_type@), content@),
            None => response.holds(404, Some("text/plain"@), vstd::utf8::encode_utf8("HTTP 404 NOT FOUND"@)),
        },
{
    match content {
        Some(content) => LocalResponse::builder().with_body(content_type, content),
        None => LocalResponse::not_found(),
    }
}

} // verus!
