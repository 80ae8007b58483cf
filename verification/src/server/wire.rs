//! The methods and the status lines of HTTP that the built-in routes know.

use crate::text::same;
use vstd::prelude::*;

verus! {

/// The method of a request.
#[derive(Clone, Copy, Debug, PartialEq, Eq, Hash, Structural)]
pub enum HttpMethod {
    GET,
    POST,
    PUT,
    UNKNOWN,
}

/// The method that a word names: one of three, in capitals, or unknown.
pub open spec fn method_of(word: Seq<char>) -> HttpMethod {
    if word == "GET"@ {
        HttpMethod::GET
    } else if word == "POST"@ {
        HttpMethod::POST
    } else if word == "PUT"@ {
        HttpMethod::PUT
    } else {
        HttpMethod::UNKNOWN
    }
}

impl HttpMethod {
    /// The method that `method` names.
    pub fn parse(method: &str) -> (parsed: HttpMethod)
        ensures
            parsed == method_of(method@),
    {
        if same(method, "GET") {
            HttpMethod::GET
        } else if same(method, "POST") {
            HttpMethod::POST
        } else if same(method, "PUT") {
            HttpMethod::PUT
        } else {
            HttpMethod::UNKNOWN
        }
    }
}

/// The status of a response.
#[derive(Clone, Copy, Debug, PartialEq, Eq, Structural)]
pub enum HTTPStatus {
    OK,
    Created,
    NotFound,
    InternalServerError,
}

impl HTTPStatus {
    /// The number of the status.
    pub open spec fn number(self) -> u16 {
        match self {
            HTTPStatus::OK => 200,
            HTTPStatus::Created => 201,
            HTTPStatus::NotFound => 404,
            HTTPStatus::InternalServerError => 500,
        }
    }

    /// The status line.
    pub open spec fn line(self) -> Seq<char> {
        match self {
            HTTPStatus::OK => "HTTP/1.1 200 OK"@,
            HTTPStatus::Created => "HTTP/1.1 201 Created"@,
            HTTPStatus::NotFound => "HTTP/1.1 404 Not Found"@,
            HTTPStatus::InternalServerError => "HTTP/1.1 500 Internal Server Error"@,
        }
    }

    /// The number of the status.
    pub fn code(&self) -> (code: u16)
        ensures
            code == self.number(),
    {
        match self {
            HTTPStatus::OK => 200,
            HTTPStatus::Created => 201,
            HTTPStatus::NotFound => 404,
            HTTPStatus::InternalServerError => 500,
        }
    }

    /// The status line of a response with this status.
    pub fn as_str(&self) -> (line: &'static str)
        ensures
            line@ == self.line(),
    {
        match self {
            HTTPStatus::OK => "HTTP/1.1 200 OK",
            HTTPStatus::Created => "HTTP/1.1 201 Created",
            HTTPStatus::NotFound => "HTTP/1.1 404 Not Found",
            HTTPStatus::InternalServerError => "HTTP/1.1 500 Internal Server Error",
        }
    }
}

} // verus!
