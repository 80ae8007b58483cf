//! A request on its way to a backend, and the `Forwarded` header that tells
//! the backend where it came from.

use crate::service::headers::{
    first_bytes,
    first_value,
    header_entries,
    is_field_name,
    is_field_value,
    set_field,
    HeaderError,
};
use crate::text::from_utf8;
use http::header::HeaderMap;
use vstd::prelude::*;
use vstd::string::{StrSliceExecFns, StringSliceAdditionalSpecFns};
use vstd::utf8::{decode_utf8, encode_utf8, valid_utf8};

verus! {

/// The name of the header that lists the proxies a request went through.
pub fn forwarded() -> (name: &'static str)
    ensures
        name@ == "forwarded"@,
        is_field_name(name@),
{
    proof {
        reveal_strlit("forwarded");
    }
    "forwarded"
}

/// The name of the header that holds the host a request asks for.
pub fn host() -> (name: &'static str)
    ensures
        name@ == "host"@,
        is_field_name(name@),
{
    proof {
        reveal_strlit("host");
    }
    "host"
}

/// What one proxy adds to the `Forwarded` header: whom the request came
/// from, who took it, and the host it asked for.
pub open spec fn forwarded_segment(client: Seq<char>, by: Seq<char>, host: Seq<char>) -> Seq<
    char,
> {
    "for="@ + client + ";by="@ + by + ";host="@ + host
}

/// The host that a request asks for: the first value of its `Host` header
/// if that is UTF-8, else the address on which the proxy took the request.
pub open spec fn host_of(entries: Map<Seq<char>, Seq<Seq<u8>>>, server: Seq<char>) -> Seq<char> {
    match first_value(entries, "host"@) {
        Some(host) => if valid_utf8(host) {
            decode_utf8(host)
        } else {
            server
        },
        None => server,
    }
}

/// What this proxy adds to the `Forwarded` header of a request. The proxy
/// names itself by its id, or by the address on which it took the request.
pub open spec fn own_segment(
    entries: Map<Seq<char>, Seq<Seq<u8>>>,
    client: Seq<char>,
    server: Seq<char>,
    id: Option<Seq<char>>,
) -> Seq<char> {
    let by = match id {
        Some(id) => id,
        None => server,
    };
    forwarded_segment(client, by, host_of(entries, server))
}

/// The `Forwarded` header of the request as it leaves the proxy: what the
/// proxy adds, behind the first value that the header had, if it had one,
/// a comma and a space.
pub open spec fn forwarded_value(
    entries: Map<Seq<char>, Seq<Seq<u8>>>,
    client: Seq<char>,
    server: Seq<char>,
    id: Option<Seq<char>>,
) -> Seq<u8> {
    let segment = encode_utf8(own_segment(entries, client, server, id));
    match first_value(entries, "forwarded"@) {
        Some(before) => before + encode_utf8(", "@) + segment,
        None => segment,
    }
}

/// The headers of a request received from a client, with the two ends of
/// the connection it came on and the id of the proxy, if it has one.
pub struct ProxyRequest {
    headers: HeaderMap,
    client_addr: String,
    server_addr: String,
    proxy_id: Option<String>,
}

impl ProxyRequest {
    /// What the headers hold.
    pub closed spec fn entries(&self) -> Map<Seq<char>, Seq<Seq<u8>>> {
        header_entries(self.headers)
    }

    /// The address of the client, as text.
    pub closed spec fn client(&self) -> Seq<char> {
        self.client_addr@
    }

    /// The address on which the proxy took the connection, as text.
    pub closed spec fn server(&self) -> Seq<char> {
        self.server_addr@
    }

    /// The id of the proxy.
    pub closed spec fn id(&self) -> Option<Seq<char>> {
        match self.proxy_id {
            Some(id) => Some(id@),
            None => None,
        }
    }

    /// The value that the `Forwarded` header is to have when the request
    /// leaves.
    pub open spec fn forwarded(&self) -> Seq<u8> {
        forwarded_value(self.entries(), self.client(), self.server(), self.id())
    }

    /// The request with these headers, come from `client_addr` to
    /// `server_addr`.
    pub fn new(
        headers: HeaderMap,
        client_addr: String,
        server_addr: String,
        proxy_id: Option<String>,
    ) -> (request: Self)
        ensures
            request.entries() == header_entries(headers),
            request.client() == client_addr@,
            request.server() == server_addr@,
            request.id() == match proxy_id {
                Some(id) => Some(id@),
                None => None,
            },
    {
        ProxyRequest { headers, client_addr, server_addr, proxy_id }
    }

    /// The headers as they came.
    pub fn headers(&self) -> (headers: &HeaderMap)
        ensures
            header_entries(*headers) == self.entries(),
    {
        &self.headers
    }

    /// The headers as they go to the backend: the `Forwarded` header is set
    /// to the one value that names this proxy behind those before it, and
    /// nothing else is changed. A value with a byte that may not stand in a
    /// header is refused; the map may refuse to grow.
    pub fn into_forwarded(self) -> (result: Result<HeaderMap, HeaderError>)
        ensures
            match result {
                Ok(headers) => {
                    &&& is_field_value(self.forwarded())
                    &&& header_entries(headers) == self.entries().insert(
                        "forwarded"@,
                        seq![self.forwarded()],
                    )
                },
                Err(HeaderError::Value) => !is_field_value(self.forwarded()),
                Err(HeaderError::Full) => is_field_value(self.forwarded()),
            },
    {
        let ProxyRequest { headers, client_addr, server_addr, proxy_id } = self;
        let mut headers = headers;
        let host = match first_bytes(&headers, host()) {
            Some(bytes) => match from_utf8(bytes) {
                Some(host) => {
                    proof {
                        vstd::utf8::encode_utf8_decode_utf8(host@);
                    }
                    host
                },
                None => server_addr.clone(),
            },
            None => server_addr.clone(),
        };
        let by = match proxy_id {
            Some(id) => id,
            None => server_addr,
        };
        let mut segment = "for=".to_owned();
        segment.append(client_addr.as_str());
        segment.append(";by=");
        segment.append(by.as_str());
        segment.append(";host=");
        segment.append(host.as_str());
        let value = match first_bytes(&headers, forwarded()) {
            Some(before) => {
                let ghost first = before@;
                let mut value = before;
                value.extend_from_slice(", ".as_bytes());
                assert(value@ =~= first + encode_utf8(", "@));
                let ghost second = value@;
                value.extend_from_slice(segment.as_str().as_bytes());
                assert(value@ =~= second + encode_utf8(segment@));
                value
            },
            None => segment.as_str().as_bytes_vec(),
        };
        match set_field(&mut headers, forwarded(), value.as_slice()) {
            Ok(_) => Ok(headers),
            Err(error) => Err(error),
        }
    }
}

/// Forwarded append. A request without a `Forwarded` header leaves with
/// one, whose one value is what this proxy adds and nothing more; a request
/// whose header had the value `before` leaves with `before`, a comma and a
/// space, and what this proxy adds.
pub proof fn lemma_forwarded_append(
    entries: Map<Seq<char>, Seq<Seq<u8>>>,
    client: Seq<char>,
    server: Seq<char>,
    id: Option<Seq<char>>,
)
    ensures
        entries.insert("forwarded"@, seq![forwarded_value(entries, client, server, id)])[
            "forwarded"@
        ].len() == 1,
        first_value(entries, "forwarded"@) is None ==> forwarded_value(entries, client, server, id)
            == encode_utf8(own_segment(entries, client, server, id)),
        forall|before: Seq<u8>|
            first_value(entries, "forwarded"@) == Some(before) ==> forwarded_value(
                entries,
                client,
                server,
                id,
            ) == before + encode_utf8(", "@) + encode_utf8(own_segment(entries, client, server, id)),
{
}

} // verus!
