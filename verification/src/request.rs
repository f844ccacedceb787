//! The requests of the release API: method, address, body and headers.

use crate::json::{in_quotes, is_plain, json_quoted, quoted};
use crate::release::release_name;
use crate::text::{decimal, decimal_text, is_hex_digit, is_hex_text};
use vstd::prelude::*;
use vstd::string::*;

verus! {

/// The method of a request.
#[derive(Clone, Copy, Debug, PartialEq, Eq, Structural)]
pub enum Method {
    Get,
    Post,
    Patch,
    Delete,
}

/// What a request carries as its body.
#[derive(Debug)]
pub enum Payload {
    /// No body.
    Empty,
    /// A JSON text.
    Text(String),
    /// The bytes of the artifact at hand, of which there are this many.
    File(u64),
}

/// What a `Payload` holds.
pub enum PayloadModel {
    Empty,
    Text(Seq<char>),
    File(u64),
}

impl View for Payload {
    type V = PayloadModel;

    open spec fn view(&self) -> PayloadModel {
        match self {
            Payload::Empty => PayloadModel::Empty,
            Payload::Text(t) => PayloadModel::Text(t@),
            Payload::File(n) => PayloadModel::File(*n),
        }
    }
}

/// A request for the caller to send.
#[derive(Debug)]
pub struct Request {
    pub method: Method,
    pub url: String,
    pub payload: Payload,
    /// Whether the request must go out on a newly made connection.
    pub fresh: bool,
}

/// What a `Request` holds.
pub struct RequestModel {
    pub method: Method,
    pub url: Seq<char>,
    pub payload: PayloadModel,
    pub fresh: bool,
}

impl View for Request {
    type V = RequestModel;

    open spec fn view(&self) -> RequestModel {
        RequestModel {
            method: self.method,
            url: self.url@,
            payload: self.payload@,
            fresh: self.fresh,
        }
    }
}

/// A header line of a request.
#[derive(Debug)]
pub struct Header {
    pub name: String,
    pub value: String,
}

impl View for Header {
    type V = (Seq<char>, Seq<char>);

    open spec fn view(&self) -> (Seq<char>, Seq<char>) {
        (self.name@, self.value@)
    }
}

/// What a list of headers holds, line by line.
pub open spec fn header_lines(list: Seq<Header>) -> Seq<(Seq<char>, Seq<char>)> {
    Seq::new(list.len(), |i: int| list[i]@)
}

/// The three headers that every request carries.
pub open spec fn fixed_lines(token: Seq<char>) -> Seq<(Seq<char>, Seq<char>)> {
    seq![
        ("Authorization"@, "token "@ + token),
        ("User-Agent"@, "rust-release"@),
        ("Accept"@, "application/vnd.github+json"@),
    ]
}

/// The two headers that go with a body of file bytes.
pub open spec fn file_lines(length: u64) -> Seq<(Seq<char>, Seq<char>)> {
    seq![
        ("Content-Type"@, "application/octet-stream"@),
        ("Content-Length"@, decimal(length as nat)),
    ]
}

/// The headers of a request: the fixed three, and for file bytes their type
/// and length.
pub open spec fn lines_of(payload: PayloadModel, token: Seq<char>) -> Seq<(Seq<char>, Seq<char>)> {
    match payload {
        PayloadModel::File(n) => fixed_lines(token) + file_lines(n),
        _ => fixed_lines(token),
    }
}

/// The fields of the request that creates the release.
#[derive(Debug)]
pub struct Create {
    pub tag_name: String,
    pub name: String,
    pub draft: bool,
}

/// The fields of the request that updates the release.
#[derive(Debug)]
pub struct Update {
    pub target_commitish: String,
    pub draft: bool,
}

/// The JSON object of a `Create`, field by field.
pub open spec fn create_json(tag_name: Seq<char>, name: Seq<char>, draft: bool) -> Seq<char> {
    "{\"tag_name\":"@ + json_quoted(tag_name) + ",\"name\":"@ + json_quoted(name) + (if draft {
        ",\"draft\":true}"@
    } else {
        ",\"draft\":false}"@
    })
}

/// The JSON object of an `Update`, field by field.
pub open spec fn update_json(target_commitish: Seq<char>, draft: bool) -> Seq<char> {
    "{\"target_commitish\":"@ + json_quoted(target_commitish) + (if draft {
        ",\"draft\":true}"@
    } else {
        ",\"draft\":false}"@
    })
}

/// The JSON object of a `Create` whose texts are plain.
pub open spec fn create_plain(tag_name: Seq<char>, name: Seq<char>, draft: bool) -> Seq<char> {
    "{\"tag_name\":"@ + in_quotes(tag_name) + ",\"name\":"@ + in_quotes(name) + (if draft {
        ",\"draft\":true}"@
    } else {
        ",\"draft\":false}"@
    })
}

/// The JSON object of an `Update` whose commit is plain.
pub open spec fn update_plain(target_commitish: Seq<char>, draft: bool) -> Seq<char> {
    "{\"target_commitish\":"@ + in_quotes(target_commitish) + (if draft {
        ",\"draft\":true}"@
    } else {
        ",\"draft\":false}"@
    })
}

/// The body that creates the release, letter by letter.
pub open spec fn create_literal() -> Seq<char> {
    "{\"tag_name\":\"master\",\"name\":\"master\",\"draft\":true}"@
}

/// A commit hash in hexadecimal is a plain text.
pub proof fn hex_text_is_plain(text: Seq<char>)
    requires
        is_hex_text(text),
    ensures
        is_plain(text),
{
    assert forall|i: int| 0 <= i < text.len() implies !crate::json::needs_escape(
        #[trigger] text[i],
    ) by {
        assert(is_hex_digit(text[i]));
    }
}

/// The body that asks for the release to be created: a draft with tag and
/// name "master".
pub open spec fn create_text() -> Seq<char> {
    create_json(release_name(), release_name(), true)
}

/// The body that points the release at a commit and publishes it.
pub open spec fn update_text(commit: Seq<char>) -> Seq<char> {
    update_json(commit, false)
}

impl Create {
    /// The fields that create the draft release "master".
    pub fn master() -> (fields: Create)
        ensures
            fields.tag_name@ == release_name(),
            fields.name@ == release_name(),
            fields.draft,
    {
        Create { tag_name: String::from_str("master"), name: String::from_str("master"), draft: true }
    }

    /// Writes the fields as a JSON object.
    pub fn encode(&self) -> (body: String)
        ensures
            body@ == create_json(self.tag_name@, self.name@, self.draft),
            is_plain(self.tag_name@) && is_plain(self.name@) ==> body@ == create_plain(
                self.tag_name@,
                self.name@,
                self.draft,
            ),
    {
        let tag = quoted(self.tag_name.as_str());
        let name = quoted(self.name.as_str());
        let end = if self.draft {
            ",\"draft\":true}"
        } else {
            ",\"draft\":false}"
        };
        String::from_str("{\"tag_name\":").concat(tag.as_str()).concat(",\"name\":").concat(
            name.as_str(),
        ).concat(end)
    }
}

impl Update {
    /// The fields that point the release at `commit` and take it out of
    /// draft.
    pub fn pointing_at(commit: &str) -> (fields: Update)
        ensures
            fields.target_commitish@ == commit@,
            !fields.draft,
    {
        Update { target_commitish: String::from_str(commit), draft: false }
    }

    /// Writes the fields as a JSON object.
    pub fn encode(&self) -> (body: String)
        ensures
            body@ == update_json(self.target_commitish@, self.draft),
            is_plain(self.target_commitish@) ==> body@ == update_plain(
                self.target_commitish@,
                self.draft,
            ),
    {
        let commit = quoted(self.target_commitish.as_str());
        let end = if self.draft {
            ",\"draft\":true}"
        } else {
            ",\"draft\":false}"
        };
        String::from_str("{\"target_commitish\":").concat(commit.as_str()).concat(end)
    }
}

/// The body of the request that creates the release.
pub fn create_body() -> (body: String)
    ensures
        body@ == create_text(),
        body@ == create_literal(),
{
    let fields = Create::master();
    proof {
        reveal_strlit("master");
        reveal_strlit("{\"tag_name\":");
        reveal_strlit(",\"name\":");
        reveal_strlit(",\"draft\":true}");
        reveal_strlit("{\"tag_name\":\"master\",\"name\":\"master\",\"draft\":true}");
        assert(is_plain("master"@));
        assert(create_plain("master"@, "master"@, true) =~= create_literal());
    }
    fields.encode()
}

/// The body of the request that points the release at `commit` and publishes
/// it.
pub fn update_body(commit: &str) -> (body: String)
    ensures
        body@ == update_text(commit@),
        is_plain(commit@) ==> body@ == update_plain(commit@, false),
{
    Update::pointing_at(commit).encode()
}

/// The headers with which a request goes out.
pub fn request_headers(request: &Request, token: &str) -> (headers: Vec<Header>)
    ensures
        header_lines(headers@) == lines_of(request@.payload, token@),
{
    let mut headers: Vec<Header> = Vec::new();
    headers.push(
        Header {
            name: String::from_str("Authorization"),
            value: String::from_str("token ").concat(token),
        },
    );
    headers.push(
        Header { name: String::from_str("User-Agent"), value: String::from_str("rust-release") },
    );
    headers.push(
        Header {
            name: String::from_str("Accept"),
            value: String::from_str("application/vnd.github+json"),
        },
    );
    if let Payload::File(n) = &request.payload {
        headers.push(
            Header {
                name: String::from_str("Content-Type"),
                value: String::from_str("application/octet-stream"),
            },
        );
        headers.push(Header { name: String::from_str("Content-Length"), value: decimal_text(*n) });
    }
    assert(header_lines(headers@) =~= lines_of(request@.payload, token@));
    headers
}

} // verus!
