//! The four requests of the protocol, as values that a transport can send.

use crate::auth::{basic_auth, bearer_auth, credentials, encodable};
use crate::text::ends_with_slash;
use crate::types::Resource;
use vstd::prelude::*;

verus! {

/// The HTTP methods that the protocol uses.
#[derive(Debug, Clone, Copy, PartialEq, Eq, Structural)]
pub enum Method {
    Get,
    Post,
    Delete,
}

/// A name with its value: a query parameter or a header.
#[derive(Debug)]
pub struct Field {
    pub name: String,
    pub value: String,
}

impl View for Field {
    type V = (Seq<char>, Seq<char>);

    open spec fn view(&self) -> (Seq<char>, Seq<char>) {
        (self.name@, self.value@)
    }
}

/// The fields of a list, each as a pair of texts.
pub open spec fn fields_view(fields: Seq<Field>) -> Seq<(Seq<char>, Seq<char>)> {
    Seq::new(fields.len(), |i: int| fields[i]@)
}

/// A request, ready to be sent. The query parameters are not yet escaped
/// and the body is not yet encoded: a request with a body is sent as JSON.
#[derive(Debug)]
pub struct HttpRequest {
    pub method: Method,
    /// Base address and path, without a query.
    pub url: String,
    pub query: Vec<Field>,
    pub headers: Vec<Field>,
    pub body: Option<Resource>,
}

/// An [`HttpRequest`] with its texts as sequences of characters.
pub struct RequestView {
    pub method: Method,
    pub url: Seq<char>,
    pub query: Seq<(Seq<char>, Seq<char>)>,
    pub headers: Seq<(Seq<char>, Seq<char>)>,
    pub body: Option<Resource>,
}

impl View for HttpRequest {
    type V = RequestView;

    open spec fn view(&self) -> RequestView {
        RequestView {
            method: self.method,
            url: self.url@,
            query: fields_view(self.query@),
            headers: fields_view(self.headers@),
            body: self.body,
        }
    }
}

/// Whether a request says that its body is JSON.
pub open spec fn declares_json(request: RequestView) -> bool {
    request.headers.contains(("Content-Type"@, "application/json"@))
}

/// What a client is configured with.
pub struct ClientConfig {
    /// The server's address, without a slash at its end.
    pub base_url: Seq<char>,
    pub client_id: Seq<char>,
    pub client_secret: Seq<char>,
}

impl ClientConfig {
    /// Whether the base address is one that a client stores: it does not
    /// end in a slash.
    pub open spec fn well_formed(self) -> bool {
        !ends_with_slash(self.base_url)
    }
}

/// Whether the credentials of a client are short enough to be encoded for
/// Basic authentication.
pub open spec fn credentials_encodable(config: ClientConfig) -> bool {
    encodable(credentials(config.client_id, config.client_secret))
}

/// `GET /auth/v1/verify?code={code}`, with Basic authentication.
pub open spec fn verify_request(config: ClientConfig, code: Seq<char>) -> RequestView {
    RequestView {
        method: Method::Get,
        url: config.base_url + "/auth/v1/verify"@,
        query: seq![("code"@, code)],
        headers: seq![("Authorization"@, basic_auth(config.client_id, config.client_secret))],
        body: None,
    }
}

/// `GET /me/v1/me`, with the access token as bearer.
pub open spec fn me_request(config: ClientConfig, token: Seq<char>) -> RequestView {
    RequestView {
        method: Method::Get,
        url: config.base_url + "/me/v1/me"@,
        query: Seq::empty(),
        headers: seq![("Authorization"@, bearer_auth(token))],
        body: None,
    }
}

/// `POST /resource/v1/`, with the access token as bearer and the resource as
/// JSON body.
pub open spec fn create_resource_request(
    config: ClientConfig,
    resource: Resource,
    token: Seq<char>,
) -> RequestView {
    RequestView {
        method: Method::Post,
        url: config.base_url + "/resource/v1/"@,
        query: Seq::empty(),
        headers: seq![
            ("Authorization"@, bearer_auth(token)),
            ("Content-Type"@, "application/json"@),
        ],
        body: Some(resource),
    }
}

/// `DELETE /resource/v1/{id}`, with the access token as bearer.
pub open spec fn delete_resource_request(
    config: ClientConfig,
    resource_id: Seq<char>,
    token: Seq<char>,
) -> RequestView {
    RequestView {
        method: Method::Delete,
        url: config.base_url + "/resource/v1/"@ + resource_id,
        query: Seq::empty(),
        headers: seq![("Authorization"@, bearer_auth(token))],
        body: None,
    }
}

/// Whether `url` is `base` and a path behind it, joined by exactly one
/// slash: the path begins with one and the base ends in none.
pub open spec fn joined_by_one_slash(base: Seq<char>, url: Seq<char>) -> bool {
    &&& base.len() < url.len()
    &&& url.subrange(0, base.len() as int) == base
    &&& url[base.len() as int] == '/'
    &&& !ends_with_slash(base)
}

/// In the address of every request the base address and the path are joined
/// by exactly one slash.
pub proof fn lemma_paths_join_unambiguously(
    config: ClientConfig,
    code: Seq<char>,
    token: Seq<char>,
    resource: Resource,
    resource_id: Seq<char>,
)
    requires
        config.well_formed(),
    ensures
        joined_by_one_slash(config.base_url, verify_request(config, code).url),
        joined_by_one_slash(config.base_url, me_request(config, token).url),
        joined_by_one_slash(config.base_url, create_resource_request(config, resource, token).url),
        joined_by_one_slash(
            config.base_url,
            delete_resource_request(config, resource_id, token).url,
        ),
{
    reveal_strlit("/auth/v1/verify");
    reveal_strlit("/me/v1/me");
    reveal_strlit("/resource/v1/");
    let base = config.base_url;
    let n = base.len() as int;
    assert(verify_request(config, code).url.subrange(0, n) =~= base);
    assert(me_request(config, token).url.subrange(0, n) =~= base);
    assert(create_resource_request(config, resource, token).url.subrange(0, n) =~= base);
    assert(delete_resource_request(config, resource_id, token).url.subrange(0, n) =~= base);
}

/// A request declares a JSON body exactly if it carries a body, and the
/// creation of a resource is the one request that does.
pub proof fn lemma_body_is_declared_as_json(
    config: ClientConfig,
    code: Seq<char>,
    token: Seq<char>,
    resource: Resource,
    resource_id: Seq<char>,
)
    ensures
        declares_json(verify_request(config, code)) == (verify_request(config, code).body is Some),
        declares_json(me_request(config, token)) == (me_request(config, token).body is Some),
        declares_json(create_resource_request(config, resource, token)) == (
        create_resource_request(config, resource, token).body is Some),
        declares_json(delete_resource_request(config, resource_id, token)) == (
        delete_resource_request(config, resource_id, token).body is Some),
        create_resource_request(config, resource, token).body == Some(resource),
        verify_request(config, code).body is None,
        me_request(config, token).body is None,
        delete_resource_request(config, resource_id, token).body is None,
{
    reveal_strlit("Authorization");
    reveal_strlit("Content-Type");
    let json = ("Content-Type"@, "application/json"@);
    assert("Authorization"@[0] != "Content-Type"@[0]);
    let created = create_resource_request(config, resource, token);
    assert(created.headers[1] == json);
}

impl Field {
    /// A field with copies of the two texts.
    pub fn new(name: &str, value: &str) -> (field: Field)
        ensures
            field@ == (name@, value@),
    {
        Field { name: String::from_str(name), value: String::from_str(value) }
    }
}

} // verus!
