//! The client: its configuration and the requests it builds from it.

use crate::auth::{
    base64_standard, basic_auth, basic_auth_text, bearer_auth_text, credentials_text, is_encodable,
};
use crate::request::{
    create_resource_request, credentials_encodable, fields_view, ClientConfig, Field, HttpRequest,
    Method,
};
use crate::service::Service;
use crate::text::{
    ends_with_slash, lemma_trim_trailing_slashes, trim_trailing_slashes, without_trailing_slashes,
};
use crate::types::Resource;
use vstd::prelude::*;

verus! {

/// A client of one server, with the credentials it presents there.
pub struct ServiceImpl {
    base_url: String,
    client_id: String,
    secret: String,
}

impl View for ServiceImpl {
    type V = ClientConfig;

    closed spec fn view(&self) -> ClientConfig {
        ClientConfig {
            base_url: self.base_url@,
            client_id: self.client_id@,
            client_secret: self.secret@,
        }
    }
}

impl ServiceImpl {
    /// The stored base address never ends in a slash.
    #[verifier::type_invariant]
    spec fn base_is_trimmed(&self) -> bool {
        !ends_with_slash(self.base_url@)
    }

    /// A client for the server at `base_url`. The address is stored without
    /// the slashes at its end, the credentials as they are.
    pub fn new(base_url: String, client_id: String, secret: String) -> (service: ServiceImpl)
        ensures
            service@.base_url == trim_trailing_slashes(base_url@),
            !ends_with_slash(base_url@) ==> service@.base_url == base_url@,
            service@.well_formed(),
            service@.client_id == client_id@,
            service@.client_secret == secret@,
    {
        proof {
            lemma_trim_trailing_slashes(base_url@);
        }
        ServiceImpl { base_url: without_trailing_slashes(base_url.as_str()), client_id, secret }
    }

    /// The base address: the one given at construction, without the slashes
    /// at its end.
    pub fn base_url(&self) -> (base_url: &str)
        ensures
            base_url@ == self@.base_url,
            self@.well_formed(),
    {
        proof {
            use_type_invariant(self);
        }
        self.base_url.as_str()
    }

    /// The value of the `Authorization` header that presents the client's
    /// credentials: `Basic`, a space, and the Base64 text of
    /// `client_id:secret`.
    pub fn basic_auth(&self) -> (header: String)
        requires
            credentials_encodable(self@),
        ensures
            header@ == basic_auth(self@.client_id, self@.client_secret),
            header@ == "Basic "@ + base64_standard(self@.client_id + ":"@ + self@.client_secret),
    {
        basic_auth_text(self.client_id.as_str(), self.secret.as_str())
    }

    /// The address of `path` on the server.
    fn url(&self, path: &str) -> (url: String)
        ensures
            url@ == self@.base_url + path@,
    {
        self.base_url.clone().concat(path)
    }
}

/// A list that holds one field.
fn one_field(field: Field) -> (fields: Vec<Field>)
    ensures
        fields@ == seq![field],
        fields_view(fields@) == seq![field@],
{
    let mut fields: Vec<Field> = Vec::new();
    fields.push(field);
    assert(fields_view(fields@) =~= seq![field@]);
    fields
}

impl Service for ServiceImpl {
    open spec fn config(&self) -> ClientConfig {
        self@
    }

    fn can_authenticate(&self) -> (fits: bool) {
        is_encodable(credentials_text(self.client_id.as_str(), self.secret.as_str()).as_str())
    }

    fn verify(&self, code: &str) -> (request: HttpRequest) {
        let request = HttpRequest {
            method: Method::Get,
            url: self.url("/auth/v1/verify"),
            query: one_field(Field::new("code", code)),
            headers: one_field(Field::new("Authorization", self.basic_auth().as_str())),
            body: None,
        };
        request
    }

    fn me(&self, token: &str) -> (request: HttpRequest) {
        let request = HttpRequest {
            method: Method::Get,
            url: self.url("/me/v1/me"),
            query: Vec::new(),
            headers: one_field(Field::new("Authorization", bearer_auth_text(token).as_str())),
            body: None,
        };
        assert(fields_view(request.query@) =~= Seq::empty());
        request
    }

    fn create_resource(&self, resource: &Resource, token: &str) -> (request: HttpRequest) {
        let mut headers = one_field(Field::new("Authorization", bearer_auth_text(token).as_str()));
        headers.push(Field::new("Content-Type", "application/json"));
        let request = HttpRequest {
            method: Method::Post,
            url: self.url("/resource/v1/"),
            query: Vec::new(),
            headers,
            body: Some(resource.clone()),
        };
        assert(fields_view(request.query@) =~= Seq::empty());
        assert(fields_view(request.headers@) =~= create_resource_request(
            self@,
            *resource,
            token@,
        ).headers);
        request
    }

    fn delete_resource(&self, resource_id: &str, token: &str) -> (request: HttpRequest) {
        let request = HttpRequest {
            method: Method::Delete,
            url: self.url("/resource/v1/").concat(resource_id),
            query: Vec::new(),
            headers: one_field(Field::new("Authorization", bearer_auth_text(token).as_str())),
            body: None,
        };
        assert(fields_view(request.query@) =~= Seq::empty());
        request
    }
}

/// A client for the server at `base_url`, seen as a [`Service`].
pub fn new_service(base_url: String, client_id: String, secret: String) -> (service: impl Service)
    ensures
        service.config().base_url == trim_trailing_slashes(base_url@),
        service.config().well_formed(),
        service.config().client_id == client_id@,
        service.config().client_secret == secret@,
{
    ServiceImpl::new(base_url, client_id, secret)
}

} // verus!
