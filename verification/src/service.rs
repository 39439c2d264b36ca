//! The operations that a client of the server offers.

use crate::request::{
    create_resource_request, credentials_encodable, delete_resource_request, me_request,
    verify_request, ClientConfig, HttpRequest,
};
use crate::types::Resource;
use vstd::prelude::*;

verus! {

/// The four operations of the protocol. Each method opens one exchange: it
/// returns the request to send. What the reply means is decided by the
/// functions of [`crate::response`].
pub trait Service {
    /// What the client is configured with.
    spec fn config(&self) -> ClientConfig;

    /// Whether the client's credentials are short enough to be encoded for
    /// Basic authentication, which [`Service::verify`] asks for.
    /// Credentials that fit in memory beside their encoding are.
    fn can_authenticate(&self) -> (fits: bool)
        ensures
            fits == credentials_encodable(self.config()),
    ;

    /// Opens the exchange of an authorization code for an access token.
    fn verify(&self, code: &str) -> (request: HttpRequest)
        requires
            credentials_encodable(self.config()),
        ensures
            request@ == verify_request(self.config(), code@),
    ;

    /// Opens the request for the profile of the user who owns `token`.
    fn me(&self, token: &str) -> (request: HttpRequest)
        ensures
            request@ == me_request(self.config(), token@),
    ;

    /// Opens the creation of `resource`.
    fn create_resource(&self, resource: &Resource, token: &str) -> (request: HttpRequest)
        ensures
            request@ == create_resource_request(self.config(), *resource, token@),
    ;

    /// Opens the deletion of the resource with the given id.
    fn delete_resource(&self, resource_id: &str, token: &str) -> (request: HttpRequest)
        ensures
            request@ == delete_resource_request(self.config(), resource_id@, token@),
    ;
}

} // verus!
