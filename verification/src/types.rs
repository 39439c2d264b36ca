//! The records that the server sends and accepts.

use std::collections::HashMap;
use vstd::prelude::*;

verus! {

/// The profile of an authenticated user, as the server reports it.
#[derive(Debug, Clone)]
pub struct User {
    pub id: String,
    pub project_id: String,
    pub name: String,
    pub email: String,
    pub phone: String,
    pub enabled: bool,
    pub profile_pic: String,
    pub linked_client_id: Option<String>,
    pub expiry: Option<String>,
    pub roles: HashMap<String, UserRole>,
    pub resources: HashMap<String, UserResource>,
    pub policies: HashMap<String, UserPolicy>,
    pub created_at: Option<String>,
    pub created_by: String,
    pub updated_at: Option<String>,
    pub updated_by: String,
}

/// A policy attached to a user.
#[derive(Debug, Clone)]
pub struct UserPolicy {
    pub name: String,
    pub mapping: Option<UserPolicyMapping>,
}

/// The arguments of a policy, by name.
#[derive(Debug, Clone)]
pub struct UserPolicyMapping {
    pub arguments: Option<HashMap<String, UserPolicyMappingValue>>,
}

/// One argument of a policy.
#[derive(Debug, Clone)]
pub struct UserPolicyMappingValue {
    pub static_val: Option<String>,
}

/// A role granted to a user.
#[derive(Debug, Clone)]
pub struct UserRole {
    pub id: String,
    pub name: String,
}

/// A resource that a user may reach, with the roles and policies that
/// grant it.
#[derive(Debug, Clone)]
pub struct UserResource {
    pub role_ids: HashMap<String, bool>,
    pub policy_ids: HashMap<String, bool>,
    pub key: String,
    pub name: String,
}

/// A resource record. A caller fills in name, description and key; the
/// server owns every other field.
#[derive(Debug)]
pub struct Resource {
    pub id: String,
    pub name: String,
    pub description: String,
    pub key: String,
    pub enabled: bool,
    pub project_id: String,
    pub created_at: Option<String>,
    pub created_by: String,
    pub updated_at: Option<String>,
    pub updated_by: String,
    pub deleted_at: Option<String>,
}

impl Resource {
    /// A resource that the server has not seen yet: enabled, with the three
    /// given texts, and with every server-owned field empty or unset.
    pub fn new(name: String, description: String, key: String) -> (resource: Resource)
        ensures
            resource.name == name,
            resource.description == description,
            resource.key == key,
            resource.enabled,
            resource.id@ == Seq::<char>::empty(),
            resource.project_id@ == Seq::<char>::empty(),
            resource.created_by@ == Seq::<char>::empty(),
            resource.updated_by@ == Seq::<char>::empty(),
            resource.created_at is None,
            resource.updated_at is None,
            resource.deleted_at is None,
    {
        Resource {
            id: String::new(),
            name,
            description,
            key,
            enabled: true,
            project_id: String::new(),
            created_at: None,
            created_by: String::new(),
            updated_at: None,
            updated_by: String::new(),
            deleted_at: None,
        }
    }
}

impl Clone for Resource {
    /// A copy that equals this resource field by field.
    fn clone(&self) -> (copy: Resource)
        ensures
            copy == *self,
    {
        Resource {
            id: self.id.clone(),
            name: self.name.clone(),
            description: self.description.clone(),
            key: self.key.clone(),
            enabled: self.enabled,
            project_id: self.project_id.clone(),
            created_at: self.created_at.clone(),
            created_by: self.created_by.clone(),
            updated_at: self.updated_at.clone(),
            updated_by: self.updated_by.clone(),
            deleted_at: self.deleted_at.clone(),
        }
    }
}

/// The payload of a successful verification.
#[derive(Debug)]
pub struct AuthVerifyCodeResponse {
    pub access_token: String,
}

/// The envelope that answers a verification.
#[derive(Debug)]
pub struct AuthCallbackResponse {
    pub success: bool,
    pub message: Option<String>,
    pub data: Option<AuthVerifyCodeResponse>,
}

/// The envelope that answers a profile request.
#[derive(Debug)]
pub struct UserResponse {
    pub success: bool,
    pub message: Option<String>,
    pub data: Option<User>,
}

/// The envelope that answers a request on a resource.
#[derive(Debug)]
pub struct ResourceResponse {
    pub success: bool,
    pub message: Option<String>,
    pub data: Option<Resource>,
}

} // verus!
