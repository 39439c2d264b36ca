use goiam::types::{
    AuthCallbackResponse, AuthVerifyCodeResponse, ResourceResponse, UserPolicy,
    UserPolicyMapping, UserPolicyMappingValue, UserResponse,
};
use goiam::{Resource, User, UserResource, UserRole};
use std::collections::HashMap;

#[test]
fn test_resource_new_constructor() {
    let resource = Resource::new(
        "Test Resource".to_string(),
        "A test resource".to_string(),
        "test-key".to_string(),
    );

    assert_eq!(resource.id, "");
    assert_eq!(resource.name, "Test Resource");
    assert_eq!(resource.description, "A test resource");
    assert_eq!(resource.key, "test-key");
    assert!(resource.enabled);
    assert_eq!(resource.project_id, "");
    assert_eq!(resource.created_by, "");
    assert_eq!(resource.updated_by, "");
    assert!(resource.created_at.is_none());
    assert!(resource.updated_at.is_none());
    assert!(resource.deleted_at.is_none());
}

#[test]
fn new_resource_keeps_empty_texts() {
    let resource = Resource::new(String::new(), String::new(), String::new());
    assert_eq!(resource.name, "");
    assert_eq!(resource.description, "");
    assert_eq!(resource.key, "");
    assert!(resource.enabled);
}

#[test]
fn resource_clone_keeps_every_field() {
    let resource = Resource {
        id: "res-1".to_string(),
        name: "Test Resource".to_string(),
        description: "A test resource".to_string(),
        key: "test-key".to_string(),
        enabled: false,
        project_id: "proj-1".to_string(),
        created_at: Some("2024-01-01T00:00:00Z".to_string()),
        created_by: "admin".to_string(),
        updated_at: Some("2024-06-01T00:00:00Z".to_string()),
        updated_by: "editor".to_string(),
        deleted_at: Some("2024-07-01T00:00:00Z".to_string()),
    };
    let copy = resource.clone();
    assert_eq!(copy.id, "res-1");
    assert_eq!(copy.name, "Test Resource");
    assert_eq!(copy.description, "A test resource");
    assert_eq!(copy.key, "test-key");
    assert!(!copy.enabled);
    assert_eq!(copy.project_id, "proj-1");
    assert_eq!(copy.created_at.as_deref(), Some("2024-01-01T00:00:00Z"));
    assert_eq!(copy.created_by, "admin");
    assert_eq!(copy.updated_at.as_deref(), Some("2024-06-01T00:00:00Z"));
    assert_eq!(copy.updated_by, "editor");
    assert_eq!(copy.deleted_at.as_deref(), Some("2024-07-01T00:00:00Z"));
}

#[test]
fn user_holds_roles_resources_and_policies() {
    let mut roles = HashMap::new();
    roles.insert(
        "admin".to_string(),
        UserRole {
            id: "role-1".to_string(),
            name: "Administrator".to_string(),
        },
    );

    let mut resources = HashMap::new();
    resources.insert(
        "resource-1".to_string(),
        UserResource {
            role_ids: HashMap::new(),
            policy_ids: HashMap::new(),
            key: "users".to_string(),
            name: "User Management".to_string(),
        },
    );

    let mut arguments = HashMap::new();
    arguments.insert(
        "scope".to_string(),
        UserPolicyMappingValue {
            static_val: Some("test-value".to_string()),
        },
    );
    let mut policies = HashMap::new();
    policies.insert(
        "policy-1".to_string(),
        UserPolicy {
            name: "read:users".to_string(),
            mapping: Some(UserPolicyMapping {
                arguments: Some(arguments),
            }),
        },
    );

    let user = User {
        id: "user-123".to_string(),
        project_id: "proj-456".to_string(),
        name: "John Doe".to_string(),
        email: "john@example.com".to_string(),
        phone: "+1234567890".to_string(),
        enabled: true,
        profile_pic: "avatar.jpg".to_string(),
        linked_client_id: None,
        expiry: Some("2025-12-31T23:59:59Z".to_string()),
        roles,
        resources,
        policies,
        created_at: Some("2024-01-01T00:00:00Z".to_string()),
        created_by: "admin".to_string(),
        updated_at: Some("2024-06-01T00:00:00Z".to_string()),
        updated_by: "admin".to_string(),
    };

    let copy = user.clone();
    assert_eq!(copy.id, user.id);
    assert_eq!(copy.email, user.email);
    assert_eq!(copy.enabled, user.enabled);
    assert_eq!(copy.roles["admin"].name, "Administrator");
    assert_eq!(copy.resources["resource-1"].key, "users");
    let policy = &copy.policies["policy-1"];
    assert_eq!(policy.name, "read:users");
    let arguments = policy
        .mapping
        .as_ref()
        .and_then(|mapping| mapping.arguments.as_ref())
        .expect("the policy has arguments");
    assert_eq!(arguments["scope"].static_val.as_deref(), Some("test-value"));
}

#[test]
fn envelopes_hold_flag_message_and_data() {
    let auth = AuthCallbackResponse {
        success: true,
        message: None,
        data: Some(AuthVerifyCodeResponse {
            access_token: "test-token".to_string(),
        }),
    };
    assert!(auth.success);
    assert!(auth.message.is_none());
    assert_eq!(auth.data.expect("data").access_token, "test-token");

    let user = UserResponse {
        success: false,
        message: Some("Invalid token".to_string()),
        data: None,
    };
    assert!(!user.success);
    assert_eq!(user.message.as_deref(), Some("Invalid token"));
    assert!(user.data.is_none());

    let resource = ResourceResponse {
        success: true,
        message: Some("Resource created".to_string()),
        data: None,
    };
    assert!(resource.success);
    assert_eq!(resource.message.as_deref(), Some("Resource created"));
    assert!(resource.data.is_none());
}
