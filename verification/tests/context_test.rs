use std::collections::HashMap;

use axum_apcore::context::{default_identity_type, anonymous_identity, AxumContextFactory, RequestIdentity};

#[test]
fn test_anonymous_identity() {
    let id = anonymous_identity();
    assert_eq!(id.id(), "anonymous");
    assert_eq!(id.identity_type(), "anonymous");
    assert!(id.roles().is_empty());
}

#[test]
fn test_request_identity_into_identity() {
    let ri = RequestIdentity {
        id: "user-1".into(),
        identity_type: "user".into(),
        roles: vec!["admin".into()],
        attrs: HashMap::new(),
    };
    let identity = ri.into_identity();
    assert_eq!(identity.id(), "user-1");
    assert_eq!(identity.identity_type(), "user");
    assert_eq!(identity.roles(), &["admin".to_string()]);
}

#[test]
fn test_extract_identity_anonymous_fallback() {
    let factory = AxumContextFactory;
    let identity = factory.extract_identity(None);
    assert_eq!(identity.id(), "anonymous");
    assert_eq!(identity.identity_type(), "anonymous");
}

#[test]
fn test_extract_identity_from_extensions() {
    let factory = AxumContextFactory;
    let identity = factory.extract_identity(Some(RequestIdentity {
        id: "user-42".into(),
        identity_type: "service".into(),
        roles: vec!["reader".into()],
        attrs: HashMap::new(),
    }));
    assert_eq!(identity.id(), "user-42");
    assert_eq!(identity.identity_type(), "service");
}

#[test]
fn test_create_from_parts() {
    let factory = AxumContextFactory;
    let ctx = factory.create_from_parts(None, None).unwrap();
    assert_eq!(ctx.identity.as_ref().unwrap().id(), "anonymous");
    assert!(!ctx.trace_id.is_empty());
}

#[test]
fn test_extract_trace_context_none() {
    let factory = AxumContextFactory;
    assert!(factory.extract_trace_context(None).is_none());
}

#[test]
fn test_context_factory_with_request_identity() {
    let factory = AxumContextFactory;
    let ri = RequestIdentity {
        id: "svc-1".into(),
        identity_type: "service".into(),
        roles: vec!["reader".into(), "writer".into()],
        attrs: Default::default(),
    };
    let ctx = factory.create_from_parts(Some(ri), None).unwrap();
    let identity = ctx.identity.as_ref().unwrap();
    assert_eq!(identity.id(), "svc-1");
    assert_eq!(identity.identity_type(), "service");
    assert_eq!(identity.roles().len(), 2);
}

#[test]
fn test_context_factory_anonymous_fallback() {
    let factory = AxumContextFactory;
    let ctx = factory.create_from_parts(None, None).unwrap();
    assert_eq!(ctx.identity.as_ref().unwrap().id(), "anonymous");
}

#[test]
fn default_identity_type_is_user() {
    assert_eq!(default_identity_type(), "user");
}

#[test]
fn traceparent_header_is_inherited_when_well_formed() {
    let factory = AxumContextFactory;
    let header = "00-4bf92f3577b34da6a3ce929d0e0e4736-00f067aa0ba902b7-01".to_string();
    let parts = factory.extract_trace_context(Some(header.clone())).unwrap();
    assert_eq!(parts.version, 0);
    assert_eq!(parts.trace_id, "4bf92f3577b34da6a3ce929d0e0e4736");
    assert_eq!(parts.parent_id, "00f067aa0ba902b7");
    assert_eq!(parts.trace_flags, 1);
    let ctx = factory.create_from_parts(None, Some(header)).unwrap();
    assert_eq!(ctx.trace_id, "4bf92f3577b34da6a3ce929d0e0e4736");
    assert!(factory.extract_trace_context(Some("garbage".to_string())).is_none());
}

#[test]
fn context_carries_the_identity_and_a_well_formed_trace_id() {
    let factory = AxumContextFactory;
    let ctx = factory.create_from_parts(None, Some("garbage".to_string())).unwrap();
    assert_eq!(ctx.identity.as_ref().unwrap().id(), "anonymous");
    assert_eq!(ctx.trace_id.len(), 32);
    assert!(ctx.trace_id.chars().all(|c| c.is_ascii_digit() || ('a'..='f').contains(&c)));
    let all_f = format!("00-{}-00f067aa0ba902b7-01", "f".repeat(32));
    let ctx = factory.create_from_parts(None, Some(all_f)).unwrap();
    assert_ne!(ctx.trace_id, "f".repeat(32));
    assert_eq!(ctx.trace_id.len(), 32);
}

#[test]
fn traceparent_headers_that_are_refused() {
    let factory = AxumContextFactory;
    let tid = "4bf92f3577b34da6a3ce929d0e0e4736";
    for header in [
        format!("ff-{tid}-00f067aa0ba902b7-01"),
        format!("00-{}-00f067aa0ba902b7-01", "0".repeat(32)),
        format!("00-{tid}-0000000000000000-01"),
        format!("00-{}-00f067aa0ba902b7-01", tid.to_uppercase()),
        format!("00-{tid}-00f067aa0ba902b7-01 "),
        format!("00-{tid}-00f067aa0ba902b7"),
    ] {
        assert!(factory.extract_trace_context(Some(header.clone())).is_none(), "{header}");
    }
    let parts = factory
        .extract_trace_context(Some(format!("fe-{tid}-00f067aa0ba902b7-ff")))
        .unwrap();
    assert_eq!((parts.version, parts.trace_flags), (254, 255));
}
