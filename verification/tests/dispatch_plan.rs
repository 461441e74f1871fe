use datasplitter::dispatch::{
    plan_dispatch, RoutePath, MAX_BODY_BYTES, STATUS_PAYLOAD_TOO_LARGE,
};
use datasplitter::targets::{BackendTargets, Endpoint, Scheme};

fn test_targets() -> BackendTargets {
    BackendTargets::resolve(
        Endpoint::new(Scheme::Http, String::from("127.0.0.1"), 7001),
        Endpoint::new(Scheme::Http, String::from("127.0.0.1"), 7002),
    )
}

#[test]
fn one_post_per_backend_with_identical_body() {
    let body = b"hello shadow".to_vec();
    let plan = plan_dispatch(RoutePath::Data, body.clone(), &test_targets()).unwrap();
    assert_eq!(plan.stable.url, "http://127.0.0.1:7001/post_data");
    assert_eq!(plan.dev.url, "http://127.0.0.1:7002/post_data");
    assert_eq!(plan.stable.body, body);
    assert_eq!(plan.dev.body, body);
}

#[test]
fn empty_body_is_forwarded_as_is() {
    let plan = plan_dispatch(RoutePath::Error, Vec::new(), &test_targets()).unwrap();
    assert!(plan.stable.body.is_empty());
    assert!(plan.dev.body.is_empty());
    assert_eq!(plan.stable.url, "http://127.0.0.1:7001/post_error");
    assert_eq!(plan.dev.url, "http://127.0.0.1:7002/post_error");
}

#[test]
fn body_at_the_ceiling_is_accepted() {
    assert_eq!(MAX_BODY_BYTES, 16384);
    let body = vec![0xabu8; MAX_BODY_BYTES];
    let plan = plan_dispatch(RoutePath::Data, body.clone(), &test_targets()).unwrap();
    assert_eq!(plan.stable.body.len(), MAX_BODY_BYTES);
    assert_eq!(plan.dev.body, body);
}

#[test]
fn binary_bodies_are_copied_byte_for_byte() {
    let body: Vec<u8> = (0..=255u8).cycle().take(4096).collect();
    let plan = plan_dispatch(RoutePath::Error, body.clone(), &test_targets()).unwrap();
    assert_eq!(plan.stable.body, body);
    assert_eq!(plan.dev.body, body);
}

#[test]
fn oversized_body_is_rejected_without_any_outbound_post() {
    let body = vec![0u8; MAX_BODY_BYTES + 1];
    match plan_dispatch(RoutePath::Data, body, &test_targets()) {
        Ok(_) => panic!("an oversized body must not produce a dispatch plan"),
        Err(code) => {
            assert_eq!(code, STATUS_PAYLOAD_TOO_LARGE);
            assert_eq!(code, 413);
        }
    }
}

#[test]
fn each_route_mirrors_its_own_path_only() {
    let body = b"same body".to_vec();
    let data_plan = plan_dispatch(RoutePath::Data, body.clone(), &test_targets()).unwrap();
    let error_plan = plan_dispatch(RoutePath::Error, body, &test_targets()).unwrap();
    assert!(data_plan.stable.url.ends_with("/post_data"));
    assert!(data_plan.dev.url.ends_with("/post_data"));
    assert!(error_plan.stable.url.ends_with("/post_error"));
    assert!(error_plan.dev.url.ends_with("/post_error"));
    assert!(!data_plan.stable.url.ends_with("/post_error"));
    assert!(!error_plan.stable.url.ends_with("/post_data"));
    assert_ne!(data_plan.stable.url, error_plan.stable.url);
    assert_ne!(data_plan.dev.url, error_plan.dev.url);
}

#[test]
fn route_path_text() {
    assert_eq!(RoutePath::Data.path_str(), "/post_data");
    assert_eq!(RoutePath::Error.path_str(), "/post_error");
}
