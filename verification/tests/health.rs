use deploy_backend::health::{health_check, HEALTH_BODY};
use deploy_backend::reply::{Payload, Reply, STATUS_OK};

#[test]
fn health_check_is_ok_with_the_fixed_body() {
    let reply = health_check();
    assert_eq!(reply.status, 200);
    assert_eq!(reply.payload, Payload::Text("Service is running".to_string()));
}

#[test]
fn health_check_answers_the_same_every_time() {
    let first = health_check();
    for _ in 0..10 {
        assert_eq!(health_check(), first);
    }
    assert_eq!(
        first,
        Reply { status: 200, payload: Payload::Text("Service is running".to_string()) }
    );
}

#[test]
fn health_body_is_exact() {
    assert_eq!(HEALTH_BODY, "Service is running");
    assert_eq!(HEALTH_BODY.len(), 18);
    match health_check().payload {
        Payload::Text(text) => assert_eq!(text.as_bytes(), b"Service is running"),
        Payload::Json(outcome) => panic!("the probe answers in text, not with {:?}", outcome),
    }
}

#[test]
fn status_ok_is_200() {
    assert_eq!(STATUS_OK, 200);
}
