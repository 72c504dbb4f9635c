use taitan::middleware::grpc::nest::AxumTonicService;
use taitan::middleware::grpc::rest_grpc::{is_grpc_content_type, Readiness, Target};

#[test]
fn grpc_content_types() {
    assert!(is_grpc_content_type(Some(b"application/grpc")));
    assert!(!is_grpc_content_type(Some(b"application/grpc+proto")));
    assert!(!is_grpc_content_type(Some(b"application/grpcx")));
    assert!(!is_grpc_content_type(Some(b"application/json")));
    assert!(!is_grpc_content_type(Some(b"application/grp")));
    assert!(!is_grpc_content_type(Some(b"")));
    assert!(!is_grpc_content_type(None));
}

#[test]
fn readiness_polling_and_routing() {
    let mut r = Readiness::new();
    let mut polls = 0;
    while let Some(t) = r.next_to_poll() {
        r.mark_ready(t);
        polls += 1;
    }
    assert_eq!(polls, 2);
    assert!(r.rest_ready && r.grpc_ready);
    assert_eq!(r.route(true), Target::Grpc);
    assert!(r.rest_ready && !r.grpc_ready);
    assert_eq!(r.next_to_poll(), Some(Target::Grpc));
    r.mark_ready(Target::Grpc);
    assert_eq!(r.route(false), Target::Rest);
    assert!(!r.rest_ready && r.grpc_ready);
}

#[test]
fn tonic_service_wrapper() {
    let s = AxumTonicService::new(5u8);
    assert_eq!(s.svc, 5);
}
