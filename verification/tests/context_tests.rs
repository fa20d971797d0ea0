use tibrv::asyncq::Async;
use tibrv::context::{RvCtx, TransportBuilder};
use tibrv::errors::{ErrorKind, Status};
use tibrv::field::{Builder, Decodable, Encodable};
use tibrv::message::Msg;

#[test]
fn default_transport() {
    let ctx = RvCtx::new().unwrap();
    let tp = TransportBuilder::new(ctx).create();
    let _ = tp.map_err(|e| assert_eq!(ErrorKind::TransportError, e.kind()));
}

#[test]
fn create_inbox() {
    let ctx = RvCtx::new().unwrap();
    let mut tp = TransportBuilder::new(ctx).create().unwrap();
    let inbox = tp.create_inbox().unwrap();
    assert!(!inbox.is_empty());
    assert!(inbox.contains("INBOX"));
}

#[test]
fn inboxes_are_unique() {
    let ctx = RvCtx::new().unwrap();
    let mut tp = TransportBuilder::new(ctx).create().unwrap();
    let first = tp.create_inbox().unwrap();
    let second = tp.create_inbox().unwrap();
    assert_ne!(first, second);
    assert_eq!("_INBOX.0", first);
    assert_eq!("_INBOX.1", second);
}

#[test]
fn builder_parameters_carry_over() {
    let ctx = RvCtx::new().unwrap();
    let tp = TransportBuilder::new(ctx)
        .with_service("7500")
        .unwrap()
        .with_network("192.168.1.1")
        .unwrap()
        .with_daemon("localhost:7500")
        .unwrap()
        .create()
        .unwrap();
    assert_eq!("7500", tp.service().unwrap());
    assert_eq!("192.168.1.1", tp.network().unwrap());
    assert_eq!("localhost:7500", tp.daemon().unwrap());
}

#[test]
fn builder_rejects_nul_parameter() {
    let ctx = RvCtx::new().unwrap();
    let r = TransportBuilder::new(ctx).with_service("bad\0svc");
    assert_eq!(ErrorKind::StrContentError, r.unwrap_err().kind());
}

#[test]
fn send_msg() {
    let ctx = RvCtx::new().unwrap();
    let mut msg = Msg::new().unwrap();

    let data = "Hello, world!".to_string();
    let mut field = Builder::new(&data).with_name("DATA").encode();
    assert!(msg.add_field(&mut field).is_ok());

    assert!(msg.set_send_subject("TEST").is_ok());

    let tp = TransportBuilder::new(ctx.clone()).create().unwrap();

    assert!(tp.send(&mut msg).is_ok());
}

#[test]
fn send_without_subject_fails() {
    let ctx = RvCtx::new().unwrap();
    let tp = TransportBuilder::new(ctx).create().unwrap();
    let mut msg = Msg::new().unwrap();
    let r = tp.send(&mut msg);
    assert_eq!(
        ErrorKind::UnknownError(Status::InvalidSubject),
        r.unwrap_err().kind()
    );
}

#[test]
fn transport_subscribe_accepts_wildcards() {
    let ctx = RvCtx::new().unwrap();
    let tp = TransportBuilder::new(ctx).create().unwrap();
    assert!(tp.subscribe("TEST.*").is_ok());
    assert_eq!(
        ErrorKind::StrContentError,
        tp.subscribe("TEST\0").unwrap_err().kind()
    );
}

#[test]
fn serve_step_answers_requests() {
    let ctx = RvCtx::new().unwrap();
    let tp = TransportBuilder::new(ctx).create().unwrap();

    let mut request = Msg::new().unwrap();
    let mut field = Builder::new(&10u32).with_name("value").encode();
    request.add_field(&mut field).unwrap();
    request.set_reply_subject("REPLY.HERE").unwrap();

    let echo = |m: Msg| -> Result<Msg, tibrv::errors::TibrvError> { Ok(m) };
    let reply = tp.serve_step(&echo, request).unwrap().unwrap();
    assert_eq!("REPLY.HERE", reply.get_send_subject().unwrap().unwrap());
    let carried = reply.get_field_by_name("value").unwrap();
    assert_eq!(10, u32::tibrv_try_decode(&carried.inner).unwrap());
}

#[test]
fn serve_step_drops_notifications() {
    let ctx = RvCtx::new().unwrap();
    let tp = TransportBuilder::new(ctx).create().unwrap();

    let notification = Msg::new().unwrap();
    let echo = |m: Msg| -> Result<Msg, tibrv::errors::TibrvError> { Ok(m) };
    let r = tp.serve_step(&echo, notification).unwrap();
    assert!(r.is_none());
}

#[test]
fn request_reply_end_to_end() {
    let ctx = RvCtx::new().unwrap();
    let mut tp = TransportBuilder::new(ctx).create().unwrap();

    // Build and send the request, with an assigned reply inbox.
    let mut request = Msg::new().unwrap();
    let mut field = Builder::new(&"ping".to_string()).with_name("payload").encode();
    request.add_field(&mut field).unwrap();
    request.set_send_subject("SERVICE.ECHO").unwrap();
    let mut future = tp.async_req(&mut request).unwrap();
    let inbox = request.get_reply_subject().unwrap().unwrap();
    assert!(inbox.contains("INBOX"));

    // Nothing has been delivered yet: the future is pending.
    assert!(matches!(future.poll().unwrap(), Async::NotReady));

    // A simulated responder echoes a reply onto the inbox.
    let mut reply = Msg::new().unwrap();
    let mut echoed = Builder::new(&"ping".to_string()).with_name("payload").encode();
    reply.add_field(&mut echoed).unwrap();
    reply.set_send_subject(inbox.as_str()).unwrap();
    future.deliver(reply);

    // One poll cycle later the future resolves to the echoed content.
    match future.poll().unwrap() {
        Async::Ready(resolved) => {
            let carried = resolved.get_field_by_name("payload").unwrap();
            assert_eq!(
                "ping",
                String::tibrv_try_decode(&carried.inner).unwrap()
            );
        },
        Async::NotReady => panic!("the reply was injected, the future must resolve"),
    }
}

#[test]
fn status_names_and_kinds() {
    assert_eq!("TIBRV_OK", Status::Okay.name());
    assert_eq!("TIBRV_TIMEOUT", Status::Timeout.name());
    assert_eq!(ErrorKind::RvInitFailure, ErrorKind::from(Status::InitFailure));
    assert_eq!(
        ErrorKind::TransportError,
        ErrorKind::from(Status::DaemonNotConnected)
    );
    assert_eq!(
        ErrorKind::UnknownError(Status::Timeout),
        ErrorKind::from(Status::Timeout)
    );
}
