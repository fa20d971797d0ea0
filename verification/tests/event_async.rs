use tibrv::asyncq::{Async, AsyncQueue};
use tibrv::context::{RvCtx, TransportBuilder};
use tibrv::errors::ErrorKind;
use tibrv::event::{Queue, TryNextError};
use tibrv::field::{Builder, Decodable, Encodable};
use tibrv::message::Msg;

fn tagged_msg(tag: u32) -> Msg {
    let mut msg = Msg::new().unwrap();
    let mut field = Builder::new(&tag).with_name("tag").encode();
    msg.add_field(&mut field).unwrap();
    msg
}

fn tag_of(msg: &Msg) -> u32 {
    let field = msg.get_field_by_name("tag").unwrap();
    u32::tibrv_try_decode(&field.inner).unwrap()
}

#[test]
fn creation() {
    let ctx = RvCtx::new().unwrap();
    let queue = Queue::new(ctx);
    assert!(queue.is_ok());
    assert_eq!(0, queue.unwrap().count().unwrap());
}

#[test]
fn subscribe() {
    let ctx = RvCtx::new().unwrap();
    let queue = Queue::new(ctx.clone()).unwrap();
    let tp = TransportBuilder::new(ctx.clone()).create().unwrap();
    let sub = queue.subscribe(&tp, "TEST");
    assert!(sub.is_ok());
}

#[test]
fn subscribe_rejects_nul_subject() {
    let ctx = RvCtx::new().unwrap();
    let queue = Queue::new(ctx.clone()).unwrap();
    let tp = TransportBuilder::new(ctx).create().unwrap();
    let sub = queue.subscribe(&tp, "BAD\0SUBJECT");
    assert_eq!(ErrorKind::StrContentError, sub.unwrap_err().kind());
}

#[test]
fn subscription_fifo_order() {
    let ctx = RvCtx::new().unwrap();
    let tp = TransportBuilder::new(ctx.clone()).create().unwrap();
    let queue = Queue::new(ctx).unwrap();
    let mut sub = queue.subscribe(&tp, "TEST").unwrap();

    sub.deliver(tagged_msg(1));
    sub.deliver(tagged_msg(2));
    sub.deliver(tagged_msg(3));

    assert_eq!(1, tag_of(&sub.next().unwrap()));
    assert_eq!(2, tag_of(&sub.next().unwrap()));
    assert_eq!(3, tag_of(&sub.next().unwrap()));
}

#[test]
fn try_next_reports_empty_then_disconnected() {
    let ctx = RvCtx::new().unwrap();
    let tp = TransportBuilder::new(ctx.clone()).create().unwrap();
    let mut sub = Queue::new(ctx).unwrap().subscribe(&tp, "TEST").unwrap();

    assert_eq!(TryNextError::Empty, sub.try_next().unwrap_err());

    sub.deliver(tagged_msg(9));
    sub.close();
    assert_eq!(9, tag_of(&sub.try_next().unwrap()));
    assert_eq!(TryNextError::Disconnected, sub.try_next().unwrap_err());
}

#[test]
fn next_fails_once_closed_and_drained() {
    let ctx = RvCtx::new().unwrap();
    let tp = TransportBuilder::new(ctx.clone()).create().unwrap();
    let mut sub = Queue::new(ctx).unwrap().subscribe(&tp, "TEST").unwrap();

    sub.deliver(tagged_msg(5));
    sub.close();
    assert_eq!(5, tag_of(&sub.next().unwrap()));
    assert_eq!(ErrorKind::QueueError, sub.next().unwrap_err().kind());
}

#[test]
fn no_hook() {
    let ctx = RvCtx::new().unwrap();
    let queue = AsyncQueue::new(ctx).unwrap();
    assert_eq!(false, queue.has_hook());
}

#[test]
fn has_hook() {
    let ctx = RvCtx::new().unwrap();
    let tp = TransportBuilder::new(ctx.clone()).create().unwrap();
    let queue = AsyncQueue::new(ctx.clone()).unwrap();

    assert_eq!(false, queue.has_hook());
    let _ = queue.subscribe(&tp, "TEST").unwrap();
}

#[test]
fn fresh_stream_is_not_ready() {
    let ctx = RvCtx::new().unwrap();
    let tp = TransportBuilder::new(ctx.clone()).create().unwrap();
    let mut stream = tp.async_sub("ASYNC.TEST").unwrap();

    assert!(matches!(stream.poll().unwrap(), Async::NotReady));
}

#[test]
fn delivery_makes_stream_ready() {
    let ctx = RvCtx::new().unwrap();
    let tp = TransportBuilder::new(ctx.clone()).create().unwrap();
    let mut stream = tp.async_sub("ASYNC.TEST").unwrap();

    assert!(matches!(stream.poll().unwrap(), Async::NotReady));

    stream.deliver(tagged_msg(77));
    match stream.poll().unwrap() {
        Async::Ready(Some(msg)) => assert_eq!(77, tag_of(&msg)),
        _ => panic!("a delivered message must be ready on the next poll"),
    }
    assert!(matches!(stream.poll().unwrap(), Async::NotReady));
}

#[test]
fn notified_empty_stream_clears_readiness() {
    let ctx = RvCtx::new().unwrap();
    let tp = TransportBuilder::new(ctx.clone()).create().unwrap();
    let mut stream = tp.async_sub("ASYNC.TEST").unwrap();

    stream.notify();
    assert!(matches!(stream.poll().unwrap(), Async::NotReady));
    assert!(matches!(stream.poll().unwrap(), Async::NotReady));
}

#[test]
fn closed_stream_yields_queue_error() {
    let ctx = RvCtx::new().unwrap();
    let tp = TransportBuilder::new(ctx.clone()).create().unwrap();
    let mut stream = tp.async_sub("ASYNC.TEST").unwrap();

    stream.close();
    stream.notify();
    let r = stream.poll();
    assert_eq!(ErrorKind::QueueError, r.unwrap_err().kind());
}
