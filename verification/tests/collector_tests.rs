use esolang_ide::collector::reader_message;
use esolang_ide::{CollectAction, CollectEvent, OutputCollector, StreamMsg};

#[test]
fn collects_until_exit_then_drains() {
    let mut c = OutputCollector::new();
    assert_eq!(c.step(CollectEvent::Received(StreamMsg::Stdout(b"-".to_vec()))), CollectAction::Receive);
    assert_eq!(c.step(CollectEvent::Received(StreamMsg::Stderr(b"warn".to_vec()))), CollectAction::Receive);
    assert_eq!(c.step(CollectEvent::ChannelEmpty), CollectAction::CheckChild);
    assert_eq!(c.step(CollectEvent::ChildRunning), CollectAction::SleepThenReceive);
    assert_eq!(c.step(CollectEvent::Received(StreamMsg::Stdout(b"5".to_vec()))), CollectAction::Receive);
    assert_eq!(c.step(CollectEvent::ChannelEmpty), CollectAction::CheckChild);
    assert_eq!(c.step(CollectEvent::ChildExited(Some(0))), CollectAction::Receive);
    assert_eq!(c.step(CollectEvent::Received(StreamMsg::Stdout(b"\n".to_vec()))), CollectAction::Receive);
    // The readers may still be sending: keep receiving until they are gone.
    assert_eq!(c.step(CollectEvent::ChannelEmpty), CollectAction::SleepThenReceive);
    assert_eq!(c.step(CollectEvent::Received(StreamMsg::Stdout(b"!".to_vec()))), CollectAction::Receive);
    assert_eq!(c.step(CollectEvent::ChannelClosed), CollectAction::Finish);
    // Finished: nothing more is taken.
    assert_eq!(c.step(CollectEvent::Received(StreamMsg::Stdout(b"x".to_vec()))), CollectAction::Finish);
    let (out, err, code) = c.into_output().unwrap();
    assert_eq!(out, b"-5\n!".to_vec());
    assert_eq!(err, b"warn".to_vec());
    assert_eq!(code, 0);
}

#[test]
fn closed_channel_waits_for_the_process() {
    let mut c = OutputCollector::new();
    c.step(CollectEvent::Received(StreamMsg::Stdout(b"hi".to_vec())));
    assert_eq!(c.step(CollectEvent::ChannelClosed), CollectAction::WaitChild);
    assert_eq!(c.step(CollectEvent::ChildExited(None)), CollectAction::Finish);
    let (out, err, code) = c.into_output().unwrap();
    assert_eq!(out, b"hi".to_vec());
    assert!(err.is_empty());
    assert_eq!(code, -1);
}

#[test]
fn failed_status_gives_no_output() {
    let mut c = OutputCollector::new();
    c.step(CollectEvent::ChannelEmpty);
    assert_eq!(c.step(CollectEvent::ChildFailed), CollectAction::Fail);
    assert_eq!(c.step(CollectEvent::ChildExited(Some(1))), CollectAction::Fail);
    assert!(c.into_output().is_none());
}

#[test]
fn unfinished_collection_gives_no_output() {
    let c = OutputCollector::new();
    assert!(c.into_output().is_none());
    assert_eq!(OutputCollector::code_or_default(Some(3)), 3);
    assert_eq!(OutputCollector::code_or_default(None), -1);
}

#[test]
fn reader_messages() {
    assert!(matches!(reader_message(true, Some(vec![1])), Some(StreamMsg::Stdout(b)) if b == vec![1]));
    assert!(matches!(reader_message(false, Some(vec![2])), Some(StreamMsg::Stderr(b)) if b == vec![2]));
    assert!(reader_message(true, Some(Vec::new())).is_none());
    assert!(reader_message(false, None).is_none());
}
