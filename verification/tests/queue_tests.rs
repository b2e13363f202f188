use nix::mqueue::{mq_close, mq_open, mq_receive, mq_send, MqAttr, MqdT, MQ_OFlag};
use nix::sys::stat::Mode;
use rust_m_queue::{
    encode, IpcError, IpcReceiver, IpcSender, OpenFailReason, QueueHandle, RawCommand,
};

const MESSAGE_SIZE: usize = 1024;

fn fresh(name: &str) {
    // Remove any leftover queue of that name from an earlier run.
    let _ = QueueHandle::unlink(name);
}

fn create_queue(name: &str) -> MqdT {
    let flags = MQ_OFlag::O_CREAT | MQ_OFlag::O_RDWR;
    let mode = Mode::S_IWUSR | Mode::S_IRUSR;
    let attributes = MqAttr::new(0, 10, MESSAGE_SIZE as i64, 0);
    mq_open(name, flags, mode, Some(&attributes)).unwrap()
}

fn send_message(descriptor: &MqdT, message: &[u8]) {
    mq_send(descriptor, message, 0).unwrap();
}

fn receive_message(descriptor: &MqdT, buffer: &mut [u8; MESSAGE_SIZE], prior: &mut u32) -> usize {
    mq_receive(descriptor, buffer, prior).unwrap()
}

#[test]
fn test_success_create() {
    const QUEUE_NAME: &str = "/test_queue_rec";
    fresh(QUEUE_NAME);
    let receiver = IpcReceiver::<MESSAGE_SIZE>::init(QUEUE_NAME, 10);
    assert_eq!(receiver.is_ok(), true);
    receiver.unwrap().close();
}

#[test]
fn test_receive() {
    const QUEUE_NAME: &str = "/test_queue_rec2";
    fresh(QUEUE_NAME);
    let message = RawCommand::new(1, b"test2".to_vec());
    let mq = create_queue(QUEUE_NAME);
    send_message(&mq, &encode(&message));
    let _ = mq_close(mq);
    let mut receiver = IpcReceiver::<MESSAGE_SIZE>::init(QUEUE_NAME, 10).unwrap();
    let data = receiver.receive().unwrap();
    assert_eq!(data.sender(), 1);
    assert_eq!(data.data(), b"test2".to_vec());
    receiver.close();
    let _ = QueueHandle::unlink(QUEUE_NAME);
}

#[test]
fn test_success_connect() {
    const QUEUE_NAME: &str = "/test_queue_sen";
    fresh(QUEUE_NAME);
    let mq = create_queue(QUEUE_NAME);
    let sender = IpcSender::<MESSAGE_SIZE>::connect_to_queue(QUEUE_NAME);
    assert_eq!(sender.is_ok(), true);
    sender.unwrap().close();
    let _ = mq_close(mq);
    let _ = QueueHandle::unlink(QUEUE_NAME);
}

#[test]
fn test_send_success() {
    const QUEUE_NAME: &str = "/test_queue_sen2";
    fresh(QUEUE_NAME);
    let mq = create_queue(QUEUE_NAME);
    let sender = IpcSender::<MESSAGE_SIZE>::connect_to_queue(QUEUE_NAME).unwrap();
    let message = RawCommand::new(1, b"test".to_vec());
    sender.send(&message, 3).unwrap();
    let mut buffer = [0; MESSAGE_SIZE];
    let mut priority = 0u32;
    let len = receive_message(&mq, &mut buffer, &mut priority);
    sender.close();
    let _ = mq_close(mq);
    let _ = QueueHandle::unlink(QUEUE_NAME);
    assert_eq!(priority, 3);
    let expected = bincode::serialize(&(1u8, b"test".to_vec())).unwrap();
    assert_eq!(&buffer[0..len], expected.as_slice());
}

#[test]
fn test_priority_ordering() {
    const QUEUE_NAME: &str = "/test_queue_prio";
    fresh(QUEUE_NAME);
    let low = RawCommand::new(1, b"low".to_vec());
    let high = RawCommand::new(2, b"high".to_vec());

    // Low priority sent first.
    let mut receiver = IpcReceiver::<MESSAGE_SIZE>::init(QUEUE_NAME, 10).unwrap();
    let sender = IpcSender::<MESSAGE_SIZE>::connect_to_queue(QUEUE_NAME).unwrap();
    sender.send(&low, 1).unwrap();
    sender.send(&high, 5).unwrap();
    let (first, p1) = receiver.receive_bytes().unwrap();
    let (second, p2) = receiver.receive_bytes().unwrap();
    assert_eq!(first, encode(&high));
    assert_eq!(second, encode(&low));
    assert_eq!((p1, p2), (5, 1));

    // High priority sent first: same delivery order.
    sender.send(&RawCommand::new(2, b"high".to_vec()), 5).unwrap();
    sender.send(&RawCommand::new(1, b"low".to_vec()), 1).unwrap();
    let (first, _) = receiver.receive_bytes().unwrap();
    let (second, _) = receiver.receive_bytes().unwrap();
    assert_eq!(first, encode(&RawCommand::new(2, b"high".to_vec())));
    assert_eq!(second, encode(&RawCommand::new(1, b"low".to_vec())));

    sender.close();
    assert!(receiver.close());
}

#[test]
fn test_fifo_tie_break() {
    const QUEUE_NAME: &str = "/test_queue_fifo";
    fresh(QUEUE_NAME);
    let mut receiver = IpcReceiver::<MESSAGE_SIZE>::init(QUEUE_NAME, 10).unwrap();
    let sender = IpcSender::<MESSAGE_SIZE>::connect_to_queue(QUEUE_NAME).unwrap();
    let a = RawCommand::new(10, b"first".to_vec());
    let b = RawCommand::new(11, b"second".to_vec());
    sender.send(&a, 7).unwrap();
    sender.send(&b, 7).unwrap();
    assert_eq!(receiver.receive().unwrap().sender(), 10);
    assert_eq!(receiver.receive().unwrap().sender(), 11);
    sender.close();
    assert!(receiver.close());
}

#[test]
fn test_message_too_large() {
    const SMALL: usize = 32;
    const QUEUE_NAME: &str = "/test_queue_size";
    fresh(QUEUE_NAME);
    let mut receiver = IpcReceiver::<SMALL>::init(QUEUE_NAME, 10).unwrap();
    let sender = IpcSender::<SMALL>::connect_to_queue(QUEUE_NAME).unwrap();

    // 9 header bytes + 24 payload bytes = 33 > 32.
    let big = RawCommand::new(1, vec![0u8; 24]);
    assert_eq!(sender.send(&big, 1), Err(IpcError::MessageTooLarge));
    assert_eq!(sender.send_bytes(&[0u8; 33], 1), Err(IpcError::MessageTooLarge));

    // 9 + 23 = 32 fits; the oversize message was never transmitted, so the
    // small one is the first (and only) message any receiver observes.
    let fits = RawCommand::new(2, vec![7u8; 23]);
    sender.send(&fits, 1).unwrap();
    let got = receiver.receive().unwrap();
    assert_eq!(got.sender(), 2);
    assert_eq!(got.data(), vec![7u8; 23]);
    sender.close();
    assert!(receiver.close());
}

#[test]
fn test_ownership_teardown() {
    const QUEUE_NAME: &str = "/test_queue_own";
    fresh(QUEUE_NAME);

    // The creator removes the queue at teardown.
    let owner = IpcReceiver::<MESSAGE_SIZE>::init(QUEUE_NAME, 10).unwrap();
    assert!(owner.is_owner());
    assert!(owner.close());
    assert_eq!(
        IpcSender::<MESSAGE_SIZE>::connect_to_queue(QUEUE_NAME).err(),
        Some(IpcError::QueueOpenFailed(OpenFailReason::DoesNotExist))
    );

    // A later init recreates the queue and owns it again.
    let owner = IpcReceiver::<MESSAGE_SIZE>::init(QUEUE_NAME, 10).unwrap();
    assert!(owner.is_owner());

    // A sender's teardown never removes the queue.
    let sender = IpcSender::<MESSAGE_SIZE>::connect_to_queue(QUEUE_NAME).unwrap();
    sender.close();
    assert!(IpcSender::<MESSAGE_SIZE>::connect_to_queue(QUEUE_NAME).is_ok());

    // A receiver that merely attached does not remove the queue either.
    let attached = IpcReceiver::<MESSAGE_SIZE>::init(QUEUE_NAME, 10).unwrap();
    assert!(!attached.is_owner());
    assert!(!attached.close());
    assert!(IpcSender::<MESSAGE_SIZE>::connect_to_queue(QUEUE_NAME).is_ok());

    assert!(owner.close());
}

#[test]
fn test_many_senders_no_loss() {
    const QUEUE_NAME: &str = "/test_queue_many";
    fresh(QUEUE_NAME);
    let mut receiver = IpcReceiver::<MESSAGE_SIZE>::init(QUEUE_NAME, 10).unwrap();
    let n: u8 = 5;
    for i in 0..n {
        let sender = IpcSender::<MESSAGE_SIZE>::connect_to_queue(QUEUE_NAME).unwrap();
        sender.send(&RawCommand::new(i, vec![i]), 0).unwrap();
        sender.close();
    }
    let mut seen = Vec::new();
    for _ in 0..n {
        let got = receiver.receive().unwrap();
        let s = got.sender();
        assert_eq!(got.data(), vec![s]);
        seen.push(s);
    }
    // Exactly the n distinct messages, no duplicates, no loss; equal
    // priorities, so they arrive in send order.
    assert_eq!(seen, vec![0, 1, 2, 3, 4]);
    assert!(receiver.close());
}

#[test]
fn test_error_variants() {
    // A malformed name is rejected without consulting the kernel.
    assert_eq!(
        IpcReceiver::<MESSAGE_SIZE>::init("no_separator", 10).err(),
        Some(IpcError::QueueOpenFailed(OpenFailReason::NameInvalid))
    );
    assert_eq!(
        IpcSender::<MESSAGE_SIZE>::connect_to_queue("no_separator").err(),
        Some(IpcError::QueueOpenFailed(OpenFailReason::NameInvalid))
    );

    // Connecting to a queue nobody created reports the missing name.
    fresh("/test_queue_absent");
    assert_eq!(
        IpcSender::<MESSAGE_SIZE>::connect_to_queue("/test_queue_absent").err(),
        Some(IpcError::QueueOpenFailed(OpenFailReason::DoesNotExist))
    );

    // A priority beyond the kernel's range is rejected by the send call.
    const QUEUE_NAME: &str = "/test_queue_errs";
    fresh(QUEUE_NAME);
    let mut receiver = IpcReceiver::<MESSAGE_SIZE>::init(QUEUE_NAME, 10).unwrap();
    let sender = IpcSender::<MESSAGE_SIZE>::connect_to_queue(QUEUE_NAME).unwrap();
    let cmd = RawCommand::new(1, b"x".to_vec());
    assert!(matches!(
        sender.send(&cmd, 1_000_000),
        Err(IpcError::SystemCallFailed(_))
    ));

    // A payload that is no well-formed encoding is consumed and reported.
    sender.send_bytes(b"garbage", 0).unwrap();
    assert_eq!(receiver.receive().err(), Some(IpcError::DeserializationFailed));

    // The queue is empty again: a good message still goes through.
    sender.send(&cmd, 0).unwrap();
    assert_eq!(receiver.receive().unwrap().data(), b"x".to_vec());

    sender.close();
    assert!(receiver.close());
}

