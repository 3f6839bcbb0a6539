use cameleon::gige::cancellation::asks_to_stop;
use cameleon::gige::completion::new_completion;
use cameleon::gige::stream_handle::{StreamError, StreamHandle, StreamUdpSocket};
use cameleon::gige::streaming_loop::{
    first_task, is_recv_timeout, next_task, pause_after, RecvError, Report, StreamingLoop, Task,
};
use futures_channel::oneshot;
use std::io;
use std::sync::{Arc, Mutex};
use std::time::Duration;

#[derive(Debug)]
struct TestSocket {
    refuses: bool,
    asked_for: Arc<Mutex<Vec<Option<Duration>>>>,
}

impl StreamUdpSocket for TestSocket {
    fn recv(&self, _buf: &mut [u8]) -> io::Result<usize> {
        Err(io::Error::from(io::ErrorKind::WouldBlock))
    }

    fn set_read_timeout(&self, timeout: Option<Duration>) -> io::Result<()> {
        self.asked_for.lock().unwrap().push(timeout);
        if self.refuses {
            Err(io::Error::from(io::ErrorKind::Unsupported))
        } else {
            Ok(())
        }
    }

    fn port(&self) -> u16 {
        3956
    }
}

fn new_handle() -> StreamHandle<TestSocket> {
    StreamHandle::new(TestSocket { refuses: false, asked_for: Arc::default() }).unwrap()
}

/// Runs a loop whose receives all end with `err` until it ends, or gives up.
fn tasks_until_the_end(streaming: &mut StreamingLoop<()>, first: Task, err: RecvError) -> usize {
    let mut task = first;
    for count in 0..100 {
        let report = match task {
            Task::Poll => Report::Polled(streaming.is_cancelled()),
            Task::Receive => streaming.after_receive(Err(err)),
            Task::Handle => Report::Handled,
            Task::Rest(_) => Report::Rested,
            Task::End => return count,
        };
        task = next_task(&report);
    }
    panic!("the loop does not end")
}

#[test]
fn handle_asks_the_socket_for_the_receive_timeout() {
    let asked_for = Arc::new(Mutex::new(Vec::new()));
    let handle =
        StreamHandle::new(TestSocket { refuses: false, asked_for: asked_for.clone() }).unwrap();
    assert_eq!(*asked_for.lock().unwrap(), vec![Some(Duration::from_millis(100))]);
    assert_eq!(handle.port(), 3956);
    assert_eq!(handle.socket().port(), 3956);
    assert!(handle.completion().is_none());
    assert!(!handle.is_loop_running(false));
}

#[test]
fn handle_is_refused_if_the_socket_refuses_the_timeout() {
    match StreamHandle::new(TestSocket { refuses: true, asked_for: Arc::default() }) {
        Err(StreamError::Io(err)) => assert_eq!(err.kind(), io::ErrorKind::Unsupported),
        other => panic!("{:?}", other),
    }
}

#[test]
fn loop_runs_until_it_ends() {
    let mut handle = new_handle();
    let streaming = handle.start_streaming_loop::<()>(false).unwrap();
    // The loop and its handle share what the loop sets once it has ended, which is not set yet.
    assert!(Arc::ptr_eq(streaming.completion(), handle.completion().unwrap()));
    assert!(!*handle.completion().unwrap().0.lock().unwrap());
    *streaming.completion().0.lock().unwrap() = true;
    assert!(*handle.completion().unwrap().0.lock().unwrap());
    assert!(handle.is_loop_running(false));
    assert!(!handle.is_loop_running(true));
}

#[test]
fn second_loop_is_refused_while_the_first_runs() {
    let mut handle = new_handle();
    let mut streaming = handle.start_streaming_loop::<()>(false).unwrap();
    let refused = handle.start_streaming_loop::<()>(false);
    assert!(matches!(refused, Err(StreamError::InStreaming)));
    assert!(Arc::ptr_eq(handle.completion().unwrap(), streaming.completion()));
    assert!(!streaming.is_cancelled());
    // Once the first has ended, the second is let in, and takes its place.
    let second = handle.start_streaming_loop::<()>(true).unwrap();
    assert!(Arc::ptr_eq(handle.completion().unwrap(), second.completion()));
    assert!(!Arc::ptr_eq(streaming.completion(), second.completion()));
    assert!(streaming.is_cancelled());
}

#[test]
fn stop_reaches_the_loop() {
    let mut handle = new_handle();
    let mut streaming = handle.start_streaming_loop::<()>(false).unwrap();
    assert!(!streaming.is_cancelled());
    let waited_for = handle.stop_streaming_loop().unwrap().unwrap();
    assert!(Arc::ptr_eq(&waited_for, streaming.completion()));
    assert!(streaming.is_cancelled());
    assert!(!handle.is_loop_running(false));
    // There is no loop any more, so there is nothing to stop.
    assert!(handle.stop_streaming_loop().unwrap().is_none());
    assert!(handle.start_streaming_loop::<()>(false).is_ok());
}

#[test]
fn stop_without_a_loop_does_nothing() {
    let mut handle = new_handle();
    assert!(handle.stop_streaming_loop().unwrap().is_none());
    assert!(handle.open().is_ok());
    assert!(handle.close().is_ok());
    assert!(!handle.is_loop_running(false));
}

#[test]
fn stop_of_a_lost_loop_is_reported() {
    let mut handle = new_handle();
    let streaming = handle.start_streaming_loop::<()>(false).unwrap();
    drop(streaming);
    assert!(matches!(handle.stop_streaming_loop(), Err(StreamError::Disconnected)));
    assert!(handle.is_loop_running(false));
    assert!(handle.stop_streaming_loop().unwrap().is_none());
}

#[test]
fn loop_ends_with_its_handle() {
    let mut handle = new_handle();
    let mut streaming = handle.start_streaming_loop::<()>(false).unwrap();
    assert!(!streaming.is_cancelled());
    drop(handle);
    assert!(streaming.is_cancelled());
}

#[test]
fn stop_without_completion_is_reported() {
    let mut handle = new_handle();
    assert!(matches!(handle.settle_stop(true), Err(StreamError::Disconnected)));
    assert!(matches!(handle.settle_stop(false), Err(StreamError::Disconnected)));
    let (tx, _rx) = oneshot::channel();
    let completion = new_completion();
    handle.enter_loop(false, tx, completion.clone()).unwrap();
    assert!(Arc::ptr_eq(&handle.settle_stop(true).unwrap().unwrap(), &completion));
}

#[test]
fn cancellation_is_asked_for_by_a_message_or_by_leaving() {
    let (tx, mut rx) = oneshot::channel();
    assert!(!asks_to_stop(&rx.try_recv()));
    tx.send(()).unwrap();
    assert!(asks_to_stop(&rx.try_recv()));
    let (tx, mut rx) = oneshot::channel::<()>();
    drop(tx);
    assert!(asks_to_stop(&rx.try_recv()));
}

#[test]
fn timeouts_are_told_from_failures() {
    assert!(is_recv_timeout(&RecvError::WouldBlock));
    assert!(is_recv_timeout(&RecvError::TimedOut));
    assert!(!is_recv_timeout(&RecvError::Failed));
    assert_eq!(pause_after(&RecvError::WouldBlock), None);
    assert_eq!(pause_after(&RecvError::TimedOut), None);
    assert_eq!(pause_after(&RecvError::Failed), Some(100));
}

#[test]
fn tasks_follow_each_other() {
    assert_eq!(first_task(), Task::Poll);
    assert_eq!(next_task(&Report::Polled(false)), Task::Receive);
    assert_eq!(next_task(&Report::Polled(true)), Task::End);
    assert_eq!(next_task(&Report::Received), Task::Handle);
    assert_eq!(next_task(&Report::Handled), Task::Poll);
    assert_eq!(next_task(&Report::ReceiveFailed(RecvError::TimedOut)), Task::Poll);
    assert_eq!(next_task(&Report::ReceiveFailed(RecvError::Failed)), Task::Rest(100));
    assert_eq!(next_task(&Report::Rested), Task::Poll);
}

#[test]
fn cancelled_loop_ends_when_no_frame_ever_arrives() {
    let mut handle = new_handle();
    let mut streaming = handle.start_streaming_loop::<()>(false).unwrap();
    handle.stop_streaming_loop().unwrap();
    assert_eq!(tasks_until_the_end(&mut streaming, first_task(), RecvError::WouldBlock), 1);
    assert_eq!(tasks_until_the_end(&mut streaming, Task::Receive, RecvError::WouldBlock), 2);
}

#[test]
fn cancelled_loop_ends_when_every_receive_fails() {
    let mut handle = new_handle();
    let mut streaming = handle.start_streaming_loop::<()>(false).unwrap();
    handle.stop_streaming_loop().unwrap();
    assert_eq!(tasks_until_the_end(&mut streaming, Task::Receive, RecvError::Failed), 3);
}
