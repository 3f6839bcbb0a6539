//! The handle by which a streaming loop is started and stopped.

use crate::gige::completion::{is_unset, new_completion, share, Completion};
use crate::gige::streaming_loop::{StreamingLoop, BUFFER_SIZE, RECV_TIMEOUT_MILLIS};
use futures_channel::oneshot;
use std::io;
use std::sync::Arc;
use std::time::Duration;
use vstd::prelude::*;

verus! {

/// An error of `std::io`.
#[verifier::external_type_specification]
#[verifier::external_body]
pub struct ExIoError(io::Error);

/// The time span that [`Duration::from_millis`] makes of a number of milliseconds.
pub uninterp spec fn duration_of_millis(millis: u64) -> Duration;

/// `Duration::from_millis` gives the same time span for the same number of milliseconds.
pub assume_specification[ Duration::from_millis ](millis: u64) -> (duration: Duration)
    ensures
        duration == duration_of_millis(millis),
;

/// A socket that receives the datagrams of a stream.
pub trait StreamUdpSocket: Send + Sync + 'static {
    /// Receives a single datagram.
    fn recv(&self, buf: &mut [u8]) -> io::Result<usize>;

    /// Bounds how long [`Self::recv`] blocks, after which it fails with
    /// [`io::ErrorKind::WouldBlock`] or [`io::ErrorKind::TimedOut`] depending on the platform.
    fn set_read_timeout(&self, timeout: Option<Duration>) -> io::Result<()>;

    /// The port that the socket is bound to.
    fn port(&self) -> u16;
}

/// Why the stream cannot do what it was asked to do.
#[derive(Debug)]
pub enum StreamError {
    /// The streaming loop is gone.
    Disconnected,
    /// The streaming loop is running.
    InStreaming,
    /// The socket failed.
    Io(io::Error),
}

impl vstd::std_specs::convert::FromSpecImpl<io::Error> for StreamError {
    open spec fn obeys_from_spec() -> bool {
        true
    }

    open spec fn from_spec(err: io::Error) -> StreamError {
        StreamError::Io(err)
    }
}

impl From<io::Error> for StreamError {
    fn from(err: io::Error) -> (r: StreamError) {
        StreamError::Io(err)
    }
}

/// The result of what the stream was asked to do.
pub type StreamResult<T> = Result<T, StreamError>;

/// What a handle keeps of its loop: the model that its contracts speak of.
pub struct HandleState<S> {
    pub socket: S,
    /// Where the loop is asked to stop.
    pub canceller: Option<oneshot::Sender<()>>,
    /// What the loop sets once it has ended.
    pub completing: Option<Completion>,
}

impl<S> HandleState<S> {
    /// A handle that has started no loop.
    pub open spec fn idle(socket: S) -> HandleState<S> {
        HandleState { socket, canceller: None, completing: None }
    }

    /// A loop that can be asked to stop can also be waited for.
    pub open spec fn wf(self) -> bool {
        self.canceller is Some ==> self.completing is Some
    }

    /// Whether the loop is running, where `completed` says whether the loop that the handle
    /// waits for has ended.
    pub open spec fn running(self, completed: bool) -> bool {
        self.completing is Some && !completed
    }

    /// The handle once it has started a loop.
    pub open spec fn started(
        self,
        canceller: oneshot::Sender<()>,
        completing: Completion,
    ) -> HandleState<S> {
        HandleState {
            socket: self.socket,
            canceller: Some(canceller),
            completing: Some(completing),
        }
    }

    /// The handle once the loop has been asked to stop: `reached` says whether the loop was
    /// there to be asked. If it was not, the handle keeps what the loop never set.
    pub open spec fn stopped(self, reached: bool) -> HandleState<S> {
        HandleState {
            socket: self.socket,
            canceller: None,
            completing: if reached {
                None
            } else {
                self.completing
            },
        }
    }

    /// What there is to wait for once the loop has been asked to stop.
    pub open spec fn stop_result(self, reached: bool) -> StreamResult<Option<Completion>> {
        if reached && self.completing is Some {
            Ok(self.completing)
        } else {
            Err(StreamError::Disconnected)
        }
    }
}

/// Starts and stops the loop that receives a stream.
#[derive(Debug)]
pub struct StreamHandle<S: StreamUdpSocket> {
    completion: Option<Completion>,
    cancellation_tx: Option<oneshot::Sender<()>>,
    sock: Arc<S>,
}

impl<S: StreamUdpSocket> View for StreamHandle<S> {
    type V = HandleState<S>;

    closed spec fn view(&self) -> HandleState<S> {
        HandleState {
            socket: *self.sock,
            canceller: self.cancellation_tx,
            completing: self.completion,
        }
    }
}

impl<S: StreamUdpSocket> StreamHandle<S> {
    /// A handle that receives from the bound socket `sock`. The socket is asked for the receive
    /// timeout that keeps the streaming loop interruptible, and the handle is refused if the
    /// socket refuses it.
    pub fn new(sock: S) -> (r: StreamResult<Self>)
        ensures
            exists|set: io::Result<()>|
                {
                    &&& #[trigger] call_ensures(
                        S::set_read_timeout,
                        (&sock, Some(duration_of_millis(RECV_TIMEOUT_MILLIS))),
                        set,
                    )
                    &&& call_ensures(
                        S::set_read_timeout,
                        (&sock, Some(duration_of_millis(100))),
                        set,
                    )
                    &&& match set {
                        Ok(()) => {
                            &&& r matches Ok(handle)
                            &&& handle@ == HandleState::idle(sock)
                            &&& handle@.socket == sock
                            &&& handle@.canceller is None
                            &&& handle@.completing is None
                        },
                        Err(err) => r == Err::<Self, StreamError>(StreamError::Io(err)),
                    }
                },
    {
        let set = sock.set_read_timeout(Some(Duration::from_millis(RECV_TIMEOUT_MILLIS)));
        Self::with_timeout_set(sock, set)
    }

    /// A handle that receives from `sock`, where `set` is the socket's answer to being asked for
    /// the receive timeout.
    pub fn with_timeout_set(sock: S, set: io::Result<()>) -> (r: StreamResult<Self>)
        ensures
            match set {
                Ok(()) => {
                    &&& r matches Ok(handle)
                    &&& handle@ == HandleState::idle(sock)
                    &&& handle@.socket == sock
                    &&& handle@.canceller is None
                    &&& handle@.completing is None
                },
                Err(err) => r == Err::<Self, StreamError>(StreamError::Io(err)),
            },
    {
        match set {
            Ok(()) => Ok(
                StreamHandle { completion: None, cancellation_tx: None, sock: Arc::new(sock) },
            ),
            Err(err) => Err(StreamError::from(err)),
        }
    }

    /// The local port of the stream socket.
    pub fn port(&self) -> (port: u16)
        ensures
            call_ensures(S::port, (&self@.socket,), port),
    {
        self.sock.port()
    }

    /// The stream socket.
    pub fn socket(&self) -> (sock: &Arc<S>)
        ensures
            **sock == self@.socket,
    {
        &self.sock
    }

    /// What the loop sets and signals once it has ended, if there is a loop to wait for.
    pub fn completion(&self) -> (r: Option<&Completion>)
        ensures
            match r {
                Some(completion) => self@.completing == Some(*completion),
                None => self@.completing is None,
            },
    {
        self.completion.as_ref()
    }

    /// Opens the stream: there is nothing to open.
    pub fn open(&mut self) -> (r: StreamResult<()>)
        ensures
            r is Ok,
            *final(self) == *old(self),
    {
        Ok(())
    }

    /// Closes the stream: there is nothing to close.
    pub fn close(&mut self) -> (r: StreamResult<()>)
        ensures
            r is Ok,
            *final(self) == *old(self),
    {
        Ok(())
    }

    /// Whether the streaming loop is running. `completed` is what stands behind
    /// [`Self::completion`]; it is of no account if that is `None`.
    pub fn is_loop_running(&self, completed: bool) -> (r: bool)
        ensures
            r == self@.running(completed),
            r == (self@.completing is Some && !completed),
    {
        self.completion.is_some() && !completed
    }

    /// Starts a streaming loop, which is to set and signal its completion once it has ended. While
    /// the loop before it is running, that is refused.
    pub fn start_streaming_loop<P>(&mut self, completed: bool) -> (r: StreamResult<
        StreamingLoop<P>,
    >)
        ensures
            match r {
                Ok(streaming) => {
                    &&& !old(self)@.running(completed)
                    &&& streaming.open() is None
                    &&& streaming.received() == Seq::new(BUFFER_SIZE as nat, |i: int| 0u8)
                    &&& streaming.datagram_len() == 0
                    &&& is_unset(streaming.completing())
                    &&& final(self)@.canceller matches Some(canceller)
                    &&& call_ensures(
                        oneshot::channel::<()>,
                        (),
                        (canceller, streaming.cancellation()),
                    )
                    &&& final(self)@ == old(self)@.started(canceller, streaming.completing())
                    &&& final(self)@.completing == Some(streaming.completing())
                    &&& final(self)@.socket == old(self)@.socket
                    &&& streaming.received().len() == 65536
                },
                Err(err) => {
                    &&& err is InStreaming
                    &&& old(self)@.running(completed)
                    &&& *final(self) == *old(self)
                },
            },
            r is Err <==> old(self)@.completing is Some && !completed,
    {
        let (cancellation_tx, cancellation_rx) = oneshot::channel::<()>();
        let completion = new_completion();
        match self.enter_loop(completed, cancellation_tx, share(&completion)) {
            Ok(()) => Ok(StreamingLoop::new(cancellation_rx, completion)),
            Err(err) => Err(err),
        }
    }

    /// Makes the handle that of a loop that is asked to stop through `cancellation_tx` and that
    /// sets and signals `completion` once it has ended.
    pub fn enter_loop(
        &mut self,
        completed: bool,
        cancellation_tx: oneshot::Sender<()>,
        completion: Completion,
    ) -> (r: StreamResult<()>)
        ensures
            if old(self)@.running(completed) {
                r == Err::<(), StreamError>(StreamError::InStreaming) && *final(self) == *old(self)
            } else {
                r is Ok && final(self)@ == old(self)@.started(cancellation_tx, completion)
            },
            r is Err <==> old(self)@.completing is Some && !completed,
            r is Ok ==> {
                &&& final(self)@.canceller == Some(cancellation_tx)
                &&& final(self)@.completing == Some(completion)
                &&& final(self)@.socket == old(self)@.socket
            },
            old(self)@.wf() ==> final(self)@.wf(),
    {
        if self.is_loop_running(completed) {
            return Err(StreamError::InStreaming);
        }
        self.cancellation_tx = Some(cancellation_tx);
        self.completion = Some(completion);
        Ok(())
    }

    /// Asks the streaming loop to stop and gives what it sets and signals once it has, for the
    /// caller to wait for. Without a loop there is nothing to do and nothing to wait for.
    pub fn stop_streaming_loop(&mut self) -> (r: StreamResult<Option<Completion>>)
        ensures
            match old(self)@.canceller {
                None => r == Ok::<Option<Completion>, StreamError>(None) && *final(self) == *old(
                    self,
                ),
                Some(canceller) => exists|sent: Result<(), ()>|
                    {
                        &&& #[trigger] call_ensures(
                            oneshot::Sender::<()>::send,
                            (canceller, ()),
                            sent,
                        )
                        &&& r == old(self)@.stop_result(sent is Ok)
                        &&& final(self)@ == old(self)@.stopped(sent is Ok)
                        &&& final(self)@.canceller is None
                        &&& final(self)@.socket == old(self)@.socket
                        &&& sent is Ok ==> final(self)@.completing is None
                        &&& sent is Err ==> final(self)@.completing == old(self)@.completing
                        &&& sent is Ok && old(self)@.completing is Some ==> r == Ok::<
                            Option<Completion>,
                            StreamError,
                        >(old(self)@.completing)
                        &&& sent is Err || old(self)@.completing is None ==> r == Err::<
                            Option<Completion>,
                            StreamError,
                        >(StreamError::Disconnected)
                    },
            },
            old(self)@.wf() ==> final(self)@.wf(),
    {
        match self.cancellation_tx.take() {
            None => Ok(None),
            Some(canceller) => {
                let sent = canceller.send(());
                self.settle_stop(sent.is_ok())
            },
        }
    }

    /// Takes note that the loop has been asked to stop, where `reached` says whether the loop
    /// was there to be asked.
    pub fn settle_stop(&mut self, reached: bool) -> (r: StreamResult<Option<Completion>>)
        ensures
            r == old(self)@.stop_result(reached),
            final(self)@ == old(self)@.stopped(reached),
            final(self)@.canceller is None,
            final(self)@.socket == old(self)@.socket,
            reached ==> final(self)@.completing is None,
            !reached ==> final(self)@.completing == old(self)@.completing,
            reached && old(self)@.completing is Some ==> r == Ok::<Option<Completion>, StreamError>(
                old(self)@.completing,
            ),
            !reached || old(self)@.completing is None ==> r == Err::<
                Option<Completion>,
                StreamError,
            >(StreamError::Disconnected),
    {
        self.cancellation_tx = None;
        if !reached {
            return Err(StreamError::Disconnected);
        }
        match self.completion.take() {
            Some(completion) => Ok(Some(completion)),
            None => Err(StreamError::Disconnected),
        }
    }
}

/// A loop that has been started counts as running until it has ended, and no longer.
pub proof fn law_started_loop_runs_until_it_ends<S>(
    handle: HandleState<S>,
    canceller: oneshot::Sender<()>,
    completing: Completion,
)
    ensures
        handle.started(canceller, completing).running(false),
        !handle.started(canceller, completing).running(true),
        handle.started(canceller, completing).wf(),
        handle.started(canceller, completing).canceller == Some(canceller),
        handle.started(canceller, completing).completing == Some(completing),
        handle.started(canceller, completing).socket == handle.socket,
{
}

/// A loop counts as running as long as there is one to wait for that has not ended.
pub proof fn law_loop_runs_while_it_is_waited_for<S>(handle: HandleState<S>, completed: bool)
    ensures
        handle.running(completed) <==> handle.completing is Some && !completed,
{
}

/// A handle that has started no loop keeps its socket, has nothing to ask to stop and nothing to
/// wait for.
pub proof fn law_idle_handle_waits_for_nothing<S>(socket: S)
    ensures
        HandleState::idle(socket).socket == socket,
        HandleState::idle(socket).canceller is None,
        HandleState::idle(socket).completing is None,
        HandleState::idle(socket).wf(),
{
}

/// Stopping a loop that is there gives what there is to wait for. After that no loop counts as
/// running, so that another can be started, and the handle is as if it had started none.
pub proof fn law_stopped_handle_is_idle<S>(handle: HandleState<S>)
    requires
        handle.wf(),
        handle.canceller is Some,
    ensures
        handle.stop_result(true) == Ok::<Option<Completion>, StreamError>(handle.completing),
        handle.completing is Some,
        handle.stopped(true) == HandleState::idle(handle.socket),
        forall|completed: bool| !handle.stopped(true).running(completed),
        handle.stopped(true).socket == handle.socket,
        handle.stopped(true).canceller is None,
        handle.stopped(true).completing is None,
{
}

/// Stopping a loop that is gone without having ended properly is reported as an error, and the
/// loop goes on counting as running if it never said that it ended.
pub proof fn law_lost_loop_is_reported<S>(handle: HandleState<S>, completed: bool)
    ensures
        handle.stop_result(false) is Err,
        handle.stop_result(false) == Err::<Option<Completion>, StreamError>(
            StreamError::Disconnected,
        ),
        handle.stopped(false).canceller is None,
        handle.stopped(false).socket == handle.socket,
        handle.stopped(false).completing == handle.completing,
        handle.stopped(false).running(completed) == handle.running(completed),
{
}

} // verus!
