//! Streams that are shared between the guest and whoever manages the resource.
use super::read::{AsyncReadStream, ReadStateView};
use super::write::{AsyncWriteState, AsyncWriteStream, DrainStep};
use super::Task;
use crate::call::call2;
use crate::error::StreamError;
use std::sync::Arc;
use vstd::prelude::*;
use vstd::rwlock::{RwLock, RwLockPredicate, WriteHandle};

verus! {

/// What a shared stream was made with, which nobody changes: its limit and its
/// resource.
pub struct Made<IO> {
    pub limit: usize,
    pub resource: IO,
}

impl<IO> RwLockPredicate<AsyncReadStream<IO>> for Made<IO> {
    open spec fn inv(self, stream: AsyncReadStream<IO>) -> bool {
        &&& stream.max_read == self.limit
        &&& stream.state@ matches ReadStateView::Ready(io, _) ==> io == self.resource
    }
}

impl<IO> RwLockPredicate<AsyncWriteStream<IO>> for Made<IO> {
    open spec fn inv(self, stream: AsyncWriteStream<IO>) -> bool {
        &&& stream.max_write == self.limit
        &&& stream.state matches AsyncWriteState::Ready(io, _) ==> io == self.resource
    }
}

/// An input stream, held by the guest.
pub struct SharedAsyncReadStream<IO>(Arc<RwLock<AsyncReadStream<IO>, Made<IO>>>);

/// The same stream, held by whoever manages the resource.
pub struct SharedAsyncReadStreamHandle<IO>(Arc<RwLock<AsyncReadStream<IO>, Made<IO>>>);

/// A shared input stream, held exclusively until it is unlocked.
pub struct ReadStreamGuard<'a, IO> {
    pub stream: AsyncReadStream<IO>,
    pub handle: WriteHandle<'a, AsyncReadStream<IO>, Made<IO>>,
}

impl<'a, IO> ReadStreamGuard<'a, IO> {
    /// The lock that is held.
    pub open spec fn held(self) -> RwLock<AsyncReadStream<IO>, Made<IO>> {
        self.handle.rwlock()
    }

    /// The stream still has the limit it was made with and, where it is there,
    /// the resource.
    pub open spec fn is_valid(self) -> bool {
        self.held().inv(self.stream)
    }

    /// Lets others have the stream, as it is now.
    pub fn unlock(self)
        requires
            self.is_valid(),
    {
        let ReadStreamGuard { stream, handle } = self;
        handle.release_write(stream);
    }
}

impl<IO> SharedAsyncReadStream<IO> {
    /// The lock around the stream.
    pub closed spec fn shared(self) -> RwLock<AsyncReadStream<IO>, Made<IO>> {
        *self.0
    }

    /// The lock was made around an open stream over the resource, from which
    /// nothing was read yet.
    pub open spec fn is_made(self, max_read: usize, resource: IO) -> bool {
        &&& self.shared().pred() == (Made { limit: max_read, resource })
        &&& exists|stream: AsyncReadStream<IO>|
            {
                &&& stream.state@ == ReadStateView::Ready(resource, Seq::empty())
                &&& stream.max_read == max_read
                &&& #[trigger] call_ensures(
                    RwLock::<AsyncReadStream<IO>, Made<IO>>::new,
                    (stream, Ghost(Made { limit: max_read, resource })),
                    self.shared(),
                )
            }
    }

    /// Shares a new stream over the resource. What state a holder finds it in
    /// later depends on the others.
    pub fn new(max_read: usize, resource: IO) -> (r: SharedAsyncReadStream<IO>)
        ensures
            r.is_made(max_read, resource),
    {
        let ghost made = Made { limit: max_read, resource };
        let stream: AsyncReadStream<IO> = AsyncReadStream::new(max_read, resource);
        let lock: RwLock<AsyncReadStream<IO>, Made<IO>> = call2(
            RwLock::<AsyncReadStream<IO>, Made<IO>>::new,
            stream,
            Ghost(made),
        );
        SharedAsyncReadStream(Arc::new(lock))
    }

    /// Another holder of the same stream.
    pub fn handle(&self) -> (r: SharedAsyncReadStreamHandle<IO>)
        ensures
            r.shared() == self.shared(),
    {
        SharedAsyncReadStreamHandle(self.0.clone())
    }

    /// Holds the stream, in whatever state it is found.
    pub fn lock(&self) -> (r: ReadStreamGuard<'_, IO>)
        ensures
            r.held() == self.shared(),
            r.is_valid(),
    {
        let (stream, handle) = self.0.acquire_write();
        ReadStreamGuard { stream, handle }
    }
}

impl<IO> SharedAsyncReadStreamHandle<IO> {
    /// The lock around the stream.
    pub closed spec fn shared(self) -> RwLock<AsyncReadStream<IO>, Made<IO>> {
        *self.0
    }

    /// Holds the stream, in whatever state it is found.
    pub fn lock(&self) -> (r: ReadStreamGuard<'_, IO>)
        ensures
            r.held() == self.shared(),
            r.is_valid(),
    {
        let (stream, handle) = self.0.acquire_write();
        ReadStreamGuard { stream, handle }
    }

    /// Initiate cancellation of the stream, in whatever state it is found:
    /// see [`AsyncReadStream::cancel`]. Returns the task to abort, and the
    /// stream as it is left, still held.
    pub fn cancel(&self, error: StreamError) -> (r: (Option<Task>, ReadStreamGuard<'_, IO>))
        ensures
            r.1.held() == self.shared(),
            r.1.is_valid(),
            exists|found: AsyncReadStream<IO>| #[trigger]
                self.shared().inv(found) && {
                    &&& r.0 == match found.state@ {
                        ReadStateView::Reading(task) => Some(task),
                        _ => None,
                    }
                    &&& r.1.stream.state@ == found.state@.canceled(error)
                    &&& r.1.stream.max_read == found.max_read
                },
    {
        let mut guard: ReadStreamGuard<'_, IO> = self.lock();
        let ghost found = guard.stream;
        assert(self.shared().inv(found));
        let task: Option<Task> = guard.stream.cancel(error);
        (task, guard)
    }
}

/// An output stream, held by the guest.
pub struct SharedAsyncWriteStream<IO>(Arc<RwLock<AsyncWriteStream<IO>, Made<IO>>>);

/// The same stream, held by whoever manages the resource.
pub struct SharedAsyncWriteStreamHandle<IO>(Arc<RwLock<AsyncWriteStream<IO>, Made<IO>>>);

/// A shared output stream, held exclusively until it is unlocked.
pub struct WriteStreamGuard<'a, IO> {
    pub stream: AsyncWriteStream<IO>,
    pub handle: WriteHandle<'a, AsyncWriteStream<IO>, Made<IO>>,
}

impl<'a, IO> WriteStreamGuard<'a, IO> {
    /// The lock that is held.
    pub open spec fn held(self) -> RwLock<AsyncWriteStream<IO>, Made<IO>> {
        self.handle.rwlock()
    }

    /// The stream still has the limit it was made with and, where it is there,
    /// the resource.
    pub open spec fn is_valid(self) -> bool {
        self.held().inv(self.stream)
    }

    /// Lets others have the stream, as it is now.
    pub fn unlock(self)
        requires
            self.is_valid(),
    {
        let WriteStreamGuard { stream, handle } = self;
        handle.release_write(stream);
    }
}

impl<IO> SharedAsyncWriteStream<IO> {
    /// The lock around the stream.
    pub closed spec fn shared(self) -> RwLock<AsyncWriteStream<IO>, Made<IO>> {
        *self.0
    }

    /// The lock was made around an open stream over the resource, to which
    /// nothing may be written before it is asked how much.
    pub open spec fn is_made(self, max_write: usize, resource: IO) -> bool {
        &&& self.shared().pred() == (Made { limit: max_write, resource })
        &&& call_ensures(
            RwLock::<AsyncWriteStream<IO>, Made<IO>>::new,
            (
                AsyncWriteStream { state: AsyncWriteState::Ready(resource, 0), max_write },
                Ghost(Made { limit: max_write, resource }),
            ),
            self.shared(),
        )
    }

    /// Shares a new stream over the resource. What state a holder finds it in
    /// later depends on the others.
    pub fn new(max_write: usize, resource: IO) -> (r: SharedAsyncWriteStream<IO>)
        ensures
            r.is_made(max_write, resource),
    {
        let ghost made = Made { limit: max_write, resource };
        let stream: AsyncWriteStream<IO> = AsyncWriteStream::new(max_write, resource);
        let lock: RwLock<AsyncWriteStream<IO>, Made<IO>> = call2(
            RwLock::<AsyncWriteStream<IO>, Made<IO>>::new,
            stream,
            Ghost(made),
        );
        SharedAsyncWriteStream(Arc::new(lock))
    }

    /// Another holder of the same stream.
    pub fn handle(&self) -> (r: SharedAsyncWriteStreamHandle<IO>)
        ensures
            r.shared() == self.shared(),
    {
        SharedAsyncWriteStreamHandle(self.0.clone())
    }

    /// Holds the stream, in whatever state it is found.
    pub fn lock(&self) -> (r: WriteStreamGuard<'_, IO>)
        ensures
            r.held() == self.shared(),
            r.is_valid(),
    {
        let (stream, handle) = self.0.acquire_write();
        WriteStreamGuard { stream, handle }
    }
}

impl<IO> SharedAsyncWriteStreamHandle<IO> {
    /// The lock around the stream.
    pub closed spec fn shared(self) -> RwLock<AsyncWriteStream<IO>, Made<IO>> {
        *self.0
    }

    /// Holds the stream, in whatever state it is found.
    pub fn lock(&self) -> (r: WriteStreamGuard<'_, IO>)
        ensures
            r.held() == self.shared(),
            r.is_valid(),
    {
        let (stream, handle) = self.0.acquire_write();
        WriteStreamGuard { stream, handle }
    }

    /// `r` is what a shutdown of the stream comes to in the state in which it
    /// is found, and holds the stream as that leaves it.
    pub open spec fn shuts_down(self, r: Shutdown<IO>) -> bool {
        &&& r.guard.held() == self.shared()
        &&& r.guard.is_valid()
        &&& exists|found: AsyncWriteStream<IO>| #[trigger]
            self.shared().inv(found) && {
                &&& r.step == found.state.shutdown()
                &&& r.guard.stream == (AsyncWriteStream {
                    state: found.state.after_shutdown(),
                    ..found
                })
            }
    }

    /// Initiate graceful shutdown of the stream, in whatever state it is
    /// found: see [`AsyncWriteStream::shutdown`].
    pub fn shutdown(&self) -> (r: Shutdown<'_, IO>)
        ensures
            self.shuts_down(r),
    {
        let mut guard: WriteStreamGuard<'_, IO> = self.lock();
        let ghost found = guard.stream;
        assert(self.shared().inv(found));
        let step: DrainStep = guard.stream.shutdown();
        Shutdown { step, guard }
    }

    /// Initiate cancellation of the stream, in whatever state it is found:
    /// see [`AsyncWriteStream::cancel`]. Returns the task to abort, and the
    /// stream as it is left, still held.
    pub fn cancel(&self, error: StreamError) -> (r: (Option<Task>, WriteStreamGuard<'_, IO>))
        ensures
            r.1.held() == self.shared(),
            r.1.is_valid(),
            exists|found: AsyncWriteStream<IO>| #[trigger]
                self.shared().inv(found) && {
                    &&& r.0 == found.state.active()
                    &&& r.1.stream == (AsyncWriteStream {
                        state: found.state.canceled(error),
                        ..found
                    })
                },
    {
        let mut guard: WriteStreamGuard<'_, IO> = self.lock();
        let ghost found = guard.stream;
        assert(self.shared().inv(found));
        let task: Option<Task> = guard.stream.cancel(error);
        (task, guard)
    }
}

/// What a shutdown of a shared stream came to.
pub struct Shutdown<'a, IO> {
    /// What is to be done for it.
    pub step: DrainStep,
    /// The stream as it is left, still held.
    pub guard: WriteStreamGuard<'a, IO>,
}

/// A shared stream is made open, over its resource and with its limit, and its
/// handles are to that same stream.
pub proof fn law_shared_streams_begin_open(
    limit: usize,
    resource: u64,
    input: SharedAsyncReadStream<u64>,
    output: SharedAsyncWriteStream<u64>,
    reader: SharedAsyncReadStreamHandle<u64>,
    writer: SharedAsyncWriteStreamHandle<u64>,
)
    requires
        call_ensures(SharedAsyncReadStream::<u64>::new, (limit, resource), input),
        call_ensures(SharedAsyncWriteStream::<u64>::new, (limit, resource), output),
        call_ensures(SharedAsyncReadStream::<u64>::handle, (&input,), reader),
        call_ensures(SharedAsyncWriteStream::<u64>::handle, (&output,), writer),
    ensures
        reader.shared() == input.shared(),
        writer.shared() == output.shared(),
        input.shared().pred().limit == limit && input.shared().pred().resource == resource,
        output.shared().pred().limit == limit && output.shared().pred().resource == resource,
        exists|stream: AsyncReadStream<u64>|
            {
                &&& stream.max_read == limit
                &&& (stream.state@ matches ReadStateView::Ready(io, held) && io == resource
                    && held.len() == 0)
                &&& #[trigger] call_ensures(
                    RwLock::<AsyncReadStream<u64>, Made<u64>>::new,
                    (stream, Ghost(Made { limit, resource })),
                    input.shared(),
                )
            },
        call_ensures(
            RwLock::<AsyncWriteStream<u64>, Made<u64>>::new,
            (
                AsyncWriteStream { state: AsyncWriteState::Ready(resource, 0), max_write: limit },
                Ghost(Made { limit, resource }),
            ),
            output.shared(),
        ),
{
}

/// A stream keeps the limit and the resource that it was made with, whoever
/// holds it.
pub proof fn law_shared_streams_keep_what_they_were_made_with(
    made: Made<u64>,
    input: AsyncReadStream<u64>,
    output: AsyncWriteStream<u64>,
)
    requires
        made.inv(input),
        made.inv(output),
    ensures
        input.max_read == made.limit,
        output.max_write == made.limit,
        input.state@ matches ReadStateView::Ready(io, _) ==> io == made.resource,
        output.state matches AsyncWriteState::Ready(io, _) ==> io == made.resource,
{
}

/// A cancellation through a handle ends the stream that the handle is to,
/// whatever state it is found in, and leaves it held: it is not ready and
/// nothing is at work for it but a task that was told to wrap up, and that is
/// the task that is to be aborted.
pub proof fn law_handles_cancel_the_stream(
    reader: SharedAsyncReadStreamHandle<u64>,
    writer: SharedAsyncWriteStreamHandle<u64>,
    error: StreamError,
    r: (Option<Task>, ReadStreamGuard<'_, u64>),
    w: (Option<Task>, WriteStreamGuard<'_, u64>),
)
    requires
        call_ensures(SharedAsyncReadStreamHandle::<u64>::cancel, (&reader, error), r),
        call_ensures(SharedAsyncWriteStreamHandle::<u64>::cancel, (&writer, error), w),
    ensures
        r.1.held() == reader.shared(),
        w.1.held() == writer.shared(),
        r.1.stream.state@ is Canceling || r.1.stream.state@ is Closed,
        w.1.stream.state is Canceling || w.1.stream.state is Canceled || w.1.stream.state is Closed,
        r.0 matches Some(task) ==> r.1.stream.state@ == ReadStateView::<u64>::Canceling(task, error),
        w.0 matches Some(task) ==> w.1.stream.state == AsyncWriteState::<u64>::Canceling(
            task,
            error,
        ),
{
}

/// A shutdown through a handle is of the stream that the handle is to, whatever
/// state it is found in, and leaves it held: either it is there to be attempted
/// on, or it is closed or being closed.
pub proof fn law_handles_shut_the_stream_down(
    writer: SharedAsyncWriteStreamHandle<u64>,
    r: Shutdown<'_, u64>,
)
    requires
        call_ensures(SharedAsyncWriteStreamHandle::<u64>::shutdown, (&writer,), r),
    ensures
        r.guard.held() == writer.shared(),
        r.step is Try <==> r.guard.stream.state is Ready,
        !(r.step is Try) ==> r.guard.stream.state is Closing || r.guard.stream.state is Canceling
            || r.guard.stream.state is Canceled || r.guard.stream.state is Closed,
        r.step is SpawnAfter ==> r.guard.stream.state == AsyncWriteState::<u64>::Closed(
            StreamError::Closed,
        ),
        r.step matches DrainStep::Done(Err(e)) ==> e == StreamError::Closed,
        r.step matches DrainStep::Done(Ok(_)) ==> r.guard.stream.state is Closing
            || r.guard.stream.state is Canceling,
{
}

/// Whoever locks a stream holds that very stream, and finds it with what it was
/// made with.
pub proof fn law_locks_hold_their_stream(
    input: SharedAsyncReadStream<u64>,
    output: SharedAsyncWriteStream<u64>,
    reader: SharedAsyncReadStreamHandle<u64>,
    writer: SharedAsyncWriteStreamHandle<u64>,
    a: ReadStreamGuard<'_, u64>,
    b: WriteStreamGuard<'_, u64>,
    c: ReadStreamGuard<'_, u64>,
    d: WriteStreamGuard<'_, u64>,
)
    requires
        call_ensures(SharedAsyncReadStream::<u64>::lock, (&input,), a),
        call_ensures(SharedAsyncWriteStream::<u64>::lock, (&output,), b),
        call_ensures(SharedAsyncReadStreamHandle::<u64>::lock, (&reader,), c),
        call_ensures(SharedAsyncWriteStreamHandle::<u64>::lock, (&writer,), d),
    ensures
        a.handle.rwlock() == input.shared() && input.shared().inv(a.stream),
        b.handle.rwlock() == output.shared() && output.shared().inv(b.stream),
        c.handle.rwlock() == reader.shared() && reader.shared().inv(c.stream),
        d.handle.rwlock() == writer.shared() && writer.shared().inv(d.stream),
{
}

} // verus!
