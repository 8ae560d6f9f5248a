//! Request bodies and response streams.
//!
//! A request body is coerced to bytes. A response body is handed out either
//! whole or through a stream handle that yields it chunk by chunk:
//! [`SyncByteStream`] for the blocking transport, [`ByteStream`] for the
//! asynchronous one.
use vstd::prelude::*;
use vstd::string::*;
use vstd::utf8::encode_utf8;
use std::collections::VecDeque;
use crate::errors::{ErrorKind, TransportError};

verus! {

/// One chunk of a body given as an iterable.
pub enum BodyChunk {
    Bytes(Vec<u8>),
    Text(String),
    /// A chunk that is neither bytes nor text.
    Unsupported,
}

/// The body of a request, as the caller hands it over.
pub enum BodyInput {
    /// No body.
    Absent,
    Bytes(Vec<u8>),
    Text(String),
    /// An iterable of chunks, in its order.
    Chunks(Vec<BodyChunk>),
    /// A value of a type that cannot be a body.
    Unsupported,
}

/// The bytes of one chunk, if it is bytes or text.
pub open spec fn chunk_bytes(chunk: BodyChunk) -> Option<Seq<u8>> {
    match chunk {
        BodyChunk::Bytes(bytes) => Some(bytes@),
        BodyChunk::Text(text) => Some(encode_utf8(text@)),
        BodyChunk::Unsupported => None,
    }
}

/// The bytes of the chunks joined in order, if each of them is bytes or text.
pub open spec fn joined_chunks(chunks: Seq<BodyChunk>) -> Option<Seq<u8>>
    decreases chunks.len(),
{
    if chunks.len() == 0 {
        Some(Seq::empty())
    } else {
        match (joined_chunks(chunks.drop_last()), chunk_bytes(chunks.last())) {
            (Some(front), Some(last)) => Some(front + last),
            _ => None,
        }
    }
}

/// The bytes that a body is coerced to: none for an absent body, the bytes
/// themselves, the UTF-8 encoding of a text, the chunks of an iterable joined
/// in order. An iterable with an unsupported chunk and a body of an
/// unsupported type are local protocol errors.
pub open spec fn coerced_body(body: BodyInput) -> Result<Seq<u8>, (ErrorKind, Seq<char>)> {
    match body {
        BodyInput::Absent => Ok(Seq::empty()),
        BodyInput::Bytes(bytes) => Ok(bytes@),
        BodyInput::Text(text) => Ok(encode_utf8(text@)),
        BodyInput::Chunks(chunks) => match joined_chunks(chunks@) {
            Some(bytes) => Ok(bytes),
            None => Err(
                (ErrorKind::LocalProtocolError, "Body iterator must yield bytes or strings"@),
            ),
        },
        BodyInput::Unsupported => Err(
            (ErrorKind::LocalProtocolError, "Body must be bytes, string, or iterator"@),
        ),
    }
}

/// Once a prefix of the chunks cannot be joined, the whole cannot.
proof fn lemma_join_stops(chunks: Seq<BodyChunk>, upto: int)
    requires
        0 <= upto <= chunks.len(),
        joined_chunks(chunks.take(upto)) is None,
    ensures
        joined_chunks(chunks) is None,
    decreases chunks.len() - upto,
{
    if upto < chunks.len() {
        assert(chunks.take(upto + 1).drop_last() =~= chunks.take(upto));
        lemma_join_stops(chunks, upto + 1);
    } else {
        assert(chunks.take(upto) =~= chunks);
    }
}

/// Coerces the body of a request to bytes.
pub fn extract_body_from_python(body: &BodyInput) -> (bytes: Result<Vec<u8>, TransportError>)
    ensures
        match bytes {
            Ok(data) => coerced_body(*body) == Ok::<Seq<u8>, (ErrorKind, Seq<char>)>(data@),
            Err(err) => coerced_body(*body) == Err::<Seq<u8>, (ErrorKind, Seq<char>)>(err@),
        },
{
    match body {
        BodyInput::Absent => Ok(Vec::new()),
        BodyInput::Bytes(data) => Ok(data.clone()),
        BodyInput::Text(text) => Ok(text.as_str().as_bytes_vec()),
        BodyInput::Chunks(chunks) => {
            let mut data: Vec<u8> = Vec::new();
            let count: usize = chunks.len();
            let mut at: usize = 0;
            while at < count
                invariant
                    count == chunks.len(),
                    at <= count,
                    *body == BodyInput::Chunks(*chunks),
                    joined_chunks(chunks@.take(at as int)) == Some(data@),
                decreases count - at,
            {
                proof {
                    let next = chunks@.take(at + 1);
                    assert(next.drop_last() =~= chunks@.take(at as int));
                    assert(next.last() == chunks@[at as int]);
                }
                match &chunks[at] {
                    BodyChunk::Bytes(part) => {
                        data.extend_from_slice(part.as_slice());
                    },
                    BodyChunk::Text(part) => {
                        data.extend_from_slice(part.as_str().as_bytes());
                    },
                    BodyChunk::Unsupported => {
                        proof {
                            lemma_join_stops(chunks@, at + 1);
                        }
                        return Err(
                            TransportError::LocalProtocolError(
                                String::from_str("Body iterator must yield bytes or strings"),
                            ),
                        );
                    },
                }
                at += 1;
            }
            assert(chunks@.take(count as int) =~= chunks@);
            Ok(data)
        },
        BodyInput::Unsupported => Err(
            TransportError::LocalProtocolError(
                String::from_str("Body must be bytes, string, or iterator"),
            ),
        ),
    }
}

/// One result on its way through a stream: a chunk of the body, or the error
/// that ended the reading of the body.
pub type StreamItem = Result<Vec<u8>, TransportError>;

/// The model of a [`StreamItem`].
pub type ItemView = Result<Seq<u8>, (ErrorKind, Seq<char>)>;

/// The model of one item.
pub open spec fn item_view(item: StreamItem) -> ItemView {
    match item {
        Ok(bytes) => Ok(bytes@),
        Err(err) => Err(err@),
    }
}

/// The models of the items, one for one.
pub open spec fn items_view(items: Seq<StreamItem>) -> Seq<ItemView> {
    Seq::new(items.len(), |i: int| item_view(items[i]))
}

/// A copy of an item, equal to it in its model.
fn duplicate_item(item: &StreamItem) -> (copy: StreamItem)
    ensures
        item_view(copy) == item_view(*item),
{
    match item {
        Ok(bytes) => Ok(bytes.clone()),
        Err(err) => Err(err.duplicate()),
    }
}

/// What one read of a blocking stream gives: a chunk, the end of the stream
/// (`None`), or an error.
pub type ChunkRead = Result<Option<Vec<u8>>, TransportError>;

/// The model of a [`ChunkRead`].
pub open spec fn read_view(read: ChunkRead) -> Result<Option<Seq<u8>>, (ErrorKind, Seq<char>)> {
    match read {
        Ok(Some(bytes)) => Ok(Some(bytes@)),
        Ok(None) => Ok(None),
        Err(err) => Err(err@),
    }
}

/// One read of a sequence of items that are still to come: the first of them
/// is handed out and the rest stays; where none is left, the read reports the
/// end and nothing changes.
pub open spec fn sync_read(remaining: Seq<ItemView>) -> (
    Seq<ItemView>,
    Result<Option<Seq<u8>>, (ErrorKind, Seq<char>)>,
) {
    if remaining.len() == 0 {
        (remaining, Ok(None))
    } else {
        (
            remaining.drop_first(),
            match remaining[0] {
                Ok(bytes) => Ok(Some(bytes)),
                Err(err) => Err(err),
            },
        )
    }
}

/// The stream of a blocking response. The body was read in full before the
/// stream was made: it holds that one chunk, or the one error that the
/// reading ended with, and hands it out once.
pub struct SyncByteStream {
    bytes_vec: Vec<StreamItem>,
    index: usize,
}

impl View for SyncByteStream {
    type V = Seq<ItemView>;

    /// The items that are still to be read, in order.
    closed spec fn view(&self) -> Seq<ItemView> {
        items_view(self.bytes_vec@).skip(self.index as int)
    }
}

impl SyncByteStream {
    #[verifier::type_invariant]
    spec fn in_bounds(&self) -> bool {
        self.index <= self.bytes_vec@.len()
    }

    /// The stream over a body that was read in full: its one chunk, or the
    /// error that the reading ended with.
    pub fn from_response(body: StreamItem) -> (stream: SyncByteStream)
        ensures
            stream@ == seq![item_view(body)],
    {
        let mut bytes_vec: Vec<StreamItem> = Vec::new();
        bytes_vec.push(body);
        let stream = SyncByteStream { bytes_vec, index: 0 };
        assert(stream@ =~= seq![item_view(body)]);
        stream
    }

    /// Reads the next chunk. Once the end was reported, every further read
    /// reports it again.
    pub fn read_chunk(&mut self) -> (read: ChunkRead)
        ensures
            final(self)@ == sync_read(old(self)@).0,
            read_view(read) == sync_read(old(self)@).1,
    {
        proof {
            use_type_invariant(&*self);
        }
        if self.index >= self.bytes_vec.len() {
            assert(self@ =~= Seq::<ItemView>::empty());
            return Ok(None);
        }
        let item = duplicate_item(&self.bytes_vec[self.index]);
        assert(self@[0] == item_view(self.bytes_vec@[self.index as int]));
        self.index += 1;
        assert(self@ =~= old(self)@.drop_first());
        match item {
            Ok(bytes) => Ok(Some(bytes)),
            Err(err) => Err(err),
        }
    }
}

/// Reading a blocking stream that holds a chunk gives the chunk and then the
/// end, and reading one that holds an error gives the error and then the end;
/// after that every read gives the end.
pub proof fn sync_stream_reads_once(body: ItemView)
    ensures
        sync_read(seq![body]).0 == Seq::<ItemView>::empty(),
        sync_read(seq![body]).1 == match body {
            Ok(bytes) => Ok::<Option<Seq<u8>>, (ErrorKind, Seq<char>)>(Some(bytes)),
            Err(err) => Err::<Option<Seq<u8>>, (ErrorKind, Seq<char>)>(err),
        },
        sync_read(Seq::<ItemView>::empty()) == (
            Seq::<ItemView>::empty(),
            Ok::<Option<Seq<u8>>, (ErrorKind, Seq<char>)>(None),
        ),
{
    assert(seq![body].drop_first() =~= Seq::<ItemView>::empty());
}

/// The largest number of results that wait in the queue of a stream.
pub const STREAM_CAPACITY: usize = 32;

/// The model of a [`ByteStream`]: a bounded queue between one producer and
/// one consumer.
pub struct Bridge {
    /// What the producer has pushed and the consumer has not read yet.
    pub queued: Seq<ItemView>,
    /// What the producer of an in-memory stream still has to push.
    pub backlog: Seq<ItemView>,
    /// The producer has pushed all it had.
    pub finished: bool,
    /// The consumer has given up the stream.
    pub abandoned: bool,
    /// The consumer was handed an error or the end of the stream.
    pub exhausted: bool,
}

/// The model of what one read of a stream gives.
pub enum Poll {
    /// The next chunk.
    Chunk(Seq<u8>),
    /// The error that ended the stream.
    Failed((ErrorKind, Seq<char>)),
    /// Nothing yet: the consumer has to wait for the producer.
    Pending,
    /// The end of the stream.
    End,
}

/// The model of what one push into a stream gives.
pub enum Pushed {
    /// The item is in the queue.
    Queued,
    /// The queue is full: the producer has to wait for the consumer.
    Full,
    /// The stream takes no more items: the producer has to stop.
    Closed,
}

/// What the producer of a stream has to do next.
#[derive(Clone, Copy, Debug, PartialEq, Eq, Structural)]
pub enum ProducerAction {
    /// Go on pushing once the consumer has made room.
    Wait,
    /// Nothing is left to push: the producer is done.
    Done,
    /// Nobody reads the stream any more: the producer stops.
    Stop,
}

impl Bridge {
    /// The queue is within its capacity, a finished producer has nothing
    /// left, and a stream that nobody reads any more holds nothing.
    pub open spec fn wf(self) -> bool {
        &&& self.queued.len() <= STREAM_CAPACITY
        &&& self.finished ==> self.backlog.len() == 0
        &&& self.abandoned || self.exhausted ==> self.queued.len() == 0 && self.backlog.len()
            == 0
    }

    /// Nobody reads the stream any more.
    pub open spec fn unread(self) -> bool {
        self.abandoned || self.exhausted
    }

    /// Everything that is still to be read, in order.
    pub open spec fn pending(self) -> Seq<ItemView> {
        self.queued + self.backlog
    }

    /// A stream that a producer outside the library feeds.
    pub open spec fn open() -> Bridge {
        Bridge {
            queued: Seq::empty(),
            backlog: Seq::empty(),
            finished: false,
            abandoned: false,
            exhausted: false,
        }
    }

    /// A stream over items that are all there from the start.
    pub open spec fn in_memory(items: Seq<ItemView>) -> Bridge {
        Bridge {
            queued: Seq::empty(),
            backlog: items,
            finished: items.len() == 0,
            abandoned: false,
            exhausted: false,
        }
    }

    /// How many items of the backlog fit into the queue.
    pub open spec fn room(self) -> int {
        if self.backlog.len() <= STREAM_CAPACITY - self.queued.len() {
            self.backlog.len() as int
        } else {
            STREAM_CAPACITY - self.queued.len()
        }
    }

    /// The turn of the in-memory producer: as much of the backlog as fits is
    /// pushed, in order, and the producer has finished once nothing is left.
    /// A stream that nobody reads any more is left alone.
    pub open spec fn pump(self) -> Bridge {
        if self.unread() || self.backlog.len() == 0 {
            self
        } else {
            Bridge {
                queued: self.queued + self.backlog.take(self.room()),
                backlog: self.backlog.skip(self.room()),
                finished: self.room() == self.backlog.len(),
                abandoned: self.abandoned,
                exhausted: self.exhausted,
            }
        }
    }

    /// What the producer has to do after its turn.
    pub open spec fn next_action(self) -> ProducerAction {
        if self.unread() {
            ProducerAction::Stop
        } else if self.finished {
            ProducerAction::Done
        } else {
            ProducerAction::Wait
        }
    }

    /// Whether the stream takes items from a producer outside the library.
    pub open spec fn accepts(self) -> bool {
        !self.unread() && !self.finished && self.backlog.len() == 0
    }

    /// One push by a producer outside the library.
    pub open spec fn push(self, item: ItemView) -> (Bridge, Pushed) {
        if !self.accepts() {
            (self, Pushed::Closed)
        } else if self.queued.len() >= STREAM_CAPACITY {
            (self, Pushed::Full)
        } else {
            (
                Bridge {
                    queued: self.queued.push(item),
                    backlog: self.backlog,
                    finished: self.finished,
                    abandoned: self.abandoned,
                    exhausted: self.exhausted,
                },
                Pushed::Queued,
            )
        }
    }

    /// The producer outside the library reports that it has pushed all it
    /// had.
    pub open spec fn finish(self) -> Bridge {
        if !self.accepts() {
            self
        } else {
            Bridge {
                queued: self.queued,
                backlog: self.backlog,
                finished: true,
                abandoned: self.abandoned,
                exhausted: self.exhausted,
            }
        }
    }

    /// One read. An exhausted stream reports the end and does not change.
    /// Otherwise the in-memory producer has its turn; then the first item of
    /// the queue is handed out, and an error among them exhausts the stream;
    /// an empty queue is the end where the producer has finished, and a
    /// reason to wait where it has not.
    pub open spec fn read(self) -> (Bridge, Poll) {
        if self.unread() {
            (self, Poll::End)
        } else if self.pump().queued.len() > 0 {
            match self.pump().queued[0] {
                Ok(bytes) => (
                    Bridge {
                        queued: self.pump().queued.drop_first(),
                        backlog: self.pump().backlog,
                        finished: self.pump().finished,
                        abandoned: false,
                        exhausted: false,
                    },
                    Poll::Chunk(bytes),
                ),
                Err(err) => (
                    Bridge {
                        queued: Seq::empty(),
                        backlog: Seq::empty(),
                        finished: self.pump().finished,
                        abandoned: false,
                        exhausted: true,
                    },
                    Poll::Failed(err),
                ),
            }
        } else if self.pump().finished {
            (
                Bridge {
                    queued: Seq::empty(),
                    backlog: Seq::empty(),
                    finished: true,
                    abandoned: false,
                    exhausted: true,
                },
                Poll::End,
            )
        } else {
            (self.pump(), Poll::Pending)
        }
    }

    /// The consumer gives up the stream: what was not read is dropped.
    pub open spec fn abandon(self) -> Bridge {
        Bridge {
            queued: Seq::empty(),
            backlog: Seq::empty(),
            finished: self.finished,
            abandoned: true,
            exhausted: self.exhausted,
        }
    }

    /// The stream after `count` reads.
    pub open spec fn after_reads(self, count: nat) -> Bridge
        decreases count,
    {
        if count == 0 {
            self
        } else {
            self.after_reads((count - 1) as nat).read().0
        }
    }

    /// The stream after the items were pushed one after the other, from the
    /// first to the last.
    pub open spec fn after_pushes(self, items: Seq<ItemView>) -> Bridge
        decreases items.len(),
    {
        if items.len() == 0 {
            self
        } else {
            self.after_pushes(items.drop_last()).push(items.last()).0
        }
    }

    /// The stream comes to its end without a producer outside the library:
    /// its producer has finished, or is the in-memory producer.
    pub open spec fn ends(self) -> bool {
        self.finished || self.backlog.len() > 0
    }
}

/// What one read of a [`ByteStream`] gives.
pub enum StreamPoll {
    /// The next chunk.
    Chunk(Vec<u8>),
    /// The error that ended the stream.
    Failed(TransportError),
    /// Nothing yet: the consumer has to wait for the producer.
    Pending,
    /// The end of the stream.
    End,
}

impl View for StreamPoll {
    type V = Poll;

    open spec fn view(&self) -> Poll {
        match self {
            StreamPoll::Chunk(bytes) => Poll::Chunk(bytes@),
            StreamPoll::Failed(err) => Poll::Failed(err@),
            StreamPoll::Pending => Poll::Pending,
            StreamPoll::End => Poll::End,
        }
    }
}

/// What one push into a [`ByteStream`] gives. An item that was not taken is
/// handed back.
pub enum PushOutcome {
    /// The item is in the queue.
    Queued,
    /// The queue is full: the producer has to wait for the consumer.
    Full(StreamItem),
    /// The stream takes no more items: the producer has to stop.
    Closed(StreamItem),
}

impl PushOutcome {
    /// The outcome without the item.
    pub open spec fn tag(self) -> Pushed {
        match self {
            PushOutcome::Queued => Pushed::Queued,
            PushOutcome::Full(_) => Pushed::Full,
            PushOutcome::Closed(_) => Pushed::Closed,
        }
    }

    /// The item that was handed back, if one was.
    pub open spec fn returned(self) -> Option<StreamItem> {
        match self {
            PushOutcome::Queued => None,
            PushOutcome::Full(item) => Some(item),
            PushOutcome::Closed(item) => Some(item),
        }
    }
}

/// The fields of a stream.
struct StreamState {
    queue: VecDeque<StreamItem>,
    backlog: VecDeque<StreamItem>,
    finished: bool,
    abandoned: bool,
    exhausted: bool,
}

impl StreamState {
    spec fn model(&self) -> Bridge {
        Bridge {
            queued: items_view(self.queue@),
            backlog: items_view(self.backlog@),
            finished: self.finished,
            abandoned: self.abandoned,
            exhausted: self.exhausted,
        }
    }

    fn empty() -> (state: StreamState)
        ensures
            state.model() == Bridge::open(),
    {
        let state = StreamState {
            queue: VecDeque::new(),
            backlog: VecDeque::new(),
            finished: false,
            abandoned: false,
            exhausted: false,
        };
        assert(state.model().queued =~= Seq::<ItemView>::empty());
        assert(state.model().backlog =~= Seq::<ItemView>::empty());
        state
    }

    fn pump(&mut self)
        requires
            old(self).model().wf(),
        ensures
            final(self).model() == old(self).model().pump(),
            final(self).model().wf(),
    {
        let ghost before = self.model();
        if self.abandoned || self.exhausted || self.backlog.len() == 0 {
            return ;
        }
        let ghost room = before.room();
        let mut moved: usize = 0;
        while self.queue.len() < STREAM_CAPACITY && self.backlog.len() > 0
            invariant
                0 <= moved <= room,
                before.wf(),
                room == before.room(),
                self.finished == before.finished,
                self.abandoned == before.abandoned,
                self.exhausted == before.exhausted,
                items_view(self.queue@) == before.queued + before.backlog.take(moved as int),
                items_view(self.backlog@) == before.backlog.skip(moved as int),
                moved < room <==> self.queue@.len() < STREAM_CAPACITY && self.backlog@.len() > 0,
            decreases self.backlog@.len(),
        {
            let ghost queue_before = self.queue@;
            let ghost backlog_before = self.backlog@;
            let item = self.backlog.pop_front().unwrap();
            self.queue.push_back(item);
            proof {
                assert(item_view(item) == before.backlog[moved as int]) by {
                    assert(items_view(backlog_before)[0] == before.backlog.skip(moved as int)[0]);
                }
                assert(items_view(self.queue@) =~= items_view(queue_before).push(item_view(item)));
                assert(before.backlog.take(moved + 1) =~= before.backlog.take(moved as int).push(
                    before.backlog[moved as int],
                ));
                assert(items_view(self.queue@) =~= before.queued + before.backlog.take(moved + 1));
                assert(items_view(self.backlog@) =~= items_view(backlog_before).drop_first());
                assert(items_view(self.backlog@) =~= before.backlog.skip(moved + 1));
            }
            moved += 1;
        }
        self.finished = self.backlog.len() == 0;
    }

    fn push(&mut self, item: StreamItem) -> (outcome: PushOutcome)
        requires
            old(self).model().wf(),
        ensures
            final(self).model() == old(self).model().push(item_view(item)).0,
            outcome.tag() == old(self).model().push(item_view(item)).1,
            outcome.returned() is Some ==> outcome.returned()->0 == item,
            final(self).model().wf(),
    {
        if self.abandoned || self.exhausted || self.finished || self.backlog.len() > 0 {
            return PushOutcome::Closed(item);
        }
        if self.queue.len() >= STREAM_CAPACITY {
            return PushOutcome::Full(item);
        }
        let ghost queue_before = self.queue@;
        self.queue.push_back(item);
        assert(items_view(self.queue@) =~= items_view(queue_before).push(item_view(item)));
        PushOutcome::Queued
    }

    fn read(&mut self) -> (poll: StreamPoll)
        requires
            old(self).model().wf(),
        ensures
            final(self).model() == old(self).model().read().0,
            poll@ == old(self).model().read().1,
            final(self).model().wf(),
    {
        if self.abandoned || self.exhausted {
            return StreamPoll::End;
        }
        self.pump();
        let ghost pumped = self.model();
        let ghost queue_before = self.queue@;
        match self.queue.pop_front() {
            Some(Ok(bytes)) => {
                assert(items_view(queue_before)[0] == item_view(queue_before[0]));
                assert(items_view(self.queue@) =~= pumped.queued.drop_first());
                StreamPoll::Chunk(bytes)
            },
            Some(Err(err)) => {
                assert(items_view(queue_before)[0] == item_view(queue_before[0]));
                self.queue = VecDeque::new();
                self.backlog = VecDeque::new();
                self.exhausted = true;
                assert(items_view(self.queue@) =~= Seq::<ItemView>::empty());
                assert(items_view(self.backlog@) =~= Seq::<ItemView>::empty());
                StreamPoll::Failed(err)
            },
            None => {
                assert(pumped.queued.len() == 0);
                if self.finished {
                    self.exhausted = true;
                    assert(items_view(self.queue@) =~= Seq::<ItemView>::empty());
                    assert(items_view(self.backlog@) =~= Seq::<ItemView>::empty());
                    StreamPoll::End
                } else {
                    StreamPoll::Pending
                }
            },
        }
    }
}

/// The stream of an asynchronous response: a bounded queue between the
/// producer that reads the body and the consumer that reads the stream.
pub struct ByteStream {
    state: StreamState,
}

impl View for ByteStream {
    type V = Bridge;

    closed spec fn view(&self) -> Bridge {
        self.state.model()
    }
}

impl ByteStream {
    #[verifier::type_invariant]
    spec fn valid(&self) -> bool {
        self.state.model().wf()
    }

    /// The stream of a body that arrives from the network: it is empty, and
    /// the task that reads the body pushes into it.
    pub fn from_response() -> (stream: ByteStream)
        ensures
            stream@ == Bridge::open(),
    {
        ByteStream { state: StreamState::empty() }
    }

    /// The stream of a body whose chunks are all there: they will be read in
    /// the order given.
    pub fn from_bytes_iter(items: Vec<StreamItem>) -> (stream: ByteStream)
        ensures
            stream@ == Bridge::in_memory(items_view(items@)),
    {
        let mut items = items;
        let ghost all = items@;
        let mut backlog: VecDeque<StreamItem> = VecDeque::new();
        while items.len() > 0
            invariant
                items@.len() <= all.len(),
                items@ == all.take(items@.len() as int),
                backlog@ == all.skip(items@.len() as int),
            decreases items@.len(),
        {
            let ghost items_before = items@;
            let ghost backlog_before = backlog@;
            let item = items.pop().unwrap();
            backlog.push_front(item);
            proof {
                assert(item == all[items@.len() as int]) by {
                    assert(items_before[items_before.len() - 1] == all.take(
                        items_before.len() as int,
                    )[items_before.len() - 1]);
                }
                assert(items@ =~= all.take(items@.len() as int));
                assert(backlog@ =~= all.skip(items@.len() as int));
            }
        }
        assert(backlog@ =~= all);
        let finished = backlog.len() == 0;
        let state = StreamState {
            queue: VecDeque::new(),
            backlog,
            finished,
            abandoned: false,
            exhausted: false,
        };
        assert(state.model().queued =~= Seq::<ItemView>::empty());
        ByteStream { state }
    }

    /// The turn of the in-memory producer: it pushes as much of what it still
    /// has as the queue takes, and is told what to do next.
    pub fn pump(&mut self) -> (action: ProducerAction)
        ensures
            final(self)@ == old(self)@.pump(),
            action == final(self)@.next_action(),
            final(self)@.wf(),
    {
        proof {
            use_type_invariant(&*self);
        }
        let mut state = StreamState::empty();
        std::mem::swap(&mut self.state, &mut state);
        state.pump();
        let action = if state.abandoned || state.exhausted {
            ProducerAction::Stop
        } else if state.finished {
            ProducerAction::Done
        } else {
            ProducerAction::Wait
        };
        self.state = state;
        action
    }

    /// One push by the task that reads the body. The item goes to the end of
    /// the queue, unless the queue is full or the stream takes no more items;
    /// it is then handed back.
    pub fn push(&mut self, item: StreamItem) -> (outcome: PushOutcome)
        ensures
            final(self)@ == old(self)@.push(item_view(item)).0,
            outcome.tag() == old(self)@.push(item_view(item)).1,
            outcome.returned() is Some ==> outcome.returned()->0 == item,
            final(self)@.wf(),
    {
        proof {
            use_type_invariant(&*self);
        }
        let mut state = StreamState::empty();
        std::mem::swap(&mut self.state, &mut state);
        let outcome = state.push(item);
        self.state = state;
        outcome
    }

    /// The task that reads the body reports that the body has ended.
    pub fn finish(&mut self)
        ensures
            final(self)@ == old(self)@.finish(),
            final(self)@.wf(),
    {
        proof {
            use_type_invariant(&*self);
        }
        let mut state = StreamState::empty();
        std::mem::swap(&mut self.state, &mut state);
        if !(state.abandoned || state.exhausted || state.finished || state.backlog.len() > 0) {
            state.finished = true;
        }
        self.state = state;
    }

    /// Reads the next chunk. Once an error or the end was handed out, every
    /// further read reports the end.
    pub fn read_chunk(&mut self) -> (poll: StreamPoll)
        ensures
            final(self)@ == old(self)@.read().0,
            poll@ == old(self)@.read().1,
            final(self)@.wf(),
    {
        proof {
            use_type_invariant(&*self);
        }
        let mut state = StreamState::empty();
        std::mem::swap(&mut self.state, &mut state);
        let poll = state.read();
        self.state = state;
        poll
    }

    /// The consumer gives up the stream. What was not read is dropped, and
    /// the producer is told to stop at its next push or turn.
    pub fn abandon(&mut self)
        ensures
            final(self)@ == old(self)@.abandon(),
            final(self)@.wf(),
    {
        proof {
            use_type_invariant(&*self);
        }
        let finished = self.state.finished;
        let exhausted = self.state.exhausted;
        let state = StreamState {
            queue: VecDeque::new(),
            backlog: VecDeque::new(),
            finished,
            abandoned: true,
            exhausted,
        };
        assert(state.model().queued =~= Seq::<ItemView>::empty());
        assert(state.model().backlog =~= Seq::<ItemView>::empty());
        self.state = state;
    }

    /// How many results wait in the queue: never more than
    /// `STREAM_CAPACITY`.
    pub fn queued_len(&self) -> (count: usize)
        ensures
            count == self@.queued.len(),
            count <= STREAM_CAPACITY,
    {
        proof {
            use_type_invariant(self);
        }
        self.state.queue.len()
    }
}

/// Every step of a stream keeps it well-formed; in particular the queue
/// never holds more than `STREAM_CAPACITY` results.
pub proof fn stream_stays_well_formed(stream: Bridge, item: ItemView)
    requires
        stream.wf(),
    ensures
        stream.pump().wf(),
        stream.push(item).0.wf(),
        stream.finish().wf(),
        stream.read().0.wf(),
        stream.abandon().wf(),
{
}

/// The turn of the producer changes neither what is still to be read nor its
/// order, and leaves something in the queue where anything is still to be
/// read.
pub proof fn pump_keeps_order(stream: Bridge)
    requires
        stream.wf(),
        !stream.unread(),
    ensures
        stream.pump().pending() == stream.pending(),
        stream.pending().len() > 0 ==> stream.pump().queued.len() > 0,
        stream.pump().queued.len() > 0 ==> stream.pump().queued[0] == stream.pending()[0],
{
    if stream.backlog.len() > 0 {
        let room = stream.room();
        assert(stream.backlog.take(room) + stream.backlog.skip(room) =~= stream.backlog);
        assert(stream.pump().pending() =~= stream.pending());
        if stream.queued.len() == 0 {
            assert(room > 0);
        }
    }
}

/// A read hands out the first of what is still to be read and leaves the
/// rest in its order: a chunk is handed out as it is, and an error exhausts
/// the stream. Where nothing is left, the read reports the end if the
/// producer has finished and tells the consumer to wait if it has not.
pub proof fn read_hands_out_the_first(stream: Bridge)
    requires
        stream.wf(),
        !stream.unread(),
    ensures
        stream.pending().len() > 0 ==> match stream.pending()[0] {
            Ok(bytes) => stream.read().1 == Poll::Chunk(bytes) && stream.read().0.pending()
                == stream.pending().drop_first() && !stream.read().0.unread(),
            Err(err) => stream.read().1 == Poll::Failed(err) && stream.read().0.exhausted,
        },
        stream.pending().len() == 0 && stream.finished ==> stream.read().1 == Poll::End
            && stream.read().0.exhausted,
        stream.pending().len() == 0 && !stream.finished ==> stream.read() == (
            stream,
            Poll::Pending,
        ),
{
    pump_keeps_order(stream);
    if stream.pending().len() > 0 {
        assert(stream.read().0.pending() =~= stream.pump().pending().drop_first()
            || stream.pending()[0] is Err);
    } else {
        assert(stream.queued.len() == 0 && stream.backlog.len() == 0);
    }
}

/// Exhaustion is final: a stream that has handed out an error or the end, or
/// that its consumer gave up, reports the end at every read and does not
/// change.
pub proof fn exhausted_stream_stays_exhausted(stream: Bridge, reads: nat)
    requires
        stream.unread(),
    ensures
        stream.after_reads(reads) == stream,
        stream.after_reads(reads).read().1 == Poll::End,
    decreases reads,
{
    if reads > 0 {
        exhausted_stream_stays_exhausted(stream, (reads - 1) as nat);
    }
}

/// The state of a stream that started as `start` while only chunks have been
/// read: `done` of them are gone and the rest is still to be read, in order.
spec fn reading(start: Bridge, now: Bridge, done: int) -> bool {
    &&& now.wf()
    &&& !now.unread()
    &&& now.pending() == start.pending().skip(done)
    &&& now.backlog.len() <= start.backlog.len()
    &&& now.backlog.len() == 0 ==> now.finished == start.ends()
}

proof fn lemma_reads_of_chunks(start: Bridge, chunks: int, reads: nat)
    requires
        start.wf(),
        !start.unread(),
        0 <= chunks <= start.pending().len(),
        forall|i: int| 0 <= i < chunks ==> (#[trigger] start.pending()[i]) is Ok,
        reads <= chunks,
    ensures
        reading(start, start.after_reads(reads), reads as int),
    decreases reads,
{
    let items = start.pending();
    if reads == 0 {
        assert(items.skip(0) =~= items);
    } else {
        lemma_reads_of_chunks(start, chunks, (reads - 1) as nat);
        let before = start.after_reads((reads - 1) as nat);
        pump_keeps_order(before);
        assert(before.pending()[0] == items[reads - 1]);
        let after = before.read().0;
        assert(after.pending() =~= before.pump().pending().drop_first());
        assert(after.pending() =~= items.skip(reads as int));
    }
}

/// A stream that tells its consumer to wait, and is not pushed into, tells it
/// to wait at every further read.
proof fn lemma_waiting_stays(stream: Bridge, reads: nat)
    requires
        stream.read() == (stream, Poll::Pending),
    ensures
        stream.after_reads(reads) == stream,
    decreases reads,
{
    if reads > 0 {
        lemma_waiting_stays(stream, (reads - 1) as nat);
    }
}

/// A stream hands out what is still to be read in its order. Where the first
/// `chunks` of the items that are still to be read are chunks and the next,
/// if there is one, is an error: read number `reads` hands out chunk number
/// `reads` while chunks are left, then the error if there is one and the end
/// ever after. Without an error the reads that follow the chunks report the
/// end where the stream ends by itself, and tell the consumer to wait where
/// a producer outside has yet to finish.
pub proof fn stream_reads_in_order(start: Bridge, chunks: int, reads: nat)
    requires
        start.wf(),
        !start.unread(),
        0 <= chunks <= start.pending().len(),
        forall|i: int| 0 <= i < chunks ==> (#[trigger] start.pending()[i]) is Ok,
        chunks < start.pending().len() ==> start.pending()[chunks] is Err,
    ensures
        start.after_reads(reads).read().1 == if reads < chunks {
            Poll::Chunk(start.pending()[reads as int]->Ok_0)
        } else if chunks < start.pending().len() {
            if reads == chunks {
                Poll::Failed(start.pending()[chunks]->Err_0)
            } else {
                Poll::End
            }
        } else if start.ends() {
            Poll::End
        } else {
            Poll::Pending
        },
{
    let items = start.pending();
    if reads <= chunks {
        lemma_reads_of_chunks(start, chunks, reads);
        let now = start.after_reads(reads);
        pump_keeps_order(now);
        if reads < items.len() {
            assert(now.pending()[0] == items[reads as int]);
        } else {
            assert(now.pending().len() == 0);
            assert(now.queued.len() == 0 && now.backlog.len() == 0);
        }
    } else {
        lemma_reads_of_chunks(start, chunks, chunks as nat);
        let last = start.after_reads(chunks as nat);
        pump_keeps_order(last);
        if chunks < items.len() {
            assert(last.pending()[0] == items[chunks]);
        } else {
            assert(last.pending().len() == 0);
            assert(last.queued.len() == 0 && last.backlog.len() == 0);
        }
        if chunks < items.len() || start.ends() {
            let ended = last.read().0;
            assert(ended.unread());
            lemma_after_reads_split(start, chunks as nat + 1, (reads - chunks - 1) as nat);
            assert(start.after_reads(chunks as nat + 1) == ended);
            exhausted_stream_stays_exhausted(ended, (reads - chunks - 1) as nat);
        } else {
            assert(last.read() == (last, Poll::Pending));
            lemma_after_reads_split(start, chunks as nat, (reads - chunks) as nat);
            lemma_waiting_stays(last, (reads - chunks) as nat);
        }
    }
}

/// An in-memory stream hands out its items in the order given. Where the
/// first `chunks` items are chunks and the next, if there is one, is an
/// error: read number `reads` hands out chunk number `reads` while chunks are
/// left, then the error if there is one, and the end ever after.
pub proof fn in_memory_stream_reads_in_order(items: Seq<ItemView>, chunks: int, reads: nat)
    requires
        0 <= chunks <= items.len(),
        forall|i: int| 0 <= i < chunks ==> (#[trigger] items[i]) is Ok,
        chunks < items.len() ==> items[chunks] is Err,
    ensures
        Bridge::in_memory(items).after_reads(reads).read().1 == if reads < chunks {
            Poll::Chunk(items[reads as int]->Ok_0)
        } else if reads == chunks && chunks < items.len() {
            Poll::Failed(items[chunks]->Err_0)
        } else {
            Poll::End
        },
{
    let start = Bridge::in_memory(items);
    assert(start.pending() =~= items);
    stream_reads_in_order(start, chunks, reads);
}

/// Pushes into an empty stream that its capacity allows are all taken, and
/// the items wait in the queue in the order of the pushes.
pub proof fn pushes_are_queued_in_order(items: Seq<ItemView>)
    requires
        items.len() <= STREAM_CAPACITY,
    ensures
        Bridge::open().after_pushes(items) == (Bridge {
            queued: items,
            backlog: Seq::empty(),
            finished: false,
            abandoned: false,
            exhausted: false,
        }),
        items.len() > 0 ==> Bridge::open().after_pushes(items.drop_last()).push(items.last()).1
            == Pushed::Queued,
    decreases items.len(),
{
    if items.len() == 0 {
        assert(Bridge::open().queued =~= items);
    } else {
        pushes_are_queued_in_order(items.drop_last());
        assert(items.drop_last().push(items.last()) =~= items);
    }
}

/// A stream that is fed by pushes hands out what was pushed, in the order of
/// the pushes. Where no more items are pushed than the capacity allows, the
/// first `chunks` of them are chunks and the next, if there is one, is an
/// error: read number `reads` hands out chunk number `reads` while chunks are
/// left, then the error if there is one and the end ever after. Without an
/// error the reads that follow the chunks report the end where the producer
/// has reported it, and tell the consumer to wait where it has not.
pub proof fn pushed_stream_reads_in_order(
    items: Seq<ItemView>,
    chunks: int,
    finished: bool,
    reads: nat,
)
    requires
        items.len() <= STREAM_CAPACITY,
        0 <= chunks <= items.len(),
        forall|i: int| 0 <= i < chunks ==> (#[trigger] items[i]) is Ok,
        chunks < items.len() ==> items[chunks] is Err,
    ensures
        ({
            let fed = Bridge::open().after_pushes(items);
            let start = if finished {
                fed.finish()
            } else {
                fed
            };
            start.after_reads(reads).read().1 == if reads < chunks {
                Poll::Chunk(items[reads as int]->Ok_0)
            } else if chunks < items.len() {
                if reads == chunks {
                    Poll::Failed(items[chunks]->Err_0)
                } else {
                    Poll::End
                }
            } else if finished {
                Poll::End
            } else {
                Poll::Pending
            }
        }),
{
    pushes_are_queued_in_order(items);
    let fed = Bridge::open().after_pushes(items);
    let start = if finished {
        fed.finish()
    } else {
        fed
    };
    assert(start.pending() =~= items);
    stream_reads_in_order(start, chunks, reads);
}

/// Reading `first` times and then `then` times is reading `first + then`
/// times.
proof fn lemma_after_reads_split(stream: Bridge, first: nat, then: nat)
    ensures
        stream.after_reads(first + then) == stream.after_reads(first).after_reads(then),
    decreases then,
{
    if then > 0 {
        lemma_after_reads_split(stream, first, (then - 1) as nat);
    }
}

/// A producer whose consumer is gone stops: once the consumer has given up
/// the stream, nothing waits in it, every push is refused, the producer's
/// turn moves nothing and tells it to stop, and this stays so.
pub proof fn abandoned_stream_stops_producer(stream: Bridge, item: ItemView)
    requires
        stream.wf(),
    ensures
        stream.abandon().pending().len() == 0,
        stream.abandon().push(item) == (stream.abandon(), Pushed::Closed),
        stream.abandon().pump() == stream.abandon(),
        stream.abandon().pump().next_action() == ProducerAction::Stop,
        stream.abandon().finish() == stream.abandon(),
        stream.abandon().read() == (stream.abandon(), Poll::End),
{
}

/// A stream fed from outside hands out what was pushed, in the order of the
/// pushes: a push that is taken puts the item behind all that is still to be
/// read.
pub proof fn push_appends(stream: Bridge, item: ItemView)
    requires
        stream.wf(),
        stream.push(item).1 == Pushed::Queued,
    ensures
        stream.push(item).0.pending() == stream.pending().push(item),
{
    assert(stream.push(item).0.pending() =~= stream.pending().push(item));
}

} // verus!
