//! A byte source over a medium that is still being downloaded.
//!
//! The encoded bytes arrive in chunks and are kept as they came. After
//! each chunk the whole of them is decoded anew, and the result replaces
//! the decoded bytes that a reader is served from. Fetching and decoding
//! are the caller's work; it hands them in as two functions.

use vstd::prelude::*;

verus! {

/// A read starts a refill when fewer decoded bytes than this are left.
pub const REFILL_THRESHOLD: usize = 16_384;

/// Why the source cannot serve a request.
#[derive(Debug, PartialEq, Eq, Structural, Clone, Copy)]
pub enum StreamError {
    /// No decoded byte is left and nothing more arrived.
    StreamExhausted,
    /// The decoder gave no output for the bytes received so far.
    DecodeFailure,
    /// The position asked for lies outside the decoded bytes.
    SeekOutOfRange,
}

/// A position to move the read cursor to.
#[derive(Debug, PartialEq, Eq, Structural, Clone, Copy)]
pub enum SeekFrom {
    /// Counted from the first decoded byte.
    Start(u64),
    /// Counted from behind the last decoded byte.
    End(i64),
    /// Counted from the read cursor.
    Current(i64),
}

/// The mathematical value of a [`YoutubeStreamMediaSource`].
pub struct StreamView {
    /// Length of the remote medium, where it is known.
    pub content_length: Option<u64>,
    /// The encoded bytes received so far.
    pub encoded: Seq<u8>,
    /// The decoded bytes, once a decoding has been done.
    pub decoded: Option<Seq<u8>>,
    /// The read cursor: the index in `decoded` of the next byte to serve.
    pub cursor: nat,
}

impl StreamView {
    /// The number of decoded bytes.
    pub open spec fn decoded_len(self) -> nat {
        match self.decoded {
            Some(d) => d.len(),
            None => 0,
        }
    }

    /// The number of decoded bytes from the cursor on; zero where the
    /// cursor stands behind them.
    pub open spec fn available(self) -> nat {
        if self.cursor <= self.decoded_len() {
            (self.decoded_len() - self.cursor) as nat
        } else {
            0
        }
    }

    /// Whether the cursor stands within the decoded bytes or at their end.
    pub open spec fn in_bounds(self) -> bool {
        self.cursor <= self.decoded_len()
    }

    /// Whether a read starts a refill.
    pub open spec fn needs_refill(self) -> bool {
        self.available() < REFILL_THRESHOLD
    }

    /// The source after `chunk` has arrived.
    pub open spec fn with_chunk(self, chunk: Seq<u8>) -> StreamView {
        StreamView { encoded: self.encoded + chunk, ..self }
    }

    /// The source after a decoding with the result `output`; the cursor
    /// keeps its place.
    pub open spec fn with_decoded(self, output: Seq<u8>) -> StreamView {
        StreamView { decoded: Some(output), ..self }
    }

    /// The source after a refill in which `chunk` was fetched (`None`:
    /// nothing more arrived) and `output` was what the decoder gave for all
    /// encoded bytes (`None`: it failed; not looked at without a chunk).
    pub open spec fn refilled(self, chunk: Option<Seq<u8>>, output: Option<Seq<u8>>) -> StreamView {
        match chunk {
            None => self,
            Some(c) => match output {
                None => self.with_chunk(c),
                Some(o) => self.with_chunk(c).with_decoded(o),
            },
        }
    }

    /// How many bytes a read into a buffer of `room` bytes serves.
    pub open spec fn read_count(self, room: nat) -> nat {
        if room <= self.available() {
            room
        } else {
            self.available()
        }
    }

    /// The source after a read that served `count` bytes.
    pub open spec fn advanced(self, count: nat) -> StreamView {
        StreamView { cursor: self.cursor + count, ..self }
    }

    /// The bytes that a read of `count` bytes serves.
    pub open spec fn served(self, count: nat) -> Seq<u8> {
        self.decoded->0.subrange(self.cursor as int, (self.cursor + count) as int)
    }

    /// The position that `pos` names, where it lies within the decoded
    /// bytes or at their end.
    pub open spec fn seek_target(self, pos: SeekFrom) -> Option<nat> {
        match self.decoded {
            None => None,
            Some(d) => {
                let target: int = match pos {
                    SeekFrom::Start(n) => n as int,
                    SeekFrom::End(n) => d.len() + n,
                    SeekFrom::Current(n) => self.cursor + n,
                };
                if 0 <= target <= d.len() {
                    Some(target as nat)
                } else {
                    None
                }
            },
        }
    }
}

/// Whether a refill that led from `before` to `after` can have fetched
/// `chunk`, run the decoder on `encoded` and got `output` from it.
pub open spec fn refill_ran<F, D>(
    fetch: F,
    decode: D,
    before: StreamView,
    after: StreamView,
    chunk: Option<Vec<u8>>,
    encoded: Vec<u8>,
    output: Option<Vec<u8>>,
) -> bool where F: FnOnce() -> Option<Vec<u8>>, D: FnOnce(&Vec<u8>) -> Option<Vec<u8>> {
    &&& call_ensures(fetch, (), chunk)
    &&& chunk matches Some(c) ==> {
        &&& encoded@ == before.encoded + c@
        &&& call_ensures(decode, (&encoded,), output)
    }
    &&& after == before.refilled(chunk.deep_view(), output.deep_view())
}

/// Whether serving a reader from `before` into the buffer `room` gives the
/// source `after`, the buffer `filled` and the result `r`. With no decoded
/// byte left the request fails and nothing changes; otherwise as many
/// bytes as fit are copied to the front of the buffer and the cursor moves
/// behind them.
pub open spec fn served_from(
    before: StreamView,
    room: Seq<u8>,
    after: StreamView,
    filled: Seq<u8>,
    r: Result<usize, StreamError>,
) -> bool {
    if before.available() == 0 {
        &&& r == Err::<usize, StreamError>(StreamError::StreamExhausted)
        &&& after == before
        &&& filled == room
    } else {
        let count = before.read_count(room.len());
        &&& r == Ok::<usize, StreamError>(count as usize)
        &&& after == before.advanced(count)
        &&& filled == before.served(count) + room.skip(count as int)
    }
}

/// Whether a read from `before` into `room` that gives `after`, `filled`
/// and `r` can have run its refill with `chunk`, `encoded` and `output` and
/// have passed through the source `mid` before it served the reader.
pub open spec fn read_ran<F, D>(
    fetch: F,
    decode: D,
    before: StreamView,
    room: Seq<u8>,
    after: StreamView,
    filled: Seq<u8>,
    r: Result<usize, StreamError>,
    chunk: Option<Vec<u8>>,
    encoded: Vec<u8>,
    output: Option<Vec<u8>>,
    mid: StreamView,
) -> bool where F: FnOnce() -> Option<Vec<u8>>, D: FnOnce(&Vec<u8>) -> Option<Vec<u8>> {
    &&& refill_ran(fetch, decode, before, mid, chunk, encoded, output)
    &&& if chunk is Some && output is None {
        &&& r == Err::<usize, StreamError>(StreamError::DecodeFailure)
        &&& after == mid
        &&& filled == room
    } else {
        served_from(mid, room, after, filled, r)
    }
}

/// A source of decoded bytes over a medium that arrives in chunks.
#[derive(Debug)]
pub struct YoutubeStreamMediaSource {
    pub content_length: Option<u64>,
    encoded_buffer: Vec<u8>,
    decoded_buffer: Option<Vec<u8>>,
    position: usize,
}

impl View for YoutubeStreamMediaSource {
    type V = StreamView;

    closed spec fn view(&self) -> StreamView {
        StreamView {
            content_length: self.content_length,
            encoded: self.encoded_buffer@,
            decoded: match self.decoded_buffer {
                Some(d) => Some(d@),
                None => None,
            },
            cursor: self.position as nat,
        }
    }
}

impl YoutubeStreamMediaSource {
    /// A source that has received and decoded nothing yet.
    pub fn new(content_length: Option<u64>) -> (s: YoutubeStreamMediaSource)
        ensures
            s@ == (StreamView {
                content_length,
                encoded: Seq::empty(),
                decoded: None,
                cursor: 0,
            }),
    {
        YoutubeStreamMediaSource {
            content_length,
            encoded_buffer: Vec::new(),
            decoded_buffer: None,
            position: 0,
        }
    }

    /// The length of the remote medium, where it is known.
    pub fn byte_len(&self) -> (len: Option<u64>)
        ensures
            len == self@.content_length,
    {
        self.content_length
    }

    /// A player must not seek in this source: each refill rebuilds the
    /// decoded bytes.
    pub fn is_seekable(&self) -> (seekable: bool)
        ensures
            !seekable,
    {
        false
    }

    /// The encoded bytes received so far: the input of the next decoding.
    pub fn encoded(&self) -> (bytes: &Vec<u8>)
        ensures
            bytes@ == self@.encoded,
    {
        &self.encoded_buffer
    }

    /// The place of the read cursor.
    pub fn position(&self) -> (p: usize)
        ensures
            p == self@.cursor,
    {
        self.position
    }

    /// The number of decoded bytes from the cursor on.
    pub fn available(&self) -> (n: usize)
        ensures
            n == self@.available(),
    {
        match &self.decoded_buffer {
            Some(d) => if self.position <= d.len() {
                d.len() - self.position
            } else {
                0
            },
            None => 0,
        }
    }

    /// Whether a read starts a refill: fewer than [`REFILL_THRESHOLD`]
    /// decoded bytes are left.
    pub fn needs_refill(&self) -> (wanted: bool)
        ensures
            wanted == self@.needs_refill(),
    {
        self.available() < REFILL_THRESHOLD
    }

    /// Appends a chunk to the encoded bytes. Nothing else changes.
    pub fn absorb_chunk(&mut self, chunk: &Vec<u8>)
        ensures
            final(self)@ == old(self)@.with_chunk(chunk@),
    {
        let mut i: usize = 0;
        while i < chunk.len()
            invariant
                i <= chunk@.len(),
                self.content_length == old(self).content_length,
                self.decoded_buffer == old(self).decoded_buffer,
                self.position == old(self).position,
                self.encoded_buffer@ == old(self).encoded_buffer@ + chunk@.take(i as int),
            decreases chunk@.len() - i,
        {
            self.encoded_buffer.push(chunk[i]);
            proof {
                assert(chunk@.take(i + 1) =~= chunk@.take(i as int).push(chunk@[i as int]));
                assert(self.encoded_buffer@ =~= old(self).encoded_buffer@ + chunk@.take(i + 1));
            }
            i += 1;
        }
        proof {
            assert(chunk@.take(chunk@.len() as int) =~= chunk@);
        }
    }

    /// Replaces the decoded bytes by `output`. The cursor keeps its place,
    /// also where `output` ends before it.
    pub fn install_decoded(&mut self, output: Vec<u8>)
        ensures
            final(self)@ == old(self)@.with_decoded(output@),
    {
        self.decoded_buffer = Some(output);
    }

    /// Serves a reader from the decoded bytes at hand: copies as many
    /// bytes as fit from the cursor on to the front of `buf`, moves the
    /// cursor behind them and returns their number. With no decoded byte
    /// left it fails and changes nothing.
    pub fn read_decoded(&mut self, buf: &mut [u8]) -> (r: Result<usize, StreamError>)
        ensures
            served_from(old(self)@, old(buf)@, final(self)@, final(buf)@, r),
            r matches Ok(n) ==> n > 0 || old(buf)@.len() == 0,
    {
        let available = self.available();
        if available == 0 {
            return Err(StreamError::StreamExhausted);
        }
        let room = buf.len();
        let count = if room <= available {
            room
        } else {
            available
        };
        let start = self.position;
        let len = match &self.decoded_buffer {
            Some(d) => d.len(),
            None => 0,
        };
        assert(start + count <= len == self@.decoded_len());
        match &self.decoded_buffer {
            Some(d) => {
                let mut i: usize = 0;
                while i < count
                    invariant
                        i <= count,
                        start + count <= len == d@.len(),
                        count <= buf@.len(),
                        buf@.len() == old(buf)@.len(),
                        forall|j: int| 0 <= j < i ==> buf@[j] == d@[start + j],
                        forall|j: int| i <= j < buf@.len() ==> buf@[j] == old(buf)@[j],
                    decreases count - i,
                {
                    buf[i] = d[start + i];
                    i += 1;
                }
                proof {
                    assert(buf@ =~= old(self)@.served(count as nat) + old(buf)@.skip(count as int));
                }
            },
            None => {},
        }
        self.position = start + count;
        Ok(count)
    }

    /// Moves the read cursor to the position that `pos` names and returns
    /// it. A position before the first or behind the last decoded byte is
    /// refused, and so is every position while nothing has been decoded;
    /// the cursor then stays where it is.
    pub fn seek(&mut self, pos: SeekFrom) -> (r: Result<u64, StreamError>)
        ensures
            match r {
                Ok(p) => old(self)@.seek_target(pos) == Some(p as nat) && final(self)@ == (
                StreamView { cursor: p as nat, ..old(self)@ }),
                Err(e) => e == StreamError::SeekOutOfRange && old(self)@.seek_target(pos) is None
                    && final(self)@ == old(self)@,
            },
    {
        let len = match &self.decoded_buffer {
            Some(d) => d.len(),
            None => {
                return Err(StreamError::SeekOutOfRange);
            },
        };
        let target: i128 = match pos {
            SeekFrom::Start(n) => n as i128,
            SeekFrom::End(n) => len as i128 + n as i128,
            SeekFrom::Current(n) => self.position as i128 + n as i128,
        };
        if 0 <= target && target <= len as i128 {
            self.position = target as usize;
            Ok(target as u64)
        } else {
            Err(StreamError::SeekOutOfRange)
        }
    }

    /// One refill. `fetch` brings the next chunk of the medium, or `None`
    /// when nothing more arrives; then the source stays as it is. A chunk
    /// is appended to the encoded bytes, `decode` is run on all of them, and
    /// its output replaces the decoded bytes while the cursor keeps its
    /// place. Where `decode` gives `None` the chunk stays appended, the
    /// decoded bytes stay as they were, and the refill fails.
    pub fn test2<F, D>(&mut self, fetch: F, decode: D) -> (r: Result<(), StreamError>) where
        F: FnOnce() -> Option<Vec<u8>>,
        D: FnOnce(&Vec<u8>) -> Option<Vec<u8>>,

        requires
            call_requires(fetch, ()),
            forall|encoded: &Vec<u8>| call_requires(decode, (encoded,)),
        ensures
            exists|chunk: Option<Vec<u8>>, encoded: Vec<u8>, output: Option<Vec<u8>>|
                {
                    &&& #[trigger] refill_ran(
                        fetch,
                        decode,
                        old(self)@,
                        final(self)@,
                        chunk,
                        encoded,
                        output,
                    )
                    &&& r is Err <==> chunk is Some && output is None
                },
            r is Err ==> r == Err::<(), StreamError>(StreamError::DecodeFailure),
    {
        let chunk = fetch();
        match &chunk {
            None => {
                proof {
                    let encoded: Vec<u8> = arbitrary();
                    let output: Option<Vec<u8>> = None;
                    assert(refill_ran(fetch, decode, old(self)@, self@, chunk, encoded, output));
                }
                Ok(())
            },
            Some(c) => {
                self.absorb_chunk(c);
                let output = decode(&self.encoded_buffer);
                let ghost encoded = self.encoded_buffer;
                match output {
                    Some(o) => {
                        let ghost shown: Option<Vec<u8>> = Some(o);
                        self.install_decoded(o);
                        proof {
                            assert(shown.deep_view() == Some(shown->0@));
                            assert(c@ == c.deep_view());
                            assert(chunk.deep_view() == Some(c@));
                            assert(refill_ran(
                                fetch,
                                decode,
                                old(self)@,
                                self@,
                                chunk,
                                encoded,
                                shown,
                            ));
                        }
                        Ok(())
                    },
                    None => {
                        proof {
                            let shown: Option<Vec<u8>> = None;
                            assert(c@ == c.deep_view());
                            assert(chunk.deep_view() == Some(c@));
                            assert(refill_ran(
                                fetch,
                                decode,
                                old(self)@,
                                self@,
                                chunk,
                                encoded,
                                shown,
                            ));
                        }
                        Err(StreamError::DecodeFailure)
                    },
                }
            },
        }
    }
}

impl YoutubeStreamMediaSource {
    /// Serves a reader. Where fewer than [`REFILL_THRESHOLD`] decoded bytes
    /// are left, one refill is made first (see [`Self::test2`]); if its
    /// decoding fails, so does the read. Then as many decoded bytes as fit
    /// are copied from the cursor on to the front of `buf`, the cursor moves
    /// behind them, and their number is returned. With no decoded byte left
    /// the read fails.
    pub fn read<F, D>(&mut self, buf: &mut [u8], fetch: F, decode: D) -> (r: Result<
        usize,
        StreamError,
    >) where F: FnOnce() -> Option<Vec<u8>>, D: FnOnce(&Vec<u8>) -> Option<Vec<u8>>
        requires
            call_requires(fetch, ()),
            forall|encoded: &Vec<u8>| call_requires(decode, (encoded,)),
        ensures
            !old(self)@.needs_refill() ==> served_from(
                old(self)@,
                old(buf)@,
                final(self)@,
                final(buf)@,
                r,
            ),
            old(self)@.needs_refill() ==> exists|
                chunk: Option<Vec<u8>>,
                encoded: Vec<u8>,
                output: Option<Vec<u8>>,
                mid: StreamView,
            | #[trigger]
                read_ran(
                    fetch,
                    decode,
                    old(self)@,
                    old(buf)@,
                    final(self)@,
                    final(buf)@,
                    r,
                    chunk,
                    encoded,
                    output,
                    mid,
                ),
            r matches Ok(n) ==> n > 0 || old(buf)@.len() == 0,
    {
        if self.needs_refill() {
            let refill = self.test2(fetch, decode);
            let ghost mid = self@;
            proof {
                let (chunk, encoded, output) = choose|
                    chunk: Option<Vec<u8>>,
                    encoded: Vec<u8>,
                    output: Option<Vec<u8>>,
                |
                    #[trigger] refill_ran(fetch, decode, old(self)@, mid, chunk, encoded, output)
                        && (refill is Err <==> chunk is Some && output is None);
                if refill is Err {
                    assert(read_ran(
                        fetch,
                        decode,
                        old(self)@,
                        old(buf)@,
                        mid,
                        old(buf)@,
                        Err::<usize, StreamError>(StreamError::DecodeFailure),
                        chunk,
                        encoded,
                        output,
                        mid,
                    ));
                }
            }
            match refill {
                Err(e) => {
                    return Err(e);
                },
                Ok(()) => {},
            }
            let r = self.read_decoded(buf);
            proof {
                let (chunk, encoded, output) = choose|
                    chunk: Option<Vec<u8>>,
                    encoded: Vec<u8>,
                    output: Option<Vec<u8>>,
                |
                    #[trigger] refill_ran(fetch, decode, old(self)@, mid, chunk, encoded, output)
                        && (refill is Err <==> chunk is Some && output is None);
                assert(read_ran(
                    fetch,
                    decode,
                    old(self)@,
                    old(buf)@,
                    self@,
                    buf@,
                    r,
                    chunk,
                    encoded,
                    output,
                    mid,
                ));
            }
            r
        } else {
            self.read_decoded(buf)
        }
    }
}

/// One thing that happens to a source: a refill with what was fetched and
/// what the decoder gave, or a read into a buffer of `room` bytes.
pub enum StreamOp {
    Refill { chunk: Option<Seq<u8>>, output: Option<Seq<u8>> },
    Read { room: nat },
}

impl StreamView {
    /// The source after `op`. A read that finds no decoded byte left fails
    /// and leaves the source as it is.
    pub open spec fn after(self, op: StreamOp) -> StreamView {
        match op {
            StreamOp::Refill { chunk, output } => self.refilled(chunk, output),
            StreamOp::Read { room } => self.advanced(self.read_count(room)),
        }
    }

    /// The number of bytes that `op` hands to the reader.
    pub open spec fn bytes_of(self, op: StreamOp) -> nat {
        match op {
            StreamOp::Refill { .. } => 0,
            StreamOp::Read { room } => self.read_count(room),
        }
    }

    /// The source after `ops`, one after the other.
    pub open spec fn after_all(self, ops: Seq<StreamOp>) -> StreamView
        decreases ops.len(),
    {
        if ops.len() == 0 {
            self
        } else {
            self.after(ops[0]).after_all(ops.drop_first())
        }
    }

    /// The number of bytes that the reads among `ops` hand out in all.
    pub open spec fn bytes_of_all(self, ops: Seq<StreamOp>) -> nat
        decreases ops.len(),
    {
        if ops.len() == 0 {
            0
        } else {
            self.bytes_of(ops[0]) + self.after(ops[0]).bytes_of_all(ops.drop_first())
        }
    }
}

/// A read into a buffer with room serves at least one byte while a decoded
/// byte is left, and never more than are left or fit; a cursor within the
/// decoded bytes stays within them.
pub proof fn lemma_read_progress(s: StreamView, room: nat)
    ensures
        s.available() > 0 && room > 0 ==> s.read_count(room) > 0,
        s.read_count(room) <= room,
        s.read_count(room) <= s.available(),
        s.in_bounds() ==> s.advanced(s.read_count(room)).in_bounds(),
{
}

/// The cursor stays within the decoded bytes under every read, and under
/// every refill whose decoding does not end before the cursor.
pub proof fn lemma_cursor_in_bounds(s: StreamView, op: StreamOp)
    requires
        s.in_bounds(),
        op matches StreamOp::Refill { chunk: Some(_), output: Some(o) } ==> o.len() >= s.cursor,
    ensures
        s.after(op).in_bounds(),
{
}

/// A seek that is accepted leaves the cursor within the decoded bytes.
pub proof fn lemma_seek_in_bounds(s: StreamView, pos: SeekFrom)
    ensures
        s.seek_target(pos) matches Some(p) ==> (StreamView { cursor: p, ..s }).in_bounds(),
{
}

/// Whatever refills and reads follow one another: the encoded bytes only
/// grow at their end, and the cursor has moved by just the number of bytes
/// handed out.
pub proof fn lemma_stream_run(s: StreamView, ops: Seq<StreamOp>)
    ensures
        s.encoded.is_prefix_of(s.after_all(ops).encoded),
        s.after_all(ops).cursor == s.cursor + s.bytes_of_all(ops),
        s.after_all(ops).content_length == s.content_length,
    decreases ops.len(),
{
    if ops.len() > 0 {
        let next = s.after(ops[0]);
        lemma_stream_run(next, ops.drop_first());
        assert(s.encoded.is_prefix_of(next.encoded)) by {
            match ops[0] {
                StreamOp::Refill { chunk: Some(c), .. } => {
                    assert((s.encoded + c).subrange(0, s.encoded.len() as int) =~= s.encoded);
                },
                _ => {
                    assert(s.encoded.subrange(0, s.encoded.len() as int) =~= s.encoded);
                },
            }
        }
        let last = s.after_all(ops).encoded;
        assert(s.encoded.is_prefix_of(last)) by {
            assert(next.encoded.subrange(0, next.encoded.len() as int) == next.encoded);
            assert(last.subrange(0, next.encoded.len() as int) == next.encoded);
            assert(last.subrange(0, s.encoded.len() as int) =~= next.encoded.subrange(
                0,
                s.encoded.len() as int,
            ));
        }
    } else {
        assert(s.encoded.subrange(0, s.encoded.len() as int) =~= s.encoded);
    }
}

/// A source that starts with its cursor at zero and is only refilled and
/// read has, once no decoded byte is left and the cursor stands within
/// the decoded bytes, handed out as many bytes as the decoded bytes count.
pub proof fn lemma_drained_total(s: StreamView, ops: Seq<StreamOp>)
    requires
        s.cursor == 0,
        s.after_all(ops).available() == 0,
        s.after_all(ops).in_bounds(),
    ensures
        s.bytes_of_all(ops) == s.after_all(ops).decoded_len(),
{
    lemma_stream_run(s, ops);
}

} // verus!
