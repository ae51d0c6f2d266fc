//! The streaming static-file core: chunk sizing, response metadata, and the
//! truncation state machine that keeps a streamed body within its declared
//! length.
//!
//! The transport opens files and performs reads; the functions here decide
//! everything else. Every failure on the way to a response — a rejected
//! tail, a missing or unreadable file — is collapsed by the caller into one
//! uniform not-found outcome, on purpose: the outside must not learn
//! whether a path exists or is merely forbidden.

use vstd::prelude::*;
use vstd::string::StringExecFns;

verus! {

/// The floor for read-buffer sizes, used when the filesystem's preferred
/// block size is smaller.
pub const DEFAULT_READ_BUF_SIZE: u64 = 8192;

/// The effective block size: the filesystem's preferred size, never below
/// the fixed floor.
pub open spec fn block_size_spec(blksize: u64) -> u64 {
    if blksize > DEFAULT_READ_BUF_SIZE {
        blksize
    } else {
        DEFAULT_READ_BUF_SIZE
    }
}

/// The chunk size for one file: the effective block size, but never more
/// than the file's own length — a small file gets a small buffer.
pub open spec fn buf_size_spec(blksize: u64, len: u64) -> u64 {
    if block_size_spec(blksize) < len {
        block_size_spec(blksize)
    } else {
        len
    }
}

/// The effective block size for a filesystem's preferred I/O size.
pub fn get_block_size(blksize: u64) -> (r: u64)
    ensures
        r == block_size_spec(blksize),
{
    if blksize > DEFAULT_READ_BUF_SIZE {
        blksize
    } else {
        DEFAULT_READ_BUF_SIZE
    }
}

/// The read-buffer size chosen for a file of length `len`.
pub fn optimal_buf_size(blksize: u64, len: u64) -> (r: u64)
    ensures
        r == buf_size_spec(blksize, len),
{
    let block = get_block_size(blksize);
    if block < len {
        block
    } else {
        len
    }
}

/// What one read of the underlying file came to.
pub enum ReadOutcome {
    /// The transport read this many bytes; zero means end of file.
    Read(u64),
    /// The read itself failed.
    Failed,
}

/// What the streamer decides to do after one read.
pub enum ChunkStep {
    /// Hand this many bytes of the freshly read data to the response body.
    Emit(u64),
    /// End the body cleanly, even if it is shorter than declared.
    End,
    /// Give the transport the read failure to surface.
    Abort,
}

/// Tracks how much of a response body may still be sent. The declared
/// length is fixed when the file's metadata is read; every emitted chunk is
/// truncated so that the body never exceeds it. A zero-byte read before the
/// declared length is exhausted ends the body early, without error: a file
/// truncated mid-stream yields a short body, never a broken response.
pub struct ChunkedFileStreamer {
    /// Bytes of the declared length not yet emitted.
    pub remaining: u64,
    /// The Content-Length the response advertised.
    pub declared: Ghost<u64>,
    /// Total bytes emitted so far.
    pub sent: Ghost<u64>,
}

impl ChunkedFileStreamer {
    /// Emitted and still-owed bytes always account exactly for the
    /// declared length.
    pub open spec fn inv(self) -> bool {
        self.sent@ + self.remaining == self.declared@
    }

    /// Starts a body of `len` declared bytes.
    pub fn new(len: u64) -> (s: ChunkedFileStreamer)
        ensures
            s.inv(),
            s.remaining == len,
            s.declared@ == len,
            s.sent@ == 0,
    {
        ChunkedFileStreamer { remaining: len, declared: Ghost(len), sent: Ghost(0) }
    }

    /// Bytes of the declared length not yet emitted.
    pub fn bytes_left(&self) -> (r: u64)
        ensures
            r == self.remaining,
    {
        self.remaining
    }

    /// Decides what to do with one read: emit the read bytes truncated to
    /// what is still owed, end cleanly on end-of-file, or pass a read
    /// failure through. Exactly the emitted count leaves `remaining`.
    pub fn next_chunk(&mut self, outcome: ReadOutcome) -> (step: ChunkStep)
        requires
            old(self).inv(),
        ensures
            final(self).inv(),
            final(self).declared@ == old(self).declared@,
            outcome matches ReadOutcome::Read(n) ==> (if n > 0 {
                step matches ChunkStep::Emit(take) && take == (if n < old(self).remaining {
                    n
                } else {
                    old(self).remaining
                }) && final(self).remaining == old(self).remaining - take
                    && final(self).sent@ == old(self).sent@ + take
            } else {
                step == ChunkStep::End && *final(self) == *old(self)
            }),
            outcome is Failed ==> (step == ChunkStep::Abort && *final(self) == *old(self)),
    {
        match outcome {
            ReadOutcome::Read(n) => {
                if n == 0 {
                    ChunkStep::End
                } else {
                    let take = if n < self.remaining {
                        n
                    } else {
                        self.remaining
                    };
                    self.remaining = self.remaining - take;
                    proof {
                        self.sent = Ghost((self.sent@ + take) as u64);
                    }
                    ChunkStep::Emit(take)
                }
            },
            ReadOutcome::Failed => ChunkStep::Abort,
        }
    }
}

/// A body is never longer than its Content-Length: as long as the
/// streamer's invariant holds, the bytes emitted so far stay within the
/// declared length.
pub proof fn lemma_body_within_declared_length(s: ChunkedFileStreamer)
    requires
        s.inv(),
    ensures
        s.sent@ <= s.declared@,
{
}

/// What `mime_guess` answers for a path; it depends on the path's
/// characters (its extension) alone.
pub uninterp spec fn mime_of(path: Seq<char>) -> Seq<char>;

/// Relies on `mime_guess::from_path` and `MimeGuess::first_or_octet_stream`:
/// a best-effort Content-Type from the file extension, with the generic
/// binary type when nothing matches.
#[verifier::external_body]
fn guess_mime(path: &str) -> (r: String)
    ensures
        r@ == mime_of(path@),
{
    mime_guess::from_path(path).first_or_octet_stream().to_string()
}

/// The headers a streamed file response carries.
pub struct ResponseMeta {
    /// The declared length: the file's metadata length at open time.
    pub content_length: u64,
    /// Best-effort guess from the file extension.
    pub content_type: String,
    /// Advertised even though range requests are not parsed or honoured —
    /// a documented gap, kept as it is.
    pub accept_ranges_bytes: bool,
}

/// Builds the response metadata for a file of declared length `len`.
pub fn response_meta(path: &str, len: u64) -> (m: ResponseMeta)
    ensures
        m.content_length == len,
        m.content_type@ == mime_of(path@),
        m.accept_ranges_bytes,
{
    ResponseMeta { content_length: len, content_type: guess_mime(path), accept_ranges_bytes: true }
}

/// Appends the directory index file onto a candidate path that resolved to
/// a directory; a file path is kept as it is.
pub fn resolve_candidate(candidate: String, is_dir: bool) -> (r: String)
    ensures
        is_dir ==> r@ == candidate@ + "/index.html"@,
        !is_dir ==> r@ == candidate@,
{
    if is_dir {
        candidate.concat("/index.html")
    } else {
        candidate
    }
}

} // verus!
