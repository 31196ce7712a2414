//! The streaming transfer state machine.
//!
//! A `Transfer` is created once the response metadata has been inspected:
//! it exists only when a content length was declared and a checksum could
//! be resolved, so a download whose metadata is unresolvable fails before
//! any byte of the body is handled. The body is then driven through it one
//! chunk at a time, in arrival order — the same order in which the caller
//! writes the chunks to durable storage — and judged once the stream ends:
//! the lowercase hex of the digest of everything fed must equal the
//! resolved checksum, byte for byte.

use crate::checksum::{resolve_checksum, slot_view, spec_resolve_checksum};
use crate::hashing::{sha1_fed, sha1_finalize, sha1_new, sha1_of, sha1_update};
use crate::hex::{hex_lower, spec_hex_lower};
use sha1::Sha1;
use vstd::math::min;
use vstd::prelude::*;

verus! {

/// Why a download could not be begun or could not be declared good.
///
/// The transport, filesystem and authentication failures of a real run
/// happen outside the library and never reach this type.
#[derive(Debug)]
pub enum DownloadError {
    /// The response declared no content length, so neither progress nor
    /// the bounded counter has a total to work against.
    MissingContentLength,
    /// Neither checksum header slot yielded a usable value.
    MissingChecksum,
    /// The stream completed but the digest of the received bytes does not
    /// match the resolved expectation; both values are carried so the
    /// caller can report them.
    IntegrityMismatch { computed: String, expected: String },
}

/// The state of one in-flight download: the resolved expectation, the
/// declared total size, the clamped progress counter, and the running
/// digest of every chunk fed so far.
pub struct Transfer {
    expected_sha1: String,
    total_size: u64,
    received: u64,
    hasher: Sha1,
}

impl Transfer {
    /// The bytes fed so far, in arrival order.
    pub closed spec fn fed(&self) -> Seq<u8> {
        sha1_fed(self.hasher)
    }

    /// The checksum the finished download must match, as resolved from
    /// the response headers.
    pub closed spec fn expected(&self) -> Seq<char> {
        self.expected_sha1@
    }

    /// The content length the response declared.
    pub closed spec fn total(&self) -> u64 {
        self.total_size
    }

    /// The progress counter: bytes received, clamped at the total.
    pub closed spec fn progress(&self) -> u64 {
        self.received
    }

    /// The counter tracks the fed bytes exactly, up to the declared
    /// total. Established at creation, preserved by every chunk.
    pub open spec fn inv(&self) -> bool {
        self.progress() == min(self.fed().len() as int, self.total() as int)
    }

    /// Inspects the response metadata and, when it is complete, opens a
    /// transfer. With no declared content length or no resolvable
    /// checksum there is no `Transfer`, so nothing can be fed or written.
    pub fn begin(
        content_length: Option<u64>,
        simple_sha1: Option<String>,
        large_file_sha1: Option<String>,
    ) -> (r: Result<Transfer, DownloadError>)
        ensures
            r is Ok <==> (content_length is Some && spec_resolve_checksum(
                slot_view(simple_sha1),
                slot_view(large_file_sha1),
            ) is Some),
            r matches Ok(t) ==> {
                &&& t.total() == content_length->0
                &&& Option::Some(t.expected()) == spec_resolve_checksum(
                    slot_view(simple_sha1),
                    slot_view(large_file_sha1),
                )
                &&& t.fed() == Seq::<u8>::empty()
                &&& t.progress() == 0
                &&& t.inv()
            },
            content_length is None ==> r == Result::<Transfer, DownloadError>::Err(
                DownloadError::MissingContentLength,
            ),
            (content_length is Some && spec_resolve_checksum(
                slot_view(simple_sha1),
                slot_view(large_file_sha1),
            ) is None) ==> r == Result::<Transfer, DownloadError>::Err(
                DownloadError::MissingChecksum,
            ),
    {
        let total_size = match content_length {
            Option::Some(n) => n,
            Option::None => {
                return Result::Err(DownloadError::MissingContentLength);
            },
        };
        let expected_sha1 = match resolve_checksum(&simple_sha1, &large_file_sha1) {
            Option::Some(v) => v,
            Option::None => {
                return Result::Err(DownloadError::MissingChecksum);
            },
        };
        Result::Ok(Transfer { expected_sha1, total_size, received: 0, hasher: sha1_new() })
    }

    /// Feeds one body chunk, in arrival order: the chunk joins the running
    /// digest and the progress counter advances by its length, clamped so
    /// it never exceeds the declared total.
    pub fn accept_chunk(&mut self, chunk: &[u8])
        requires
            old(self).inv(),
        ensures
            final(self).inv(),
            final(self).fed() == old(self).fed() + chunk@,
            final(self).expected() == old(self).expected(),
            final(self).total() == old(self).total(),
            final(self).progress() == min(
                old(self).progress() + chunk@.len(),
                old(self).total() as int,
            ),
    {
        sha1_update(&mut self.hasher, chunk);
        let len = chunk.len() as u64;
        let room = self.total_size - self.received;
        if len < room {
            self.received = self.received + len;
        } else {
            self.received = self.total_size;
        }
    }

    /// The current progress reading.
    pub fn bytes_received(&self) -> (r: u64)
        ensures
            r == self.progress(),
    {
        self.received
    }

    /// The declared total size.
    pub fn declared_total(&self) -> (r: u64)
        ensures
            r == self.total(),
    {
        self.total_size
    }

    /// Finalizes the digest and passes judgement: the download is good
    /// exactly when the lowercase hex of the digest of everything fed
    /// equals the resolved checksum. A mismatch reports both values.
    pub fn finish(self) -> (r: Result<(), DownloadError>)
        ensures
            r is Ok <==> spec_hex_lower(sha1_of(self.fed())) == self.expected(),
            r matches Err(e) ==> {
                &&& e matches DownloadError::IntegrityMismatch { computed, expected }
                &&& computed@ == spec_hex_lower(sha1_of(self.fed()))
                &&& expected@ == self.expected()
            },
    {
        let Transfer { expected_sha1, total_size: _, received: _, hasher } = self;
        let digest = sha1_finalize(hasher);
        let computed = hex_lower(digest.as_slice());
        if computed == expected_sha1 {
            Result::Ok(())
        } else {
            Result::Err(DownloadError::IntegrityMismatch { computed, expected: expected_sha1 })
        }
    }
}

/// Law: the progress counter never exceeds the declared total size.
pub proof fn lemma_progress_never_exceeds_total(t: Transfer)
    requires
        t.inv(),
    ensures
        t.progress() <= t.total(),
{
}

/// Law: once the stream has delivered at least the declared total number
/// of bytes — in particular on a completed download of the declared size —
/// the progress counter reads exactly the total.
pub proof fn lemma_progress_reaches_total(t: Transfer)
    requires
        t.inv(),
        t.fed().len() >= t.total(),
    ensures
        t.progress() == t.total(),
{
}

/// Law: a transfer whose expectation came from the header resolution and
/// whose final digest matches it has written bytes whose hash is exactly
/// the checksum the response headers resolved to.
pub proof fn lemma_success_means_resolved_hash(
    t: Transfer,
    simple: Option<Seq<char>>,
    large: Option<Seq<char>>,
)
    requires
        Option::Some(t.expected()) == spec_resolve_checksum(simple, large),
        spec_hex_lower(sha1_of(t.fed())) == t.expected(),
    ensures
        spec_resolve_checksum(simple, large) == Option::Some(spec_hex_lower(sha1_of(t.fed()))),
{
}

} // verus!
