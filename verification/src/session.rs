//! The encoder session state machine: one session owns one engine
//! instance, admits correctly sized sample batches while open, is flushed
//! exactly once, and is closed exactly once.
//!
//! The native engine itself is a black-box collaborator that lives on the
//! unverified side; every decision the adapter makes — which parameters
//! are accepted, which batches may be handed to the engine, which
//! operations are legal in which state, and how output is accounted — is
//! made here.

use vstd::prelude::*;

use crate::buffer::OutputBuffer;
use crate::buffer::sat_add_u64;
use crate::error::VorbisError;

verus! {

/// Lowest quality the engine accepts, in thousandths.
pub const QUALITY_MIN_MILLI: i32 = -100;

/// Highest quality the engine accepts, in thousandths.
pub const QUALITY_MAX_MILLI: i32 = 1000;

/// The largest sample count a single batch may carry: the engine takes
/// the count as a signed 32-bit integer.
pub const MAX_BATCH_SAMPLES: usize = 0x7fff_ffff;

/// Where a session stands in its lifecycle. A session is created `Open`,
/// moves to `Flushed` when the end of the stream is signalled, and to
/// `Closed` when the engine instance is released.
#[derive(Clone, Copy, Debug, PartialEq, Eq, Structural)]
pub enum SessionState {
    Open,
    Flushed,
    Closed,
}

/// The parameters the adapter hands to the engine: a positive channel
/// count, a positive sample rate, and a quality within the engine's
/// range. Everything else is rejected before the engine sees it.
pub open spec fn params_accepted(channels: u32, rate: u64, quality_milli: i32) -> bool {
    &&& 1 <= channels
    &&& 1 <= rate
    &&& QUALITY_MIN_MILLI <= quality_milli <= QUALITY_MAX_MILLI
}

/// One encode session, bound to a fixed channel count, sample rate and
/// quality. Quality is carried in thousandths, so that the engine's
/// range of -0.1 to 1.0 becomes -100 to 1000.
pub struct Encoder {
    pub channels: u32,
    pub rate: u64,
    pub quality_milli: i32,
    pub state: SessionState,
    pub pushed_samples: u64,
    pub out: OutputBuffer,
}

impl Encoder {
    /// A session is well formed when it was configured with accepted
    /// parameters; `new` establishes this and every method keeps it.
    pub open spec fn wf(self) -> bool {
        params_accepted(self.channels, self.rate, self.quality_milli)
    }

    /// Whether a batch of `n` samples may be handed to the engine: only
    /// while the session is open, only when `n` is a multiple of the
    /// channel count, and only when `n` fits the engine's count argument.
    pub open spec fn batch_admissible(self, n: nat) -> bool {
        &&& self.state == SessionState::Open
        &&& n % (self.channels as nat) == 0
        &&& n <= MAX_BATCH_SAMPLES
    }

    /// Configure a new session. Succeeds exactly on accepted parameters
    /// and returns a session in the open state with no output yet;
    /// rejected parameters leave nothing behind that would need release.
    pub fn new(channels: u32, rate: u64, quality_milli: i32) -> (r: Result<Encoder, VorbisError>)
        ensures
            r is Ok <==> params_accepted(channels, rate, quality_milli),
            r is Err ==> r == Err::<Encoder, VorbisError>(VorbisError::ConfigurationError),
            r is Ok ==> {
                let e = r->Ok_0;
                &&& e.wf()
                &&& e.channels == channels
                &&& e.rate == rate
                &&& e.quality_milli == quality_milli
                &&& e.state == SessionState::Open
                &&& e.pushed_samples == 0
                &&& e.out.bytes@ == Seq::<u8>::empty()
                &&& e.out.total == 0
            },
    {
        if channels < 1 || rate < 1 || quality_milli < QUALITY_MIN_MILLI
            || quality_milli > QUALITY_MAX_MILLI {
            return Err(VorbisError::ConfigurationError);
        }
        Ok(Encoder {
            channels,
            rate,
            quality_milli,
            state: SessionState::Open,
            pushed_samples: 0,
            out: OutputBuffer::new(),
        })
    }

    /// Admit a batch of interleaved samples for encoding. Succeeds
    /// exactly on admissible batches — open session, length a multiple of
    /// the channel count, length within the engine's count argument — and
    /// counts the admitted samples. A session that is no longer open
    /// rejects the batch with a state error, never forwarding it to the
    /// engine; a mis-sized batch is an invalid request.
    pub fn encode(&mut self, samples: &[i16]) -> (r: Result<(), VorbisError>)
        requires
            old(self).wf(),
        ensures
            final(self).wf(),
            final(self).channels == old(self).channels,
            final(self).rate == old(self).rate,
            final(self).quality_milli == old(self).quality_milli,
            final(self).state == old(self).state,
            final(self).out == old(self).out,
            r is Ok <==> old(self).batch_admissible(samples@.len()),
            r is Ok ==> final(self).pushed_samples == sat_add_u64(
                old(self).pushed_samples,
                samples@.len(),
            ),
            r is Err ==> final(self).pushed_samples == old(self).pushed_samples,
            old(self).state != SessionState::Open ==> r == Err::<(), VorbisError>(
                VorbisError::StateError,
            ),
            old(self).state == SessionState::Open && !old(self).batch_admissible(samples@.len())
                ==> r == Err::<(), VorbisError>(VorbisError::InvalidSetup),
    {
        if self.state != SessionState::Open {
            return Err(VorbisError::StateError);
        }
        let n = samples.len();
        if n % (self.channels as usize) != 0 || n > MAX_BATCH_SAMPLES {
            return Err(VorbisError::InvalidSetup);
        }
        if self.pushed_samples <= u64::MAX - (n as u64) {
            self.pushed_samples = self.pushed_samples + (n as u64);
        } else {
            self.pushed_samples = u64::MAX;
        }
        Ok(())
    }

    /// Signal the end of the stream. Legal exactly once, while the
    /// session is open; it moves the session to the flushed state, after
    /// which no batch is admitted. A second flush, or a flush after
    /// close, is a state error and changes nothing.
    pub fn flush(&mut self) -> (r: Result<(), VorbisError>)
        requires
            old(self).wf(),
        ensures
            final(self).wf(),
            final(self).channels == old(self).channels,
            final(self).rate == old(self).rate,
            final(self).quality_milli == old(self).quality_milli,
            final(self).pushed_samples == old(self).pushed_samples,
            final(self).out == old(self).out,
            r is Ok <==> old(self).state == SessionState::Open,
            r is Ok ==> final(self).state == SessionState::Flushed,
            r is Err ==> final(self).state == old(self).state && r == Err::<(), VorbisError>(
                VorbisError::StateError,
            ),
    {
        if self.state != SessionState::Open {
            return Err(VorbisError::StateError);
        }
        self.state = SessionState::Flushed;
        Ok(())
    }

    /// Record bytes the engine produced for this session: they join the
    /// pending output, and the running total never decreases.
    pub fn record_output(&mut self, chunk: Vec<u8>)
        requires
            old(self).state != SessionState::Closed,
        ensures
            final(self).channels == old(self).channels,
            final(self).rate == old(self).rate,
            final(self).quality_milli == old(self).quality_milli,
            final(self).state == old(self).state,
            final(self).pushed_samples == old(self).pushed_samples,
            final(self).out.bytes@ == old(self).out.bytes@ + chunk@,
            final(self).out.total == sat_add_u64(old(self).out.total, chunk@.len()),
            final(self).out.total >= old(self).out.total,
    {
        self.out.append(chunk);
    }

    /// How many produced bytes are pending retrieval.
    pub fn output_length(&self) -> (r: usize)
        ensures
            r == self.out.bytes@.len(),
    {
        self.out.length()
    }

    /// Retrieve every pending byte, in production order. The drain is one
    /// atomic step: what comes back is exactly what was pending, and
    /// nothing remains pending afterwards.
    pub fn drain(&mut self) -> (r: Vec<u8>)
        ensures
            final(self).channels == old(self).channels,
            final(self).rate == old(self).rate,
            final(self).quality_milli == old(self).quality_milli,
            final(self).state == old(self).state,
            final(self).pushed_samples == old(self).pushed_samples,
            r@ == old(self).out.bytes@,
            final(self).out.bytes@ == Seq::<u8>::empty(),
            final(self).out.total == old(self).out.total,
    {
        self.out.drain()
    }

    /// Mark the engine instance released. Legal from every state a live
    /// session can be in, and never twice: a closed session cannot be
    /// closed again, so release-after-release is ruled out by
    /// construction.
    pub fn close(&mut self)
        requires
            old(self).state != SessionState::Closed,
        ensures
            final(self).channels == old(self).channels,
            final(self).rate == old(self).rate,
            final(self).quality_milli == old(self).quality_milli,
            final(self).pushed_samples == old(self).pushed_samples,
            final(self).out == old(self).out,
            final(self).state == SessionState::Closed,
    {
        self.state = SessionState::Closed;
    }
}

/// While a session is open, every batch whose length is a multiple of the
/// channel count and fits the engine's count argument is admitted: no
/// push fails solely because of how the stream was cut into batches.
pub proof fn lemma_open_admits_sized_batches(e: Encoder, n: nat)
    requires
        e.wf(),
        e.state == SessionState::Open,
        n % (e.channels as nat) == 0,
        n <= MAX_BATCH_SAMPLES,
    ensures
        e.batch_admissible(n),
{
}

/// Once a session has left the open state — flushed or closed — no batch
/// of any size is admissible: nothing is ever forwarded to the engine
/// after the flush.
pub proof fn lemma_nothing_admissible_after_flush(e: Encoder, n: nat)
    requires
        e.state != SessionState::Open,
    ensures
        !e.batch_admissible(n),
{
}

/// The running output total never decreases when a produced batch is
/// recorded: total retrievable output is non-decreasing across a session.
pub proof fn lemma_total_monotone(total: u64, n: nat)
    ensures
        sat_add_u64(total, n) >= total,
{
}

} // verus!
