//! The transcoding pipeline: an interleaved stereo stream of singles becomes
//! an MP3 byte stream.

use crate::encoder::{
    fits_one_call, required_buffer_size, scratch_capacity, Call, EncoderFailure, EncoderSession,
    EncoderSettings, EncoderStage, FailureCause, SessionState, FLUSH_CAPACITY,
};
use crate::pcm::{left_channel, prepare_channels, quantized_channel, right_channel};
use vstd::prelude::*;

verus! {

/// Appends the flushed end of the stream to what the bulk encode call wrote.
pub fn assemble(body: Vec<u8>, tail: &[u8]) -> (stream: Vec<u8>)
    ensures
        stream@ == body@ + tail@,
{
    let mut stream = body;
    stream.extend_from_slice(tail);
    stream
}

/// Whether `call` is the bulk encode call of a stream: an encode call on the
/// stream's two channels, the stream split pairwise and each sample quantized
/// to 16 bits.
pub open spec fn is_bulk_encode(call: Call, samples: Seq<u32>) -> bool {
    &&& call matches Call::Encode { left, right, .. }
    &&& left == quantized_channel(left_channel(samples))
    &&& right == quantized_channel(right_channel(samples))
}

/// Whether `history` is that of a stream transcoded to its end: one encode
/// call on the full channels of the stream, then one flush, and `stream` is
/// what the encode call gave out followed by what the flush gave out.
pub open spec fn is_transcript(history: Seq<Call>, samples: Seq<u32>, stream: Seq<u8>) -> bool {
    &&& history.len() == 2
    &&& is_bulk_encode(history[0], samples)
    &&& history[1] is Flush
    &&& stream == history[0].bytes() + history[1].bytes()
}

/// Transcodes an interleaved stereo stream of singles, given by their bit
/// patterns, in a fresh encoder session, and ends the session.
///
/// The stream is split into its channels (an unpaired last sample is
/// dropped), each sample is quantized to 16 bits, the channels are encoded in
/// one call, the encoder is flushed without a padding gap, and the flushed
/// bytes are appended to the encoded ones. The history of the session says
/// how far the run came.
///
/// What the encoder writes is the encoder's decision, and so is whether it
/// fails. Any failure is fatal and names its stage. A stream too long for one
/// encode call fails before the encoder sees it.
pub fn transcode_in(session: &mut EncoderSession, samples: &[u32]) -> (res: Result<
    Vec<u8>,
    EncoderFailure,
>)
    requires
        old(session).is_fresh(),
    ensures
        final(session).state() == SessionState::Closed,
        final(session).settings() == old(session).settings(),
        res matches Ok(stream) ==> {
            &&& is_transcript(final(session).history(), samples@, stream@)
            &&& final(session).was_flushed()
            &&& stream@.len() <= required_buffer_size(samples@.len() / 2) + FLUSH_CAPACITY
        },
        res matches Err(failure) ==> match failure.stage {
            EncoderStage::Encode => final(session).history() == Seq::<Call>::empty(),
            EncoderStage::Flush => final(session).history().len() == 1 && is_bulk_encode(
                final(session).history()[0],
                samples@,
            ),
            EncoderStage::Configure => false,
        },
        !fits_one_call(samples@.len() / 2) <==> (res matches Err(failure) && failure.cause
            is InputTooLong),
{
    let (left, right) = prepare_channels(samples);
    let body = session.encode(left.as_slice(), right.as_slice())?;
    let tail = session.flush()?;
    session.close();
    Ok(assemble(body, tail.as_slice()))
}

/// A transcoded stream with the account of its making.
pub struct Transcoded {
    /// The MP3 byte stream.
    pub stream: Vec<u8>,
    /// The session that gave the stream out, closed. Its settings and its
    /// history are on record.
    pub session: EncoderSession,
}

/// Transcodes an interleaved stereo stream of singles, given by their bit
/// patterns, into an MP3 byte stream at `sample_rate`.
///
/// An encoder is configured for two channels at `sample_rate` in its best
/// quality mode; the stream goes through it as `transcode_in` says. A stream
/// too long for one encode call fails before an encoder is configured.
pub fn transcode(samples: &[u32], sample_rate: u32) -> (res: Result<Transcoded, EncoderFailure>)
    ensures
        res matches Ok(done) ==> {
            &&& done.session.settings() == EncoderSettings::standard(sample_rate)
            &&& done.session.state() == SessionState::Closed
            &&& is_transcript(done.session.history(), samples@, done.stream@)
            &&& done.stream@.len() <= required_buffer_size(samples@.len() / 2) + FLUSH_CAPACITY
        },
        !fits_one_call(samples@.len() / 2) <==> (res matches Err(failure) && failure.cause
            is InputTooLong),
        res matches Err(failure) ==> (failure.cause is InputTooLong ==> failure.stage
            == EncoderStage::Encode),
{
    if scratch_capacity(samples.len() / 2).is_none() {
        return Err(EncoderFailure::at(EncoderStage::Encode, FailureCause::InputTooLong));
    }
    let mut session = EncoderSession::configure(sample_rate)?;
    let stream = transcode_in(&mut session, samples)?;
    Ok(Transcoded { stream, session })
}

} // verus!
