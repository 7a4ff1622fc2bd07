//! The MP3 encoder session: configuration, one bulk encode and the final
//! flush, each into a scratch buffer of known size.
//!
//! The encoder decides what it writes and whether it fails. Each function
//! that calls it hands its answer to a function that takes the answer as an
//! argument and says what becomes of it: `allocated`, `accepted`,
//! `initialised`, `encoded` and `flushed`. What the encoder is given is kept
//! on record where it is handed over. No error of the encoder becomes a
//! success, and every failure names its stage.

use mp3lame_encoder::Quality;
use vstd::arithmetic::div_mod::lemma_small_mod;
use vstd::prelude::*;

verus! {

/// The encoder under construction, of the `mp3lame_encoder` crate. Opaque.
#[verifier::external_type_specification]
#[verifier::external_body]
pub struct ExBuilder(mp3lame_encoder::Builder);

/// The configured encoder of the `mp3lame_encoder` crate. Opaque: it holds
/// the look-ahead state that only a flush drains.
#[verifier::external_type_specification]
#[verifier::external_body]
pub struct ExEncoder(mp3lame_encoder::Encoder);

/// Why `mp3lame_encoder` refused a setting or could not initialise. Opaque.
#[verifier::external_type_specification]
#[verifier::external_body]
pub struct ExBuildError(mp3lame_encoder::BuildError);

/// Why `mp3lame_encoder` failed to encode or flush. Opaque.
#[verifier::external_type_specification]
#[verifier::external_body]
pub struct ExEncodeError(mp3lame_encoder::EncodeError);

/// `mp3lame_encoder::Builder::new` allocates an encoder with the library's
/// defaults, or gives `None` when it cannot. Nothing is claimed of which.
pub assume_specification[ mp3lame_encoder::Builder::new ]() -> (builder: Option<
    mp3lame_encoder::Builder,
>)
;

/// `mp3lame_encoder::Builder::set_num_channels` sets the number of input
/// channels, or reports that the encoder does not support it.
pub assume_specification[ mp3lame_encoder::Builder::set_num_channels ](
    builder: &mut mp3lame_encoder::Builder,
    num: u8,
) -> (res: Result<(), mp3lame_encoder::BuildError>)
;

/// `mp3lame_encoder::Builder::set_sample_rate` sets the input sample rate, or
/// reports that the encoder does not support it.
pub assume_specification[ mp3lame_encoder::Builder::set_sample_rate ](
    builder: &mut mp3lame_encoder::Builder,
    rate: u32,
) -> (res: Result<(), mp3lame_encoder::BuildError>)
;

/// `mp3lame_encoder::Builder::build` initialises the encoder with the
/// settings made, or reports that they are invalid together.
pub assume_specification[ mp3lame_encoder::Builder::build ](
    builder: mp3lame_encoder::Builder,
) -> (res: Result<mp3lame_encoder::Encoder, mp3lame_encoder::BuildError>)
;

/// The scratch size for encoding `samples` samples per channel: the samples,
/// a quarter more (rounded up), and one MP3 frame of 7200 bytes.
pub open spec fn required_buffer_size(samples: nat) -> nat {
    samples + (samples + 3) / 4 + 7200
}

/// `mp3lame_encoder::max_required_buffer_size` computes
/// `required_buffer_size` in wrapping arithmetic.
pub assume_specification[ mp3lame_encoder::max_required_buffer_size ](
    sample_number: usize,
) -> (size: usize)
    ensures
        size as int == required_buffer_size(sample_number as nat) as int % (usize::MAX as int + 1),
;

/// `mp3lame_encoder::Builder::set_quality`, called with the quality that the
/// crate numbers `level`, from `Quality::Best` (0) to `Quality::Worst` (9):
/// asks for that algorithmic quality, or reports that the encoder refused.
#[verifier::external_body]
fn set_quality(builder: &mut mp3lame_encoder::Builder, level: u8) -> (res: Result<
    (),
    mp3lame_encoder::BuildError,
>)
    requires
        level <= 9,
{
    builder.set_quality(
        match level {
            0 => Quality::Best,
            1 => Quality::SecondBest,
            2 => Quality::NearBest,
            3 => Quality::VeryNice,
            4 => Quality::Nice,
            5 => Quality::Good,
            6 => Quality::Decent,
            7 => Quality::Ok,
            8 => Quality::SecondWorst,
            _ => Quality::Worst,
        },
    )
}

/// `mp3lame_encoder::Encoder::encode_to_vec` on a `DualPcm` of the two
/// channels, into a fresh vector allocated with `capacity`. On success the
/// vector holds what the encoder gave out for these samples; what it keeps
/// back as look-ahead is not seen. Nothing is claimed of the bytes.
///
/// The crate hands the channel length and the capacity to the C library as
/// 32-bit integers and checks in debug builds that the channels are of equal
/// length; the C library does no bounds checking on a buffer of size 0. The
/// `requires` leaves those inputs out.
#[verifier::external_body]
fn encode_stereo(
    encoder: &mut mp3lame_encoder::Encoder,
    left: &[i16],
    right: &[i16],
    capacity: usize,
) -> (res: Result<Vec<u8>, mp3lame_encoder::EncodeError>)
    requires
        left@.len() == right@.len(),
        left@.len() <= i32::MAX,
        0 < capacity <= i32::MAX,
{
    let mut output = Vec::with_capacity(capacity);
    encoder.encode_to_vec(mp3lame_encoder::DualPcm { left, right }, &mut output)?;
    Ok(output)
}

/// `mp3lame_encoder::Encoder::flush_to_vec` with `FlushNoGap`, into a fresh
/// vector allocated with `capacity`: the flush that fills the last frame with
/// ancillary data, not with padding. On success the vector holds what the
/// encoder gave out. Nothing is claimed of the bytes.
///
/// The crate's documentation asks for room for one frame, 7200 bytes, and
/// the crate hands the capacity to the C library as a 32-bit integer.
#[verifier::external_body]
fn flush_no_gap(encoder: &mut mp3lame_encoder::Encoder, capacity: usize) -> (res: Result<
    Vec<u8>,
    mp3lame_encoder::EncodeError,
>)
    requires
        7200 <= capacity <= i32::MAX,
{
    let mut output = Vec::with_capacity(capacity);
    encoder.flush_to_vec::<mp3lame_encoder::FlushNoGap>(&mut output)?;
    Ok(output)
}

/// The number of channels the encoder is configured for.
pub const CHANNELS: u8 = 2;

/// The best of the encoder's quality levels; 9 is the worst.
pub const BEST_QUALITY: u8 = 0;

/// The size of the scratch buffer that the flush drains into: one MP3 frame.
pub const FLUSH_CAPACITY: usize = 7200;

/// The stage of an encoder session at which a failure arose.
#[derive(Clone, Copy, Debug, PartialEq, Eq, Structural)]
pub enum EncoderStage {
    Configure,
    Encode,
    Flush,
}

/// Why a stage failed.
#[derive(Clone, Copy, Debug, PartialEq, Eq)]
pub enum FailureCause {
    /// No encoder could be allocated.
    NoEncoder,
    /// The encoder was to be initialised before it was given its settings.
    NoSettings,
    /// The encoder refused a setting, or the settings together.
    Rejected(mp3lame_encoder::BuildError),
    /// The channels are too long for one encode call: the scratch buffer
    /// they require is beyond what the encoder can address.
    InputTooLong,
    /// The encoder reported an error.
    Failed(mp3lame_encoder::EncodeError),
    /// The encoder gave out more than the scratch buffer is sized for.
    Overrun,
}

/// A fatal failure of the encoder: the stage and the cause.
#[derive(Clone, Copy, Debug, PartialEq, Eq)]
pub struct EncoderFailure {
    pub stage: EncoderStage,
    pub cause: FailureCause,
}

impl EncoderFailure {
    /// The failure of `stage` for `cause`.
    pub fn at(stage: EncoderStage, cause: FailureCause) -> (failure: EncoderFailure)
        ensures
            failure == (EncoderFailure { stage, cause }),
    {
        EncoderFailure { stage, cause }
    }
}

/// What an encoder is configured with.
#[derive(Clone, Copy, Debug, PartialEq, Eq, Structural)]
pub struct EncoderSettings {
    /// The number of input channels.
    pub channels: u8,
    /// The input sample rate.
    pub sample_rate: u32,
    /// The quality level, from 0, the best, to 9.
    pub quality: u8,
}

impl EncoderSettings {
    /// The settings of the transcoding pipeline for a stream at
    /// `sample_rate`: two channels, that rate, the best quality.
    pub open spec fn standard(sample_rate: u32) -> EncoderSettings {
        EncoderSettings { channels: CHANNELS, sample_rate, quality: BEST_QUALITY }
    }

    /// The settings of the transcoding pipeline for a stream at
    /// `sample_rate`.
    pub fn for_rate(sample_rate: u32) -> (settings: EncoderSettings)
        ensures
            settings == EncoderSettings::standard(sample_rate),
    {
        EncoderSettings { channels: CHANNELS, sample_rate, quality: BEST_QUALITY }
    }
}

/// Where an encoder session stands.
#[derive(Clone, Copy, Debug, PartialEq, Eq, Structural)]
pub enum SessionState {
    /// Configured; nothing encoded yet.
    Configured,
    /// Samples were encoded; the encoder holds look-ahead that only a flush
    /// gives out.
    Encoding,
    /// Flushed: the stream is complete.
    Flushed,
    /// Closed, by `close` or by a failure. Terminal.
    Closed,
}

/// A call that the encoder of a session answered with bytes.
pub enum Call {
    /// An encode call: the two channels it took and the bytes it gave out.
    Encode { left: Seq<i16>, right: Seq<i16>, bytes: Seq<u8> },
    /// The flush: the bytes it gave out, the end of the stream.
    Flush { bytes: Seq<u8> },
}

impl Call {
    /// The bytes that the encoder gave out in the call.
    pub open spec fn bytes(self) -> Seq<u8> {
        match self {
            Call::Encode { bytes, .. } => bytes,
            Call::Flush { bytes } => bytes,
        }
    }
}

/// An encoder with the state of its session. The session owns the encoder
/// from configuration to its end, and keeps account of what the encoder was
/// configured with and of every call that it answered.
pub struct EncoderSession {
    encoder: mp3lame_encoder::Encoder,
    state: SessionState,
    settings: EncoderSettings,
    history: Ghost<Seq<Call>>,
}

/// Whether `samples` samples per channel can go into one encode call: the
/// scratch buffer they require must fit the encoder's 32-bit lengths.
pub open spec fn fits_one_call(samples: nat) -> bool {
    required_buffer_size(samples) <= i32::MAX
}

/// The size of the scratch buffer for encoding `samples` samples per channel
/// in one call, or `None` where they are too many for one call.
pub fn scratch_capacity(samples: usize) -> (capacity: Option<usize>)
    ensures
        fits_one_call(samples as nat) ==> capacity == Some(
            required_buffer_size(samples as nat) as usize,
        ),
        !fits_one_call(samples as nat) ==> capacity is None,
{
    if samples > 0x7fff_ffff {
        return None;
    }
    let capacity: usize = mp3lame_encoder::max_required_buffer_size(samples);
    proof {
        let required = required_buffer_size(samples as nat);
        assert(required <= usize::MAX);
        lemma_small_mod(required, (usize::MAX + 1) as nat);
    }
    if capacity > 0x7fff_ffff {
        None
    } else {
        Some(capacity)
    }
}

/// What becomes of a setting handed to the encoder: nothing where the
/// encoder accepted it, else the failure of stage `Configure` with the
/// encoder's reason.
pub fn accepted(outcome: Result<(), mp3lame_encoder::BuildError>) -> (res: Result<
    (),
    EncoderFailure,
>)
    ensures
        res == match outcome {
            Ok(_) => Ok::<(), EncoderFailure>(()),
            Err(error) => Err(
                EncoderFailure {
                    stage: EncoderStage::Configure,
                    cause: FailureCause::Rejected(error),
                },
            ),
        },
{
    match outcome {
        Ok(_) => Ok(()),
        Err(error) => Err(
            EncoderFailure::at(EncoderStage::Configure, FailureCause::Rejected(error)),
        ),
    }
}

/// An encoder under configuration, with the account of the settings that it
/// was given.
pub struct EncoderSetup {
    builder: mp3lame_encoder::Builder,
    given: Option<EncoderSettings>,
}

impl EncoderSetup {
    /// The encoder under configuration.
    pub closed spec fn builder(&self) -> mp3lame_encoder::Builder {
        self.builder
    }

    /// The settings that the encoder was given and accepted, all of them;
    /// `None` before it was given any, and after it refused one.
    pub closed spec fn given(&self) -> Option<EncoderSettings> {
        self.given
    }

    /// What becomes of the attempt to allocate an encoder: a setup that owns
    /// the encoder and was given nothing yet, or the failure of stage
    /// `Configure` that none could be allocated.
    pub fn allocated(outcome: Option<mp3lame_encoder::Builder>) -> (res: Result<
        EncoderSetup,
        EncoderFailure,
    >)
        ensures
            match outcome {
                Some(builder) => {
                    &&& res matches Ok(setup)
                    &&& setup.builder() == builder
                    &&& setup.given() is None
                },
                None => res matches Err(failure) && failure == (EncoderFailure {
                    stage: EncoderStage::Configure,
                    cause: FailureCause::NoEncoder,
                }),
            },
    {
        match outcome {
            Some(builder) => Ok(EncoderSetup { builder, given: None }),
            None => Err(EncoderFailure::at(EncoderStage::Configure, FailureCause::NoEncoder)),
        }
    }

    /// Allocates an encoder. Whether one can be had is not the library's
    /// decision; what becomes of the answer is said by `allocated`.
    pub fn begin() -> (res: Result<EncoderSetup, EncoderFailure>)
        ensures
            res matches Ok(setup) ==> setup.given() is None,
            res matches Err(failure) ==> failure == (EncoderFailure {
                stage: EncoderStage::Configure,
                cause: FailureCause::NoEncoder,
            }),
    {
        EncoderSetup::allocated(mp3lame_encoder::Builder::new())
    }

    /// Gives the encoder its settings: the number of channels, the sample
    /// rate and the quality level, in this order.
    ///
    /// Whether the encoder accepts a setting is the encoder's decision; what
    /// becomes of each answer is said by `accepted`. The first refusal ends
    /// the giving, and the setup then counts as given nothing.
    pub fn give(&mut self, settings: EncoderSettings) -> (res: Result<(), EncoderFailure>)
        requires
            settings.quality <= 9,
        ensures
            res is Ok ==> final(self).given() == Some(settings),
            res matches Err(failure) ==> {
                &&& failure.stage == EncoderStage::Configure
                &&& failure.cause is Rejected
                &&& final(self).given() is None
            },
    {
        self.given = None;
        accepted(self.builder.set_num_channels(settings.channels))?;
        accepted(self.builder.set_sample_rate(settings.sample_rate))?;
        accepted(set_quality(&mut self.builder, settings.quality))?;
        self.given = Some(settings);
        Ok(())
    }

    /// Initialises the encoder with the settings it was given, and opens a
    /// session on it. A setup that was given no settings is not
    /// initialised.
    ///
    /// Whether the encoder accepts the settings together is the encoder's
    /// decision; what becomes of its answer is said by
    /// `EncoderSession::initialised`.
    pub fn build(self) -> (res: Result<EncoderSession, EncoderFailure>)
        ensures
            match self.given() {
                Some(settings) => {
                    &&& res matches Ok(session) ==> session.is_fresh() && session.settings()
                        == settings
                    &&& res matches Err(failure) ==> failure.stage == EncoderStage::Configure
                        && failure.cause is Rejected
                },
                None => res matches Err(failure) && failure == (EncoderFailure {
                    stage: EncoderStage::Configure,
                    cause: FailureCause::NoSettings,
                }),
            },
    {
        let EncoderSetup { builder, given } = self;
        match given {
            Some(settings) => EncoderSession::initialised(builder.build(), settings),
            None => Err(EncoderFailure::at(EncoderStage::Configure, FailureCause::NoSettings)),
        }
    }
}

impl EncoderSession {
    /// Where the session stands.
    pub closed spec fn state(&self) -> SessionState {
        self.state
    }

    /// What the encoder was configured with.
    pub closed spec fn settings(&self) -> EncoderSettings {
        self.settings
    }

    /// The calls that the encoder answered with bytes, in order. A call that
    /// failed is not among them.
    pub closed spec fn history(&self) -> Seq<Call> {
        self.history@
    }

    /// The encoder that the session owns.
    pub closed spec fn encoder(&self) -> mp3lame_encoder::Encoder {
        self.encoder
    }

    /// Whether the session accepts samples or a flush.
    pub open spec fn is_open(&self) -> bool {
        self.state() == SessionState::Configured || self.state() == SessionState::Encoding
    }

    /// Whether the session is as `configure` leaves it: the encoder has
    /// answered no call.
    pub open spec fn is_fresh(&self) -> bool {
        &&& self.state() == SessionState::Configured
        &&& self.history() == Seq::<Call>::empty()
    }

    /// Whether the encoder was flushed: its last answer is that of a flush.
    pub open spec fn was_flushed(&self) -> bool {
        self.history().len() > 0 && self.history().last() is Flush
    }

    /// Where the session stands.
    pub fn current_state(&self) -> (state: SessionState)
        ensures
            state == self.state(),
    {
        self.state
    }

    /// What the encoder was configured with.
    pub fn current_settings(&self) -> (settings: EncoderSettings)
        ensures
            settings == self.settings(),
    {
        self.settings
    }

    /// What becomes of the attempt to initialise an encoder that was given
    /// `settings`: a fresh session that owns the encoder, or the failure of
    /// stage `Configure` with the encoder's reason.
    pub fn initialised(
        outcome: Result<mp3lame_encoder::Encoder, mp3lame_encoder::BuildError>,
        settings: EncoderSettings,
    ) -> (res: Result<EncoderSession, EncoderFailure>)
        ensures
            match outcome {
                Ok(encoder) => {
                    &&& res matches Ok(session)
                    &&& session.encoder() == encoder
                    &&& session.settings() == settings
                    &&& session.is_fresh()
                },
                Err(error) => res matches Err(failure) && failure == (EncoderFailure {
                    stage: EncoderStage::Configure,
                    cause: FailureCause::Rejected(error),
                }),
            },
    {
        match outcome {
            Ok(encoder) => Ok(
                EncoderSession {
                    encoder,
                    state: SessionState::Configured,
                    settings,
                    history: Ghost(Seq::empty()),
                },
            ),
            Err(error) => Err(
                EncoderFailure::at(EncoderStage::Configure, FailureCause::Rejected(error)),
            ),
        }
    }

    /// Configures an encoder for a stream at `sample_rate` and initialises
    /// it: an encoder is allocated, is given the settings of
    /// `EncoderSettings::standard`, and is initialised.
    ///
    /// Whether the encoder accepts is the encoder's decision. What becomes
    /// of each of its answers is said by `EncoderSetup::allocated`,
    /// `accepted` and `initialised`: the first refusal ends the
    /// configuration. A failure is of stage `Configure`.
    pub fn configure(sample_rate: u32) -> (res: Result<EncoderSession, EncoderFailure>)
        ensures
            res matches Ok(session) ==> {
                &&& session.is_fresh()
                &&& session.settings() == EncoderSettings::standard(sample_rate)
            },
            res matches Err(failure) ==> failure.stage == EncoderStage::Configure && (
            failure.cause is NoEncoder || failure.cause is Rejected),
    {
        let mut setup = EncoderSetup::begin()?;
        setup.give(EncoderSettings::for_rate(sample_rate))?;
        setup.build()
    }

    /// What becomes of an encode call on `left` and `right` into a scratch
    /// buffer of `capacity` bytes.
    ///
    /// Bytes that fit the scratch buffer are the result, and the call
    /// enters the history. More bytes than the scratch buffer holds are an
    /// overrun, and an error of the encoder is a failure with the encoder's
    /// reason: both are of stage `Encode`, close the session and leave the
    /// history as it was.
    pub fn encoded(
        &mut self,
        outcome: Result<Vec<u8>, mp3lame_encoder::EncodeError>,
        capacity: usize,
        left: &[i16],
        right: &[i16],
    ) -> (res: Result<Vec<u8>, EncoderFailure>)
        requires
            old(self).is_open(),
        ensures
            final(self).settings() == old(self).settings(),
            final(self).encoder() == old(self).encoder(),
            match outcome {
                Ok(bytes) => if bytes@.len() <= capacity {
                    &&& res == Ok::<Vec<u8>, EncoderFailure>(bytes)
                    &&& final(self).state() == SessionState::Encoding
                    &&& final(self).history() == old(self).history().push(
                        Call::Encode { left: left@, right: right@, bytes: bytes@ },
                    )
                } else {
                    &&& res matches Err(failure)
                    &&& failure == (EncoderFailure {
                        stage: EncoderStage::Encode,
                        cause: FailureCause::Overrun,
                    })
                    &&& final(self).state() == SessionState::Closed
                    &&& final(self).history() == old(self).history()
                },
                Err(error) => {
                    &&& res matches Err(failure)
                    &&& failure == (EncoderFailure {
                        stage: EncoderStage::Encode,
                        cause: FailureCause::Failed(error),
                    })
                    &&& final(self).state() == SessionState::Closed
                    &&& final(self).history() == old(self).history()
                },
            },
    {
        match outcome {
            Ok(bytes) => {
                if bytes.len() > capacity {
                    self.state = SessionState::Closed;
                    Err(EncoderFailure::at(EncoderStage::Encode, FailureCause::Overrun))
                } else {
                    self.state = SessionState::Encoding;
                    self.history = Ghost(
                        self.history@.push(
                            Call::Encode { left: left@, right: right@, bytes: bytes@ },
                        ),
                    );
                    Ok(bytes)
                }
            },
            Err(error) => {
                self.state = SessionState::Closed;
                Err(EncoderFailure::at(EncoderStage::Encode, FailureCause::Failed(error)))
            },
        }
    }

    /// Encodes the two channels in one call, into a scratch buffer of
    /// `required_buffer_size` bytes, and returns what the encoder wrote.
    ///
    /// The encoder keeps the end of the signal back as look-ahead: the stream
    /// is complete only after `flush`. Channels too long for one call are
    /// refused before the encoder sees them. What the encoder writes, and
    /// whether it fails, is the encoder's decision; what becomes of its
    /// answer is said by `encoded`. A failure is of stage `Encode` and closes
    /// the session.
    pub fn encode(&mut self, left: &[i16], right: &[i16]) -> (res: Result<Vec<u8>, EncoderFailure>)
        requires
            old(self).is_open(),
            left@.len() == right@.len(),
        ensures
            final(self).settings() == old(self).settings(),
            res matches Ok(bytes) ==> {
                &&& fits_one_call(left@.len())
                &&& bytes@.len() <= required_buffer_size(left@.len())
                &&& final(self).state() == SessionState::Encoding
                &&& final(self).history() == old(self).history().push(
                    Call::Encode { left: left@, right: right@, bytes: bytes@ },
                )
            },
            res matches Err(failure) ==> {
                &&& failure.stage == EncoderStage::Encode
                &&& final(self).state() == SessionState::Closed
                &&& final(self).history() == old(self).history()
                &&& (failure.cause is InputTooLong || failure.cause is Failed
                    || failure.cause is Overrun)
            },
            !fits_one_call(left@.len()) <==> (res matches Err(failure) && failure.cause
                is InputTooLong),
    {
        let capacity: usize = match scratch_capacity(left.len()) {
            Some(capacity) => capacity,
            None => {
                self.state = SessionState::Closed;
                return Err(EncoderFailure::at(EncoderStage::Encode, FailureCause::InputTooLong));
            },
        };
        let outcome = encode_stereo(&mut self.encoder, left, right, capacity);
        self.encoded(outcome, capacity, left, right)
    }

    /// What becomes of the flush into a scratch buffer of `FLUSH_CAPACITY`
    /// bytes.
    ///
    /// Bytes that fit the scratch buffer are the result, and the flush
    /// enters the history. More bytes than the scratch buffer holds are an
    /// overrun, and an error of the encoder is a failure with the encoder's
    /// reason: both are of stage `Flush`, close the session and leave the
    /// history as it was.
    pub fn flushed(&mut self, outcome: Result<Vec<u8>, mp3lame_encoder::EncodeError>) -> (res:
        Result<Vec<u8>, EncoderFailure>)
        requires
            old(self).is_open(),
        ensures
            final(self).settings() == old(self).settings(),
            final(self).encoder() == old(self).encoder(),
            match outcome {
                Ok(bytes) => if bytes@.len() <= FLUSH_CAPACITY {
                    &&& res == Ok::<Vec<u8>, EncoderFailure>(bytes)
                    &&& final(self).state() == SessionState::Flushed
                    &&& final(self).history() == old(self).history().push(
                        Call::Flush { bytes: bytes@ },
                    )
                } else {
                    &&& res matches Err(failure)
                    &&& failure == (EncoderFailure {
                        stage: EncoderStage::Flush,
                        cause: FailureCause::Overrun,
                    })
                    &&& final(self).state() == SessionState::Closed
                    &&& final(self).history() == old(self).history()
                },
                Err(error) => {
                    &&& res matches Err(failure)
                    &&& failure == (EncoderFailure {
                        stage: EncoderStage::Flush,
                        cause: FailureCause::Failed(error),
                    })
                    &&& final(self).state() == SessionState::Closed
                    &&& final(self).history() == old(self).history()
                },
            },
    {
        match outcome {
            Ok(bytes) => {
                if bytes.len() > FLUSH_CAPACITY {
                    self.state = SessionState::Closed;
                    Err(EncoderFailure::at(EncoderStage::Flush, FailureCause::Overrun))
                } else {
                    self.state = SessionState::Flushed;
                    self.history = Ghost(self.history@.push(Call::Flush { bytes: bytes@ }));
                    Ok(bytes)
                }
            },
            Err(error) => {
                self.state = SessionState::Closed;
                Err(EncoderFailure::at(EncoderStage::Flush, FailureCause::Failed(error)))
            },
        }
    }

    /// Drains the encoder's look-ahead, without a padding gap, into a scratch
    /// buffer of `FLUSH_CAPACITY` bytes, and returns what the encoder wrote:
    /// the end of the stream.
    ///
    /// What the encoder writes, and whether it fails, is the encoder's
    /// decision; what becomes of its answer is said by `flushed`. A failure
    /// is of stage `Flush` and closes the session.
    pub fn flush(&mut self) -> (res: Result<Vec<u8>, EncoderFailure>)
        requires
            old(self).is_open(),
        ensures
            final(self).settings() == old(self).settings(),
            res matches Ok(bytes) ==> {
                &&& bytes@.len() <= FLUSH_CAPACITY
                &&& final(self).state() == SessionState::Flushed
                &&& final(self).history() == old(self).history().push(
                    Call::Flush { bytes: bytes@ },
                )
            },
            res matches Err(failure) ==> {
                &&& failure.stage == EncoderStage::Flush
                &&& final(self).state() == SessionState::Closed
                &&& final(self).history() == old(self).history()
                &&& (failure.cause is Failed || failure.cause is Overrun)
            },
    {
        let outcome = flush_no_gap(&mut self.encoder, FLUSH_CAPACITY);
        self.flushed(outcome)
    }

    /// Ends the session. Its settings and its history stay on record.
    pub fn close(&mut self)
        ensures
            final(self).state() == SessionState::Closed,
            final(self).settings() == old(self).settings(),
            final(self).history() == old(self).history(),
    {
        self.state = SessionState::Closed;
    }
}

} // verus!
