use mp3lame_encoder::{BuildError, EncodeError};
use triad_player::encoder::{
    accepted, scratch_capacity, EncoderFailure, EncoderSession, EncoderSettings, EncoderSetup,
    EncoderStage, FailureCause, SessionState, BEST_QUALITY, CHANNELS, FLUSH_CAPACITY,
};
use triad_player::transcode::{assemble, transcode, transcode_in};

fn starts_with_frame_sync(stream: &[u8]) -> bool {
    stream.len() >= 2 && stream[0] == 0xff && stream[1] & 0xe0 == 0xe0
}

fn stream_of(samples: &[u32], sample_rate: u32) -> Vec<u8> {
    transcode(samples, sample_rate).expect("the stream encodes").stream
}

fn session() -> EncoderSession {
    EncoderSession::configure(44100).expect("an encoder")
}

fn tone(pairs: usize) -> Vec<u32> {
    let mut samples = Vec::with_capacity(2 * pairs);
    for i in 0..pairs {
        let phase = i as f32 * 440.0 * 2.0 * std::f32::consts::PI / 44100.0;
        samples.push((0.5 * phase.sin()).to_bits());
        samples.push((0.25 * phase.cos()).to_bits());
    }
    samples
}

#[test]
fn scratch_capacity_is_samples_plus_a_quarter_plus_a_frame() {
    assert_eq!(scratch_capacity(0), Some(7200));
    assert_eq!(scratch_capacity(1), Some(7202));
    assert_eq!(scratch_capacity(3), Some(7204));
    assert_eq!(scratch_capacity(4), Some(7205));
    assert_eq!(scratch_capacity(5), Some(7207));
    assert_eq!(scratch_capacity(44100), Some(62325));
    assert_eq!(scratch_capacity(1000), Some(mp3lame_encoder::max_required_buffer_size(1000)));
}

#[test]
fn scratch_capacity_ends_where_32_bits_end() {
    assert_eq!(scratch_capacity(1_717_981_157), Some(2_147_483_647));
    assert_eq!(scratch_capacity(1_717_981_158), None);
    assert_eq!(scratch_capacity(0x7fff_ffff), None);
    assert_eq!(scratch_capacity(0x8000_0000), None);
    assert_eq!(scratch_capacity(usize::MAX), None);
}

#[test]
fn assemble_appends_the_tail() {
    assert_eq!(assemble(vec![1, 2, 3], &[4, 5]), vec![1, 2, 3, 4, 5]);
    assert_eq!(assemble(vec![], &[4, 5]), vec![4, 5]);
    assert_eq!(assemble(vec![1], &[]), vec![1]);
    assert_eq!(assemble(vec![], &[]), Vec::<u8>::new());
}

#[test]
fn silence_encodes_to_a_stream_within_the_bound() {
    let pairs = 44100;
    let stream = stream_of(&vec![0u32; 2 * pairs], 44100);
    assert!(!stream.is_empty());
    assert!(stream.len() <= mp3lame_encoder::max_required_buffer_size(pairs) + 7200);
    assert!(starts_with_frame_sync(&stream));
}

#[test]
fn a_tone_encodes_to_a_stream_within_the_bound() {
    let pairs = 22050;
    let stream = stream_of(&tone(pairs), 44100);
    assert!(!stream.is_empty());
    assert!(stream.len() <= scratch_capacity(pairs).unwrap() + FLUSH_CAPACITY);
    assert!(starts_with_frame_sync(&stream));
}

#[test]
fn an_empty_stream_still_flushes() {
    let stream = stream_of(&[], 44100);
    assert!(stream.len() <= 7200 + 7200);
}

#[test]
fn an_unpaired_last_sample_changes_nothing() {
    let mut samples = tone(4000);
    let even = stream_of(&samples, 44100);
    samples.push(0.75f32.to_bits());
    let odd = stream_of(&samples, 44100);
    assert_eq!(even, odd);
}

#[test]
fn the_flush_gives_out_the_end_of_the_signal() {
    let samples = tone(3000);
    let (left, right) = triad_player::pcm::prepare_channels(&samples);
    let mut session = EncoderSession::configure(44100).expect("an encoder");
    let body = session.encode(&left, &right).expect("encodes");
    let tail = session.flush().expect("flushes");
    assert!(!tail.is_empty());
    assert!(tail.len() <= FLUSH_CAPACITY);
    assert!(body.len() <= scratch_capacity(3000).unwrap());
    assert_eq!(stream_of(&samples, 44100), assemble(body, &tail));
}

#[test]
fn a_session_goes_from_configured_to_closed() {
    let mut session = EncoderSession::configure(44100).expect("an encoder");
    assert_eq!(session.current_state(), SessionState::Configured);
    session.encode(&[0i16; 2000], &[0i16; 2000]).expect("encodes");
    assert_eq!(session.current_state(), SessionState::Encoding);
    session.encode(&[0i16; 2000], &[0i16; 2000]).expect("encodes again");
    assert_eq!(session.current_state(), SessionState::Encoding);
    session.flush().expect("flushes");
    assert_eq!(session.current_state(), SessionState::Flushed);
    session.close();
    assert_eq!(session.current_state(), SessionState::Closed);
}

#[test]
fn a_session_can_be_flushed_without_samples() {
    let mut session = EncoderSession::configure(48000).expect("an encoder");
    let tail = session.flush().expect("flushes");
    assert!(tail.len() <= FLUSH_CAPACITY);
    assert_eq!(session.current_state(), SessionState::Flushed);
}

#[test]
fn a_refused_sample_rate_fails_the_configuration() {
    match EncoderSession::configure(0) {
        Ok(_) => panic!("a sample rate of 0 was accepted"),
        Err(EncoderFailure { stage, cause }) => {
            assert_eq!(stage, EncoderStage::Configure);
            assert!(matches!(cause, FailureCause::Rejected(_)));
        }
    }
    match transcode(&tone(10), 0) {
        Ok(_) => panic!("a sample rate of 0 was accepted"),
        Err(failure) => assert_eq!(failure.stage, EncoderStage::Configure),
    }
}

#[test]
fn the_encoder_is_stereo() {
    assert_eq!(CHANNELS, 2);
    assert_eq!(FLUSH_CAPACITY, 7200);
}

#[test]
fn a_container_read_back_is_transcoded() {
    let spec = hound::WavSpec {
        channels: 2,
        sample_rate: 44100,
        bits_per_sample: 32,
        sample_format: hound::SampleFormat::Float,
    };
    let mut bytes = std::io::Cursor::new(Vec::new());
    {
        let mut writer = hound::WavWriter::new(&mut bytes, spec).expect("a writer");
        for bits in tone(5000) {
            writer.write_sample(f32::from_bits(bits)).expect("a sample written");
        }
        writer.finalize().expect("a finished container");
    }
    let reader = hound::WavReader::new(&bytes.get_ref()[..]).expect("a reader");
    let rate = reader.spec().sample_rate;
    let samples: Vec<u32> =
        reader.into_samples::<f32>().map(|sample| sample.expect("a sample").to_bits()).collect();
    assert_eq!(samples, tone(5000));
    let stream = stream_of(&samples, rate);
    assert!(starts_with_frame_sync(&stream));
    assert_eq!(stream, stream_of(&tone(5000), 44100));
}

#[test]
fn a_session_transcodes_one_stream_and_is_closed() {
    let samples = tone(3000);
    let mut session = EncoderSession::configure(44100).expect("an encoder");
    assert_eq!(session.current_settings(), EncoderSettings::for_rate(44100));
    let stream = transcode_in(&mut session, &samples).expect("encodes");
    assert_eq!(session.current_state(), SessionState::Closed);
    assert_eq!(session.current_settings(), EncoderSettings::for_rate(44100));
    assert!(!stream.is_empty());
    assert_eq!(stream, stream_of(&samples, 44100));
}

#[test]
fn the_sample_rate_reaches_the_encoder() {
    let samples = tone(8000);
    let at_44100 = stream_of(&samples, 44100);
    let at_32000 = stream_of(&samples, 32000);
    assert_ne!(at_44100, at_32000);
    assert_ne!((at_44100[2] >> 2) & 3, (at_32000[2] >> 2) & 3);
}

#[test]
fn the_samples_reach_the_encoder() {
    let silence = stream_of(&vec![0u32; 16000], 44100);
    let sound = stream_of(&tone(8000), 44100);
    assert_ne!(silence, sound);
}

#[test]
fn the_pipeline_settings_are_stereo_at_the_best_quality() {
    let settings = EncoderSettings::for_rate(48000);
    assert_eq!(settings, EncoderSettings { channels: 2, sample_rate: 48000, quality: 0 });
    assert_eq!((CHANNELS, BEST_QUALITY), (2, 0));
    assert_eq!(session().current_settings(), EncoderSettings::for_rate(44100));
}

#[test]
fn a_transcoded_stream_comes_with_its_closed_session() {
    let done = transcode(&tone(2000), 32000).expect("encodes");
    assert_eq!(done.session.current_state(), SessionState::Closed);
    assert_eq!(done.session.current_settings(), EncoderSettings::for_rate(32000));
    assert!(starts_with_frame_sync(&done.stream));
}

#[test]
fn no_encoder_is_a_failure_of_the_configuration() {
    let failure = EncoderSetup::allocated(None).err().expect("no encoder is a failure");
    assert_eq!(failure, EncoderFailure::at(EncoderStage::Configure, FailureCause::NoEncoder));
    assert!(EncoderSetup::allocated(mp3lame_encoder::Builder::new()).is_ok());
}

#[test]
fn a_refused_setting_is_a_failure_of_the_configuration() {
    assert_eq!(accepted(Ok(())), Ok(()));
    for error in [BuildError::Generic, BuildError::BadSampleFreq, BuildError::Other(-7)] {
        assert_eq!(
            accepted(Err(error)),
            Err(EncoderFailure::at(EncoderStage::Configure, FailureCause::Rejected(error)))
        );
    }
}

#[test]
fn a_failed_initialisation_is_a_failure_of_the_configuration() {
    let settings = EncoderSettings::for_rate(44100);
    let failure = EncoderSession::initialised(Err(BuildError::NoMem), settings)
        .err()
        .expect("a refusal is a failure");
    let cause = FailureCause::Rejected(BuildError::NoMem);
    assert_eq!(failure, EncoderFailure::at(EncoderStage::Configure, cause));
}

#[test]
fn encoded_bytes_within_the_scratch_buffer_are_handed_on() {
    let mut session = session();
    let bytes = vec![1u8, 2, 3];
    assert_eq!(session.encoded(Ok(bytes.clone()), 3, &[0; 4], &[0; 4]), Ok(bytes));
    assert_eq!(session.current_state(), SessionState::Encoding);
    assert_eq!(session.encoded(Ok(vec![]), 3, &[], &[]), Ok(vec![]));
    assert_eq!(session.current_state(), SessionState::Encoding);
}

#[test]
fn encoded_bytes_beyond_the_scratch_buffer_are_an_overrun() {
    let mut session = session();
    assert_eq!(
        session.encoded(Ok(vec![0u8; 4]), 3, &[0; 4], &[0; 4]),
        Err(EncoderFailure::at(EncoderStage::Encode, FailureCause::Overrun))
    );
    assert_eq!(session.current_state(), SessionState::Closed);
}

#[test]
fn a_failed_encode_call_is_never_a_success() {
    for error in [EncodeError::BufferTooSmall, EncodeError::NoMem, EncodeError::PsychoAcoustic] {
        let mut session = session();
        assert_eq!(
            session.encoded(Err(error), 7200, &[0; 4], &[0; 4]),
            Err(EncoderFailure::at(EncoderStage::Encode, FailureCause::Failed(error)))
        );
        assert_eq!(session.current_state(), SessionState::Closed);
    }
}

#[test]
fn flushed_bytes_within_the_scratch_buffer_are_handed_on() {
    let mut session = session();
    let bytes = vec![9u8; 7200];
    assert_eq!(session.flushed(Ok(bytes.clone())), Ok(bytes));
    assert_eq!(session.current_state(), SessionState::Flushed);
}

#[test]
fn flushed_bytes_beyond_the_scratch_buffer_are_an_overrun() {
    let mut session = session();
    assert_eq!(
        session.flushed(Ok(vec![9u8; 7201])),
        Err(EncoderFailure::at(EncoderStage::Flush, FailureCause::Overrun))
    );
    assert_eq!(session.current_state(), SessionState::Closed);
}

#[test]
fn a_failed_flush_is_never_a_success() {
    for error in [EncodeError::InvalidState, EncodeError::Other(-9)] {
        let mut session = session();
        assert_eq!(
            session.flushed(Err(error)),
            Err(EncoderFailure::at(EncoderStage::Flush, FailureCause::Failed(error)))
        );
        assert_eq!(session.current_state(), SessionState::Closed);
    }
}

#[test]
fn a_setup_is_given_its_settings_and_built() {
    let mut setup = EncoderSetup::begin().expect("an encoder");
    let settings = EncoderSettings { channels: 2, sample_rate: 48000, quality: 5 };
    assert_eq!(setup.give(settings), Ok(()));
    let session = setup.build().expect("a session");
    assert_eq!(session.current_settings(), settings);
    assert_eq!(session.current_state(), SessionState::Configured);
}

#[test]
fn a_setup_without_settings_is_not_built() {
    let setup = EncoderSetup::begin().expect("an encoder");
    let failure = setup.build().err().expect("nothing was given");
    assert_eq!(failure, EncoderFailure::at(EncoderStage::Configure, FailureCause::NoSettings));
}

#[test]
fn a_setup_that_refused_a_setting_is_not_built() {
    let mut setup = EncoderSetup::begin().expect("an encoder");
    let refused = setup.give(EncoderSettings { channels: 2, sample_rate: 0, quality: 0 });
    let failure = refused.err().expect("a rate of 0 is refused");
    assert_eq!(failure.stage, EncoderStage::Configure);
    assert!(matches!(failure.cause, FailureCause::Rejected(_)));
    let failure = setup.build().err().expect("nothing counts as given");
    assert_eq!(failure, EncoderFailure::at(EncoderStage::Configure, FailureCause::NoSettings));
}
