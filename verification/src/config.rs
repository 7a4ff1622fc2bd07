//! The configuration of an offline render: the options of the channel group,
//! of the soundfont, and of the output.
//!
//! The types hold plain values. Whoever drives the synthesis engine builds
//! the engine's own options from them.

use vstd::prelude::*;

verus! {

/// The number of audio channels of a stream.
#[derive(Clone, Copy, Debug, PartialEq, Eq, Hash, Structural)]
pub enum ChannelCount {
    Mono,
    Stereo,
}

/// The parameters of an audio stream: fixed for a run, and the same for the
/// driver and the transcoder.
#[derive(Clone, Copy, Debug, PartialEq, Eq, Hash, Structural)]
pub struct AudioStreamParams {
    pub sample_rate: u32,
    pub channels: ChannelCount,
}

impl AudioStreamParams {
    /// The parameters of a stream of `sample_rate` samples a second in
    /// `channels`.
    pub fn new(sample_rate: u32, channels: ChannelCount) -> (params: AudioStreamParams)
        ensures
            params == (AudioStreamParams { sample_rate, channels }),
    {
        AudioStreamParams { sample_rate, channels }
    }
}

/// The channel format of the synthesizer.
#[derive(Clone, Copy, Debug, PartialEq, Eq, Structural)]
pub enum SynthFormat {
    /// The 16 channels of MIDI; channel 10 is percussion.
    Midi,
    /// A number of channels with default settings.
    Custom { channels: u32 },
}

/// How many threads a task of the synthesizer runs on.
#[derive(Clone, Copy, Debug, PartialEq, Eq, Structural)]
pub enum ThreadCount {
    /// On the calling thread only.
    Single,
    /// On as many threads as the engine sees fit.
    Auto,
    /// On this many threads.
    Manual(usize),
}

/// Which parts of the channel group run on several threads.
#[derive(Clone, Copy, Debug, PartialEq, Eq, Structural)]
pub struct ParallelismOptions {
    /// The channels among each other.
    pub channel: ThreadCount,
    /// The keys of a channel among each other.
    pub key: ThreadCount,
}

/// The options of a channel.
#[derive(Clone, Copy, Debug, PartialEq, Eq, Structural)]
pub struct ChannelInitOptions {
    /// Whether a voice killed at the voice limit fades out.
    pub fade_out_killing: bool,
}

/// The options of the channel group.
#[derive(Clone, Copy, Debug, PartialEq, Eq, Structural)]
pub struct ChannelGroupConfig {
    pub channel_init_options: ChannelInitOptions,
    pub format: SynthFormat,
    pub audio_params: AudioStreamParams,
    pub parallelism: ParallelismOptions,
}

/// The curve of a stage of an envelope.
#[derive(Clone, Copy, Debug, PartialEq, Eq, Structural)]
pub enum EnvelopeCurveType {
    Linear,
    Exponential,
}

/// The curves of the volume envelope.
#[derive(Clone, Copy, Debug, PartialEq, Eq, Structural)]
pub struct EnvelopeOptions {
    pub attack_curve: EnvelopeCurveType,
    pub decay_curve: EnvelopeCurveType,
    pub release_curve: EnvelopeCurveType,
}

/// How samples are interpolated.
#[derive(Clone, Copy, Debug, PartialEq, Eq, Structural)]
pub enum Interpolator {
    Nearest,
    Linear,
}

/// The options a soundfont is loaded with.
#[derive(Clone, Copy, Debug, PartialEq, Eq, Structural)]
pub struct SoundfontInitOptions {
    /// The bank to use; all banks where none is given.
    pub bank: Option<u8>,
    /// The preset to use; all presets where none is given.
    pub preset: Option<u8>,
    pub vol_envelope_options: EnvelopeOptions,
    /// Whether voices of this soundfont use signal processing effects.
    pub use_effects: bool,
    pub interpolator: Interpolator,
}

/// The configuration of an offline render.
#[derive(Clone, Copy, Debug, PartialEq, Eq, Structural)]
pub struct XSynthRenderConfig {
    pub group_options: ChannelGroupConfig,
    pub sf_options: SoundfontInitOptions,
    /// Whether a limiter is applied to the output.
    pub use_limiter: bool,
}

impl XSynthRenderConfig {
    /// The default configuration: MIDI channels, 44100 Hz stereo, automatic
    /// threading of channels and keys, fading out of killed voices; all
    /// banks and presets, an exponential attack with linear decay and
    /// release, effects on, linear interpolation; no limiter.
    pub open spec fn standard() -> XSynthRenderConfig {
        XSynthRenderConfig {
            group_options: ChannelGroupConfig {
                channel_init_options: ChannelInitOptions { fade_out_killing: true },
                format: SynthFormat::Midi,
                audio_params: AudioStreamParams {
                    sample_rate: 44100,
                    channels: ChannelCount::Stereo,
                },
                parallelism: ParallelismOptions {
                    channel: ThreadCount::Auto,
                    key: ThreadCount::Auto,
                },
            },
            sf_options: SoundfontInitOptions {
                bank: None,
                preset: None,
                vol_envelope_options: EnvelopeOptions {
                    attack_curve: EnvelopeCurveType::Exponential,
                    decay_curve: EnvelopeCurveType::Linear,
                    release_curve: EnvelopeCurveType::Linear,
                },
                use_effects: true,
                interpolator: Interpolator::Linear,
            },
            use_limiter: false,
        }
    }
}

impl Default for XSynthRenderConfig {
    fn default() -> (config: Self)
        ensures
            config == XSynthRenderConfig::standard(),
    {
        XSynthRenderConfig {
            group_options: ChannelGroupConfig {
                channel_init_options: ChannelInitOptions { fade_out_killing: true },
                format: SynthFormat::Midi,
                audio_params: AudioStreamParams::new(44100, ChannelCount::Stereo),
                parallelism: ParallelismOptions {
                    channel: ThreadCount::Auto,
                    key: ThreadCount::Auto,
                },
            },
            sf_options: SoundfontInitOptions {
                bank: None,
                preset: None,
                vol_envelope_options: EnvelopeOptions {
                    attack_curve: EnvelopeCurveType::Exponential,
                    decay_curve: EnvelopeCurveType::Linear,
                    release_curve: EnvelopeCurveType::Linear,
                },
                use_effects: true,
                interpolator: Interpolator::Linear,
            },
            use_limiter: false,
        }
    }
}

} // verus!
