use triad_player::config::{
    AudioStreamParams, ChannelCount, ChannelGroupConfig, ChannelInitOptions, EnvelopeCurveType,
    EnvelopeOptions, Interpolator, ParallelismOptions, SoundfontInitOptions, SynthFormat,
    ThreadCount, XSynthRenderConfig,
};

#[test]
fn default_config_renders_midi_in_stereo_at_44100() {
    let config = XSynthRenderConfig::default();
    assert_eq!(config.group_options.format, SynthFormat::Midi);
    assert_eq!(
        config.group_options.audio_params,
        AudioStreamParams { sample_rate: 44100, channels: ChannelCount::Stereo }
    );
    assert!(config.group_options.channel_init_options.fade_out_killing);
    assert_eq!(
        config.group_options.parallelism,
        ParallelismOptions { channel: ThreadCount::Auto, key: ThreadCount::Auto }
    );
    assert!(!config.use_limiter);
}

#[test]
fn default_config_loads_every_bank_with_effects() {
    let options = XSynthRenderConfig::default().sf_options;
    assert_eq!(options.bank, None);
    assert_eq!(options.preset, None);
    assert!(options.use_effects);
    assert_eq!(options.interpolator, Interpolator::Linear);
    assert_eq!(
        options.vol_envelope_options,
        EnvelopeOptions {
            attack_curve: EnvelopeCurveType::Exponential,
            decay_curve: EnvelopeCurveType::Linear,
            release_curve: EnvelopeCurveType::Linear,
        }
    );
}

#[test]
fn default_config_is_the_whole_value() {
    let expected = XSynthRenderConfig {
        group_options: ChannelGroupConfig {
            channel_init_options: ChannelInitOptions { fade_out_killing: true },
            format: SynthFormat::Midi,
            audio_params: AudioStreamParams::new(44100, ChannelCount::Stereo),
            parallelism: ParallelismOptions { channel: ThreadCount::Auto, key: ThreadCount::Auto },
        },
        sf_options: SoundfontInitOptions {
            bank: None,
            preset: None,
            vol_envelope_options: EnvelopeOptions {
                attack_curve: EnvelopeCurveType::Exponential,
                decay_curve: EnvelopeCurveType::Linear,
                release_curve: EnvelopeCurveType::Linear,
            },
            use_effects: true,
            interpolator: Interpolator::Linear,
        },
        use_limiter: false,
    };
    assert_eq!(XSynthRenderConfig::default(), expected);
    assert_eq!(XSynthRenderConfig::default().clone(), expected);
}

#[test]
fn stream_params_keep_what_they_are_given() {
    let params = AudioStreamParams::new(48000, ChannelCount::Mono);
    assert_eq!(params.sample_rate, 48000);
    assert_eq!(params.channels, ChannelCount::Mono);
}
