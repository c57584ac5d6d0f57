use live_captions_gtk::audio::device::{monitor_name_for_sink, pick_monitor};
use live_captions_gtk::audio::gstreamer::{
    is_standard_format, sample_words, DroppedBufferCounter, NegotiatedFormat,
};
use live_captions_gtk::audio::source::{
    choose_microphone_source, choose_system_audio_source, needs_pulse_monitor, AudioSource,
    SourceElement,
};

#[test]
fn microphone_prefers_pulseaudio() {
    assert!(matches!(choose_microphone_source(true), SourceElement::Pulse { device: None }));
    assert!(matches!(
        choose_microphone_source(false),
        SourceElement::PipeWire { capture_sink: false }
    ));
    assert!(!needs_pulse_monitor(AudioSource::Microphone, true));
    assert!(needs_pulse_monitor(AudioSource::SystemAudio, true));
    assert!(!needs_pulse_monitor(AudioSource::SystemAudio, false));
}

#[test]
fn system_audio_uses_the_monitor_then_pipewire() {
    match choose_system_audio_source(true, true, Some(Ok("sink.monitor".into()))) {
        Ok(choice) => {
            assert!(matches!(choice.element, SourceElement::Pulse { device: Some(ref d) } if d == "sink.monitor"));
            assert!(choice.pulse_error.is_none());
        }
        Err(e) => panic!("unexpected {e:?}"),
    }
    match choose_system_audio_source(true, true, Some(Err("no server".into()))) {
        Ok(choice) => {
            assert!(matches!(choice.element, SourceElement::PipeWire { capture_sink: true }));
            assert_eq!(choice.pulse_error, Some("no server".to_string()));
        }
        Err(e) => panic!("unexpected {e:?}"),
    }
    assert_eq!(
        choose_system_audio_source(true, false, Some(Err("no server".into()))).err(),
        Some(Some("no server".to_string()))
    );
    assert_eq!(choose_system_audio_source(false, false, None).err(), Some(None));
    assert!(choose_system_audio_source(false, true, None).is_ok());
}

#[test]
fn monitor_of_the_default_output_is_preferred() {
    assert_eq!(monitor_name_for_sink("alsa_output.pci"), "alsa_output.pci.monitor");
    let names = vec![
        Some("mic".to_string()),
        None,
        Some("other.monitor".to_string()),
        Some("out.monitor".to_string()),
    ];
    assert_eq!(pick_monitor(Some("out"), &names), Some(3));
    assert_eq!(pick_monitor(Some("missing"), &names), Some(2));
    assert_eq!(pick_monitor(None, &names), Some(2));
    assert_eq!(pick_monitor(Some("out"), &[Some("mic".to_string())]), None);
}

#[test]
fn buffers_decode_to_little_endian_sample_words() {
    let samples = [0.5f32, -1.0, 16_000.25];
    let bytes: Vec<u8> = samples.iter().flat_map(|s| s.to_le_bytes()).collect();
    let words = sample_words(&bytes).expect("whole samples");
    let decoded: Vec<f32> = words.into_iter().map(f32::from_bits).collect();
    assert_eq!(decoded, samples);
    assert_eq!(sample_words(&bytes[..5]), None);
    assert_eq!(sample_words(&[]), Some(vec![]));
}

#[test]
fn standard_format_is_f32le_mono_16khz() {
    let standard = NegotiatedFormat { f32_le: true, interleaved: true, channels: 1, rate: 16_000 };
    assert!(is_standard_format(&standard));
    assert!(!is_standard_format(&NegotiatedFormat { rate: 48_000, ..standard }));
    assert!(!is_standard_format(&NegotiatedFormat { channels: 2, ..standard }));
    assert!(!is_standard_format(&NegotiatedFormat { f32_le: false, ..standard }));
}

#[test]
fn dropped_buffers_are_counted_since_the_last_reading() {
    let mut counter = DroppedBufferCounter::new(5);
    assert_eq!(counter.take(5), 0);
    assert_eq!(counter.take(9), 4);
    assert_eq!(counter.take(3), 0);
    assert_eq!(counter.take(4), 1);
}
