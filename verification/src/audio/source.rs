//! Choice of the capture source element for GStreamer.
//!
//! Which plugins are installed and the PulseAudio monitor lookup are observed by
//! the caller; this module decides which source element to build.
use vstd::prelude::*;

verus! {

/// What the user wants captioned.
#[derive(Clone, Copy, Debug, PartialEq, Eq, Structural)]
pub enum AudioSource {
    /// The physical microphone.
    Microphone,
    /// The monitor of the current system output.
    SystemAudio,
}

/// The capture source element to build.
#[derive(Debug)]
pub enum SourceElement {
    /// A `pulsesrc` element, reading `device` when given (else the default source).
    Pulse { device: Option<String> },
    /// A `pipewiresrc` element; with `capture_sink` it records the default output.
    PipeWire { capture_sink: bool },
}

/// The element chosen for system audio, with the reason the PulseAudio monitor
/// could not be used when PipeWire is taken instead.
#[derive(Debug)]
pub struct SystemAudioChoice {
    pub element: SourceElement,
    pub pulse_error: Option<String>,
}

/// Whether the PulseAudio monitor of the default output must be looked up before
/// choosing: only for system audio, and only when `pulsesrc` is installed.
pub fn needs_pulse_monitor(source: AudioSource, pulsesrc_available: bool) -> (r: bool)
    ensures
        r == (source == AudioSource::SystemAudio && pulsesrc_available),
{
    match source {
        AudioSource::SystemAudio => pulsesrc_available,
        AudioSource::Microphone => false,
    }
}

/// The microphone source: `pulsesrc` on the default source when installed, else
/// `pipewiresrc` on the default source.
pub fn choose_microphone_source(pulsesrc_available: bool) -> (r: SourceElement)
    ensures
        pulsesrc_available ==> r == (SourceElement::Pulse { device: None }),
        !pulsesrc_available ==> r == (SourceElement::PipeWire { capture_sink: false }),
{
    if pulsesrc_available {
        SourceElement::Pulse { device: None }
    } else {
        SourceElement::PipeWire { capture_sink: false }
    }
}

/// The system-audio source. `monitor` is the outcome of the monitor lookup, made
/// exactly when `pulsesrc` is installed. The monitor is read through `pulsesrc`
/// when found; otherwise PipeWire records the default output when `pipewiresrc`
/// is installed; otherwise there is no source, and the error is the failed
/// lookup's message (`None` when no plugin is installed).
pub fn choose_system_audio_source(
    pulsesrc_available: bool,
    pipewiresrc_available: bool,
    monitor: Option<Result<String, String>>,
) -> (r: Result<SystemAudioChoice, Option<String>>)
    requires
        monitor.is_some() == pulsesrc_available,
    ensures
        match monitor {
            Some(Ok(name)) => r matches Ok(c) && c.element == (SourceElement::Pulse { device: Some(name) })
                && c.pulse_error.is_none(),
            Some(Err(e)) => if pipewiresrc_available {
                r matches Ok(c) && c.element == (SourceElement::PipeWire { capture_sink: true })
                    && c.pulse_error == Some(e)
            } else {
                r == Err::<SystemAudioChoice, Option<String>>(Some(e))
            },
            None => if pipewiresrc_available {
                r matches Ok(c) && c.element == (SourceElement::PipeWire { capture_sink: true })
                    && c.pulse_error.is_none()
            } else {
                r == Err::<SystemAudioChoice, Option<String>>(None)
            },
        },
{
    let mut pulse_error: Option<String> = None;
    match monitor {
        Some(Ok(name)) => {
            return Ok(SystemAudioChoice { element: SourceElement::Pulse { device: Some(name) }, pulse_error: None });
        },
        Some(Err(e)) => {
            pulse_error = Some(e);
        },
        None => {},
    }
    if pipewiresrc_available {
        Ok(SystemAudioChoice { element: SourceElement::PipeWire { capture_sink: true }, pulse_error })
    } else {
        Err(pulse_error)
    }
}

} // verus!
