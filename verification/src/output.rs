//! The output worker: what it does with each command before anything reaches
//! the native device.
//!
//! Samples are handled by the bit patterns of their 32-bit floats; the pattern
//! of silence is zero.

use crate::settings::web_safe_dsp_settings;
use crate::settings::AudioDspSettings;
use vstd::prelude::*;

verus! {

/// Whether the browser's stream is processed at the output.
pub struct WebDsp {
    active: bool,
}

impl View for WebDsp {
    type V = bool;

    closed spec fn view(&self) -> bool {
        self.active
    }
}

impl WebDsp {
    /// Processing starts out inactive.
    pub fn new() -> (web_dsp: Self)
        ensures
            !web_dsp@,
    {
        WebDsp { active: false }
    }
}

/// Switches processing of the browser's stream.
pub fn set_web_dsp_active(web_dsp: &mut WebDsp, active: bool)
    ensures
        final(web_dsp)@ == active,
{
    web_dsp.active = active;
}

/// Whether the browser's stream is processed at the output.
pub fn web_dsp_active(web_dsp: &WebDsp) -> (active: bool)
    ensures
        active == web_dsp@,
{
    web_dsp.active
}

/// What the output worker is told.
pub enum OutputCommand {
    /// Open a device with a buffer of so many milliseconds, unless one is open.
    Open { device: Option<String>, buffer_ms: usize },
    /// Open another device.
    Reopen { device: Option<String>, buffer_ms: usize },
    /// Play samples of so many channels.
    Push { samples: Vec<u32>, channels: usize },
    /// Play a sound effect with a gain.
    PushSound { samples: Vec<u32>, gain_bits: u32 },
    SetMonitoring(bool),
    SetMuted(bool),
    /// Use these processing settings for the browser's stream.
    UpdateWebDsp(AudioDspSettings),
    /// Tell how many samples are queued.
    Queued,
    /// Close the device and end.
    Shutdown,
}

/// What the output worker does.
pub enum OutputAction {
    /// Reply whether the device is open.
    Reply(bool),
    /// Open a device, after closing the open one if asked to, and reply whether
    /// that worked.
    Start { close_first: bool, device: Option<String>, buffer_ms: usize },
    /// Process samples as `treated_as` channels, with a new processor if asked
    /// to, and hand the outcome to [`OutputWorker::processed`].
    Process { create: bool, samples: Vec<u32>, treated_as: usize, channels: usize },
    /// Give the processor up if asked to, and play samples of so many channels.
    PlayAudio { discard_processor: bool, samples: Vec<u32>, channels: usize },
    /// Play a sound effect.
    PlaySound { samples: Vec<u32>, gain_bits: u32 },
    Monitor(bool),
    /// Use these settings for the browser's stream.
    UseSettings(AudioDspSettings),
    ReportQueued,
    /// Close the device and end.
    Close,
    Nothing,
}

/// The samples that an action hands to the device, if any.
pub open spec fn to_device(action: OutputAction) -> Option<Seq<u32>> {
    match action {
        OutputAction::PlayAudio { samples, .. } => Some(samples@),
        OutputAction::PlaySound { samples, .. } => Some(samples@),
        _ => None,
    }
}

/// The output worker.
#[derive(Clone, Copy, Debug, PartialEq, Eq, Structural)]
pub struct OutputWorker {
    /// Whether everything is played as silence.
    pub muted: bool,
    /// Whether there is a processor for the browser's stream.
    pub has_processor: bool,
}

/// As many samples of silence.
pub open spec fn silence(length: nat) -> Seq<u32> {
    Seq::new(length, |i: int| 0u32)
}

/// Whether an action hands the device nothing but silence.
pub open spec fn is_silent(action: OutputAction) -> bool {
    to_device(action) matches Some(samples) ==> samples == silence(samples.len())
}

impl OutputWorker {
    /// A worker that is not muted and processes nothing.
    pub fn new() -> (worker: Self)
        ensures
            worker == (OutputWorker { muted: false, has_processor: false }),
    {
        OutputWorker { muted: false, has_processor: false }
    }

    /// What reaches the device of samples that are ready to be played.
    pub open spec fn heard(self, samples: Seq<u32>) -> Seq<u32> {
        if self.muted {
            silence(samples.len())
        } else {
            samples
        }
    }

    /// What reaches the device of samples that are ready to be played: while
    /// muted, silence of the same length.
    fn muted_samples(&self, samples: Vec<u32>) -> (played: Vec<u32>)
        ensures
            played@ == self.heard(samples@),
    {
        if !self.muted {
            return samples;
        }
        let mut played: Vec<u32> = Vec::with_capacity(samples.len());
        for i in 0..samples.len()
            invariant
                played@ == silence(i as nat),
        {
            played.push(0);
            assert(silence((i + 1) as nat) =~= silence(i as nat).push(0));
        }
        played
    }

    /// Goes on with samples that the processor has treated. Mute comes last, so
    /// nothing that processing adds is heard.
    pub fn processed(&self, samples: Vec<u32>, channels: usize) -> (action: OutputAction)
        ensures
            action matches OutputAction::PlayAudio {
                discard_processor,
                samples: played,
                channels: same,
            } && !discard_processor && played@ == self.heard(samples@) && same == channels,
            self.muted ==> is_silent(action),
    {
        OutputAction::PlayAudio {
            discard_processor: false,
            samples: self.muted_samples(samples),
            channels,
        }
    }

    /// Carries out a command, given whether a device is open and whether the
    /// browser's stream is to be processed.
    ///
    /// A processor is made with the first samples that need one and given up
    /// with the first that do not.
    pub fn handle(
        &mut self,
        command: OutputCommand,
        device_open: bool,
        web_dsp_active: bool,
    ) -> (action: OutputAction)
        ensures
            match command {
                OutputCommand::Open { device, buffer_ms } => {
                    &&& *final(self) == *old(self)
                    &&& action == if device_open {
                        OutputAction::Reply(true)
                    } else {
                        OutputAction::Start { close_first: false, device, buffer_ms }
                    }
                },
                OutputCommand::Reopen { device, buffer_ms } => {
                    &&& *final(self) == *old(self)
                    &&& action == OutputAction::Start { close_first: true, device, buffer_ms }
                },
                OutputCommand::Push { samples, channels } => {
                    let processing = web_dsp_active && samples@.len() > 0;
                    &&& *final(self) == (OutputWorker { has_processor: processing, ..*old(self) })
                    &&& processing ==> action == (OutputAction::Process {
                        create: !old(self).has_processor,
                        samples,
                        treated_as: if channels > 0 {
                            channels
                        } else {
                            1
                        },
                        channels,
                    })
                    &&& !processing ==> (action matches OutputAction::PlayAudio {
                        discard_processor,
                        samples: played,
                        channels: same,
                    } && discard_processor == old(self).has_processor && played@ == old(self).heard(
                        samples@,
                    ) && same == channels)
                },
                OutputCommand::PushSound { samples, gain_bits } => {
                    &&& *final(self) == *old(self)
                    &&& action matches OutputAction::PlaySound {
                        samples: played,
                        gain_bits: gain,
                    } && played@ == old(self).heard(samples@) && gain == gain_bits
                },
                OutputCommand::SetMonitoring(enabled) => {
                    &&& *final(self) == *old(self)
                    &&& action == OutputAction::Monitor(enabled)
                },
                OutputCommand::SetMuted(muted) => {
                    &&& *final(self) == (OutputWorker { muted, ..*old(self) })
                    &&& action == OutputAction::Nothing
                },
                OutputCommand::UpdateWebDsp(settings) => {
                    &&& *final(self) == *old(self)
                    &&& action == OutputAction::UseSettings(
                        AudioDspSettings { aec_enabled: false, ..settings },
                    )
                },
                OutputCommand::Queued => {
                    &&& *final(self) == *old(self)
                    &&& action == OutputAction::ReportQueued
                },
                OutputCommand::Shutdown => {
                    &&& *final(self) == *old(self)
                    &&& action == OutputAction::Close
                },
            },
            old(self).muted ==> is_silent(action),
    {
        match command {
            OutputCommand::Open { device, buffer_ms } => {
                if device_open {
                    OutputAction::Reply(true)
                } else {
                    OutputAction::Start { close_first: false, device, buffer_ms }
                }
            },
            OutputCommand::Reopen { device, buffer_ms } => OutputAction::Start {
                close_first: true,
                device,
                buffer_ms,
            },
            OutputCommand::Push { samples, channels } => {
                let had_processor = self.has_processor;
                self.has_processor = web_dsp_active && samples.len() > 0;
                if self.has_processor {
                    let treated_as: usize = if channels > 0 {
                        channels
                    } else {
                        1
                    };
                    OutputAction::Process { create: !had_processor, samples, treated_as, channels }
                } else {
                    OutputAction::PlayAudio {
                        discard_processor: had_processor,
                        samples: self.muted_samples(samples),
                        channels,
                    }
                }
            },
            OutputCommand::PushSound { samples, gain_bits } => OutputAction::PlaySound {
                samples: self.muted_samples(samples),
                gain_bits,
            },
            OutputCommand::SetMonitoring(enabled) => OutputAction::Monitor(enabled),
            OutputCommand::SetMuted(muted) => {
                self.muted = muted;
                OutputAction::Nothing
            },
            OutputCommand::UpdateWebDsp(settings) => OutputAction::UseSettings(
                web_safe_dsp_settings(settings),
            ),
            OutputCommand::Queued => OutputAction::ReportQueued,
            OutputCommand::Shutdown => OutputAction::Close,
        }
    }
}

/// Mute changes nothing but what is heard: the stream keeps its length, every
/// sample of it is silent while the worker is muted, and untouched otherwise.
pub proof fn mute_silences_everything(worker: OutputWorker, samples: Seq<u32>)
    ensures
        worker.heard(samples).len() == samples.len(),
        worker.muted ==> forall|i: int|
            0 <= i < samples.len() ==> worker.heard(samples)[i] == 0,
        !worker.muted ==> worker.heard(samples) == samples,
{
}

/// An action is silent exactly if every sample that it hands to the device is zero,
/// be it audio or a sound effect.
pub proof fn silent_actions_play_zeros(samples: Vec<u32>, discard: bool, channels: usize, gain: u32)
    ensures
        is_silent(
            OutputAction::PlayAudio { discard_processor: discard, samples, channels },
        ) <==> forall|i: int| 0 <= i < samples@.len() ==> #[trigger] samples@[i] == 0,
        is_silent(OutputAction::PlaySound { samples, gain_bits: gain }) <==> forall|i: int|
            0 <= i < samples@.len() ==> #[trigger] samples@[i] == 0,
{
    let zeros = silence(samples@.len());
    if forall|i: int| 0 <= i < samples@.len() ==> #[trigger] samples@[i] == 0 {
        assert(samples@ =~= zeros);
    }
    if samples@ == zeros {
        assert forall|i: int| 0 <= i < samples@.len() implies #[trigger] samples@[i] == 0 by {
            assert(zeros[i] == 0);
        }
    }
}

} // verus!
