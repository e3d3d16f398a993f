//! The dashboard's switches: mute, monitoring, the output device and the
//! microphone server.

use crate::api::ApiError;
use crate::config::ServerPrefs;
use crate::output::set_web_dsp_active;
use crate::output::WebDsp;
use crate::text::same_text;
use vstd::prelude::*;

verus! {

/// A message to the phone in the native transports, with one part filled in.
pub struct MuteMessage {
    pub is_muted: Option<bool>,
}

/// What a control asks for, in order.
#[derive(Clone, Copy, Debug, PartialEq, Eq, Structural)]
pub enum ControlAction {
    /// Mute or unmute the output worker.
    MuteOutput(bool),
    /// Switch local monitoring in the output worker.
    MonitorOutput(bool),
    /// Tell the plugins that the microphone was muted or unmuted.
    TellPluginsMuted(bool),
    /// Tell the plugins that monitoring was switched.
    TellPluginsMonitoring(bool),
    /// Tell the desktop window that the microphone was muted or unmuted.
    ShowMuted(bool),
    /// Tell the desktop window that monitoring was switched.
    ShowMonitoring(bool),
    /// Send the connected phone its mute state.
    TellPhoneMuted(bool),
}

/// The switches that the whole program shares.
#[derive(Clone, Copy, Debug, PartialEq, Eq, Structural)]
pub struct Switches {
    pub muted: bool,
    pub monitoring: bool,
    pub spectrum_streaming: bool,
}

/// Mutes or unmutes from the dashboard.
pub fn set_mute(switches: &mut Switches, enabled: bool) -> (actions: Vec<ControlAction>)
    ensures
        *final(switches) == (Switches { muted: enabled, ..*old(switches) }),
        actions@ == seq![
            ControlAction::MuteOutput(enabled),
            ControlAction::TellPluginsMuted(enabled),
        ],
{
    switches.muted = enabled;
    let mut actions: Vec<ControlAction> = Vec::new();
    actions.push(ControlAction::MuteOutput(enabled));
    actions.push(ControlAction::TellPluginsMuted(enabled));
    actions
}

/// Mutes or unmutes from the desktop window. The phone of a native transport,
/// if one is connected, is told too.
pub fn set_mute_state(switches: &mut Switches, is_muted: bool, phone_connected: bool) -> (actions:
    Vec<ControlAction>)
    ensures
        *final(switches) == (Switches { muted: is_muted, ..*old(switches) }),
        actions@ == seq![
            ControlAction::MuteOutput(is_muted),
            ControlAction::TellPluginsMuted(is_muted),
            ControlAction::ShowMuted(is_muted),
        ] + if phone_connected {
            seq![ControlAction::TellPhoneMuted(is_muted)]
        } else {
            seq![]
        },
{
    let mut actions = set_mute(switches, is_muted);
    actions.push(ControlAction::ShowMuted(is_muted));
    if phone_connected {
        actions.push(ControlAction::TellPhoneMuted(is_muted));
    }
    actions
}

/// The message that tells a phone its mute state.
pub fn mute_message(is_muted: bool) -> (message: MuteMessage)
    ensures
        message.is_muted == Some(is_muted),
{
    MuteMessage { is_muted: Some(is_muted) }
}

/// Switches monitoring; from the desktop window the window is told too.
pub fn set_monitoring(switches: &mut Switches, enabled: bool, from_window: bool) -> (actions: Vec<
    ControlAction,
>)
    ensures
        *final(switches) == (Switches { monitoring: enabled, ..*old(switches) }),
        actions@ == seq![
            ControlAction::MonitorOutput(enabled),
            ControlAction::TellPluginsMonitoring(enabled),
        ] + if from_window {
            seq![ControlAction::ShowMonitoring(enabled)]
        } else {
            seq![]
        },
{
    switches.monitoring = enabled;
    let mut actions: Vec<ControlAction> = Vec::new();
    actions.push(ControlAction::MonitorOutput(enabled));
    actions.push(ControlAction::TellPluginsMonitoring(enabled));
    if from_window {
        actions.push(ControlAction::ShowMonitoring(enabled));
    }
    actions
}

/// Switches the stream of spectrum figures to the desktop window.
pub fn set_spectrum_streaming(switches: &mut Switches, enabled: bool)
    ensures
        *final(switches) == (Switches { spectrum_streaming: enabled, ..*old(switches) }),
{
    switches.spectrum_streaming = enabled;
}

/// Where changing the output device stands.
pub enum DeviceStep {
    /// Open the chosen device; `prefs` still name the one in use.
    OpenChosen { chosen: String, prefs: ServerPrefs },
    /// Open the device that was in use before.
    RestorePrevious { previous: String },
    /// Store these preferences.
    Persist(ServerPrefs),
    /// Answer that the device was changed.
    Done,
    /// Answer with an error.
    Fail(ApiError),
}

/// What came of a step.
pub enum DeviceEvent {
    /// Whether the device was opened.
    Opened(bool),
    /// The preferences are stored.
    Persisted,
    /// The preferences could not be stored, with the reason.
    PersistFailed(String),
}

/// What follows when `event` came of `step`. An event that does not belong to
/// the step changes nothing.
pub open spec fn device_step_after(step: DeviceStep, event: DeviceEvent) -> DeviceStep {
    match (step, event) {
        (DeviceStep::OpenChosen { chosen, prefs }, DeviceEvent::Opened(opened)) => if opened {
            DeviceStep::Persist(ServerPrefs { output_device: chosen, ..prefs })
        } else {
            DeviceStep::RestorePrevious { previous: prefs.output_device }
        },
        (DeviceStep::RestorePrevious { .. }, DeviceEvent::Opened(_)) => DeviceStep::Fail(
            ApiError::DeviceOpen,
        ),
        (DeviceStep::Persist(_), DeviceEvent::Persisted) => DeviceStep::Done,
        (DeviceStep::Persist(_), DeviceEvent::PersistFailed(reason)) => DeviceStep::Fail(
            ApiError::Persist(reason),
        ),
        _ => step,
    }
}

/// Begins a change of the output device to `chosen`.
pub fn set_output_device(prefs: ServerPrefs, chosen: String) -> (step: DeviceStep)
    ensures
        step == (DeviceStep::OpenChosen { chosen, prefs }),
{
    DeviceStep::OpenChosen { chosen, prefs }
}

/// Goes on with a change of the output device. A device that cannot be opened
/// is not stored as a preference: the one before is opened again and the change
/// is reported as failed.
pub fn advance_device(step: DeviceStep, event: DeviceEvent) -> (next: DeviceStep)
    ensures
        next == device_step_after(step, event),
{
    match (step, event) {
        (DeviceStep::OpenChosen { chosen, prefs }, DeviceEvent::Opened(opened)) => {
            let mut prefs = prefs;
            if opened {
                prefs.output_device = chosen;
                DeviceStep::Persist(prefs)
            } else {
                DeviceStep::RestorePrevious { previous: prefs.output_device }
            }
        },
        (DeviceStep::RestorePrevious { .. }, DeviceEvent::Opened(_)) => DeviceStep::Fail(
            ApiError::DeviceOpen,
        ),
        (DeviceStep::Persist(_), DeviceEvent::Persisted) => DeviceStep::Done,
        (DeviceStep::Persist(_), DeviceEvent::PersistFailed(reason)) => DeviceStep::Fail(
            ApiError::Persist(reason),
        ),
        (step, _) => step,
    }
}

/// A device that cannot be opened is rolled back: the device of the preferences
/// is opened again, and however that goes the change fails.
pub proof fn broken_device_is_rolled_back(prefs: ServerPrefs, chosen: String, restored: bool)
    ensures
        ({
            let first = device_step_after(
                DeviceStep::OpenChosen { chosen, prefs },
                DeviceEvent::Opened(false),
            );
            &&& first == (DeviceStep::RestorePrevious { previous: prefs.output_device })
            &&& device_step_after(first, DeviceEvent::Opened(restored)) == DeviceStep::Fail(
                ApiError::DeviceOpen,
            )
        }),
{
}

/// Only a device that was opened is ever stored as the preference, and all
/// other preferences stay as they were.
pub proof fn only_opened_device_is_stored(step: DeviceStep, event: DeviceEvent)
    requires
        step !is Persist,
        device_step_after(step, event) is Persist,
    ensures
        step is OpenChosen,
        event == DeviceEvent::Opened(true),
        step matches DeviceStep::OpenChosen { chosen, prefs } && device_step_after(step, event)
            == DeviceStep::Persist(ServerPrefs { output_device: chosen, ..prefs }),
{
}

/// A start of the microphone server.
pub struct StartRequest {
    pub port: u16,
    pub mode: String,
    pub bind_address: String,
    pub output_device: String,
}

/// The start that preferences ask for: the browser's transport, on all of the
/// machine's addresses.
pub fn start_request(prefs: ServerPrefs) -> (request: StartRequest)
    ensures
        request.port == prefs.web_port,
        request.mode@ == "web"@,
        request.bind_address@ == "0.0.0.0"@,
        request.output_device == prefs.output_device,
{
    StartRequest {
        port: prefs.web_port,
        mode: "web".to_owned(),
        bind_address: "0.0.0.0".to_owned(),
        output_device: prefs.output_device,
    }
}

/// Whether the microphone server starts with the program: if the stored mode is
/// the browser's transport and it does not run already.
pub open spec fn starts_web(prefs: ServerPrefs, already_running: bool) -> bool {
    prefs.mode@ == "web"@ && !already_running
}

/// Whether the microphone server starts with the program.
pub fn starts_automatically(prefs: &ServerPrefs, already_running: bool) -> (yes: bool)
    ensures
        yes == starts_web(*prefs, already_running),
{
    same_text(prefs.mode.as_str(), "web") && !already_running
}

/// A fresh installation starts the microphone server, on its own port, without
/// being asked; a stored mode other than the browser's transport is respected.
pub proof fn fresh_installation_starts_web(prefs: ServerPrefs, already_running: bool)
    ensures
        crate::config::are_fresh(prefs) && !already_running ==> starts_web(prefs, already_running),
        prefs.mode@ != "web"@ ==> !starts_web(prefs, already_running),
        crate::config::are_fresh(prefs) ==> prefs.web_port == crate::web_server::DEFAULT_WEB_PORT,
{
}

/// What to do about the microphone server.
#[derive(Clone, Copy, Debug, PartialEq, Eq, Structural)]
pub enum ServerStep {
    Start,
    Stop,
    /// Answer that the server runs.
    AlreadyRunning,
}

/// What the dashboard answers about the microphone server.
pub struct ServerReply {
    pub running: bool,
    pub message: Option<String>,
}

/// Begins to switch the microphone server.
pub fn set_web_server(enabled: bool, running: bool) -> (step: ServerStep)
    ensures
        step == if !enabled {
            ServerStep::Stop
        } else if running {
            ServerStep::AlreadyRunning
        } else {
            ServerStep::Start
        },
{
    if !enabled {
        ServerStep::Stop
    } else if running {
        ServerStep::AlreadyRunning
    } else {
        ServerStep::Start
    }
}

/// Answers that the server runs already.
pub fn already_running() -> (reply: ServerReply)
    ensures
        reply == (ServerReply { running: true, message: None }),
{
    ServerReply { running: true, message: None }
}

/// Answers a start, given how it went. Processing of the browser's stream is
/// switched on with a server that started.
pub fn server_started(web_dsp: &mut WebDsp, started: Result<String, String>) -> (reply: Result<
    ServerReply,
    ApiError,
>)
    ensures
        final(web_dsp)@ == (started is Ok || old(web_dsp)@),
        reply == match started {
            Ok(message) => Ok(ServerReply { running: true, message: Some(message) }),
            Err(reason) => Err(ApiError::Start(reason)),
        },
{
    match started {
        Ok(message) => {
            set_web_dsp_active(web_dsp, true);
            Ok(ServerReply { running: true, message: Some(message) })
        },
        Err(reason) => Err(ApiError::Start(reason)),
    }
}

/// Whether a stop failed only because nothing ran.
pub open spec fn nothing_ran(stopped: Result<String, String>) -> bool {
    stopped matches Err(reason) && reason@ == "Server is not running"@
}

/// Answers a stop, given how it went. Processing of the browser's stream is
/// switched off unless the stop failed; that nothing ran is no failure.
pub fn server_stopped(web_dsp: &mut WebDsp, stopped: Result<String, String>) -> (reply: Result<
    ServerReply,
    ApiError,
>)
    ensures
        final(web_dsp)@ == (old(web_dsp)@ && stopped is Err && !nothing_ran(stopped)),
        reply == match stopped {
            Ok(message) => Ok(ServerReply { running: false, message: Some(message) }),
            Err(reason) => if nothing_ran(stopped) {
                Ok(ServerReply { running: false, message: None })
            } else {
                Err(ApiError::Stop(reason))
            },
        },
{
    match stopped {
        Ok(message) => {
            set_web_dsp_active(web_dsp, false);
            Ok(ServerReply { running: false, message: Some(message) })
        },
        Err(reason) => {
            if same_text(reason.as_str(), "Server is not running") {
                set_web_dsp_active(web_dsp, false);
                return Ok(ServerReply { running: false, message: None });
            }
            Err(ApiError::Stop(reason))
        },
    }
}

/// What the desktop window shows about streaming.
#[derive(Clone, Copy, Debug, PartialEq, Eq, Structural)]
pub struct StreamingStatus {
    pub is_server_running: bool,
    pub is_connected: bool,
    pub is_muted: bool,
}

/// What the desktop window shows about streaming: a phone is connected if a
/// native connection or an audio session is there, or a browser.
pub fn get_streaming_status(
    is_server_running: bool,
    native_connection: bool,
    audio_session: bool,
    web_clients: Option<usize>,
    is_muted: bool,
) -> (status: StreamingStatus)
    ensures
        status == (StreamingStatus {
            is_server_running,
            is_connected: native_connection || audio_session || (web_clients matches Some(count)
                && count > 0),
            is_muted,
        }),
{
    let browser = match web_clients {
        Some(count) => count > 0,
        None => false,
    };
    StreamingStatus {
        is_server_running,
        is_connected: native_connection || audio_session || browser,
        is_muted,
    }
}

/// A device that was opened becomes the preference, and no other preference changes;
/// once they are stored the change is done, and where storing fails the reason is
/// handed on.
pub proof fn opened_device_becomes_the_preference(
    prefs: ServerPrefs,
    chosen: String,
    reason: String,
)
    ensures
        ({
            let opened = device_step_after(
                DeviceStep::OpenChosen { chosen, prefs },
                DeviceEvent::Opened(true),
            );
            &&& opened is Persist
            &&& opened->Persist_0.output_device == chosen
            &&& opened->Persist_0.port == prefs.port
            &&& opened->Persist_0.web_port == prefs.web_port
            &&& opened->Persist_0.mode == prefs.mode
            &&& opened->Persist_0.bind_address == prefs.bind_address
            &&& opened->Persist_0.auto_bind == prefs.auto_bind
            &&& device_step_after(opened, DeviceEvent::Persisted) == DeviceStep::Done
            &&& device_step_after(opened, DeviceEvent::PersistFailed(reason)) == DeviceStep::Fail(
                ApiError::Persist(reason),
            )
        }),
{
}

/// A change that is done or has failed stays so, whatever is reported.
pub proof fn ended_change_stays_ended(error: ApiError, event: DeviceEvent)
    ensures
        device_step_after(DeviceStep::Done, event) == DeviceStep::Done,
        device_step_after(DeviceStep::Fail(error), event) == DeviceStep::Fail(error),
{
}

/// The microphone server starts by itself exactly if the stored mode is the
/// browser's and it does not run yet.
pub proof fn browser_mode_starts_the_server(prefs: ServerPrefs)
    ensures
        prefs.mode@ == "web"@ ==> starts_web(prefs, false),
        !starts_web(prefs, true),
        starts_web(prefs, false) ==> prefs.mode@ == "web"@,
{
}

/// Of a failed stop only the report that nothing ran is forgiven.
pub proof fn only_an_idle_server_is_forgiven(reason: String, message: String)
    ensures
        nothing_ran(Err(reason)) <==> reason@ == "Server is not running"@,
        !nothing_ran(Ok(message)),
{
}

/// A report that does not belong to a step leaves the change where it stands.
pub proof fn stray_reports_change_nothing(step: DeviceStep, event: DeviceEvent)
    requires
        step is OpenChosen || step is RestorePrevious ==> event !is Opened,
        step is Persist ==> event is Opened,
    ensures
        device_step_after(step, event) == step,
{
}

} // verus!
