use micyou_app::api::ApiError;
use micyou_app::config::{
    config_dir, find_web_dsp_resources, load_dsp_settings, load_server_prefs, load_theme_colors, load_ui_prefs,
    model_directories, model_markers, save_result, save_server_prefs, server_prefs_path,
    settings_json, settings_path, theme_path, ui_prefs_path, ConfigFile, SaveOutcome, ServerPrefs, ThemeColors,
    UiPrefs,
};
use micyou_app::control::{
    advance_device, already_running, get_streaming_status, mute_message, server_started,
    server_stopped, set_monitoring, set_mute, set_mute_state, set_output_device,
    set_spectrum_streaming, set_web_server, start_request, starts_automatically, ControlAction,
    DeviceEvent, DeviceStep, ServerStep, Switches,
};
use micyou_app::devices::{check_pipewire, get_audio_devices, install_vbcable, PipeWireStatus};
use micyou_app::output::{
    set_web_dsp_active, web_dsp_active, OutputAction, OutputCommand, OutputWorker, WebDsp,
};
use micyou_app::settings::AudioDspSettings;
use std::path::PathBuf;

fn path(text: &str) -> PathBuf {
    PathBuf::from(text)
}

fn prefs(mode: &str, device: &str) -> ServerPrefs {
    ServerPrefs {
        port: 1,
        web_port: 9443,
        mode: mode.to_string(),
        bind_address: "10.0.0.1".to_string(),
        auto_bind: false,
        output_device: device.to_string(),
    }
}

fn switches() -> Switches {
    Switches { muted: false, monitoring: false, spectrum_streaming: false }
}

fn bits(samples: &[f32]) -> Vec<u32> {
    samples.iter().map(|s| s.to_bits()).collect()
}

#[test]
fn config_directory_is_chosen() {
    let all = config_dir(Some(path("/appdata")), Some(path("/xdg")), Some(path("/home/u")));
    assert_eq!(all, path("/appdata/micyou"));
    let xdg = config_dir(None, Some(path("/xdg")), Some(path("/home/u")));
    assert_eq!(xdg, path("/xdg/micyou"));
    assert_eq!(config_dir(None, Some(path("")), Some(path("/home/u"))), path("micyou"));
    assert_eq!(config_dir(None, None, Some(path("/home/u"))), path("/home/u/.config/micyou"));
    assert_eq!(config_dir(None, None, None), path("./.config/micyou"));
}

#[test]
fn config_files_have_places_of_their_own() {
    let dir = path("/c/micyou");
    let files =
        [settings_path(&dir), ui_prefs_path(&dir), theme_path(&dir), server_prefs_path(&dir)];
    assert_eq!(
        files,
        [
            path("/c/micyou/settings.json"),
            path("/c/micyou/ui.json"),
            path("/c/micyou/theme.json"),
            path("/c/micyou/server.json"),
        ]
    );
}

#[test]
fn fresh_installation_prefers_the_browser() {
    let fresh = load_server_prefs(None);
    assert_eq!((fresh.port, fresh.web_port), (8554, 8443));
    assert_eq!((fresh.mode.as_str(), fresh.bind_address.as_str()), ("web", "0.0.0.0"));
    assert!(fresh.auto_bind);
    assert_eq!(fresh.output_device, "");
    assert!(starts_automatically(&fresh, false));
    assert!(!starts_automatically(&fresh, true));
}

#[test]
fn stored_preferences_are_kept() {
    let kept = load_server_prefs(Some(prefs("wifi", "Speaker")));
    assert_eq!((kept.mode.as_str(), kept.output_device.as_str()), ("wifi", "Speaker"));
    assert!(!starts_automatically(&kept, false));
    let ui = UiPrefs { language: "de".to_string(), theme_color: "red".to_string() };
    assert_eq!(load_ui_prefs(Some(ui)).language, "de");
    assert_eq!(load_ui_prefs(None).theme_color, "");
    let colors = ThemeColors { primary: "#123".to_string(), ..ThemeColors::default() };
    assert_eq!(load_theme_colors(Some(colors)).primary, "#123");
    assert_eq!(load_theme_colors(None).error, "");
}

#[test]
fn failed_saves_are_reported() {
    let why = || "why".to_string();
    let text = |file, outcome| save_result(file, outcome).err().unwrap();
    assert_eq!(save_result(ConfigFile::Ui, SaveOutcome::Saved), Ok(()));
    assert_eq!(
        text(ConfigFile::Settings, SaveOutcome::CreateDirFailed(why())),
        "create config dir failed: why"
    );
    for (file, serialized, written) in [
        (ConfigFile::Settings, "serialize settings failed: why", "write settings.json failed: why"),
        (ConfigFile::Ui, "serialize ui prefs failed: why", "write ui.json failed: why"),
        (ConfigFile::Theme, "serialize theme failed: why", "write theme.json failed: why"),
        (ConfigFile::Server, "serialize server prefs failed: why", "write server.json failed: why"),
    ] {
        assert_eq!(text(file, SaveOutcome::SerializeFailed(why())), serialized);
        assert_eq!(text(file, SaveOutcome::WriteFailed(why())), written);
    }
    assert_eq!(save_server_prefs(Ok(())).as_deref(), Ok("Server prefs saved"));
    assert_eq!(save_server_prefs(Err(why())), Err(why()));
}

#[test]
fn models_are_looked_for_in_order() {
    let candidates =
        model_directories(Some(path("/opt/bin")), Some(path("/opt")), &path("/build"));
    assert_eq!(
        candidates,
        vec![
            path("/opt/bin"),
            path("/opt/bin/resources"),
            path("/opt/lib/micyou/resources"),
            path("/build/resources"),
        ]
    );
    assert_eq!(model_directories(None, None, &path("/build")), vec![path("/build/resources")]);
    assert_eq!(model_markers(), ["purevox6.onnx", "aec7_ep0185.onnx"]);
    let present =
        vec![[false, false], [false, true], [true, true], [false, false]];
    assert_eq!(find_web_dsp_resources(candidates, &present), Some(path("/opt/bin/resources")));
    assert_eq!(find_web_dsp_resources(vec![path("/a")], &vec![[false, false]]), None);
    assert_eq!(find_web_dsp_resources(Vec::new(), &Vec::new()), None);
}

#[test]
fn mute_reaches_the_output_first() {
    let mut shared = switches();
    let actions = set_mute(&mut shared, true);
    assert!(shared.muted && !shared.monitoring);
    assert_eq!(
        actions,
        vec![ControlAction::MuteOutput(true), ControlAction::TellPluginsMuted(true)]
    );
}

#[test]
fn mute_from_the_window_tells_everyone() {
    let mut shared = switches();
    let actions = set_mute_state(&mut shared, true, true);
    assert_eq!(
        actions,
        vec![
            ControlAction::MuteOutput(true),
            ControlAction::TellPluginsMuted(true),
            ControlAction::ShowMuted(true),
            ControlAction::TellPhoneMuted(true),
        ]
    );
    assert_eq!(set_mute_state(&mut shared, false, false).len(), 3);
    assert!(!shared.muted);
    assert_eq!(mute_message(true).is_muted, Some(true));
}

#[test]
fn monitoring_is_switched() {
    let mut shared = switches();
    let actions = set_monitoring(&mut shared, true, true);
    assert!(shared.monitoring && !shared.muted);
    assert_eq!(
        actions,
        vec![
            ControlAction::MonitorOutput(true),
            ControlAction::TellPluginsMonitoring(true),
            ControlAction::ShowMonitoring(true),
        ]
    );
    assert_eq!(set_monitoring(&mut shared, false, false).len(), 2);
    set_spectrum_streaming(&mut shared, true);
    assert!(shared.spectrum_streaming && !shared.monitoring);
}

#[test]
fn opened_device_is_stored() {
    let step = set_output_device(prefs("wifi", "Old"), "New".to_string());
    match &step {
        DeviceStep::OpenChosen { chosen, prefs } => {
            assert_eq!((chosen.as_str(), prefs.output_device.as_str()), ("New", "Old"));
        }
        _ => panic!("not opened"),
    }
    let step = advance_device(step, DeviceEvent::Opened(true));
    match &step {
        DeviceStep::Persist(stored) => {
            assert_eq!(stored.output_device, "New");
            assert_eq!((stored.mode.as_str(), stored.web_port), ("wifi", 9443));
        }
        _ => panic!("not stored"),
    }
    assert!(matches!(advance_device(step, DeviceEvent::Persisted), DeviceStep::Done));
    let step = DeviceStep::Persist(prefs("wifi", "New"));
    match advance_device(step, DeviceEvent::PersistFailed("full".to_string())) {
        DeviceStep::Fail(error) => assert_eq!((error.status(), error.message()), (500, "full".to_string())),
        _ => panic!("not reported"),
    }
}

#[test]
fn broken_device_is_rolled_back() {
    for restored in [true, false] {
        let step = set_output_device(prefs("wifi", "Old"), "New".to_string());
        let step = advance_device(step, DeviceEvent::Opened(false));
        match &step {
            DeviceStep::RestorePrevious { previous } => assert_eq!(previous, "Old"),
            _ => panic!("not restored"),
        }
        let step = advance_device(step, DeviceEvent::Opened(restored));
        assert!(matches!(step, DeviceStep::Fail(ApiError::DeviceOpen)));
    }
    let stray = advance_device(DeviceStep::Done, DeviceEvent::Opened(true));
    assert!(matches!(stray, DeviceStep::Done));
}

#[test]
fn server_is_switched() {
    assert_eq!(set_web_server(true, false), ServerStep::Start);
    assert_eq!(set_web_server(true, true), ServerStep::AlreadyRunning);
    assert_eq!(set_web_server(false, true), ServerStep::Stop);
    assert_eq!(set_web_server(false, false), ServerStep::Stop);
    let reply = already_running();
    assert!(reply.running && reply.message.is_none());
    let request = start_request(prefs("wifi", "Speaker"));
    assert_eq!(request.port, 9443);
    assert_eq!((request.mode.as_str(), request.bind_address.as_str()), ("web", "0.0.0.0"));
    assert_eq!(request.output_device, "Speaker");
}

#[test]
fn processing_follows_the_server() {
    let mut dsp = WebDsp::new();
    assert!(!web_dsp_active(&dsp));
    let reply = server_started(&mut dsp, Ok("up".to_string())).ok().unwrap();
    assert!(reply.running && web_dsp_active(&dsp));
    assert_eq!(reply.message.as_deref(), Some("up"));
    let error = server_stopped(&mut dsp, Err("stuck".to_string())).err().unwrap();
    assert_eq!((error.status(), error.message()), (500, "stuck".to_string()));
    assert!(web_dsp_active(&dsp));
    let reply = server_stopped(&mut dsp, Err("Server is not running".to_string())).ok().unwrap();
    assert!(!reply.running && reply.message.is_none() && !web_dsp_active(&dsp));
    let error = server_started(&mut dsp, Err("busy".to_string())).err().unwrap();
    assert_eq!((error.status(), error.message()), (409, "busy".to_string()));
    assert!(!web_dsp_active(&dsp));
    set_web_dsp_active(&mut dsp, true);
    let reply = server_stopped(&mut dsp, Ok("down".to_string())).ok().unwrap();
    assert!(!reply.running && !web_dsp_active(&dsp));
    assert_eq!(reply.message.as_deref(), Some("down"));
}

#[test]
fn streaming_status_counts_every_transport() {
    let connected = |native, session, web| {
        get_streaming_status(true, native, session, web, false).is_connected
    };
    assert!(connected(true, false, None));
    assert!(connected(false, true, Some(0)));
    assert!(connected(false, false, Some(1)));
    assert!(!connected(false, false, Some(0)));
    assert!(!connected(false, false, None));
    let status = get_streaming_status(false, false, false, None, true);
    assert!(!status.is_server_running && status.is_muted);
}

#[test]
fn worker_opens_devices() {
    let mut worker = OutputWorker::new();
    let open = || OutputCommand::Open { device: Some("D".to_string()), buffer_ms: 300 };
    assert!(matches!(worker.handle(open(), true, false), OutputAction::Reply(true)));
    match worker.handle(open(), false, false) {
        OutputAction::Start { close_first, device, buffer_ms } => {
            assert!(!close_first);
            assert_eq!((device.as_deref(), buffer_ms), (Some("D"), 300));
        }
        _ => panic!("not started"),
    }
    let reopen = OutputCommand::Reopen { device: None, buffer_ms: 800 };
    match worker.handle(reopen, true, false) {
        OutputAction::Start { close_first, device, buffer_ms } => {
            assert!(close_first);
            assert_eq!((device, buffer_ms), (None, 800));
        }
        _ => panic!("not started"),
    }
}

fn pushed(
    worker: &mut OutputWorker,
    samples: &[f32],
    channels: usize,
    active: bool,
) -> (&'static str, bool, Vec<u32>, usize) {
    let command = OutputCommand::Push { samples: bits(samples), channels };
    match worker.handle(command, true, active) {
        OutputAction::Process { create, samples, treated_as, channels: same } => {
            assert_eq!(same, channels);
            ("process", create, samples, treated_as)
        }
        OutputAction::PlayAudio { discard_processor, samples, channels } => {
            ("play", discard_processor, samples, channels)
        }
        _ => panic!("neither processed nor played"),
    }
}

#[test]
fn worker_processes_the_browser_stream() {
    let mut worker = OutputWorker::new();
    let half = bits(&[0.5]);
    assert_eq!(pushed(&mut worker, &[0.5], 1, false), ("play", false, half.clone(), 1));
    assert_eq!(pushed(&mut worker, &[0.5], 2, true), ("process", true, half.clone(), 2));
    assert_eq!(pushed(&mut worker, &[0.5], 0, true), ("process", false, half.clone(), 1));
    assert_eq!(pushed(&mut worker, &[], 2, true), ("play", true, Vec::new(), 2));
    assert_eq!(pushed(&mut worker, &[], 2, true), ("play", false, Vec::new(), 2));
    assert_eq!(pushed(&mut worker, &[0.5], 2, true), ("process", true, half.clone(), 2));
    assert_eq!(pushed(&mut worker, &[0.5], 2, false), ("play", true, half, 2));
}

#[test]
fn processed_samples_are_played() {
    let worker = OutputWorker::new();
    match worker.processed(bits(&[0.5, 0.25]), 2) {
        OutputAction::PlayAudio { discard_processor, samples, channels } => {
            assert!(!discard_processor);
            assert_eq!((samples, channels), (bits(&[0.5, 0.25]), 2));
        }
        _ => panic!("not played"),
    }
}

#[test]
fn muted_worker_plays_silence() {
    let mut worker = OutputWorker::new();
    let loud = bits(&[0.5, -1.0, 1.0]);
    let muting = worker.handle(OutputCommand::SetMuted(true), true, true);
    assert!(matches!(muting, OutputAction::Nothing));
    assert_eq!(pushed(&mut worker, &[0.5, -1.0], 1, false).2, vec![0, 0]);
    assert_eq!(pushed(&mut worker, &[0.5, -1.0], 1, true).0, "process");
    match worker.processed(loud.clone(), 1) {
        OutputAction::PlayAudio { samples, .. } => assert_eq!(samples, bits(&[0.0, 0.0, 0.0])),
        _ => panic!("not played"),
    }
    let sound = OutputCommand::PushSound { samples: loud.clone(), gain_bits: 2.0f32.to_bits() };
    match worker.handle(sound, true, false) {
        OutputAction::PlaySound { samples, gain_bits } => {
            assert_eq!(samples, vec![0, 0, 0]);
            assert_eq!(f32::from_bits(gain_bits), 2.0);
        }
        _ => panic!("not played"),
    }
    worker.handle(OutputCommand::SetMuted(false), true, true);
    assert_eq!(pushed(&mut worker, &[0.5, -1.0, 1.0], 1, false).2, loud);
}

#[test]
fn worker_passes_on_the_rest() {
    let mut worker = OutputWorker::new();
    assert!(matches!(
        worker.handle(OutputCommand::SetMonitoring(true), true, false),
        OutputAction::Monitor(true)
    ));
    assert!(matches!(worker.handle(OutputCommand::Queued, true, false), OutputAction::ReportQueued));
    assert!(matches!(worker.handle(OutputCommand::Shutdown, true, false), OutputAction::Close));
    let settings = AudioDspSettings {
        aec_enabled: true,
        output_buffer_ms: 5,
        processing_chain: vec!["AEC".to_string()],
        other: serde_json::Value::Null,
    };
    match worker.handle(OutputCommand::UpdateWebDsp(settings), true, false) {
        OutputAction::UseSettings(used) => {
            assert!(!used.aec_enabled);
            assert_eq!(used.processing_chain, vec!["AEC"]);
        }
        _ => panic!("not used"),
    }
}

#[test]
fn devices_are_listed_once() {
    let reported = vec!["b".to_string(), "a".to_string(), "b".to_string()];
    assert_eq!(get_audio_devices(reported), vec!["a", "b"]);
    let none = check_pipewire(None);
    assert!(!none.available && !none.setup && !none.device_exists);
    assert_eq!((none.install_command.as_str(), none.distro.as_str()), ("", ""));
    let found = check_pipewire(Some(PipeWireStatus {
        available: true,
        setup: false,
        device_exists: true,
        install_command: "install".to_string(),
        distro: "d".to_string(),
    }));
    assert!(found.available && found.device_exists && !found.setup);
    assert_eq!(found.distro, "d");
    let cable = install_vbcable();
    assert!(!cable.success);
    assert_eq!(cable.error_type.as_deref(), Some("feature_disabled"));
    assert_eq!(
        cable.message.as_deref(),
        Some("VB-Cable installation feature not enabled")
    );
}

#[test]
fn stored_audio_settings_are_kept() {
    let settings = |output_buffer_ms| AudioDspSettings {
        aec_enabled: false,
        output_buffer_ms,
        processing_chain: Vec::new(),
        other: serde_json::Value::Null,
    };
    assert_eq!(load_dsp_settings(Some(settings(1)), settings(2)).output_buffer_ms, 1);
    assert_eq!(load_dsp_settings(None, settings(2)).output_buffer_ms, 2);
}

#[test]
fn settings_file_is_shown_as_it_is() {
    let fresh = || serde_json::Value::from(7);
    let held = settings_json(Some("{\"gain\": [1, null]}".to_string()), fresh());
    assert_eq!(held["gain"][0], serde_json::Value::from(1));
    assert!(held["gain"][1].is_null());
    assert_eq!(settings_json(Some("{".to_string()), fresh()), fresh());
    assert_eq!(settings_json(Some(String::new()), fresh()), fresh());
    assert_eq!(settings_json(None, fresh()), fresh());
}
