use micyou_app::api::ApiError;
use micyou_app::dsp_patch::{advance, patch_dsp, PatchEvent, PatchStep};
use micyou_app::json::merge_object;
use micyou_app::settings::{
    aec_supported, get_audio_settings, move_aec_first, output_buffer_ms, prepare_settings,
    update_audio_settings, web_safe_dsp_settings, AudioDspSettings, SettingsAction,
    SettingsError,
};
use serde_json::Value;

fn json(text: &str) -> Value {
    serde_json::from_str(text).unwrap()
}

fn settings(aec_enabled: bool, chain: &[&str]) -> AudioDspSettings {
    AudioDspSettings {
        aec_enabled,
        output_buffer_ms: 300,
        processing_chain: strings(chain),
        other: json(r#"{"gain": 2}"#),
    }
}

fn strings(list: &[&str]) -> Vec<String> {
    list.iter().map(|s| s.to_string()).collect()
}

fn failure(step: PatchStep) -> ApiError {
    match step {
        PatchStep::Fail(error) => error,
        _ => panic!("the change goes on"),
    }
}

#[test]
fn web_safe_settings_force_aec_off() {
    let settings = settings(true, &[]);
    assert!(!web_safe_dsp_settings(settings).aec_enabled);
}

#[test]
fn web_safe_settings_keep_everything_else() {
    let safe = web_safe_dsp_settings(settings(true, &["AEC", "NS"]));
    assert_eq!(safe.processing_chain, strings(&["AEC", "NS"]));
    assert_eq!(safe.output_buffer_ms, 300);
    assert_eq!(safe.other, json(r#"{"gain": 2}"#));
    assert!(!web_safe_dsp_settings(settings(false, &[])).aec_enabled);
}

#[test]
fn aec_works_everywhere_but_on_one_system() {
    assert!(aec_supported("linux"));
    assert!(aec_supported("windows"));
    assert!(!aec_supported("macos"));
}

#[test]
fn buffer_length_stays_within_limits() {
    assert_eq!(output_buffer_ms(None), 800);
    assert_eq!(output_buffer_ms(Some(0)), 100);
    assert_eq!(output_buffer_ms(Some(99)), 100);
    assert_eq!(output_buffer_ms(Some(100)), 100);
    assert_eq!(output_buffer_ms(Some(640)), 640);
    assert_eq!(output_buffer_ms(Some(1200)), 1200);
    assert_eq!(output_buffer_ms(Some(u32::MAX)), 1200);
}

#[test]
fn aec_stage_moves_to_the_front() {
    for (before, after) in [
        (vec!["NS", "AEC", "AGC"], vec!["AEC", "NS", "AGC"]),
        (vec!["AEC", "NS"], vec!["AEC", "NS"]),
        (vec!["NS", "AGC"], vec!["NS", "AGC"]),
        (vec!["NS", "AEC", "AEC"], vec!["AEC", "NS", "AEC"]),
        (vec!["aec", "NS"], vec!["aec", "NS"]),
        (vec![], vec![]),
    ] {
        let mut chain = strings(&before);
        move_aec_first(&mut chain);
        assert_eq!(chain, strings(&after));
        move_aec_first(&mut chain);
        assert_eq!(chain, strings(&after));
    }
}

#[test]
fn settings_are_prepared() {
    let ready = prepare_settings(false, settings(true, &["NS", "AEC"]), true).ok().unwrap();
    assert!(ready.aec_enabled);
    assert_eq!(ready.processing_chain, strings(&["AEC", "NS"]));
    assert_eq!(ready.other, json(r#"{"gain": 2}"#));
    assert!(prepare_settings(true, settings(true, &[]), false).is_ok());
    assert!(prepare_settings(false, settings(false, &[]), false).is_ok());
    let error = prepare_settings(false, settings(true, &[]), false).err().unwrap();
    assert_eq!(error.message(), "AEC is not supported on macOS");
}

#[test]
fn stored_settings_are_used() {
    let mut current = settings(false, &["NS"]);
    let answer = update_audio_settings(&mut current, settings(true, &["AEC"]), Ok(()));
    let update = answer.ok().unwrap();
    assert_eq!(update.message, "Settings updated");
    assert_eq!(update.actions, vec![SettingsAction::UpdateOutput, SettingsAction::TellPlugins]);
    assert!(current.aec_enabled);
    let failed = update_audio_settings(&mut current, settings(false, &[]), Err("full".to_string()));
    assert_eq!(failed.err().unwrap().message(), "Failed to persist settings: full");
    assert!(current.aec_enabled);
    assert_eq!(current.processing_chain, strings(&["AEC"]));
}

#[test]
fn shown_settings_prefer_the_file() {
    let shown = get_audio_settings(Some(settings(true, &[])), Ok(settings(false, &[])));
    assert!(shown.ok().unwrap().aec_enabled);
    let shown = get_audio_settings(Some(settings(true, &[])), Err("poisoned".to_string()));
    assert!(shown.ok().unwrap().aec_enabled);
    assert!(!get_audio_settings(None, Ok(settings(false, &[]))).ok().unwrap().aec_enabled);
    let error = get_audio_settings(None, Err("poisoned".to_string())).err().unwrap();
    assert_eq!(error.message(), "Failed to read settings: poisoned");
    assert_eq!(
        SettingsError::Update("poisoned".to_string()).message(),
        "Failed to update settings: poisoned"
    );
}

#[test]
fn objects_are_merged_member_by_member() {
    let mut target = json(r#"{"a": 1, "b": {"x": 1}, "c": [1]}"#);
    let patch = json(r#"{"b": {"y": 2}, "d": null}"#);
    merge_object(&mut target, &patch);
    assert_eq!(target, json(r#"{"a": 1, "b": {"y": 2}, "c": [1], "d": null}"#));
    let once = target.clone();
    merge_object(&mut target, &patch);
    assert_eq!(target, once);
}

#[test]
fn only_objects_are_merged() {
    for target in ["1", "[1]", "null", r#""x""#] {
        let mut value = json(target);
        merge_object(&mut value, &json(r#"{"a": 1}"#));
        assert_eq!(value, json(target));
    }
    let mut value = json(r#"{"a": 1}"#);
    merge_object(&mut value, &json("[2]"));
    assert_eq!(value, json(r#"{"a": 1}"#));
}

#[test]
fn patch_has_to_be_an_object() {
    for patch in ["[]", "1", "null", "true", r#""aec_enabled""#] {
        let error = failure(patch_dsp(&json(patch), false));
        assert!(matches!(error, ApiError::PatchNotObject));
    }
    assert!(matches!(patch_dsp(&json("{}"), true), PatchStep::ReadCurrent));
}

#[test]
fn echo_cancellation_is_refused_while_the_browser_streams() {
    for patch in [
        r#"{"aec_enabled": true}"#,
        r#"{"aecEnabled": true}"#,
        r#"{"aec_enabled": false, "aecEnabled": true}"#,
        r#"{"aec_enabled": null, "aecEnabled": true}"#,
        r#"{"aec_enabled": true, "aecEnabled": false}"#,
    ] {
        let error = failure(patch_dsp(&json(patch), true));
        assert!(matches!(error, ApiError::AecNeedsLoopback));
        assert!(matches!(patch_dsp(&json(patch), false), PatchStep::ReadCurrent));
    }
    for patch in [
        r#"{"aec_enabled": false}"#,
        r#"{"aec_enabled": 1}"#,
        r#"{"aec_enabled": "true"}"#,
        r#"{"aec_enabled": false, "aecEnabled": false}"#,
        r#"{"aecEnabled": 1}"#,
        r#"{"gain": 3}"#,
    ] {
        assert!(matches!(patch_dsp(&json(patch), true), PatchStep::ReadCurrent));
    }
}

#[test]
fn patch_goes_through_all_steps() {
    let patch = json(r#"{"gain": 3}"#);
    let step = patch_dsp(&patch, false);
    let current = json(r#"{"gain": 1, "vad": true}"#);
    let step = advance(&patch, true, step, PatchEvent::CurrentRead(current));
    match &step {
        PatchStep::Parse(value) => assert_eq!(*value, json(r#"{"gain": 3, "vad": true}"#)),
        _ => panic!("not parsed"),
    }
    let step = advance(&patch, true, step, PatchEvent::Parsed(settings(true, &[])));
    assert!(matches!(step, PatchStep::Save(_)));
    let step = advance(&patch, true, step, PatchEvent::Saved);
    assert!(matches!(step, PatchStep::Apply(_)));
    let step = advance(&patch, true, step, PatchEvent::Applied);
    match step {
        PatchStep::Done(used) => assert!(used.aec_enabled),
        _ => panic!("not done"),
    }
}

#[test]
fn patch_fails_where_a_step_fails() {
    let patch = json("{}");
    let why = || "why".to_string();
    let read = || PatchStep::ReadCurrent;
    let parse = || PatchStep::Parse(json("{}"));
    let save = || PatchStep::Save(settings(false, &[]));
    let apply = || PatchStep::Apply(settings(false, &[]));
    let next = |step, event| failure(advance(&patch, false, step, event));
    assert!(matches!(next(read(), PatchEvent::LockFailed), ApiError::SettingsLock));
    assert_eq!(next(read(), PatchEvent::SerializeFailed(why())).message(), "why");
    assert_eq!(next(read(), PatchEvent::SerializeFailed(why())).status(), 500);
    assert_eq!(next(parse(), PatchEvent::ParseFailed(why())).status(), 400);
    let unsupported = next(parse(), PatchEvent::Parsed(settings(true, &[])));
    assert!(matches!(unsupported, ApiError::AecUnsupported));
    assert!(matches!(next(save(), PatchEvent::SaveFailed(why())), ApiError::Persist(_)));
    assert!(matches!(next(apply(), PatchEvent::LockFailed), ApiError::SettingsLock));
}

#[test]
fn stray_events_leave_the_step() {
    let patch = json("{}");
    let step = advance(&patch, true, PatchStep::ReadCurrent, PatchEvent::Saved);
    assert!(matches!(step, PatchStep::ReadCurrent));
    let step = advance(&patch, true, PatchStep::Parse(json("1")), PatchEvent::Applied);
    assert!(matches!(step, PatchStep::Parse(_)));
    let step = advance(&patch, true, PatchStep::Save(settings(false, &[])), PatchEvent::Applied);
    assert!(matches!(step, PatchStep::Save(_)));
}
