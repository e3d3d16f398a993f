//! Changing processing settings from the dashboard, one step at a time.
//!
//! The caller performs the step that a [`PatchStep`] asks for and reports what
//! came of it; [`advance`] says what is next.

use crate::api::ApiError;
use crate::json::as_bool;
use crate::json::is_object;
use crate::json::json_bool;
use crate::json::json_object;
use crate::json::member;
use crate::json::merge_object;
use crate::json::merged;
use crate::settings::AudioDspSettings;
use vstd::prelude::*;

verus! {

/// What is to be done next.
pub enum PatchStep {
    /// Write the settings in use as JSON.
    ReadCurrent,
    /// Read settings from this JSON and normalize them.
    Parse(serde_json::Value),
    /// Store these settings in the settings file.
    Save(AudioDspSettings),
    /// Put these settings in use, hand them to the output and tell plugins.
    Apply(AudioDspSettings),
    /// Answer with the settings that are now in use.
    Done(AudioDspSettings),
    /// Answer with an error.
    Fail(ApiError),
}

/// What came of a step.
pub enum PatchEvent {
    /// The settings in use, as JSON.
    CurrentRead(serde_json::Value),
    /// The settings in use cannot be reached.
    LockFailed,
    /// The settings in use cannot be written as JSON, with the reason.
    SerializeFailed(String),
    /// The settings that the JSON holds, normalized.
    Parsed(AudioDspSettings),
    /// The JSON does not hold settings, with the reason.
    ParseFailed(String),
    /// The settings are stored.
    Saved,
    /// The settings could not be stored, with the reason.
    SaveFailed(String),
    /// The settings are in use.
    Applied,
}

/// Whether a patch sets the member `name` to `true`.
pub open spec fn switches_on(patch: Map<Seq<char>, serde_json::Value>, name: Seq<char>) -> bool {
    patch.contains_key(name) && json_bool(patch[name]) == Some(true)
}

/// Whether a patch asks for echo cancellation, under either spelling of the
/// setting.
pub open spec fn asks_for_aec(patch: Map<Seq<char>, serde_json::Value>) -> bool {
    switches_on(patch, "aec_enabled"@) || switches_on(patch, "aecEnabled"@)
}

/// Whether a patch that is an object sets the member `name` to `true`.
fn is_switched_on(patch: &serde_json::Value, name: &str) -> (yes: bool)
    ensures
        json_object(*patch) matches Some(members) ==> yes == switches_on(members, name@),
{
    match member(patch, name) {
        Some(value) => match as_bool(value) {
            Some(on) => on,
            None => false,
        },
        None => false,
    }
}

/// Whether a patch that is an object asks for echo cancellation.
fn wants_aec(patch: &serde_json::Value) -> (yes: bool)
    ensures
        json_object(*patch) matches Some(members) ==> yes == asks_for_aec(members),
{
    is_switched_on(patch, "aec_enabled") || is_switched_on(patch, "aecEnabled")
}

/// Begins with a patch. It has to be an object, and it may not ask for echo
/// cancellation while the microphone server runs.
pub fn patch_dsp(patch: &serde_json::Value, web_running: bool) -> (step: PatchStep)
    ensures
        step == match json_object(*patch) {
            None => PatchStep::Fail(ApiError::PatchNotObject),
            Some(members) => if web_running && asks_for_aec(members) {
                PatchStep::Fail(ApiError::AecNeedsLoopback)
            } else {
                PatchStep::ReadCurrent
            },
        },
{
    if !is_object(patch) {
        return PatchStep::Fail(ApiError::PatchNotObject);
    }
    if web_running && wants_aec(patch) {
        return PatchStep::Fail(ApiError::AecNeedsLoopback);
    }
    PatchStep::ReadCurrent
}

/// Whether `result` is `current` with a patch put into it.
pub open spec fn is_patched(
    current: serde_json::Value,
    patch: serde_json::Value,
    result: serde_json::Value,
) -> bool {
    match (json_object(current), json_object(patch)) {
        (Some(members), Some(changes)) => json_object(result) == Some(merged(members, changes)),
        _ => result == current,
    }
}

/// Whether `next` is what follows when `event` came of `step`. An event that
/// does not belong to the step changes nothing.
pub open spec fn follows(
    patch: serde_json::Value,
    aec_supported: bool,
    step: PatchStep,
    event: PatchEvent,
    next: PatchStep,
) -> bool {
    match (step, event) {
        (PatchStep::ReadCurrent, PatchEvent::CurrentRead(current)) => {
            next matches PatchStep::Parse(result) && is_patched(current, patch, result)
        },
        (PatchStep::ReadCurrent, PatchEvent::LockFailed) => next == PatchStep::Fail(
            ApiError::SettingsLock,
        ),
        (PatchStep::ReadCurrent, PatchEvent::SerializeFailed(reason)) => next == PatchStep::Fail(
            ApiError::Serialize(reason),
        ),
        (PatchStep::Parse(_), PatchEvent::Parsed(settings)) => next == if settings.aec_enabled
            && !aec_supported {
            PatchStep::Fail(ApiError::AecUnsupported)
        } else {
            PatchStep::Save(settings)
        },
        (PatchStep::Parse(_), PatchEvent::ParseFailed(reason)) => next == PatchStep::Fail(
            ApiError::InvalidSettings(reason),
        ),
        (PatchStep::Save(settings), PatchEvent::Saved) => next == PatchStep::Apply(settings),
        (PatchStep::Save(_), PatchEvent::SaveFailed(reason)) => next == PatchStep::Fail(
            ApiError::Persist(reason),
        ),
        (PatchStep::Apply(settings), PatchEvent::Applied) => next == PatchStep::Done(settings),
        (PatchStep::Apply(_), PatchEvent::LockFailed) => next == PatchStep::Fail(
            ApiError::SettingsLock,
        ),
        _ => next == step,
    }
}

/// Goes on after a step was performed: a failure ends the change, and settings
/// with echo cancellation are refused where it does not work.
pub fn advance(
    patch: &serde_json::Value,
    aec_supported: bool,
    step: PatchStep,
    event: PatchEvent,
) -> (next: PatchStep)
    ensures
        follows(*patch, aec_supported, step, event, next),
{
    match (step, event) {
        (PatchStep::ReadCurrent, PatchEvent::CurrentRead(current)) => {
            let mut result = current;
            merge_object(&mut result, patch);
            PatchStep::Parse(result)
        },
        (PatchStep::ReadCurrent, PatchEvent::LockFailed) => PatchStep::Fail(
            ApiError::SettingsLock,
        ),
        (PatchStep::ReadCurrent, PatchEvent::SerializeFailed(reason)) => PatchStep::Fail(
            ApiError::Serialize(reason),
        ),
        (PatchStep::Parse(_), PatchEvent::Parsed(settings)) => {
            if settings.aec_enabled && !aec_supported {
                PatchStep::Fail(ApiError::AecUnsupported)
            } else {
                PatchStep::Save(settings)
            }
        },
        (PatchStep::Parse(_), PatchEvent::ParseFailed(reason)) => PatchStep::Fail(
            ApiError::InvalidSettings(reason),
        ),
        (PatchStep::Save(settings), PatchEvent::Saved) => PatchStep::Apply(settings),
        (PatchStep::Save(_), PatchEvent::SaveFailed(reason)) => PatchStep::Fail(
            ApiError::Persist(reason),
        ),
        (PatchStep::Apply(settings), PatchEvent::Applied) => PatchStep::Done(settings),
        (PatchStep::Apply(_), PatchEvent::LockFailed) => PatchStep::Fail(ApiError::SettingsLock),
        (step, _) => step,
    }
}

/// Settings come into use only after they were stored, they are stored only
/// where echo cancellation is off or works, and the answer names the settings
/// that came into use.
pub proof fn settings_are_stored_before_use(
    patch: serde_json::Value,
    aec_supported: bool,
    step: PatchStep,
    event: PatchEvent,
    next: PatchStep,
)
    requires
        follows(patch, aec_supported, step, event, next),
        next != step,
    ensures
        next matches PatchStep::Save(settings) ==> step is Parse && event == PatchEvent::Parsed(
            settings,
        ) && (settings.aec_enabled ==> aec_supported),
        next matches PatchStep::Apply(settings) ==> step == PatchStep::Save(settings) && event
            == PatchEvent::Saved,
        next matches PatchStep::Done(settings) ==> step == PatchStep::Apply(settings) && event
            == PatchEvent::Applied,
        step !is Done && step !is Fail,
{
}

/// A patch that sets either spelling of echo cancellation to `true` asks for it,
/// whatever else it holds; one that sets neither to `true` does not.
pub proof fn either_spelling_asks_for_aec(patch: Map<Seq<char>, serde_json::Value>)
    ensures
        patch.contains_key("aec_enabled"@) && json_bool(patch["aec_enabled"@]) == Some(true)
            ==> asks_for_aec(patch),
        patch.contains_key("aecEnabled"@) && json_bool(patch["aecEnabled"@]) == Some(true)
            ==> asks_for_aec(patch),
        asks_for_aec(patch) ==> exists|name: Seq<char>|
            {
                &&& #[trigger] patch.contains_key(name)
                &&& json_bool(patch[name]) == Some(true)
                &&& name == "aec_enabled"@ || name == "aecEnabled"@
            },
{
}

/// The settings that are parsed hold the patch: every member of the patch with its
/// value, and every other member of the settings in use as it was.
pub proof fn parsed_settings_hold_the_patch(
    current: serde_json::Value,
    patch: serde_json::Value,
    aec_supported: bool,
    next: PatchStep,
    name: Seq<char>,
)
    requires
        follows(
            patch,
            aec_supported,
            PatchStep::ReadCurrent,
            PatchEvent::CurrentRead(current),
            next,
        ),
        json_object(current) is Some,
        json_object(patch) is Some,
    ensures
        next is Parse,
        json_object(next->Parse_0) is Some,
        ({
            let before = json_object(current)->0;
            let changes = json_object(patch)->0;
            let after = json_object(next->Parse_0)->0;
            &&& changes.contains_key(name) ==> after.contains_key(name) && after[name]
                == changes[name]
            &&& !changes.contains_key(name) ==> after.contains_key(name) == before.contains_key(
                name,
            )
            &&& !changes.contains_key(name) && before.contains_key(name) ==> after[name]
                == before[name]
        }),
{
    crate::json::patch_decides_its_own_members(
        json_object(current)->0,
        json_object(patch)->0,
        name,
    );
}

/// A step that was performed leads on to the next one with the same settings; only
/// echo cancellation where it does not work stops settings that could be parsed.
pub proof fn performed_steps_lead_on(
    patch: serde_json::Value,
    value: serde_json::Value,
    settings: AudioDspSettings,
    aec_supported: bool,
    next: PatchStep,
)
    ensures
        follows(patch, aec_supported, PatchStep::Parse(value), PatchEvent::Parsed(settings), next)
            && (!settings.aec_enabled || aec_supported) ==> next == PatchStep::Save(settings),
        follows(patch, aec_supported, PatchStep::Parse(value), PatchEvent::Parsed(settings), next)
            && settings.aec_enabled && !aec_supported ==> next == PatchStep::Fail(
            ApiError::AecUnsupported,
        ),
        follows(patch, aec_supported, PatchStep::Save(settings), PatchEvent::Saved, next) ==> next
            == PatchStep::Apply(settings),
        follows(patch, aec_supported, PatchStep::Apply(settings), PatchEvent::Applied, next)
            ==> next == PatchStep::Done(settings),
{
}

/// A step that failed ends the change with the error that names the failure and
/// hands on its reason.
pub proof fn failed_steps_end_the_change(
    patch: serde_json::Value,
    value: serde_json::Value,
    settings: AudioDspSettings,
    reason: String,
    aec_supported: bool,
    next: PatchStep,
)
    ensures
        follows(patch, aec_supported, PatchStep::ReadCurrent, PatchEvent::LockFailed, next)
            ==> next == PatchStep::Fail(ApiError::SettingsLock),
        follows(
            patch,
            aec_supported,
            PatchStep::ReadCurrent,
            PatchEvent::SerializeFailed(reason),
            next,
        ) ==> next == PatchStep::Fail(ApiError::Serialize(reason)),
        follows(
            patch,
            aec_supported,
            PatchStep::Parse(value),
            PatchEvent::ParseFailed(reason),
            next,
        ) ==> next == PatchStep::Fail(ApiError::InvalidSettings(reason)),
        follows(
            patch,
            aec_supported,
            PatchStep::Save(settings),
            PatchEvent::SaveFailed(reason),
            next,
        ) ==> next == PatchStep::Fail(ApiError::Persist(reason)),
        follows(patch, aec_supported, PatchStep::Apply(settings), PatchEvent::LockFailed, next)
            ==> next == PatchStep::Fail(ApiError::SettingsLock),
{
}

/// A report that does not belong to a step leaves the change where it stands, and so
/// does any report once the change has ended.
pub proof fn stray_reports_change_nothing(
    patch: serde_json::Value,
    aec_supported: bool,
    step: PatchStep,
    event: PatchEvent,
    next: PatchStep,
)
    requires
        follows(patch, aec_supported, step, event, next),
        step is ReadCurrent ==> event !is CurrentRead && event !is LockFailed && event
            !is SerializeFailed,
        step is Parse ==> event !is Parsed && event !is ParseFailed,
        step is Save ==> event !is Saved && event !is SaveFailed,
        step is Apply ==> event !is Applied && event !is LockFailed,
    ensures
        next == step,
{
}

/// A patch or settings in use that are no object leave the settings in use as they
/// are.
pub proof fn only_objects_are_patched(
    current: serde_json::Value,
    patch: serde_json::Value,
    result: serde_json::Value,
)
    requires
        is_patched(current, patch, result),
        json_object(current) is None || json_object(patch) is None,
    ensures
        result == current,
{
}

} // verus!
