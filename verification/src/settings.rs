//! Audio processing settings, and the rules for changing them.

use crate::text::joined;
use crate::text::same_text;
use crate::text::texts;
use vstd::prelude::*;

verus! {

/// The settings of the processing chain. The rules here read three of them;
/// the rest is carried along as the JSON object it is stored as.
pub struct AudioDspSettings {
    /// Whether echo cancellation is on.
    pub aec_enabled: bool,
    /// How much audio the output buffers, in milliseconds.
    pub output_buffer_ms: u32,
    /// The stages of the chain, in order.
    pub processing_chain: Vec<String>,
    /// All other settings.
    pub other: serde_json::Value,
}

/// The settings as the browser's stream is processed with: echo cancellation
/// needs the far-end signal of the native path, so it is off. All other stages
/// stay.
pub fn web_safe_dsp_settings(settings: AudioDspSettings) -> (safe: AudioDspSettings)
    ensures
        safe == (AudioDspSettings { aec_enabled: false, ..settings }),
{
    let mut safe = settings;
    safe.aec_enabled = false;
    safe
}

/// Whether echo cancellation works on an operating system, by the name that
/// the standard library gives it.
pub fn aec_supported(target_os: &str) -> (yes: bool)
    ensures
        yes == (target_os@ != "macos"@),
{
    !same_text(target_os, "macos")
}

/// The buffer length, in milliseconds, to open an output device with: the
/// setting within its limits, or a default where the settings cannot be read.
pub fn output_buffer_ms(setting: Option<u32>) -> (buffer_ms: usize)
    ensures
        buffer_ms == match setting {
            None => 800int,
            Some(wanted) => if wanted < 100 {
                100
            } else if wanted > 1200 {
                1200
            } else {
                wanted as int
            },
        },
{
    match setting {
        None => 800,
        Some(wanted) => {
            if wanted < 100 {
                100
            } else if wanted > 1200 {
                1200
            } else {
                wanted as usize
            }
        },
    }
}

/// The position of the first echo cancellation stage, or the chain's length.
pub open spec fn aec_position(chain: Seq<Seq<char>>) -> nat
    decreases chain.len(),
{
    if chain.len() == 0 || chain[0] == "AEC"@ {
        0
    } else {
        1 + aec_position(chain.drop_first())
    }
}

/// The chain with its first echo cancellation stage, if it has one, moved to
/// the front.
pub open spec fn aec_first(chain: Seq<Seq<char>>) -> Seq<Seq<char>> {
    let at = aec_position(chain) as int;
    if at < chain.len() {
        chain.remove(at).insert(0, "AEC"@)
    } else {
        chain
    }
}

proof fn lemma_aec_position(chain: Seq<Seq<char>>, at: int)
    requires
        0 <= at <= chain.len(),
        at < chain.len() ==> chain[at] == "AEC"@,
        forall|i: int| 0 <= i < at ==> chain[i] != "AEC"@,
    ensures
        aec_position(chain) == at,
    decreases chain.len(),
{
    if at > 0 {
        assert(chain[0] != "AEC"@);
        assert forall|i: int| 0 <= i < at - 1 implies chain.drop_first()[i] != "AEC"@ by {
            assert(chain.drop_first()[i] == chain[i + 1]);
        }
        lemma_aec_position(chain.drop_first(), at - 1);
    }
}

/// Moves the first echo cancellation stage to the front of the chain.
pub fn move_aec_first(chain: &mut Vec<String>)
    ensures
        texts(final(chain)@) == aec_first(texts(old(chain)@)),
{
    let ghost before = texts(chain@);
    let mut at: usize = 0;
    while at < chain.len()
        invariant
            at <= chain@.len(),
            before == texts(chain@),
            forall|i: int| 0 <= i < at ==> before[i] != "AEC"@,
            chain@ == old(chain)@,
        ensures
            at <= chain@.len(),
            chain@ == old(chain)@,
            at < chain@.len() ==> before[at as int] == "AEC"@,
            forall|i: int| 0 <= i < at ==> before[i] != "AEC"@,
        decreases chain@.len() - at,
    {
        if same_text(chain[at].as_str(), "AEC") {
            break ;
        }
        at = at + 1;
    }
    proof {
        lemma_aec_position(before, at as int);
    }
    if at < chain.len() {
        if at != 0 {
            let stage = chain.remove(at);
            chain.insert(0, stage);
        }
        assert(texts(chain@) =~= aec_first(before));
    }
}

/// Why settings were not changed or read.
pub enum SettingsError {
    /// Echo cancellation was asked for where it does not work.
    AecUnsupported,
    /// The settings could not be stored, with the reason.
    Persist(String),
    /// The settings in use could not be reached, with the reason.
    Update(String),
    /// The settings in use could not be read, with the reason.
    Read(String),
}

impl SettingsError {
    /// The text of the error.
    pub open spec fn text(self) -> Seq<char> {
        match self {
            SettingsError::AecUnsupported => "AEC is not supported on macOS"@,
            SettingsError::Persist(reason) => "Failed to persist settings: "@ + reason@,
            SettingsError::Update(reason) => "Failed to update settings: "@ + reason@,
            SettingsError::Read(reason) => "Failed to read settings: "@ + reason@,
        }
    }

    /// The text of the error.
    pub fn message(&self) -> (message: String)
        ensures
            message@ == self.text(),
    {
        match self {
            SettingsError::AecUnsupported => "AEC is not supported on macOS".to_owned(),
            SettingsError::Persist(reason) => joined("Failed to persist settings: ", reason.as_str()),
            SettingsError::Update(reason) => joined("Failed to update settings: ", reason.as_str()),
            SettingsError::Read(reason) => joined("Failed to read settings: ", reason.as_str()),
        }
    }
}

/// Prepares a change of the settings in use: the chain is put in order, and
/// echo cancellation may not be switched on where it does not work. Where it
/// is on already it may stay on.
pub fn prepare_settings(
    aec_in_use: bool,
    settings: AudioDspSettings,
    aec_supported: bool,
) -> (prepared: Result<AudioDspSettings, SettingsError>)
    ensures
        prepared is Err == (settings.aec_enabled && !aec_in_use && !aec_supported),
        match prepared {
            Ok(ready) => {
                &&& texts(ready.processing_chain@) == aec_first(texts(settings.processing_chain@))
                &&& ready == (AudioDspSettings {
                    processing_chain: ready.processing_chain,
                    ..settings
                })
            },
            Err(error) => error == SettingsError::AecUnsupported,
        },
{
    let mut ready = settings;
    move_aec_first(&mut ready.processing_chain);
    if ready.aec_enabled && !aec_in_use && !aec_supported {
        return Err(SettingsError::AecUnsupported);
    }
    Ok(ready)
}

/// What a change of the settings in use asks for.
#[derive(Clone, Copy, Debug, PartialEq, Eq, Structural)]
pub enum SettingsAction {
    /// Hand the settings now in use to the output.
    UpdateOutput,
    /// Tell the plugins that the settings changed.
    TellPlugins,
}

/// What comes of a change of the settings in use.
pub struct SettingsUpdate {
    /// The text to answer with.
    pub message: String,
    /// What is to be done, in order.
    pub actions: Vec<SettingsAction>,
}

/// Completes a change of the settings in use, once it is known how storing them
/// went: settings that could not be stored are not used either, and nobody is
/// told of them.
pub fn update_audio_settings(
    current: &mut AudioDspSettings,
    settings: AudioDspSettings,
    stored: Result<(), String>,
) -> (updated: Result<SettingsUpdate, SettingsError>)
    ensures
        match stored {
            Ok(_) => {
                &&& *final(current) == settings
                &&& updated matches Ok(update) && update.message@ == "Settings updated"@
                    && update.actions@ == seq![
                    SettingsAction::UpdateOutput,
                    SettingsAction::TellPlugins,
                ]
            },
            Err(reason) => {
                &&& *final(current) == *old(current)
                &&& updated == Err::<SettingsUpdate, _>(SettingsError::Persist(reason))
            },
        },
{
    match stored {
        Ok(_) => {
            *current = settings;
            let mut actions: Vec<SettingsAction> = Vec::new();
            actions.push(SettingsAction::UpdateOutput);
            actions.push(SettingsAction::TellPlugins);
            Ok(SettingsUpdate { message: "Settings updated".to_owned(), actions })
        },
        Err(reason) => Err(SettingsError::Persist(reason)),
    }
}

/// The settings to show: those of the settings file if there is one, otherwise
/// those in use.
pub fn get_audio_settings(
    stored: Option<AudioDspSettings>,
    in_use: Result<AudioDspSettings, String>,
) -> (settings: Result<AudioDspSettings, SettingsError>)
    ensures
        settings == match (stored, in_use) {
            (Some(found), _) => Ok(found),
            (None, Ok(current)) => Ok(current),
            (None, Err(reason)) => Err(SettingsError::Read(reason)),
        },
{
    match stored {
        Some(found) => Ok(found),
        None => match in_use {
            Ok(current) => Ok(current),
            Err(reason) => Err(SettingsError::Read(reason)),
        },
    }
}

/// Putting echo cancellation first keeps every stage, brings it to the front if
/// it is there, and is done once and for all.
pub proof fn aec_first_is_a_rearrangement(chain: Seq<Seq<char>>)
    ensures
        aec_first(chain).to_multiset() == chain.to_multiset(),
        aec_first(aec_first(chain)) == aec_first(chain),
        chain.contains("AEC"@) ==> aec_first(chain).len() > 0 && aec_first(chain)[0] == "AEC"@,
        !chain.contains("AEC"@) ==> aec_first(chain) == chain,
{
    broadcast use vstd::seq_lib::group_to_multiset_ensures;

    let at = aec_position(chain) as int;
    lemma_position_bounds(chain);
    if at < chain.len() {
        let rest = chain.remove(at);
        let moved = rest.insert(0, "AEC"@);
        vstd::seq_lib::to_multiset_remove(chain, at);
        vstd::seq_lib::to_multiset_insert(rest, 0, "AEC"@);
        assert(chain.to_multiset().count("AEC"@) > 0);
        assert(moved.to_multiset() =~= chain.to_multiset());
        lemma_aec_position(moved, 0);
        assert(moved.remove(0) =~= rest);
        assert(aec_first(moved) =~= moved);
    } else {
        if chain.contains("AEC"@) {
            let i = choose|i: int| 0 <= i < chain.len() && chain[i] == "AEC"@;
            assert(false);
        }
    }
}

proof fn lemma_position_bounds(chain: Seq<Seq<char>>)
    ensures
        aec_position(chain) <= chain.len(),
        aec_position(chain) < chain.len() ==> chain[aec_position(chain) as int] == "AEC"@,
        forall|i: int| 0 <= i < aec_position(chain) ==> chain[i] != "AEC"@,
    decreases chain.len(),
{
    if chain.len() > 0 && chain[0] != "AEC"@ {
        lemma_position_bounds(chain.drop_first());
        assert forall|i: int| 0 <= i < aec_position(chain) implies chain[i] != "AEC"@ by {
            if i > 0 {
                assert(chain.drop_first()[i - 1] == chain[i]);
            }
        }
    }
}

/// Putting echo cancellation first keeps the order of all other stages: those that
/// stood before its first stage move up by one place, those behind it stay.
pub proof fn other_stages_keep_their_order(chain: Seq<Seq<char>>, at: int)
    requires
        0 <= at < chain.len(),
        chain[at] == "AEC"@,
        forall|i: int| 0 <= i < at ==> #[trigger] chain[i] != "AEC"@,
    ensures
        aec_first(chain).len() == chain.len(),
        aec_first(chain)[0] == "AEC"@,
        forall|i: int| 0 <= i < at ==> aec_first(chain)[i + 1] == #[trigger] chain[i],
        forall|i: int| at < i < chain.len() ==> aec_first(chain)[i] == #[trigger] chain[i],
        aec_first(chain).drop_first() == chain.remove(at),
{
    lemma_aec_position(chain, at);
    assert(aec_first(chain).drop_first() =~= chain.remove(at));
}

/// A chain without echo cancellation stays as it is.
pub proof fn chain_without_aec_stays(chain: Seq<Seq<char>>)
    requires
        forall|i: int| 0 <= i < chain.len() ==> #[trigger] chain[i] != "AEC"@,
    ensures
        aec_first(chain) == chain,
{
    lemma_aec_position(chain, chain.len() as int);
}

/// The text of an error ends with the reason that was given, if one was, and says
/// which step failed.
pub proof fn reason_ends_the_error(reason: String)
    ensures
        SettingsError::Persist(reason).text() == "Failed to persist settings: "@ + reason@,
        SettingsError::Update(reason).text() == "Failed to update settings: "@ + reason@,
        SettingsError::Read(reason).text() == "Failed to read settings: "@ + reason@,
{
}

} // verus!
