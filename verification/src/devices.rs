//! Audio devices and the virtual devices that the platforms offer.

use crate::listing::ascending;
use crate::listing::same_members;
use crate::listing::sorted_distinct;
use crate::text::texts;
use vstd::prelude::*;

verus! {

/// The output devices to choose from, given the names that the audio host
/// reports: in order and each once.
pub fn get_audio_devices(reported: Vec<String>) -> (names: Vec<String>)
    ensures
        ascending(texts(names@)),
        same_members(texts(names@), texts(reported@)),
{
    sorted_distinct(reported)
}

/// What the PipeWire virtual device needs on this machine.
pub struct PipeWireStatus {
    pub available: bool,
    pub setup: bool,
    pub device_exists: bool,
    pub install_command: String,
    pub distro: String,
}

/// What is to be shown about PipeWire: what was found on Linux, nothing on
/// other platforms.
pub fn check_pipewire(found: Option<PipeWireStatus>) -> (status: PipeWireStatus)
    ensures
        match found {
            Some(linux) => status == linux,
            None => {
                &&& !status.available
                &&& !status.setup
                &&& !status.device_exists
                &&& status.install_command@.len() == 0
                &&& status.distro@.len() == 0
            },
        },
{
    match found {
        Some(linux) => linux,
        None => PipeWireStatus {
            available: false,
            setup: false,
            device_exists: false,
            install_command: String::new(),
            distro: String::new(),
        },
    }
}

/// How installing the VB-CABLE virtual device went.
pub struct VBCableResult {
    pub success: bool,
    pub error_type: Option<String>,
    pub message: Option<String>,
}

/// The answer of a build that cannot install VB-CABLE.
pub fn install_vbcable() -> (result: VBCableResult)
    ensures
        !result.success,
        result.error_type matches Some(kind) && kind@ == "feature_disabled"@,
        result.message matches Some(text) && text@ == "VB-Cable installation feature not enabled"@,
{
    VBCableResult {
        success: false,
        error_type: Some("feature_disabled".to_owned()),
        message: Some("VB-Cable installation feature not enabled".to_owned()),
    }
}

} // verus!
