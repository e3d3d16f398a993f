//! What the dashboard's interface answers a request that it cannot serve with.

use vstd::prelude::*;

verus! {

/// Why a dashboard request was not served.
pub enum ApiError {
    /// The request did not name this machine as its host.
    NotLocal,
    /// There is nothing to pair with.
    NotRunning,
    /// The pairing address has no QR code, with the reason.
    QrCode(String),
    /// A settings patch is not a JSON object.
    PatchNotObject,
    /// Echo cancellation was asked for while the browser streams.
    AecNeedsLoopback,
    /// The settings in use cannot be reached.
    SettingsLock,
    /// The settings in use cannot be written as JSON, with the reason.
    Serialize(String),
    /// The patched settings are not settings, with the reason.
    InvalidSettings(String),
    /// Echo cancellation was asked for where it does not work.
    AecUnsupported,
    /// Something could not be stored, with the reason.
    Persist(String),
    /// The chosen output device cannot be opened.
    DeviceOpen,
    /// The microphone server did not start, with the reason.
    Start(String),
    /// The microphone server did not stop, with the reason.
    Stop(String),
}

impl ApiError {
    /// The status code of the answer.
    pub open spec fn status_code(self) -> u16 {
        match self {
            ApiError::PatchNotObject | ApiError::AecNeedsLoopback | ApiError::InvalidSettings(_)
            | ApiError::AecUnsupported | ApiError::DeviceOpen => 400,
            ApiError::NotLocal => 403,
            ApiError::NotRunning | ApiError::Start(_) => 409,
            ApiError::QrCode(_) | ApiError::SettingsLock | ApiError::Serialize(_)
            | ApiError::Persist(_) | ApiError::Stop(_) => 500,
        }
    }

    /// The text of the answer.
    pub open spec fn text(self) -> Seq<char> {
        match self {
            ApiError::NotLocal => "Local dashboard only"@,
            ApiError::NotRunning => "Web microphone server is not running"@,
            ApiError::PatchNotObject => "DSP patch must be a JSON object"@,
            ApiError::AecNeedsLoopback =>
                "AEC is unavailable in Web transport because it requires the native far-end loopback reference"@,
            ApiError::SettingsLock => "DSP settings lock failed"@,
            ApiError::AecUnsupported => "AEC is not supported on macOS"@,
            ApiError::DeviceOpen =>
                "Failed to open selected audio device; restored previous device"@,
            ApiError::QrCode(reason) => reason@,
            ApiError::Serialize(reason) => reason@,
            ApiError::InvalidSettings(reason) => reason@,
            ApiError::Persist(reason) => reason@,
            ApiError::Start(reason) => reason@,
            ApiError::Stop(reason) => reason@,
        }
    }

    /// The status code to answer with.
    pub fn status(&self) -> (code: u16)
        ensures
            code == self.status_code(),
    {
        match self {
            ApiError::PatchNotObject => 400,
            ApiError::AecNeedsLoopback => 400,
            ApiError::InvalidSettings(_) => 400,
            ApiError::AecUnsupported => 400,
            ApiError::DeviceOpen => 400,
            ApiError::NotLocal => 403,
            ApiError::NotRunning => 409,
            ApiError::Start(_) => 409,
            ApiError::QrCode(_) => 500,
            ApiError::SettingsLock => 500,
            ApiError::Serialize(_) => 500,
            ApiError::Persist(_) => 500,
            ApiError::Stop(_) => 500,
        }
    }

    /// The text to answer with.
    pub fn message(&self) -> (message: String)
        ensures
            message@ == self.text(),
    {
        match self {
            ApiError::NotLocal => "Local dashboard only".to_owned(),
            ApiError::NotRunning => "Web microphone server is not running".to_owned(),
            ApiError::PatchNotObject => "DSP patch must be a JSON object".to_owned(),
            ApiError::AecNeedsLoopback =>
                "AEC is unavailable in Web transport because it requires the native far-end loopback reference".to_owned(),
            ApiError::SettingsLock => "DSP settings lock failed".to_owned(),
            ApiError::AecUnsupported => "AEC is not supported on macOS".to_owned(),
            ApiError::DeviceOpen =>
                "Failed to open selected audio device; restored previous device".to_owned(),
            ApiError::QrCode(reason) => reason.clone(),
            ApiError::Serialize(reason) => reason.clone(),
            ApiError::InvalidSettings(reason) => reason.clone(),
            ApiError::Persist(reason) => reason.clone(),
            ApiError::Start(reason) => reason.clone(),
            ApiError::Stop(reason) => reason.clone(),
        }
    }
}

/// An error that has a reason is answered with that reason, and whose fault it is
/// shows in the code: a bad request from 400 on, a failure here from 500 on.
pub proof fn reasons_are_handed_on(reason: String)
    ensures
        ApiError::QrCode(reason).text() == reason@,
        ApiError::Serialize(reason).text() == reason@,
        ApiError::InvalidSettings(reason).text() == reason@,
        ApiError::Persist(reason).text() == reason@,
        ApiError::Start(reason).text() == reason@,
        ApiError::Stop(reason).text() == reason@,
        ApiError::InvalidSettings(reason).status_code() == 400,
        ApiError::Start(reason).status_code() == 409,
        ApiError::QrCode(reason).status_code() == 500,
        ApiError::Serialize(reason).status_code() == 500,
        ApiError::Persist(reason).status_code() == 500,
        ApiError::Stop(reason).status_code() == 500,
{
}

} // verus!
