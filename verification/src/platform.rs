//! What this crate takes from the `windows` crate: the values of the platform's
//! constants, the reading of `BOOL` and `HRESULT`, and the `GUID` type.
//!
//! Every function here only hands on a constant of the `windows` crate or
//! makes one call into it. Its contract is stated from that crate's source and
//! is believed by the verifier, not proved.

use vstd::prelude::*;

verus! {

/// `windows::core::GUID`, carried through notifications as an opaque value.
#[verifier::external_type_specification]
#[verifier::external_body]
pub struct ExGuid(windows::core::GUID);

/// `windows::core::HRESULT::is_ok`: a status is a success code exactly when it
/// is not negative.
#[verifier::external_body]
pub(crate) fn hresult_is_ok(status: i32) -> (ok: bool)
    ensures
        ok == (status >= 0),
{
    windows::core::HRESULT(status).is_ok()
}

/// `windows::Win32::Foundation::BOOL::as_bool`: a platform boolean is true
/// exactly when it is not zero.
#[verifier::external_body]
pub(crate) fn bool_as_bool(raw: i32) -> (b: bool)
    ensures
        b == (raw != 0),
{
    windows::Win32::Foundation::BOOL(raw).as_bool()
}

/// `windows::Win32::Foundation::S_OK`, the status 0.
#[verifier::external_body]
pub(crate) fn s_ok() -> (status: i32)
    ensures
        status == 0,
{
    windows::Win32::Foundation::S_OK.0
}

/// `windows::Win32::Foundation::E_FAIL`, the status -2147467259, which is
/// 0x80004005 as the platform writes it.
#[verifier::external_body]
pub(crate) fn e_fail() -> (status: i32)
    ensures
        status == -2147467259,
{
    windows::Win32::Foundation::E_FAIL.0
}

/// `windows::Win32::Foundation::E_INVALIDARG`, the status -2147024809, which
/// is 0x80070057 as the platform writes it.
#[verifier::external_body]
pub(crate) fn e_invalidarg() -> (status: i32)
    ensures
        status == -2147024809,
{
    windows::Win32::Foundation::E_INVALIDARG.0
}

/// `windows::Win32::Foundation::E_NOTIMPL`, the status -2147467263, which is
/// 0x80004001 as the platform writes it.
#[verifier::external_body]
pub(crate) fn e_notimpl() -> (status: i32)
    ensures
        status == -2147467263,
{
    windows::Win32::Foundation::E_NOTIMPL.0
}

/// `windows::Win32::Media::Audio::eRender`, the `EDataFlow` code 0.
#[verifier::external_body]
pub(crate) fn e_render() -> (raw: i32)
    ensures
        raw == 0,
{
    windows::Win32::Media::Audio::eRender.0
}

/// `windows::Win32::Media::Audio::eCapture`, the `EDataFlow` code 1.
#[verifier::external_body]
pub(crate) fn e_capture() -> (raw: i32)
    ensures
        raw == 1,
{
    windows::Win32::Media::Audio::eCapture.0
}

/// `windows::Win32::Media::Audio::eAll`, the `EDataFlow` code 2.
#[verifier::external_body]
pub(crate) fn e_all() -> (raw: i32)
    ensures
        raw == 2,
{
    windows::Win32::Media::Audio::eAll.0
}

/// `windows::Win32::Media::Audio::eConsole`, the `ERole` code 0.
#[verifier::external_body]
pub(crate) fn e_console() -> (raw: i32)
    ensures
        raw == 0,
{
    windows::Win32::Media::Audio::eConsole.0
}

/// `windows::Win32::Media::Audio::eMultimedia`, the `ERole` code 1.
#[verifier::external_body]
pub(crate) fn e_multimedia() -> (raw: i32)
    ensures
        raw == 1,
{
    windows::Win32::Media::Audio::eMultimedia.0
}

/// `windows::Win32::Media::Audio::eCommunications`, the `ERole` code 2.
#[verifier::external_body]
pub(crate) fn e_communications() -> (raw: i32)
    ensures
        raw == 2,
{
    windows::Win32::Media::Audio::eCommunications.0
}

/// `windows::Win32::Media::Audio::AudioSessionStateInactive`, the
/// `AudioSessionState` code 0.
#[verifier::external_body]
pub(crate) fn audio_session_state_inactive() -> (raw: i32)
    ensures
        raw == 0,
{
    windows::Win32::Media::Audio::AudioSessionStateInactive.0
}

/// `windows::Win32::Media::Audio::AudioSessionStateActive`, the
/// `AudioSessionState` code 1.
#[verifier::external_body]
pub(crate) fn audio_session_state_active() -> (raw: i32)
    ensures
        raw == 1,
{
    windows::Win32::Media::Audio::AudioSessionStateActive.0
}

/// `windows::Win32::Media::Audio::AudioSessionStateExpired`, the
/// `AudioSessionState` code 2.
#[verifier::external_body]
pub(crate) fn audio_session_state_expired() -> (raw: i32)
    ensures
        raw == 2,
{
    windows::Win32::Media::Audio::AudioSessionStateExpired.0
}

/// `windows::Win32::Media::Audio::DisconnectReasonDeviceRemoval`, the
/// `AudioSessionDisconnectReason` code 0.
#[verifier::external_body]
pub(crate) fn disconnect_reason_device_removal() -> (raw: i32)
    ensures
        raw == 0,
{
    windows::Win32::Media::Audio::DisconnectReasonDeviceRemoval.0
}

/// `windows::Win32::Media::Audio::DisconnectReasonServerShutdown`, the
/// `AudioSessionDisconnectReason` code 1.
#[verifier::external_body]
pub(crate) fn disconnect_reason_server_shutdown() -> (raw: i32)
    ensures
        raw == 1,
{
    windows::Win32::Media::Audio::DisconnectReasonServerShutdown.0
}

/// `windows::Win32::Media::Audio::DisconnectReasonFormatChanged`, the
/// `AudioSessionDisconnectReason` code 2.
#[verifier::external_body]
pub(crate) fn disconnect_reason_format_changed() -> (raw: i32)
    ensures
        raw == 2,
{
    windows::Win32::Media::Audio::DisconnectReasonFormatChanged.0
}

/// `windows::Win32::Media::Audio::DisconnectReasonSessionLogoff`, the
/// `AudioSessionDisconnectReason` code 3.
#[verifier::external_body]
pub(crate) fn disconnect_reason_session_logoff() -> (raw: i32)
    ensures
        raw == 3,
{
    windows::Win32::Media::Audio::DisconnectReasonSessionLogoff.0
}

/// `windows::Win32::Media::Audio::DisconnectReasonSessionDisconnected`, the
/// `AudioSessionDisconnectReason` code 4.
#[verifier::external_body]
pub(crate) fn disconnect_reason_session_disconnected() -> (raw: i32)
    ensures
        raw == 4,
{
    windows::Win32::Media::Audio::DisconnectReasonSessionDisconnected.0
}

/// `windows::Win32::Media::Audio::DisconnectReasonExclusiveModeOverride`, the
/// `AudioSessionDisconnectReason` code 5.
#[verifier::external_body]
pub(crate) fn disconnect_reason_exclusive_mode_override() -> (raw: i32)
    ensures
        raw == 5,
{
    windows::Win32::Media::Audio::DisconnectReasonExclusiveModeOverride.0
}

/// `windows::Win32::Media::Audio::DEVICE_STATE_ACTIVE`, the bit 1.
#[verifier::external_body]
pub(crate) fn device_state_active() -> (raw: u32)
    ensures
        raw == 1,
{
    windows::Win32::Media::Audio::DEVICE_STATE_ACTIVE
}

/// `windows::Win32::Media::Audio::DEVICE_STATE_DISABLED`, the bit 2.
#[verifier::external_body]
pub(crate) fn device_state_disabled() -> (raw: u32)
    ensures
        raw == 2,
{
    windows::Win32::Media::Audio::DEVICE_STATE_DISABLED
}

/// `windows::Win32::Media::Audio::DEVICE_STATE_NOTPRESENT`, the bit 4.
#[verifier::external_body]
pub(crate) fn device_state_notpresent() -> (raw: u32)
    ensures
        raw == 4,
{
    windows::Win32::Media::Audio::DEVICE_STATE_NOTPRESENT
}

/// `windows::Win32::Media::Audio::DEVICE_STATE_UNPLUGGED`, the bit 8.
#[verifier::external_body]
pub(crate) fn device_state_unplugged() -> (raw: u32)
    ensures
        raw == 8,
{
    windows::Win32::Media::Audio::DEVICE_STATE_UNPLUGGED
}

/// `windows::Win32::Media::Audio::DEVICE_STATEMASK_ALL`, the four device
/// state bits together: 15.
#[verifier::external_body]
pub(crate) fn device_statemask_all() -> (raw: u32)
    ensures
        raw == 15,
{
    windows::Win32::Media::Audio::DEVICE_STATEMASK_ALL
}

/// `windows::Win32::Media::Audio::ENDPOINT_HARDWARE_SUPPORT_VOLUME`, the bit 1.
#[verifier::external_body]
pub(crate) fn endpoint_hardware_support_volume() -> (raw: u32)
    ensures
        raw == 1,
{
    windows::Win32::Media::Audio::ENDPOINT_HARDWARE_SUPPORT_VOLUME
}

/// `windows::Win32::Media::Audio::ENDPOINT_HARDWARE_SUPPORT_MUTE`, the bit 2.
#[verifier::external_body]
pub(crate) fn endpoint_hardware_support_mute() -> (raw: u32)
    ensures
        raw == 2,
{
    windows::Win32::Media::Audio::ENDPOINT_HARDWARE_SUPPORT_MUTE
}

/// `windows::Win32::Media::Audio::ENDPOINT_HARDWARE_SUPPORT_METER`, the bit 4.
#[verifier::external_body]
pub(crate) fn endpoint_hardware_support_meter() -> (raw: u32)
    ensures
        raw == 4,
{
    windows::Win32::Media::Audio::ENDPOINT_HARDWARE_SUPPORT_METER
}

} // verus!
