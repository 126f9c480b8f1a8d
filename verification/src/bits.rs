//! The enumerations and bit masks that are exchanged with the platform, and
//! the tables between them and their raw codes.

use crate::error::{EnumKind, Error};
use crate::platform::{
    audio_session_state_active, audio_session_state_expired, audio_session_state_inactive,
    device_state_active, device_state_disabled, device_state_notpresent, device_state_unplugged,
    device_statemask_all, disconnect_reason_device_removal,
    disconnect_reason_exclusive_mode_override, disconnect_reason_format_changed,
    disconnect_reason_server_shutdown, disconnect_reason_session_disconnected,
    disconnect_reason_session_logoff, e_all, e_capture, e_communications, e_console, e_multimedia,
    e_render, endpoint_hardware_support_meter, endpoint_hardware_support_mute,
    endpoint_hardware_support_volume,
};
use vstd::prelude::*;

verus! {

/// The direction in which audio flows through an endpoint.
///
/// See also: [`EDataFlow`](https://docs.microsoft.com/en-us/windows/win32/api/mmdeviceapi/ne-mmdeviceapi-edataflow)
#[derive(Debug, Clone, Copy, PartialEq, Eq, Structural)]
pub enum DataFlow {
    Render,
    Capture,
}

impl DataFlow {
    /// The raw code that the platform uses for this variant.
    pub open spec fn code(self) -> int {
        match self {
            DataFlow::Render => 0,
            DataFlow::Capture => 1,
        }
    }

    /// The variant that a raw code stands for, where it stands for one.
    pub open spec fn decode(raw: int) -> Option<DataFlow> {
        if raw == 0 {
            Some(DataFlow::Render)
        } else if raw == 1 {
            Some(DataFlow::Capture)
        } else {
            None
        }
    }

    /// Reads a raw code of the platform. A code that the table does not hold
    /// is an error, never some default variant.
    pub fn from_raw(raw: i32) -> (r: Result<DataFlow, Error>)
        ensures
            Self::decode(raw as int) matches Some(v) ==> r == Ok::<DataFlow, Error>(v),
            Self::decode(raw as int) is None ==> r == Err::<DataFlow, Error>(
                Error::UnknownEnumValue(EnumKind::DataFlow, raw as i64),
            ),
            r is Err <==> (forall|v: DataFlow| v.code() != raw),
    {
        proof {
            Self::law_unknown_code_is_rejected(raw as int);
        }
        if raw == e_render() {
            Ok(DataFlow::Render)
        } else if raw == e_capture() {
            Ok(DataFlow::Capture)
        } else {
            Err(Error::UnknownEnumValue(EnumKind::DataFlow, raw as i64))
        }
    }

    /// The raw code of this variant.
    pub fn to_raw(&self) -> (raw: i32)
        ensures
            raw == self.code(),
    {
        match self {
            DataFlow::Render => e_render(),
            DataFlow::Capture => e_capture(),
        }
    }

    /// A variant that is written as its raw code and read back is the same
    /// variant.
    pub proof fn law_round_trip(v: DataFlow)
        ensures
            Self::decode(v.code()) == Some(v),
    {
    }

    /// Reading is the inverse of writing: a raw code stands for a variant
    /// exactly when it is the code of that variant.
    pub proof fn law_decode_inverts_code(raw: int, v: DataFlow)
        ensures
            Self::decode(raw) == Some(v) <==> v.code() == raw,
    {
    }

    /// A raw code stands for no variant exactly when it is the code of none.
    pub proof fn law_unknown_code_is_rejected(raw: int)
        ensures
            Self::decode(raw) is None <==> (forall|v: DataFlow| v.code() != raw),
    {
        if let Some(w) = Self::decode(raw) {
            assert(w.code() == raw);
        } else {
            assert forall|v: DataFlow| v.code() != raw by {
                Self::law_decode_inverts_code(raw, v);
            }
        }
    }
}

/// A direction of audio flow, or both directions, as a filter over endpoints.
///
/// See also: [`EDataFlow`](https://docs.microsoft.com/en-us/windows/win32/api/mmdeviceapi/ne-mmdeviceapi-edataflow)
#[derive(Debug, Clone, Copy, PartialEq, Eq, Structural)]
pub enum DataFlowMask {
    Render,
    Capture,
    All,
}

impl DataFlowMask {
    /// The raw code that the platform uses for this variant.
    pub open spec fn code(self) -> int {
        match self {
            DataFlowMask::Render => 0,
            DataFlowMask::Capture => 1,
            DataFlowMask::All => 2,
        }
    }

    /// The variant that a raw code stands for, where it stands for one.
    pub open spec fn decode(raw: int) -> Option<DataFlowMask> {
        if raw == 0 {
            Some(DataFlowMask::Render)
        } else if raw == 1 {
            Some(DataFlowMask::Capture)
        } else if raw == 2 {
            Some(DataFlowMask::All)
        } else {
            None
        }
    }

    /// Reads a raw code of the platform. A code that the table does not hold
    /// is an error, never some default variant.
    pub fn from_raw(raw: i32) -> (r: Result<DataFlowMask, Error>)
        ensures
            Self::decode(raw as int) matches Some(v) ==> r == Ok::<DataFlowMask, Error>(v),
            Self::decode(raw as int) is None ==> r == Err::<DataFlowMask, Error>(
                Error::UnknownEnumValue(EnumKind::DataFlowMask, raw as i64),
            ),
            r is Err <==> (forall|v: DataFlowMask| v.code() != raw),
    {
        proof {
            Self::law_unknown_code_is_rejected(raw as int);
        }
        if raw == e_render() {
            Ok(DataFlowMask::Render)
        } else if raw == e_capture() {
            Ok(DataFlowMask::Capture)
        } else if raw == e_all() {
            Ok(DataFlowMask::All)
        } else {
            Err(Error::UnknownEnumValue(EnumKind::DataFlowMask, raw as i64))
        }
    }

    /// The raw code of this variant.
    pub fn to_raw(&self) -> (raw: i32)
        ensures
            raw == self.code(),
    {
        match self {
            DataFlowMask::Render => e_render(),
            DataFlowMask::Capture => e_capture(),
            DataFlowMask::All => e_all(),
        }
    }

    /// A variant that is written as its raw code and read back is the same
    /// variant.
    pub proof fn law_round_trip(v: DataFlowMask)
        ensures
            Self::decode(v.code()) == Some(v),
    {
    }

    /// Reading is the inverse of writing: a raw code stands for a variant
    /// exactly when it is the code of that variant.
    pub proof fn law_decode_inverts_code(raw: int, v: DataFlowMask)
        ensures
            Self::decode(raw) == Some(v) <==> v.code() == raw,
    {
    }

    /// A raw code stands for no variant exactly when it is the code of none.
    pub proof fn law_unknown_code_is_rejected(raw: int)
        ensures
            Self::decode(raw) is None <==> (forall|v: DataFlowMask| v.code() != raw),
    {
        if let Some(w) = Self::decode(raw) {
            assert(w.code() == raw);
        } else {
            assert forall|v: DataFlowMask| v.code() != raw by {
                Self::law_decode_inverts_code(raw, v);
            }
        }
    }
}

/// The state of an audio endpoint device.
///
/// See also: [`DEVICE_STATE_XXXX Constants`](https://docs.microsoft.com/en-us/windows/win32/coreaudio/device-state-xxx-constants)
#[derive(Debug, Clone, Copy, PartialEq, Eq, Structural)]
pub enum DeviceState {
    Active,
    Disabled,
    NotPresent,
    Unplugged,
}

impl DeviceState {
    /// The raw code that the platform uses for this variant.
    pub open spec fn code(self) -> int {
        match self {
            DeviceState::Active => 1,
            DeviceState::Disabled => 2,
            DeviceState::NotPresent => 4,
            DeviceState::Unplugged => 8,
        }
    }

    /// The variant that a raw code stands for, where it stands for one.
    pub open spec fn decode(raw: int) -> Option<DeviceState> {
        if raw == 1 {
            Some(DeviceState::Active)
        } else if raw == 2 {
            Some(DeviceState::Disabled)
        } else if raw == 4 {
            Some(DeviceState::NotPresent)
        } else if raw == 8 {
            Some(DeviceState::Unplugged)
        } else {
            None
        }
    }

    /// Reads a raw code of the platform. A code that the table does not hold
    /// is an error, never some default variant.
    pub fn from_raw(raw: u32) -> (r: Result<DeviceState, Error>)
        ensures
            Self::decode(raw as int) matches Some(v) ==> r == Ok::<DeviceState, Error>(v),
            Self::decode(raw as int) is None ==> r == Err::<DeviceState, Error>(
                Error::UnknownEnumValue(EnumKind::DeviceState, raw as i64),
            ),
            r is Err <==> (forall|v: DeviceState| v.code() != raw),
    {
        proof {
            Self::law_unknown_code_is_rejected(raw as int);
        }
        if raw == device_state_active() {
            Ok(DeviceState::Active)
        } else if raw == device_state_disabled() {
            Ok(DeviceState::Disabled)
        } else if raw == device_state_notpresent() {
            Ok(DeviceState::NotPresent)
        } else if raw == device_state_unplugged() {
            Ok(DeviceState::Unplugged)
        } else {
            Err(Error::UnknownEnumValue(EnumKind::DeviceState, raw as i64))
        }
    }

    /// The raw code of this variant.
    pub fn to_raw(&self) -> (raw: u32)
        ensures
            raw == self.code(),
    {
        match self {
            DeviceState::Active => device_state_active(),
            DeviceState::Disabled => device_state_disabled(),
            DeviceState::NotPresent => device_state_notpresent(),
            DeviceState::Unplugged => device_state_unplugged(),
        }
    }

    /// A variant that is written as its raw code and read back is the same
    /// variant.
    pub proof fn law_round_trip(v: DeviceState)
        ensures
            Self::decode(v.code()) == Some(v),
    {
    }

    /// Reading is the inverse of writing: a raw code stands for a variant
    /// exactly when it is the code of that variant.
    pub proof fn law_decode_inverts_code(raw: int, v: DeviceState)
        ensures
            Self::decode(raw) == Some(v) <==> v.code() == raw,
    {
    }

    /// A raw code stands for no variant exactly when it is the code of none.
    pub proof fn law_unknown_code_is_rejected(raw: int)
        ensures
            Self::decode(raw) is None <==> (forall|v: DeviceState| v.code() != raw),
    {
        if let Some(w) = Self::decode(raw) {
            assert(w.code() == raw);
        } else {
            assert forall|v: DeviceState| v.code() != raw by {
                Self::law_decode_inverts_code(raw, v);
            }
        }
    }
}

/// The role that the system has assigned to an audio endpoint device.
///
/// See also: [`ERole`](https://docs.microsoft.com/en-us/windows/win32/api/mmdeviceapi/ne-mmdeviceapi-erole)
#[derive(Debug, Clone, Copy, PartialEq, Eq, Structural)]
pub enum DeviceRole {
    Console,
    Multimedia,
    Communications,
}

impl DeviceRole {
    /// The raw code that the platform uses for this variant.
    pub open spec fn code(self) -> int {
        match self {
            DeviceRole::Console => 0,
            DeviceRole::Multimedia => 1,
            DeviceRole::Communications => 2,
        }
    }

    /// The variant that a raw code stands for, where it stands for one.
    pub open spec fn decode(raw: int) -> Option<DeviceRole> {
        if raw == 0 {
            Some(DeviceRole::Console)
        } else if raw == 1 {
            Some(DeviceRole::Multimedia)
        } else if raw == 2 {
            Some(DeviceRole::Communications)
        } else {
            None
        }
    }

    /// Reads a raw code of the platform. A code that the table does not hold
    /// is an error, never some default variant.
    pub fn from_raw(raw: i32) -> (r: Result<DeviceRole, Error>)
        ensures
            Self::decode(raw as int) matches Some(v) ==> r == Ok::<DeviceRole, Error>(v),
            Self::decode(raw as int) is None ==> r == Err::<DeviceRole, Error>(
                Error::UnknownEnumValue(EnumKind::DeviceRole, raw as i64),
            ),
            r is Err <==> (forall|v: DeviceRole| v.code() != raw),
    {
        proof {
            Self::law_unknown_code_is_rejected(raw as int);
        }
        if raw == e_console() {
            Ok(DeviceRole::Console)
        } else if raw == e_multimedia() {
            Ok(DeviceRole::Multimedia)
        } else if raw == e_communications() {
            Ok(DeviceRole::Communications)
        } else {
            Err(Error::UnknownEnumValue(EnumKind::DeviceRole, raw as i64))
        }
    }

    /// The raw code of this variant.
    pub fn to_raw(&self) -> (raw: i32)
        ensures
            raw == self.code(),
    {
        match self {
            DeviceRole::Console => e_console(),
            DeviceRole::Multimedia => e_multimedia(),
            DeviceRole::Communications => e_communications(),
        }
    }

    /// A variant that is written as its raw code and read back is the same
    /// variant.
    pub proof fn law_round_trip(v: DeviceRole)
        ensures
            Self::decode(v.code()) == Some(v),
    {
    }

    /// Reading is the inverse of writing: a raw code stands for a variant
    /// exactly when it is the code of that variant.
    pub proof fn law_decode_inverts_code(raw: int, v: DeviceRole)
        ensures
            Self::decode(raw) == Some(v) <==> v.code() == raw,
    {
    }

    /// A raw code stands for no variant exactly when it is the code of none.
    pub proof fn law_unknown_code_is_rejected(raw: int)
        ensures
            Self::decode(raw) is None <==> (forall|v: DeviceRole| v.code() != raw),
    {
        if let Some(w) = Self::decode(raw) {
            assert(w.code() == raw);
        } else {
            assert forall|v: DeviceRole| v.code() != raw by {
                Self::law_decode_inverts_code(raw, v);
            }
        }
    }
}

/// The access with which a property store is opened.
///
/// See also: [`STGM Constants`](https://docs.microsoft.com/en-us/windows/win32/stg/stgm-constants)
#[derive(Debug, Clone, Copy, PartialEq, Eq, Structural)]
pub enum StorageAccessMode {
    Read,
    Write,
    ReadWrite,
}

impl StorageAccessMode {
    /// The raw code that the platform uses for this variant.
    pub open spec fn code(self) -> int {
        match self {
            StorageAccessMode::Read => 0,
            StorageAccessMode::Write => 1,
            StorageAccessMode::ReadWrite => 2,
        }
    }

    /// The variant that a raw code stands for, where it stands for one.
    pub open spec fn decode(raw: int) -> Option<StorageAccessMode> {
        if raw == 0 {
            Some(StorageAccessMode::Read)
        } else if raw == 1 {
            Some(StorageAccessMode::Write)
        } else if raw == 2 {
            Some(StorageAccessMode::ReadWrite)
        } else {
            None
        }
    }

    /// Reads a raw code of the platform. A code that the table does not hold
    /// is an error, never some default variant.
    pub fn from_raw(raw: i32) -> (r: Result<StorageAccessMode, Error>)
        ensures
            Self::decode(raw as int) matches Some(v) ==> r == Ok::<StorageAccessMode, Error>(v),
            Self::decode(raw as int) is None ==> r == Err::<StorageAccessMode, Error>(
                Error::UnknownEnumValue(EnumKind::StorageAccessMode, raw as i64),
            ),
            r is Err <==> (forall|v: StorageAccessMode| v.code() != raw),
    {
        proof {
            Self::law_unknown_code_is_rejected(raw as int);
        }
        if raw == 0 {
            Ok(StorageAccessMode::Read)
        } else if raw == 1 {
            Ok(StorageAccessMode::Write)
        } else if raw == 2 {
            Ok(StorageAccessMode::ReadWrite)
        } else {
            Err(Error::UnknownEnumValue(EnumKind::StorageAccessMode, raw as i64))
        }
    }

    /// The raw code of this variant.
    pub fn to_raw(&self) -> (raw: i32)
        ensures
            raw == self.code(),
    {
        match self {
            StorageAccessMode::Read => 0,
            StorageAccessMode::Write => 1,
            StorageAccessMode::ReadWrite => 2,
        }
    }

    /// A variant that is written as its raw code and read back is the same
    /// variant.
    pub proof fn law_round_trip(v: StorageAccessMode)
        ensures
            Self::decode(v.code()) == Some(v),
    {
    }

    /// Reading is the inverse of writing: a raw code stands for a variant
    /// exactly when it is the code of that variant.
    pub proof fn law_decode_inverts_code(raw: int, v: StorageAccessMode)
        ensures
            Self::decode(raw) == Some(v) <==> v.code() == raw,
    {
    }

    /// A raw code stands for no variant exactly when it is the code of none.
    pub proof fn law_unknown_code_is_rejected(raw: int)
        ensures
            Self::decode(raw) is None <==> (forall|v: StorageAccessMode| v.code() != raw),
    {
        if let Some(w) = Self::decode(raw) {
            assert(w.code() == raw);
        } else {
            assert forall|v: StorageAccessMode| v.code() != raw by {
                Self::law_decode_inverts_code(raw, v);
            }
        }
    }
}

/// The activity of an audio session.
///
/// See also: [`AudioSessionState`](https://docs.microsoft.com/en-us/windows/win32/api/audiosessiontypes/ne-audiosessiontypes-audiosessionstate)
#[derive(Debug, Clone, Copy, PartialEq, Eq, Structural)]
pub enum AudioSessionState {
    Active,
    Expired,
    Inactive,
}

impl AudioSessionState {
    /// The raw code that the platform uses for this variant.
    pub open spec fn code(self) -> int {
        match self {
            AudioSessionState::Active => 1,
            AudioSessionState::Expired => 2,
            AudioSessionState::Inactive => 0,
        }
    }

    /// The variant that a raw code stands for, where it stands for one.
    pub open spec fn decode(raw: int) -> Option<AudioSessionState> {
        if raw == 1 {
            Some(AudioSessionState::Active)
        } else if raw == 2 {
            Some(AudioSessionState::Expired)
        } else if raw == 0 {
            Some(AudioSessionState::Inactive)
        } else {
            None
        }
    }

    /// Reads a raw code of the platform. A code that the table does not hold
    /// is an error, never some default variant.
    pub fn from_raw(raw: i32) -> (r: Result<AudioSessionState, Error>)
        ensures
            Self::decode(raw as int) matches Some(v) ==> r == Ok::<AudioSessionState, Error>(v),
            Self::decode(raw as int) is None ==> r == Err::<AudioSessionState, Error>(
                Error::UnknownEnumValue(EnumKind::AudioSessionState, raw as i64),
            ),
            r is Err <==> (forall|v: AudioSessionState| v.code() != raw),
    {
        proof {
            Self::law_unknown_code_is_rejected(raw as int);
        }
        if raw == audio_session_state_active() {
            Ok(AudioSessionState::Active)
        } else if raw == audio_session_state_expired() {
            Ok(AudioSessionState::Expired)
        } else if raw == audio_session_state_inactive() {
            Ok(AudioSessionState::Inactive)
        } else {
            Err(Error::UnknownEnumValue(EnumKind::AudioSessionState, raw as i64))
        }
    }

    /// The raw code of this variant.
    pub fn to_raw(&self) -> (raw: i32)
        ensures
            raw == self.code(),
    {
        match self {
            AudioSessionState::Active => audio_session_state_active(),
            AudioSessionState::Expired => audio_session_state_expired(),
            AudioSessionState::Inactive => audio_session_state_inactive(),
        }
    }

    /// A variant that is written as its raw code and read back is the same
    /// variant.
    pub proof fn law_round_trip(v: AudioSessionState)
        ensures
            Self::decode(v.code()) == Some(v),
    {
    }

    /// Reading is the inverse of writing: a raw code stands for a variant
    /// exactly when it is the code of that variant.
    pub proof fn law_decode_inverts_code(raw: int, v: AudioSessionState)
        ensures
            Self::decode(raw) == Some(v) <==> v.code() == raw,
    {
    }

    /// A raw code stands for no variant exactly when it is the code of none.
    pub proof fn law_unknown_code_is_rejected(raw: int)
        ensures
            Self::decode(raw) is None <==> (forall|v: AudioSessionState| v.code() != raw),
    {
        if let Some(w) = Self::decode(raw) {
            assert(w.code() == raw);
        } else {
            assert forall|v: AudioSessionState| v.code() != raw by {
                Self::law_decode_inverts_code(raw, v);
            }
        }
    }
}

/// Why an audio session was disconnected.
///
/// See also: [`AudioSessionDisconnectReason`](https://docs.microsoft.com/en-us/windows/win32/api/audiopolicy/ne-audiopolicy-audiosessiondisconnectreason)
#[derive(Debug, Clone, Copy, PartialEq, Eq, Structural)]
pub enum AudioSessionDisconnectReason {
    DeviceRemoval,
    ServerShutdown,
    FormatChanged,
    SessionLogoff,
    SessionDisconnected,
    ExclusiveModeOverride,
}

impl AudioSessionDisconnectReason {
    /// The raw code that the platform uses for this variant.
    pub open spec fn code(self) -> int {
        match self {
            AudioSessionDisconnectReason::DeviceRemoval => 0,
            AudioSessionDisconnectReason::ServerShutdown => 1,
            AudioSessionDisconnectReason::FormatChanged => 2,
            AudioSessionDisconnectReason::SessionLogoff => 3,
            AudioSessionDisconnectReason::SessionDisconnected => 4,
            AudioSessionDisconnectReason::ExclusiveModeOverride => 5,
        }
    }

    /// The variant that a raw code stands for, where it stands for one.
    pub open spec fn decode(raw: int) -> Option<AudioSessionDisconnectReason> {
        if raw == 0 {
            Some(AudioSessionDisconnectReason::DeviceRemoval)
        } else if raw == 1 {
            Some(AudioSessionDisconnectReason::ServerShutdown)
        } else if raw == 2 {
            Some(AudioSessionDisconnectReason::FormatChanged)
        } else if raw == 3 {
            Some(AudioSessionDisconnectReason::SessionLogoff)
        } else if raw == 4 {
            Some(AudioSessionDisconnectReason::SessionDisconnected)
        } else if raw == 5 {
            Some(AudioSessionDisconnectReason::ExclusiveModeOverride)
        } else {
            None
        }
    }

    /// Reads a raw code of the platform. A code that the table does not hold
    /// is an error, never some default variant.
    pub fn from_raw(raw: i32) -> (r: Result<AudioSessionDisconnectReason, Error>)
        ensures
            Self::decode(raw as int) matches Some(v) ==> r == Ok::<
                AudioSessionDisconnectReason,
                Error,
            >(v),
            Self::decode(raw as int) is None ==> r == Err::<AudioSessionDisconnectReason, Error>(
                Error::UnknownEnumValue(EnumKind::AudioSessionDisconnectReason, raw as i64),
            ),
            r is Err <==> (forall|v: AudioSessionDisconnectReason| v.code() != raw),
    {
        proof {
            Self::law_unknown_code_is_rejected(raw as int);
        }
        if raw == disconnect_reason_device_removal() {
            Ok(AudioSessionDisconnectReason::DeviceRemoval)
        } else if raw == disconnect_reason_server_shutdown() {
            Ok(AudioSessionDisconnectReason::ServerShutdown)
        } else if raw == disconnect_reason_format_changed() {
            Ok(AudioSessionDisconnectReason::FormatChanged)
        } else if raw == disconnect_reason_session_logoff() {
            Ok(AudioSessionDisconnectReason::SessionLogoff)
        } else if raw == disconnect_reason_session_disconnected() {
            Ok(AudioSessionDisconnectReason::SessionDisconnected)
        } else if raw == disconnect_reason_exclusive_mode_override() {
            Ok(AudioSessionDisconnectReason::ExclusiveModeOverride)
        } else {
            Err(Error::UnknownEnumValue(EnumKind::AudioSessionDisconnectReason, raw as i64))
        }
    }

    /// The raw code of this variant.
    pub fn to_raw(&self) -> (raw: i32)
        ensures
            raw == self.code(),
    {
        match self {
            AudioSessionDisconnectReason::DeviceRemoval => disconnect_reason_device_removal(),
            AudioSessionDisconnectReason::ServerShutdown => disconnect_reason_server_shutdown(),
            AudioSessionDisconnectReason::FormatChanged => disconnect_reason_format_changed(),
            AudioSessionDisconnectReason::SessionLogoff => disconnect_reason_session_logoff(),
            AudioSessionDisconnectReason::SessionDisconnected => {
                disconnect_reason_session_disconnected()
            },
            AudioSessionDisconnectReason::ExclusiveModeOverride => {
                disconnect_reason_exclusive_mode_override()
            },
        }
    }

    /// A variant that is written as its raw code and read back is the same
    /// variant.
    pub proof fn law_round_trip(v: AudioSessionDisconnectReason)
        ensures
            Self::decode(v.code()) == Some(v),
    {
    }

    /// Reading is the inverse of writing: a raw code stands for a variant
    /// exactly when it is the code of that variant.
    pub proof fn law_decode_inverts_code(raw: int, v: AudioSessionDisconnectReason)
        ensures
            Self::decode(raw) == Some(v) <==> v.code() == raw,
    {
    }

    /// A raw code stands for no variant exactly when it is the code of none.
    pub proof fn law_unknown_code_is_rejected(raw: int)
        ensures
            Self::decode(raw) is None <==> (forall|v: AudioSessionDisconnectReason|
                v.code() != raw),
    {
        if let Some(w) = Self::decode(raw) {
            assert(w.code() == raw);
        } else {
            assert forall|v: AudioSessionDisconnectReason| v.code() != raw by {
                Self::law_decode_inverts_code(raw, v);
            }
        }
    }
}

/// Bits that lie within `all` stay within it under union.
proof fn lemma_union_within(a: u32, b: u32, all: u32)
    by (bit_vector)
    requires
        a & !all == 0,
        b & !all == 0,
    ensures
        (a | b) & !all == 0,
{
}

/// Bits that lie within `all` stay within it when some are cleared.
proof fn lemma_meet_within(a: u32, b: u32, all: u32)
    by (bit_vector)
    requires
        a & !all == 0,
    ensures
        (a & b) & !all == 0,
{
}

/// What is cut down to `all` lies within it.
proof fn lemma_cut_within(a: u32, all: u32)
    by (bit_vector)
    ensures
        (a & all) & !all == 0,
        a & !all == 0 ==> a & all == a,
{
}

/// A set of device states, as a filter over endpoints.
///
/// See also: [`DEVICE_STATE_XXXX Constants`](https://docs.microsoft.com/en-us/windows/win32/coreaudio/device-state-xxx-constants)
///
/// The flags are independent bits. The view of a mask is the bits that it
/// holds, and it never holds a bit that no flag defines.
#[derive(Debug, Clone, Copy, PartialEq, Eq, Hash, Structural)]
pub struct DeviceStateMask {
    bits: u32,
}

impl View for DeviceStateMask {
    type V = u32;

    closed spec fn view(&self) -> u32 {
        self.bits
    }
}

impl DeviceStateMask {
    /// The bits that the flags of this mask define.
    pub open spec fn defined() -> u32 {
        15
    }

    #[verifier::type_invariant]
    spec fn within_defined(self) -> bool {
        self.bits & !15u32 == 0
    }

    /// Devices that are present and enabled.
    pub fn active() -> (r: DeviceStateMask)
        ensures
            r@ == 1,
    {
        assert(1u32 & !15u32 == 0) by (bit_vector);
        DeviceStateMask { bits: device_state_active() }
    }

    /// Devices that are disabled.
    pub fn disabled() -> (r: DeviceStateMask)
        ensures
            r@ == 2,
    {
        assert(2u32 & !15u32 == 0) by (bit_vector);
        DeviceStateMask { bits: device_state_disabled() }
    }

    /// Devices that are not present.
    pub fn not_present() -> (r: DeviceStateMask)
        ensures
            r@ == 4,
    {
        assert(4u32 & !15u32 == 0) by (bit_vector);
        DeviceStateMask { bits: device_state_notpresent() }
    }

    /// Devices whose jack is unplugged.
    pub fn unplugged() -> (r: DeviceStateMask)
        ensures
            r@ == 8,
    {
        assert(8u32 & !15u32 == 0) by (bit_vector);
        DeviceStateMask { bits: device_state_unplugged() }
    }

    /// The mask that holds no flag.
    pub fn empty() -> (r: DeviceStateMask)
        ensures
            r@ == 0,
    {
        assert(0u32 & !15u32 == 0) by (bit_vector);
        DeviceStateMask { bits: 0 }
    }

    /// The mask that holds every flag.
    pub fn all() -> (r: DeviceStateMask)
        ensures
            r@ == Self::defined(),
    {
        assert(15u32 & !15u32 == 0) by (bit_vector);
        DeviceStateMask { bits: device_statemask_all() }
    }

    /// The bits of this mask, as the platform takes them.
    pub fn bits(&self) -> (b: u32)
        ensures
            b == self@,
            b & !Self::defined() == 0,
    {
        proof {
            use_type_invariant(self);
        }
        self.bits
    }

    /// The mask with exactly these bits, unless one of them is not defined.
    pub fn from_bits(bits: u32) -> (r: Option<DeviceStateMask>)
        ensures
            bits & !Self::defined() == 0 ==> (r matches Some(m) && m@ == bits),
            bits & !Self::defined() != 0 ==> r is None,
    {
        let all = Self::all().bits;
        if bits & !all == 0 {
            Some(DeviceStateMask { bits })
        } else {
            None
        }
    }

    /// The mask with those of these bits that are defined.
    pub fn from_bits_truncate(bits: u32) -> (r: DeviceStateMask)
        ensures
            r@ == bits & Self::defined(),
    {
        let all = Self::all().bits;
        proof {
            lemma_cut_within(bits, all);
        }
        DeviceStateMask { bits: bits & all }
    }

    /// Whether no flag is held.
    pub fn is_empty(&self) -> (r: bool)
        ensures
            r == (self@ == 0),
    {
        self.bits == 0
    }

    /// Whether every flag is held.
    pub fn is_all(&self) -> (r: bool)
        ensures
            r == (self@ == Self::defined()),
    {
        self.bits == Self::all().bits
    }

    /// Whether some flag of `other` is held.
    pub fn intersects(&self, other: DeviceStateMask) -> (r: bool)
        ensures
            r == (self@ & other@ != 0),
    {
        self.bits & other.bits != 0
    }

    /// Whether every flag of `other` is held.
    pub fn contains(&self, other: DeviceStateMask) -> (r: bool)
        ensures
            r == (self@ & other@ == other@),
    {
        self.bits & other.bits == other.bits
    }

    /// Adds the flags of `other`.
    pub fn insert(&mut self, other: DeviceStateMask)
        ensures
            final(self)@ == old(self)@ | other@,
    {
        *self = self.union(other);
    }

    /// Takes the flags of `other` away.
    pub fn remove(&mut self, other: DeviceStateMask)
        ensures
            final(self)@ == old(self)@ & !other@,
    {
        *self = self.difference(other);
    }

    /// The flags that either mask holds.
    pub fn union(self, other: DeviceStateMask) -> (r: DeviceStateMask)
        ensures
            r@ == self@ | other@,
    {
        proof {
            use_type_invariant(self);
            use_type_invariant(other);
            lemma_union_within(self.bits, other.bits, 15);
        }
        DeviceStateMask { bits: self.bits | other.bits }
    }

    /// The flags that both masks hold.
    pub fn intersection(self, other: DeviceStateMask) -> (r: DeviceStateMask)
        ensures
            r@ == self@ & other@,
    {
        proof {
            use_type_invariant(self);
            lemma_meet_within(self.bits, other.bits, 15);
        }
        DeviceStateMask { bits: self.bits & other.bits }
    }

    /// The flags that this mask holds and `other` does not.
    pub fn difference(self, other: DeviceStateMask) -> (r: DeviceStateMask)
        ensures
            r@ == self@ & !other@,
    {
        proof {
            use_type_invariant(self);
            lemma_meet_within(self.bits, !other.bits, 15);
        }
        DeviceStateMask { bits: self.bits & !other.bits }
    }

    /// The defined flags that this mask does not hold.
    pub fn complement(self) -> (r: DeviceStateMask)
        ensures
            r@ == !self@ & Self::defined(),
    {
        let all = Self::all().bits;
        proof {
            lemma_cut_within(!self.bits, all);
        }
        DeviceStateMask { bits: !self.bits & all }
    }
}

/// The functions that an endpoint's hardware carries out itself.
///
/// See also: [`ENDPOINT_HARDWARE_SUPPORT_XXX Constants`](https://docs.microsoft.com/en-us/windows/win32/coreaudio/endpoint-hardware-support-xxx-constants)
///
/// The flags are independent bits. The view of a mask is the bits that it
/// holds, and it never holds a bit that no flag defines.
#[derive(Debug, Clone, Copy, PartialEq, Eq, Hash, Structural)]
pub struct HardwareSupportMask {
    bits: u32,
}

impl View for HardwareSupportMask {
    type V = u32;

    closed spec fn view(&self) -> u32 {
        self.bits
    }
}

impl HardwareSupportMask {
    /// The bits that the flags of this mask define.
    pub open spec fn defined() -> u32 {
        7
    }

    #[verifier::type_invariant]
    spec fn within_defined(self) -> bool {
        self.bits & !7u32 == 0
    }

    /// The hardware mutes.
    pub fn mute() -> (r: HardwareSupportMask)
        ensures
            r@ == 2,
    {
        assert(2u32 & !7u32 == 0) by (bit_vector);
        HardwareSupportMask { bits: endpoint_hardware_support_mute() }
    }

    /// The hardware meters the peak.
    pub fn meter() -> (r: HardwareSupportMask)
        ensures
            r@ == 4,
    {
        assert(4u32 & !7u32 == 0) by (bit_vector);
        HardwareSupportMask { bits: endpoint_hardware_support_meter() }
    }

    /// The hardware sets the volume.
    pub fn volume() -> (r: HardwareSupportMask)
        ensures
            r@ == 1,
    {
        assert(1u32 & !7u32 == 0) by (bit_vector);
        HardwareSupportMask { bits: endpoint_hardware_support_volume() }
    }

    /// The mask that holds no flag.
    pub fn empty() -> (r: HardwareSupportMask)
        ensures
            r@ == 0,
    {
        assert(0u32 & !7u32 == 0) by (bit_vector);
        HardwareSupportMask { bits: 0 }
    }

    /// The mask that holds every flag.
    pub fn all() -> (r: HardwareSupportMask)
        ensures
            r@ == Self::defined(),
    {
        assert(1u32 | 2u32 | 4u32 == 7u32) by (bit_vector);
        assert(7u32 & !7u32 == 0) by (bit_vector);
        let bits = endpoint_hardware_support_volume() | endpoint_hardware_support_mute()
            | endpoint_hardware_support_meter();
        HardwareSupportMask { bits }
    }

    /// The bits of this mask, as the platform takes them.
    pub fn bits(&self) -> (b: u32)
        ensures
            b == self@,
            b & !Self::defined() == 0,
    {
        proof {
            use_type_invariant(self);
        }
        self.bits
    }

    /// The mask with exactly these bits, unless one of them is not defined.
    pub fn from_bits(bits: u32) -> (r: Option<HardwareSupportMask>)
        ensures
            bits & !Self::defined() == 0 ==> (r matches Some(m) && m@ == bits),
            bits & !Self::defined() != 0 ==> r is None,
    {
        let all = Self::all().bits;
        if bits & !all == 0 {
            Some(HardwareSupportMask { bits })
        } else {
            None
        }
    }

    /// The mask with those of these bits that are defined.
    pub fn from_bits_truncate(bits: u32) -> (r: HardwareSupportMask)
        ensures
            r@ == bits & Self::defined(),
    {
        let all = Self::all().bits;
        proof {
            lemma_cut_within(bits, all);
        }
        HardwareSupportMask { bits: bits & all }
    }

    /// Whether no flag is held.
    pub fn is_empty(&self) -> (r: bool)
        ensures
            r == (self@ == 0),
    {
        self.bits == 0
    }

    /// Whether every flag is held.
    pub fn is_all(&self) -> (r: bool)
        ensures
            r == (self@ == Self::defined()),
    {
        self.bits == Self::all().bits
    }

    /// Whether some flag of `other` is held.
    pub fn intersects(&self, other: HardwareSupportMask) -> (r: bool)
        ensures
            r == (self@ & other@ != 0),
    {
        self.bits & other.bits != 0
    }

    /// Whether every flag of `other` is held.
    pub fn contains(&self, other: HardwareSupportMask) -> (r: bool)
        ensures
            r == (self@ & other@ == other@),
    {
        self.bits & other.bits == other.bits
    }

    /// Adds the flags of `other`.
    pub fn insert(&mut self, other: HardwareSupportMask)
        ensures
            final(self)@ == old(self)@ | other@,
    {
        *self = self.union(other);
    }

    /// Takes the flags of `other` away.
    pub fn remove(&mut self, other: HardwareSupportMask)
        ensures
            final(self)@ == old(self)@ & !other@,
    {
        *self = self.difference(other);
    }

    /// The flags that either mask holds.
    pub fn union(self, other: HardwareSupportMask) -> (r: HardwareSupportMask)
        ensures
            r@ == self@ | other@,
    {
        proof {
            use_type_invariant(self);
            use_type_invariant(other);
            lemma_union_within(self.bits, other.bits, 7);
        }
        HardwareSupportMask { bits: self.bits | other.bits }
    }

    /// The flags that both masks hold.
    pub fn intersection(self, other: HardwareSupportMask) -> (r: HardwareSupportMask)
        ensures
            r@ == self@ & other@,
    {
        proof {
            use_type_invariant(self);
            lemma_meet_within(self.bits, other.bits, 7);
        }
        HardwareSupportMask { bits: self.bits & other.bits }
    }

    /// The flags that this mask holds and `other` does not.
    pub fn difference(self, other: HardwareSupportMask) -> (r: HardwareSupportMask)
        ensures
            r@ == self@ & !other@,
    {
        proof {
            use_type_invariant(self);
            lemma_meet_within(self.bits, !other.bits, 7);
        }
        HardwareSupportMask { bits: self.bits & !other.bits }
    }

    /// The defined flags that this mask does not hold.
    pub fn complement(self) -> (r: HardwareSupportMask)
        ensures
            r@ == !self@ & Self::defined(),
    {
        let all = Self::all().bits;
        proof {
            lemma_cut_within(!self.bits, all);
        }
        HardwareSupportMask { bits: !self.bits & all }
    }
}

} // verus!
