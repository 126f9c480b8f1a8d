//! Notifications about the audio endpoint devices of the system, and the
//! adapter that brings them to a caller's client.

use crate::bits::{DataFlow, DeviceRole, DeviceState};
use crate::error::{EnumKind, Error};
use vstd::prelude::*;

verus! {

/// The key of a device property: the format it belongs to and its number
/// there.
#[derive(Debug, Clone, Copy, PartialEq, Eq, Hash)]
pub struct PropertyKey {
    pub fmtid: windows::core::GUID,
    pub pid: u32,
}

/// A client of device notifications. Every method answers one kind of
/// notification and does nothing unless the client overrides it.
///
/// The platform calls from threads of its own, and may call again while an
/// earlier call still runs: a client guards what it shares.
///
/// See also: [`IMMNotificationClient`](https://docs.microsoft.com/en-us/windows/win32/api/mmdeviceapi/nn-mmdeviceapi-immnotificationclient)
pub trait NotificationClient: Send + Sync + 'static {
    /// See also: [`IMMNotificationClient::OnDefaultDeviceChanged`](https://docs.microsoft.com/en-us/windows/win32/api/mmdeviceapi/nf-mmdeviceapi-immnotificationclient-ondefaultdevicechanged)
    fn on_default_device_changed(
        &self,
        data_flow: DataFlow,
        role: DeviceRole,
        device_id: &[u16],
    ) -> (outcome: Result<(), Error>)
        default_ensures
            outcome == Ok::<(), Error>(()),
    {
        let _ = (data_flow, role, device_id);
        Ok(())
    }

    /// See also: [`IMMNotificationClient::OnDeviceAdded`](https://docs.microsoft.com/en-us/windows/win32/api/mmdeviceapi/nf-mmdeviceapi-immnotificationclient-ondeviceadded)
    fn on_device_added(&self, device_id: &[u16]) -> (outcome: Result<(), Error>)
        default_ensures
            outcome == Ok::<(), Error>(()),
    {
        let _ = device_id;
        Ok(())
    }

    /// See also: [`IMMNotificationClient::OnDeviceRemoved`](https://docs.microsoft.com/en-us/windows/win32/api/mmdeviceapi/nf-mmdeviceapi-immnotificationclient-ondeviceremoved)
    fn on_device_removed(&self, device_id: &[u16]) -> (outcome: Result<(), Error>)
        default_ensures
            outcome == Ok::<(), Error>(()),
    {
        let _ = device_id;
        Ok(())
    }

    /// See also: [`IMMNotificationClient::OnDeviceStateChanged`](https://docs.microsoft.com/en-us/windows/win32/api/mmdeviceapi/nf-mmdeviceapi-immnotificationclient-ondevicestatechanged)
    fn on_device_state_changed(&self, device_id: &[u16], state: DeviceState) -> (outcome: Result<
        (),
        Error,
    >)
        default_ensures
            outcome == Ok::<(), Error>(()),
    {
        let _ = (device_id, state);
        Ok(())
    }

    /// See also: [`IMMNotificationClient::OnPropertyValueChanged`](https://docs.microsoft.com/en-us/windows/win32/api/mmdeviceapi/nf-mmdeviceapi-immnotificationclient-onpropertyvaluechanged)
    fn on_property_value_changed(&self, device_id: &[u16], property_key: PropertyKey) -> (outcome:
        Result<(), Error>)
        default_ensures
            outcome == Ok::<(), Error>(()),
    {
        let _ = (device_id, property_key);
        Ok(())
    }
}

/// One notification about the devices, with what that kind carries. A device
/// id is the string of 16-bit units by which the platform names the device.
#[derive(Debug, Clone, Copy)]
pub enum DeviceNotification<'a> {
    DefaultDeviceChanged { data_flow: DataFlow, role: DeviceRole, device_id: &'a [u16] },
    DeviceAdded { device_id: &'a [u16] },
    DeviceRemoved { device_id: &'a [u16] },
    DeviceStateChanged { device_id: &'a [u16], state: DeviceState },
    PropertyValueChanged { device_id: &'a [u16], property_key: PropertyKey },
}

impl<'a> DeviceNotification<'a> {
    /// What a raw change of the default device means. The flow is read before
    /// the role, so an unknown flow is the error that is reported where both
    /// are unknown.
    pub open spec fn default_device_changed_of(
        flow: i32,
        role: i32,
        device_id: &'a [u16],
    ) -> Result<DeviceNotification<'a>, Error> {
        match (DataFlow::decode(flow as int), DeviceRole::decode(role as int)) {
            (None, _) => Err(Error::UnknownEnumValue(EnumKind::DataFlow, flow as i64)),
            (Some(_), None) => Err(Error::UnknownEnumValue(EnumKind::DeviceRole, role as i64)),
            (Some(data_flow), Some(role)) => Ok(
                DeviceNotification::DefaultDeviceChanged { data_flow, role, device_id },
            ),
        }
    }

    /// What a raw change of a device's state means.
    pub open spec fn device_state_changed_of(device_id: &'a [u16], new_state: u32) -> Result<
        DeviceNotification<'a>,
        Error,
    > {
        match DeviceState::decode(new_state as int) {
            None => Err(Error::UnknownEnumValue(EnumKind::DeviceState, new_state as i64)),
            Some(state) => Ok(DeviceNotification::DeviceStateChanged { device_id, state }),
        }
    }

    /// Translates a raw change of the default device.
    pub fn default_device_changed(flow: i32, role: i32, device_id: &'a [u16]) -> (r: Result<
        DeviceNotification<'a>,
        Error,
    >)
        ensures
            r == Self::default_device_changed_of(flow, role, device_id),
    {
        let data_flow = match DataFlow::from_raw(flow) {
            Ok(data_flow) => data_flow,
            Err(e) => { return Err(e); },
        };
        let role = match DeviceRole::from_raw(role) {
            Ok(role) => role,
            Err(e) => { return Err(e); },
        };
        Ok(DeviceNotification::DefaultDeviceChanged { data_flow, role, device_id })
    }

    /// Translates a raw change of a device's state.
    pub fn device_state_changed(device_id: &'a [u16], new_state: u32) -> (r: Result<
        DeviceNotification<'a>,
        Error,
    >)
        ensures
            r == Self::device_state_changed_of(device_id, new_state),
    {
        match DeviceState::from_raw(new_state) {
            Ok(state) => Ok(DeviceNotification::DeviceStateChanged { device_id, state }),
            Err(e) => Err(e),
        }
    }
}

/// The adapter between the platform's device callbacks and a client.
///
/// It owns the client and keeps nothing else. Each entry point takes the raw
/// arguments of one callback, translates them, calls the one method of the
/// client that answers that kind, and returns what the client answered.
pub struct NotificationClientWrapper<T: NotificationClient> {
    inner: T,
}

impl<T: NotificationClient> View for NotificationClientWrapper<T> {
    type V = T;

    /// The client that the adapter owns.
    closed spec fn view(&self) -> T {
        self.inner
    }
}

impl<T: NotificationClient> NotificationClientWrapper<T> {
    /// Wraps a client.
    pub fn new(inner: T) -> (wrapper: NotificationClientWrapper<T>)
        ensures
            wrapper@ == inner,
    {
        NotificationClientWrapper { inner }
    }

    /// The client that the adapter owns.
    pub fn inner(&self) -> (inner: &T)
        ensures
            *inner == self@,
    {
        &self.inner
    }

    /// That `outcome` is an answer of the client to `event`: an answer that
    /// the method for that kind of event can give when it is called on the
    /// client with exactly what the event carries.
    pub open spec fn delivers(
        &self,
        event: DeviceNotification<'_>,
        outcome: Result<(), Error>,
    ) -> bool {
        match event {
            DeviceNotification::DefaultDeviceChanged { data_flow, role, device_id } => call_ensures(
                T::on_default_device_changed,
                (&self@, data_flow, role, device_id),
                outcome,
            ),
            DeviceNotification::DeviceAdded { device_id } => call_ensures(
                T::on_device_added,
                (&self@, device_id),
                outcome,
            ),
            DeviceNotification::DeviceRemoved { device_id } => call_ensures(
                T::on_device_removed,
                (&self@, device_id),
                outcome,
            ),
            DeviceNotification::DeviceStateChanged { device_id, state } => call_ensures(
                T::on_device_state_changed,
                (&self@, device_id, state),
                outcome,
            ),
            DeviceNotification::PropertyValueChanged { device_id, property_key } => call_ensures(
                T::on_property_value_changed,
                (&self@, device_id, property_key),
                outcome,
            ),
        }
    }

    /// Hands an event to the method of the client that answers its kind, once,
    /// and returns the client's answer.
    pub fn dispatch(&self, event: DeviceNotification<'_>) -> (outcome: Result<(), Error>)
        ensures
            self.delivers(event, outcome),
    {
        match event {
            DeviceNotification::DefaultDeviceChanged {
                data_flow,
                role,
                device_id,
            } => self.inner.on_default_device_changed(data_flow, role, device_id),
            DeviceNotification::DeviceAdded { device_id } => self.inner.on_device_added(device_id),
            DeviceNotification::DeviceRemoved { device_id } => self.inner.on_device_removed(
                device_id,
            ),
            DeviceNotification::DeviceStateChanged {
                device_id,
                state,
            } => self.inner.on_device_state_changed(device_id, state),
            DeviceNotification::PropertyValueChanged {
                device_id,
                property_key,
            } => self.inner.on_property_value_changed(device_id, property_key),
        }
    }

    /// The default device of a flow and role changed. An unknown flow or role
    /// is reported as the error, and the client is not called.
    pub fn on_default_device_changed(&self, flow: i32, role: i32, device_id: &[u16]) -> (outcome:
        Result<(), Error>)
        ensures
            DeviceNotification::default_device_changed_of(flow, role, device_id) matches Ok(event)
                ==> self.delivers(event, outcome),
            DeviceNotification::default_device_changed_of(flow, role, device_id) matches Err(e)
                ==> outcome == Err::<(), Error>(e),
    {
        match DeviceNotification::default_device_changed(flow, role, device_id) {
            Ok(event) => self.dispatch(event),
            Err(e) => Err(e),
        }
    }

    /// A device was added.
    pub fn on_device_added(&self, device_id: &[u16]) -> (outcome: Result<(), Error>)
        ensures
            self.delivers((DeviceNotification::DeviceAdded { device_id }), outcome),
    {
        self.dispatch(DeviceNotification::DeviceAdded { device_id })
    }

    /// A device was removed.
    pub fn on_device_removed(&self, device_id: &[u16]) -> (outcome: Result<(), Error>)
        ensures
            self.delivers((DeviceNotification::DeviceRemoved { device_id }), outcome),
    {
        self.dispatch(DeviceNotification::DeviceRemoved { device_id })
    }

    /// The state of a device changed. An unknown state is reported as the
    /// error, and the client is not called.
    pub fn on_device_state_changed(&self, device_id: &[u16], new_state: u32) -> (outcome: Result<
        (),
        Error,
    >)
        ensures
            DeviceNotification::device_state_changed_of(device_id, new_state) matches Ok(event)
                ==> self.delivers(event, outcome),
            DeviceNotification::device_state_changed_of(device_id, new_state) matches Err(e)
                ==> outcome == Err::<(), Error>(e),
    {
        match DeviceNotification::device_state_changed(device_id, new_state) {
            Ok(event) => self.dispatch(event),
            Err(e) => Err(e),
        }
    }

    /// The value of a property of a device changed.
    pub fn on_property_value_changed(&self, device_id: &[u16], key: PropertyKey) -> (outcome:
        Result<(), Error>)
        ensures
            self.delivers(
                (DeviceNotification::PropertyValueChanged { device_id, property_key: key }),
                outcome,
            ),
    {
        self.dispatch(DeviceNotification::PropertyValueChanged { device_id, property_key: key })
    }
}

} // verus!
