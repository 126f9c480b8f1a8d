//! The notification that the volume of an endpoint changed, and the adapter
//! that brings it to a caller's callback.

use crate::error::Error;
use crate::platform::bool_as_bool;
use crate::view::BorrowedView;
use vstd::prelude::*;

verus! {

/// A callback for changes of an endpoint's volume. Its method does nothing
/// unless the callback overrides it.
///
/// The platform calls from threads of its own, and may call again while an
/// earlier call still runs: a callback guards what it shares.
///
/// See also: [`IAudioEndpointVolumeCallback`](https://docs.microsoft.com/en-us/windows/win32/api/endpointvolume/nn-endpointvolume-iaudioendpointvolumecallback)
pub trait AudioEndpointVolumeCallback: Send + Sync + 'static {
    /// The type in which a volume level arrives.
    type Level;

    fn on_notify(&self, data: &NotificationData<'_, Self::Level>) -> (outcome: Result<(), Error>)
        default_ensures
            outcome == Ok::<(), Error>(()),
    {
        let _ = data;
        Ok(())
    }
}

/// What a change of an endpoint's volume carries. The channel volumes are
/// lent for the length of the callback.
#[non_exhaustive]
#[derive(Debug)]
pub struct NotificationData<'a, V> {
    pub event_context: windows::core::GUID,
    pub muted: bool,
    pub master_volume: V,
    pub channel_volumes: &'a [V],
}

impl<'a, V> NotificationData<'a, V> {
    /// That this is the data of the raw notification with these fields: the
    /// context and the master volume as they came, the mute flag true where it
    /// is not zero, and the first `channel_count` levels of the buffer.
    pub open spec fn is_from_raw(
        self,
        event_context: windows::core::GUID,
        muted: i32,
        master_volume: V,
        channel_count: u32,
        channel_volumes: &[V],
    ) -> bool {
        &&& self.event_context == event_context
        &&& self.muted == (muted != 0)
        &&& self.master_volume == master_volume
        &&& self.channel_volumes@ == channel_volumes@.take(channel_count as int)
    }

    /// Translates the fields of a raw notification. The platform promises
    /// that the buffer holds at least `channel_count` levels.
    pub fn from_raw(
        event_context: windows::core::GUID,
        muted: i32,
        master_volume: V,
        channel_count: u32,
        channel_volumes: &'a [V],
    ) -> (data: NotificationData<'a, V>)
        requires
            channel_count <= channel_volumes@.len(),
        ensures
            data.is_from_raw(event_context, muted, master_volume, channel_count, channel_volumes),
    {
        NotificationData {
            event_context,
            muted: bool_as_bool(muted),
            master_volume,
            channel_volumes: BorrowedView::new(channel_volumes, channel_count).as_slice(),
        }
    }
}

/// The adapter between the platform's endpoint volume callback and a caller's
/// callback.
///
/// It owns the callback and keeps nothing else.
pub struct AudioEndpointVolumeCallbackWrapper<T: AudioEndpointVolumeCallback> {
    inner: T,
}

impl<T: AudioEndpointVolumeCallback> View for AudioEndpointVolumeCallbackWrapper<T> {
    type V = T;

    /// The callback that the adapter owns.
    closed spec fn view(&self) -> T {
        self.inner
    }
}

impl<T: AudioEndpointVolumeCallback> AudioEndpointVolumeCallbackWrapper<T> {
    /// Wraps a callback.
    pub fn new(inner: T) -> (wrapper: AudioEndpointVolumeCallbackWrapper<T>)
        ensures
            wrapper@ == inner,
    {
        AudioEndpointVolumeCallbackWrapper { inner }
    }

    /// The callback that the adapter owns.
    pub fn inner(&self) -> (inner: &T)
        ensures
            *inner == self@,
    {
        &self.inner
    }

    /// The volume of the endpoint changed. The callback is called once with
    /// the data of the raw notification, and its answer is returned.
    pub fn on_notify(
        &self,
        event_context: windows::core::GUID,
        muted: i32,
        master_volume: T::Level,
        channel_count: u32,
        channel_volumes: &[T::Level],
    ) -> (outcome: Result<(), Error>)
        requires
            channel_count <= channel_volumes@.len(),
        ensures
            exists|data: NotificationData<'_, T::Level>|
                data.is_from_raw(
                    event_context,
                    muted,
                    master_volume,
                    channel_count,
                    channel_volumes,
                ) && #[trigger] call_ensures(T::on_notify, (&self@, &data), outcome),
    {
        let data = NotificationData::from_raw(
            event_context,
            muted,
            master_volume,
            channel_count,
            channel_volumes,
        );
        let outcome = self.inner.on_notify(&data);
        assert(call_ensures(T::on_notify, (&self@, &data), outcome));
        outcome
    }
}

} // verus!
