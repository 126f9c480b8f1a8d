//! Notifications about one audio session, and the adapter that brings them to
//! a caller's handler.

use crate::bits::{AudioSessionDisconnectReason, AudioSessionState};
use crate::error::{EnumKind, Error};
use crate::platform::bool_as_bool;
use crate::view::BorrowedView;
use vstd::prelude::*;

verus! {

/// A handler of the events of an audio session. Every method answers one kind
/// of event and does nothing unless the handler overrides it.
///
/// An event context is the token by which the originator of a change marks
/// it; where none was supplied the handler gets `None`, which is no error.
///
/// The platform calls from threads of its own, and may call again while an
/// earlier call still runs: a handler guards what it shares.
///
/// See also: [`IAudioSessionEvents`](https://docs.microsoft.com/en-us/windows/win32/api/audiopolicy/nn-audiopolicy-iaudiosessionevents)
pub trait AudioSessionEvents: Send + Sync + 'static {
    /// The type in which a volume level arrives.
    type Level;

    /// See also: [`IAudioSessionEvents::OnChannelVolumeChanged`](https://docs.microsoft.com/en-us/windows/win32/api/audiopolicy/nf-audiopolicy-iaudiosessionevents-onchannelvolumechanged)
    fn on_channel_volume_changed(
        &self,
        new_volume_levels: &[Self::Level],
        changed_channel: usize,
        event_context: Option<&windows::core::GUID>,
    ) -> (outcome: Result<(), Error>)
        default_ensures
            outcome == Ok::<(), Error>(()),
    {
        let _ = (new_volume_levels, changed_channel, event_context);
        Ok(())
    }

    /// See also: [`IAudioSessionEvents::OnDisplayNameChanged`](https://docs.microsoft.com/en-us/windows/win32/api/audiopolicy/nf-audiopolicy-iaudiosessionevents-ondisplaynamechanged)
    fn on_display_name_changed(
        &self,
        new_display_name: &[u16],
        event_context: Option<&windows::core::GUID>,
    ) -> (outcome: Result<(), Error>)
        default_ensures
            outcome == Ok::<(), Error>(()),
    {
        let _ = (new_display_name, event_context);
        Ok(())
    }

    /// See also: [`IAudioSessionEvents::OnGroupingParamChanged`](https://docs.microsoft.com/en-us/windows/win32/api/audiopolicy/nf-audiopolicy-iaudiosessionevents-ongroupingparamchanged)
    fn on_grouping_param_changed(
        &self,
        new_grouping_param: Option<&windows::core::GUID>,
        event_context: Option<&windows::core::GUID>,
    ) -> (outcome: Result<(), Error>)
        default_ensures
            outcome == Ok::<(), Error>(()),
    {
        let _ = (new_grouping_param, event_context);
        Ok(())
    }

    /// See also: [`IAudioSessionEvents::OnIconPathChanged`](https://docs.microsoft.com/en-us/windows/win32/api/audiopolicy/nf-audiopolicy-iaudiosessionevents-oniconpathchanged)
    fn on_icon_path_changed(
        &self,
        new_icon_path: &[u16],
        event_context: Option<&windows::core::GUID>,
    ) -> (outcome: Result<(), Error>)
        default_ensures
            outcome == Ok::<(), Error>(()),
    {
        let _ = (new_icon_path, event_context);
        Ok(())
    }

    /// See also: [`IAudioSessionEvents::OnSessionDisconnected`](https://docs.microsoft.com/en-us/windows/win32/api/audiopolicy/nf-audiopolicy-iaudiosessionevents-onsessiondisconnected)
    fn on_session_disconnected(&self, disconnect_reason: AudioSessionDisconnectReason) -> (outcome:
        Result<(), Error>)
        default_ensures
            outcome == Ok::<(), Error>(()),
    {
        let _ = disconnect_reason;
        Ok(())
    }

    /// See also: [`IAudioSessionEvents::OnSimpleVolumeChanged`](https://docs.microsoft.com/en-us/windows/win32/api/audiopolicy/nf-audiopolicy-iaudiosessionevents-onsimplevolumechanged)
    fn on_simple_volume_changed(
        &self,
        new_volume: Self::Level,
        new_mute: bool,
        event_context: Option<&windows::core::GUID>,
    ) -> (outcome: Result<(), Error>)
        default_ensures
            outcome == Ok::<(), Error>(()),
    {
        let _ = (new_volume, new_mute, event_context);
        Ok(())
    }

    /// See also: [`IAudioSessionEvents::OnStateChanged`](https://docs.microsoft.com/en-us/windows/win32/api/audiopolicy/nf-audiopolicy-iaudiosessionevents-onstatechanged)
    fn on_state_changed(&self, new_state: AudioSessionState) -> (outcome: Result<(), Error>)
        default_ensures
            outcome == Ok::<(), Error>(()),
    {
        let _ = new_state;
        Ok(())
    }
}

/// One event of an audio session, with what that kind carries. Levels are of
/// type `V`; names and paths are strings of 16-bit units.
#[derive(Debug)]
pub enum SessionEvent<'a, V> {
    ChannelVolumeChanged {
        levels: &'a [V],
        changed_index: usize,
        event_context: Option<&'a windows::core::GUID>,
    },
    DisplayNameChanged { name: &'a [u16], event_context: Option<&'a windows::core::GUID> },
    GroupingParamChanged {
        grouping_param: Option<&'a windows::core::GUID>,
        event_context: Option<&'a windows::core::GUID>,
    },
    IconPathChanged { path: &'a [u16], event_context: Option<&'a windows::core::GUID> },
    SessionDisconnected { reason: AudioSessionDisconnectReason },
    SimpleVolumeChanged { volume: V, mute: bool, event_context: Option<&'a windows::core::GUID> },
    StateChanged { state: AudioSessionState },
}

impl<'a, V> SessionEvent<'a, V> {
    /// What a raw disconnection means.
    pub open spec fn session_disconnected_of(disconnect_reason: i32) -> Result<
        SessionEvent<'a, V>,
        Error,
    > {
        match AudioSessionDisconnectReason::decode(disconnect_reason as int) {
            None => Err(
                Error::UnknownEnumValue(
                    EnumKind::AudioSessionDisconnectReason,
                    disconnect_reason as i64,
                ),
            ),
            Some(reason) => Ok(SessionEvent::SessionDisconnected { reason }),
        }
    }

    /// What a raw change of state means.
    pub open spec fn state_changed_of(new_state: i32) -> Result<SessionEvent<'a, V>, Error> {
        match AudioSessionState::decode(new_state as int) {
            None => Err(Error::UnknownEnumValue(EnumKind::AudioSessionState, new_state as i64)),
            Some(state) => Ok(SessionEvent::StateChanged { state }),
        }
    }

    /// Translates a raw change of channel volumes. The levels are the first
    /// `channel_count` elements of the buffer, which the platform promises to
    /// be there.
    pub fn channel_volume_changed(
        channel_count: u32,
        channel_volumes: &'a [V],
        changed_channel: u32,
        event_context: Option<&'a windows::core::GUID>,
    ) -> (event: SessionEvent<'a, V>)
        requires
            channel_count <= channel_volumes@.len(),
        ensures
            event matches SessionEvent::ChannelVolumeChanged {
                levels,
                changed_index,
                event_context: context,
            } && levels@ == channel_volumes@.take(channel_count as int) && changed_index
                == changed_channel && context == event_context,
    {
        let levels = BorrowedView::new(channel_volumes, channel_count).as_slice();
        SessionEvent::ChannelVolumeChanged {
            levels,
            changed_index: changed_channel as usize,
            event_context,
        }
    }

    /// Translates a raw change of the simple volume. The mute flag is a
    /// platform boolean, true where it is not zero.
    pub fn simple_volume_changed(
        new_volume: V,
        new_mute: i32,
        event_context: Option<&'a windows::core::GUID>,
    ) -> (event: SessionEvent<'a, V>)
        ensures
            event == (SessionEvent::SimpleVolumeChanged {
                volume: new_volume,
                mute: new_mute != 0,
                event_context,
            }),
    {
        SessionEvent::SimpleVolumeChanged {
            volume: new_volume,
            mute: bool_as_bool(new_mute),
            event_context,
        }
    }

    /// Translates a raw disconnection.
    pub fn session_disconnected(disconnect_reason: i32) -> (r: Result<SessionEvent<'a, V>, Error>)
        ensures
            r == Self::session_disconnected_of(disconnect_reason),
    {
        match AudioSessionDisconnectReason::from_raw(disconnect_reason) {
            Ok(reason) => Ok(SessionEvent::SessionDisconnected { reason }),
            Err(e) => Err(e),
        }
    }

    /// Translates a raw change of state.
    pub fn state_changed(new_state: i32) -> (r: Result<SessionEvent<'a, V>, Error>)
        ensures
            r == Self::state_changed_of(new_state),
    {
        match AudioSessionState::from_raw(new_state) {
            Ok(state) => Ok(SessionEvent::StateChanged { state }),
            Err(e) => Err(e),
        }
    }
}

/// The adapter between the platform's session callbacks and a handler.
///
/// It owns the handler and keeps nothing else. Each entry point takes the raw
/// arguments of one callback, translates them, calls the one method of the
/// handler that answers that kind, and returns what the handler answered.
pub struct AudioSessionEventsWrapper<T: AudioSessionEvents> {
    inner: T,
}

impl<T: AudioSessionEvents> View for AudioSessionEventsWrapper<T> {
    type V = T;

    /// The handler that the adapter owns.
    closed spec fn view(&self) -> T {
        self.inner
    }
}

impl<T: AudioSessionEvents> AudioSessionEventsWrapper<T> {
    /// Wraps a handler.
    pub fn new(inner: T) -> (wrapper: AudioSessionEventsWrapper<T>)
        ensures
            wrapper@ == inner,
    {
        AudioSessionEventsWrapper { inner }
    }

    /// The handler that the adapter owns.
    pub fn inner(&self) -> (inner: &T)
        ensures
            *inner == self@,
    {
        &self.inner
    }

    /// That `outcome` is an answer of the handler to `event`: an answer that
    /// the method for that kind of event can give when it is called on the
    /// handler with exactly what the event carries.
    pub open spec fn delivers(
        &self,
        event: SessionEvent<'_, T::Level>,
        outcome: Result<(), Error>,
    ) -> bool {
        match event {
            SessionEvent::ChannelVolumeChanged {
                levels,
                changed_index,
                event_context,
            } => call_ensures(
                T::on_channel_volume_changed,
                (&self@, levels, changed_index, event_context),
                outcome,
            ),
            SessionEvent::DisplayNameChanged { name, event_context } => call_ensures(
                T::on_display_name_changed,
                (&self@, name, event_context),
                outcome,
            ),
            SessionEvent::GroupingParamChanged { grouping_param, event_context } => call_ensures(
                T::on_grouping_param_changed,
                (&self@, grouping_param, event_context),
                outcome,
            ),
            SessionEvent::IconPathChanged { path, event_context } => call_ensures(
                T::on_icon_path_changed,
                (&self@, path, event_context),
                outcome,
            ),
            SessionEvent::SessionDisconnected { reason } => call_ensures(
                T::on_session_disconnected,
                (&self@, reason),
                outcome,
            ),
            SessionEvent::SimpleVolumeChanged { volume, mute, event_context } => call_ensures(
                T::on_simple_volume_changed,
                (&self@, volume, mute, event_context),
                outcome,
            ),
            SessionEvent::StateChanged { state } => call_ensures(
                T::on_state_changed,
                (&self@, state),
                outcome,
            ),
        }
    }

    /// Hands an event to the method of the handler that answers its kind,
    /// once, and returns the handler's answer.
    pub fn dispatch(&self, event: SessionEvent<'_, T::Level>) -> (outcome: Result<(), Error>)
        ensures
            self.delivers(event, outcome),
    {
        match event {
            SessionEvent::ChannelVolumeChanged {
                levels,
                changed_index,
                event_context,
            } => self.inner.on_channel_volume_changed(levels, changed_index, event_context),
            SessionEvent::DisplayNameChanged {
                name,
                event_context,
            } => self.inner.on_display_name_changed(name, event_context),
            SessionEvent::GroupingParamChanged {
                grouping_param,
                event_context,
            } => self.inner.on_grouping_param_changed(grouping_param, event_context),
            SessionEvent::IconPathChanged {
                path,
                event_context,
            } => self.inner.on_icon_path_changed(path, event_context),
            SessionEvent::SessionDisconnected { reason } => self.inner.on_session_disconnected(
                reason,
            ),
            SessionEvent::SimpleVolumeChanged {
                volume,
                mute,
                event_context,
            } => self.inner.on_simple_volume_changed(volume, mute, event_context),
            SessionEvent::StateChanged { state } => self.inner.on_state_changed(state),
        }
    }

    /// The volume of a channel changed. The handler gets the first
    /// `channel_count` levels of the buffer, the index of the channel that
    /// changed, and the context as it came.
    pub fn on_channel_volume_changed(
        &self,
        channel_count: u32,
        channel_volumes: &[T::Level],
        changed_channel: u32,
        event_context: Option<&windows::core::GUID>,
    ) -> (outcome: Result<(), Error>)
        requires
            channel_count <= channel_volumes@.len(),
        ensures
            exists|levels: &[T::Level]|
                levels@ == channel_volumes@.take(channel_count as int) && #[trigger] self.delivers(
                    (SessionEvent::ChannelVolumeChanged {
                        levels,
                        changed_index: changed_channel as usize,
                        event_context,
                    }),
                    outcome,
                ),
    {
        let event = SessionEvent::channel_volume_changed(
            channel_count,
            channel_volumes,
            changed_channel,
            event_context,
        );
        let ghost levels = event->levels;
        let outcome = self.dispatch(event);
        assert(self.delivers(
            (SessionEvent::ChannelVolumeChanged {
                levels,
                changed_index: changed_channel as usize,
                event_context,
            }),
            outcome,
        ));
        outcome
    }

    /// The display name of the session changed.
    pub fn on_display_name_changed(
        &self,
        new_display_name: &[u16],
        event_context: Option<&windows::core::GUID>,
    ) -> (outcome: Result<(), Error>)
        ensures
            self.delivers(
                (SessionEvent::DisplayNameChanged { name: new_display_name, event_context }),
                outcome,
            ),
    {
        self.dispatch(SessionEvent::DisplayNameChanged { name: new_display_name, event_context })
    }

    /// The grouping parameter of the session changed.
    pub fn on_grouping_param_changed(
        &self,
        new_grouping_param: Option<&windows::core::GUID>,
        event_context: Option<&windows::core::GUID>,
    ) -> (outcome: Result<(), Error>)
        ensures
            self.delivers(
                (SessionEvent::GroupingParamChanged {
                    grouping_param: new_grouping_param,
                    event_context,
                }),
                outcome,
            ),
    {
        self.dispatch(
            SessionEvent::GroupingParamChanged {
                grouping_param: new_grouping_param,
                event_context,
            },
        )
    }

    /// The icon of the session changed.
    pub fn on_icon_path_changed(
        &self,
        new_icon_path: &[u16],
        event_context: Option<&windows::core::GUID>,
    ) -> (outcome: Result<(), Error>)
        ensures
            self.delivers(
                (SessionEvent::IconPathChanged { path: new_icon_path, event_context }),
                outcome,
            ),
    {
        self.dispatch(SessionEvent::IconPathChanged { path: new_icon_path, event_context })
    }

    /// The session was disconnected. An unknown reason is reported as the
    /// error, and the handler is not called.
    pub fn on_session_disconnected(&self, disconnect_reason: i32) -> (outcome: Result<(), Error>)
        ensures
            SessionEvent::<T::Level>::session_disconnected_of(disconnect_reason) matches Ok(event)
                ==> self.delivers(event, outcome),
            SessionEvent::<T::Level>::session_disconnected_of(disconnect_reason) matches Err(e)
                ==> outcome == Err::<(), Error>(e),
    {
        match SessionEvent::session_disconnected(disconnect_reason) {
            Ok(event) => self.dispatch(event),
            Err(e) => Err(e),
        }
    }

    /// The volume or the muting of the session changed.
    pub fn on_simple_volume_changed(
        &self,
        new_volume: T::Level,
        new_mute: i32,
        event_context: Option<&windows::core::GUID>,
    ) -> (outcome: Result<(), Error>)
        ensures
            self.delivers(
                (SessionEvent::SimpleVolumeChanged {
                    volume: new_volume,
                    mute: new_mute != 0,
                    event_context,
                }),
                outcome,
            ),
    {
        self.dispatch(SessionEvent::simple_volume_changed(new_volume, new_mute, event_context))
    }

    /// The state of the session changed. An unknown state is reported as the
    /// error, and the handler is not called.
    pub fn on_state_changed(&self, new_state: i32) -> (outcome: Result<(), Error>)
        ensures
            SessionEvent::<T::Level>::state_changed_of(new_state) matches Ok(event)
                ==> self.delivers(event, outcome),
            SessionEvent::<T::Level>::state_changed_of(new_state) matches Err(e) ==> outcome
                == Err::<(), Error>(e),
    {
        match SessionEvent::state_changed(new_state) {
            Ok(event) => self.dispatch(event),
            Err(e) => Err(e),
        }
    }
}

} // verus!
