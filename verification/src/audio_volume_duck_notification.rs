//! Notifications that the volume of a session is ducked for a communication
//! stream or restored, and the adapter that brings them to a caller's
//! handler.

use crate::error::Error;
use vstd::prelude::*;

verus! {

/// A handler of ducking notifications. Every method answers one kind of
/// notification and does nothing unless the handler overrides it.
///
/// The platform calls from threads of its own, and may call again while an
/// earlier call still runs: a handler guards what it shares.
///
/// See also: [`IAudioVolumeDuckNotification`](https://docs.microsoft.com/en-us/windows/win32/api/audiopolicy/nn-audiopolicy-iaudiovolumeducknotification)
pub trait AudioVolumeDuckNotification: Send + Sync + 'static {
    /// See also: [`IAudioVolumeDuckNotification::OnVolumeDuckNotification`](https://docs.microsoft.com/en-us/windows/win32/api/audiopolicy/nf-audiopolicy-iaudiovolumeducknotification-onvolumeducknotification)
    fn on_volume_duck_notification(
        &self,
        session_id: &[u16],
        num_communication_sessions: u32,
    ) -> (outcome: Result<(), Error>)
        default_ensures
            outcome == Ok::<(), Error>(()),
    {
        let _ = (session_id, num_communication_sessions);
        Ok(())
    }

    /// See also: [`IAudioVolumeDuckNotification::OnVolumeUnduckNotification`](https://docs.microsoft.com/en-us/windows/win32/api/audiopolicy/nf-audiopolicy-iaudiovolumeducknotification-onvolumeunducknotification)
    fn on_volume_unduck_notification(&self, session_id: &[u16]) -> (outcome: Result<(), Error>)
        default_ensures
            outcome == Ok::<(), Error>(()),
    {
        let _ = session_id;
        Ok(())
    }
}

/// One ducking notification, with what that kind carries. A session id is the
/// string of 16-bit units by which the platform names the session.
#[derive(Debug, Clone, Copy)]
pub enum DuckNotification<'a> {
    Duck { session_id: &'a [u16], num_communication_sessions: u32 },
    Unduck { session_id: &'a [u16] },
}

/// The adapter between the platform's ducking callbacks and a handler.
///
/// It owns the handler and keeps nothing else. Each entry point calls the one
/// method of the handler that answers that kind, and returns what the handler
/// answered.
pub struct AudioVolumeDuckNotificationWrapper<T: AudioVolumeDuckNotification> {
    inner: T,
}

impl<T: AudioVolumeDuckNotification> View for AudioVolumeDuckNotificationWrapper<T> {
    type V = T;

    /// The handler that the adapter owns.
    closed spec fn view(&self) -> T {
        self.inner
    }
}

impl<T: AudioVolumeDuckNotification> AudioVolumeDuckNotificationWrapper<T> {
    /// Wraps a handler.
    pub fn new(inner: T) -> (wrapper: AudioVolumeDuckNotificationWrapper<T>)
        ensures
            wrapper@ == inner,
    {
        AudioVolumeDuckNotificationWrapper { inner }
    }

    /// The handler that the adapter owns.
    pub fn inner(&self) -> (inner: &T)
        ensures
            *inner == self@,
    {
        &self.inner
    }

    /// That `outcome` is an answer of the handler to `event`: an answer that
    /// the method for that kind of event can give when it is called on the
    /// handler with exactly what the event carries.
    pub open spec fn delivers(
        &self,
        event: DuckNotification<'_>,
        outcome: Result<(), Error>,
    ) -> bool {
        match event {
            DuckNotification::Duck { session_id, num_communication_sessions } => call_ensures(
                T::on_volume_duck_notification,
                (&self@, session_id, num_communication_sessions),
                outcome,
            ),
            DuckNotification::Unduck { session_id } => call_ensures(
                T::on_volume_unduck_notification,
                (&self@, session_id),
                outcome,
            ),
        }
    }

    /// Hands an event to the method of the handler that answers its kind,
    /// once, and returns the handler's answer.
    pub fn dispatch(&self, event: DuckNotification<'_>) -> (outcome: Result<(), Error>)
        ensures
            self.delivers(event, outcome),
    {
        match event {
            DuckNotification::Duck {
                session_id,
                num_communication_sessions,
            } => self.inner.on_volume_duck_notification(session_id, num_communication_sessions),
            DuckNotification::Unduck {
                session_id,
            } => self.inner.on_volume_unduck_notification(session_id),
        }
    }

    /// The volume of a session is about to be ducked.
    pub fn on_volume_duck_notification(
        &self,
        session_id: &[u16],
        num_communication_sessions: u32,
    ) -> (outcome: Result<(), Error>)
        ensures
            self.delivers(
                (DuckNotification::Duck { session_id, num_communication_sessions }),
                outcome,
            ),
    {
        self.dispatch(DuckNotification::Duck { session_id, num_communication_sessions })
    }

    /// The volume of a session is about to be restored.
    pub fn on_volume_unduck_notification(&self, session_id: &[u16]) -> (outcome: Result<
        (),
        Error,
    >)
        ensures
            self.delivers((DuckNotification::Unduck { session_id }), outcome),
    {
        self.dispatch(DuckNotification::Unduck { session_id })
    }
}

} // verus!
