//! The notification that a session was created, and the adapter that brings
//! it to a caller's handler.

use crate::error::Error;
use vstd::prelude::*;

verus! {

/// A handler of the creation of audio sessions. Its method does nothing
/// unless the handler overrides it.
///
/// The platform calls from threads of its own, and may call again while an
/// earlier call still runs: a handler guards what it shares.
///
/// See also: [`IAudioSessionNotification`](https://docs.microsoft.com/en-us/windows/win32/api/audiopolicy/nn-audiopolicy-iaudiosessionnotification)
pub trait AudioSessionNotification: Send + Sync + 'static {
    /// The control of a session, as the handler receives it.
    type Session;

    /// See also: [`IAudioSessionNotification::OnSessionCreated`](https://docs.microsoft.com/en-us/windows/win32/api/audiopolicy/nf-audiopolicy-iaudiosessionnotification-onsessioncreated)
    fn on_session_created(&self, new_session: Self::Session) -> (outcome: Result<(), Error>)
        default_ensures
            outcome == Ok::<(), Error>(()),
    {
        let _ = new_session;
        Ok(())
    }
}

/// The adapter between the platform's session-created callback and a handler.
///
/// It owns the handler and keeps nothing else.
pub struct AudioSessionNotificationWrapper<T: AudioSessionNotification> {
    inner: T,
}

impl<T: AudioSessionNotification> View for AudioSessionNotificationWrapper<T> {
    type V = T;

    /// The handler that the adapter owns.
    closed spec fn view(&self) -> T {
        self.inner
    }
}

impl<T: AudioSessionNotification> AudioSessionNotificationWrapper<T> {
    /// Wraps a handler.
    pub fn new(inner: T) -> (wrapper: AudioSessionNotificationWrapper<T>)
        ensures
            wrapper@ == inner,
    {
        AudioSessionNotificationWrapper { inner }
    }

    /// The handler that the adapter owns.
    pub fn inner(&self) -> (inner: &T)
        ensures
            *inner == self@,
    {
        &self.inner
    }

    /// A session was created. The platform always names the session, so the
    /// caller passes one; the handler is called once with it and its answer is
    /// returned.
    pub fn on_session_created(&self, new_session: Option<T::Session>) -> (outcome: Result<
        (),
        Error,
    >)
        requires
            new_session is Some,
        ensures
            call_ensures(T::on_session_created, (&self@, new_session->0), outcome),
    {
        self.inner.on_session_created(new_session.unwrap())
    }
}

} // verus!
