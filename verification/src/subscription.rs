//! The handle of a registered callback, which owes its registrar exactly one
//! unregistration.
//!
//! The registrar is an object of the platform, and the calls that register
//! and unregister are made by the code that holds it. This module decides what
//! those calls amount to: whether a registration attempt gave a handle, and
//! whether a release or a disposal has to unregister.

use crate::error::Error;
use crate::platform::hresult_is_ok;
use vstd::prelude::*;

verus! {

/// The registration of one adapter with one registrar.
///
/// The handle owns the identity under which the adapter was registered and the
/// registrar that accepted it, and nothing else mutates them. It cannot be
/// copied, so the registration has one owner.
#[must_use]
#[derive(Debug)]
pub struct SubscriptionHandle<A, R> {
    adapter: A,
    registrar: R,
    registered: bool,
}

/// What is known of a handle: what it holds, and whether the registrar still
/// has to be told to let go of it.
pub struct SubscriptionView<A, R> {
    pub adapter: A,
    pub registrar: R,
    pub registered: bool,
}

impl<A, R> View for SubscriptionHandle<A, R> {
    type V = SubscriptionView<A, R>;

    closed spec fn view(&self) -> SubscriptionView<A, R> {
        SubscriptionView {
            adapter: self.adapter,
            registrar: self.registrar,
            registered: self.registered,
        }
    }
}

impl<A, R> SubscriptionView<A, R> {
    /// Whether a release of this handle has to unregister.
    pub open spec fn owes_unregistration(self) -> bool {
        self.registered
    }

    /// The handle after a release: it holds what it held, and is no longer
    /// registered.
    pub open spec fn released(self) -> SubscriptionView<A, R> {
        SubscriptionView { adapter: self.adapter, registrar: self.registrar, registered: false }
    }

    /// How many unregistrations this handle hands out over `steps` releases in
    /// a row.
    pub open spec fn unregistrations(self, steps: nat) -> nat
        decreases steps,
    {
        if steps == 0 {
            0
        } else if self.owes_unregistration() {
            1 + self.released().unregistrations((steps - 1) as nat)
        } else {
            self.released().unregistrations((steps - 1) as nat)
        }
    }
}

impl<A, R> SubscriptionHandle<A, R> {
    /// Concludes a registration attempt from the status that the registrar
    /// returned for it.
    ///
    /// A success code gives the handle of the registration, which holds the
    /// adapter and the registrar. A failure code gives the failure, and both
    /// are let go.
    pub fn from_registration(registrar: R, adapter: A, status: i32) -> (r: Result<
        SubscriptionHandle<A, R>,
        Error,
    >)
        ensures
            status >= 0 ==> (r matches Ok(handle) && handle@.adapter == adapter && handle@.registrar
                == registrar && handle@.registered),
            status < 0 ==> r == Err::<SubscriptionHandle<A, R>, Error>(
                Error::NativeFailure(status),
            ),
    {
        if hresult_is_ok(status) {
            Ok(SubscriptionHandle { adapter, registrar, registered: true })
        } else {
            Err(Error::NativeFailure(status))
        }
    }

    /// Whether the registrar still has to be told to let go of the adapter.
    pub fn is_registered(&self) -> (b: bool)
        ensures
            b == self@.registered,
    {
        self.registered
    }

    /// The identity under which the adapter was registered.
    pub fn adapter(&self) -> (adapter: &A)
        ensures
            *adapter == self@.adapter,
    {
        &self.adapter
    }

    /// The registrar that accepted the registration.
    pub fn registrar(&self) -> (registrar: &R)
        ensures
            *registrar == self@.registrar,
    {
        &self.registrar
    }

    /// Releases the registration: says whether the caller now has to
    /// unregister the adapter with the registrar.
    ///
    /// The answer is yes the first time and no ever after, whether the release
    /// is asked for or comes with the disposal of the handle. What the handle
    /// holds stays as it is.
    pub fn take_unregistration(&mut self) -> (due: bool)
        ensures
            due == old(self)@.owes_unregistration(),
            final(self)@ == old(self)@.released(),
    {
        let due = self.registered;
        self.registered = false;
        due
    }
}

/// What an asked-for release reports, from the status that the registrar
/// returned for the unregistration: a failure code is `UnregisterFailed`. On
/// disposal nobody is left to report to, and the status is dropped.
pub fn release_outcome(status: i32) -> (r: Result<(), Error>)
    ensures
        status >= 0 ==> r == Ok::<(), Error>(()),
        status < 0 ==> r == Err::<(), Error>(Error::UnregisterFailed),
{
    if hresult_is_ok(status) {
        Ok(())
    } else {
        Err(Error::UnregisterFailed)
    }
}

/// A handle that is no longer registered hands out no unregistration, however
/// often it is released.
pub proof fn law_released_stays_released<A, R>(handle: SubscriptionView<A, R>, steps: nat)
    requires
        !handle.registered,
    ensures
        handle.unregistrations(steps) == 0,
    decreases steps,
{
    if steps > 0 {
        law_released_stays_released(handle.released(), (steps - 1) as nat);
    }
}

/// A registered handle that is released once or more, by request, by disposal
/// or by both, hands out exactly one unregistration: the first release does,
/// and none after it.
pub proof fn law_unregistered_exactly_once<A, R>(handle: SubscriptionView<A, R>, steps: nat)
    requires
        handle.registered,
        steps >= 1,
    ensures
        handle.unregistrations(steps) == 1,
        handle.owes_unregistration(),
        handle.released().unregistrations((steps - 1) as nat) == 0,
{
    law_released_stays_released(handle.released(), (steps - 1) as nat);
}

} // verus!
