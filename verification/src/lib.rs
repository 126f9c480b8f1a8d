//! Callback bridging and subscription lifecycle for the control plane of the
//! Windows audio subsystem.
//!
//! The operating system reports changes of devices, sessions and volumes
//! through fixed callback interfaces. This crate holds what stands between
//! those interfaces and a caller's handler: the tables that turn raw codes into
//! enumerations, the bounded views over raw buffers, the adapters that
//! translate a raw notification and hand it to the handler, the handle that
//! owes the registrar exactly one unregistration, and the snapshot by which a
//! collection is walked.
//!
//! The calls into the operating system themselves are not made here. The crate
//! takes what such a call delivered as plain values and says what follows.

pub mod audio_session_enumerator;
pub mod audio_endpoint_volume_callback;
pub mod audio_session_events;
pub mod audio_session_notification;
pub mod audio_volume_duck_notification;
pub mod bits;
pub mod error;
pub mod notification_client;
pub mod platform;
pub mod subscription;
pub mod view;

pub use audio_endpoint_volume_callback::{
    AudioEndpointVolumeCallback, AudioEndpointVolumeCallbackWrapper, NotificationData,
};
pub use audio_session_enumerator::AudioSessionIter;
pub use audio_session_events::{AudioSessionEvents, AudioSessionEventsWrapper, SessionEvent};
pub use audio_session_notification::{AudioSessionNotification, AudioSessionNotificationWrapper};
pub use audio_volume_duck_notification::{
    AudioVolumeDuckNotification, AudioVolumeDuckNotificationWrapper, DuckNotification,
};
pub use bits::{
    AudioSessionDisconnectReason, AudioSessionState, DataFlow, DataFlowMask, DeviceRole,
    DeviceState, DeviceStateMask, HardwareSupportMask, StorageAccessMode,
};
pub use error::{native_result, EnumKind, Error};
pub use notification_client::{
    DeviceNotification, NotificationClient, NotificationClientWrapper, PropertyKey,
};
pub use subscription::{release_outcome, SubscriptionHandle};
pub use view::BorrowedView;
