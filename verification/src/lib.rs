//! Notifications raised while toolchain components and channel manifests are
//! downloaded, installed, removed and verified: what each one is, how
//! prominently it should be shown, and the message it is shown with.
//!
//! [`Notification`] is the closed set of notifications. Its `level` says how
//! severe a notification is and its `render` writes the message; both are
//! total, and each is proved to return what the functions `severity` and
//! `message` say of the notification.

pub mod laws;
pub mod level;
pub mod notifications;
pub mod text;
pub mod triple;
pub mod utils;

pub use crate::level::NotificationLevel;
pub use crate::notifications::Notification;
pub use crate::triple::TargetTriple;
pub use crate::utils::Error;
pub use crate::utils::UtilsNotification;
