//! What this layer reads of the notifications and errors that other layers
//! hand to it.

use crate::level::NotificationLevel;
use vstd::prelude::*;

verus! {

/// A notification of the utility layer below this one. This layer carries it
/// through unchanged, so it holds only what the layer below says of it: how
/// severe it is and which message it is shown with.
#[derive(Clone, Copy, Debug)]
pub struct UtilsNotification<'a> {
    level: NotificationLevel,
    message: &'a str,
}

impl<'a> UtilsNotification<'a> {
    /// The severity that the layer below gave this notification.
    pub closed spec fn severity(&self) -> NotificationLevel {
        self.level
    }

    /// The message that the layer below shows this notification with.
    pub closed spec fn message(&self) -> Seq<char> {
        self.message@
    }

    /// A notification of the given severity, shown with the given message.
    pub fn new(level: NotificationLevel, message: &'a str) -> (n: UtilsNotification<'a>)
        ensures
            n.severity() == level,
            n.message() == message@,
    {
        UtilsNotification { level, message }
    }

    /// The severity of the notification.
    pub fn level(&self) -> (level: NotificationLevel)
        ensures
            level == self.severity(),
    {
        self.level
    }

    /// The message of the notification.
    pub fn render(&self) -> (text: String)
        ensures
            text@ == self.message(),
    {
        String::from_str(self.message)
    }
}

/// An error that did not stop the operation it occurred in. This layer only
/// reports it, so it holds the text that the error is shown with.
#[derive(Debug)]
pub struct Error {
    message: String,
}

impl Error {
    /// The text that the error is shown with.
    pub closed spec fn message(&self) -> Seq<char> {
        self.message@
    }

    /// An error shown with the given text.
    pub fn new(message: &str) -> (e: Error)
        ensures
            e.message() == message@,
    {
        Error { message: String::from_str(message) }
    }

    /// The text that the error is shown with.
    pub fn render(&self) -> (text: String)
        ensures
            text@ == self.message(),
    {
        self.message.clone()
    }
}

impl Clone for Error {
    fn clone(&self) -> (copy: Error)
        ensures
            copy.message() == self.message(),
    {
        Error { message: self.message.clone() }
    }
}

} // verus!
