//! The notifier that asks for the device with a desktop notification.

use vstd::prelude::*;
use vstd::string::StringExecFns;

verus! {

/// A desktop notification: what the notification service is asked to show.
#[derive(Debug)]
pub struct DesktopNotification {
    pub summary: String,
    pub body: String,
}

/// Announces the wait for the device with a desktop notification. The end of
/// the wait is not announced.
#[derive(Debug)]
pub struct DesktopNotificationsFallbackNotifier {}

/// The summary line of the notification.
pub open spec fn start_summary() -> Seq<char> {
    "WebAuthn"@
}

/// The body of the notification.
pub open spec fn start_body() -> Seq<char> {
    "Please insert and activate your U2F device."@
}

impl DesktopNotificationsFallbackNotifier {
    pub fn new() -> (notifier: Self)
        ensures
            notifier == (DesktopNotificationsFallbackNotifier {  }),
    {
        Self {  }
    }

    /// What to show when the wait begins.
    pub fn notify_start(&self) -> (shown: Option<DesktopNotification>)
        ensures
            shown matches Some(notification) && notification.summary@ == start_summary()
                && notification.body@ == start_body(),
    {
        Some(
            DesktopNotification {
                summary: String::from_str("WebAuthn"),
                body: String::from_str("Please insert and activate your U2F device."),
            },
        )
    }

    /// What to show when the wait has ended: nothing.
    pub fn notify_end(&self) -> (shown: Option<DesktopNotification>)
        ensures
            shown is None,
    {
        None
    }
}

} // verus!
