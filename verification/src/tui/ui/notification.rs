//! A transient status message and the rule by which it expires.

use vstd::prelude::*;
use crate::tui::ui::style::{fg_style, Color, Style};

verus! {

/// How serious a notification is.
#[derive(Clone, Copy, Debug, PartialEq, Eq, Structural)]
pub enum NotificationType {
    Info,
    Success,
    Error,
}

/// A status message with the time at which it was posted, in milliseconds
/// on the caller's monotonic clock.
#[derive(Debug, PartialEq, Eq)]
pub struct Notification {
    pub message: String,
    pub notif_type: NotificationType,
    pub timestamp: u64,
}

/// What a [`Notification`] holds, as mathematical values.
pub struct NotificationView {
    pub message: Seq<char>,
    pub notif_type: NotificationType,
    pub timestamp: nat,
}

impl View for Notification {
    type V = NotificationView;

    open spec fn view(&self) -> NotificationView {
        NotificationView {
            message: self.message@,
            notif_type: self.notif_type,
            timestamp: self.timestamp as nat,
        }
    }
}

impl DeepView for Notification {
    type V = NotificationView;

    open spec fn deep_view(&self) -> NotificationView {
        self@
    }
}

/// The time that has passed at `now` since `since`. A clock reading older
/// than `since` counts as no time at all.
pub open spec fn elapsed(since: nat, now: nat) -> nat {
    if now >= since {
        (now - since) as nat
    } else {
        0
    }
}

/// Whether a message posted at `since` is due to be cleared at `now`: more
/// than `timeout` has passed.
pub open spec fn expired(since: nat, now: nat, timeout: nat) -> bool {
    elapsed(since, now) > timeout
}

/// The color in which a notification of the given kind is shown.
pub open spec fn notification_color(notif_type: NotificationType) -> Color {
    match notif_type {
        NotificationType::Info => Color::Blue,
        NotificationType::Success => Color::Green,
        NotificationType::Error => Color::Red,
    }
}

impl NotificationView {
    /// Whether this notification is due to be cleared at `now`.
    pub open spec fn should_clear(self, now: nat, timeout: nat) -> bool {
        expired(self.timestamp, now, timeout)
    }
}

impl Notification {
    /// A notification posted at `now`.
    pub fn new(message: String, notif_type: NotificationType, now: u64) -> (notification: Self)
        ensures
            notification.message == message,
            notification.notif_type == notif_type,
            notification.timestamp == now,
    {
        Notification { message, notif_type, timestamp: now }
    }

    /// The style in which the message is shown: blue for information, green
    /// for success, red for an error.
    pub fn style(&self) -> (style: Style)
        ensures
            style == fg_style(notification_color(self.notif_type)),
    {
        match self.notif_type {
            NotificationType::Info => Style::default().fg(Color::Blue),
            NotificationType::Success => Style::default().fg(Color::Green),
            NotificationType::Error => Style::default().fg(Color::Red),
        }
    }

    /// Whether the notification is due to be cleared at `now`: more than
    /// `timeout` milliseconds have passed since it was posted.
    pub fn should_clear(&self, now: u64, timeout: u64) -> (clear: bool)
        ensures
            clear == self@.should_clear(now as nat, timeout as nat),
    {
        now >= self.timestamp && now - self.timestamp > timeout
    }
}

impl Clone for Notification {
    fn clone(&self) -> (copy: Self)
        ensures
            copy == *self,
    {
        Notification {
            message: self.message.clone(),
            notif_type: self.notif_type,
            timestamp: self.timestamp,
        }
    }
}

} // verus!
