//! The notification that a payload decodes to.

use vstd::prelude::*;

verus! {

/// The title of a notification whose payload gives none.
pub const DEFAULT_TITLE: &'static str = "Notification";

/// The body of a notification whose payload gives none.
pub const DEFAULT_BODY: &'static str = "Details";

/// A notification ready for the sink: the defaults are already applied, so
/// nothing downstream deals with a missing title or body.
#[derive(Clone, Debug, PartialEq, Eq)]
pub struct NotificationEvent {
    pub title: String,
    pub body_message: String,
    pub message_id: String,
    pub logo: Option<String>,
}

/// A [`NotificationEvent`] as the contracts see it.
pub struct NotificationEventView {
    pub title: Seq<char>,
    pub body_message: Seq<char>,
    pub message_id: Seq<char>,
    pub logo: Option<Seq<char>>,
}

impl View for NotificationEvent {
    type V = NotificationEventView;

    open spec fn view(&self) -> NotificationEventView {
        NotificationEventView {
            title: self.title@,
            body_message: self.body_message@,
            message_id: self.message_id@,
            logo: match self.logo {
                Some(name) => Some(name@),
                None => None,
            },
        }
    }
}

} // verus!
