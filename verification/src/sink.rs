//! What the notification sink is asked to show.

use crate::event::{NotificationEvent, NotificationEventView};
use vstd::prelude::*;
use vstd::string::StringExecFns;

verus! {

/// The image shown with a notification that names none.
pub const DEFAULT_LOGO: &'static str = "default_toast_logo.png";

/// One desktop notification: its title, its body, and the file name of its
/// logo among the program's images.
#[derive(Clone, Debug, PartialEq, Eq)]
pub struct ToastRequest {
    pub title: String,
    pub body_message: String,
    pub logo_file: String,
}

/// A [`ToastRequest`] as the contracts see it.
pub struct ToastRequestView {
    pub title: Seq<char>,
    pub body_message: Seq<char>,
    pub logo_file: Seq<char>,
}

impl View for ToastRequest {
    type V = ToastRequestView;

    open spec fn view(&self) -> ToastRequestView {
        ToastRequestView {
            title: self.title@,
            body_message: self.body_message@,
            logo_file: self.logo_file@,
        }
    }
}

/// Whether a character has the Unicode property White_Space.
pub open spec fn white_space(c: char) -> bool {
    let code = c as u32;
    ||| 0x0009 <= code <= 0x000D
    ||| code == 0x0020
    ||| code == 0x0085
    ||| code == 0x00A0
    ||| code == 0x1680
    ||| 0x2000 <= code <= 0x200A
    ||| code == 0x2028
    ||| code == 0x2029
    ||| code == 0x202F
    ||| code == 0x205F
    ||| code == 0x3000
}

/// Whether a text is empty or holds white space only.
pub open spec fn blank(text: Seq<char>) -> bool {
    forall|i: int| 0 <= i < text.len() ==> white_space(#[trigger] text[i])
}

/// The file name of the logo for a notification: the one it names, unless
/// it names none or a blank one.
pub open spec fn logo_file_of(logo: Option<Seq<char>>) -> Seq<char> {
    match logo {
        Some(name) => if blank(name) {
            DEFAULT_LOGO@
        } else {
            name
        },
        None => DEFAULT_LOGO@,
    }
}

/// What the sink shows for an event.
pub open spec fn toast_of(event: NotificationEventView) -> ToastRequestView {
    ToastRequestView {
        title: event.title,
        body_message: event.body_message,
        logo_file: logo_file_of(event.logo),
    }
}

/// Tells whether `c` has the Unicode property White_Space.
pub fn is_white_space(c: char) -> (white: bool)
    ensures
        white == white_space(c),
{
    let code: u32 = c as u32;
    (0x0009 <= code && code <= 0x000D) || code == 0x0020 || code == 0x0085 || code == 0x00A0
        || code == 0x1680 || (0x2000 <= code && code <= 0x200A) || code == 0x2028 || code
        == 0x2029 || code == 0x202F || code == 0x205F || code == 0x3000
}

/// Tells whether `text` is empty or holds white space only.
pub fn is_blank(text: &str) -> (all_white: bool)
    ensures
        all_white == blank(text@),
{
    let mut all_white = true;
    for c in it: text.chars()
        invariant
            it.seq() == text@,
            all_white == (forall|i: int| 0 <= i < it.index() ==> white_space(#[trigger] text@[i])),
    {
        if !is_white_space(c) {
            all_white = false;
        }
    }
    all_white
}

/// Turns an event into the request for the sink.
pub fn toast_request(event: NotificationEvent) -> (request: ToastRequest)
    ensures
        request@ == toast_of(event@),
{
    let logo_file = match event.logo {
        Some(name) => if is_blank(name.as_str()) {
            String::from_str(DEFAULT_LOGO)
        } else {
            name
        },
        None => String::from_str(DEFAULT_LOGO),
    };
    ToastRequest { title: event.title, body_message: event.body_message, logo_file }
}

} // verus!
