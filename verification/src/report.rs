//! Reporting a fatal error to the user.
//!
//! Where the platform has a native message box the user gets a modal error
//! dialog; elsewhere the message goes to the standard error stream. Which of
//! the two applies is the host's choice of [`Channel`]; what is shown on it is
//! decided here.

use crate::utf16::{to_wide_z, wide_z};
use vstd::prelude::*;
use vstd::utf8::encode_utf8;

verus! {

/// Title of the error dialog.
pub const DIALOG_TITLE: &'static str = "EVE Flipper";

/// Label that precedes the message on the standard error stream.
pub const STDERR_LABEL: &'static str = "EVE Flipper error: ";

/// What ends the line on the standard error stream.
pub const LINE_END: &'static str = "\n";

/// The means by which a fatal error reaches the user.
#[derive(Clone, Copy, Debug, PartialEq, Eq, Structural)]
pub enum Channel {
    /// A modal, blocking, native error dialog.
    NativeDialog,
    /// The standard error stream.
    StandardError,
}

/// A fatal error, made ready for its channel.
#[derive(Clone, Debug, PartialEq, Eq)]
pub enum Notice {
    /// An error dialog. Both strings are NUL-terminated UTF-16, as the native
    /// message box takes them; the dialog carries the error icon.
    ErrorDialog { title: Vec<u16>, body: Vec<u16> },
    /// Text to write to the standard error stream, line end included.
    ErrorLine { text: String },
}

/// The mathematical content of a [`Notice`].
pub enum NoticeView {
    ErrorDialog { title: Seq<u16>, body: Seq<u16> },
    ErrorLine { text: Seq<char> },
}

impl View for Notice {
    type V = NoticeView;

    open spec fn view(&self) -> NoticeView {
        match self {
            Notice::ErrorDialog { title, body } => NoticeView::ErrorDialog {
                title: title@,
                body: body@,
            },
            Notice::ErrorLine { text } => NoticeView::ErrorLine { text: text@ },
        }
    }
}

/// What the standard error stream receives for `message`: the label, the
/// message itself, and a line end.
pub open spec fn stderr_text(message: Seq<char>) -> Seq<char> {
    STDERR_LABEL@ + message + LINE_END@
}

/// What `channel` receives for `message`.
pub open spec fn notice_for(channel: Channel, message: Seq<char>) -> NoticeView {
    match channel {
        Channel::NativeDialog => NoticeView::ErrorDialog {
            title: wide_z(DIALOG_TITLE@),
            body: wide_z(message),
        },
        Channel::StandardError => NoticeView::ErrorLine { text: stderr_text(message) },
    }
}

/// Makes `message` ready for `channel`.
pub fn compose(channel: Channel, message: &str) -> (notice: Notice)
    ensures
        notice@ == notice_for(channel, message@),
{
    match channel {
        Channel::NativeDialog => Notice::ErrorDialog {
            title: to_wide_z(DIALOG_TITLE),
            body: to_wide_z(message),
        },
        Channel::StandardError => {
            let mut text = STDERR_LABEL.to_owned();
            text.append(message);
            text.append(LINE_END);
            Notice::ErrorLine { text }
        },
    }
}

/// UTF-8 encoding goes through concatenation: the bytes of `a + b` are the
/// bytes of `a` followed by the bytes of `b`.
pub proof fn lemma_encode_utf8_concat(a: Seq<char>, b: Seq<char>)
    ensures
        encode_utf8(a + b) == encode_utf8(a) + encode_utf8(b),
    decreases a.len(),
{
    if a.len() == 0 {
        assert(a + b =~= b);
    } else {
        assert((a + b).drop_first() =~= a.drop_first() + b);
        lemma_encode_utf8_concat(a.drop_first(), b);
    }
}

/// On the standard error stream the message arrives verbatim: the bytes
/// written are the label's bytes, then exactly the bytes of the message,
/// then the line end. The same holds character by character.
pub proof fn lemma_stderr_carries_message(message: Seq<char>)
    ensures
        encode_utf8(stderr_text(message)) == encode_utf8(STDERR_LABEL@) + encode_utf8(message)
            + encode_utf8(LINE_END@),
        stderr_text(message).subrange(
            STDERR_LABEL@.len() as int,
            (STDERR_LABEL@.len() + message.len()) as int,
        ) == message,
{
    lemma_encode_utf8_concat(STDERR_LABEL@ + message, LINE_END@);
    lemma_encode_utf8_concat(STDERR_LABEL@, message);
}

} // verus!
