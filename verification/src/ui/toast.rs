//! The short message the desktop application shows after a copy, which
//! disappears after a while unless a newer message replaced it.

use vstd::prelude::*;

verus! {

/// The message on show, and the number of the last message shown.
pub struct ToastState {
    pub message: Option<String>,
    pub token: u64,
}

/// The state after showing `message`: it is on show, under the next number.
pub open spec fn shown(s: ToastState, message: String) -> ToastState {
    ToastState { message: Some(message), token: (if s.token == u64::MAX { 0 } else { s.token + 1 }) as u64 }
}

/// The state when the timer of message number `token` runs out: the message
/// goes only when it is still that one.
pub open spec fn expired(s: ToastState, token: u64) -> ToastState {
    if s.token == token {
        ToastState { message: None, token: s.token }
    } else {
        s
    }
}

impl ToastState {
    /// No message, numbering from zero.
    pub fn new() -> (res: Self)
        ensures
            res.message is None,
            res.token == 0,
    {
        ToastState { message: None, token: 0 }
    }

    /// Shows `message` and returns its number, for its timer.
    pub fn show(&mut self, message: String) -> (token: u64)
        ensures
            *final(self) == shown(*old(self), message),
            token == final(self).token,
    {
        self.token = self.token.wrapping_add(1);
        self.message = Some(message);
        self.token
    }

    /// The timer of message number `token` ran out.
    pub fn expire(&mut self, token: u64)
        ensures
            *final(self) == expired(*old(self), token),
    {
        if self.token == token {
            self.message = None;
        }
    }
}

/// When the timer of a message runs out and no other message was shown
/// since, the message disappears; when another was shown since, the newer
/// message stays.
pub proof fn lemma_toast_timer(s: ToastState, first: String, second: String)
    ensures
        expired(shown(s, first), shown(s, first).token).message is None,
        expired(shown(shown(s, first), second), shown(s, first).token).message == Some(second),
{
}

} // verus!
