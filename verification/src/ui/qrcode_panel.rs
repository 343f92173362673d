//! The QR code tool of the desktop application: the modules of the QR code
//! of the input at the chosen error correction level.

use crate::cmd::qrcode::{grid_for, level_index, qr_fits, qr_modules, Level, QrGrid};
use crate::locale::L10n;
use crate::text::owned;
use vstd::prelude::*;
use vstd::utf8::encode_utf8;

verus! {

/// The state of the QR code tool.
pub struct QrCodePanel {
    /// The error correction level chosen.
    pub ec_level: Level,
    /// The modules of the code drawn, if any.
    pub grid: Option<QrGrid>,
    /// The message shown when the input does not fit.
    pub error: Option<String>,
}

/// The state after drawing `input` at the level: nothing for an empty input;
/// else the modules of its QR code, or the message that it is too long.
pub open spec fn regenerated(after: QrCodePanel, level: Level, l10n: L10n, input: Seq<char>) -> bool {
    &&& after.ec_level == level
    &&& if input.len() == 0 {
        after.grid is None && after.error is None
    } else if qr_fits(encode_utf8(input), level_index(level)) {
        (after.grid matches Some(g) && g.wf() && (g.width, g.dark@) == qr_modules(
            encode_utf8(input),
            level_index(level),
        )) && after.error is None
    } else {
        after.grid is None && (after.error matches Some(e) && e@ == l10n.qrcode_error_too_long@)
    }
}

impl QrCodePanel {
    /// The tool at start: level M, nothing drawn.
    pub fn new() -> (res: Self)
        ensures
            res.ec_level == Level::M,
            res.grid is None,
            res.error is None,
    {
        QrCodePanel { ec_level: Level::M, grid: None, error: None }
    }

    /// Draws the QR code of the input at the chosen level.
    pub fn regenerate(&mut self, l10n: &L10n, input: &str)
        ensures
            regenerated(*final(self), old(self).ec_level, *l10n, input@),
    {
        if input.is_empty() {
            self.error = None;
            self.grid = None;
            return;
        }
        match grid_for(input, self.ec_level) {
            Some(g) => {
                self.grid = Some(g);
                self.error = None;
            },
            None => {
                self.grid = None;
                self.error = Some(owned(l10n.qrcode_error_too_long));
            },
        }
    }

    /// Chooses the level and draws the input again.
    pub fn select_ec(&mut self, l10n: &L10n, level: Level, input: &str)
        ensures
            regenerated(*final(self), level, *l10n, input@),
    {
        self.ec_level = level;
        self.regenerate(l10n, input);
    }

    /// Clears the drawing; the level stays.
    pub fn clear(&mut self)
        ensures
            final(self).ec_level == old(self).ec_level,
            final(self).grid is None,
            final(self).error is None,
    {
        self.grid = None;
        self.error = None;
    }
}

/// The name of a level in the given texts.
pub open spec fn level_name(level: Level, l10n: L10n) -> &'static str {
    match level {
        Level::L => l10n.qrcode_ec_l,
        Level::M => l10n.qrcode_ec_m,
        Level::Q => l10n.qrcode_ec_q,
        Level::H => l10n.qrcode_ec_h,
    }
}

/// The name of a level in the given texts.
pub fn ec_label<'a>(level: Level, l10n: &'a L10n) -> (res: &'a str)
    ensures
        res == level_name(level, *l10n),
{
    match level {
        Level::L => l10n.qrcode_ec_l,
        Level::M => l10n.qrcode_ec_m,
        Level::Q => l10n.qrcode_ec_q,
        Level::H => l10n.qrcode_ec_h,
    }
}

/// The identifier of a level's button: its letter in lowercase.
pub open spec fn level_id(level: Level) -> Seq<char> {
    match level {
        Level::L => "l"@,
        Level::M => "m"@,
        Level::Q => "q"@,
        Level::H => "h"@,
    }
}

/// The identifier of a level's button: its letter in lowercase.
pub fn ec_id(level: Level) -> (res: &'static str)
    ensures
        res@ == level_id(level),
{
    match level {
        Level::L => "l",
        Level::M => "m",
        Level::Q => "q",
        Level::H => "h",
    }
}

} // verus!
