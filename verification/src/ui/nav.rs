//! The tools of the desktop application, as listed in its sidebar.

use crate::locale::L10n;
use vstd::prelude::*;

verus! {

/// A tool of the desktop application.
#[derive(Clone, Copy, Debug, PartialEq, Eq, Hash, Structural)]
pub enum NavDestination {
    Hash,
    PasswordHash,
    QrCode,
    Uuid,
    Url,
    Base64,
    Timestamp,
    NumberBase,
    Color,
    TextCase,
}

/// The tools in the order of the sidebar.
pub open spec fn nav_order() -> Seq<NavDestination> {
    seq![
        NavDestination::Hash,
        NavDestination::PasswordHash,
        NavDestination::QrCode,
        NavDestination::Uuid,
        NavDestination::Url,
        NavDestination::Base64,
        NavDestination::Timestamp,
        NavDestination::NumberBase,
        NavDestination::Color,
        NavDestination::TextCase,
    ]
}

/// The path of a tool's icon among the assets.
pub open spec fn nav_icon(d: NavDestination) -> Seq<char> {
    match d {
        NavDestination::Hash => "icons/hash.svg"@,
        NavDestination::PasswordHash => "icons/lock-keyhole.svg"@,
        NavDestination::QrCode => "icons/qr-code.svg"@,
        NavDestination::Timestamp => "icons/clock.svg"@,
        NavDestination::Url => "icons/link.svg"@,
        NavDestination::NumberBase => "icons/binary.svg"@,
        NavDestination::Uuid => "icons/id-card.svg"@,
        NavDestination::Base64 => "icons/code.svg"@,
        NavDestination::Color => "icons/palette.svg"@,
        NavDestination::TextCase => "icons/case-sensitive.svg"@,
    }
}

/// The sidebar name of a tool in the given texts.
pub open spec fn nav_name(d: NavDestination, l10n: L10n) -> &'static str {
    match d {
        NavDestination::Hash => l10n.nav_hash,
        NavDestination::PasswordHash => l10n.nav_password_hash,
        NavDestination::QrCode => l10n.nav_qrcode,
        NavDestination::Timestamp => l10n.nav_timestamp,
        NavDestination::Url => l10n.nav_url,
        NavDestination::NumberBase => l10n.nav_number_base,
        NavDestination::Uuid => l10n.nav_uuid,
        NavDestination::Base64 => l10n.nav_base64,
        NavDestination::Color => l10n.nav_color,
        NavDestination::TextCase => l10n.nav_text_case,
    }
}

impl NavDestination {
    /// Every tool, in the order of the sidebar.
    pub fn all() -> (res: [Self; 10])
        ensures
            res@ == nav_order(),
    {
        let res = [
            Self::Hash,
            Self::PasswordHash,
            Self::QrCode,
            Self::Uuid,
            Self::Url,
            Self::Base64,
            Self::Timestamp,
            Self::NumberBase,
            Self::Color,
            Self::TextCase,
        ];
        assert(res@ =~= nav_order());
        res
    }

    /// The path of the tool's icon among the assets.
    pub fn icon_path(&self) -> (res: &'static str)
        ensures
            res@ == nav_icon(*self),
    {
        match self {
            Self::Hash => "icons/hash.svg",
            Self::PasswordHash => "icons/lock-keyhole.svg",
            Self::QrCode => "icons/qr-code.svg",
            Self::Timestamp => "icons/clock.svg",
            Self::Url => "icons/link.svg",
            Self::NumberBase => "icons/binary.svg",
            Self::Uuid => "icons/id-card.svg",
            Self::Base64 => "icons/code.svg",
            Self::Color => "icons/palette.svg",
            Self::TextCase => "icons/case-sensitive.svg",
        }
    }

    /// The tool's name in the sidebar, in the given texts.
    pub fn locale_key<'a>(&self, l10n: &'a L10n) -> (res: &'a str)
        ensures
            res == nav_name(*self, *l10n),
    {
        match self {
            Self::Hash => l10n.nav_hash,
            Self::PasswordHash => l10n.nav_password_hash,
            Self::QrCode => l10n.nav_qrcode,
            Self::Timestamp => l10n.nav_timestamp,
            Self::Url => l10n.nav_url,
            Self::NumberBase => l10n.nav_number_base,
            Self::Uuid => l10n.nav_uuid,
            Self::Base64 => l10n.nav_base64,
            Self::Color => l10n.nav_color,
            Self::TextCase => l10n.nav_text_case,
        }
    }
}

/// Every tool appears exactly once in the sidebar.
pub proof fn lemma_nav_complete(d: NavDestination)
    ensures
        exists|i: int| 0 <= i < 10 && nav_order()[i] == d,
        forall|i: int, j: int|
            0 <= i < j < 10 ==> nav_order()[i] != nav_order()[j],
{
    match d {
        NavDestination::Hash => assert(nav_order()[0] == d),
        NavDestination::PasswordHash => assert(nav_order()[1] == d),
        NavDestination::QrCode => assert(nav_order()[2] == d),
        NavDestination::Uuid => assert(nav_order()[3] == d),
        NavDestination::Url => assert(nav_order()[4] == d),
        NavDestination::Base64 => assert(nav_order()[5] == d),
        NavDestination::Timestamp => assert(nav_order()[6] == d),
        NavDestination::NumberBase => assert(nav_order()[7] == d),
        NavDestination::Color => assert(nav_order()[8] == d),
        NavDestination::TextCase => assert(nav_order()[9] == d),
    }
}

} // verus!
