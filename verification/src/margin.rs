//! Margin modes and their spelling on each exchange.
use crate::text::{ascii_lower, ascii_upper, copy_string, owned, text_eq, to_ascii_lowercase, to_ascii_uppercase};
use vstd::prelude::*;

verus! {

/// How a position's margin is shared: across the account, per position, or
/// an exchange-specific mode kept verbatim.
#[derive(Debug, Clone, PartialEq, Eq, Hash)]
pub enum MarginMode {
    Cross,
    Isolated,
    Raw(String),
}

impl MarginMode {
    /// The neutral name of the mode.
    pub open spec fn name(self) -> Seq<char> {
        match self {
            MarginMode::Cross => "cross"@,
            MarginMode::Isolated => "isolated"@,
            MarginMode::Raw(v) => v@,
        }
    }

    /// The mode a free-text name stands for.
    pub open spec fn from_text_spec(value: Seq<char>) -> MarginModeView {
        let lower = ascii_lower(value);
        if lower == "cross"@ || lower == "crossed"@ {
            MarginModeView::Cross
        } else if lower == "isolated"@ {
            MarginModeView::Isolated
        } else {
            MarginModeView::Raw(value)
        }
    }

    pub open spec fn view_mode(self) -> MarginModeView {
        match self {
            MarginMode::Cross => MarginModeView::Cross,
            MarginMode::Isolated => MarginModeView::Isolated,
            MarginMode::Raw(v) => MarginModeView::Raw(v@),
        }
    }

    /// OKX `tdMode`.
    pub open spec fn okx_spec(self) -> Seq<char> {
        match self {
            MarginMode::Cross => "cross"@,
            MarginMode::Isolated => "isolated"@,
            MarginMode::Raw(v) => v@,
        }
    }

    /// Binance `marginType`.
    pub open spec fn binance_spec(self) -> Seq<char> {
        match self {
            MarginMode::Cross => "CROSSED"@,
            MarginMode::Isolated => "ISOLATED"@,
            MarginMode::Raw(v) => ascii_upper(v@),
        }
    }

    /// Bitget `marginMode`.
    pub open spec fn bitget_spec(self) -> Seq<char> {
        match self {
            MarginMode::Cross => "crossed"@,
            MarginMode::Isolated => "isolated"@,
            MarginMode::Raw(v) => v@,
        }
    }

    pub fn as_str(&self) -> (r: &str)
        ensures
            r@ == self.name(),
    {
        match self {
            MarginMode::Cross => "cross",
            MarginMode::Isolated => "isolated",
            MarginMode::Raw(value) => value.as_str(),
        }
    }

    pub fn as_okx_td_mode(&self) -> (r: String)
        ensures
            r@ == self.okx_spec(),
    {
        match self {
            MarginMode::Cross => owned("cross"),
            MarginMode::Isolated => owned("isolated"),
            MarginMode::Raw(value) => copy_string(value),
        }
    }

    pub fn as_binance_margin_type(&self) -> (r: String)
        ensures
            r@ == self.binance_spec(),
    {
        match self {
            MarginMode::Cross => owned("CROSSED"),
            MarginMode::Isolated => owned("ISOLATED"),
            MarginMode::Raw(value) => to_ascii_uppercase(value.as_str()),
        }
    }

    pub fn as_bitget_margin_mode(&self) -> (r: String)
        ensures
            r@ == self.bitget_spec(),
    {
        match self {
            MarginMode::Cross => owned("crossed"),
            MarginMode::Isolated => owned("isolated"),
            MarginMode::Raw(value) => copy_string(value),
        }
    }

    /// Reads a mode name: `cross`/`crossed` and `isolated` in any ASCII case;
    /// anything else is kept verbatim as `Raw`.
    pub fn from_text(value: &str) -> (r: MarginMode)
        ensures
            r.view_mode() == Self::from_text_spec(value@),
    {
        let lower = to_ascii_lowercase(value);
        if text_eq(lower.as_str(), "cross") || text_eq(lower.as_str(), "crossed") {
            MarginMode::Cross
        } else if text_eq(lower.as_str(), "isolated") {
            MarginMode::Isolated
        } else {
            MarginMode::Raw(owned(value))
        }
    }

    /// A copy of this mode.
    pub fn duplicate(&self) -> (r: MarginMode)
        ensures
            r.view_mode() == self.view_mode(),
    {
        match self {
            MarginMode::Cross => MarginMode::Cross,
            MarginMode::Isolated => MarginMode::Isolated,
            MarginMode::Raw(v) => MarginMode::Raw(copy_string(v)),
        }
    }
}

/// Every exchange's spelling of a known margin mode reads back as that mode
/// (`cross`, `crossed`, `CROSSED`; `isolated`, `ISOLATED`), cross and
/// isolated are spelled apart on every exchange, and a mode kept verbatim
/// reads back as itself when its text names no known mode.
pub proof fn margin_modes_read_back(mode: MarginMode)
    ensures
        mode !is Raw ==> {
            &&& MarginMode::from_text_spec(mode.name()) == mode.view_mode()
            &&& MarginMode::from_text_spec(mode.okx_spec()) == mode.view_mode()
            &&& MarginMode::from_text_spec(mode.binance_spec()) == mode.view_mode()
            &&& MarginMode::from_text_spec(mode.bitget_spec()) == mode.view_mode()
        },
        MarginMode::Cross.okx_spec() != MarginMode::Isolated.okx_spec(),
        MarginMode::Cross.binance_spec() != MarginMode::Isolated.binance_spec(),
        MarginMode::Cross.bitget_spec() != MarginMode::Isolated.bitget_spec(),
        mode matches MarginMode::Raw(v) && MarginMode::from_text_spec(v@) is Raw ==> MarginMode::from_text_spec(
            mode.name(),
        ) == mode.view_mode(),
{
    reveal_strlit("cross");
    reveal_strlit("crossed");
    reveal_strlit("isolated");
    reveal_strlit("CROSSED");
    reveal_strlit("ISOLATED");
    assert(ascii_lower("cross"@) =~= "cross"@);
    assert(ascii_lower("crossed"@) =~= "crossed"@);
    assert(ascii_lower("isolated"@) =~= "isolated"@);
    assert(ascii_lower("CROSSED"@) =~= "crossed"@);
    assert(ascii_lower("ISOLATED"@) =~= "isolated"@);
}

/// The mathematical value of a margin mode.
pub ghost enum MarginModeView {
    Cross,
    Isolated,
    Raw(Seq<char>),
}

/// A value that names a margin mode: a `MarginMode`, or its text.
pub trait IntoMarginMode {
    spec fn mode_view(&self) -> MarginModeView;

    fn into_margin_mode(self) -> (r: MarginMode)
        ensures
            r.view_mode() == self.mode_view(),
    ;
}

impl IntoMarginMode for MarginMode {
    open spec fn mode_view(&self) -> MarginModeView {
        self.view_mode()
    }

    fn into_margin_mode(self) -> (r: MarginMode) {
        self
    }
}

impl<'a> IntoMarginMode for &'a str {
    open spec fn mode_view(&self) -> MarginModeView {
        MarginMode::from_text_spec((**self)@)
    }

    fn into_margin_mode(self) -> (r: MarginMode) {
        MarginMode::from_text(self)
    }
}

impl IntoMarginMode for String {
    open spec fn mode_view(&self) -> MarginModeView {
        MarginMode::from_text_spec(self@)
    }

    fn into_margin_mode(self) -> (r: MarginMode) {
        MarginMode::from_text(self.as_str())
    }
}

/// Reads a mode name as `from_text` does, keeping the given text itself for
/// a mode it does not know.
impl From<String> for MarginMode {
    fn from(value: String) -> (r: Self) {
        let lower = to_ascii_lowercase(value.as_str());
        if text_eq(lower.as_str(), "cross") || text_eq(lower.as_str(), "crossed") {
            MarginMode::Cross
        } else if text_eq(lower.as_str(), "isolated") {
            MarginMode::Isolated
        } else {
            MarginMode::Raw(value)
        }
    }
}

impl vstd::std_specs::convert::FromSpecImpl<String> for MarginMode {
    open spec fn obeys_from_spec() -> bool {
        true
    }

    open spec fn from_spec(v: String) -> Self {
        match MarginMode::from_text_spec(v@) {
            MarginModeView::Cross => MarginMode::Cross,
            MarginModeView::Isolated => MarginMode::Isolated,
            MarginModeView::Raw(_) => MarginMode::Raw(v),
        }
    }
}

} // verus!
