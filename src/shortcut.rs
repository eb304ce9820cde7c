//! Global shortcut text: normalisation, validation against the hotkey
//! grammar, the persisted record, and the errors of a change.

use vstd::prelude::*;
use global_hotkey::hotkey::{HotKey, HotKeyParseError};
use crate::text::{trimmed, trim_text};

verus! {

/// Shortcut used when none is persisted, and the fallback when the
/// persisted one cannot be registered.
pub const DEFAULT_GLOBAL_SHORTCUT: &'static str = "Alt+N";

/// Name of the file, in the per-user configuration directory, that holds
/// the persisted shortcut.
pub const SHORTCUT_FILE_NAME: &'static str = "global-shortcut.txt";

/// The characters of the default shortcut.
pub open spec fn default_text() -> Seq<char> {
    seq!['A', 'l', 't', '+', 'N']
}

pub proof fn lemma_default_text()
    ensures
        DEFAULT_GLOBAL_SHORTCUT@ == default_text(),
{
    reveal_strlit("Alt+N");
    assert(DEFAULT_GLOBAL_SHORTCUT@ =~= default_text());
}

#[verifier::external_type_specification]
#[verifier::external_body]
pub struct ExHotKey(HotKey);

#[verifier::external_type_specification]
#[verifier::external_body]
pub struct ExHotKeyParseError(HotKeyParseError);

/// Whether the hotkey grammar accepts a text.
pub uninterp spec fn hotkey_accepts(text: Seq<char>) -> bool;

/// Relies on global_hotkey's `HotKey::from_str`: whether a text parses
/// depends on the text alone, and the default `Alt+N` parses.
#[verifier::external_body]
fn parse_hotkey(text: &str) -> (r: Result<HotKey, HotKeyParseError>)
    ensures
        r is Ok <==> hotkey_accepts(text@),
        text@ == default_text() ==> r is Ok,
{
    text.parse::<HotKey>()
}

/// Relies on the `Display` text of global_hotkey's `HotKeyParseError`.
#[verifier::external_body]
fn parse_error_text(e: &HotKeyParseError) -> (r: String) {
    e.to_string()
}

/// What went wrong in a change of shortcut, as the caller sees it.
pub enum ErrorView {
    EmptyShortcut,
    InvalidShortcut(Seq<char>),
    ClearFailed(Seq<char>),
    RegisterFailed(Seq<char>, Seq<char>),
    SaveFailed(Seq<char>),
}

/// Why a change of shortcut failed.
#[derive(Debug)]
pub enum ShortcutError {
    /// The text was blank after trimming.
    EmptyShortcut,
    /// The hotkey grammar rejected the text.
    InvalidShortcut { shortcut: String, reason: String },
    /// The previously registered shortcuts could not be released.
    ClearFailed { reason: String },
    /// The operating system refused the binding.
    RegisterFailed { shortcut: String, reason: String },
    /// The shortcut could not be persisted.
    SaveFailed { reason: String },
}

impl View for ShortcutError {
    type V = ErrorView;

    open spec fn view(&self) -> ErrorView {
        match self {
            ShortcutError::EmptyShortcut => ErrorView::EmptyShortcut,
            ShortcutError::InvalidShortcut { shortcut, .. } => ErrorView::InvalidShortcut(shortcut@),
            ShortcutError::ClearFailed { reason } => ErrorView::ClearFailed(reason@),
            ShortcutError::RegisterFailed { shortcut, reason } => ErrorView::RegisterFailed(
                shortcut@,
                reason@,
            ),
            ShortcutError::SaveFailed { reason } => ErrorView::SaveFailed(reason@),
        }
    }
}

/// The text shown to the user for an error.
pub open spec fn message_spec(e: &ShortcutError) -> Seq<char> {
    match e {
        ShortcutError::EmptyShortcut => "Shortcut cannot be empty"@,
        ShortcutError::InvalidShortcut { shortcut, reason } => "Invalid shortcut '"@ + shortcut@
            + "': "@ + reason@,
        ShortcutError::ClearFailed { reason } => "Failed to clear previous shortcut: "@ + reason@,
        ShortcutError::RegisterFailed { shortcut, reason } => "Failed to register shortcut '"@
            + shortcut@ + "': "@ + reason@,
        ShortcutError::SaveFailed { reason } => reason@,
    }
}

impl ShortcutError {
    /// The text shown to the user for this error.
    pub fn message(&self) -> (r: String)
        ensures
            r@ == message_spec(self),
    {
        match self {
            ShortcutError::EmptyShortcut => String::from_str("Shortcut cannot be empty"),
            ShortcutError::InvalidShortcut { shortcut, reason } => String::from_str(
                "Invalid shortcut '",
            ).concat(shortcut.as_str()).concat("': ").concat(reason.as_str()),
            ShortcutError::ClearFailed { reason } => String::from_str(
                "Failed to clear previous shortcut: ",
            ).concat(reason.as_str()),
            ShortcutError::RegisterFailed { shortcut, reason } => String::from_str(
                "Failed to register shortcut '",
            ).concat(shortcut.as_str()).concat("': ").concat(reason.as_str()),
            ShortcutError::SaveFailed { reason } => reason.clone(),
        }
    }
}

/// A shortcut text together with the hotkey the grammar made of it.
pub struct ShortcutBinding {
    text: String,
    hotkey: HotKey,
}

impl View for ShortcutBinding {
    type V = Seq<char>;

    closed spec fn view(&self) -> Seq<char> {
        self.text@
    }
}

impl ShortcutBinding {
    /// Parses `text` with the hotkey grammar.
    pub fn parse(text: String) -> (r: Result<ShortcutBinding, ShortcutError>)
        ensures
            r is Ok <==> hotkey_accepts(text@),
            text@ == default_text() ==> r is Ok,
            match r {
                Ok(b) => b@ == text@,
                Err(e) => e@ == ErrorView::InvalidShortcut(text@),
            },
    {
        match parse_hotkey(text.as_str()) {
            Ok(hotkey) => Ok(ShortcutBinding { text, hotkey }),
            Err(e) => {
                let reason = parse_error_text(&e);
                Err(ShortcutError::InvalidShortcut { shortcut: text, reason })
            },
        }
    }

    /// The shortcut text.
    pub fn text(&self) -> (r: String)
        ensures
            r@ == self@,
    {
        self.text.clone()
    }

    /// The parsed hotkey, to hand to the operating system.
    pub fn hotkey(&self) -> HotKey {
        self.hotkey
    }

    pub fn duplicate(&self) -> (r: ShortcutBinding)
        ensures
            r@ == self@,
    {
        ShortcutBinding { text: self.text.clone(), hotkey: self.hotkey }
    }
}

/// The shortcut that a persisted record stands for: its trimmed text, or
/// none where the file is absent or blank.
pub open spec fn loaded_spec(contents: Option<Seq<char>>) -> Option<Seq<char>> {
    match contents {
        Some(c) => if trimmed(c).len() == 0 {
            None
        } else {
            Some(trimmed(c))
        },
        None => None,
    }
}

pub open spec fn opt_string_view(o: Option<String>) -> Option<Seq<char>> {
    match o {
        Some(s) => Some(s@),
        None => None,
    }
}

/// The shortcut read back from the persisted file's contents (`None` where
/// the file could not be read).
pub fn shortcut_from_file(contents: Option<String>) -> (r: Option<String>)
    ensures
        opt_string_view(r) == loaded_spec(opt_string_view(contents)),
{
    match contents {
        Some(c) => {
            let value = trim_text(c.as_str());
            if value.as_str().is_empty() {
                None
            } else {
                Some(value)
            }
        },
        None => None,
    }
}

/// The text a change asks for: `raw` trimmed, or `EmptyShortcut` where
/// nothing is left.
pub fn normalize_shortcut(raw: &str) -> (r: Result<String, ShortcutError>)
    ensures
        match r {
            Ok(s) => s@ == trimmed(raw@) && s@.len() > 0,
            Err(e) => e@ == ErrorView::EmptyShortcut && trimmed(raw@).len() == 0,
        },
{
    let normalized = trim_text(raw);
    if normalized.as_str().is_empty() {
        Err(ShortcutError::EmptyShortcut)
    } else {
        Ok(normalized)
    }
}

/// Saving a trimmed, non-blank shortcut and reading the file back yields
/// that shortcut; an absent file yields none.
pub proof fn lemma_store_round_trip(s: Seq<char>)
    requires
        s.len() > 0,
        trimmed(s) == s,
    ensures
        loaded_spec(Some(s)) == Some(s),
        loaded_spec(None) == None::<Seq<char>>,
{
}

} // verus!
