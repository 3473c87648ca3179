//! The system-wide key combination that brings the window back.

use vstd::prelude::*;
use crate::error::HotkeyRegistrationError;
use crate::text::same_text;

verus! {

/// A key combination: a set of modifier keys and one key.
///
/// The key is named by its code, as in `Space` or `KeyQ`.
#[derive(Debug, PartialEq, Eq)]
pub struct KeyCombination {
    pub control: bool,
    pub shift: bool,
    pub alt: bool,
    pub meta: bool,
    pub key: String,
}

/// A key combination as a mathematical value.
pub struct KeyCombinationView {
    pub control: bool,
    pub shift: bool,
    pub alt: bool,
    pub meta: bool,
    pub key: Seq<char>,
}

impl View for KeyCombination {
    type V = KeyCombinationView;

    open spec fn view(&self) -> KeyCombinationView {
        KeyCombinationView {
            control: self.control,
            shift: self.shift,
            alt: self.alt,
            meta: self.meta,
            key: self.key@,
        }
    }
}

impl Clone for KeyCombination {
    fn clone(&self) -> (copy: KeyCombination)
        ensures
            copy@ == self@,
    {
        KeyCombination {
            control: self.control,
            shift: self.shift,
            alt: self.alt,
            meta: self.meta,
            key: self.key.clone(),
        }
    }
}

impl KeyCombinationView {
    /// Control, Shift and Space together.
    pub open spec fn show_window() -> KeyCombinationView {
        KeyCombinationView { control: true, shift: true, alt: false, meta: false, key: "Space"@ }
    }
}

impl KeyCombination {
    /// A combination of the given modifiers and key.
    pub fn new(control: bool, shift: bool, alt: bool, meta: bool, key: &str) -> (combination: KeyCombination)
        ensures
            combination@ == (KeyCombinationView { control, shift, alt, meta, key: key@ }),
    {
        KeyCombination { control, shift, alt, meta, key: key.to_owned() }
    }

    /// The combination that shows the window unless another is chosen:
    /// Control, Shift and Space.
    pub fn show_window() -> (combination: KeyCombination)
        ensures
            combination@ == KeyCombinationView::show_window(),
    {
        KeyCombination::new(true, true, false, false, "Space")
    }

    /// Whether this is the same combination as `other`: the same modifiers
    /// and the same key.
    pub fn matches(&self, other: &KeyCombination) -> (same: bool)
        ensures
            same == (self@ == other@),
    {
        self.control == other.control && self.shift == other.shift && self.alt == other.alt
            && self.meta == other.meta && same_text(self.key.as_str(), other.key.as_str())
    }
}

/// Whether the platform has a global hotkey subsystem, and the combination
/// to bind where it has one.
///
/// Desktop targets have the subsystem; mobile and embedded targets do not.
/// Which of the two holds is fixed when the host is built.
#[derive(Debug, PartialEq, Eq)]
pub enum HotkeyCapability {
    /// The subsystem is there, and this combination is to be bound.
    Desktop(KeyCombination),
    /// The platform has no such subsystem.
    Unavailable,
}

impl View for HotkeyCapability {
    type V = Option<KeyCombinationView>;

    open spec fn view(&self) -> Option<KeyCombinationView> {
        match self {
            HotkeyCapability::Desktop(combination) => Some(combination@),
            HotkeyCapability::Unavailable => None,
        }
    }
}

impl Clone for HotkeyCapability {
    fn clone(&self) -> (copy: HotkeyCapability)
        ensures
            copy@ == self@,
    {
        match self {
            HotkeyCapability::Desktop(combination) => HotkeyCapability::Desktop(combination.clone()),
            HotkeyCapability::Unavailable => HotkeyCapability::Unavailable,
        }
    }
}

/// A registered global shortcut: firing its combination, whichever
/// application has the input focus, requests that the window be shown.
#[derive(Debug, PartialEq, Eq)]
pub struct GlobalShortcutBinding {
    pub combination: KeyCombination,
}

impl View for GlobalShortcutBinding {
    type V = KeyCombinationView;

    open spec fn view(&self) -> KeyCombinationView {
        self.combination@
    }
}

impl Clone for GlobalShortcutBinding {
    fn clone(&self) -> (copy: GlobalShortcutBinding)
        ensures
            copy@ == self@,
    {
        GlobalShortcutBinding { combination: self.combination.clone() }
    }
}

impl GlobalShortcutBinding {
    /// Whether a hotkey that fired is the one this binding listens for.
    pub fn triggered_by(&self, fired: &KeyCombination) -> (hit: bool)
        ensures
            hit == (self@ == fired@),
    {
        self.combination.matches(fired)
    }
}

/// How far the registration of the global hotkey has come.
#[derive(Debug, PartialEq, Eq)]
pub enum HotkeyStatus {
    /// No registration has succeeded or failed.
    Unregistered,
    /// The combination is bound.
    Registered(GlobalShortcutBinding),
    /// The platform refused the combination; the shell runs without it.
    Failed(HotkeyRegistrationError),
}

/// The registration status as a mathematical value.
pub enum HotkeyStatusView {
    Unregistered,
    Registered(KeyCombinationView),
    Failed(HotkeyRegistrationError),
}

impl View for HotkeyStatus {
    type V = HotkeyStatusView;

    open spec fn view(&self) -> HotkeyStatusView {
        match self {
            HotkeyStatus::Unregistered => HotkeyStatusView::Unregistered,
            HotkeyStatus::Registered(binding) => HotkeyStatusView::Registered(binding@),
            HotkeyStatus::Failed(error) => HotkeyStatusView::Failed(*error),
        }
    }
}

impl Clone for HotkeyStatus {
    fn clone(&self) -> (copy: HotkeyStatus)
        ensures
            copy@ == self@,
    {
        match self {
            HotkeyStatus::Unregistered => HotkeyStatus::Unregistered,
            HotkeyStatus::Registered(binding) => HotkeyStatus::Registered(binding.clone()),
            HotkeyStatus::Failed(error) => HotkeyStatus::Failed(*error),
        }
    }
}

impl HotkeyStatusView {
    /// Whether a hotkey that fired is bound: a registration succeeded, and
    /// for this very combination.
    pub open spec fn listens_for(self, fired: KeyCombinationView) -> bool {
        self == HotkeyStatusView::Registered(fired)
    }
}

impl HotkeyStatus {
    /// Whether a hotkey that fired is bound.
    pub fn listens_for(&self, fired: &KeyCombination) -> (hit: bool)
        ensures
            hit == self@.listens_for(fired@),
    {
        match self {
            HotkeyStatus::Registered(binding) => binding.triggered_by(fired),
            _ => false,
        }
    }
}

} // verus!
