//! The tray's context menu: an ordered list of labelled actions, each
//! found by an identifier that no other entry shares.

use vstd::prelude::*;
use crate::error::MenuConstructionError;
use crate::text::same_text;

verus! {

/// One entry of the menu.
///
/// The identifier is what the platform hands back when the user picks the
/// entry; the label is what the user reads.
#[derive(Debug, PartialEq, Eq)]
pub struct MenuAction {
    pub identifier: String,
    pub label: String,
    pub enabled: bool,
}

/// A menu entry as a mathematical value.
pub struct MenuActionView {
    pub identifier: Seq<char>,
    pub label: Seq<char>,
    pub enabled: bool,
}

impl View for MenuAction {
    type V = MenuActionView;

    open spec fn view(&self) -> MenuActionView {
        MenuActionView { identifier: self.identifier@, label: self.label@, enabled: self.enabled }
    }
}

impl DeepView for MenuAction {
    type V = MenuActionView;

    open spec fn deep_view(&self) -> MenuActionView {
        self@
    }
}

impl Clone for MenuAction {
    fn clone(&self) -> (copy: MenuAction)
        ensures
            copy@ == self@,
    {
        MenuAction {
            identifier: self.identifier.clone(),
            label: self.label.clone(),
            enabled: self.enabled,
        }
    }
}

impl MenuAction {
    /// An entry with the given identifier, label and enabled flag.
    pub fn new(identifier: &str, label: &str, enabled: bool) -> (action: MenuAction)
        ensures
            action@ == (MenuActionView { identifier: identifier@, label: label@, enabled }),
    {
        MenuAction { identifier: identifier.to_owned(), label: label.to_owned(), enabled }
    }
}

/// The identifier of the entry that shows the window.
pub open spec fn show_identifier() -> Seq<char> {
    "show"@
}

/// The identifier of the entry that quits the application.
pub open spec fn quit_identifier() -> Seq<char> {
    "quit"@
}

/// The entry that shows the window.
pub open spec fn show_action() -> MenuActionView {
    MenuActionView { identifier: show_identifier(), label: "Show Window"@, enabled: true }
}

/// The entry that quits the application.
pub open spec fn quit_action() -> MenuActionView {
    MenuActionView { identifier: quit_identifier(), label: "Quit"@, enabled: true }
}

/// No two entries share an identifier.
pub open spec fn identifiers_distinct(actions: Seq<MenuActionView>) -> bool {
    forall|i: int, j: int|
        0 <= i < j < actions.len() ==> (#[trigger] actions[i]).identifier != (
        #[trigger] actions[j]).identifier
}

/// The two identifiers of the built-in entries differ.
pub proof fn lemma_show_is_not_quit()
    ensures
        show_identifier() != quit_identifier(),
{
    reveal_strlit("show");
    reveal_strlit("quit");
    assert(show_identifier()[0] == 's');
    assert(quit_identifier()[0] == 'q');
}

/// Which of the two built-in menus to build.
#[derive(Clone, Copy, Debug, PartialEq, Eq, Structural)]
pub enum MenuVariant {
    /// A single entry that quits.
    Minimal,
    /// An entry that shows the window, then one that quits.
    Extended,
}

impl MenuVariant {
    /// The entries of this menu, in the order the user sees them.
    pub open spec fn spec_actions(self) -> Seq<MenuActionView> {
        match self {
            MenuVariant::Minimal => seq![quit_action()],
            MenuVariant::Extended => seq![show_action(), quit_action()],
        }
    }
}

/// A menu definition whose identifiers are pairwise distinct.
#[derive(Debug, PartialEq, Eq)]
pub struct Menu {
    actions: Vec<MenuAction>,
}

impl View for Menu {
    type V = Seq<MenuActionView>;

    closed spec fn view(&self) -> Seq<MenuActionView> {
        self.actions.deep_view()
    }
}

/// Whether some identifier occurs twice among the actions.
fn has_duplicate_identifier(actions: &Vec<MenuAction>) -> (duplicate: bool)
    ensures
        duplicate == !identifiers_distinct(actions.deep_view()),
{
    let ghost views = actions.deep_view();
    let n = actions.len();
    let mut j: usize = 0;
    while j < n
        invariant
            j <= n,
            n == actions.len(),
            views == actions.deep_view(),
            forall|a: int, b: int|
                0 <= a < b < j ==> (#[trigger] views[a]).identifier != (#[trigger] views[b]).identifier,
        decreases n - j,
    {
        let mut i: usize = 0;
        while i < j
            invariant
                i <= j < n,
                n == actions.len(),
                views == actions.deep_view(),
                forall|a: int| 0 <= a < i ==> (#[trigger] views[a]).identifier != views[j as int].identifier,
            decreases j - i,
        {
            if same_text(actions[i].identifier.as_str(), actions[j].identifier.as_str()) {
                assert(views[i as int].identifier == views[j as int].identifier);
                return true;
            }
            i += 1;
        }
        j += 1;
    }
    false
}

impl Menu {
    #[verifier::type_invariant]
    spec fn distinct(self) -> bool {
        identifiers_distinct(self@)
    }

    /// A menu of the given entries, in the given order.
    ///
    /// Fails with `DuplicateIdentifier` exactly when two of the entries
    /// share an identifier.
    pub fn new(actions: Vec<MenuAction>) -> (built: Result<Menu, MenuConstructionError>)
        ensures
            identifiers_distinct(actions.deep_view()) ==> built is Ok && built->Ok_0@
                == actions.deep_view(),
            !identifiers_distinct(actions.deep_view()) ==> built
                == Err::<Menu, MenuConstructionError>(MenuConstructionError::DuplicateIdentifier),
    {
        if has_duplicate_identifier(&actions) {
            Err(MenuConstructionError::DuplicateIdentifier)
        } else {
            Ok(Menu { actions })
        }
    }

    /// The number of entries.
    pub fn len(&self) -> (n: usize)
        ensures
            n == self@.len(),
    {
        self.actions.len()
    }

    /// The entry at `index`, counting from the top, if there is one.
    pub fn get(&self, index: usize) -> (action: Option<&MenuAction>)
        ensures
            index < self@.len() ==> action is Some && action->Some_0@ == self@[index as int],
            index >= self@.len() ==> action is None,
    {
        if index < self.actions.len() {
            Some(&self.actions[index])
        } else {
            None
        }
    }

    /// The entries, from the top. No two of them share an identifier.
    pub fn actions(&self) -> (actions: &Vec<MenuAction>)
        ensures
            actions.deep_view() == self@,
            identifiers_distinct(self@),
    {
        proof {
            use_type_invariant(self);
        }
        &self.actions
    }
}

impl Clone for Menu {
    fn clone(&self) -> (copy: Menu)
        ensures
            copy@ == self@,
    {
        proof {
            use_type_invariant(self);
        }
        let n = self.actions.len();
        let mut actions: Vec<MenuAction> = Vec::new();
        let mut i: usize = 0;
        while i < n
            invariant
                i <= n,
                n == self.actions.len(),
                actions.len() == i,
                forall|k: int| 0 <= k < i ==> (#[trigger] actions[k])@ == self.actions[k]@,
            decreases n - i,
        {
            actions.push(self.actions[i].clone());
            i += 1;
        }
        assert(actions.deep_view() =~= self.actions.deep_view());
        Menu { actions }
    }
}

/// Builds one of the two built-in menus.
///
/// The minimal menu holds the entry `quit`, labelled `Quit`. The extended
/// menu holds `show`, labelled `Show Window`, above it. Every entry is
/// enabled.
pub fn build_menu(variant: MenuVariant) -> (menu: Menu)
    ensures
        menu@ == variant.spec_actions(),
{
    let mut actions: Vec<MenuAction> = Vec::new();
    match variant {
        MenuVariant::Minimal => {},
        MenuVariant::Extended => {
            actions.push(MenuAction::new("show", "Show Window", true));
        },
    }
    actions.push(MenuAction::new("quit", "Quit", true));
    proof {
        lemma_show_is_not_quit();
        assert(actions.deep_view() =~= variant.spec_actions());
    }
    Menu { actions }
}

} // verus!
