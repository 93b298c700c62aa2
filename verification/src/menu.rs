//! The entries of a window's menu bar.

use vstd::prelude::*;
use crate::text::{utf16_of, utf8_to_utf16};

verus! {

/// A standard edit action of a menu.
#[derive(Debug)]
pub enum StandardAction {
    Copy,
    Cut,
    Paste,
    SelectAll,
}

/// An item of a menu, with its title already resolved to the user's
/// language.
pub enum MenuItem {
    /// An item that runs a command.
    Action { title: String },
    /// An item that opens a nested menu.
    Submenu { title: String },
    /// A standard edit action.
    Standard(StandardAction),
    /// A separating line.
    Separator,
}

/// Whether a menu item can be added to a menu: cut, paste, select-all and
/// separators cannot be yet.
pub open spec fn is_supported(item: &MenuItem) -> bool {
    match item {
        MenuItem::Action { .. } => true,
        MenuItem::Submenu { .. } => true,
        MenuItem::Standard(StandardAction::Copy) => true,
        _ => false,
    }
}

/// Every command, every nested menu and the standard copy action can be
/// added to a menu; cut, paste, select-all and separators cannot.
pub proof fn lemma_supported_items(title: String)
    ensures
        is_supported(&MenuItem::Action { title }),
        is_supported(&MenuItem::Submenu { title }),
        is_supported(&MenuItem::Standard(StandardAction::Copy)),
        !is_supported(&MenuItem::Standard(StandardAction::Cut)),
        !is_supported(&MenuItem::Standard(StandardAction::Paste)),
        !is_supported(&MenuItem::Standard(StandardAction::SelectAll)),
        !is_supported(&MenuItem::Separator),
{
}

/// Whether a menu item can be added to a menu.
pub fn is_supported_item(item: &MenuItem) -> (r: bool)
    ensures
        r == is_supported(item),
        item is Action ==> r,
        item is Submenu ==> r,
        item matches MenuItem::Standard(StandardAction::Copy) ==> r,
        item matches MenuItem::Standard(StandardAction::Cut) ==> !r,
        item matches MenuItem::Standard(StandardAction::Paste) ==> !r,
        item matches MenuItem::Standard(StandardAction::SelectAll) ==> !r,
        item is Separator ==> !r,
{
    match item {
        MenuItem::Action { .. } => true,
        MenuItem::Submenu { .. } => true,
        MenuItem::Standard(StandardAction::Copy) => true,
        _ => false,
    }
}

/// The zero-terminated UTF-16 title of a menu entry for `item`: its own
/// title, or `"menu.copy"` for the standard copy action.
pub fn menu_item_title(item: &MenuItem) -> (r: Vec<u16>)
    requires
        is_supported(item),
    ensures
        item matches MenuItem::Action { title } ==> r@ == utf16_of(title@).push(0),
        item matches MenuItem::Submenu { title } ==> r@ == utf16_of(title@).push(0),
        item matches MenuItem::Standard(_) ==> r@ == utf16_of("menu.copy"@).push(0),
{
    match item {
        MenuItem::Action { title } => utf8_to_utf16(title.as_str()),
        MenuItem::Submenu { title } => utf8_to_utf16(title.as_str()),
        _ => utf8_to_utf16("menu.copy"),
    }
}

} // verus!
