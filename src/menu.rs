//! Menus: a tree of items that the host shows, and the order in which it is taken down.
//!
//! A menu that is removed from its parent first removes each of its children, always at
//! index 0 since every removal shifts the later items up, then destroys itself and finally
//! removes the item that opened it. The host calls are returned in that order.
use vstd::prelude::*;

use crate::ffi::{check_c_string, check_c_string_ok, NulByteError};
use crate::XPAPI;

verus! {

/// The host's id of a menu.
pub type MenuId = u64;

/// A host call that takes part of a menu down.
#[derive(Debug, Clone, Copy, PartialEq, Eq, Structural)]
pub enum MenuCall {
    /// Remove the item at `index` of menu `parent`
    RemoveItem { parent: MenuId, index: i32 },
    /// Destroy the menu
    DestroyMenu(MenuId),
}

/// Errors of the menu operations
#[derive(Debug, Clone, Copy, PartialEq, Eq, Structural)]
pub enum MenuError {
    /// The item is already in a menu, and so cannot be added to one.
    AlreadyInMenu,
    /// The item is not in a menu. Whatever you're trying to do requires it to be in one.
    NotInMenu,
    /// The item is not in the requested menu at the stated index.
    NotInThatMenu,
}

/// Where an item stands in its parent menu.
#[derive(Debug, Clone, Copy, PartialEq, Eq, Structural)]
pub struct InMenu {
    /// The menu ID of the parent menu
    pub parent: MenuId,
    /// The index of this item in the parent menu
    pub index: i32,
}

/// Status that a menu can have
#[derive(Debug, Clone, Copy, PartialEq, Eq, Structural)]
pub enum MenuState {
    /// Not attached to a menu or a menu bar
    Free,
    /// Attached as a submenu: `id` is its own id, and the item that opens it stands at
    /// `index_in_parent` in menu `parent`.
    InMenu { id: MenuId, parent: MenuId, index_in_parent: i32 },
}

/// An item that can be clicked on to perform an action
#[derive(Debug)]
pub struct ActionItem {
    /// The text displayed for this item; holds no null byte
    name: String,
    /// Where the item stands, once in a menu
    in_menu: Option<InMenu>,
}

/// An item with a checkbox that can be checked or unchecked
#[derive(Debug)]
pub struct CheckItem {
    /// The text displayed for this item; holds no null byte
    name: String,
    /// If this item is checked
    checked: bool,
    /// Where the item stands, once in a menu
    in_menu: Option<InMenu>,
}

/// A menu, which contains zero or more items
#[derive(Debug)]
pub struct Menu {
    /// The name of this menu; holds no null byte
    name: String,
    /// The items, separators, and submenus in this menu
    children: Vec<Item>,
    /// The status of this menu
    state: MenuState,
}

/// Something that can be added to a menu
#[derive(Debug)]
pub enum Item {
    /// A submenu
    Submenu(Menu),
    /// An action item
    Action(ActionItem),
    /// A checkable item
    Check(CheckItem),
    /// A separator
    Separator,
}

/// The host calls that take down the items of menu `menu`, first to last. Every item still
/// in the menu is removed at index 0, where the previous removals have moved it; a submenu
/// takes its own children down and is destroyed before the item that opens it is removed.
pub open spec fn items_teardown(items: Seq<Item>, menu: MenuId) -> Seq<MenuCall>
    decreases items,
{
    if items.len() == 0 {
        Seq::empty()
    } else {
        item_teardown(items[0], menu) + items_teardown(items.drop_first(), menu)
    }
}

/// The host calls that take down one item of menu `parent`, which stands first in it.
pub open spec fn item_teardown(item: Item, parent: MenuId) -> Seq<MenuCall>
    decreases item,
{
    match item {
        Item::Submenu(m) => match m.spec_state() {
            MenuState::InMenu { id, .. } => items_teardown(m.spec_children(), id) + seq![
                MenuCall::DestroyMenu(id),
                MenuCall::RemoveItem { parent, index: 0 },
            ],
            MenuState::Free => Seq::empty(),
        },
        Item::Action(a) => if a.spec_in_menu() is Some {
            seq![MenuCall::RemoveItem { parent, index: 0 }]
        } else {
            Seq::empty()
        },
        Item::Check(c) => if c.spec_in_menu() is Some {
            seq![MenuCall::RemoveItem { parent, index: 0 }]
        } else {
            Seq::empty()
        },
        Item::Separator => seq![MenuCall::RemoveItem { parent, index: 0 }],
    }
}

/// True when the item's own entry is in no menu.
pub open spec fn item_is_free(item: Item) -> bool {
    match item {
        Item::Submenu(m) => m.spec_state() == MenuState::Free,
        Item::Action(a) => a.spec_in_menu() is None,
        Item::Check(c) => c.spec_in_menu() is None,
        Item::Separator => true,
    }
}

/// Takes down every item of menu `menu`, first to last, appending the host calls.
fn take_down_items(items: Vec<Item>, menu: MenuId, calls: &mut Vec<MenuCall>) -> (r: Vec<Item>)
    ensures
        final(calls)@ == old(calls)@ + items_teardown(items@, menu),
        r@.len() == items@.len(),
        forall|i: int| 0 <= i < r@.len() ==> item_is_free(#[trigger] r@[i]),
    decreases items@,
{
    let ghost orig = items@;
    let ghost start = calls@;
    let mut rest = items;
    let mut done: Vec<Item> = Vec::new();
    while rest.len() > 0
        invariant
            orig == items@,
            calls@ + items_teardown(rest@, menu) == start + items_teardown(orig, menu),
            done@.len() + rest@.len() == orig.len(),
            rest@ == orig.skip(done@.len() as int),
            forall|i: int| 0 <= i < done@.len() ==> item_is_free(#[trigger] done@[i]),
        decreases rest@.len(),
    {
        let ghost before = rest@;
        let item = rest.remove(0);
        proof {
            assert(before.drop_first() =~= rest@);
            assert(item == orig[done@.len() as int]);
            vstd::seq::axiom_seq_index_decreases(orig, done@.len() as int);
            assert(decreases_to!(orig => item));
        }
        let freed = take_down_item(item, menu, calls);
        done.push(freed);
        proof {
            assert(rest@ =~= orig.skip(done@.len() as int));
            assert(calls@ + items_teardown(rest@, menu) =~= start + items_teardown(orig, menu));
        }
    }
    proof {
        assert(items_teardown(rest@, menu) =~= Seq::empty());
        assert(calls@ =~= start + items_teardown(orig, menu));
    }
    done
}

/// Takes down one item of menu `parent`, standing first in it, appending the host calls.
fn take_down_item(item: Item, parent: MenuId, calls: &mut Vec<MenuCall>) -> (r: Item)
    ensures
        final(calls)@ == old(calls)@ + item_teardown(item, parent),
        item_is_free(r),
    decreases item,
{
    match item {
        Item::Submenu(m) => {
            let Menu { name, children, state } = m;
            match state {
                MenuState::InMenu { id, .. } => {
                    proof {
                        assert(decreases_to!(children => children@));
                    }
                    let children = take_down_items(children, id, calls);
                    calls.push(MenuCall::DestroyMenu(id));
                    calls.push(MenuCall::RemoveItem { parent, index: 0 });
                    Item::Submenu(Menu { name, children, state: MenuState::Free })
                },
                MenuState::Free => Item::Submenu(Menu { name, children, state }),
            }
        },
        Item::Action(a) => {
            if a.in_menu.is_some() {
                calls.push(MenuCall::RemoveItem { parent, index: 0 });
            }
            Item::Action(ActionItem { name: a.name, in_menu: None })
        },
        Item::Check(c) => {
            if c.in_menu.is_some() {
                calls.push(MenuCall::RemoveItem { parent, index: 0 });
            }
            Item::Check(CheckItem { name: c.name, checked: c.checked, in_menu: None })
        },
        Item::Separator => {
            calls.push(MenuCall::RemoveItem { parent, index: 0 });
            Item::Separator
        },
    }
}

/// Every removal in a teardown is at index 0.
pub open spec fn removes_at_front(calls: Seq<MenuCall>) -> bool {
    forall|i: int|
        0 <= i < calls.len() ==> (#[trigger] calls[i] matches MenuCall::RemoveItem { index, .. }
            ==> index == 0)
}

proof fn lemma_items_front(items: Seq<Item>, menu: MenuId)
    ensures
        removes_at_front(items_teardown(items, menu)),
    decreases items,
{
    if items.len() > 0 {
        lemma_item_front(items[0], menu);
        lemma_items_front(items.drop_first(), menu);
        let a = item_teardown(items[0], menu);
        let b = items_teardown(items.drop_first(), menu);
        assert forall|i: int| 0 <= i < (a + b).len() implies (#[trigger] (a + b)[i] matches MenuCall::RemoveItem { index, .. } ==> index == 0) by {
            if i < a.len() {
                assert((a + b)[i] == a[i]);
            } else {
                assert((a + b)[i] == b[i - a.len()]);
            }
        }
    }
}

proof fn lemma_item_front(item: Item, parent: MenuId)
    ensures
        removes_at_front(item_teardown(item, parent)),
    decreases item,
{
    if let Item::Submenu(m) = item {
        if let MenuState::InMenu { id, .. } = m.state {
            assert(decreases_to!(m.children => m.children@));
            lemma_items_front(m.children@, id);
            let a = items_teardown(m.children@, id);
            let b = seq![MenuCall::DestroyMenu(id), MenuCall::RemoveItem { parent, index: 0 }];
            assert forall|i: int| 0 <= i < (a + b).len() implies (#[trigger] (a + b)[i] matches MenuCall::RemoveItem { index, .. } ==> index == 0) by {
                if i < a.len() {
                    assert((a + b)[i] == a[i]);
                } else {
                    assert((a + b)[i] == b[i - a.len()]);
                }
            }
        }
    }
}

/// The teardown of a menu's items is the teardown of each item, first to last.
proof fn lemma_items_in_order(items: Seq<Item>, menu: MenuId)
    ensures
        items_teardown(items, menu) == items.map_values(|c: Item| item_teardown(c, menu)).flatten(),
    decreases items.len(),
{
    if items.len() > 0 {
        lemma_items_in_order(items.drop_first(), menu);
        let f = items.map_values(|c: Item| item_teardown(c, menu));
        assert(f.drop_first() =~= items.drop_first().map_values(|c: Item| item_teardown(c, menu)));
    }
}

/// The host calls that take down an attached menu: its children first, each at index 0 of
/// the menu, then the menu itself, then the item that opens it.
pub open spec fn menu_teardown(m: Menu) -> Seq<MenuCall> {
    match m.spec_state() {
        MenuState::InMenu { id, parent, index_in_parent } => items_teardown(m.spec_children(), id)
            + seq![
            MenuCall::DestroyMenu(id),
            MenuCall::RemoveItem { parent, index: index_in_parent },
        ],
        MenuState::Free => Seq::empty(),
    }
}

/// Taking down an attached menu makes every host call of its children before its own
/// destruction, which comes just before the removal of the item that opens it; and each
/// child is removed at index 0, where the removals before it have moved it.
pub proof fn law_cascade_teardown(m: Menu)
    requires
        m.spec_state() is InMenu,
    ensures
        ({
            let p = menu_teardown(m);
            let id = m.spec_state()->InMenu_id;
            &&& p.len() >= 2
            &&& p[p.len() - 2] == MenuCall::DestroyMenu(id)
            &&& p[p.len() - 1] == MenuCall::RemoveItem {
                parent: m.spec_state()->InMenu_parent,
                index: m.spec_state()->InMenu_index_in_parent,
            }
            &&& p.take(p.len() - 2) == m.children_teardown(id)
            &&& m.children_teardown(id) == m.spec_children().map_values(
                |c: Item| item_teardown(c, id),
            ).flatten()
            &&& removes_at_front(p.take(p.len() - 2))
        }),
{
    let id = m.state->InMenu_id;
    lemma_items_front(m.children@, id);
    lemma_items_in_order(m.children@, id);
    let p = menu_teardown(m);
    assert(p.take(p.len() - 2) =~= items_teardown(m.children@, id));
}

impl ActionItem {
    /// Creates an action item; the name must hold no null byte.
    pub fn new(name: &str) -> (r: Result<ActionItem, NulByteError>)
        ensures
            r is Ok <==> check_c_string_ok(name),
            r matches Ok(a) ==> a.spec_name() == name@ && a.spec_in_menu() is None,
    {
        check_c_string(name)?;
        Ok(ActionItem { name: name.to_string(), in_menu: None })
    }

    pub closed spec fn spec_name(&self) -> Seq<char> {
        self.name@
    }

    pub closed spec fn spec_in_menu(&self) -> Option<InMenu> {
        self.in_menu
    }

    /// Returns the name of this item
    pub fn name(&self) -> (r: String)
        ensures
            r@ == self.spec_name(),
    {
        self.name.clone()
    }

    /// Where this item stands, once in a menu.
    pub fn in_menu(&self) -> (r: Option<InMenu>)
        ensures
            r == self.spec_in_menu(),
    {
        self.in_menu
    }
}

impl Menu {
    pub closed spec fn spec_name(&self) -> Seq<char> {
        self.name@
    }

    pub closed spec fn spec_state(&self) -> MenuState {
        self.state
    }

    pub closed spec fn spec_children(&self) -> Seq<Item> {
        self.children@
    }

    /// The host calls that take down the children of this menu, whose id is `id`.
    pub open spec fn children_teardown(&self, id: MenuId) -> Seq<MenuCall> {
        items_teardown(self.spec_children(), id)
    }

    /// Creates a menu; the name must hold no null byte.
    pub fn new(name: &str) -> (r: Result<Menu, NulByteError>)
        ensures
            r is Ok <==> check_c_string_ok(name),
            r matches Ok(m) ==> m.spec_name() == name@ && m.spec_state() == MenuState::Free
                && m.spec_children().len() == 0,
    {
        check_c_string(name)?;
        Ok(Menu { name: name.to_string(), children: Vec::new(), state: MenuState::Free })
    }

    /// Returns the name of this menu
    pub fn name(&self) -> (r: String)
        ensures
            r@ == self.spec_name(),
    {
        self.name.clone()
    }

    /// Sets the name of this menu; a name with a null byte is refused and the old name kept.
    pub fn set_name(&mut self, name: &str) -> (r: Result<(), NulByteError>)
        ensures
            r is Ok <==> check_c_string_ok(name),
            r is Ok ==> final(self).spec_name() == name@,
            r is Err ==> final(self).spec_name() == old(self).spec_name(),
            final(self).spec_state() == old(self).spec_state(),
            final(self).spec_children() == old(self).spec_children(),
    {
        check_c_string(name)?;
        self.name = name.to_string();
        Ok(())
    }

    /// The status of this menu.
    pub fn state(&self) -> (r: MenuState)
        ensures
            r == self.spec_state(),
    {
        self.state
    }

    /// Adds a child at the end of this menu.
    pub fn add_child(&mut self, child: Item)
        ensures
            final(self).spec_children() == old(self).spec_children().push(child),
            final(self).spec_name() == old(self).spec_name(),
            final(self).spec_state() == old(self).spec_state(),
    {
        self.children.push(child);
    }

    /// Records that the host now shows this menu as `id`, opened by the item at `index` of
    /// menu `parent`. A menu already in a menu is refused.
    pub fn attach(&mut self, id: MenuId, parent: MenuId, index: i32) -> (r: Result<(), MenuError>)
        ensures
            r is Err <==> old(self).spec_state() is InMenu,
            r is Err ==> r == Err::<(), MenuError>(MenuError::AlreadyInMenu) && *final(self)
                == *old(self),
            r is Ok ==> final(self).spec_state() == (MenuState::InMenu {
                id,
                parent,
                index_in_parent: index,
            }),
            final(self).spec_name() == old(self).spec_name(),
            final(self).spec_children() == old(self).spec_children(),
    {
        match self.state {
            MenuState::Free => {
                self.state = MenuState::InMenu { id, parent, index_in_parent: index };
                Ok(())
            },
            MenuState::InMenu { .. } => Err(MenuError::AlreadyInMenu),
        }
    }

    /// Records that the item opening this menu moved to `index_in_parent`.
    pub fn update_index(&mut self, index_in_parent: i32) -> (r: Result<(), MenuError>)
        ensures
            r is Err <==> old(self).spec_state() is Free,
            r is Err ==> r == Err::<(), MenuError>(MenuError::NotInMenu) && *final(self)
                == *old(self),
            r is Ok ==> final(self).spec_state() == (MenuState::InMenu {
                id: old(self).spec_state()->InMenu_id,
                parent: old(self).spec_state()->InMenu_parent,
                index_in_parent,
            }),
            final(self).spec_name() == old(self).spec_name(),
            final(self).spec_children() == old(self).spec_children(),
    {
        match self.state {
            MenuState::InMenu { id, parent, .. } => {
                self.state = MenuState::InMenu { id, parent, index_in_parent };
                Ok(())
            },
            MenuState::Free => Err(MenuError::NotInMenu),
        }
    }

    /// Removes this menu from menu `parent_id`, where the item that opens it stands at
    /// `index_in_parent`: returns the host calls to make, children first, and leaves this
    /// menu and each of its children free.
    pub fn remove_from_menu(&mut self, parent_id: MenuId, index_in_parent: i32) -> (r: Result<
        Vec<MenuCall>,
        MenuError,
    >)
        ensures
            old(self).spec_state() is Free ==> r == Err::<Vec<MenuCall>, MenuError>(
                MenuError::NotInMenu,
            ),
            old(self).spec_state() matches MenuState::InMenu { parent, index_in_parent: at, .. }
                ==> ((parent != parent_id || at != index_in_parent) <==> r is Err),
            old(self).spec_state() matches MenuState::InMenu { parent, index_in_parent: at, .. }
                ==> ((parent != parent_id || at != index_in_parent) ==> r == Err::<
                Vec<MenuCall>,
                MenuError,
            >(MenuError::NotInThatMenu)),
            r is Err ==> *final(self) == *old(self),
            r is Err ==> (r == Err::<Vec<MenuCall>, MenuError>(MenuError::NotInThatMenu)
                || r == Err::<Vec<MenuCall>, MenuError>(MenuError::NotInMenu)),
            r matches Ok(calls) ==> calls@ == menu_teardown(*old(self)) && final(self).spec_state() == MenuState::Free && final(self).spec_name() == old(self).spec_name()
                && final(self).spec_children().len() == old(self).spec_children().len()
                && forall|i: int|
                0 <= i < final(self).spec_children().len() ==> item_is_free(
                    #[trigger] final(self).spec_children()[i],
                ),
    {
        match self.state {
            MenuState::InMenu { id, parent, index_in_parent: at } => {
                if parent != parent_id || at != index_in_parent {
                    return Err(MenuError::NotInThatMenu);
                }
                let mut children: Vec<Item> = Vec::new();
                core::mem::swap(&mut children, &mut self.children);
                let mut calls: Vec<MenuCall> = Vec::new();
                let children = take_down_items(children, id, &mut calls);
                calls.push(MenuCall::DestroyMenu(id));
                calls.push(MenuCall::RemoveItem { parent, index: at });
                self.children = children;
                self.state = MenuState::Free;
                proof {
                    assert(calls@ =~= menu_teardown(*old(self)));
                }
                Ok(calls)
            },
            MenuState::Free => Err(MenuError::NotInMenu),
        }
    }

    /// Removes this menu from the plugins menu, whose id is `plugins_menu`.
    pub fn remove_from_plugins_menu(&mut self, plugins_menu: MenuId) -> (r: Result<
        Vec<MenuCall>,
        MenuError,
    >)
        ensures
            old(self).spec_state() is Free ==> r == Err::<Vec<MenuCall>, MenuError>(
                MenuError::NotInMenu,
            ),
            old(self).spec_state() matches MenuState::InMenu { parent, .. } ==> (parent
                != plugins_menu <==> r == Err::<Vec<MenuCall>, MenuError>(
                MenuError::NotInThatMenu,
            )),
            r is Err ==> *final(self) == *old(self),
            r matches Ok(calls) ==> calls@ == menu_teardown(*old(self)) && final(self).spec_state() == MenuState::Free,
    {
        match self.state {
            MenuState::InMenu { parent, index_in_parent, .. } => {
                if parent == plugins_menu {
                    self.remove_from_menu(plugins_menu, index_in_parent)
                } else {
                    Err(MenuError::NotInThatMenu)
                }
            },
            MenuState::Free => Err(MenuError::NotInMenu),
        }
    }
}

/// The host's check-mark codes of a menu item.
pub const MENU_NO_CHECK: i32 = 0;
/// An item showing an empty check box
pub const MENU_UNCHECKED: i32 = 1;
/// An item showing a check mark
pub const MENU_CHECKED: i32 = 2;

/// The host's check-mark code for a checked or unchecked item.
pub open spec fn spec_check_state(checked: bool) -> i32 {
    if checked {
        MENU_CHECKED
    } else {
        MENU_UNCHECKED
    }
}

/// Maps true to checked and false to unchecked
pub fn check_state(checked: bool) -> (r: i32)
    ensures
        r == spec_check_state(checked),
{
    if checked {
        MENU_CHECKED
    } else {
        MENU_UNCHECKED
    }
}

/// Trait for things that can respond when the user clicks on a menu item
pub trait ClickHandler {
    /// Called when the user clicks on a menu item. The clicked item is passed.
    fn item_clicked(&mut self, x: &mut XPAPI, item: &ActionItem);
}

/// Trait for things that can respond to check state changes
pub trait CheckHandler {
    /// Called when the user checks or unchecks an item
    fn item_checked(&mut self, x: &mut XPAPI, item: &CheckItem, checked: bool);
}

impl ActionItem {
    /// Sets the name of this item. Returns where the host must rename it, if it is in a menu.
    pub fn set_name(&mut self, name: &str) -> (r: Result<Option<InMenu>, NulByteError>)
        ensures
            r is Ok <==> check_c_string_ok(name),
            r is Ok ==> final(self).spec_name() == name@ && r->Ok_0 == old(self).spec_in_menu(),
            r is Err ==> final(self).spec_name() == old(self).spec_name(),
            final(self).spec_in_menu() == old(self).spec_in_menu(),
    {
        check_c_string(name)?;
        self.name = name.to_string();
        Ok(self.in_menu)
    }

    /// Records that the host shows this item at `index` of menu `parent`.
    pub fn attach(&mut self, parent: MenuId, index: i32) -> (r: Result<(), MenuError>)
        ensures
            r is Err <==> old(self).spec_in_menu() is Some,
            r is Err ==> r == Err::<(), MenuError>(MenuError::AlreadyInMenu),
            r is Ok ==> final(self).spec_in_menu() == Some(InMenu { parent, index }),
            r is Err ==> final(self).spec_in_menu() == old(self).spec_in_menu(),
            final(self).spec_name() == old(self).spec_name(),
    {
        if self.in_menu.is_some() {
            return Err(MenuError::AlreadyInMenu);
        }
        self.in_menu = Some(InMenu { parent, index });
        Ok(())
    }

    /// Records that this item moved to `index_in_parent`.
    pub fn update_index(&mut self, index_in_parent: i32) -> (r: Result<(), MenuError>)
        ensures
            r is Err <==> old(self).spec_in_menu() is None,
            r is Err ==> r == Err::<(), MenuError>(MenuError::NotInMenu),
            r is Ok ==> final(self).spec_in_menu() == Some(InMenu {
                parent: old(self).spec_in_menu()->Some_0.parent,
                index: index_in_parent,
            }),
            r is Err ==> final(self).spec_in_menu() == old(self).spec_in_menu(),
            final(self).spec_name() == old(self).spec_name(),
    {
        match self.in_menu {
            Some(m) => {
                self.in_menu = Some(InMenu { parent: m.parent, index: index_in_parent });
                Ok(())
            },
            None => Err(MenuError::NotInMenu),
        }
    }

    /// Removes this item from menu `parent_id` at `index_in_parent`: returns the host call.
    pub fn remove_from_menu(&mut self, parent_id: MenuId, index_in_parent: i32) -> (r: Result<
        MenuCall,
        MenuError,
    >)
        ensures
            old(self).spec_in_menu() is None ==> r == Err::<MenuCall, MenuError>(
                MenuError::NotInMenu,
            ),
            old(self).spec_in_menu() matches Some(m) ==> (if m.parent == parent_id && m.index
                == index_in_parent {
                r == Ok::<MenuCall, MenuError>(
                    MenuCall::RemoveItem { parent: parent_id, index: index_in_parent },
                ) && final(self).spec_in_menu() is None
            } else {
                r == Err::<MenuCall, MenuError>(MenuError::NotInThatMenu)
            }),
            r is Err ==> final(self).spec_in_menu() == old(self).spec_in_menu(),
            final(self).spec_name() == old(self).spec_name(),
    {
        match self.in_menu {
            Some(m) => {
                if m.parent != parent_id || m.index != index_in_parent {
                    return Err(MenuError::NotInThatMenu);
                }
                self.in_menu = None;
                Ok(MenuCall::RemoveItem { parent: parent_id, index: index_in_parent })
            },
            None => Err(MenuError::NotInMenu),
        }
    }

    /// Runs the click handler on this item.
    pub fn handle_click<H: ClickHandler>(&self, x: &mut XPAPI, handler: &mut H) {
        handler.item_clicked(x, self);
    }
}

impl CheckItem {
    pub closed spec fn spec_name(&self) -> Seq<char> {
        self.name@
    }

    pub closed spec fn spec_checked(&self) -> bool {
        self.checked
    }

    pub closed spec fn spec_in_menu(&self) -> Option<InMenu> {
        self.in_menu
    }

    /// Creates a check item; the name must hold no null byte.
    pub fn new(name: &str, checked: bool) -> (r: Result<CheckItem, NulByteError>)
        ensures
            r is Ok <==> check_c_string_ok(name),
            r matches Ok(c) ==> c.spec_name() == name@ && c.spec_checked() == checked
                && c.spec_in_menu() is None,
    {
        check_c_string(name)?;
        Ok(CheckItem { name: name.to_string(), checked, in_menu: None })
    }

    /// Returns the name of this item
    pub fn name(&self) -> (r: String)
        ensures
            r@ == self.spec_name(),
    {
        self.name.clone()
    }

    /// Where this item stands, once in a menu.
    pub fn in_menu(&self) -> (r: Option<InMenu>)
        ensures
            r == self.spec_in_menu(),
    {
        self.in_menu
    }

    /// Returns true if this item is checked, as last known.
    pub fn checked(&self) -> (r: bool)
        ensures
            r == self.spec_checked(),
    {
        self.checked
    }

    /// Takes the check mark the host shows (`host_state`) as this item's state. A code that
    /// is neither "no check", "unchecked" nor "checked" counts as unchecked, and the host
    /// must then be reset to "no check": the result says whether it must.
    pub fn refresh(&mut self, host_state: i32) -> (reset: bool)
        ensures
            final(self).spec_checked() == (host_state == MENU_CHECKED),
            reset == (host_state != MENU_NO_CHECK && host_state != MENU_UNCHECKED && host_state
                != MENU_CHECKED),
            final(self).spec_name() == old(self).spec_name(),
            final(self).spec_in_menu() == old(self).spec_in_menu(),
    {
        if host_state == MENU_NO_CHECK || host_state == MENU_UNCHECKED {
            self.checked = false;
            false
        } else if host_state == MENU_CHECKED {
            self.checked = true;
            false
        } else {
            self.checked = false;
            true
        }
    }

    /// Sets this item as checked or unchecked. Returns where the host must show the new
    /// check mark, and its code, if the item is in a menu.
    pub fn set_checked(&mut self, checked: bool) -> (r: Option<(InMenu, i32)>)
        ensures
            final(self).spec_checked() == checked,
            final(self).spec_name() == old(self).spec_name(),
            final(self).spec_in_menu() == old(self).spec_in_menu(),
            r == (match old(self).spec_in_menu() {
                Some(m) => Some((m, spec_check_state(checked))),
                None => None,
            }),
    {
        self.checked = checked;
        match self.in_menu {
            Some(m) => Some((m, check_state(checked))),
            None => None,
        }
    }

    /// Sets the name of this item. Returns where the host must rename it, if it is in a menu.
    pub fn set_name(&mut self, name: &str) -> (r: Result<Option<InMenu>, NulByteError>)
        ensures
            r is Ok <==> check_c_string_ok(name),
            r is Ok ==> final(self).spec_name() == name@ && r->Ok_0 == old(self).spec_in_menu(),
            r is Err ==> final(self).spec_name() == old(self).spec_name(),
            final(self).spec_in_menu() == old(self).spec_in_menu(),
            final(self).spec_checked() == old(self).spec_checked(),
    {
        check_c_string(name)?;
        self.name = name.to_string();
        Ok(self.in_menu)
    }

    /// Records that the host shows this item at `index` of menu `parent`; returns the
    /// check-mark code the host must show.
    pub fn attach(&mut self, parent: MenuId, index: i32) -> (r: Result<i32, MenuError>)
        ensures
            r is Err <==> old(self).spec_in_menu() is Some,
            r is Err ==> r == Err::<i32, MenuError>(MenuError::AlreadyInMenu)
                && final(self).spec_in_menu() == old(self).spec_in_menu(),
            r is Ok ==> final(self).spec_in_menu() == Some(InMenu { parent, index }) && r->Ok_0
                == spec_check_state(old(self).spec_checked()),
            final(self).spec_name() == old(self).spec_name(),
            final(self).spec_checked() == old(self).spec_checked(),
    {
        if self.in_menu.is_some() {
            return Err(MenuError::AlreadyInMenu);
        }
        self.in_menu = Some(InMenu { parent, index });
        Ok(check_state(self.checked))
    }

    /// Records that this item moved to `index_in_parent`.
    pub fn update_index(&mut self, index_in_parent: i32) -> (r: Result<(), MenuError>)
        ensures
            r is Err <==> old(self).spec_in_menu() is None,
            r is Err ==> r == Err::<(), MenuError>(MenuError::NotInMenu),
            r is Ok ==> final(self).spec_in_menu() == Some(InMenu {
                parent: old(self).spec_in_menu()->Some_0.parent,
                index: index_in_parent,
            }),
            r is Err ==> final(self).spec_in_menu() == old(self).spec_in_menu(),
            final(self).spec_name() == old(self).spec_name(),
            final(self).spec_checked() == old(self).spec_checked(),
    {
        match self.in_menu {
            Some(m) => {
                self.in_menu = Some(InMenu { parent: m.parent, index: index_in_parent });
                Ok(())
            },
            None => Err(MenuError::NotInMenu),
        }
    }

    /// Removes this item from menu `parent_id` at `index_in_parent`: returns the host call.
    pub fn remove_from_menu(&mut self, parent_id: MenuId, index_in_parent: i32) -> (r: Result<
        MenuCall,
        MenuError,
    >)
        ensures
            old(self).spec_in_menu() is None ==> r == Err::<MenuCall, MenuError>(
                MenuError::NotInMenu,
            ),
            old(self).spec_in_menu() matches Some(m) ==> (if m.parent == parent_id && m.index
                == index_in_parent {
                r == Ok::<MenuCall, MenuError>(
                    MenuCall::RemoveItem { parent: parent_id, index: index_in_parent },
                ) && final(self).spec_in_menu() is None
            } else {
                r == Err::<MenuCall, MenuError>(MenuError::NotInThatMenu)
            }),
            r is Err ==> final(self).spec_in_menu() == old(self).spec_in_menu(),
            final(self).spec_name() == old(self).spec_name(),
            final(self).spec_checked() == old(self).spec_checked(),
    {
        match self.in_menu {
            Some(m) => {
                if m.parent != parent_id || m.index != index_in_parent {
                    return Err(MenuError::NotInThatMenu);
                }
                self.in_menu = None;
                Ok(MenuCall::RemoveItem { parent: parent_id, index: index_in_parent })
            },
            None => Err(MenuError::NotInMenu),
        }
    }

    /// A click inverts the check mark and tells the handler the new state. Returns where the
    /// host must show the new mark, if the item is in a menu.
    pub fn handle_click<H: CheckHandler>(&mut self, x: &mut XPAPI, handler: &mut H) -> (r: Option<(InMenu, i32)>)
        ensures
            final(self).spec_checked() == !old(self).spec_checked(),
            final(self).spec_name() == old(self).spec_name(),
            final(self).spec_in_menu() == old(self).spec_in_menu(),
            r == (match old(self).spec_in_menu() {
                Some(m) => Some((m, spec_check_state(!old(self).spec_checked()))),
                None => None,
            }),
    {
        let checked = !self.checked;
        let r = self.set_checked(checked);
        handler.item_checked(x, self, checked);
        r
    }
}

/// A host call that shows one child of a menu that was just created.
#[derive(Debug, PartialEq, Eq)]
pub enum AttachCall {
    /// Append an item named `name` at `index` of menu `parent`, with check-mark code `check`
    AppendItem { parent: MenuId, index: i32, name: String, check: i32 },
    /// Append a separator at `index` of menu `parent`
    AppendSeparator { parent: MenuId, index: i32 },
    /// Append the item that opens the submenu at `index` of menu `parent`, then create the
    /// submenu and add it in turn
    OpenSubmenu { parent: MenuId, index: i32, name: String },
}

/// The host call that shows `item` at `index` of the new menu `parent`.
pub open spec fn attach_call_matches(c: AttachCall, item: Item, parent: MenuId, index: i32) -> bool {
    match item {
        Item::Action(a) => c matches AttachCall::AppendItem { parent: p, index: i, name, check }
            && p == parent && i == index && name@ == a.spec_name() && check == MENU_NO_CHECK,
        Item::Check(ch) => c matches AttachCall::AppendItem { parent: p, index: i, name, check }
            && p == parent && i == index && name@ == ch.spec_name() && check == spec_check_state(
            ch.spec_checked(),
        ),
        Item::Separator => c == AttachCall::AppendSeparator { parent, index },
        Item::Submenu(m) => c matches AttachCall::OpenSubmenu { parent: p, index: i, name }
            && p == parent && i == index && name@ == m.spec_name(),
    }
}

/// The item after it was shown at `index` of menu `parent`: an action or check item records
/// its place; a submenu is left for its own addition.
pub open spec fn attached_matches(after: Item, before: Item, parent: MenuId, index: i32) -> bool {
    match before {
        Item::Action(a) => after matches Item::Action(b) && b.spec_name() == a.spec_name()
            && b.spec_in_menu() == Some(InMenu { parent, index }),
        Item::Check(c) => after matches Item::Check(d) && d.spec_name() == c.spec_name()
            && d.spec_checked() == c.spec_checked() && d.spec_in_menu() == Some(
            InMenu { parent, index },
        ),
        Item::Separator => after is Separator,
        Item::Submenu(m) => after == before,
    }
}

/// Shows one child at `index` of the new menu `parent`.
fn attach_item(item: Item, parent: MenuId, index: i32) -> (r: (Item, AttachCall))
    requires
        item_is_free(item),
    ensures
        attach_call_matches(r.1, item, parent, index),
        attached_matches(r.0, item, parent, index),
{
    match item {
        Item::Action(a) => {
            let name = a.name.clone();
            let call = AttachCall::AppendItem { parent, index, name, check: MENU_NO_CHECK };
            (Item::Action(ActionItem { name: a.name, in_menu: Some(InMenu { parent, index }) }), call)
        },
        Item::Check(c) => {
            let name = c.name.clone();
            let call = AttachCall::AppendItem { parent, index, name, check: check_state(c.checked) };
            (
                Item::Check(
                    CheckItem { name: c.name, checked: c.checked, in_menu: Some(InMenu { parent, index }) },
                ),
                call,
            )
        },
        Item::Separator => (Item::Separator, AttachCall::AppendSeparator { parent, index }),
        Item::Submenu(m) => {
            let name = m.name.clone();
            (Item::Submenu(m), AttachCall::OpenSubmenu { parent, index, name })
        },
    }
}

impl Menu {
    /// Checks that this menu and each of its children are in no menu, so that it can be
    /// added to one.
    pub fn check_free(&self) -> (r: Result<(), MenuError>)
        ensures
            r is Err <==> (self.spec_state() is InMenu || exists|k: int|
                0 <= k < self.spec_children().len() && !item_is_free(
                    #[trigger] self.spec_children()[k],
                )),
            r is Err ==> r == Err::<(), MenuError>(MenuError::AlreadyInMenu),
    {
        if let MenuState::InMenu { .. } = self.state {
            return Err(MenuError::AlreadyInMenu);
        }
        let mut k: usize = 0;
        while k < self.children.len()
            invariant
                k <= self.children@.len(),
                forall|j: int| 0 <= j < k ==> item_is_free(#[trigger] self.children@[j]),
            decreases self.children@.len() - k,
        {
            if !self.children[k].is_free() {
                proof {
                    assert(!item_is_free(self.spec_children()[k as int]));
                }
                return Err(MenuError::AlreadyInMenu);
            }
            k = k + 1;
        }
        Ok(())
    }

    /// Read access to the children, for the glue that adds submenus in turn.
    pub fn children(&self) -> (r: &Vec<Item>)
        ensures
            r@ == self.spec_children(),
    {
        &self.children
    }

    /// Write access to one child, for the glue that adds submenus in turn.
    pub fn child_mut(&mut self, index: usize) -> (r: &mut Item)
        requires
            index < old(self).spec_children().len(),
        ensures
            *r == old(self).spec_children()[index as int],
            final(self).spec_children() == old(self).spec_children().update(index as int, *final(r)),
            final(self).spec_name() == old(self).spec_name(),
            final(self).spec_state() == old(self).spec_state(),
    {
        &mut self.children[index]
    }

    /// Adds this menu to the host: the host showed the item that opens it at `index` of menu
    /// `parent` and created it as `id`. Returns the calls that show its children, at indices
    /// 0, 1, ... in order; a submenu child is then added the same way. A menu or a child
    /// already in a menu is refused, and nothing changes.
    pub fn add_to_menu(&mut self, parent: MenuId, index: i32, id: MenuId) -> (r: Result<
        Vec<AttachCall>,
        MenuError,
    >)
        requires
            old(self).spec_children().len() <= i32::MAX,
        ensures
            r is Err <==> (old(self).spec_state() is InMenu || exists|k: int|
                0 <= k < old(self).spec_children().len() && !item_is_free(
                    #[trigger] old(self).spec_children()[k],
                )),
            r is Err ==> r == Err::<Vec<AttachCall>, MenuError>(MenuError::AlreadyInMenu)
                && *final(self) == *old(self),
            r matches Ok(calls) ==> {
                &&& final(self).spec_state() == (MenuState::InMenu {
                    id,
                    parent,
                    index_in_parent: index,
                })
                &&& final(self).spec_name() == old(self).spec_name()
                &&& calls@.len() == old(self).spec_children().len()
                &&& final(self).spec_children().len() == old(self).spec_children().len()
                &&& forall|k: int|
                    0 <= k < calls@.len() ==> attach_call_matches(
                        #[trigger] calls@[k],
                        old(self).spec_children()[k],
                        id,
                        k as i32,
                    ) && attached_matches(
                        final(self).spec_children()[k],
                        old(self).spec_children()[k],
                        id,
                        k as i32,
                    )
            },
    {
        match self.check_free() {
            Err(e) => {
                return Err(e);
            },
            Ok(()) => {},
        }
        let ghost orig = self.children@;
        let mut rest: Vec<Item> = Vec::new();
        core::mem::swap(&mut rest, &mut self.children);
        let mut done: Vec<Item> = Vec::new();
        let mut calls: Vec<AttachCall> = Vec::new();
        while rest.len() > 0
            invariant
                done@.len() + rest@.len() == orig.len(),
                orig.len() <= i32::MAX,
                rest@ == orig.skip(done@.len() as int),
                calls@.len() == done@.len(),
                forall|j: int| 0 <= j < orig.len() ==> item_is_free(#[trigger] orig[j]),
                forall|j: int|
                    0 <= j < done@.len() ==> attach_call_matches(
                        #[trigger] calls@[j],
                        orig[j],
                        id,
                        j as i32,
                    ) && attached_matches(done@[j], orig[j], id, j as i32),
            decreases rest@.len(),
        {
            let ghost before = rest@;
            let item = rest.remove(0);
            proof {
                assert(before.drop_first() =~= rest@);
                assert(item == orig[done@.len() as int]);
            }
            let at = done.len() as i32;
            let (shown, call) = attach_item(item, id, at);
            done.push(shown);
            calls.push(call);
            proof {
                assert(rest@ =~= orig.skip(done@.len() as int));
            }
        }
        self.children = done;
        self.state = MenuState::InMenu { id, parent, index_in_parent: index };
        proof {
            assert(orig == old(self).spec_children());
        }
        Ok(calls)
    }
}

impl Item {
    /// True when this item's own entry is in no menu.
    pub fn is_free(&self) -> (r: bool)
        ensures
            r == item_is_free(*self),
    {
        match self {
            Item::Submenu(m) => match m.state {
                MenuState::Free => true,
                MenuState::InMenu { .. } => false,
            },
            Item::Action(a) => a.in_menu.is_none(),
            Item::Check(c) => c.in_menu.is_none(),
            Item::Separator => true,
        }
    }
}

} // verus!
