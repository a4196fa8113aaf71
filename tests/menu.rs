use xplane::menu::{
    check_state, AttachCall, ActionItem, CheckHandler, CheckItem, ClickHandler, InMenu, Item, Menu, MenuCall,
    MenuError, MenuState,
};
use xplane::{make_x, XPAPI};

#[test]
fn test_menus() {
    let mut root = Menu::new("Root").unwrap();
    let mut a = ActionItem::new("Action").unwrap();
    a.attach(1, 0).unwrap();
    let mut c = CheckItem::new("Check", true).unwrap();
    assert_eq!(c.attach(1, 2), Ok(2));
    let mut sub = Menu::new("Sub").unwrap();
    let mut inner = ActionItem::new("Inner").unwrap();
    inner.attach(2, 0).unwrap();
    sub.add_child(Item::Action(inner));
    sub.add_child(Item::Separator);
    sub.attach(2, 1, 3).unwrap();
    root.add_child(Item::Action(a));
    root.add_child(Item::Separator);
    root.add_child(Item::Check(c));
    root.add_child(Item::Submenu(sub));
    root.attach(1, 100, 7).unwrap();

    // Wrong parent or index: nothing happens.
    assert_eq!(root.remove_from_menu(100, 6).unwrap_err(), MenuError::NotInThatMenu);
    assert_eq!(root.remove_from_plugins_menu(99).unwrap_err(), MenuError::NotInThatMenu);

    let calls = root.remove_from_plugins_menu(100).unwrap();
    assert_eq!(
        calls,
        vec![
            MenuCall::RemoveItem { parent: 1, index: 0 },
            MenuCall::RemoveItem { parent: 1, index: 0 },
            MenuCall::RemoveItem { parent: 1, index: 0 },
            MenuCall::RemoveItem { parent: 2, index: 0 },
            MenuCall::RemoveItem { parent: 2, index: 0 },
            MenuCall::DestroyMenu(2),
            MenuCall::RemoveItem { parent: 1, index: 0 },
            MenuCall::DestroyMenu(1),
            MenuCall::RemoveItem { parent: 100, index: 7 },
        ]
    );
    assert_eq!(root.state(), MenuState::Free);
    assert_eq!(root.remove_from_menu(100, 7).unwrap_err(), MenuError::NotInMenu);
}

#[test]
fn children_not_in_the_host_are_skipped() {
    let mut root = Menu::new("Root").unwrap();
    root.add_child(Item::Action(ActionItem::new("free").unwrap()));
    root.add_child(Item::Submenu(Menu::new("free sub").unwrap()));
    root.attach(5, 6, 0).unwrap();
    assert_eq!(
        root.remove_from_menu(6, 0).unwrap(),
        vec![MenuCall::DestroyMenu(5), MenuCall::RemoveItem { parent: 6, index: 0 }]
    );
}

#[test]
fn menu_state_errors() {
    let mut m = Menu::new("m").unwrap();
    assert_eq!(m.update_index(3), Err(MenuError::NotInMenu));
    m.attach(1, 2, 3).unwrap();
    assert_eq!(m.attach(1, 2, 3), Err(MenuError::AlreadyInMenu));
    m.update_index(4).unwrap();
    assert_eq!(m.state(), MenuState::InMenu { id: 1, parent: 2, index_in_parent: 4 });
    assert!(Menu::new("bad\0").is_err());
    assert!(m.set_name("x\0y").is_err());
    assert_eq!(m.name(), "m");
    m.set_name("n").unwrap();
    assert_eq!(m.name(), "n");
}

#[test]
fn item_state_errors() {
    let mut a = ActionItem::new("a").unwrap();
    assert_eq!(a.update_index(1), Err(MenuError::NotInMenu));
    assert_eq!(a.remove_from_menu(1, 0), Err(MenuError::NotInMenu));
    assert_eq!(a.set_name("b"), Ok(None));
    a.attach(4, 2).unwrap();
    assert_eq!(a.attach(4, 2), Err(MenuError::AlreadyInMenu));
    assert_eq!(a.set_name("c"), Ok(Some(InMenu { parent: 4, index: 2 })));
    assert_eq!(a.name(), "c");
    assert_eq!(a.remove_from_menu(4, 1), Err(MenuError::NotInThatMenu));
    assert_eq!(a.remove_from_menu(4, 2), Ok(MenuCall::RemoveItem { parent: 4, index: 2 }));
    assert_eq!(a.in_menu(), None);
}

struct Flip {
    seen: Vec<bool>,
}

impl CheckHandler for Flip {
    fn item_checked(&mut self, _x: &mut XPAPI, _item: &CheckItem, checked: bool) {
        self.seen.push(checked);
    }
}

struct Clicks(u32);

impl ClickHandler for Clicks {
    fn item_clicked(&mut self, _x: &mut XPAPI, _item: &ActionItem) {
        self.0 += 1;
    }
}

#[test]
fn check_items_follow_the_host() {
    let mut x = make_x();
    assert_eq!(check_state(true), 2);
    assert_eq!(check_state(false), 1);
    let mut c = CheckItem::new("c", false).unwrap();
    assert_eq!(c.set_checked(true), None);
    c.attach(3, 1).unwrap();
    assert!(!c.refresh(2));
    assert!(c.checked());
    assert!(!c.refresh(0));
    assert!(!c.checked());
    assert!(!c.refresh(1));
    assert!(!c.checked());
    assert!(c.refresh(7));
    assert!(!c.checked());
    let mut h = Flip { seen: Vec::new() };
    assert_eq!(c.handle_click(&mut x, &mut h), Some((InMenu { parent: 3, index: 1 }, 2)));
    assert_eq!(c.handle_click(&mut x, &mut h), Some((InMenu { parent: 3, index: 1 }, 1)));
    assert_eq!(h.seen, vec![true, false]);
    let a = ActionItem::new("a").unwrap();
    let mut k = Clicks(0);
    a.handle_click(&mut x, &mut k);
    assert_eq!(k.0, 1);
}

#[test]
fn adding_a_menu_shows_children_in_order() {
    let mut root = Menu::new("Root").unwrap();
    root.add_child(Item::Action(ActionItem::new("Act").unwrap()));
    root.add_child(Item::Separator);
    root.add_child(Item::Check(CheckItem::new("Chk", true).unwrap()));
    root.add_child(Item::Submenu(Menu::new("Sub").unwrap()));
    assert_eq!(root.check_free(), Ok(()));
    let calls = root.add_to_menu(100, 4, 1).unwrap();
    assert_eq!(
        calls,
        vec![
            AttachCall::AppendItem { parent: 1, index: 0, name: "Act".to_string(), check: 0 },
            AttachCall::AppendSeparator { parent: 1, index: 1 },
            AttachCall::AppendItem { parent: 1, index: 2, name: "Chk".to_string(), check: 2 },
            AttachCall::OpenSubmenu { parent: 1, index: 3, name: "Sub".to_string() },
        ]
    );
    assert_eq!(root.state(), MenuState::InMenu { id: 1, parent: 100, index_in_parent: 4 });
    match root.child_mut(3) {
        Item::Submenu(m) => {
            assert!(m.add_to_menu(1, 3, 2).unwrap().is_empty());
        }
        _ => panic!("the fourth child is the submenu"),
    }
    match &root.children()[0] {
        Item::Action(a) => assert_eq!(a.in_menu(), Some(InMenu { parent: 1, index: 0 })),
        _ => panic!("the first child is the action"),
    }
    assert_eq!(root.add_to_menu(100, 4, 1), Err(MenuError::AlreadyInMenu));
    // Adding then removing makes the matching calls.
    let calls = root.remove_from_menu(100, 4).unwrap();
    assert_eq!(calls.len(), 7);
    assert_eq!(calls[3], MenuCall::DestroyMenu(2));
    assert_eq!(calls[5], MenuCall::DestroyMenu(1));
    assert_eq!(calls[6], MenuCall::RemoveItem { parent: 100, index: 4 });
}

#[test]
fn adding_refuses_children_already_shown() {
    let mut root = Menu::new("Root").unwrap();
    let mut a = ActionItem::new("a").unwrap();
    a.attach(9, 0).unwrap();
    root.add_child(Item::Action(a));
    assert_eq!(root.check_free(), Err(MenuError::AlreadyInMenu));
    assert_eq!(root.add_to_menu(1, 0, 2), Err(MenuError::AlreadyInMenu));
    assert_eq!(root.state(), MenuState::Free);
}
