use zed::sidebar::{Side, Sidebar, ToggleArg};

fn two_items() -> Sidebar<&'static str> {
    let mut s = Sidebar::new(Side::Left);
    s.add_item("icons/a.svg", "a");
    s.add_item("icons/b.svg", "b");
    s
}

#[test]
fn left_sidebar_opens_switches_and_closes() {
    let mut s = two_items();
    assert_eq!(s.active_item(), None);
    s.toggle_item(0);
    assert_eq!(s.active_item(), Some(&"a"));
    s.toggle_item(1);
    assert_eq!(s.active_item(), Some(&"b"));
    s.toggle_item(1);
    assert_eq!(s.active_item(), None);
}

#[test]
fn toggling_twice_restores_closed_and_open() {
    let mut s = two_items();
    s.toggle_item(1);
    s.toggle_item(1);
    assert_eq!(s.active_item(), None);
    s.toggle_item(0);
    s.toggle_item(0);
    s.toggle_item(0);
    assert_eq!(s.active_item(), Some(&"a"));
    s.toggle_item(0);
    s.toggle_item(0);
    assert_eq!(s.active_item(), Some(&"a"));
}

#[test]
fn toggling_twice_from_another_open_item_closes() {
    let mut s = two_items();
    s.toggle_item(0);
    s.toggle_item(1);
    s.toggle_item(1);
    assert_eq!(s.active_item(), None);
}

#[test]
fn toggling_another_item_switches() {
    let mut s = two_items();
    s.toggle_item(0);
    s.toggle_item(1);
    assert_eq!(s.active_item(), Some(&"b"));
    let buttons = s.render();
    assert!(!buttons[0].active);
    assert!(buttons[1].active);
}

#[test]
fn at_most_one_item_open_over_a_sequence() {
    let mut s = two_items();
    s.add_item("icons/c.svg", "c");
    for ix in [0usize, 2, 2, 1, 0, 0, 1, 2, 7, 1] {
        s.toggle_item(ix);
        let open = s.render().iter().filter(|b| b.active).count();
        assert!(open <= 1);
        assert_eq!(open == 1, s.active_item().is_some());
    }
    assert_eq!(s.active_item(), Some(&"b"));
}

#[test]
fn out_of_range_toggle_changes_nothing() {
    let mut s = two_items();
    s.toggle_item(2);
    assert_eq!(s.active_item(), None);
    s.toggle_item(1);
    s.toggle_item(usize::MAX);
    assert_eq!(s.active_item(), Some(&"b"));
}

#[test]
fn empty_sidebar_renders_nothing() {
    let mut s: Sidebar<u32> = Sidebar::new(Side::Right);
    s.toggle_item(0);
    assert_eq!(s.active_item(), None);
    assert!(s.render().is_empty());
}

#[test]
fn items_added_after_render_are_addressable() {
    let mut s = two_items();
    assert_eq!(s.render().len(), 2);
    s.add_item("icons/c.svg", "c");
    s.toggle_item(2);
    assert_eq!(s.active_item(), Some(&"c"));
}

#[test]
fn render_lists_buttons_in_order_with_requests() {
    let mut s: Sidebar<u32> = Sidebar::new(Side::Right);
    s.add_item("icons/x.svg", 10);
    s.add_item("icons/y.svg", 20);
    s.add_item("icons/z.svg", 30);
    s.toggle_item(2);
    let buttons = s.render();
    assert_eq!(buttons.len(), 3);
    let paths: Vec<&str> = buttons.iter().map(|b| b.icon_path).collect();
    assert_eq!(paths, vec!["icons/x.svg", "icons/y.svg", "icons/z.svg"]);
    let active: Vec<bool> = buttons.iter().map(|b| b.active).collect();
    assert_eq!(active, vec![false, false, true]);
    for (i, b) in buttons.iter().enumerate() {
        assert_eq!(b.on_click, ToggleArg::new(Side::Right, i));
        assert_eq!(b.on_click.side(), Side::Right);
        assert_eq!(b.on_click.item_index(), i);
    }
    assert_eq!(s.active_item(), Some(&30));
}

#[test]
fn sides_are_independent() {
    let mut left = two_items();
    let mut right: Sidebar<&str> = Sidebar::new(Side::Right);
    right.add_item("icons/r.svg", "r");
    left.toggle_item(1);
    assert_eq!(right.active_item(), None);
    right.toggle_item(0);
    assert_eq!(left.active_item(), Some(&"b"));
    assert_eq!(right.render()[0].on_click.side(), Side::Right);
    assert_eq!(left.render()[0].on_click.side(), Side::Left);
}
