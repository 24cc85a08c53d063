use mtxchat::vault::{
    compare_names, list_geometry, name_to_style, page_window, sort_by_name, starts_with, style_to_name,
    FontStyle, ListItem, NavDir, VaultList, VaultMode, DEFAULT_FONT,
};
use std::cmp::Ordering;

fn item(name: &str, extra: &str) -> ListItem {
    ListItem { name: name.to_string(), extra: extra.to_string() }
}

#[test]
fn style_names_round_trip() {
    for style in [
        FontStyle::Regular,
        FontStyle::Monospace,
        FontStyle::Cjk,
        FontStyle::Bold,
        FontStyle::Large,
        FontStyle::Small,
    ] {
        assert_eq!(name_to_style(&style_to_name(&style)), Some(style));
    }
    assert_eq!(style_to_name(&FontStyle::Monospace), "mono");
    assert_eq!(name_to_style("cjk"), Some(FontStyle::Cjk));
    assert_eq!(name_to_style("Regular"), None);
    assert_eq!(name_to_style(""), None);
    assert_eq!(DEFAULT_FONT, FontStyle::Regular);
}

#[test]
fn list_item_clone_and_order() {
    let a = item("amazon.com", "Used 3 days ago");
    let b = a.clone();
    assert_eq!(b.name, "amazon.com");
    assert_eq!(b.extra, "Used 3 days ago");
    // equality and order look at the name only
    assert!(item("x", "1") == item("x", "2"));
    assert!(item("a", "z") < item("b", "a"));
    assert_eq!(item("b", "").partial_cmp(&item("a", "")), Some(Ordering::Greater));
}

#[test]
fn compare_names_as_strings() {
    assert_eq!(compare_names("abc", "abd"), Ordering::Less);
    assert_eq!(compare_names("abc", "ab"), Ordering::Greater);
    assert_eq!(compare_names("", ""), Ordering::Equal);
    assert_eq!(compare_names("百度", "z"), "百度".cmp("z"));
    assert!(starts_with("google.com", "goo"));
    assert!(!starts_with("goo", "google"));
    assert!(starts_with("x", ""));
}

#[test]
fn sort_orders_by_name() {
    let items = vec![item("b", "1"), item("a", "2"), item("c", "3"), item("a", "4")];
    let sorted = sort_by_name(items);
    let names: Vec<&str> = sorted.iter().map(|i| i.name.as_str()).collect();
    assert_eq!(names, vec!["a", "a", "b", "c"]);
    assert!(sort_by_name(Vec::new()).is_empty());
}

#[test]
fn set_mode_loads_sorted_items() {
    let mut list = VaultList::new(3);
    list.set_mode(VaultMode::Fido);
    assert_eq!(list.item_list.len(), 12);
    assert_eq!(list.filtered_list.len(), 12);
    assert_eq!(list.item_list[0].name, "amazon.com");
    let mut names: Vec<String> = list.item_list.iter().map(|i| i.name.clone()).collect();
    let shown = names.clone();
    names.sort();
    assert_eq!(names, shown);
    list.set_mode(VaultMode::Totp);
    assert_eq!(list.item_list.len(), 10);
    assert_eq!(list.mode, VaultMode::Totp);
    assert_eq!(list.selection_index, 0);
}

#[test]
fn filter_keeps_matching_names() {
    let mut list = VaultList::new(3);
    list.set_mode(VaultMode::Fido);
    list.selection_index = 11;
    list.filter("g");
    let names: Vec<&str> = list.filtered_list.iter().map(|i| i.name.as_str()).collect();
    assert_eq!(names, vec!["github.com", "google.com"]);
    assert_eq!(list.selection_index, 1);
    list.filter("nothing matches");
    assert!(list.filtered_list.is_empty());
    assert_eq!(list.selection_index, 0);
}

#[test]
fn nav_stays_within_list() {
    let mut list = VaultList::new(3);
    list.set_mode(VaultMode::Fido);
    list.nav(NavDir::Up);
    assert_eq!(list.selection_index, 0);
    list.nav(NavDir::Down);
    assert_eq!(list.selection_index, 1);
    list.nav(NavDir::PageDown);
    assert_eq!(list.selection_index, 4);
    list.nav(NavDir::PageDown);
    list.nav(NavDir::PageDown);
    assert_eq!(list.selection_index, 10);
    list.nav(NavDir::PageDown);
    assert_eq!(list.selection_index, 11);
    list.nav(NavDir::Down);
    assert_eq!(list.selection_index, 11);
    list.nav(NavDir::PageUp);
    assert_eq!(list.selection_index, 8);
    list.selection_index = 3;
    list.nav(NavDir::PageUp);
    assert_eq!(list.selection_index, 0);
    let mut empty = VaultList::new(3);
    empty.nav(NavDir::PageDown);
    assert_eq!(empty.selection_index, 0);
    empty.nav(NavDir::Down);
    assert_eq!(empty.selection_index, 0);
}

#[test]
fn geometry_and_paging() {
    assert_eq!(list_geometry(536, 15, 4), (40, 12));
    assert_eq!(page_window(0, 5, 12), (0, 5, 0));
    assert_eq!(page_window(7, 5, 12), (5, 10, 2));
    assert_eq!(page_window(11, 5, 12), (10, 12, 1));
    assert_eq!(page_window(3, 5, 0), (0, 0, 3));
}
