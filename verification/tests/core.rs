use stdgotchi::element::{
    element_char, element_char_air, element_color, element_color_expedition, element_color_map,
    element_name, Element, Rgb,
};
use stdgotchi::geometry::{opt_contains, Rect};
use stdgotchi::order::{stable_order, take_in_order};
use stdgotchi::touch::{find_touched, TouchArea};

#[test]
fn rect_contains_is_half_open() {
    let r = Rect::new(10, 20, 30, 40);
    assert!(r.contains(10, 20));
    assert!(r.contains(39, 59));
    assert!(!r.contains(40, 20));
    assert!(!r.contains(10, 60));
    assert!(!r.contains(9, 30));
    assert!(!r.contains(15, 19));
}

#[test]
fn empty_rect_contains_nothing() {
    let r = Rect::new(5, 5, 0, 10);
    assert!(!r.contains(5, 5));
}

#[test]
fn opt_contains_goes_through_the_graphics_rectangle() {
    assert!(opt_contains(Some(Rect::new(0, 0, 10, 10)), 3, 4));
    assert!(!opt_contains(Some(Rect::new(0, 0, 10, 10)), 10, 4));
    assert!(!opt_contains(Some(Rect::new(0, 0, 10, 10)), -1, 4));
    assert!(!opt_contains(None, 3, 4));
}

#[test]
fn find_touched_returns_the_first_area_hit() {
    let areas = vec![
        TouchArea::new(0, 0, 10, 10, 'a'),
        TouchArea::new(5, 5, 10, 10, 'b'),
        TouchArea::new(100, 100, 5, 5, 'c'),
    ];
    assert_eq!(find_touched(&areas, 6, 6), Some(0));
    assert_eq!(find_touched(&areas, 12, 12), Some(1));
    assert_eq!(find_touched(&areas, 102, 101), Some(2));
    assert_eq!(find_touched(&areas, 50, 50), None);
    let none: Vec<TouchArea<char>> = Vec::new();
    assert_eq!(find_touched(&none, 0, 0), None);
}

#[test]
fn stable_order_sorts_by_key_and_keeps_ties_in_place() {
    let keys = vec![3u32, 1, 2, 1, 3];
    assert_eq!(stable_order(&keys), vec![1, 3, 2, 0, 4]);
    let empty: Vec<u32> = Vec::new();
    assert_eq!(stable_order(&empty), Vec::<usize>::new());
}

#[test]
fn take_in_order_permutes_items() {
    let items = vec!["c", "a", "b"];
    let order = vec![1usize, 2, 0];
    assert_eq!(take_in_order(items, &order), vec!["a", "b", "c"]);
}

#[test]
fn element_letters_and_names() {
    assert_eq!(element_char(Element::Wind), 'N');
    assert_eq!(element_char_air(Element::Wind), 'A');
    assert_eq!(element_char(Element::Spirit), 'G');
    assert_eq!(element_char_air(Element::Fire), 'F');
    assert_eq!(element_name(Element::Spirit), "Ghost");
    assert_eq!(element_name(Element::Thunder), "Thunder");
}

#[test]
fn element_palettes_differ_per_screen() {
    assert_eq!(element_color(Element::Earth), Rgb { r: 150, g: 120, b: 50 });
    assert_eq!(element_color_expedition(Element::Earth), Rgb { r: 150, g: 100, b: 50 });
    assert_eq!(element_color_map(Element::Earth), Rgb { r: 100, g: 180, b: 80 });
    assert_eq!(element_color_map(Element::Fire), Rgb { r: 255, g: 100, b: 50 });
    assert_eq!(element_color_expedition(Element::Spirit), Rgb { r: 150, g: 150, b: 200 });
}
