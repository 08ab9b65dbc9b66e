use winsize::geometry::{NativeSize, Rect};
use winsize::size::Size;

#[test]
fn subtraction_is_component_wise() {
    assert_eq!(Size { x: 10, y: 10 } - Size { x: 3, y: 4 }, Size { x: 7, y: 6 });
}

#[test]
fn addition_is_component_wise() {
    assert_eq!(Size { x: 10, y: 10 } + Size { x: 3, y: 4 }, Size { x: 13, y: 14 });
}

#[test]
fn subtracting_what_was_added_gives_the_size_back() {
    let size = Size { x: 1920, y: 1080 };
    let offset = Size { x: 16, y: 39 };
    assert_eq!((size + offset) - offset, size);
}

#[test]
fn default_size_is_empty() {
    assert_eq!(Size::default(), Size { x: 0, y: 0 });
}

#[test]
fn checked_add_gives_the_sum() {
    assert_eq!(
        Size { x: 10, y: 10 }.checked_add(Size { x: 3, y: 4 }),
        Some(Size { x: 13, y: 14 })
    );
    assert_eq!(
        Size { x: usize::MAX - 1, y: 0 }.checked_add(Size { x: 1, y: usize::MAX }),
        Some(Size { x: usize::MAX, y: usize::MAX })
    );
}

#[test]
fn checked_add_refuses_overflow_of_either_component() {
    assert_eq!(Size { x: usize::MAX, y: 0 }.checked_add(Size { x: 1, y: 0 }), None);
    assert_eq!(Size { x: 0, y: usize::MAX }.checked_add(Size { x: 0, y: 1 }), None);
}

#[test]
fn checked_sub_gives_the_difference() {
    assert_eq!(
        Size { x: 10, y: 10 }.checked_sub(Size { x: 3, y: 4 }),
        Some(Size { x: 7, y: 6 })
    );
    assert_eq!(
        Size { x: 5, y: 5 }.checked_sub(Size { x: 5, y: 5 }),
        Some(Size { x: 0, y: 0 })
    );
}

#[test]
fn checked_sub_refuses_underflow_of_either_component() {
    assert_eq!(Size { x: 3, y: 10 }.checked_sub(Size { x: 4, y: 1 }), None);
    assert_eq!(Size { x: 10, y: 3 }.checked_sub(Size { x: 1, y: 4 }), None);
}

#[test]
fn text_form_is_width_x_height() {
    assert_eq!(Size { x: 1920, y: 1080 }.to_string(), "1920x1080");
    assert_eq!(Size { x: 0, y: 0 }.to_string(), "0x0");
    assert_eq!(Size { x: 7, y: 10 }.to_string(), "7x10");
    assert_eq!(
        Size { x: usize::MAX, y: 1 }.to_string(),
        format!("{}x1", usize::MAX)
    );
}

#[test]
fn rect_with_ordered_edges_is_accepted() {
    assert!(Rect::new(0, 0, 800, 600).is_some());
    assert!(Rect::new(5, 5, 5, 5).is_some());
    assert!(Rect::new(-10, -20, -5, -1).is_some());
}

#[test]
fn rect_with_swapped_edges_is_refused() {
    assert_eq!(Rect::new(5, 0, 4, 10), None);
    assert_eq!(Rect::new(0, 5, 10, 4), None);
}

#[test]
fn size_of_a_rect_is_the_distance_between_its_edges() {
    assert_eq!(Size::from(Rect::new(0, 0, 800, 600).unwrap()), Size { x: 800, y: 600 });
    assert_eq!(Size::from(Rect::new(-5, -5, 5, 10).unwrap()), Size { x: 10, y: 15 });
    assert_eq!(Size::from(Rect::new(100, 200, 100, 200).unwrap()), Size { x: 0, y: 0 });
}

#[test]
fn size_of_the_widest_rect_does_not_wrap() {
    let rect = Rect::new(i32::MIN, i32::MIN, i32::MAX, i32::MAX).unwrap();
    assert_eq!(Size::from(rect), Size { x: 4294967295, y: 4294967295 });
}

#[test]
fn native_size_holds_width_and_height() {
    assert_eq!(NativeSize::from(Size { x: 826, y: 659 }), NativeSize { cx: 826, cy: 659 });
    assert_eq!(
        NativeSize::from(Size { x: 2147483647, y: 0 }),
        NativeSize { cx: i32::MAX, cy: 0 }
    );
}

#[test]
fn native_size_keeps_the_low_bits_of_a_size_that_does_not_fit() {
    assert_eq!(
        NativeSize::from(Size { x: 2147483648, y: 4294967297 }),
        NativeSize { cx: i32::MIN, cy: 1 }
    );
}
