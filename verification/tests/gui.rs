use rimecraft::client::gui::{
    DrawContext, NavigationAxis, NavigationDirection, ScissorStack, ScreenPos, ScreenRect,
};

#[test]
fn axis_and_direction_relations() {
    assert_eq!(NavigationAxis::Horizontal.other(), NavigationAxis::Vertical);
    assert_eq!(NavigationAxis::Vertical.other(), NavigationAxis::Horizontal);
    assert_eq!(NavigationDirection::Up.axis(), NavigationAxis::Vertical);
    assert_eq!(NavigationDirection::Left.axis(), NavigationAxis::Horizontal);
    assert!(NavigationDirection::Down.is_positive());
    assert!(NavigationDirection::Right.is_positive());
    assert!(!NavigationDirection::Up.is_positive());
    assert!(!NavigationDirection::Left.is_positive());
    assert_eq!(
        NavigationAxis::Horizontal.negative_direction(),
        NavigationDirection::Left
    );
    assert_eq!(
        NavigationAxis::Vertical.positive_direction(),
        NavigationDirection::Down
    );
}

#[test]
fn screen_pos_components() {
    let p = ScreenPos::of(NavigationAxis::Vertical, 7, 3);
    assert_eq!(p.component(NavigationAxis::Vertical), 7);
    assert_eq!(p.component(NavigationAxis::Horizontal), 3);
    let q = p.moved(NavigationDirection::Right);
    assert_eq!(q, ScreenPos(4, 7));
}

#[test]
fn rect_of_orients_by_axis() {
    let r = ScreenRect::of(NavigationAxis::Vertical, 10, 20, 30, 40);
    assert_eq!(r.pos, ScreenPos(20, 10));
    assert_eq!(r.len(NavigationAxis::Vertical), 30);
    assert_eq!(r.len(NavigationAxis::Horizontal), 40);
}

#[test]
fn rect_edges() {
    let r = ScreenRect::new(2, 3, 10, 20);
    assert_eq!(r.left(), 2);
    assert_eq!(r.top(), 3);
    assert_eq!(r.right(), 12);
    assert_eq!(r.bottom(), 23);
}

#[test]
fn bounding_coords() {
    let r = ScreenRect::new(2, 3, 10, 20);
    assert_eq!(r.bounding_coord(NavigationDirection::Left), 2);
    assert_eq!(r.bounding_coord(NavigationDirection::Right), 11);
    assert_eq!(r.bounding_coord(NavigationDirection::Up), 3);
    assert_eq!(r.bounding_coord(NavigationDirection::Down), 22);
}

#[test]
fn border_is_one_pixel_outward() {
    let r = ScreenRect::new(0, 0, 10, 5);
    let b = r.border(NavigationDirection::Right);
    assert_eq!(b.pos, ScreenPos(10, 0));
    assert_eq!(b.width, 1);
    assert_eq!(b.height, 5);
}

#[test]
fn overlap_checks() {
    let a = ScreenRect::new(0, 0, 10, 10);
    let b = ScreenRect::new(5, 5, 10, 10);
    let c = ScreenRect::new(20, 0, 5, 5);
    assert!(a.overlaps(b, None));
    assert!(!a.overlaps(c, None));
    // c is apart from a horizontally but overlaps vertically
    assert!(!a.overlaps(c, Some(NavigationAxis::Horizontal)));
    assert!(a.overlaps(c, Some(NavigationAxis::Vertical)));
}

#[test]
fn center_coordinate() {
    let r = ScreenRect::new(4, 0, 10, 2);
    // positive bound 13 plus half the negative bound 4
    assert_eq!(r.center(NavigationAxis::Horizontal), 15);
}

#[test]
fn intersection_of_overlapping_rects() {
    let a = ScreenRect::new(0, 0, 10, 10);
    let b = ScreenRect::new(5, 5, 10, 10);
    let i = a.intersection(b).unwrap();
    assert_eq!(i.pos, ScreenPos(5, 5));
    assert_eq!(i.width, 5);
    assert_eq!(i.height, 5);
}

#[test]
fn intersection_of_disjoint_rects() {
    let a = ScreenRect::new(0, 0, 10, 10);
    let c = ScreenRect::new(20, 0, 5, 5);
    assert!(a.intersection(c).is_none());
}

#[test]
fn scissor_stack_clips_pushes() {
    let mut stack = ScissorStack::new();
    let first = stack.push(ScreenRect::new(0, 0, 100, 100));
    assert_eq!(first, ScreenRect::new(0, 0, 100, 100));
    let second = stack.push(ScreenRect::new(50, 50, 100, 100));
    assert_eq!(second, ScreenRect::new(50, 50, 50, 50));
    // disjoint push clips to the empty rectangle
    let third = stack.push(ScreenRect::new(200, 200, 10, 10));
    assert_eq!(third, ScreenRect::default());
    assert_eq!(stack.pop(), Some(second));
    assert_eq!(stack.pop(), Some(first));
    assert_eq!(stack.pop(), None);
}

#[test]
fn draw_context_starts_empty() {
    let _ = DrawContext::new();
}

#[test]
fn default_rect_is_empty_at_origin() {
    let r = ScreenRect::default();
    assert_eq!(r.pos, ScreenPos(0, 0));
    assert_eq!(r.width, 0);
    assert_eq!(r.height, 0);
}

#[test]
fn enum_values_enumerate_each_variant() {
    let axes = <NavigationAxis as rimecraft::util::EnumValues<2>>::values();
    assert_eq!(axes, [NavigationAxis::Horizontal, NavigationAxis::Vertical]);
    let directions = <NavigationDirection as rimecraft::util::EnumValues<4>>::values();
    assert_eq!(directions.len(), 4);
    assert!(directions.contains(&NavigationDirection::Left));
}
