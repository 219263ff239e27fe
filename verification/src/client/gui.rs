//! Screen-space geometry for GUI layout and navigation: axes, directions,
//! positions, rectangles and the scissor stack.

use vstd::prelude::*;

verus! {

/// One of the two screen axes.
#[derive(Clone, Copy, Debug, PartialEq, Eq, Structural)]
pub enum NavigationAxis {
    Horizontal,
    Vertical,
}

/// One of the four screen directions.
#[derive(Clone, Copy, Debug, PartialEq, Eq, Structural)]
pub enum NavigationDirection {
    Up,
    Down,
    Left,
    Right,
}

impl NavigationAxis {
    /// The other axis.
    pub open spec fn spec_other(self) -> Self {
        match self {
            NavigationAxis::Horizontal => NavigationAxis::Vertical,
            NavigationAxis::Vertical => NavigationAxis::Horizontal,
        }
    }

    /// The other axis.
    #[verifier::when_used_as_spec(spec_other)]
    pub fn other(self) -> (r: Self)
        ensures
            r == self.spec_other(),
    {
        match self {
            NavigationAxis::Horizontal => NavigationAxis::Vertical,
            NavigationAxis::Vertical => NavigationAxis::Horizontal,
        }
    }

    /// The direction along this axis with decreasing coordinate.
    pub open spec fn spec_negative_direction(self) -> NavigationDirection {
        match self {
            NavigationAxis::Horizontal => NavigationDirection::Left,
            NavigationAxis::Vertical => NavigationDirection::Up,
        }
    }

    /// The direction along this axis with decreasing coordinate.
    #[verifier::when_used_as_spec(spec_negative_direction)]
    pub fn negative_direction(self) -> (r: NavigationDirection)
        ensures
            r == self.spec_negative_direction(),
    {
        match self {
            NavigationAxis::Horizontal => NavigationDirection::Left,
            NavigationAxis::Vertical => NavigationDirection::Up,
        }
    }

    /// The direction along this axis with increasing coordinate.
    pub open spec fn spec_positive_direction(self) -> NavigationDirection {
        match self {
            NavigationAxis::Horizontal => NavigationDirection::Right,
            NavigationAxis::Vertical => NavigationDirection::Down,
        }
    }

    /// The direction along this axis with increasing coordinate.
    #[verifier::when_used_as_spec(spec_positive_direction)]
    pub fn positive_direction(self) -> (r: NavigationDirection)
        ensures
            r == self.spec_positive_direction(),
    {
        match self {
            NavigationAxis::Horizontal => NavigationDirection::Right,
            NavigationAxis::Vertical => NavigationDirection::Down,
        }
    }
}

impl NavigationDirection {
    /// The axis this direction runs along.
    pub open spec fn spec_axis(self) -> NavigationAxis {
        match self {
            NavigationDirection::Up | NavigationDirection::Down => NavigationAxis::Vertical,
            NavigationDirection::Left | NavigationDirection::Right => NavigationAxis::Horizontal,
        }
    }

    /// The axis this direction runs along.
    #[verifier::when_used_as_spec(spec_axis)]
    pub fn axis(self) -> (r: NavigationAxis)
        ensures
            r == self.spec_axis(),
    {
        match self {
            NavigationDirection::Up | NavigationDirection::Down => NavigationAxis::Vertical,
            NavigationDirection::Left | NavigationDirection::Right => NavigationAxis::Horizontal,
        }
    }

    /// Whether the direction increases its axis coordinate.
    pub open spec fn spec_is_positive(self) -> bool {
        match self {
            NavigationDirection::Down | NavigationDirection::Right => true,
            NavigationDirection::Up | NavigationDirection::Left => false,
        }
    }

    /// Whether the direction increases its axis coordinate.
    #[verifier::when_used_as_spec(spec_is_positive)]
    pub fn is_positive(self) -> (r: bool)
        ensures
            r == self.spec_is_positive(),
    {
        match self {
            NavigationDirection::Down | NavigationDirection::Right => true,
            NavigationDirection::Up | NavigationDirection::Left => false,
        }
    }
}

impl crate::util::EnumValues<2> for NavigationAxis {
    fn values() -> [Self; 2] {
        [NavigationAxis::Horizontal, NavigationAxis::Vertical]
    }
}

impl crate::util::EnumValues<4> for NavigationDirection {
    fn values() -> [Self; 4] {
        [
            NavigationDirection::Up,
            NavigationDirection::Down,
            NavigationDirection::Left,
            NavigationDirection::Right,
        ]
    }
}

/// The position of a [`ScreenRect`]: its x and y coordinates.
#[derive(Clone, Copy, Debug, PartialEq, Eq, Structural)]
pub struct ScreenPos(pub i32, pub i32);

impl ScreenPos {
    /// A position from a coordinate on `axis` and one on the other axis.
    pub fn of(axis: NavigationAxis, same_axis: i32, other_axis: i32) -> (r: Self)
        ensures
            r.spec_component(axis) == same_axis,
            r.spec_component(axis.spec_other()) == other_axis,
    {
        match axis {
            NavigationAxis::Horizontal => Self(same_axis, other_axis),
            NavigationAxis::Vertical => Self(other_axis, same_axis),
        }
    }

    /// The coordinate on the given axis.
    pub open spec fn spec_component(&self, axis: NavigationAxis) -> i32 {
        match axis {
            NavigationAxis::Horizontal => self.0,
            NavigationAxis::Vertical => self.1,
        }
    }

    /// The coordinate on the given axis.
    #[verifier::when_used_as_spec(spec_component)]
    pub fn component(&self, axis: NavigationAxis) -> (r: i32)
        ensures
            r == self.spec_component(axis),
    {
        match axis {
            NavigationAxis::Horizontal => self.0,
            NavigationAxis::Vertical => self.1,
        }
    }

    /// The position one step further in the given direction.
    pub open spec fn spec_moved(self, rhs: NavigationDirection) -> ScreenPos {
        match rhs {
            NavigationDirection::Up => ScreenPos(self.0, (self.1 - 1) as i32),
            NavigationDirection::Down => ScreenPos(self.0, (self.1 + 1) as i32),
            NavigationDirection::Left => ScreenPos((self.0 - 1) as i32, self.1),
            NavigationDirection::Right => ScreenPos((self.0 + 1) as i32, self.1),
        }
    }

    /// The position one step further in the given direction.
    pub fn moved(self, rhs: NavigationDirection) -> (r: ScreenPos)
        requires
            rhs == NavigationDirection::Up ==> self.1 > i32::MIN,
            rhs == NavigationDirection::Down ==> self.1 < i32::MAX,
            rhs == NavigationDirection::Left ==> self.0 > i32::MIN,
            rhs == NavigationDirection::Right ==> self.0 < i32::MAX,
        ensures
            r == self.spec_moved(rhs),
    {
        match rhs {
            NavigationDirection::Up => Self(self.0, self.1 - 1),
            NavigationDirection::Down => Self(self.0, self.1 + 1),
            NavigationDirection::Left => Self(self.0 - 1, self.1),
            NavigationDirection::Right => Self(self.0 + 1, self.1),
        }
    }
}

/// A rectangle on the screen: a position plus a width and a height.
#[derive(Clone, Copy, Debug, PartialEq, Eq, Structural)]
pub struct ScreenRect {
    pub pos: ScreenPos,
    pub width: u32,
    pub height: u32,
}

/// The larger of two mathematical integers.
pub open spec fn spec_max(a: int, b: int) -> int {
    if a >= b {
        a
    } else {
        b
    }
}

/// The smaller of two mathematical integers.
pub open spec fn spec_min(a: int, b: int) -> int {
    if a <= b {
        a
    } else {
        b
    }
}

/// Integer division rounding toward zero, as the executable division
/// operator does.
pub open spec fn spec_div_toward_zero(a: int, b: int) -> int {
    if a >= 0 {
        a / b
    } else {
        -((-a) / b)
    }
}

impl ScreenRect {
    /// The rectangle's extent stays within the coordinate type on both axes.
    pub open spec fn in_bounds(&self) -> bool {
        &&& self.width <= i32::MAX
        &&& self.height <= i32::MAX
        &&& self.pos.0 + self.width <= i32::MAX
        &&& self.pos.1 + self.height <= i32::MAX
    }

    /// Both bounding coordinates stay within the coordinate type; only an
    /// empty rectangle whose position sits at the very bottom of the range
    /// violates this.
    pub open spec fn coords_ok(&self) -> bool {
        &&& self.pos.0 + self.width - 1 >= i32::MIN
        &&& self.pos.1 + self.height - 1 >= i32::MIN
    }

    /// A rectangle from its coordinates and dimensions.
    pub fn new(x: i32, y: i32, width: u32, height: u32) -> (r: Self)
        ensures
            r == (ScreenRect { pos: ScreenPos(x, y), width, height }),
    {
        Self { pos: ScreenPos(x, y), width, height }
    }

    /// A rectangle given per-axis coordinates and lengths: `same_axis_coord`
    /// and `same_axis_len` apply to `axis`, the other two to the other axis.
    pub fn of(
        axis: NavigationAxis,
        same_axis_coord: i32,
        other_axis_coord: i32,
        same_axis_len: u32,
        other_axis_len: u32,
    ) -> (r: Self)
        ensures
            r.pos.spec_component(axis) == same_axis_coord,
            r.pos.spec_component(axis.spec_other()) == other_axis_coord,
            r.spec_len(axis) == same_axis_len,
            r.spec_len(axis.spec_other()) == other_axis_len,
    {
        match axis {
            NavigationAxis::Horizontal => Self::new(
                same_axis_coord,
                other_axis_coord,
                same_axis_len,
                other_axis_len,
            ),
            NavigationAxis::Vertical => Self::new(
                other_axis_coord,
                same_axis_coord,
                other_axis_len,
                same_axis_len,
            ),
        }
    }

    /// The length of the rectangle on the given axis.
    pub open spec fn spec_len(&self, axis: NavigationAxis) -> u32 {
        match axis {
            NavigationAxis::Horizontal => self.width,
            NavigationAxis::Vertical => self.height,
        }
    }

    /// The length of the rectangle on the given axis.
    #[verifier::when_used_as_spec(spec_len)]
    pub fn len(&self, axis: NavigationAxis) -> (r: u32)
        ensures
            r == self.spec_len(axis),
    {
        match axis {
            NavigationAxis::Horizontal => self.width,
            NavigationAxis::Vertical => self.height,
        }
    }

    /// The coordinate of the bounding box in the given direction: the last
    /// row or column of the rectangle for a positive direction, the first for
    /// a negative one.
    pub open spec fn spec_bounding_coord(&self, direction: NavigationDirection) -> int {
        let axis = direction.spec_axis();
        if direction.spec_is_positive() {
            self.pos.spec_component(axis) + self.spec_len(axis) - 1
        } else {
            self.pos.spec_component(axis) as int
        }
    }

    /// The coordinate of the bounding box in the given direction.
    pub fn bounding_coord(&self, direction: NavigationDirection) -> (r: i32)
        requires
            self.in_bounds(),
            self.spec_bounding_coord(direction) >= i32::MIN,
        ensures
            r == self.spec_bounding_coord(direction),
    {
        let axis = direction.axis();
        if direction.is_positive() {
            self.pos.component(axis) + self.len(axis) as i32 - 1
        } else {
            self.pos.component(axis)
        }
    }

    /// A one-pixel-thick rectangle along the rectangle's border in the given
    /// direction, shifted one step outward.
    pub fn border(&self, direction: NavigationDirection) -> (r: Self)
        requires
            self.in_bounds(),
            self.spec_bounding_coord(direction) >= i32::MIN,
            self.spec_bounding_coord(
                direction.spec_axis().spec_other().spec_negative_direction(),
            ) >= i32::MIN,
            direction.spec_is_positive() ==> self.spec_bounding_coord(direction) < i32::MAX,
            !direction.spec_is_positive() ==> self.spec_bounding_coord(direction) > i32::MIN,
        ensures
            r.pos.spec_component(direction.spec_axis()) == self.spec_bounding_coord(direction) + (
            if direction.spec_is_positive() {
                1int
            } else {
                -1int
            }),
            r.pos.spec_component(direction.spec_axis().spec_other()) == self.spec_bounding_coord(
                direction.spec_axis().spec_other().spec_negative_direction(),
            ),
            r.spec_len(direction.spec_axis()) == 1,
            r.spec_len(direction.spec_axis().spec_other()) == self.spec_len(
                direction.spec_axis().spec_other(),
            ),
    {
        let i = self.bounding_coord(direction);
        let axis = direction.axis().other();
        let j = self.bounding_coord(axis.negative_direction());
        let k = self.len(axis);
        let rect = Self::of(direction.axis(), i, j, 1, k);
        Self { pos: rect.pos.moved(direction), width: rect.width, height: rect.height }
    }

    /// Whether this rectangle overlaps `other` on the given axis.
    pub open spec fn spec_overlaps_in(&self, other: Self, axis: NavigationAxis) -> bool {
        spec_max(
            self.spec_bounding_coord(axis.spec_negative_direction()),
            other.spec_bounding_coord(axis.spec_negative_direction()),
        ) <= spec_min(
            self.spec_bounding_coord(axis.spec_positive_direction()),
            other.spec_bounding_coord(axis.spec_positive_direction()),
        )
    }

    /// Whether this rectangle overlaps `other` on the given axis, or on both
    /// axes when none is given.
    pub fn overlaps(&self, other: Self, axis: Option<NavigationAxis>) -> (r: bool)
        requires
            self.in_bounds(),
            other.in_bounds(),
            self.coords_ok(),
            other.coords_ok(),
        ensures
            match axis {
                Some(a) => r == self.spec_overlaps_in(other, a),
                None => r == (self.spec_overlaps_in(other, NavigationAxis::Horizontal)
                    && self.spec_overlaps_in(other, NavigationAxis::Vertical)),
            },
    {
        match axis {
            Some(axis_r) => self.overlaps_in(other, axis_r),
            None => self.overlaps_in(other, NavigationAxis::Horizontal) && self.overlaps_in(
                other,
                NavigationAxis::Vertical,
            ),
        }
    }

    fn overlaps_in(&self, other: Self, axis: NavigationAxis) -> (r: bool)
        requires
            self.in_bounds(),
            other.in_bounds(),
            self.coords_ok(),
            other.coords_ok(),
        ensures
            r == self.spec_overlaps_in(other, axis),
    {
        let a = self.bounding_coord(axis.negative_direction());
        let b = other.bounding_coord(axis.negative_direction());
        let lo = if a >= b {
            a
        } else {
            b
        };
        let c = self.bounding_coord(axis.positive_direction());
        let d = other.bounding_coord(axis.positive_direction());
        let hi = if c <= d {
            c
        } else {
            d
        };
        lo <= hi
    }

    /// The center coordinate of this rectangle on the given axis, as the
    /// positive bounding coordinate plus half the negative one, halving as
    /// the division operator does: toward zero.
    pub fn center(&self, axis: NavigationAxis) -> (r: i32)
        requires
            self.in_bounds(),
            self.coords_ok(),
            self.spec_bounding_coord(axis.spec_positive_direction()) + spec_div_toward_zero(
                self.spec_bounding_coord(axis.spec_negative_direction()),
                2,
            ) <= i32::MAX,
            self.spec_bounding_coord(axis.spec_positive_direction()) + spec_div_toward_zero(
                self.spec_bounding_coord(axis.spec_negative_direction()),
                2,
            ) >= i32::MIN,
        ensures
            r == self.spec_bounding_coord(axis.spec_positive_direction()) + spec_div_toward_zero(
                self.spec_bounding_coord(axis.spec_negative_direction()),
                2,
            ),
    {
        let neg = self.bounding_coord(axis.negative_direction());
        self.bounding_coord(axis.positive_direction()) + neg / 2
    }

    /// The top edge's y coordinate.
    pub fn top(&self) -> (r: i32)
        ensures
            r == self.pos.1,
    {
        self.pos.1
    }

    /// The y coordinate one past the bottom edge.
    pub fn bottom(&self) -> (r: i32)
        requires
            self.in_bounds(),
        ensures
            r == self.pos.1 + self.height,
    {
        self.pos.1 + self.height as i32
    }

    /// The left edge's x coordinate.
    pub fn left(&self) -> (r: i32)
        ensures
            r == self.pos.0,
    {
        self.pos.0
    }

    /// The x coordinate one past the right edge.
    pub fn right(&self) -> (r: i32)
        requires
            self.in_bounds(),
        ensures
            r == self.pos.0 + self.width,
    {
        self.pos.0 + self.width as i32
    }

    /// The rectangle where this one and `other` intersect, or nothing when
    /// they do not.
    pub open spec fn spec_intersection(a: Self, b: Self) -> Option<Self> {
        let i = spec_max(a.pos.0 as int, b.pos.0 as int);
        let j = spec_max(a.pos.1 as int, b.pos.1 as int);
        let k = spec_min(a.pos.0 + a.width, b.pos.0 + b.width);
        let l = spec_min(a.pos.1 + a.height, b.pos.1 + b.height);
        if i >= k || j >= l {
            None
        } else {
            Some(
                ScreenRect {
                    pos: ScreenPos(i as i32, j as i32),
                    width: (k - i) as u32,
                    height: (l - j) as u32,
                },
            )
        }
    }

    /// The rectangle where this one and `other` intersect, or nothing when
    /// they do not.
    pub fn intersection(&self, other: Self) -> (r: Option<Self>)
        requires
            self.in_bounds(),
            other.in_bounds(),
        ensures
            r == Self::spec_intersection(*self, other),
            r matches Some(rect) ==> rect.in_bounds() && rect.coords_ok(),
    {
        let sl = self.left();
        let ol = other.left();
        let i = if sl >= ol {
            sl
        } else {
            ol
        };
        let st = self.top();
        let ot = other.top();
        let j = if st >= ot {
            st
        } else {
            ot
        };
        let sr = self.right();
        let orr = other.right();
        let k = if sr <= orr {
            sr
        } else {
            orr
        };
        let sb = self.bottom();
        let ob = other.bottom();
        let l = if sb <= ob {
            sb
        } else {
            ob
        };
        if i >= k || j >= l {
            None
        } else {
            let width = (k as i64 - i as i64) as u32;
            let height = (l as i64 - j as i64) as u32;
            Some(Self::new(i, j, width, height))
        }
    }
}

impl Default for ScreenRect {
    /// The empty rectangle at the origin.
    fn default() -> (r: Self)
        ensures
            r == (ScreenRect { pos: ScreenPos(0, 0), width: 0u32, height: 0u32 }),
    {
        Self::new(0, 0, 0, 0)
    }
}

/// A stack of scissor rectangles: each pushed rectangle is clipped against
/// the current top, so the top is always the intersection of everything
/// pushed.
pub struct ScissorStack {
    stack: Vec<ScreenRect>,
}

impl ScissorStack {
    /// The stack contents, bottom first.
    pub closed spec fn spec_stack(&self) -> Seq<ScreenRect> {
        self.stack@
    }

    /// Every rectangle on the stack stays within coordinate bounds; pushes
    /// preserve this.
    pub open spec fn wf(&self) -> bool {
        forall|i: int| 0 <= i < self.spec_stack().len() ==> (#[trigger] self.spec_stack()[i]).in_bounds()
    }

    /// An empty stack.
    pub fn new() -> (r: Self)
        ensures
            r.spec_stack().len() == 0,
            r.wf(),
    {
        Self { stack: Vec::new() }
    }

    /// Pushes a rectangle, clipped against the current top (an empty
    /// rectangle when they do not intersect), and returns what was pushed.
    pub fn push(&mut self, rect: ScreenRect) -> (r: ScreenRect)
        requires
            old(self).wf(),
            rect.in_bounds(),
        ensures
            final(self).wf(),
            final(self).spec_stack() == old(self).spec_stack().push(r),
            r == if old(self).spec_stack().len() == 0 {
                rect
            } else {
                match ScreenRect::spec_intersection(rect, old(self).spec_stack().last()) {
                    Some(clipped) => clipped,
                    None => ScreenRect { pos: ScreenPos(0, 0), width: 0u32, height: 0u32 },
                }
            },
            r.in_bounds(),
    {
        let n = self.stack.len();
        if n > 0 {
            let top = self.stack[n - 1];
            proof {
                assert(top == self.spec_stack()[n - 1]);
            }
            let screen_rect_2 = match rect.intersection(top) {
                Some(x) => x,
                None => ScreenRect::default(),
            };
            self.stack.push(screen_rect_2);
            screen_rect_2
        } else {
            self.stack.push(rect);
            rect
        }
    }

    /// Pops the top rectangle and returns the new top, if any.
    pub fn pop(&mut self) -> (r: Option<ScreenRect>)
        requires
            old(self).wf(),
        ensures
            final(self).wf(),
            old(self).spec_stack().len() == 0 ==> final(self).spec_stack() == old(self).spec_stack()
                && r is None,
            old(self).spec_stack().len() > 0 ==> final(self).spec_stack() == old(
                self,
            ).spec_stack().drop_last() && (match r {
                Some(top) => final(self).spec_stack().len() > 0 && top == final(self).spec_stack().last(),
                None => final(self).spec_stack().len() == 0,
            }),
    {
        let _ = self.stack.pop();
        let n = self.stack.len();
        if n > 0 {
            Some(self.stack[n - 1])
        } else {
            None
        }
    }
}

/// Drawing state for GUI rendering: the scissor stack that clips what is
/// drawn.
pub struct DrawContext {
    scissor_stack: ScissorStack,
}

impl DrawContext {
    /// A fresh drawing context with an empty scissor stack.
    pub fn new() -> (r: Self)
        ensures
            r.spec_scissor_stack().spec_stack().len() == 0,
    {
        Self { scissor_stack: ScissorStack::new() }
    }

    /// The scissor stack.
    pub closed spec fn spec_scissor_stack(&self) -> ScissorStack {
        self.scissor_stack
    }
}

} // verus!
