use vstd::prelude::*;

verus! {

/// Number of configurable table components.
pub const COMPONENT_COUNT: usize = 19;

/// All configurable table components, in their canonical order.
///
/// The order is part of the preset and modifier string format: the i-th
/// character of such a string configures the i-th component listed here.
/// New components may only ever be appended.
///
/// Border intersections are the points where row or column lines meet an
/// outer border.
#[derive(Clone, Copy, Debug, PartialEq, Eq, Structural, Hash)]
pub enum Component {
    LeftBorder,
    RightBorder,
    TopBorder,
    BottomBorder,
    LeftHeaderIntersection,
    HeaderLines,
    MiddleHeaderIntersections,
    RightHeaderIntersection,
    VerticalLines,
    HorizontalLines,
    MiddleIntersections,
    LeftBorderIntersections,
    RightBorderIntersections,
    TopBorderIntersections,
    BottomBorderIntersections,
    TopLeftCorner,
    TopRightCorner,
    BottomLeftCorner,
    BottomRightCorner,
}

impl Component {
    /// Position of the component in the canonical order.
    pub open spec fn ordinal(self) -> nat {
        match self {
            Component::LeftBorder => 0,
            Component::RightBorder => 1,
            Component::TopBorder => 2,
            Component::BottomBorder => 3,
            Component::LeftHeaderIntersection => 4,
            Component::HeaderLines => 5,
            Component::MiddleHeaderIntersections => 6,
            Component::RightHeaderIntersection => 7,
            Component::VerticalLines => 8,
            Component::HorizontalLines => 9,
            Component::MiddleIntersections => 10,
            Component::LeftBorderIntersections => 11,
            Component::RightBorderIntersections => 12,
            Component::TopBorderIntersections => 13,
            Component::BottomBorderIntersections => 14,
            Component::TopLeftCorner => 15,
            Component::TopRightCorner => 16,
            Component::BottomLeftCorner => 17,
            Component::BottomRightCorner => 18,
        }
    }

    /// The component at position `i` of the canonical order (`i` below
    /// `COMPONENT_COUNT`).
    pub open spec fn at(i: int) -> Component {
        if i <= 0 {
            Component::LeftBorder
        } else if i == 1 {
            Component::RightBorder
        } else if i == 2 {
            Component::TopBorder
        } else if i == 3 {
            Component::BottomBorder
        } else if i == 4 {
            Component::LeftHeaderIntersection
        } else if i == 5 {
            Component::HeaderLines
        } else if i == 6 {
            Component::MiddleHeaderIntersections
        } else if i == 7 {
            Component::RightHeaderIntersection
        } else if i == 8 {
            Component::VerticalLines
        } else if i == 9 {
            Component::HorizontalLines
        } else if i == 10 {
            Component::MiddleIntersections
        } else if i == 11 {
            Component::LeftBorderIntersections
        } else if i == 12 {
            Component::RightBorderIntersections
        } else if i == 13 {
            Component::TopBorderIntersections
        } else if i == 14 {
            Component::BottomBorderIntersections
        } else if i == 15 {
            Component::TopLeftCorner
        } else if i == 16 {
            Component::TopRightCorner
        } else if i == 17 {
            Component::BottomLeftCorner
        } else {
            Component::BottomRightCorner
        }
    }

    /// The canonical order, as a sequence.
    pub open spec fn canonical_order() -> Seq<Component> {
        Seq::new(COMPONENT_COUNT as nat, |i: int| Component::at(i))
    }

    /// Every component has a position below `COMPONENT_COUNT`, and the
    /// position names it back.
    pub proof fn lemma_ordinal_round_trip(self)
        ensures
            self.ordinal() < COMPONENT_COUNT,
            Component::at(self.ordinal() as int) == self,
    {
    }

    /// Position of the component in the canonical order.
    pub fn position(self) -> (r: usize)
        ensures
            r == self.ordinal(),
            r < COMPONENT_COUNT,
    {
        match self {
            Component::LeftBorder => 0,
            Component::RightBorder => 1,
            Component::TopBorder => 2,
            Component::BottomBorder => 3,
            Component::LeftHeaderIntersection => 4,
            Component::HeaderLines => 5,
            Component::MiddleHeaderIntersections => 6,
            Component::RightHeaderIntersection => 7,
            Component::VerticalLines => 8,
            Component::HorizontalLines => 9,
            Component::MiddleIntersections => 10,
            Component::LeftBorderIntersections => 11,
            Component::RightBorderIntersections => 12,
            Component::TopBorderIntersections => 13,
            Component::BottomBorderIntersections => 14,
            Component::TopLeftCorner => 15,
            Component::TopRightCorner => 16,
            Component::BottomLeftCorner => 17,
            Component::BottomRightCorner => 18,
        }
    }

    /// All components, in canonical order.
    pub fn all() -> (r: Vec<Component>)
        ensures
            r@ == Component::canonical_order(),
    {
        let r = vec![
            Component::LeftBorder,
            Component::RightBorder,
            Component::TopBorder,
            Component::BottomBorder,
            Component::LeftHeaderIntersection,
            Component::HeaderLines,
            Component::MiddleHeaderIntersections,
            Component::RightHeaderIntersection,
            Component::VerticalLines,
            Component::HorizontalLines,
            Component::MiddleIntersections,
            Component::LeftBorderIntersections,
            Component::RightBorderIntersections,
            Component::TopBorderIntersections,
            Component::BottomBorderIntersections,
            Component::TopLeftCorner,
            Component::TopRightCorner,
            Component::BottomLeftCorner,
            Component::BottomRightCorner,
        ];
        assert(r@ =~= Component::canonical_order());
        r
    }
}

} // verus!
