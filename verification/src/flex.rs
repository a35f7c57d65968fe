use vstd::prelude::*;

use crate::axis::{Axis, TextDirection, VerticalDirection};

verus! {

/// How much space a flex takes along its main axis when it has no flexible
/// children.
#[derive(Debug, Clone, Copy, PartialEq, Eq, Structural)]
pub enum MainAxisSize {
    Min,
    Max,
}

/// How much space a flex takes across its main axis.
#[derive(Debug, Clone, Copy, PartialEq, Eq, Structural)]
pub enum CrossAxisSize {
    Min,
    Max,
}

/// Where children are placed along the main axis.
#[derive(Debug, Clone, Copy, PartialEq, Eq, Structural)]
pub enum MainAxisAlignment {
    Start,
    Center,
    End,
    SpaceBetween,
    SpaceAround,
    SpaceEvenly,
}

/// Where children are placed across the main axis.
#[derive(Debug, Clone, Copy, PartialEq, Eq, Structural)]
pub enum CrossAxisAlignment {
    Start,
    Center,
    End,
    Stretch,
    Baseline,
}

/// Every setting of a flex but its children and its minimum spacing, which
/// the caller keeps as a floating-point number.
#[derive(Debug, Clone, Copy, PartialEq, Eq, Structural)]
pub struct FlexSettings {
    pub direction: Axis,
    pub text_direction: TextDirection,
    pub vertical_direction: VerticalDirection,
    pub main_axis_size: MainAxisSize,
    pub cross_axis_size: CrossAxisSize,
    pub main_axis_alignment: MainAxisAlignment,
    pub cross_axis_alignment: CrossAxisAlignment,
}

/// Where a child stands across the main axis, as a function of the space
/// left there (`available`, the flex's cross size minus the child's).
#[derive(Debug, Clone, Copy, PartialEq, Eq, Structural)]
pub enum CrossOffset {
    /// The child touches the start of the cross axis.
    Zero,
    /// The child touches the end of the cross axis: the offset is `available`.
    Available,
    /// The child is centered: the offset is half of `available`.
    HalfAvailable,
}

/// How the space left on the main axis of a flex that fills it is spread
/// between its children, given `n` children.
#[derive(Debug, Clone, Copy, PartialEq, Eq, Structural)]
pub enum SpaceDistribution {
    /// Nothing is spread: only the flex's minimum spacing separates children.
    MinimumOnly,
    /// The space is divided into `n - 1` equal parts, one between two
    /// children; only given for two children or more.
    BetweenChildren,
    /// The space is divided into `n` equal parts, half of one at each end.
    AroundChildren,
    /// The space is divided into `n + 1` equal parts, one at each end too.
    Evenly,
}

/// The space before the first child. `spacing` is the space between two
/// children, `free` is the main size available minus the length of all
/// children and the spacing between them. The caller clamps it at zero.
#[derive(Debug, Clone, Copy, PartialEq, Eq, Structural)]
pub enum LeadingSpace {
    Zero,
    HalfSpacing,
    Spacing,
    Free,
    HalfFree,
}

/// The least main size of the flex: the children back to back with their
/// spacing, and the leading space at both ends or not.
#[derive(Debug, Clone, Copy, PartialEq, Eq, Structural)]
pub enum MainSizeMin {
    BackToBack,
    LeadingAtBothEnds,
}

/// How the main axis of a flex is divided.
#[derive(Debug, Clone, Copy, PartialEq, Eq, Structural)]
pub struct MainAxisPlan {
    /// How the spacing between children is computed before the flex's own
    /// minimum spacing is taken as a lower bound.
    pub distribution: SpaceDistribution,
    /// The number of gaps between children, by which the spacing is multiplied.
    pub gaps: usize,
    pub leading: LeadingSpace,
    pub main_size_min: MainSizeMin,
}

/// One bound of a child's constraints, named by where its value comes from.
#[derive(Debug, Clone, Copy, PartialEq, Eq, Structural)]
pub enum Extent {
    Zero,
    Unbounded,
    /// The largest width that the flex itself may take.
    ParentMaxWidth,
    /// The largest height that the flex itself may take.
    ParentMaxHeight,
    /// The least main extent given to a flexible child.
    MinChildExtent,
    /// The largest main extent given to a flexible child.
    MaxChildExtent,
}

/// The constraints with which a child is laid out.
#[derive(Debug, Clone, Copy, PartialEq, Eq, Structural)]
pub enum ConstraintsPlan {
    /// Tight in each dimension that is given, loose in the other.
    TightFor { width: Option<Extent>, height: Option<Extent> },
    /// Four bounds.
    Bounds { min_width: Extent, max_width: Extent, min_height: Extent, max_height: Extent },
}

/// The bounds of a box, given along and across an axis.
pub open spec fn bounds_along(
    axis: Axis,
    main_min: Extent,
    main_max: Extent,
    cross_min: Extent,
    cross_max: Extent,
) -> ConstraintsPlan {
    ConstraintsPlan::Bounds {
        min_width: axis.main_of(main_min, cross_min),
        max_width: axis.main_of(main_max, cross_max),
        min_height: axis.cross_of(main_min, cross_min),
        max_height: axis.cross_of(main_max, cross_max),
    }
}

/// The largest extent that the flex itself may take across an axis.
pub open spec fn parent_cross_max(axis: Axis) -> Extent {
    axis.cross_of(Extent::ParentMaxWidth, Extent::ParentMaxHeight)
}

impl FlexSettings {
    /// Children start at the top left corner of the flex.
    pub open spec fn starts_top_left(self) -> bool {
        ||| (self.direction == Axis::Vertical && self.text_direction == TextDirection::Ltr)
        ||| (self.direction == Axis::Horizontal && self.vertical_direction == VerticalDirection::Down)
    }

    /// The flex fills its main axis without flexible children to take the
    /// space, so the alignment spreads the space left.
    pub open spec fn spreads_free_space(self, flexible: bool) -> bool {
        !flexible && self.main_axis_size == MainAxisSize::Max
    }

    /// The cross offset of a child, for every alignment but `Baseline`.
    pub open spec fn spec_cross_offset(self) -> CrossOffset {
        match self.cross_axis_alignment {
            CrossAxisAlignment::Start => if self.starts_top_left() {
                CrossOffset::Zero
            } else {
                CrossOffset::Available
            },
            CrossAxisAlignment::End => if self.starts_top_left() {
                CrossOffset::Available
            } else {
                CrossOffset::Zero
            },
            CrossAxisAlignment::Center => CrossOffset::HalfAvailable,
            _ => CrossOffset::Zero,
        }
    }

    /// How the space left is spread between `child_count` children. A single
    /// child has no gap to spread space into, so with `SpaceBetween` it
    /// gets the minimum spacing only, and the least main size stays the
    /// length of the children.
    pub open spec fn spec_distribution(self, flexible: bool, child_count: nat) -> SpaceDistribution {
        if !self.spreads_free_space(flexible) {
            SpaceDistribution::MinimumOnly
        } else {
            match self.main_axis_alignment {
                MainAxisAlignment::SpaceBetween => if child_count > 1 {
                    SpaceDistribution::BetweenChildren
                } else {
                    SpaceDistribution::MinimumOnly
                },
                MainAxisAlignment::SpaceAround => SpaceDistribution::AroundChildren,
                MainAxisAlignment::SpaceEvenly => SpaceDistribution::Evenly,
                _ => SpaceDistribution::MinimumOnly,
            }
        }
    }

    /// The space before the first child.
    pub open spec fn spec_leading(self, flexible: bool) -> LeadingSpace {
        match self.main_axis_alignment {
            MainAxisAlignment::SpaceAround => LeadingSpace::HalfSpacing,
            MainAxisAlignment::SpaceEvenly => LeadingSpace::Spacing,
            MainAxisAlignment::End => if self.spreads_free_space(flexible) {
                LeadingSpace::Free
            } else {
                LeadingSpace::Zero
            },
            MainAxisAlignment::Center => if self.spreads_free_space(flexible) {
                LeadingSpace::HalfFree
            } else {
                LeadingSpace::Zero
            },
            _ => LeadingSpace::Zero,
        }
    }

    /// The least main size of the flex.
    pub open spec fn spec_main_size_min(self) -> MainSizeMin {
        if self.main_axis_alignment == MainAxisAlignment::SpaceAround
            || self.main_axis_alignment == MainAxisAlignment::SpaceEvenly {
            MainSizeMin::LeadingAtBothEnds
        } else {
            MainSizeMin::BackToBack
        }
    }

    /// The settings of a flex that a builder starts from: a horizontal row,
    /// read left to right and stacked downwards, that takes the least space
    /// on both axes, with children at the start of the main axis and
    /// centered across it.
    pub fn builder() -> (r: FlexSettings)
        ensures
            r == (FlexSettings {
                direction: Axis::Horizontal,
                text_direction: TextDirection::Ltr,
                vertical_direction: VerticalDirection::Down,
                main_axis_size: MainAxisSize::Min,
                cross_axis_size: CrossAxisSize::Min,
                main_axis_alignment: MainAxisAlignment::Start,
                cross_axis_alignment: CrossAxisAlignment::Center,
            }),
    {
        FlexSettings {
            direction: Axis::Horizontal,
            text_direction: TextDirection::Ltr,
            vertical_direction: VerticalDirection::Down,
            main_axis_size: MainAxisSize::Min,
            cross_axis_size: CrossAxisSize::Min,
            main_axis_alignment: MainAxisAlignment::Start,
            cross_axis_alignment: CrossAxisAlignment::Center,
        }
    }

    /// Whether children start at the top left corner: a column read left to
    /// right, or a row stacked downwards.
    pub fn start_is_top_left(&self) -> (r: bool)
        ensures
            r == self.starts_top_left(),
            self.direction == Axis::Horizontal ==> (r <==> self.vertical_direction
                == VerticalDirection::Down),
            self.direction == Axis::Vertical ==> (r <==> self.text_direction == TextDirection::Ltr),
    {
        match (self.direction, self.text_direction, self.vertical_direction) {
            (Axis::Vertical, TextDirection::Ltr, _) => true,
            (Axis::Horizontal, _, VerticalDirection::Down) => true,
            _ => false,
        }
    }

    /// Where a child stands across the main axis. Baseline alignment is not
    /// implemented, and a flex with it cannot place a child.
    pub fn compute_cross_offset(&self) -> (r: CrossOffset)
        requires
            self.cross_axis_alignment != CrossAxisAlignment::Baseline,
        ensures
            r == self.spec_cross_offset(),
            self.cross_axis_alignment == CrossAxisAlignment::Center ==> r == CrossOffset::HalfAvailable,
            self.cross_axis_alignment == CrossAxisAlignment::Stretch ==> r == CrossOffset::Zero,
            self.cross_axis_alignment == CrossAxisAlignment::Start ==> (r == CrossOffset::Zero
                <==> self.starts_top_left()),
            self.cross_axis_alignment == CrossAxisAlignment::Start ==> r != CrossOffset::HalfAvailable,
            self.cross_axis_alignment == CrossAxisAlignment::End ==> (r == CrossOffset::Available
                <==> self.starts_top_left()),
            self.cross_axis_alignment == CrossAxisAlignment::End ==> r != CrossOffset::HalfAvailable,
    {
        let top_left = self.start_is_top_left();
        match self.cross_axis_alignment {
            CrossAxisAlignment::Start => if top_left {
                CrossOffset::Zero
            } else {
                CrossOffset::Available
            },
            CrossAxisAlignment::End => if top_left {
                CrossOffset::Available
            } else {
                CrossOffset::Zero
            },
            CrossAxisAlignment::Center => CrossOffset::HalfAvailable,
            _ => CrossOffset::Zero,
        }
    }

    /// How the main axis is divided between `child_count` children, when
    /// `flexible` tells whether some of them are flexible. A flex lays out
    /// at least one child.
    pub fn compute_main_sizes(&self, flexible: bool, child_count: usize) -> (r: MainAxisPlan)
        requires
            child_count >= 1,
        ensures
            r.distribution == self.spec_distribution(flexible, child_count as nat),
            r.gaps == child_count - 1,
            r.leading == self.spec_leading(flexible),
            r.main_size_min == self.spec_main_size_min(),
            (self.main_axis_alignment == MainAxisAlignment::SpaceAround
                || self.main_axis_alignment == MainAxisAlignment::SpaceEvenly) <==> r.main_size_min
                == MainSizeMin::LeadingAtBothEnds,
            (!flexible && self.main_axis_size == MainAxisSize::Max) ==> {
                &&& self.main_axis_alignment == MainAxisAlignment::Center ==> r.leading
                    == LeadingSpace::HalfFree
                &&& self.main_axis_alignment == MainAxisAlignment::End ==> r.leading == LeadingSpace::Free
                &&& (self.main_axis_alignment == MainAxisAlignment::SpaceBetween && child_count >= 2)
                    ==> r.distribution == SpaceDistribution::BetweenChildren
                &&& self.main_axis_alignment == MainAxisAlignment::SpaceAround ==> r.distribution
                    == SpaceDistribution::AroundChildren
                &&& self.main_axis_alignment == MainAxisAlignment::SpaceEvenly ==> r.distribution
                    == SpaceDistribution::Evenly
            },
            (flexible || self.main_axis_size == MainAxisSize::Min) ==> r.distribution
                == SpaceDistribution::MinimumOnly,
            self.main_axis_alignment == MainAxisAlignment::SpaceAround ==> r.leading
                == LeadingSpace::HalfSpacing,
            self.main_axis_alignment == MainAxisAlignment::SpaceEvenly ==> r.leading
                == LeadingSpace::Spacing,
    {
        let spreads = !flexible && self.main_axis_size == MainAxisSize::Max;
        let distribution = if spreads {
            match self.main_axis_alignment {
                MainAxisAlignment::SpaceBetween => if child_count > 1 {
                    SpaceDistribution::BetweenChildren
                } else {
                    SpaceDistribution::MinimumOnly
                },
                MainAxisAlignment::SpaceAround => SpaceDistribution::AroundChildren,
                MainAxisAlignment::SpaceEvenly => SpaceDistribution::Evenly,
                _ => SpaceDistribution::MinimumOnly,
            }
        } else {
            SpaceDistribution::MinimumOnly
        };
        let leading = if !spreads {
            match self.main_axis_alignment {
                MainAxisAlignment::SpaceAround => LeadingSpace::HalfSpacing,
                MainAxisAlignment::SpaceEvenly => LeadingSpace::Spacing,
                _ => LeadingSpace::Zero,
            }
        } else {
            match self.main_axis_alignment {
                MainAxisAlignment::Start | MainAxisAlignment::SpaceBetween => LeadingSpace::Zero,
                MainAxisAlignment::End => LeadingSpace::Free,
                MainAxisAlignment::Center => LeadingSpace::HalfFree,
                MainAxisAlignment::SpaceAround => LeadingSpace::HalfSpacing,
                MainAxisAlignment::SpaceEvenly => LeadingSpace::Spacing,
            }
        };
        let main_size_min = match self.main_axis_alignment {
            MainAxisAlignment::SpaceAround | MainAxisAlignment::SpaceEvenly => MainSizeMin::LeadingAtBothEnds,
            _ => MainSizeMin::BackToBack,
        };
        MainAxisPlan { distribution, gaps: child_count - 1, leading, main_size_min }
    }

    /// The constraints of a child that is not flexible: unbounded along the
    /// main axis, and across it bounded by the flex, or tight to the flex's
    /// largest cross extent when children are stretched.
    pub fn inflexible_constraints(&self) -> (r: ConstraintsPlan)
        ensures
            self.cross_axis_alignment == CrossAxisAlignment::Stretch ==> r == (ConstraintsPlan::TightFor {
                width: self.direction.main_of(None, Some(Extent::ParentMaxWidth)),
                height: self.direction.cross_of(None, Some(Extent::ParentMaxHeight)),
            }),
            self.cross_axis_alignment != CrossAxisAlignment::Stretch ==> r == bounds_along(
                self.direction,
                Extent::Zero,
                Extent::Unbounded,
                Extent::Zero,
                parent_cross_max(self.direction),
            ),
    {
        match self.cross_axis_alignment {
            CrossAxisAlignment::Stretch => match self.direction {
                Axis::Horizontal => ConstraintsPlan::TightFor {
                    width: None,
                    height: Some(Extent::ParentMaxHeight),
                },
                Axis::Vertical => ConstraintsPlan::TightFor {
                    width: Some(Extent::ParentMaxWidth),
                    height: None,
                },
            },
            _ => match self.direction {
                Axis::Horizontal => ConstraintsPlan::Bounds {
                    min_width: Extent::Zero,
                    max_width: Extent::Unbounded,
                    min_height: Extent::Zero,
                    max_height: Extent::ParentMaxHeight,
                },
                Axis::Vertical => ConstraintsPlan::Bounds {
                    min_width: Extent::Zero,
                    max_width: Extent::ParentMaxWidth,
                    min_height: Extent::Zero,
                    max_height: Extent::Unbounded,
                },
            },
        }
    }

    /// The constraints of a flexible child: along the main axis between the
    /// child's least and largest extent, across it bounded by the flex, and
    /// tight to the flex's largest cross extent when children are stretched.
    pub fn flex_constraints(&self) -> (r: ConstraintsPlan)
        ensures
            r == bounds_along(
                self.direction,
                Extent::MinChildExtent,
                Extent::MaxChildExtent,
                if self.cross_axis_alignment == CrossAxisAlignment::Stretch {
                    parent_cross_max(self.direction)
                } else {
                    Extent::Zero
                },
                parent_cross_max(self.direction),
            ),
    {
        match self.cross_axis_alignment {
            CrossAxisAlignment::Stretch => match self.direction {
                Axis::Horizontal => ConstraintsPlan::Bounds {
                    min_width: Extent::MinChildExtent,
                    max_width: Extent::MaxChildExtent,
                    min_height: Extent::ParentMaxHeight,
                    max_height: Extent::ParentMaxHeight,
                },
                Axis::Vertical => ConstraintsPlan::Bounds {
                    min_width: Extent::ParentMaxWidth,
                    max_width: Extent::ParentMaxWidth,
                    min_height: Extent::MinChildExtent,
                    max_height: Extent::MaxChildExtent,
                },
            },
            _ => match self.direction {
                Axis::Horizontal => ConstraintsPlan::Bounds {
                    min_width: Extent::MinChildExtent,
                    max_width: Extent::MaxChildExtent,
                    min_height: Extent::Zero,
                    max_height: Extent::ParentMaxHeight,
                },
                Axis::Vertical => ConstraintsPlan::Bounds {
                    min_width: Extent::Zero,
                    max_width: Extent::ParentMaxWidth,
                    min_height: Extent::MinChildExtent,
                    max_height: Extent::MaxChildExtent,
                },
            },
        }
    }

    /// Whether the flex takes the largest main size it may: when some child
    /// is flexible, or when its main axis size is `Max`.
    pub fn fills_main_axis(&self, flexible: bool) -> (r: bool)
        ensures
            r == (flexible || self.main_axis_size == MainAxisSize::Max),
    {
        flexible || matches!(self.main_axis_size, MainAxisSize::Max)
    }

    /// Whether the flex takes the largest cross size it may (never less than
    /// its largest child).
    pub fn fills_cross_axis(&self) -> (r: bool)
        ensures
            r == (self.cross_axis_size == CrossAxisSize::Max),
    {
        match self.cross_axis_size {
            CrossAxisSize::Min => false,
            CrossAxisSize::Max => true,
        }
    }
}

/// The free space is spread by the alignment (between children or before the
/// first) only when the flex takes the largest main size it may, and a flex
/// with flexible children never spreads it: they take it.
pub proof fn lemma_spreading_needs_full_main_axis(
    settings: FlexSettings,
    flexible: bool,
    child_count: nat,
)
    ensures
        (settings.spec_distribution(flexible, child_count) != SpaceDistribution::MinimumOnly
            || settings.spec_leading(flexible) == LeadingSpace::Free
            || settings.spec_leading(flexible) == LeadingSpace::HalfFree) ==> (
        settings.spreads_free_space(flexible) && (flexible || settings.main_axis_size
            == MainAxisSize::Max)),
        flexible ==> settings.spec_distribution(flexible, child_count) == SpaceDistribution::MinimumOnly,
        settings.spec_distribution(flexible, child_count) == SpaceDistribution::BetweenChildren
            ==> child_count >= 2,
{
}

/// Start and end alignment across the main axis mirror each other: one puts
/// a child at offset zero, the other at the far end, and which is which
/// depends only on whether children start at the top left.
pub proof fn lemma_cross_start_end_mirror(settings: FlexSettings)
    ensures
        ({
            let start = FlexSettings { cross_axis_alignment: CrossAxisAlignment::Start, ..settings };
            let end = FlexSettings { cross_axis_alignment: CrossAxisAlignment::End, ..settings };
            &&& start.spec_cross_offset() != end.spec_cross_offset()
            &&& start.spec_cross_offset() != CrossOffset::HalfAvailable
            &&& end.spec_cross_offset() != CrossOffset::HalfAvailable
            &&& (start.spec_cross_offset() == CrossOffset::Zero <==> settings.starts_top_left())
        }),
{
}

/// Changing only the direction of a flex leaves how its main axis is divided
/// unchanged: spreading, leading space and least main size depend on the
/// sizes and alignment alone.
pub proof fn lemma_main_plan_ignores_direction(
    settings: FlexSettings,
    direction: Axis,
    flexible: bool,
    child_count: nat,
)
    ensures
        ({
            let other = FlexSettings { direction, ..settings };
            &&& other.spec_distribution(flexible, child_count) == settings.spec_distribution(
                flexible,
                child_count,
            )
            &&& other.spec_leading(flexible) == settings.spec_leading(flexible)
            &&& other.spec_main_size_min() == settings.spec_main_size_min()
        }),
{
}

/// A flex that is not flexible and takes its whole main axis places its
/// children by its alignment: centered children get half the free space in
/// front, end-aligned children all of it, and with two children or more
/// `SpaceBetween` divides the free space between them; whatever the
/// direction and the other settings.
pub proof fn lemma_full_main_axis_alignment(settings: FlexSettings, child_count: nat)
    requires
        settings.main_axis_size == MainAxisSize::Max,
    ensures
        settings.main_axis_alignment == MainAxisAlignment::Center ==> settings.spec_leading(false)
            == LeadingSpace::HalfFree,
        settings.main_axis_alignment == MainAxisAlignment::End ==> settings.spec_leading(false)
            == LeadingSpace::Free,
        settings.main_axis_alignment == MainAxisAlignment::Start ==> settings.spec_leading(false)
            == LeadingSpace::Zero,
        (settings.main_axis_alignment == MainAxisAlignment::SpaceBetween && child_count >= 2)
            ==> settings.spec_distribution(false, child_count) == SpaceDistribution::BetweenChildren,
        settings.main_axis_alignment == MainAxisAlignment::SpaceAround ==> settings.spec_distribution(
            false,
            child_count,
        ) == SpaceDistribution::AroundChildren,
        settings.main_axis_alignment == MainAxisAlignment::SpaceEvenly ==> settings.spec_distribution(
            false,
            child_count,
        ) == SpaceDistribution::Evenly,
{
}

/// The least main size counts the leading space at both ends exactly for
/// `SpaceAround` and `SpaceEvenly`, whatever the main axis size, the
/// direction or the flexibility of the children.
pub proof fn lemma_main_size_min_by_alignment(settings: FlexSettings)
    ensures
        (settings.main_axis_alignment == MainAxisAlignment::SpaceAround
            || settings.main_axis_alignment == MainAxisAlignment::SpaceEvenly) <==> settings.spec_main_size_min()
            == MainSizeMin::LeadingAtBothEnds,
{
}

/// Centered children are centered across the main axis, whatever the
/// direction, text direction and vertical direction.
pub proof fn lemma_center_is_half_available(settings: FlexSettings)
    requires
        settings.cross_axis_alignment == CrossAxisAlignment::Center,
    ensures
        settings.spec_cross_offset() == CrossOffset::HalfAvailable,
        forall|d: Axis, t: TextDirection, v: VerticalDirection|
            (FlexSettings { direction: d, text_direction: t, vertical_direction: v, ..settings }).spec_cross_offset()
                == CrossOffset::HalfAvailable,
{
}

/// A row starts at the top exactly when it is stacked downwards, whatever its
/// text direction; a column starts at the left exactly when it is read left
/// to right, whatever its vertical direction.
pub proof fn lemma_top_left_by_direction(settings: FlexSettings)
    ensures
        settings.direction == Axis::Horizontal ==> (settings.starts_top_left() <==> settings.vertical_direction
            == VerticalDirection::Down),
        settings.direction == Axis::Vertical ==> (settings.starts_top_left() <==> settings.text_direction
            == TextDirection::Ltr),
{
}

} // verus!
