use frui_flex::axis::{Axis, TextDirection, VerticalDirection};
use frui_flex::flex::{
    ConstraintsPlan, CrossAxisAlignment, CrossAxisSize, CrossOffset, Extent, FlexSettings,
    LeadingSpace, MainAxisAlignment, MainAxisSize, MainSizeMin, SpaceDistribution,
};

fn with(
    direction: Axis,
    main_axis_size: MainAxisSize,
    main_axis_alignment: MainAxisAlignment,
    cross_axis_alignment: CrossAxisAlignment,
) -> FlexSettings {
    FlexSettings {
        direction,
        main_axis_size,
        main_axis_alignment,
        cross_axis_alignment,
        ..FlexSettings::builder()
    }
}

#[test]
fn builder_defaults() {
    let s = FlexSettings::builder();
    assert_eq!(s.direction, Axis::Horizontal);
    assert_eq!(s.text_direction, TextDirection::Ltr);
    assert_eq!(s.vertical_direction, VerticalDirection::Down);
    assert_eq!(s.main_axis_size, MainAxisSize::Min);
    assert_eq!(s.cross_axis_size, CrossAxisSize::Min);
    assert_eq!(s.main_axis_alignment, MainAxisAlignment::Start);
    assert_eq!(s.cross_axis_alignment, CrossAxisAlignment::Center);
}

#[test]
fn start_is_top_left_cases() {
    let mut s = FlexSettings::builder();
    assert!(s.start_is_top_left());
    s.vertical_direction = VerticalDirection::Up;
    assert!(!s.start_is_top_left());
    s.direction = Axis::Vertical;
    assert!(s.start_is_top_left());
    s.text_direction = TextDirection::Rtl;
    assert!(!s.start_is_top_left());
}

#[test]
fn cross_offset_cases() {
    let mut s = FlexSettings::builder();
    assert_eq!(s.compute_cross_offset(), CrossOffset::HalfAvailable);
    s.cross_axis_alignment = CrossAxisAlignment::Stretch;
    assert_eq!(s.compute_cross_offset(), CrossOffset::Zero);
    s.cross_axis_alignment = CrossAxisAlignment::Start;
    assert_eq!(s.compute_cross_offset(), CrossOffset::Zero);
    s.cross_axis_alignment = CrossAxisAlignment::End;
    assert_eq!(s.compute_cross_offset(), CrossOffset::Available);
    s.vertical_direction = VerticalDirection::Up;
    assert_eq!(s.compute_cross_offset(), CrossOffset::Zero);
    s.cross_axis_alignment = CrossAxisAlignment::Start;
    assert_eq!(s.compute_cross_offset(), CrossOffset::Available);
}

#[test]
fn main_sizes_spread_when_filling() {
    let cases = [
        (MainAxisAlignment::Start, SpaceDistribution::MinimumOnly, LeadingSpace::Zero, MainSizeMin::BackToBack),
        (MainAxisAlignment::Center, SpaceDistribution::MinimumOnly, LeadingSpace::HalfFree, MainSizeMin::BackToBack),
        (MainAxisAlignment::End, SpaceDistribution::MinimumOnly, LeadingSpace::Free, MainSizeMin::BackToBack),
        (MainAxisAlignment::SpaceBetween, SpaceDistribution::BetweenChildren, LeadingSpace::Zero, MainSizeMin::BackToBack),
        (MainAxisAlignment::SpaceAround, SpaceDistribution::AroundChildren, LeadingSpace::HalfSpacing, MainSizeMin::LeadingAtBothEnds),
        (MainAxisAlignment::SpaceEvenly, SpaceDistribution::Evenly, LeadingSpace::Spacing, MainSizeMin::LeadingAtBothEnds),
    ];
    for (alignment, distribution, leading, min) in cases {
        let s = with(Axis::Horizontal, MainAxisSize::Max, alignment, CrossAxisAlignment::Center);
        let plan = s.compute_main_sizes(false, 3);
        assert_eq!(plan.distribution, distribution);
        assert_eq!(plan.gaps, 2);
        assert_eq!(plan.leading, leading);
        assert_eq!(plan.main_size_min, min);
    }
}

#[test]
fn space_between_with_one_child_spreads_nothing() {
    let s = with(Axis::Horizontal, MainAxisSize::Max, MainAxisAlignment::SpaceBetween, CrossAxisAlignment::Center);
    let plan = s.compute_main_sizes(false, 1);
    assert_eq!(plan.distribution, SpaceDistribution::MinimumOnly);
    assert_eq!(plan.gaps, 0);
    assert_eq!(plan.leading, LeadingSpace::Zero);
    assert_eq!(plan.main_size_min, MainSizeMin::BackToBack);
    assert_eq!(s.compute_main_sizes(false, 2).distribution, SpaceDistribution::BetweenChildren);
}

#[test]
fn main_sizes_do_not_spread_when_flexible_or_min() {
    for (size, flexible) in [(MainAxisSize::Max, true), (MainAxisSize::Min, false), (MainAxisSize::Min, true)] {
        for alignment in [MainAxisAlignment::Center, MainAxisAlignment::End, MainAxisAlignment::SpaceBetween] {
            let s = with(Axis::Vertical, size, alignment, CrossAxisAlignment::Start);
            let plan = s.compute_main_sizes(flexible, 1);
            assert_eq!(plan.distribution, SpaceDistribution::MinimumOnly);
            assert_eq!(plan.leading, LeadingSpace::Zero);
            assert_eq!(plan.gaps, 0);
        }
        let s = with(Axis::Vertical, size, MainAxisAlignment::SpaceAround, CrossAxisAlignment::Start);
        assert_eq!(s.compute_main_sizes(flexible, 4).leading, LeadingSpace::HalfSpacing);
        let s = with(Axis::Vertical, size, MainAxisAlignment::SpaceEvenly, CrossAxisAlignment::Start);
        assert_eq!(s.compute_main_sizes(flexible, 4).leading, LeadingSpace::Spacing);
    }
}

#[test]
fn inflexible_constraints_cases() {
    let s = with(Axis::Horizontal, MainAxisSize::Min, MainAxisAlignment::Start, CrossAxisAlignment::Stretch);
    assert_eq!(
        s.inflexible_constraints(),
        ConstraintsPlan::TightFor { width: None, height: Some(Extent::ParentMaxHeight) }
    );
    let s = with(Axis::Vertical, MainAxisSize::Min, MainAxisAlignment::Start, CrossAxisAlignment::Stretch);
    assert_eq!(
        s.inflexible_constraints(),
        ConstraintsPlan::TightFor { width: Some(Extent::ParentMaxWidth), height: None }
    );
    let s = with(Axis::Horizontal, MainAxisSize::Min, MainAxisAlignment::Start, CrossAxisAlignment::End);
    assert_eq!(
        s.inflexible_constraints(),
        ConstraintsPlan::Bounds {
            min_width: Extent::Zero,
            max_width: Extent::Unbounded,
            min_height: Extent::Zero,
            max_height: Extent::ParentMaxHeight,
        }
    );
    let s = with(Axis::Vertical, MainAxisSize::Min, MainAxisAlignment::Start, CrossAxisAlignment::Center);
    assert_eq!(
        s.inflexible_constraints(),
        ConstraintsPlan::Bounds {
            min_width: Extent::Zero,
            max_width: Extent::ParentMaxWidth,
            min_height: Extent::Zero,
            max_height: Extent::Unbounded,
        }
    );
}

#[test]
fn flex_constraints_cases() {
    let s = with(Axis::Horizontal, MainAxisSize::Min, MainAxisAlignment::Start, CrossAxisAlignment::Stretch);
    assert_eq!(
        s.flex_constraints(),
        ConstraintsPlan::Bounds {
            min_width: Extent::MinChildExtent,
            max_width: Extent::MaxChildExtent,
            min_height: Extent::ParentMaxHeight,
            max_height: Extent::ParentMaxHeight,
        }
    );
    let s = with(Axis::Vertical, MainAxisSize::Min, MainAxisAlignment::Start, CrossAxisAlignment::Stretch);
    assert_eq!(
        s.flex_constraints(),
        ConstraintsPlan::Bounds {
            min_width: Extent::ParentMaxWidth,
            max_width: Extent::ParentMaxWidth,
            min_height: Extent::MinChildExtent,
            max_height: Extent::MaxChildExtent,
        }
    );
    let s = with(Axis::Horizontal, MainAxisSize::Min, MainAxisAlignment::Start, CrossAxisAlignment::Start);
    assert_eq!(
        s.flex_constraints(),
        ConstraintsPlan::Bounds {
            min_width: Extent::MinChildExtent,
            max_width: Extent::MaxChildExtent,
            min_height: Extent::Zero,
            max_height: Extent::ParentMaxHeight,
        }
    );
    let s = with(Axis::Vertical, MainAxisSize::Min, MainAxisAlignment::Start, CrossAxisAlignment::Center);
    assert_eq!(
        s.flex_constraints(),
        ConstraintsPlan::Bounds {
            min_width: Extent::Zero,
            max_width: Extent::ParentMaxWidth,
            min_height: Extent::MinChildExtent,
            max_height: Extent::MaxChildExtent,
        }
    );
}

#[test]
fn fills_axes() {
    let mut s = FlexSettings::builder();
    assert!(!s.fills_main_axis(false));
    assert!(s.fills_main_axis(true));
    assert!(!s.fills_cross_axis());
    s.main_axis_size = MainAxisSize::Max;
    s.cross_axis_size = CrossAxisSize::Max;
    assert!(s.fills_main_axis(false));
    assert!(s.fills_cross_axis());
}
