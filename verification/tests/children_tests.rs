use frui_flex::children::{
    fit_loose, fit_tight, get_fit, get_flex, is_flex, plan_flexible, plan_inflexible,
    total_flex_count, FlexData, FlexFit, FlexStep,
};

fn flex(flex_factor: usize, fit: FlexFit) -> Option<FlexData> {
    Some(FlexData { flex_factor, fit })
}

#[test]
fn child_accessors() {
    let none: Option<FlexData> = None;
    assert_eq!(get_flex(&none), None);
    assert_eq!(get_fit(&none), None);
    assert!(!is_flex(&none));
    let zero = flex(0, FlexFit::Tight);
    assert_eq!(get_flex(&zero), Some(0));
    assert!(!is_flex(&zero));
    let two = flex(2, FlexFit::Loose);
    assert_eq!(get_flex(&two), Some(2));
    assert_eq!(get_fit(&two), Some(FlexFit::Loose));
    assert!(is_flex(&two));
    assert!(fit_loose(&two));
    assert!(!fit_tight(&two));
    assert!(fit_tight(&zero));
}

#[test]
fn total_flex_sums_or_overflows() {
    assert_eq!(total_flex_count(&vec![]), Some(0));
    let v = vec![flex(1, FlexFit::Tight), None, flex(2, FlexFit::Loose), flex(0, FlexFit::Loose)];
    assert_eq!(total_flex_count(&v), Some(3));
    let big = vec![flex(usize::MAX, FlexFit::Tight), flex(1, FlexFit::Loose)];
    assert_eq!(total_flex_count(&big), None);
    let edge = vec![flex(usize::MAX - 1, FlexFit::Tight), flex(1, FlexFit::Loose)];
    assert_eq!(total_flex_count(&edge), Some(usize::MAX));
}

#[test]
fn inflexible_children_in_order() {
    let v = vec![flex(1, FlexFit::Tight), None, flex(2, FlexFit::Loose), flex(0, FlexFit::Loose), None];
    let plan = plan_inflexible(&v);
    assert_eq!(plan.flex_count, 3);
    assert_eq!(plan.inflexible, vec![1, 3, 4]);
}

#[test]
fn flexible_children_loose_first_with_remaining_flex() {
    let v = vec![
        flex(1, FlexFit::Tight),
        None,
        flex(2, FlexFit::Loose),
        flex(3, FlexFit::Tight),
        flex(4, FlexFit::Loose),
    ];
    let plan = plan_inflexible(&v);
    assert_eq!(plan.flex_count, 10);
    let steps = plan_flexible(&v, plan.flex_count);
    assert_eq!(
        steps,
        vec![
            FlexStep { index: 2, flex: 2, tight: false, remaining_flex: 10 },
            FlexStep { index: 4, flex: 4, tight: false, remaining_flex: 8 },
            FlexStep { index: 0, flex: 1, tight: true, remaining_flex: 4 },
            FlexStep { index: 3, flex: 3, tight: true, remaining_flex: 3 },
        ]
    );
    let last = steps[steps.len() - 1];
    assert_eq!(last.remaining_flex - last.flex, 0);
}

#[test]
fn every_child_laid_out_once() {
    let v = vec![None, flex(1, FlexFit::Loose), flex(0, FlexFit::Tight), flex(5, FlexFit::Tight), None];
    let plan = plan_inflexible(&v);
    let steps = plan_flexible(&v, plan.flex_count);
    let mut seen = vec![0; v.len()];
    for i in plan.inflexible.iter() {
        seen[*i] += 1;
    }
    for s in steps.iter() {
        seen[s.index] += 1;
    }
    assert_eq!(seen, vec![1, 1, 1, 1, 1]);
}

#[test]
fn no_flexible_children() {
    let v = vec![None, flex(0, FlexFit::Loose)];
    let plan = plan_inflexible(&v);
    assert_eq!(plan.flex_count, 0);
    assert_eq!(plan.inflexible, vec![0, 1]);
    assert!(plan_flexible(&v, 0).is_empty());
}
