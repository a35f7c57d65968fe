use frui_flex::widget_kind::{kind_to_os, WidgetKind};

#[test]
fn each_kind_names_its_trait() {
    assert_eq!(kind_to_os(WidgetKind::View), "ViewWidgetOS");
    assert_eq!(kind_to_os(WidgetKind::Inherited), "InheritedWidgetOS");
    assert_eq!(kind_to_os(WidgetKind::Render), "RenderWidgetOS");
}
