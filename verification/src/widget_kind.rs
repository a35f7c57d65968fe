use vstd::prelude::*;

verus! {

/// The kind of a widget, which decides the trait through which a widget's
/// raw interface is implemented.
#[derive(Debug, Clone, Copy, PartialEq, Eq, Structural)]
pub enum WidgetKind {
    View,
    Inherited,
    Render,
}

/// The name of the trait, among the exported ones, that implements the raw
/// interface of a widget of the given kind.
pub open spec fn os_trait_of(kind: WidgetKind) -> Seq<char> {
    match kind {
        WidgetKind::View => "ViewWidgetOS"@,
        WidgetKind::Inherited => "InheritedWidgetOS"@,
        WidgetKind::Render => "RenderWidgetOS"@,
    }
}

/// The name of the trait that implements the raw interface of a widget of
/// the given kind.
pub fn kind_to_os(kind: WidgetKind) -> (r: &'static str)
    ensures
        r@ == os_trait_of(kind),
{
    match kind {
        WidgetKind::View => "ViewWidgetOS",
        WidgetKind::Inherited => "InheritedWidgetOS",
        WidgetKind::Render => "RenderWidgetOS",
    }
}

} // verus!
