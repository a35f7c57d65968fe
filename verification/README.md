# frui_flex

The decisions of a flex layout (rows and columns), verified with Verus:

- `src/axis.rs`: axes and the components along and across them.
- `src/flex.rs`: the settings of a flex and what they decide: where children
  start, how the main axis is divided, which constraints children get.
- `src/children.rs`: which children are flexible, the order in which they are
  laid out and the flex left to share at each turn.
- `src/widget_kind.rs`: the trait that implements a widget's raw interface.

`app/` holds the floating-point arithmetic that evaluates these decisions and
the token building of the widget macro.
