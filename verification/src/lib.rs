pub mod axis;
pub mod children;
pub mod flex;
pub mod widget_kind;
