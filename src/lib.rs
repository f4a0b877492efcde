//! Style resolution for a small set of styled UI widgets: a palette
//! registry, a shade deriver, a style composer and a class name builder,
//! plus the state logic of the button and textarea widgets.
pub mod button;
pub mod class_name;
pub mod color;
pub mod colors;
pub mod component;
pub mod compose;
pub mod form_textarea;
pub mod styles;
