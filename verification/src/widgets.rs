//! The focus state of the application's widgets.

pub mod button;
pub mod column;
