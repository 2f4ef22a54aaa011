//! The core of a launcher for handheld game consoles (the Miyoo Mini): geometry, colours and
//! images, buttons and input widgets, the state and layout of the interface's views, the
//! battery, and the device's framebuffer, which is mounted upside down.

pub mod color;
pub mod geom;
pub mod hardware;
pub mod battery;
pub mod text;
pub mod text_style;
pub mod input;
pub mod selection;
pub mod list;
pub mod stylesheet;
pub mod carousel_list;
pub mod dynamic_scroll_list;
pub mod bitmap;
pub mod compose;
pub mod framebuffer;
pub mod stamp;
pub mod locale;
pub mod command;
pub mod toggle;
pub mod color_picker;
pub mod select;
pub mod datetime;
pub mod keyboard;
pub mod battery_icon;
pub mod battery_indicator;
pub mod button_icon;
pub mod button_hint;
pub mod status_bar;
pub mod platform;
pub mod game_info;
pub mod say;
pub mod screenshot_viewer;
pub mod widgets;
pub mod image;
pub mod label;
pub mod volume;
pub mod display_settings;
pub mod wifi_indicator;
pub mod keyboard_layout;
pub mod color_picker_layout;
