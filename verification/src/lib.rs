pub mod config;
pub mod control_type;
pub mod driver;
pub mod interval;
pub mod joystick;
pub mod keyed;
pub mod lists;
pub mod mapping;
pub mod midi;
pub mod mouse;
pub mod schemas;
pub mod text;
pub mod widen;
