//! Small general-purpose containers.

pub mod rolling_window;
