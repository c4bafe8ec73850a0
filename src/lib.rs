//! Rendering core of a terminal system-summary tool: a catalog of
//! distribution logos, the transforms that size and style a logo, the
//! formatter that turns labelled facts into coloured lines, and the
//! compositor that sets the logo and the fact lines side by side.

pub mod color;
pub mod config;
pub mod distro_logo;
pub mod format;
pub mod laws;
pub mod layout;
pub mod logo_art;
pub mod output;
pub mod system_info;
pub mod text;
