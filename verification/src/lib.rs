//! Parsing of user theme stylesheets: colours, fonts and CSS custom properties.

pub mod text;
pub mod css;
pub mod color;
pub mod font;
pub mod theme;
pub mod overrides;
pub mod laws;
pub mod table_laws;
