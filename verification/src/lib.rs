//! Verified core of Orbom, a screen image search tool: selection geometry, the capture crop,
//! icon resources, UI strings and the image hand-off to the search page.

pub mod art;
pub mod bytes;
pub mod capture;
pub mod geometry;
pub mod i18n;
pub mod overlay;
pub mod panel;
pub mod search;
pub mod selection;
pub mod settings;
pub mod setup;
pub mod text;
