//! Application commands of a modal terminal text editor: switching between
//! modes, driving the search-select modes, and resolving view colors.
pub mod application;
pub mod buffer;
pub mod commands;
pub mod documentation;
pub mod errors;
pub mod input;
pub mod laws;
pub mod modes;
pub mod text;
pub mod tokens;
pub mod util;
pub mod view;
pub mod workspace;
