//! Viewer core of Voutil: keyboard shortcuts, selection editing, image
//! navigation, folder listing, image edits and settings decisions, with
//! their contracts.

pub mod text;
pub mod keys;
pub mod shortcuts;
pub mod selection;
pub mod navigation;
pub mod settings;
pub mod naming;
pub mod commands;
pub mod library;
pub mod imaging;
pub mod accent;
pub mod sorting;
