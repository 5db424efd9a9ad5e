//! Verified core of the PinkDown Markdown editor: update checks, updater
//! scripts, browser discovery for PDF export, settings locations, the theme
//! data and the editor's unsaved-changes workflow.

pub mod dialog;
pub mod editor;
pub mod export;
pub mod platform;
pub mod settings;
pub mod text;
pub mod theme;
pub mod update;
pub mod window;
