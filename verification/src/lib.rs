//! A terminal music library: scans a directory tree for audio tracks, keeps
//! the flat track collection and the derived artist set, and drives the
//! keyboard navigation over them (tabs, selection cursors, staged playback).

pub mod cursor;
pub mod nav;
pub mod scan;
pub mod tabs;
pub mod track;

pub use cursor::Cursor;
pub use nav::App;
pub use nav::AppData;
pub use nav::AppStates;
pub use scan::ScanEntry;
pub use scan::ScanError;
pub use tabs::TabState;
pub use track::Audio;
pub use track::Tag;
