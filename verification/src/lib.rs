//! Verified decision logic of the MotsDits desktop shell: which platform
//! behaviours apply, how the main window is configured and recovered, how
//! WebView profile backups are named and pruned, and what the recording
//! overlay shows.

pub mod overlay;
pub mod platform;
pub mod startup;
pub mod text;
pub mod webview_profile;
