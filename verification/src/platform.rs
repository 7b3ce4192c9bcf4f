//! Platform-dependent decisions of the application shell.
//!
//! The operating system is a plain value handed in by the caller, so every
//! decision here is a function of its arguments.
use vstd::prelude::*;

verus! {

/// Operating systems the application distinguishes between.
#[derive(Clone, Copy, Debug, PartialEq, Eq, Structural)]
pub enum Platform {
    Linux,
    MacOs,
    Windows,
    Other,
}

/// The native (GTK) settings UI and overlay replace the webview on Linux only.
pub open spec fn spec_uses_native_settings_ui(platform: Platform) -> bool {
    platform == Platform::Linux
}

/// Whether the native settings UI is used on `platform`.
pub fn uses_native_settings_ui(platform: Platform) -> (native: bool)
    ensures
        native == spec_uses_native_settings_ui(platform),
{
    platform == Platform::Linux
}

/// The initial webview is shown unless the native UI replaces it, or the app
/// starts hidden into an available tray without being forced visible.
pub open spec fn spec_should_show_initial_webview(
    platform: Platform,
    should_force_show: bool,
    should_hide: bool,
    tray_available: bool,
) -> bool {
    !spec_uses_native_settings_ui(platform) && (should_force_show || !should_hide
        || !tray_available)
}

/// Whether the main webview window is made visible at start-up.
pub fn should_show_initial_webview(
    platform: Platform,
    should_force_show: bool,
    should_hide: bool,
    tray_available: bool,
) -> (show: bool)
    ensures
        show == spec_should_show_initial_webview(
            platform,
            should_force_show,
            should_hide,
            tray_available,
        ),
{
    !uses_native_settings_ui(platform) && (should_force_show || !should_hide || !tray_available)
}

/// Whether input simulation and global shortcuts are set up without a
/// frontend (done on Linux, where no webview frontend runs).
pub fn initializes_frontendless_components(platform: Platform) -> (init: bool)
    ensures
        init <==> platform == Platform::Linux,
{
    platform == Platform::Linux
}

/// The main window is forced visible for onboarding on Windows when a model
/// is already downloaded but microphone access is reported and denied.
pub open spec fn spec_should_force_show_permissions_window(
    platform: Platform,
    has_downloaded_models: bool,
    microphone_status_supported: bool,
    microphone_access_denied: bool,
) -> bool {
    &&& platform == Platform::Windows
    &&& has_downloaded_models
    &&& microphone_status_supported
    &&& microphone_access_denied
}

/// Whether the main window must be shown so that the user can grant
/// microphone permission.
pub fn should_force_show_permissions_window(
    platform: Platform,
    has_downloaded_models: bool,
    microphone_status_supported: bool,
    microphone_access_denied: bool,
) -> (force: bool)
    ensures
        force == spec_should_force_show_permissions_window(
            platform,
            has_downloaded_models,
            microphone_status_supported,
            microphone_access_denied,
        ),
{
    if platform != Platform::Windows {
        return false;
    }
    if !has_downloaded_models {
        return false;
    }
    microphone_status_supported && microphone_access_denied
}

/// Whether a hidden start switches the macOS activation policy to
/// "accessory" (no dock icon): only when the tray icon is shown.
pub fn start_hidden_uses_accessory_policy(
    platform: Platform,
    start_hidden: bool,
    show_tray_icon: bool,
) -> (accessory: bool)
    ensures
        accessory <==> platform == Platform::MacOs && start_hidden && show_tray_icon,
{
    platform == Platform::MacOs && start_hidden && show_tray_icon
}

/// Whether hiding the main window switches the macOS activation policy to
/// "accessory": only while the tray icon is visible.
pub fn hidden_window_uses_accessory_policy(
    platform: Platform,
    show_tray_icon: bool,
    no_tray: bool,
) -> (accessory: bool)
    ensures
        accessory <==> platform == Platform::MacOs && show_tray_icon && !no_tray,
{
    platform == Platform::MacOs && show_tray_icon && !no_tray
}

/// Whether a run event brings the main window back: a macOS "reopen"
/// (dock icon click).
pub fn reopen_shows_main_window(platform: Platform, is_reopen_event: bool) -> (show: bool)
    ensures
        show <==> platform == Platform::MacOs && is_reopen_event,
{
    platform == Platform::MacOs && is_reopen_event
}

/// Whether showing the main window also restores the regular macOS
/// activation policy (dock icon back).
pub fn showing_window_restores_regular_policy(platform: Platform) -> (regular: bool)
    ensures
        regular <==> platform == Platform::MacOs,
{
    platform == Platform::MacOs
}

/// Law: when the native settings UI is in use, the initial webview is never shown.
pub proof fn native_settings_ui_keeps_webview_hidden(
    platform: Platform,
    should_force_show: bool,
    should_hide: bool,
    tray_available: bool,
)
    requires
        spec_uses_native_settings_ui(platform),
    ensures
        !spec_should_show_initial_webview(platform, should_force_show, should_hide, tray_available),
{
}

/// Law: off Linux, a forced start, a non-hidden start, or a missing tray
/// always shows the initial webview.
pub proof fn webview_shown_when_forced_or_not_hidden(
    platform: Platform,
    should_force_show: bool,
    should_hide: bool,
    tray_available: bool,
)
    requires
        !spec_uses_native_settings_ui(platform),
        should_force_show || !should_hide || !tray_available,
    ensures
        spec_should_show_initial_webview(platform, should_force_show, should_hide, tray_available),
{
}

/// Law: the permissions window is forced only on Windows, only once a model
/// is downloaded, and only when microphone access is reported and denied;
/// all four together do force it.
pub proof fn permissions_window_needs_denied_microphone(
    platform: Platform,
    has_downloaded_models: bool,
    microphone_status_supported: bool,
    microphone_access_denied: bool,
)
    ensures
        spec_should_force_show_permissions_window(
            platform,
            has_downloaded_models,
            microphone_status_supported,
            microphone_access_denied,
        ) <==> (platform == Platform::Windows && has_downloaded_models
            && microphone_status_supported && microphone_access_denied),
{
}

/// Law: forcing the webview visible never hides it, and neither does
/// starting non-hidden or losing the tray: showing is monotone in each.
pub proof fn initial_webview_monotone(
    platform: Platform,
    should_force_show: bool,
    should_hide: bool,
    tray_available: bool,
)
    ensures
        spec_should_show_initial_webview(platform, should_force_show, should_hide, tray_available)
            ==> spec_should_show_initial_webview(platform, true, should_hide, tray_available),
        spec_should_show_initial_webview(platform, should_force_show, should_hide, tray_available)
            ==> spec_should_show_initial_webview(platform, should_force_show, false, tray_available),
        spec_should_show_initial_webview(platform, should_force_show, should_hide, tray_available)
            ==> spec_should_show_initial_webview(platform, should_force_show, should_hide, false),
        !spec_should_show_initial_webview(platform, should_force_show, should_hide, tray_available)
            ==> (platform == Platform::Linux || (!should_force_show && should_hide
            && tray_available)),
{
}

} // verus!
