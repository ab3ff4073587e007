use vstd::prelude::*;

verus! {

/// The platform the overlay window is created on.
#[derive(Debug, Clone, Copy, PartialEq, Eq, Structural)]
pub enum Platform {
    Linux,
    MacOs,
    Windows,
    Other,
}

/// How the overlay window must be opened: the platform-independent overlay
/// flags, and the per-platform window-manager workarounds, decided once at
/// creation rather than scattered through the loop.
#[derive(Debug, Clone, Copy, PartialEq, Eq, Structural)]
pub struct OverlayWindowConfig {
    /// The window is a pure drawing surface: an alpha channel is required.
    pub transparent: bool,
    /// No title bar or border.
    pub decorations: bool,
    /// The overlay must stay above every other window.
    pub always_on_top: bool,
    /// Bypass the window manager entirely (X11 override-redirect).
    pub override_redirect: bool,
    /// Mark the window as a utility so it stays out of window switchers.
    pub utility_type_hint: bool,
    /// Focus must be forced onto the window after creation: the window
    /// manager will not naturally focus an override-redirect window.
    pub force_input_focus: bool,
    /// The compositor's window shadow must be suppressed.
    pub suppress_shadow: bool,
}

/// The expected configuration per platform: the overlay flags are the same
/// everywhere; X11 needs override-redirect, a utility type hint and forced
/// focus; macOS needs its shadow suppressed; elsewhere no workaround.
pub open spec fn spec_overlay_window_config(platform: Platform) -> OverlayWindowConfig {
    OverlayWindowConfig {
        transparent: true,
        decorations: false,
        always_on_top: true,
        override_redirect: platform is Linux,
        utility_type_hint: platform is Linux,
        force_input_focus: platform is Linux,
        suppress_shadow: platform is MacOs,
    }
}

/// Decide, once, how to open the overlay window on the given platform.
pub fn overlay_window_config(platform: Platform) -> (c: OverlayWindowConfig)
    ensures
        c == spec_overlay_window_config(platform),
{
    OverlayWindowConfig {
        transparent: true,
        decorations: false,
        always_on_top: true,
        override_redirect: matches!(platform, Platform::Linux),
        utility_type_hint: matches!(platform, Platform::Linux),
        force_input_focus: matches!(platform, Platform::Linux),
        suppress_shadow: matches!(platform, Platform::MacOs),
    }
}

/// On every platform the window is transparent, undecorated and always on
/// top, and focus is forced exactly where the window manager is bypassed.
pub proof fn lemma_overlay_flags_invariant(platform: Platform)
    ensures
        spec_overlay_window_config(platform).transparent,
        !spec_overlay_window_config(platform).decorations,
        spec_overlay_window_config(platform).always_on_top,
        spec_overlay_window_config(platform).force_input_focus == spec_overlay_window_config(
            platform,
        ).override_redirect,
{
}

} // verus!
