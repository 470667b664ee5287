use vstd::prelude::*;

verus! {

/// Label of the splash window created during startup.
pub const SPLASH_LABEL: &'static str = "splashscreen";

/// Label of the main window, declared (hidden) in the application's configuration.
pub const MAIN_LABEL: &'static str = "main";

/// Asset loaded into the splash webview.
pub const SPLASH_URL: &'static str = "/splashscreen.html";

/// Title of the splash window.
pub const SPLASH_TITLE: &'static str = "Splash";

/// Width of the splash window, in logical pixels.
pub const SPLASH_WIDTH: u32 = 1200;

/// Height of the splash window, in logical pixels.
pub const SPLASH_HEIGHT: u32 = 800;

/// Seconds to wait after startup before the main window is revealed.
pub const REVEAL_DELAY_SECS: u64 = 2;

/// Everything needed to build the splash window.
#[derive(Clone, Copy, Debug)]
pub struct SplashWindow {
    pub label: &'static str,
    pub url: &'static str,
    pub title: &'static str,
    pub decorations: bool,
    pub centered: bool,
    pub focused: bool,
    pub always_on_top: bool,
    pub width: u32,
    pub height: u32,
}

/// The splash window's fixed appearance: undecorated, centred, focused,
/// always on top, 1200 by 800.
pub open spec fn is_splash_layout(w: SplashWindow) -> bool {
    &&& w.label@ == SPLASH_LABEL@
    &&& w.url@ == SPLASH_URL@
    &&& w.title@ == SPLASH_TITLE@
    &&& !w.decorations
    &&& w.centered
    &&& w.focused
    &&& w.always_on_top
    &&& w.width == 1200
    &&& w.height == 800
}

/// The description of the splash window that startup builds.
pub fn splash_window() -> (w: SplashWindow)
    ensures
        is_splash_layout(w),
{
    SplashWindow {
        label: SPLASH_LABEL,
        url: SPLASH_URL,
        title: SPLASH_TITLE,
        decorations: false,
        centered: true,
        focused: true,
        always_on_top: true,
        width: SPLASH_WIDTH,
        height: SPLASH_HEIGHT,
    }
}

} // verus!
