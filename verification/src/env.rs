//! Runtime environment classification (Gamescope, Steam Deck, Wayland
//! compositors, X11) and the optimizations that follow from it.

use vstd::prelude::*;
use crate::text::{
    owned, to_lower, same_text, contains_text, starts_with_text, push_text, lower_text,
    has_sub, has_prefix, trim_text, trimmed,
};

verus! {

/// Information about Gamescope environment
#[derive(Debug, Clone, PartialEq, Eq)]
pub struct GamescopeInfo {
    /// Running on Steam Deck hardware
    pub steam_deck: bool,
    /// Gamescope display identifier
    pub display: Option<String>,
    /// Running as nested compositor (under another Wayland compositor)
    pub nested: bool,
}

/// Information about native Wayland environment
#[derive(Debug, Clone, PartialEq, Eq)]
pub struct WaylandInfo {
    /// Desktop environment/compositor name
    pub compositor: String,
    /// Wayland display socket
    pub display: Option<String>,
}

/// Detected runtime environment
#[derive(Debug, Clone, PartialEq, Eq)]
pub enum RuntimeEnvironment {
    /// Running under Gamescope compositor
    Gamescope(GamescopeInfo),
    /// Native Wayland session
    NativeWayland(WaylandInfo),
    /// X11 session (not recommended)
    X11,
    /// Unknown environment
    Unknown,
}

/// Optimizations to apply based on environment
#[derive(Debug, Clone)]
pub struct EnvironmentOptimizations {
    /// Use lower latency encode settings
    pub reduce_latency: bool,
    /// Prefer FSR-compatible resolutions
    pub fsr_compatible_res: bool,
    /// Use direct DRM capture if available (bypasses portal)
    pub prefer_drm_capture: bool,
    /// Automatically select optimal preset for hardware
    pub auto_preset: bool,
    /// Suggested encoder preset override
    pub encoder_preset_hint: Option<String>,
}

impl Default for EnvironmentOptimizations {
    fn default() -> (o: Self)
        ensures
            o.none_set(),
    {
        EnvironmentOptimizations {
            reduce_latency: false,
            fsr_compatible_res: false,
            prefer_drm_capture: false,
            auto_preset: false,
            encoder_preset_hint: None,
        }
    }
}

impl EnvironmentOptimizations {
    /// No optimization is enabled and no preset is hinted.
    pub open spec fn none_set(self) -> bool {
        !self.reduce_latency && !self.fsr_compatible_res && !self.prefer_drm_capture
            && !self.auto_preset && self.encoder_preset_hint is None
    }
}

/// Whether a lowercased compositor name is one with good low-latency capture.
pub open spec fn low_latency_compositor(l: Seq<char>) -> bool {
    l == "hyprland"@ || l == "kde"@ || l == "kwin"@ || l == "plasma"@ || l == "sway"@
}

/// The description of an environment.
pub open spec fn description_of(e: RuntimeEnvironment) -> Seq<char> {
    match e {
        RuntimeEnvironment::Gamescope(info) => if info.steam_deck {
            "Gamescope (Steam Deck)"@
        } else if info.nested {
            "Gamescope (nested)"@
        } else {
            "Gamescope"@
        },
        RuntimeEnvironment::NativeWayland(info) => "Wayland ("@ + info.compositor@ + ")"@,
        RuntimeEnvironment::X11 => "X11"@,
        RuntimeEnvironment::Unknown => "Unknown"@,
    }
}

/// Whether an already lower-cased compositor name is one with good
/// low-latency capture (GNOME and Mutter, like any other name, are not).
pub fn low_latency_from_lowered(l: &str) -> (r: bool)
    ensures
        r == low_latency_compositor(l@),
{
    if same_text(l, "hyprland") {
        true
    } else if same_text(l, "kde") || same_text(l, "kwin") || same_text(l, "plasma") {
        true
    } else if same_text(l, "sway") {
        true
    } else {
        false
    }
}

impl RuntimeEnvironment {
    /// Get optimizations for this environment
    pub fn optimizations(&self) -> (o: EnvironmentOptimizations)
        ensures
            match *self {
                RuntimeEnvironment::Gamescope(_) => {
                    &&& o.reduce_latency
                    &&& o.fsr_compatible_res
                    &&& !o.prefer_drm_capture
                    &&& o.auto_preset
                    &&& o.encoder_preset_hint matches Some(h) && h@ == "fast"@
                },
                RuntimeEnvironment::NativeWayland(info) => {
                    &&& o.reduce_latency == low_latency_compositor(lower_text(info.compositor@))
                    &&& !o.fsr_compatible_res
                    &&& !o.prefer_drm_capture
                    &&& !o.auto_preset
                    &&& o.encoder_preset_hint is None
                },
                _ => o.none_set(),
            },
    {
        match self {
            RuntimeEnvironment::Gamescope(_) => EnvironmentOptimizations {
                reduce_latency: true,
                fsr_compatible_res: true,
                prefer_drm_capture: false,
                auto_preset: true,
                encoder_preset_hint: Some(owned("fast")),
            },
            RuntimeEnvironment::NativeWayland(info) => {
                let mut opts = EnvironmentOptimizations::default();
                opts.reduce_latency = low_latency_from_lowered(
                    to_lower(info.compositor.as_str()).as_str(),
                );
                opts
            },
            _ => EnvironmentOptimizations::default(),
        }
    }

    /// Check if running under Gamescope
    pub fn is_gamescope(&self) -> (r: bool)
        ensures
            r == (*self is Gamescope),
    {
        match self {
            RuntimeEnvironment::Gamescope(_) => true,
            _ => false,
        }
    }

    /// Check if running on Steam Deck: under Gamescope the detected flag
    /// decides, elsewhere the result of probing the hardware.
    pub fn is_steam_deck(&self, steam_deck_hardware: bool) -> (r: bool)
        ensures
            r == match *self {
                RuntimeEnvironment::Gamescope(info) => info.steam_deck,
                _ => steam_deck_hardware,
            },
    {
        match self {
            RuntimeEnvironment::Gamescope(info) => info.steam_deck,
            _ => steam_deck_hardware,
        }
    }

    /// Get a human-readable description
    pub fn description(&self) -> (r: String)
        ensures
            r@ == description_of(*self),
    {
        match self {
            RuntimeEnvironment::Gamescope(info) => {
                if info.steam_deck {
                    owned("Gamescope (Steam Deck)")
                } else if info.nested {
                    owned("Gamescope (nested)")
                } else {
                    owned("Gamescope")
                }
            },
            RuntimeEnvironment::NativeWayland(info) => {
                let mut r = owned("Wayland (");
                push_text(&mut r, info.compositor.as_str());
                push_text(&mut r, ")");
                r
            },
            RuntimeEnvironment::X11 => owned("X11"),
            RuntimeEnvironment::Unknown => owned("Unknown"),
        }
    }
}

/// The environment variables (and process probes) that classification reads.
/// A variable is `Some` when it is set to valid Unicode.
#[derive(Debug, Clone)]
pub struct EnvSnapshot {
    pub gamescope_wayland_display: Option<String>,
    pub steam_gamepad_ui: Option<String>,
    pub steam_deck: Option<String>,
    pub wayland_display: Option<String>,
    pub display: Option<String>,
    pub xdg_session_type: Option<String>,
    pub xdg_current_desktop: Option<String>,
    pub xdg_session_desktop: Option<String>,
    pub desktop_session: Option<String>,
    pub hyprland_instance_signature: Option<String>,
    pub swaysock: Option<String>,
    pub i3sock: Option<String>,
    /// Result of probing the hardware for a Steam Deck
    pub steam_deck_hardware: bool,
    /// Whether a process named `gamescope` is running
    pub gamescope_running: bool,
}

/// The compositor name that an already lower-cased desktop name is
/// recognised as, if any.
pub open spec fn compositor_of_lower(l: Seq<char>) -> Option<Seq<char>> {
    if has_sub(l, "hyprland"@) {
        Some("Hyprland"@)
    } else if has_sub(l, "kde"@) || has_sub(l, "plasma"@) {
        Some("KDE Plasma"@)
    } else if has_sub(l, "gnome"@) {
        Some("GNOME"@)
    } else if has_sub(l, "sway"@) {
        Some("Sway"@)
    } else if has_sub(l, "wlroots"@) {
        Some("wlroots"@)
    } else if has_sub(l, "cosmic"@) {
        Some("COSMIC"@)
    } else {
        None
    }
}

/// The compositor name that a desktop name (from XDG_CURRENT_DESKTOP) stands
/// for: the recognised name, or the desktop name itself.
pub open spec fn compositor_from_desktop(d: Seq<char>) -> Seq<char> {
    match compositor_of_lower(lower_text(d)) {
        Some(c) => c,
        None => d,
    }
}

/// The compositor name detected from the environment.
pub open spec fn compositor_of(env: EnvSnapshot) -> Seq<char> {
    match env.xdg_current_desktop {
        Some(d) => compositor_from_desktop(d@),
        None => match env.xdg_session_desktop {
            Some(s) => s@,
            None => match env.desktop_session {
                Some(s) => s@,
                None => if env.hyprland_instance_signature is Some {
                    "Hyprland"@
                } else if env.swaysock is Some {
                    "Sway"@
                } else if env.i3sock is Some {
                    "i3"@
                } else {
                    "Unknown"@
                },
            },
        },
    }
}

/// The Wayland display belongs to Gamescope.
pub open spec fn is_gamescope_display(env: EnvSnapshot) -> bool {
    env.wayland_display matches Some(d) && has_prefix(d@, "gamescope"@)
}

/// Gamescope announces itself through the environment.
pub open spec fn has_gamescope_env(env: EnvSnapshot) -> bool {
    env.gamescope_wayland_display is Some || env.steam_gamepad_ui is Some || is_gamescope_display(
        env,
    ) || env.steam_deck is Some
}

/// The session is a Wayland session.
pub open spec fn is_wayland_session(env: EnvSnapshot) -> bool {
    (env.xdg_session_type matches Some(t) && t@ == "wayland"@) || env.wayland_display is Some
}

/// `o` holds the same text as `x`.
pub open spec fn same_opt(o: Option<String>, x: Option<String>) -> bool {
    match (o, x) {
        (Some(a), Some(b)) => a@ == b@,
        (None, None) => true,
        _ => false,
    }
}

/// The environment that classification reports.
pub open spec fn classified(env: EnvSnapshot, r: RuntimeEnvironment) -> bool {
    if has_gamescope_env(env) {
        r matches RuntimeEnvironment::Gamescope(info) && info.steam_deck == (env.steam_deck_hardware
            || env.steam_deck is Some) && same_opt(
            info.display,
            if env.gamescope_wayland_display is Some {
                env.gamescope_wayland_display
            } else {
                env.wayland_display
            },
        ) && info.nested == (env.wayland_display is Some && !is_gamescope_display(env))
    } else if env.gamescope_running {
        r matches RuntimeEnvironment::Gamescope(info) && info.steam_deck == env.steam_deck_hardware
            && same_opt(info.display, env.wayland_display) && info.nested
    } else if is_wayland_session(env) {
        r matches RuntimeEnvironment::NativeWayland(info) && info.compositor@ == compositor_of(env)
            && same_opt(info.display, env.wayland_display)
    } else if env.display is Some {
        r == RuntimeEnvironment::X11
    } else {
        r == RuntimeEnvironment::Unknown
    }
}

fn copy_opt(o: &Option<String>) -> (r: Option<String>)
    ensures
        same_opt(r, *o),
{
    match o {
        Some(s) => Some(owned(s.as_str())),
        None => None,
    }
}

/// The compositor name that an already lower-cased desktop name is
/// recognised as, if any.
pub fn compositor_from_lowered(l: &str) -> (r: Option<String>)
    ensures
        match compositor_of_lower(l@) {
            Some(c) => r matches Some(x) && x@ == c,
            None => r is None,
        },
{
    if contains_text(l, "hyprland") {
        Some(owned("Hyprland"))
    } else if contains_text(l, "kde") || contains_text(l, "plasma") {
        Some(owned("KDE Plasma"))
    } else if contains_text(l, "gnome") {
        Some(owned("GNOME"))
    } else if contains_text(l, "sway") {
        Some(owned("Sway"))
    } else if contains_text(l, "wlroots") {
        Some(owned("wlroots"))
    } else if contains_text(l, "cosmic") {
        Some(owned("COSMIC"))
    } else {
        None
    }
}

/// The compositor name that a desktop name stands for.
pub fn compositor_from_desktop_name(desktop: &str) -> (r: String)
    ensures
        r@ == compositor_from_desktop(desktop@),
{
    match compositor_from_lowered(to_lower(desktop).as_str()) {
        Some(c) => c,
        None => owned(desktop),
    }
}

/// Detect the Wayland compositor from the environment.
pub fn detect_compositor(env: &EnvSnapshot) -> (r: String)
    ensures
        r@ == compositor_of(*env),
{
    if let Some(d) = &env.xdg_current_desktop {
        return compositor_from_desktop_name(d.as_str());
    }
    if let Some(s) = &env.xdg_session_desktop {
        return owned(s.as_str());
    }
    if let Some(s) = &env.desktop_session {
        return owned(s.as_str());
    }
    if env.hyprland_instance_signature.is_some() {
        return owned("Hyprland");
    }
    if env.swaysock.is_some() {
        return owned("Sway");
    }
    if env.i3sock.is_some() {
        return owned("i3");
    }
    owned("Unknown")
}

/// Classify the runtime environment: Gamescope first, then Wayland, then X11.
pub fn classify_environment(env: &EnvSnapshot) -> (r: RuntimeEnvironment)
    ensures
        classified(*env, r),
{
    let is_gs_display = match &env.wayland_display {
        Some(d) => starts_with_text(d.as_str(), "gamescope"),
        None => false,
    };
    let has_env = env.gamescope_wayland_display.is_some() || env.steam_gamepad_ui.is_some()
        || is_gs_display || env.steam_deck.is_some();
    if has_env {
        let steam_deck = env.steam_deck_hardware || env.steam_deck.is_some();
        let nested = env.wayland_display.is_some() && !is_gs_display;
        let display = if env.gamescope_wayland_display.is_some() {
            copy_opt(&env.gamescope_wayland_display)
        } else {
            copy_opt(&env.wayland_display)
        };
        return RuntimeEnvironment::Gamescope(GamescopeInfo { steam_deck, display, nested });
    }
    if env.gamescope_running {
        return RuntimeEnvironment::Gamescope(
            GamescopeInfo {
                steam_deck: env.steam_deck_hardware,
                display: copy_opt(&env.wayland_display),
                nested: true,
            },
        );
    }
    let wayland_session = match &env.xdg_session_type {
        Some(t) => same_text(t.as_str(), "wayland"),
        None => false,
    };
    if wayland_session || env.wayland_display.is_some() {
        let compositor = detect_compositor(env);
        return RuntimeEnvironment::NativeWayland(
            WaylandInfo { compositor, display: copy_opt(&env.wayland_display) },
        );
    }
    if env.display.is_some() {
        return RuntimeEnvironment::X11;
    }
    RuntimeEnvironment::Unknown
}

/// Whether probes of the system show Steam Deck hardware: the OS release
/// names SteamOS, the DMI product name is a Deck board, or the Deck's card
/// device exists.
pub open spec fn steam_deck_probe(
    os_release: Option<String>,
    product_name: Option<String>,
    deck_card: bool,
) -> bool {
    (os_release matches Some(c) && has_sub(lower_text(c@), "steamos"@)) || (
    product_name matches Some(p) && (has_sub(lower_text(trimmed(p@)), "jupiter"@) || has_sub(
        lower_text(trimmed(p@)),
        "galileo"@,
    ))) || deck_card
}

/// Decide whether the hardware is a Steam Deck from the contents of
/// `/etc/os-release`, the DMI product name file, and whether `/dev/deck_card` exists.
pub fn steam_deck_from_probe(
    os_release: &Option<String>,
    product_name: &Option<String>,
    deck_card: bool,
) -> (r: bool)
    ensures
        r == steam_deck_probe(*os_release, *product_name, deck_card),
{
    if let Some(content) = os_release {
        let l = to_lower(content.as_str());
        if contains_text(l.as_str(), "steamos") {
            return true;
        }
    }
    if let Some(product) = product_name {
        let t = trim_text(product.as_str());
        let l = to_lower(t.as_str());
        if contains_text(l.as_str(), "jupiter") || contains_text(l.as_str(), "galileo") {
            return true;
        }
    }
    deck_card
}

} // verus!
