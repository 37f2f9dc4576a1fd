//! The front end's user settings.
use vstd::prelude::*;

verus! {

/// The four display shades, lightest first, as 0x00RRGGBB.
#[derive(Clone, Copy, Debug)]
pub enum Palette {
    Grayscale,
    GrayscaleDark,
    Green,
    Custom([u32; 4]),
}

impl Default for Palette {
    fn default() -> (r: Self)
        ensures
            r == Palette::Grayscale,
    {
        Palette::Grayscale
    }
}

impl Palette {
    pub open spec fn map_spec(self) -> Seq<u32> {
        match self {
            Palette::Grayscale => seq![0x00ffffff, 0x00aaaaaa, 0x00555555, 0x00000000],
            Palette::GrayscaleDark => seq![0x00000000, 0x00555555, 0x00aaaaaa, 0x00ffffff],
            Palette::Green => seq![0x00e0f8d0, 0x0088c070, 0x00346856, 0x00081820],
            Palette::Custom(x) => x@,
        }
    }

    pub fn get_map(&self) -> (r: [u32; 4])
        ensures
            r@ == self.map_spec(),
    {
        let r = match self {
            Palette::Grayscale => [0x00ffffff, 0x00aaaaaa, 0x00555555, 0x00000000],
            Palette::GrayscaleDark => [0x00000000, 0x00555555, 0x00aaaaaa, 0x00ffffff],
            Palette::Green => [0x00e0f8d0, 0x0088c070, 0x00346856, 0x00081820],
            Palette::Custom(x) => *x,
        };
        assert(r@ =~= self.map_spec());
        r
    }

    pub open spec fn name_spec(self) -> Seq<char> {
        match self {
            Palette::Grayscale => "Grayscale"@,
            Palette::GrayscaleDark => "Grayscale (Dark)"@,
            Palette::Green => "Green"@,
            Palette::Custom(_) => "Custom"@,
        }
    }

    pub fn get_name(&self) -> (r: &'static str)
        ensures
            r@ == self.name_spec(),
    {
        match self {
            Palette::Grayscale => "Grayscale",
            Palette::GrayscaleDark => "Grayscale (Dark)",
            Palette::Green => "Green",
            Palette::Custom(_) => "Custom",
        }
    }

    /// Whether overlay text should be white: only on the dark grayscale
    /// palette (custom palettes count as light).
    pub fn is_dark(&self) -> (r: bool)
        ensures
            r == (*self == Palette::GrayscaleDark),
    {
        match self {
            Palette::Grayscale => false,
            Palette::GrayscaleDark => true,
            Palette::Green => false,
            Palette::Custom(_) => false,
        }
    }
}

#[derive(Clone, Copy, PartialEq, Eq, Debug, Structural)]
pub enum FramerateLimit {
    VSync,
    Limit(u32),
    Unlimited,
}

impl Default for FramerateLimit {
    fn default() -> (r: Self)
        ensures
            r == FramerateLimit::VSync,
    {
        FramerateLimit::VSync
    }
}

#[derive(Clone, Copy, PartialEq, Eq, Debug, Structural)]
pub enum WindowScale {
    Scale(u32),
    Maximized,
    Fullscreen,
}

impl Default for WindowScale {
    fn default() -> (r: Self)
        ensures
            r == WindowScale::Scale(2),
    {
        WindowScale::Scale(2)
    }
}

impl WindowScale {
    /// The scale factor, or 2 when the window is maximized or full screen.
    pub fn scale_or_default(&self) -> (r: u32)
        ensures
            r == (match *self {
                WindowScale::Scale(s) => s,
                _ => 2,
            }),
    {
        if let WindowScale::Scale(scale) = *self {
            scale
        } else {
            2
        }
    }
}

/// An RGBA color.
#[derive(Clone, Copy, PartialEq, Eq, Debug, Structural)]
pub struct Rgba {
    pub r: u8,
    pub g: u8,
    pub b: u8,
    pub a: u8,
}

pub open spec fn rgba(r: u8, g: u8, b: u8, a: u8) -> Rgba {
    Rgba { r, g, b, a }
}

/// The colors of the menu user interface.
#[derive(Clone, Copy, PartialEq, Eq, Debug, Structural)]
pub struct ThemeColors {
    /// Most text.
    pub text: Rgba,
    /// The "Paused" text and the menu path.
    pub text_faded: Rgba,
    /// The menu background.
    pub background: Rgba,
    /// The selected menu item's background and the bottom panel.
    pub caret: Rgba,
    /// Text on the caret.
    pub caret_text_color: Rgba,
    /// The selected menu item's border.
    pub caret_border: Rgba,
    /// The scrollbar, drawn over its background in the same color.
    pub scrollbar_color: Rgba,
}

#[derive(Clone, Copy, PartialEq, Eq, Debug, Structural)]
pub enum UiTheme {
    Light,
    Dark,
    SystemPreference,
}

impl Default for UiTheme {
    fn default() -> (r: Self)
        ensures
            r == UiTheme::SystemPreference,
    {
        UiTheme::SystemPreference
    }
}

impl UiTheme {
    /// A concrete theme: the system preference counts as light.
    pub fn resolve(self) -> (r: Self)
        ensures
            r == (if self == UiTheme::SystemPreference {
                UiTheme::Light
            } else {
                self
            }),
    {
        match self {
            UiTheme::SystemPreference => UiTheme::Light,
            _ => self,
        }
    }

    pub open spec fn colors_spec(self) -> ThemeColors {
        if self == UiTheme::Light {
            ThemeColors {
                text: rgba(0, 0, 0, 255),
                text_faded: rgba(64, 64, 64, 255),
                background: rgba(233, 226, 207, 255),
                caret: rgba(64, 64, 64, 127),
                caret_text_color: rgba(255, 255, 255, 255),
                caret_border: rgba(0, 0, 0, 128),
                scrollbar_color: rgba(0, 0, 0, 96),
            }
        } else {
            ThemeColors {
                text: rgba(255, 255, 255, 255),
                text_faded: rgba(240, 240, 240, 255),
                background: rgba(0x1e, 0x1e, 0x1e, 255),
                caret: rgba(255, 255, 255, 127),
                caret_text_color: rgba(0, 0, 0, 255),
                caret_border: rgba(255, 255, 255, 128),
                scrollbar_color: rgba(255, 255, 255, 96),
            }
        }
    }

    /// The colors of a resolved theme.
    pub fn colors(&self) -> (r: ThemeColors)
        requires
            *self != UiTheme::SystemPreference,
        ensures
            r == self.colors_spec(),
    {
        match *self {
            UiTheme::Light => ThemeColors {
                text: Rgba { r: 0, g: 0, b: 0, a: 255 },
                text_faded: Rgba { r: 64, g: 64, b: 64, a: 255 },
                background: Rgba { r: 233, g: 226, b: 207, a: 255 },
                caret: Rgba { r: 64, g: 64, b: 64, a: 255 / 2 },
                caret_text_color: Rgba { r: 255, g: 255, b: 255, a: 255 },
                caret_border: Rgba { r: 0, g: 0, b: 0, a: 128 },
                scrollbar_color: Rgba { r: 0, g: 0, b: 0, a: 96 },
            },
            _ => ThemeColors {
                text: Rgba { r: 255, g: 255, b: 255, a: 255 },
                text_faded: Rgba { r: 240, g: 240, b: 240, a: 255 },
                background: Rgba { r: 0x1e, g: 0x1e, b: 0x1e, a: 255 },
                caret: Rgba { r: 255, g: 255, b: 255, a: 255 / 2 },
                caret_text_color: Rgba { r: 0, g: 0, b: 0, a: 255 },
                caret_border: Rgba { r: 255, g: 255, b: 255, a: 128 },
                scrollbar_color: Rgba { r: 255, g: 255, b: 255, a: 96 },
            },
        }
    }
}

#[derive(Clone, Copy, PartialEq, Eq, Debug, Structural)]
pub struct FpsOverlayOptions {
    pub enable: bool,
    pub hi_contrast: bool,
    pub smol: bool,
    pub round: bool,
}

impl Default for FpsOverlayOptions {
    /// Off, high contrast, full size, rounded.
    fn default() -> (r: Self)
        ensures
            r == (FpsOverlayOptions { enable: false, hi_contrast: true, smol: false, round: true }),
    {
        FpsOverlayOptions { enable: false, hi_contrast: true, smol: false, round: true }
    }
}

/// The saved settings.
pub struct Configuration {
    pub palette: Palette,
    pub framerate: FramerateLimit,
    pub scale: WindowScale,
    pub last_rom: Option<String>,
    pub last_path: Option<String>,
    pub closed_properly: bool,
    pub default_speed: u8,
    pub save_slot: u8,
    pub dpi_scaling: bool,
    pub dpi_scaling_frac: bool,
    pub theme: UiTheme,
    pub fps: FpsOverlayOptions,
}

impl Default for Configuration {
    fn default() -> (r: Self)
        ensures
            r.palette == Palette::Grayscale,
            r.framerate == FramerateLimit::VSync,
            r.scale == WindowScale::Scale(2),
            r.last_rom is None,
            r.last_path is None,
            r.closed_properly,
            r.default_speed == 1,
            r.save_slot == 0,
            r.dpi_scaling,
            !r.dpi_scaling_frac,
            r.theme == UiTheme::SystemPreference,
            r.fps == (FpsOverlayOptions { enable: false, hi_contrast: true, smol: false, round: true }),
    {
        Configuration {
            palette: Palette::default(),
            framerate: FramerateLimit::default(),
            scale: WindowScale::default(),
            last_rom: None,
            last_path: None,
            closed_properly: true,
            default_speed: 1,
            save_slot: 0,
            dpi_scaling: true,
            dpi_scaling_frac: false,
            theme: UiTheme::default(),
            fps: FpsOverlayOptions::default(),
        }
    }
}

/// The directory that holds the settings and the saves, relative to the
/// working directory.
pub struct DataDir;

impl DataDir {
    pub fn dir_name() -> (r: &'static str)
        ensures
            r@ == ".yarge-sdl-data"@,
    {
        ".yarge-sdl-data"
    }
}

/// Settings that the user can change while running.
pub struct URStorage {
    pub speed: u8,
}

impl Default for URStorage {
    fn default() -> (r: Self)
        ensures
            r.speed == 1,
    {
        URStorage { speed: 1 }
    }
}

impl URStorage {
    /// Takes the configured default speed.
    pub fn configure(&mut self, config: &Configuration)
        ensures
            final(self).speed == config.default_speed,
    {
        self.speed = config.default_speed;
    }
}

} // verus!
