//! The plain settings of a config: slideshow timing, image sources, monitors,
//! image fitting and the effect applied to a scene.
use vstd::prelude::*;

verus! {

/// How long a slideshow shows each scene.
#[derive(Debug, Clone, Copy, PartialEq, Eq, Structural)]
pub enum SlideshowInterval {
    Sec(u32),
    Min(u32),
}

/// The length of an interval in seconds.
pub open spec fn spec_interval_secs(i: SlideshowInterval) -> nat {
    match i {
        SlideshowInterval::Sec(s) => s as nat,
        SlideshowInterval::Min(m) => (m * 60) as nat,
    }
}

/// A minute is sixty seconds: `Min(m)` lasts sixty times as long as `Sec(m)`.
pub proof fn law_minute_is_sixty_seconds(m: u32)
    ensures
        spec_interval_secs(SlideshowInterval::Min(m)) == 60 * spec_interval_secs(
            SlideshowInterval::Sec(m),
        ),
{
}

impl SlideshowInterval {
    /// The length of the interval in whole seconds (a minute is 60 seconds).
    pub fn secs(&self) -> (r: u64)
        ensures
            r == spec_interval_secs(*self),
    {
        match self {
            SlideshowInterval::Sec(s) => *s as u64,
            SlideshowInterval::Min(m) => (*m as u64) * 60,
        }
    }
}

impl Default for SlideshowInterval {
    fn default() -> (r: Self)
        ensures
            r == SlideshowInterval::Sec(30),
    {
        SlideshowInterval::Sec(30)
    }
}

/// Where the image of a scene comes from.
#[derive(Debug, Clone, PartialEq, Eq)]
pub enum ImageSource {
    /// The image built into the program.
    Builtin,
    /// An image file on disk.
    Path(String),
}

impl Default for ImageSource {
    fn default() -> (r: Self)
        ensures
            r is Builtin,
    {
        ImageSource::Builtin
    }
}

/// Which monitor the wallpaper is shown on.
#[derive(Debug, Clone, PartialEq, Eq)]
pub enum Monitor {
    /// Let the compositor choose.
    Auto,
    /// The output with this name.
    Named(String),
}

impl Default for Monitor {
    fn default() -> (r: Self)
        ensures
            r is Auto,
    {
        Monitor::Auto
    }
}

/// How the image of a scene is fitted to the surface.
#[derive(Debug, Clone, Copy, PartialEq, Eq, Structural)]
pub enum ImageFit {
    Stretch,
    FillH,
    FillV,
    Original,
}

impl Default for ImageFit {
    fn default() -> (r: Self)
        ensures
            r == ImageFit::FillV,
    {
        ImageFit::FillV
    }
}

/// The effect drawn over a scene: one of the two built-in effects with its
/// settings (`B` for the blur, `N` for the neuro effect), or a user shader
/// loaded from a path.
#[derive(Debug, Clone)]
pub enum Effect<B, N> {
    Blur(B),
    Neuro(N),
    Custom(String),
}

impl<B, N> Effect<B, N> {
    /// Whether the effect animates and so needs the scene to be drawn anew on
    /// every frame: true of the neuro effect alone.
    pub fn require_dynamic(&self) -> (r: bool)
        ensures
            r == (*self is Neuro),
    {
        match self {
            Effect::Neuro(_) => true,
            _ => false,
        }
    }
}

/// Whether a scene is drawn anew on every frame: when its config asks for it,
/// or when its effect requires it.
pub fn scene_is_dynamic<B, N>(configured: bool, effect: &Effect<B, N>) -> (r: bool)
    ensures
        r == (configured || *effect is Neuro),
{
    configured || effect.require_dynamic()
}

} // verus!
