//! The bar's look: palette entries, corner radii and margins written in CSS
//! shorthand, the bar surface and when to ask for background blur.

use vstd::prelude::*;

verus! {

/// A colour as written in the configuration (`#rrggbb` or `#rrggbbaa`).
#[derive(Clone, Copy, Debug, PartialEq, Eq, Structural)]
pub struct ColorHex {
    pub r: u8,
    pub g: u8,
    pub b: u8,
    pub a: u8,
}

impl ColorHex {
    /// An opaque colour.
    pub fn rgb(r: u8, g: u8, b: u8) -> (c: ColorHex)
        ensures
            c == (ColorHex { r, g, b, a: 255 }),
    {
        ColorHex { r, g, b, a: 255 }
    }
}

/// A palette colour paired with the colour of text drawn on it; no text
/// colour means the theme's fallback.
#[derive(Clone, Copy, Debug, PartialEq, Eq, Structural)]
pub struct HexPair {
    pub color: ColorHex,
    pub text: Option<ColorHex>,
}

/// A palette entry: one colour, or a base colour with optional stronger,
/// weaker and text variants.
#[derive(Clone, Copy, Debug, PartialEq, Eq, Structural)]
pub enum AppearanceColor {
    Simple(ColorHex),
    Complete {
        base: ColorHex,
        strong: Option<ColorHex>,
        weak: Option<ColorHex>,
        text: Option<ColorHex>,
    },
}

impl AppearanceColor {
    /// The base colour.
    pub fn get_base(&self) -> (c: ColorHex)
        ensures
            c == (match *self {
                AppearanceColor::Simple(c) => c,
                AppearanceColor::Complete { base, .. } => base,
            }),
    {
        match self {
            AppearanceColor::Simple(color) => *color,
            AppearanceColor::Complete { base, .. } => *base,
        }
    }

    /// The text colour, when one is given.
    pub fn get_text(&self) -> (c: Option<ColorHex>)
        ensures
            c == (match *self {
                AppearanceColor::Simple(_) => None,
                AppearanceColor::Complete { text, .. } => text,
            }),
    {
        match self {
            AppearanceColor::Simple(_) => None,
            AppearanceColor::Complete { text, .. } => *text,
        }
    }

    /// The weak variant with the text colour, when a weak variant is given.
    pub fn get_weak_pair(&self) -> (p: Option<HexPair>)
        ensures
            p == (match *self {
                AppearanceColor::Simple(_) => None,
                AppearanceColor::Complete { weak, text, .. } => match weak {
                    Some(w) => Some(HexPair { color: w, text }),
                    None => None,
                },
            }),
    {
        match self {
            AppearanceColor::Simple(_) => None,
            AppearanceColor::Complete { weak, text, .. } => match weak {
                Some(w) => Some(HexPair { color: *w, text: *text }),
                None => None,
            },
        }
    }

    /// The strong variant with the text colour, when a strong variant is
    /// given.
    pub fn get_strong_pair(&self) -> (p: Option<HexPair>)
        ensures
            p == (match *self {
                AppearanceColor::Simple(_) => None,
                AppearanceColor::Complete { strong, text, .. } => match strong {
                    Some(s) => Some(HexPair { color: s, text }),
                    None => None,
                },
            }),
    {
        match self {
            AppearanceColor::Simple(_) => None,
            AppearanceColor::Complete { strong, text, .. } => match strong {
                Some(s) => Some(HexPair { color: *s, text: *text }),
                None => None,
            },
        }
    }
}

/// A shade of the background colour.
#[derive(Clone, Copy, Debug, PartialEq, Eq, Structural)]
pub enum BackgroundLevel {
    Weakest,
    Weaker,
    Weak,
    Neutral,
    Strong,
    Stronger,
    Strongest,
}

/// The background palette entry: one colour, or a base colour with up to
/// seven shades and a text colour.
#[derive(Clone, Copy, Debug, PartialEq, Eq, Structural)]
pub enum BackgroundAppearanceColor {
    Simple(ColorHex),
    Complete {
        base: ColorHex,
        weakest: Option<ColorHex>,
        weaker: Option<ColorHex>,
        weak: Option<ColorHex>,
        neutral: Option<ColorHex>,
        strong: Option<ColorHex>,
        stronger: Option<ColorHex>,
        strongest: Option<ColorHex>,
        text: Option<ColorHex>,
    },
}

/// The shade of a complete background entry at `level`, if given.
pub open spec fn shade_spec(bg: BackgroundAppearanceColor, level: BackgroundLevel) -> Option<ColorHex> {
    match bg {
        BackgroundAppearanceColor::Simple(_) => None,
        BackgroundAppearanceColor::Complete {
            weakest,
            weaker,
            weak,
            neutral,
            strong,
            stronger,
            strongest,
            ..
        } => match level {
            BackgroundLevel::Weakest => weakest,
            BackgroundLevel::Weaker => weaker,
            BackgroundLevel::Weak => weak,
            BackgroundLevel::Neutral => neutral,
            BackgroundLevel::Strong => strong,
            BackgroundLevel::Stronger => stronger,
            BackgroundLevel::Strongest => strongest,
        },
    }
}

impl BackgroundAppearanceColor {
    /// The base colour.
    pub fn get_base(&self) -> (c: ColorHex)
        ensures
            c == (match *self {
                BackgroundAppearanceColor::Simple(c) => c,
                BackgroundAppearanceColor::Complete { base, .. } => base,
            }),
    {
        match self {
            BackgroundAppearanceColor::Simple(color) => *color,
            BackgroundAppearanceColor::Complete { base, .. } => *base,
        }
    }

    /// The text colour, when one is given.
    pub fn get_text(&self) -> (c: Option<ColorHex>)
        ensures
            c == (match *self {
                BackgroundAppearanceColor::Simple(_) => None,
                BackgroundAppearanceColor::Complete { text, .. } => text,
            }),
    {
        match self {
            BackgroundAppearanceColor::Simple(_) => None,
            BackgroundAppearanceColor::Complete { text, .. } => *text,
        }
    }

    /// The shade at `level` with the text colour, when that shade is given.
    pub fn get_pair(&self, level: BackgroundLevel) -> (p: Option<HexPair>)
        ensures
            p == (match shade_spec(*self, level) {
                Some(c) => Some(HexPair { color: c, text: self.text_spec() }),
                None => None,
            }),
    {
        match self {
            BackgroundAppearanceColor::Simple(_) => None,
            BackgroundAppearanceColor::Complete {
                weakest,
                weaker,
                weak,
                neutral,
                strong,
                stronger,
                strongest,
                text,
                ..
            } => {
                let hex = match level {
                    BackgroundLevel::Weakest => *weakest,
                    BackgroundLevel::Weaker => *weaker,
                    BackgroundLevel::Weak => *weak,
                    BackgroundLevel::Neutral => *neutral,
                    BackgroundLevel::Strong => *strong,
                    BackgroundLevel::Stronger => *stronger,
                    BackgroundLevel::Strongest => *strongest,
                };
                match hex {
                    Some(h) => Some(HexPair { color: h, text: *text }),
                    None => None,
                }
            },
        }
    }

    /// The text colour, when one is given.
    pub open spec fn text_spec(&self) -> Option<ColorHex> {
        match *self {
            BackgroundAppearanceColor::Simple(_) => None,
            BackgroundAppearanceColor::Complete { text, .. } => text,
        }
    }
}

/// How the bar's own surface is drawn.
#[derive(Clone, Copy, Debug, PartialEq, Eq, Structural)]
pub enum BarSurface {
    Transparent,
    Solid,
}

impl Default for BarSurface {
    fn default() -> (s: Self)
        ensures
            s == BarSurface::Transparent,
    {
        BarSurface::Transparent
    }
}

/// A corner radius step of the theme (`none` in the configuration is
/// `Zero`).
#[derive(Clone, Copy, Debug, PartialEq, Eq, Structural)]
pub enum RadiusSize {
    Zero,
    Sm,
    Md,
    Lg,
    Xl,
}

impl Default for RadiusSize {
    fn default() -> (r: Self)
        ensures
            r == RadiusSize::Zero,
    {
        RadiusSize::Zero
    }
}

/// A spacing step of the theme (`none` in the configuration is `Zero`).
#[derive(Clone, Copy, Debug, PartialEq, Eq, Structural)]
pub enum SpaceSize {
    Zero,
    Xxs,
    Xs,
    Sm,
    Md,
    Lg,
    Xl,
    Xxl,
}

impl Default for SpaceSize {
    fn default() -> (s: Self)
        ensures
            s == SpaceSize::Zero,
    {
        SpaceSize::Zero
    }
}

/// A CSS-style shorthand: one value, or a list of values.
#[derive(Clone, Debug)]
pub enum CssShorthand<T> {
    One(T),
    Many(Vec<T>),
}

/// A shorthand list had a number of values other than 1, 2 or 4.
#[derive(Clone, Copy, Debug, PartialEq, Eq, Structural)]
pub struct ShorthandError {
    pub count: usize,
}

/// The four values a shorthand stands for, in CSS order (top/top-left
/// first, clockwise): one value for all four, two values alternating, four
/// values as given; any other count is refused.
pub open spec fn expand_spec<T>(values: Seq<T>) -> Option<Seq<T>> {
    if values.len() == 1 {
        Some(seq![values[0], values[0], values[0], values[0]])
    } else if values.len() == 2 {
        Some(seq![values[0], values[1], values[0], values[1]])
    } else if values.len() == 4 {
        Some(values)
    } else {
        None
    }
}

/// The values a shorthand lists.
pub open spec fn shorthand_values<T>(s: CssShorthand<T>) -> Seq<T> {
    match s {
        CssShorthand::One(v) => seq![v],
        CssShorthand::Many(vs) => vs@,
    }
}

impl<T: Copy> CssShorthand<T> {
    /// Expands the shorthand into four values.
    pub fn expand(self) -> (res: Result<[T; 4], ShorthandError>)
        ensures
            match expand_spec(shorthand_values(self)) {
                Some(four) => res matches Ok(a) && a@ == four,
                None => res matches Err(e) && e.count == shorthand_values(self).len(),
            },
    {
        let values = match self {
            CssShorthand::One(v) => {
                let a = [v, v, v, v];
                assert(a@ =~= seq![v, v, v, v]);
                return Ok(a);
            },
            CssShorthand::Many(v) => v,
        };
        let n = values.len();
        if n == 1 {
            let x = values[0];
            let a = [x, x, x, x];
            assert(a@ =~= seq![x, x, x, x]);
            Ok(a)
        } else if n == 2 {
            let x = values[0];
            let y = values[1];
            let a = [x, y, x, y];
            assert(a@ =~= seq![x, y, x, y]);
            Ok(a)
        } else if n == 4 {
            let a = [values[0], values[1], values[2], values[3]];
            assert(a@ =~= values@);
            Ok(a)
        } else {
            Err(ShorthandError { count: n })
        }
    }
}

/// The shorthand forms agree: a single value means what a list of that one
/// value means, a pair means what the four values it alternates mean, and
/// only lists of one, two or four values are accepted.
pub proof fn law_shorthand_forms_agree<T>(a: T, b: T, values: Seq<T>)
    ensures
        expand_spec(seq![a]) == expand_spec(seq![a, a, a, a]),
        expand_spec(seq![a, b]) == expand_spec(seq![a, b, a, b]),
        expand_spec(values) is Some <==> (values.len() == 1 || values.len() == 2 || values.len()
            == 4),
        expand_spec(values) matches Some(four) ==> four.len() == 4,
{
    assert(seq![a, a, a, a][0] == a);
    assert(seq![a, b, a, b][1] == b);
    assert(seq![a, a, a, a] =~= seq![a, a, a, a]);
}

/// Per-corner radii: top-left, top-right, bottom-right, bottom-left.
#[derive(Clone, Copy, Debug, PartialEq, Eq, Structural)]
pub struct BarRadius {
    pub top_left: RadiusSize,
    pub top_right: RadiusSize,
    pub bottom_right: RadiusSize,
    pub bottom_left: RadiusSize,
}

impl BarRadius {
    /// Radii from a CSS `border-radius` shorthand: one value for all
    /// corners, two for `[top-left and bottom-right, top-right and
    /// bottom-left]`, four in clockwise order from the top left.
    pub fn from_shorthand(s: CssShorthand<RadiusSize>) -> (res: Result<BarRadius, ShorthandError>)
        ensures
            match expand_spec(shorthand_values(s)) {
                Some(four) => res == Ok::<BarRadius, ShorthandError>(
                    BarRadius {
                        top_left: four[0],
                        top_right: four[1],
                        bottom_right: four[2],
                        bottom_left: four[3],
                    },
                ),
                None => res is Err,
            },
    {
        match s.expand() {
            Ok(a) => Ok(
                BarRadius { top_left: a[0], top_right: a[1], bottom_right: a[2], bottom_left: a[3] },
            ),
            Err(e) => Err(e),
        }
    }
}

impl Default for BarRadius {
    fn default() -> (r: Self)
        ensures
            r == (BarRadius {
                top_left: RadiusSize::Zero,
                top_right: RadiusSize::Zero,
                bottom_right: RadiusSize::Zero,
                bottom_left: RadiusSize::Zero,
            }),
    {
        BarRadius {
            top_left: RadiusSize::Zero,
            top_right: RadiusSize::Zero,
            bottom_right: RadiusSize::Zero,
            bottom_left: RadiusSize::Zero,
        }
    }
}

/// Per-edge margins: top, right, bottom, left.
#[derive(Clone, Copy, Debug, PartialEq, Eq, Structural)]
pub struct BarMargin {
    pub top: SpaceSize,
    pub right: SpaceSize,
    pub bottom: SpaceSize,
    pub left: SpaceSize,
}

impl BarMargin {
    /// Margins from a CSS `margin` shorthand: one value for all edges, two
    /// for `[vertical, horizontal]`, four as top, right, bottom, left.
    pub fn from_shorthand(s: CssShorthand<SpaceSize>) -> (res: Result<BarMargin, ShorthandError>)
        ensures
            match expand_spec(shorthand_values(s)) {
                Some(four) => res == Ok::<BarMargin, ShorthandError>(
                    BarMargin { top: four[0], right: four[1], bottom: four[2], left: four[3] },
                ),
                None => res is Err,
            },
    {
        match s.expand() {
            Ok(a) => Ok(BarMargin { top: a[0], right: a[1], bottom: a[2], left: a[3] }),
            Err(e) => Err(e),
        }
    }
}

impl Default for BarMargin {
    fn default() -> (m: Self)
        ensures
            m == (BarMargin {
                top: SpaceSize::Zero,
                right: SpaceSize::Zero,
                bottom: SpaceSize::Zero,
                left: SpaceSize::Zero,
            }),
    {
        BarMargin {
            top: SpaceSize::Zero,
            right: SpaceSize::Zero,
            bottom: SpaceSize::Zero,
            left: SpaceSize::Zero,
        }
    }
}

/// The bar's own appearance.
#[derive(Clone, Copy, Debug, PartialEq, Eq, Structural)]
pub struct BarAppearance {
    pub surface: BarSurface,
    pub radius: BarRadius,
    pub margin: BarMargin,
}

impl Default for BarAppearance {
    fn default() -> (b: Self)
        ensures
            b.surface == BarSurface::Transparent,
            b.radius == BarRadius::default_spec(),
            b.margin == BarMargin::default_spec(),
    {
        BarAppearance {
            surface: BarSurface::Transparent,
            radius: BarRadius::default(),
            margin: BarMargin::default(),
        }
    }
}

impl BarRadius {
    /// Square corners all round.
    pub open spec fn default_spec() -> BarRadius {
        BarRadius {
            top_left: RadiusSize::Zero,
            top_right: RadiusSize::Zero,
            bottom_right: RadiusSize::Zero,
            bottom_left: RadiusSize::Zero,
        }
    }
}

impl BarMargin {
    /// No margin on any edge.
    pub open spec fn default_spec() -> BarMargin {
        BarMargin {
            top: SpaceSize::Zero,
            right: SpaceSize::Zero,
            bottom: SpaceSize::Zero,
            left: SpaceSize::Zero,
        }
    }
}

/// A layer-shell surface; each is drawn with its own theme.
#[derive(Clone, Copy, Debug, PartialEq, Eq, Structural)]
pub enum Surface {
    Bar,
    Menu,
    Osd,
    Notifications,
}

impl Surface {
    /// Every surface.
    pub fn all() -> (s: [Surface; 4])
        ensures
            s@ == seq![Surface::Bar, Surface::Menu, Surface::Osd, Surface::Notifications],
    {
        let s = [Surface::Bar, Surface::Menu, Surface::Osd, Surface::Notifications];
        assert(s@ =~= seq![Surface::Bar, Surface::Menu, Surface::Osd, Surface::Notifications]);
        s
    }
}

/// When to ask the compositor for background blur.
#[derive(Clone, Copy, Debug, PartialEq, Eq, Structural)]
pub enum BlurMode {
    /// Blur when the surface is translucent; blurring an opaque surface would
    /// not show.
    Auto,
    /// Always ask, even at full opacity.
    Always,
    /// Never ask.
    Never,
}

impl Default for BlurMode {
    fn default() -> (m: Self)
        ensures
            m == BlurMode::Auto,
    {
        BlurMode::Auto
    }
}

impl BlurMode {
    /// Whether blur is requested for a surface, given whether its opacity is
    /// below one.
    pub fn enabled(self, translucent: bool) -> (b: bool)
        ensures
            b == (match self {
                BlurMode::Auto => translucent,
                BlurMode::Always => true,
                BlurMode::Never => false,
            }),
    {
        match self {
            BlurMode::Auto => translucent,
            BlurMode::Always => true,
            BlurMode::Never => false,
        }
    }
}

} // verus!
