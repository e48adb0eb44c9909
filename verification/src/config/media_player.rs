//! The media-player module: what its indicator shows and how fast its
//! visualizer redraws.

use vstd::prelude::*;

verus! {

/// What the indicator shows.
#[derive(Clone, Copy, Debug, PartialEq, Eq, Structural)]
pub enum MediaPlayerFormat {
    Icon,
    Text,
    IconAndText,
}

impl Default for MediaPlayerFormat {
    fn default() -> (f: Self)
        ensures
            f == MediaPlayerFormat::IconAndText,
    {
        MediaPlayerFormat::IconAndText
    }
}

/// A field of the playing track.
#[derive(Clone, Copy, Debug, PartialEq, Eq, Structural)]
pub enum MediaPlayerTextField {
    Artist,
    Title,
    Album,
}

/// Where the audio visualizer is drawn.
#[derive(Clone, Copy, Debug, PartialEq, Eq, Structural)]
pub enum MediaPlayerVisualizer {
    Background,
    Before,
    After,
}

/// Visualizer frame rate used when none is configured.
pub const DEFAULT_VISUALIZER_FRAMERATE: u32 = 30;

/// Highest visualizer frame rate accepted.
pub const MAX_VISUALIZER_FRAMERATE: u32 = 144;

/// The media-player module's settings.
#[derive(Clone, Debug)]
pub struct MediaPlayerModuleConfig {
    pub indicator_format: MediaPlayerFormat,
    pub indicator_fields: Vec<MediaPlayerTextField>,
    pub max_text_length: u32,
    pub indicator_visualizer: Option<MediaPlayerVisualizer>,
    pub menu_visualizer: bool,
    pub visualizer_framerate: u32,
}

/// `v` clamped into `lo..=hi`.
pub open spec fn clamp_spec(v: int, lo: int, hi: int) -> int {
    if v < lo {
        lo
    } else if v > hi {
        hi
    } else {
        v
    }
}

impl MediaPlayerModuleConfig {
    /// The settings after validation: the frame rate clamped into
    /// `1..=MAX_VISUALIZER_FRAMERATE`.
    pub open spec fn validated(self) -> Self {
        MediaPlayerModuleConfig {
            visualizer_framerate: clamp_spec(
                self.visualizer_framerate as int,
                1,
                MAX_VISUALIZER_FRAMERATE as int,
            ) as u32,
            ..self
        }
    }

    /// Clamps the visualizer frame rate into `1..=MAX_VISUALIZER_FRAMERATE`.
    pub fn validate(&mut self)
        ensures
            *final(self) == old(self).validated(),
    {
        let rate = self.visualizer_framerate;
        let clamped = if rate < 1 {
            1
        } else if rate > MAX_VISUALIZER_FRAMERATE {
            MAX_VISUALIZER_FRAMERATE
        } else {
            rate
        };
        if clamped != rate {
            self.visualizer_framerate = clamped;
        }
    }
}

impl Default for MediaPlayerModuleConfig {
    fn default() -> (c: Self)
        ensures
            c.indicator_format == MediaPlayerFormat::IconAndText,
            c.indicator_fields@ == seq![MediaPlayerTextField::Artist, MediaPlayerTextField::Title],
            c.max_text_length == 100,
            c.indicator_visualizer is None,
            !c.menu_visualizer,
            c.visualizer_framerate == DEFAULT_VISUALIZER_FRAMERATE,
    {
        let mut fields = Vec::new();
        fields.push(MediaPlayerTextField::Artist);
        fields.push(MediaPlayerTextField::Title);
        MediaPlayerModuleConfig {
            indicator_format: MediaPlayerFormat::IconAndText,
            indicator_fields: fields,
            max_text_length: 100,
            indicator_visualizer: None,
            menu_visualizer: false,
            visualizer_framerate: DEFAULT_VISUALIZER_FRAMERATE,
        }
    }
}

/// After validation the frame rate is in range, a rate already in range is
/// left alone, and validating again changes nothing.
pub proof fn law_framerate_validation(c: MediaPlayerModuleConfig)
    ensures
        1 <= c.validated().visualizer_framerate <= MAX_VISUALIZER_FRAMERATE,
        1 <= c.visualizer_framerate <= MAX_VISUALIZER_FRAMERATE ==> c.validated() == c,
        c.validated().validated() == c.validated(),
{
}

/// Law: a zero frame rate becomes 1, a rate above 144 becomes 144, and any
/// other rate is kept.
pub proof fn law_framerate_is_clamped_to_range(c: MediaPlayerModuleConfig)
    ensures
        c.validated().visualizer_framerate == (if c.visualizer_framerate == 0 {
            1
        } else if c.visualizer_framerate > 144 {
            144
        } else {
            c.visualizer_framerate as int
        }),
        c.validated().max_text_length == c.max_text_length,
{
}

} // verus!
