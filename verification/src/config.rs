//! The settings of a recording, fixed when the session is built.

use vstd::prelude::*;

verus! {

/// Why a set of settings, or a sink that they are held against, is refused.
#[derive(Clone, Copy, Debug, PartialEq, Eq, Structural)]
pub enum ConfigError {
    /// The pool would hold no buffer.
    ZeroDepth,
    /// The width or the height is zero.
    EmptyFrame,
    /// A pixel would have no channel.
    NoChannels,
    /// The frame rate is zero.
    ZeroFrameRate,
    /// The bytes of one frame cannot be counted in a `usize`.
    FrameTooLarge,
    /// The frame is wider or higher than the surface it is read from.
    ExceedsSurface,
    /// The sink expects another number of bytes per pixel.
    FormatMismatch,
    /// The sink expects another width or height.
    DimensionMismatch,
}

/// The frame layout that the encoder's input expects.
#[derive(Clone, Copy, Debug, PartialEq, Eq, Structural)]
pub struct SinkFormat {
    pub width: usize,
    pub height: usize,
    pub bytes_per_pixel: usize,
}

/// Validated settings: every field is positive and one frame fits in memory.
#[derive(Clone, Copy, Debug, PartialEq, Eq, Structural)]
pub struct Config {
    width: usize,
    height: usize,
    channels: usize,
    frame_rate: u64,
    depth: usize,
}

/// The first rule that the given settings break, if any.
pub open spec fn first_fault(
    width: int,
    height: int,
    channels: int,
    frame_rate: int,
    depth: int,
) -> Option<ConfigError> {
    if depth == 0 {
        Some(ConfigError::ZeroDepth)
    } else if width == 0 || height == 0 {
        Some(ConfigError::EmptyFrame)
    } else if channels == 0 {
        Some(ConfigError::NoChannels)
    } else if frame_rate == 0 {
        Some(ConfigError::ZeroFrameRate)
    } else if width * height * channels > usize::MAX {
        Some(ConfigError::FrameTooLarge)
    } else {
        None
    }
}

/// The first reason to refuse a recording of the given settings from a
/// surface of the given size into the given sink, if there is one: a fault of
/// the settings themselves, then a frame that exceeds the surface, then a
/// sink of another pixel width, then a sink of other dimensions.
pub open spec fn setup_fault(
    width: int,
    height: int,
    channels: int,
    frame_rate: int,
    depth: int,
    surface_width: int,
    surface_height: int,
    sink: SinkFormat,
) -> Option<ConfigError> {
    if first_fault(width, height, channels, frame_rate, depth) is Some {
        first_fault(width, height, channels, frame_rate, depth)
    } else if width > surface_width || height > surface_height {
        Some(ConfigError::ExceedsSurface)
    } else if sink.bytes_per_pixel != channels {
        Some(ConfigError::FormatMismatch)
    } else if sink.width != width || sink.height != height {
        Some(ConfigError::DimensionMismatch)
    } else {
        None
    }
}

impl Config {
    pub closed spec fn spec_width(&self) -> usize {
        self.width
    }

    pub closed spec fn spec_height(&self) -> usize {
        self.height
    }

    pub closed spec fn spec_channels(&self) -> usize {
        self.channels
    }

    pub closed spec fn spec_frame_rate(&self) -> u64 {
        self.frame_rate
    }

    pub closed spec fn spec_depth(&self) -> usize {
        self.depth
    }

    /// The number of bytes in one frame.
    pub open spec fn spec_frame_len(&self) -> int {
        self.spec_width() * self.spec_height() * self.spec_channels()
    }

    /// What `new` establishes.
    pub open spec fn wf(&self) -> bool {
        first_fault(
            self.spec_width() as int,
            self.spec_height() as int,
            self.spec_channels() as int,
            self.spec_frame_rate() as int,
            self.spec_depth() as int,
        ) is None
    }

    /// Checks the settings, in the order of `first_fault`, and keeps them.
    pub fn new(width: usize, height: usize, channels: usize, frame_rate: u64, depth: usize) -> (r:
        Result<Config, ConfigError>)
        ensures
            match first_fault(
                width as int,
                height as int,
                channels as int,
                frame_rate as int,
                depth as int,
            ) {
                Some(e) => r == Err::<Config, ConfigError>(e),
                None => r is Ok && r->Ok_0.wf() && r->Ok_0.spec_width() == width
                    && r->Ok_0.spec_height() == height && r->Ok_0.spec_channels() == channels
                    && r->Ok_0.spec_frame_rate() == frame_rate && r->Ok_0.spec_depth() == depth,
            },
    {
        if depth == 0 {
            return Err(ConfigError::ZeroDepth);
        }
        if width == 0 || height == 0 {
            return Err(ConfigError::EmptyFrame);
        }
        if channels == 0 {
            return Err(ConfigError::NoChannels);
        }
        if frame_rate == 0 {
            return Err(ConfigError::ZeroFrameRate);
        }
        let area: Option<usize> = width.checked_mul(height);
        match area {
            None => {
                proof {
                    lemma_product_grows(width as int * height as int, channels as int);
                }
                Err(ConfigError::FrameTooLarge)
            },
            Some(a) => {
                let bytes: Option<usize> = a.checked_mul(channels);
                match bytes {
                    None => Err(ConfigError::FrameTooLarge),
                    Some(_) => Ok(Config { width, height, channels, frame_rate, depth }),
                }
            },
        }
    }

    #[verifier::when_used_as_spec(spec_width)]
    pub fn width(&self) -> (r: usize)
        ensures
            r == self.spec_width(),
    {
        self.width
    }

    #[verifier::when_used_as_spec(spec_height)]
    pub fn height(&self) -> (r: usize)
        ensures
            r == self.spec_height(),
    {
        self.height
    }

    #[verifier::when_used_as_spec(spec_channels)]
    pub fn channels(&self) -> (r: usize)
        ensures
            r == self.spec_channels(),
    {
        self.channels
    }

    #[verifier::when_used_as_spec(spec_frame_rate)]
    pub fn frame_rate(&self) -> (r: u64)
        ensures
            r == self.spec_frame_rate(),
    {
        self.frame_rate
    }

    #[verifier::when_used_as_spec(spec_depth)]
    pub fn depth(&self) -> (r: usize)
        ensures
            r == self.spec_depth(),
    {
        self.depth
    }

    /// The number of bytes in one frame: width by height by channels.
    pub fn frame_len(&self) -> (r: usize)
        requires
            self.wf(),
        ensures
            r == self.spec_frame_len(),
    {
        proof {
            lemma_product_grows(self.width as int * self.height as int, self.channels as int);
        }
        self.width * self.height * self.channels
    }

    /// The frame must lie inside the surface that it is copied from.
    pub fn check_surface(&self, surface_width: usize, surface_height: usize) -> (r: Result<
        (),
        ConfigError,
    >)
        ensures
            r == (if self.spec_width() <= surface_width && self.spec_height() <= surface_height {
                Ok::<(), ConfigError>(())
            } else {
                Err::<(), ConfigError>(ConfigError::ExceedsSurface)
            }),
    {
        if self.width <= surface_width && self.height <= surface_height {
            Ok(())
        } else {
            Err(ConfigError::ExceedsSurface)
        }
    }

    /// The sink must expect the layout that the producer writes: the pixel
    /// width is looked at first, then the dimensions.
    pub fn check_sink(&self, sink: SinkFormat) -> (r: Result<(), ConfigError>)
        ensures
            r == (if sink.bytes_per_pixel != self.spec_channels() {
                Err::<(), ConfigError>(ConfigError::FormatMismatch)
            } else if sink.width != self.spec_width() || sink.height != self.spec_height() {
                Err::<(), ConfigError>(ConfigError::DimensionMismatch)
            } else {
                Ok::<(), ConfigError>(())
            }),
    {
        if sink.bytes_per_pixel != self.channels {
            Err(ConfigError::FormatMismatch)
        } else if sink.width != self.width || sink.height != self.height {
            Err(ConfigError::DimensionMismatch)
        } else {
            Ok(())
        }
    }
}

/// A product of a non-negative number and a positive one is no smaller than the first.
proof fn lemma_product_grows(a: int, b: int)
    requires
        0 <= a,
        1 <= b,
    ensures
        a <= a * b,
{
    assert(a <= a * b) by (nonlinear_arith)
        requires
            0 <= a,
            1 <= b,
    ;
}

} // verus!
