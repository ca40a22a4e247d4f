//! The screen sampler: cursor-position and pixel-color queries against a
//! platform display backend.
//!
//! All platform variance sits behind `PlatformBackend`. A build without
//! native pointer or pixel support holds the null backend, whose queries
//! are deterministic fallbacks: origin for the cursor, neutral gray for a
//! pixel. The mock backend stands in for a native display in tests; it
//! also counts surface acquisitions and releases, so the contracts can
//! state that every sample pairs one acquisition with one release.
//!
//! The native backend itself makes raw foreign calls and therefore lives
//! outside this crate's verified code; it reuses `color::decode_sample`
//! for the sentinel check and channel unpack, which is where all the
//! decoding logic is proved.

use vstd::prelude::*;

use crate::color::{decode_sample, neutral_gray, spec_decode, RgbColor, INVALID_SAMPLE};

verus! {

/// A point in screen coordinates: the 2D pixel grid of the virtual
/// desktop, origin at the primary display's top-left corner.
#[derive(Clone, Copy, Debug, PartialEq, Eq, Structural)]
pub struct ScreenPoint {
    pub x: i32,
    pub y: i32,
}

/// The display backend a sampler queries.
#[derive(Clone, Copy, Debug, PartialEq, Eq, Structural)]
pub enum PlatformBackend {
    /// A build without native pointer or pixel support: every query is a
    /// deterministic fallback and no surface is ever acquired.
    Null,
    /// A test double for a native display. It answers every pixel query
    /// with the one configured raw value and counts how often the screen
    /// surface is acquired and released.
    Mock {
        /// The pointer position this backend reports.
        cursor: ScreenPoint,
        /// The raw packed value every pixel read returns.
        packed: u32,
        /// How many times a screen surface has been acquired.
        acquired: u64,
        /// How many times a screen surface has been released.
        released: u64,
    },
}

impl PlatformBackend {
    /// The pointer position this backend reports; origin when the
    /// platform has no pointer support.
    pub open spec fn cursor_pos(self) -> ScreenPoint {
        match self {
            PlatformBackend::Null => ScreenPoint { x: 0, y: 0 },
            PlatformBackend::Mock { cursor, .. } => cursor,
        }
    }

    /// The raw packed value a pixel read yields. A platform without
    /// pixel support behaves exactly as one whose every read reports the
    /// invalid-sample sentinel: both decode to the same fallback.
    pub open spec fn raw_sample(self) -> u32 {
        match self {
            PlatformBackend::Null => INVALID_SAMPLE,
            PlatformBackend::Mock { packed, .. } => packed,
        }
    }

    /// How many times a screen surface has been acquired.
    pub open spec fn acquire_count(self) -> u64 {
        match self {
            PlatformBackend::Null => 0,
            PlatformBackend::Mock { acquired, .. } => acquired,
        }
    }

    /// How many times a screen surface has been released.
    pub open spec fn release_count(self) -> u64 {
        match self {
            PlatformBackend::Null => 0,
            PlatformBackend::Mock { released, .. } => released,
        }
    }

    /// Every acquired surface has been released.
    pub open spec fn balanced(self) -> bool {
        self.acquire_count() == self.release_count()
    }

    /// The instrumentation counters have headroom for one more sample.
    pub open spec fn can_sample(self) -> bool {
        self.acquire_count() < u64::MAX && self.release_count() < u64::MAX
    }

    /// Whether this backend can query the display at all.
    pub fn has_pixel_support(&self) -> (r: bool)
        ensures
            r == (self is Mock),
    {
        match self {
            PlatformBackend::Null => false,
            PlatformBackend::Mock { .. } => true,
        }
    }

    /// Acquire a drawing surface for the whole screen.
    fn acquire_surface(&mut self)
        requires
            *old(self) is Mock,
            old(self).acquire_count() < u64::MAX,
        ensures
            *final(self) is Mock,
            final(self).acquire_count() == old(self).acquire_count() + 1,
            final(self).release_count() == old(self).release_count(),
            final(self).raw_sample() == old(self).raw_sample(),
            final(self).cursor_pos() == old(self).cursor_pos(),
    {
        match self {
            PlatformBackend::Null => {},
            PlatformBackend::Mock { acquired, .. } => {
                *acquired = *acquired + 1;
            },
        }
    }

    /// Release a previously acquired drawing surface.
    fn release_surface(&mut self)
        requires
            *old(self) is Mock,
            old(self).release_count() < u64::MAX,
        ensures
            *final(self) is Mock,
            final(self).release_count() == old(self).release_count() + 1,
            final(self).acquire_count() == old(self).acquire_count(),
            final(self).raw_sample() == old(self).raw_sample(),
            final(self).cursor_pos() == old(self).cursor_pos(),
    {
        match self {
            PlatformBackend::Null => {},
            PlatformBackend::Mock { released, .. } => {
                *released = *released + 1;
            },
        }
    }

    /// Read the raw packed color at the given coordinate from an
    /// acquired surface. The mock display is uniform, so the coordinate
    /// does not change what it answers.
    fn read_pixel(&self, x: i32, y: i32) -> (raw: u32)
        ensures
            raw == self.raw_sample(),
    {
        let _ = (x, y);
        match self {
            PlatformBackend::Null => INVALID_SAMPLE,
            PlatformBackend::Mock { packed, .. } => *packed,
        }
    }

    /// The pointer position, as the platform reports it; origin on a
    /// platform without pointer support.
    pub fn get_pos(&self) -> (p: ScreenPoint)
        ensures
            p == self.cursor_pos(),
            self is Null ==> p == (ScreenPoint { x: 0, y: 0 }),
    {
        match self {
            PlatformBackend::Null => ScreenPoint { x: 0, y: 0 },
            PlatformBackend::Mock { cursor, .. } => *cursor,
        }
    }

    /// Sample the color at a screen coordinate: acquire the screen
    /// surface, read the raw value, release the surface, then decode.
    /// Acquisition and release are paired on every path, and the
    /// invalid-sample sentinel decodes to neutral gray. On a platform
    /// without pixel support nothing is acquired and the same neutral
    /// gray comes back for every coordinate.
    pub fn sample(&mut self, x: i32, y: i32) -> (c: RgbColor)
        requires
            old(self).can_sample(),
        ensures
            c == spec_decode(old(self).raw_sample()),
            *old(self) is Null ==> *final(self) == *old(self) && c == neutral_gray(),
            *old(self) is Mock ==> final(self).acquire_count() == old(self).acquire_count() + 1
                && final(self).release_count() == old(self).release_count() + 1,
            final(self).raw_sample() == old(self).raw_sample(),
            final(self).cursor_pos() == old(self).cursor_pos(),
            (*final(self) is Mock) == (*old(self) is Mock),
            old(self).balanced() ==> final(self).balanced(),
    {
        if !self.has_pixel_support() {
            return RgbColor { r: 128, g: 128, b: 128 };
        }
        self.acquire_surface();
        let raw = self.read_pixel(x, y);
        self.release_surface();
        decode_sample(raw)
    }
}

/// Queries the operating system's display and input subsystem for the
/// pointer position and for the color of a pixel. Stateless in itself: it
/// only holds the backend selected at build or init time, and every query
/// is an independent request.
#[derive(Clone, Copy, Debug, PartialEq, Eq, Structural)]
pub struct ScreenSampler {
    pub backend: PlatformBackend,
}

impl ScreenSampler {
    /// A sampler over the given backend.
    pub fn new(backend: PlatformBackend) -> (s: ScreenSampler)
        ensures
            s.backend == backend,
    {
        ScreenSampler { backend }
    }

    /// The current pointer position in screen coordinates. Never fails:
    /// on a platform without pointer support it is a pure no-op
    /// returning the origin.
    pub fn get_cursor_position(&self) -> (p: ScreenPoint)
        ensures
            p == self.backend.cursor_pos(),
            self.backend is Null ==> p == (ScreenPoint { x: 0, y: 0 }),
    {
        self.backend.get_pos()
    }

    /// The color of the pixel at `(x, y)`. Never fails: an invalid
    /// coordinate and a platform without pixel support both yield the
    /// same neutral gray. Each call that acquires a screen surface
    /// releases it exactly once before returning.
    pub fn sample_pixel_color(&mut self, x: i32, y: i32) -> (c: RgbColor)
        requires
            old(self).backend.can_sample(),
        ensures
            c == spec_decode(old(self).backend.raw_sample()),
            old(self).backend is Null ==> *final(self) == *old(self) && c == neutral_gray(),
            old(self).backend is Mock ==> final(self).backend.acquire_count() == old(
                self,
            ).backend.acquire_count() + 1 && final(self).backend.release_count() == old(
                self,
            ).backend.release_count() + 1,
            final(self).backend.raw_sample() == old(self).backend.raw_sample(),
            final(self).backend.cursor_pos() == old(self).backend.cursor_pos(),
            (final(self).backend is Mock) == (old(self).backend is Mock),
            old(self).backend.balanced() ==> final(self).backend.balanced(),
    {
        self.backend.sample(x, y)
    }
}

} // verus!
