//! Pixel dimensions of images, and how a needle sits inside a haystack.

use vstd::prelude::*;

verus! {

/// Width and height of an image, in pixels.
#[derive(Clone, Copy, Debug, PartialEq, Eq, Structural)]
pub struct ImageSize {
    pub width: i32,
    pub height: i32,
}

impl ImageSize {
    /// An image is empty when it has no pixel at all.
    pub open spec fn spec_is_empty(self) -> bool {
        self.width <= 0 || self.height <= 0
    }

    /// A needle fits when it is neither wider nor taller than `self`.
    pub open spec fn spec_holds(self, needle: ImageSize) -> bool {
        needle.width <= self.width && needle.height <= self.height
    }

    /// The correlation surface has one cell for each place at which the
    /// needle's top-left pixel can lie with the whole needle inside `self`.
    pub open spec fn spec_surface(self, needle: ImageSize) -> ImageSize {
        (ImageSize {
            width: (self.width - needle.width + 1) as i32,
            height: (self.height - needle.height + 1) as i32,
        })
    }

    /// Whether `(x, y)` is a pixel of an image of this size.
    pub open spec fn contains(self, x: int, y: int) -> bool {
        0 <= x < self.width && 0 <= y < self.height
    }

    /// Whether the image has no pixel.
    #[verifier::when_used_as_spec(spec_is_empty)]
    pub fn is_empty(self) -> (empty: bool)
        ensures
            empty == self.spec_is_empty(),
    {
        self.width <= 0 || self.height <= 0
    }

    /// Whether `needle` fits inside `self`.
    #[verifier::when_used_as_spec(spec_holds)]
    pub fn holds(self, needle: ImageSize) -> (fits: bool)
        ensures
            fits == self.spec_holds(needle),
    {
        needle.width <= self.width && needle.height <= self.height
    }

    /// The size of the correlation surface of `needle` over `self`.
    pub fn surface(self, needle: ImageSize) -> (surface: ImageSize)
        requires
            !needle.spec_is_empty(),
            self.spec_holds(needle),
        ensures
            surface == self.spec_surface(needle),
            surface.width == self.width - needle.width + 1,
            surface.height == self.height - needle.height + 1,
    {
        ImageSize {
            width: self.width - needle.width + 1,
            height: self.height - needle.height + 1,
        }
    }
}

/// A needle that fits leaves a surface that is not empty and not larger than
/// the haystack, and a needle anchored at any cell of it lies inside the
/// haystack.
pub proof fn lemma_surface_cells_are_placements(
    haystack: ImageSize,
    needle: ImageSize,
    x: int,
    y: int,
)
    requires
        !needle.spec_is_empty(),
        haystack.spec_holds(needle),
        haystack.spec_surface(needle).contains(x, y),
    ensures
        !haystack.spec_surface(needle).spec_is_empty(),
        haystack.spec_holds(haystack.spec_surface(needle)),
        0 <= x && x + needle.width <= haystack.width,
        0 <= y && y + needle.height <= haystack.height,
{
}

/// A needle as large as the haystack has exactly one placement.
pub proof fn lemma_surface_of_equal_sizes(image: ImageSize)
    requires
        !image.spec_is_empty(),
    ensures
        image.spec_surface(image) == (ImageSize { width: 1, height: 1 }),
{
}

} // verus!
