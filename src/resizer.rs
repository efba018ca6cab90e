//! The resize stage: Lanczos3 scaling within the configured pixel budget,
//! memoised per resource and target size.

use vstd::prelude::*;
use vstd::string::*;
use crate::cache::{CacheEngine, CacheError};
use crate::config::Config;
use crate::image::{
    lanczos3_exact, lanczos3_exact_of, lanczos3_fit, lanczos3_fit_of, parse_image, raster_wf,
    ser_image, Image, ImageView,
};
use crate::tag::{generate_resource_tag, tag_of};
use crate::text::{decimal_string, decimal_text};

verus! {

#[derive(Debug)]
pub enum ResizeError {
    /// The budget, and the pixel count asked for (capped at `usize::MAX`).
    ResizeExceedsMaximumSize(usize, usize),
    /// The cache refused the resized raster.
    CacheWrite(CacheError),
}

/// Whether a `width` by `height` target lies within the budget (and each
/// side within the codecs' 32-bit range).
pub open spec fn within_budget(width: usize, height: usize, maximum: usize) -> bool {
    width * height <= maximum && width <= u32::MAX && height <= u32::MAX
}

/// The pixel count asked for, capped at `usize::MAX`.
pub open spec fn requested_pixels(width: usize, height: usize) -> usize {
    if width * height <= usize::MAX {
        (width * height) as usize
    } else {
        usize::MAX
    }
}

/// Refuses a target over the budget; done before any pixel of it exists.
pub fn check_size(dimensions: (usize, usize), maximum_size: usize) -> (r: Result<(), ResizeError>)
    ensures
        within_budget(dimensions.0, dimensions.1, maximum_size) ==> r is Ok,
        !within_budget(dimensions.0, dimensions.1, maximum_size) ==> (r matches Err(
            ResizeError::ResizeExceedsMaximumSize(m, q),
        ) && m == maximum_size && q == requested_pixels(dimensions.0, dimensions.1)),
{
    let (w, h) = dimensions;
    let (w128, h128) = (w as u128, h as u128);
    assert(w128 * h128 <= 0xffff_ffff_ffff_ffff * 0xffff_ffff_ffff_ffffu128) by (nonlinear_arith)
        requires
            w128 <= 0xffff_ffff_ffff_ffff,
            h128 <= 0xffff_ffff_ffff_ffff,
    ;
    let product = w128 * h128;
    let requested: usize = if product <= usize::MAX as u128 {
        product as usize
    } else {
        usize::MAX
    };
    if product > maximum_size as u128 || w > u32::MAX as usize || h > u32::MAX as usize {
        return Err(ResizeError::ResizeExceedsMaximumSize(maximum_size, requested));
    }
    Ok(())
}

/// Lanczos3 scaling through the `image` crate.
pub struct Lanczos3ImageScaler {}

impl Lanczos3ImageScaler {
    pub fn new() -> (r: Lanczos3ImageScaler) {
        Lanczos3ImageScaler {  }
    }

    /// The raster scaled to `width` by `height` (`exact`), or to the largest
    /// size within them that keeps its aspect ratio.
    pub fn scale(&self, image: &Image, width: u32, height: u32, exact: bool) -> (r: Option<Image>)
        requires
            raster_wf(image@),
        ensures
            r matches Some(out) && raster_wf(out@) && out@ == (if exact {
                lanczos3_exact_of(image@, width, height)
            } else {
                lanczos3_fit_of(image@, width, height)
            }),
            exact ==> (r matches Some(out) && out.width == width && out.height == height),
            !exact && width >= 1 && height >= 1 ==> (r matches Some(out) && out.width <= width
                && out.height <= height),
    {
        if exact {
            lanczos3_exact(image, width, height)
        } else {
            lanczos3_fit(image, width, height)
        }
    }
}

/// The resizer cache key of a resource identifier and target.
pub open spec fn resizer_key(id: Seq<char>, width: usize, height: usize, exact: bool) -> Seq<char> {
    tag_of(
        id + " - "@ + decimal_text(width as nat) + "x"@ + decimal_text(height as nat) + if exact {
            " exact"@
        } else {
            ""@
        },
    )
}

/// Whether a fit within `width` by `height` leaves the raster as it is: the
/// box caps the size, it never enlarges.
pub open spec fn fits_already(img: ImageView, width: usize, height: usize, exact: bool) -> bool {
    !exact && img.width <= width && img.height <= height
}

/// Whether a cached raster suits the target: well formed, and of exactly the
/// target size (`exact`) or within the box.
pub open spec fn suits_target(v: ImageView, width: usize, height: usize, exact: bool) -> bool {
    raster_wf(v) && if exact {
        v.width == width && v.height == height
    } else {
        v.width <= width && v.height <= height
    }
}

/// The raster cached for this target, if one reads back and suits it.
pub open spec fn resize_hit(
    entries: Map<Seq<char>, Seq<u8>>,
    id: Seq<char>,
    width: usize,
    height: usize,
    exact: bool,
) -> Option<ImageView> {
    let key = resizer_key(id, width, height, exact);
    if entries.contains_key(key) {
        match parse_image(entries[key]) {
            Some(v) => if suits_target(v, width, height, exact) {
                Some(v)
            } else {
                None
            },
            None => None,
        }
    } else {
        None
    }
}

/// The Lanczos3 result for the target.
pub open spec fn scaled(img: ImageView, width: usize, height: usize, exact: bool) -> ImageView {
    if exact {
        lanczos3_exact_of(img, width as u32, height as u32)
    } else {
        lanczos3_fit_of(img, width as u32, height as u32)
    }
}

/// The resizer's answer on cache entries `entries` and the entries it leaves,
/// or `None` over the budget: the raster itself when it already fits the box,
/// else a suitable cached raster, else the scaled one (stored when the engine
/// keeps writes).
pub open spec fn resize_step(
    entries: Map<Seq<char>, Seq<u8>>,
    keeps: bool,
    id: Seq<char>,
    img: ImageView,
    width: usize,
    height: usize,
    exact: bool,
    maximum: usize,
) -> Option<(ImageView, Map<Seq<char>, Seq<u8>>)> {
    if !within_budget(width, height, maximum) {
        None
    } else if fits_already(img, width, height, exact) {
        Some((img, entries))
    } else {
        match resize_hit(entries, id, width, height, exact) {
            Some(v) => Some((v, entries)),
            None => {
                let s = scaled(img, width, height, exact);
                Some(
                    (
                        s,
                        if keeps {
                            entries.insert(resizer_key(id, width, height, exact), ser_image(s))
                        } else {
                            entries
                        },
                    ),
                )
            },
        }
    }
}

/// What a resize answers and leaves in the cache. Over the budget: the error,
/// and no change. Else a raster of the target size (exact), or within the box
/// when the box has a pixel each way; on an engine whose lookups are described,
/// the raster and entries of `resize_step`, unless the cache refused the write.
pub open spec fn resize_answer(
    r: &Result<Image, ResizeError>,
    before: Map<Seq<char>, Seq<u8>>,
    after: Map<Seq<char>, Seq<u8>>,
    described: bool,
    keeps: bool,
    infallible: bool,
    maximum: usize,
    id: Seq<char>,
    img: ImageView,
    dimensions: (usize, usize),
    exact: bool,
) -> bool {
    let (w, h) = dimensions;
    if !within_budget(w, h, maximum) {
        &&& r matches Err(ResizeError::ResizeExceedsMaximumSize(m, q))
        &&& r->Err_0->ResizeExceedsMaximumSize_0 == maximum
        &&& r->Err_0->ResizeExceedsMaximumSize_1 == requested_pixels(w, h)
        &&& after == before
    } else {
        &&& r is Ok || (r matches Err(ResizeError::CacheWrite(_)) && !infallible && after == before)
        &&& r matches Ok(out) ==> raster_wf(out@) && (exact ==> out.width == w && out.height == h)
            && (!exact && w >= 1 && h >= 1 ==> out.width <= w && out.height <= h)
        &&& described ==> match resize_step(before, keeps, id, img, w, h, exact, maximum) {
            Some((v, stored)) => r matches Ok(out) ==> out@ == v && after == stored,
            None => false,
        }
    }
}

/// The resizer, memoised in a cache engine.
pub struct CachedResizer {
    pub config: Config,
}

impl CachedResizer {
    fn key(tag: &String, dimensions: (usize, usize), exact: bool) -> (r: String)
        ensures
            r@ == resizer_key(tag@, dimensions.0, dimensions.1, exact),
    {
        let mut label = tag.clone();
        label.append(" - ");
        label.append(decimal_string(dimensions.0 as u64).as_str());
        label.append("x");
        label.append(decimal_string(dimensions.1 as u64).as_str());
        if exact {
            label.append(" exact");
        } else {
            proof {
                reveal_strlit("");
            }
            assert(label@ =~= label@ + ""@);
        }
        generate_resource_tag(label.as_str())
    }

    fn resize_with<C: CacheEngine>(
        &self,
        cache: &mut C,
        tag: &String,
        resource: &Image,
        dimensions: (usize, usize),
        exact: bool,
    ) -> (r: Result<Image, ResizeError>)
        requires
            old(cache).wf(),
            raster_wf(resource@),
        ensures
            final(cache).wf(),
            final(cache).describes_contents() == old(cache).describes_contents(),
            final(cache).keeps_entries() == old(cache).keeps_entries(),
            final(cache).infallible() == old(cache).infallible(),
            resize_answer(
                &r,
                old(cache).entries(),
                final(cache).entries(),
                old(cache).describes_contents(),
                old(cache).keeps_entries(),
                old(cache).infallible(),
                self.config.maximum_image_size,
                tag@,
                resource@,
                dimensions,
                exact,
            ),
    {
        check_size(dimensions, self.config.maximum_image_size)?;
        if !exact && resource.width as usize <= dimensions.0 && resource.height as usize
            <= dimensions.1 {
            return Ok(
                Image {
                    image: vstd::slice::slice_to_vec(resource.image.as_slice()),
                    width: resource.width,
                    height: resource.height,
                },
            );
        }
        let key = Self::key(tag, dimensions, exact);
        if let Some(bytes) = cache.get(key.as_str()) {
            if let Some(img) = Image::from_bytes(bytes.as_slice()) {
                let suits = if exact {
                    img.width as usize == dimensions.0 && img.height as usize == dimensions.1
                } else {
                    img.width as usize <= dimensions.0 && img.height as usize <= dimensions.1
                };
                if suits && img.is_well_formed() {
                    return Ok(img);
                }
            }
        }
        let scaler = Lanczos3ImageScaler::new();
        match scaler.scale(resource, dimensions.0 as u32, dimensions.1 as u32, exact) {
            Some(img) => {
                let bytes = img.to_bytes();
                match cache.set(key.as_str(), &bytes) {
                    Ok(_) => Ok(img),
                    Err(e) => Err(ResizeError::CacheWrite(e)),
                }
            },
            None => Ok(Image::default()),
        }
    }

    /// The raster fitted within `dimensions`, keeping its aspect ratio; a
    /// raster that already fits is left as it is.
    pub fn resize<C: CacheEngine>(
        &self,
        cache: &mut C,
        tag: &String,
        resource: &Image,
        dimensions: (usize, usize),
    ) -> (r: Result<Image, ResizeError>)
        requires
            old(cache).wf(),
            raster_wf(resource@),
        ensures
            final(cache).wf(),
            final(cache).describes_contents() == old(cache).describes_contents(),
            final(cache).keeps_entries() == old(cache).keeps_entries(),
            final(cache).infallible() == old(cache).infallible(),
            resize_answer(
                &r,
                old(cache).entries(),
                final(cache).entries(),
                old(cache).describes_contents(),
                old(cache).keeps_entries(),
                old(cache).infallible(),
                self.config.maximum_image_size,
                tag@,
                resource@,
                dimensions,
                false,
            ),
    {
        self.resize_with(cache, tag, resource, dimensions, false)
    }

    /// The raster stretched to exactly `dimensions`.
    pub fn resize_exact<C: CacheEngine>(
        &self,
        cache: &mut C,
        tag: &String,
        resource: &Image,
        dimensions: (usize, usize),
    ) -> (r: Result<Image, ResizeError>)
        requires
            old(cache).wf(),
            raster_wf(resource@),
        ensures
            final(cache).wf(),
            final(cache).describes_contents() == old(cache).describes_contents(),
            final(cache).keeps_entries() == old(cache).keeps_entries(),
            final(cache).infallible() == old(cache).infallible(),
            resize_answer(
                &r,
                old(cache).entries(),
                final(cache).entries(),
                old(cache).describes_contents(),
                old(cache).keeps_entries(),
                old(cache).infallible(),
                self.config.maximum_image_size,
                tag@,
                resource@,
                dimensions,
                true,
            ),
    {
        self.resize_with(cache, tag, resource, dimensions, true)
    }
}

} // verus!
