//! Resize geometry: image sizes, resize modes, and the computation of the
//! target size for a request.
//!
//! The `Fit` mode preserves the aspect ratio when only one dimension is
//! given, truncating the derived dimension to an integer, and never
//! upscales beyond the original. The `Fill` mode (an exact target) is not
//! offered by this library and every request for it is rejected.

use vstd::prelude::*;

use crate::kvlist::AssocList;
use crate::paths::file_name_spec;
use crate::paths::join_spec;
use crate::paths::replace_extension_spec;

verus! {

/// Width and height of an image, in pixels.
#[derive(Clone, Copy, Debug, PartialEq, Eq, Structural)]
pub struct Size {
    pub w: u32,
    pub h: u32,
}

/// An optional bound on each dimension, for `ResizeMode::Fit`.
#[derive(Clone, Copy, Debug, PartialEq, Eq, Structural)]
pub struct SizeHint {
    pub w: Option<u32>,
    pub h: Option<u32>,
}

/// How a source image is to be resized.
#[derive(Clone, Copy, Debug, PartialEq, Eq, Structural)]
pub enum ResizeMode {
    /// Scale down to the given bounds, keeping the aspect ratio when only
    /// one bound is given; never upscale. Both bounds given means an exact
    /// (stretching) target; no bounds means the original size.
    Fit(SizeHint),
    /// Exact target size. Unsupported: always rejected.
    Fill(Size),
}

/// The target size for resizing an image of size `o` under `mode`, or
/// `None` when the request is rejected.
///
/// A derived dimension is `bound * other / same`, truncated; deriving a
/// dimension from a degenerate (zero-sized) original is rejected, as is
/// every `Fill` request.
pub open spec fn required_size_spec(o: Size, mode: ResizeMode) -> Option<Size> {
    match mode {
        ResizeMode::Fit(hint) => match (hint.w, hint.h) {
            (Some(w), None) => if w > o.w {
                Some(o)
            } else if o.w == 0 || o.h == 0 {
                None
            } else {
                Some(Size { w: w, h: ((w * o.h) / (o.w as int)) as u32 })
            },
            (None, Some(h)) => if h > o.h {
                Some(o)
            } else if o.w == 0 || o.h == 0 {
                None
            } else {
                Some(Size { w: ((h * o.w) / (o.h as int)) as u32, h: h })
            },
            (Some(w), Some(h)) => Some(Size { w: w, h: h }),
            (None, None) => Some(o),
        },
        ResizeMode::Fill(_) => None,
    }
}

/// Compute the target size for resizing an image of size `o` under `mode`.
///
/// Returns `Err(())` exactly when the request is rejected: a `Fill`
/// request, or a derived dimension over a zero-sized original.
pub fn get_required_size(o: Size, mode: &ResizeMode) -> (r: Result<Size, ()>)
    ensures
        r == match required_size_spec(o, *mode) {
            Some(s) => Ok::<Size, ()>(s),
            None => Err::<Size, ()>(()),
        },
{
    match *mode {
        ResizeMode::Fit(hint) => match (hint.w, hint.h) {
            (Some(w), None) => {
                if w > o.w {
                    Ok(o)
                } else if o.w == 0 || o.h == 0 {
                    Err(())
                } else {
                    proof {
                        lemma_u32_product_fits(w as int, o.h as int);
                    }
                    let num: u64 = (w as u64) * (o.h as u64);
                    let derived: u64 = num / (o.w as u64);
                    proof {
                        lemma_scaled_dim_bounded(w as int, o.h as int, o.w as int);
                    }
                    Ok(Size { w: w, h: derived as u32 })
                }
            },
            (None, Some(h)) => {
                if h > o.h {
                    Ok(o)
                } else if o.w == 0 || o.h == 0 {
                    Err(())
                } else {
                    proof {
                        lemma_u32_product_fits(h as int, o.w as int);
                    }
                    let num: u64 = (h as u64) * (o.w as u64);
                    let derived: u64 = num / (o.h as u64);
                    proof {
                        lemma_scaled_dim_bounded(h as int, o.w as int, o.h as int);
                    }
                    Ok(Size { w: derived as u32, h: h })
                }
            },
            (Some(w), Some(h)) => Ok(Size { w: w, h: h }),
            (None, None) => Ok(o),
        },
        ResizeMode::Fill(_) => Err(()),
    }
}

/// The product of two values below `2^32` fits in 64 bits.
proof fn lemma_u32_product_fits(a: int, b: int)
    requires
        0 <= a < 0x100000000,
        0 <= b < 0x100000000,
    ensures
        0 <= a * b <= 0xffffffffffffffff,
{
    assert(0 <= a * b <= 0xffffffffffffffff) by (nonlinear_arith)
        requires
            0 <= a < 0x100000000,
            0 <= b < 0x100000000,
    ;
}

/// When `bound <= same`, the derived dimension `bound * other / same` does
/// not exceed `other`.
proof fn lemma_scaled_dim_bounded(bound: int, other: int, same: int)
    requires
        0 <= bound <= same,
        0 <= other,
        0 < same,
    ensures
        0 <= (bound * other) / same <= other,
{
    assert(0 <= (bound * other) / same <= other) by (nonlinear_arith)
        requires
            0 <= bound <= same,
            0 <= other,
            0 < same,
    ;
}

/// A width-bounded `Fit` request never yields a width above the original's,
/// and below the original width the height is scaled down proportionally,
/// truncating.
pub proof fn lemma_fit_width_never_upscales(o: Size, w: u32)
    ensures
        match required_size_spec(o, ResizeMode::Fit(SizeHint { w: Some(w), h: None })) {
            Some(s) => s.w <= o.w && (w < o.w && o.h > 0 && o.w > 0 ==> s.w == w && s.h == (w
                * o.h) / (o.w as int)),
            None => o.w == 0 || o.h == 0,
        },
{
    if w <= o.w && o.w > 0 && o.h > 0 {
        lemma_scaled_dim_bounded(w as int, o.h as int, o.w as int);
    }
}

/// Where the size sidecar for the source at `path` lives: in the cache
/// directory, under the source's file name with its extension replaced
/// by `size.json`.
pub open spec fn sidecar_path_spec(cache_dir: Seq<char>, path: Seq<char>) -> Seq<char> {
    join_spec(cache_dir, replace_extension_spec(file_name_spec(path), "size.json"@))
}

/// The resizer: the root directory of the source images, the cache
/// directory for resized artifacts and sidecars, and the in-memory size
/// cache.
pub struct Resizer {
    sizes: AssocList<Size>,
    root_path: String,
    resize_cache: String,
}

impl Resizer {
    /// The root directory for source images.
    pub closed spec fn spec_root(&self) -> Seq<char> {
        self.root_path@
    }

    /// The cache directory for artifacts and sidecars.
    pub closed spec fn spec_cache_dir(&self) -> Seq<char> {
        self.resize_cache@
    }

    /// The in-memory size cache, as a map from source path to size.
    pub closed spec fn spec_sizes(&self) -> Map<Seq<char>, Size> {
        self.sizes.view_map()
    }

    /// Well-formed: the size cache holds each path at most once.
    pub closed spec fn wf(&self) -> bool {
        self.sizes.wf()
    }

    /// A resizer over the given directories, with an empty size cache.
    pub fn new(root_path: &str, resize_cache: &str) -> (r: Resizer)
        ensures
            r.wf(),
            r.spec_root() == root_path@,
            r.spec_cache_dir() == resize_cache@,
            r.spec_sizes() =~= Map::<Seq<char>, Size>::empty(),
    {
        Resizer { sizes: AssocList::new(), root_path: root_path.to_owned(), resize_cache: resize_cache.to_owned() }
    }

    /// The root directory, as a string.
    pub fn root_path_str(&self) -> (r: &str)
        ensures
            r@ == self.spec_root(),
    {
        self.root_path.as_str()
    }

    /// The cache directory, as a string.
    pub fn cache_dir_str(&self) -> (r: &str)
        ensures
            r@ == self.spec_cache_dir(),
    {
        self.resize_cache.as_str()
    }

    /// The size recorded in memory for the source at `path`, if any.
    pub fn get_memcached_size(&self, path: &str) -> (r: Option<Size>)
        requires
            self.wf(),
        ensures
            match r {
                Some(sz) => self.spec_sizes().contains_key(path@) && self.spec_sizes()[path@]
                    == sz,
                None => !self.spec_sizes().contains_key(path@),
            },
    {
        match self.sizes.get(path) {
            Some(v) => Some(*v),
            None => None,
        }
    }

    /// Record (or, with `None`, forget) the size of the source at `path`.
    pub fn set_memcached_size(&mut self, path: &str, size: Option<Size>)
        requires
            old(self).wf(),
        ensures
            final(self).wf(),
            final(self).spec_root() == old(self).spec_root(),
            final(self).spec_cache_dir() == old(self).spec_cache_dir(),
            final(self).spec_sizes() =~= match size {
                Some(sz) => old(self).spec_sizes().insert(path@, sz),
                None => old(self).spec_sizes().remove(path@),
            },
    {
        match size {
            Some(sz) => self.sizes.set(path, sz),
            None => self.sizes.unset(path),
        }
    }

    /// Where the size sidecar for the source at `path` lives.
    pub fn get_filecache_path(&self, path: &str) -> (r: String)
        ensures
            r@ == sidecar_path_spec(self.spec_cache_dir(), path@),
    {
        let name: String = crate::paths::file_name(path);
        let sidecar_name: String = crate::paths::replace_extension(name.as_str(), "size.json");
        crate::paths::join(self.resize_cache.as_str(), sidecar_name.as_str())
    }
}

} // verus!
