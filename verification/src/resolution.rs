use vstd::prelude::*;

use vstd::string::StringSliceAdditionalSpecFns;

use crate::parse::{dims_ok, dims_split_ok, parse_usize, unsigned_value};

verus! {

/// The rejection a malformed resolution string earns.
#[derive(Debug, Clone)]
pub struct ResolutionError;

impl ResolutionError {
    /// What went wrong, in words.
    pub fn message(&self) -> (r: &'static str) {
        "Invalid resolution string - must be in the format: WIDTHxHEIGHT"
    }
}

/// The width and height of a rendered image, in pixels.
#[derive(Debug, Clone)]
pub struct Resolution {
    pub width: u32,
    pub height: u32,
}

impl Resolution {
    /// A resolution of `width` by `height` pixels.
    pub fn new(width: u32, height: u32) -> (r: Resolution)
        ensures
            r.width == width,
            r.height == height,
    {
        Resolution { width, height }
    }

    /// The width.
    pub fn width(&self) -> (r: u32)
        ensures
            r == self.width,
    {
        self.width
    }

    /// The height.
    pub fn height(&self) -> (r: u32)
        ensures
            r == self.height,
    {
        self.height
    }

    /// The total number of pixels.  The product must fit the machine.
    pub fn pixel_count(&self) -> (r: usize)
        requires
            self.width * self.height <= usize::MAX,
        ensures
            r == self.width * self.height,
    {
        proof {
            assert(self.width * self.height >= 0) by (nonlinear_arith);
        }
        self.width as usize * self.height as usize
    }

    /// Reads "WIDTHxHEIGHT": the text up to the first `x` is the width,
    /// the rest the height, both unsigned decimal numbers that fit a
    /// `u32`.  Anything else earns a `ResolutionError`.
    pub fn parse(s: &str) -> (r: Result<Resolution, ResolutionError>)
        ensures
            r is Ok <==> dims_ok(s.spec_bytes(), u32::MAX as int),
            r matches Ok(d) ==> exists|p: int|
                #[trigger] dims_split_ok(s.spec_bytes(), p, u32::MAX as int) && d.width
                    == unsigned_value(s.spec_bytes().take(p)) && d.height == unsigned_value(
                    s.spec_bytes().skip(p + 1),
                ),
    {
        let bs = s.as_bytes();
        let n = bs.len();

        let mut p: usize = 0;
        while p < n && bs[p] != 120
            invariant
                p <= n,
                n == bs@.len(),
                forall|q: int| 0 <= q < p ==> bs@[q] != 120,
            decreases n - p,
        {
            p = p + 1;
        }
        if p == n {
            proof {
                assert forall|q: int| !dims_split_ok(bs@, q, u32::MAX as int) by {}
            }
            return Err(ResolutionError {});
        }

        proof {
            assert(bs@.take(p as int) =~= bs@.subrange(0, p as int));
            assert(bs@.skip(p + 1) =~= bs@.subrange(p + 1, n as int));
            assert forall|q: int| dims_split_ok(bs@, q, u32::MAX as int) implies q == p as int by {}
        }
        let width = match parse_usize(bs, 0, p) {
            Some(width) => width,
            None => {
                return Err(ResolutionError {});
            },
        };
        let height = match parse_usize(bs, p + 1, n) {
            Some(height) => height,
            None => {
                return Err(ResolutionError {});
            },
        };
        if width > u32::MAX as usize || height > u32::MAX as usize {
            return Err(ResolutionError {});
        }
        proof {
            assert(dims_split_ok(bs@, p as int, u32::MAX as int));
        }
        Ok(Resolution { width: width as u32, height: height as u32 })
    }
}

impl core::str::FromStr for Resolution {
    type Err = ResolutionError;

    fn from_str(s: &str) -> Result<Resolution, ResolutionError> {
        Resolution::parse(s)
    }
}

} // verus!
