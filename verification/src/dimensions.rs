use vstd::prelude::*;

use vstd::string::StringSliceAdditionalSpecFns;

use crate::parse::{dims_ok, dims_split_ok, parse_usize, unsigned_value};

verus! {

/// The rejection a malformed dimensions string earns.
#[derive(Debug, Clone)]
pub struct DimensionsError;

impl DimensionsError {
    /// What went wrong, in words.
    pub fn message(&self) -> (r: &'static str) {
        "Invalid resolution string - must be in the format: WIDTHxHEIGHT"
    }
}

/// The width and height of an image, in pixels.
#[derive(Debug, Clone)]
pub struct Dimensions {
    pub width: usize,
    pub height: usize,
}

impl Dimensions {
    /// Dimensions of `width` by `height` pixels.
    pub fn new(width: usize, height: usize) -> (r: Dimensions)
        ensures
            r.width == width,
            r.height == height,
    {
        Dimensions { width, height }
    }

    /// The width.
    pub fn width(&self) -> (r: usize)
        ensures
            r == self.width,
    {
        self.width
    }

    /// The height.
    pub fn height(&self) -> (r: usize)
        ensures
            r == self.height,
    {
        self.height
    }

    /// The total number of pixels.  The product must fit the machine.
    pub fn pixel_count(&self) -> (r: usize)
        requires
            self.width * self.height <= usize::MAX,
        ensures
            r == self.width * self.height,
    {
        proof {
            assert(self.width * self.height >= 0) by (nonlinear_arith);
        }
        self.width * self.height
    }

    /// Reads "WIDTHxHEIGHT": the text up to the first `x` is the width,
    /// the rest the height, both unsigned decimal numbers that fit the
    /// machine.  Anything else earns a `DimensionsError`.
    pub fn parse(s: &str) -> (r: Result<Dimensions, DimensionsError>)
        ensures
            r is Ok <==> dims_ok(s.spec_bytes(), usize::MAX as int),
            r matches Ok(d) ==> exists|p: int|
                #[trigger] dims_split_ok(s.spec_bytes(), p, usize::MAX as int) && d.width
                    == unsigned_value(s.spec_bytes().take(p)) && d.height == unsigned_value(
                    s.spec_bytes().skip(p + 1),
                ),
    {
        let bs = s.as_bytes();
        let n = bs.len();

        let mut p: usize = 0;
        while p < n && bs[p] != 120
            invariant
                p <= n,
                n == bs@.len(),
                forall|q: int| 0 <= q < p ==> bs@[q] != 120,
            decreases n - p,
        {
            p = p + 1;
        }
        if p == n {
            proof {
                assert forall|q: int| !dims_split_ok(bs@, q, usize::MAX as int) by {}
            }
            return Err(DimensionsError {});
        }

        proof {
            assert(bs@.take(p as int) =~= bs@.subrange(0, p as int));
            assert(bs@.skip(p + 1) =~= bs@.subrange(p + 1, n as int));
            assert forall|q: int|
                dims_split_ok(bs@, q, usize::MAX as int) implies q == p as int by {}
        }
        let width = match parse_usize(bs, 0, p) {
            Some(width) => width,
            None => {
                return Err(DimensionsError {});
            },
        };
        let height = match parse_usize(bs, p + 1, n) {
            Some(height) => height,
            None => {
                return Err(DimensionsError {});
            },
        };
        proof {
            assert(dims_split_ok(bs@, p as int, usize::MAX as int));
        }
        Ok(Dimensions { width, height })
    }
}

impl core::str::FromStr for Dimensions {
    type Err = DimensionsError;

    fn from_str(s: &str) -> Result<Dimensions, DimensionsError> {
        Dimensions::parse(s)
    }
}

} // verus!
