//! Capture through GDI, for the secure desktop and as the last resort.

use vstd::prelude::*;

verus! {

/// Why GDI cannot capture.
#[derive(Debug, Clone, Copy, PartialEq, Eq, Structural)]
pub enum GdiError {
    /// The screen has no pixels: no desktop is there.
    NoScreen,
    /// No line of the picture could be read.
    NoLines,
}

/// Captures the primary screen through GDI.
#[derive(Debug, Clone, Copy, PartialEq, Eq, Structural)]
pub struct GdiCapture {
    width: u32,
    height: u32,
}

impl GdiCapture {
    /// Width and height of the screen.
    pub closed spec fn size(&self) -> (u32, u32) {
        (self.width, self.height)
    }

    /// Capture a screen of this size.
    pub fn new(width: u32, height: u32) -> (out: Result<Self, GdiError>)
        ensures
            match out {
                Ok(capture) => width != 0 && height != 0 && capture.size() == (width, height),
                Err(e) => (width == 0 || height == 0) && e == GdiError::NoScreen,
            },
    {
        if width == 0 || height == 0 {
            return Err(GdiError::NoScreen);
        }
        Ok(Self { width, height })
    }

    /// Width and height of the captured picture.
    pub fn resolution(&self) -> (size: (u32, u32))
        ensures
            size == self.size(),
    {
        (self.width, self.height)
    }

    /// The screen has this size now. A screen without pixels is a desktop that
    /// cannot be read at the moment, and changes nothing.
    pub fn reset(&mut self, width: u32, height: u32)
        ensures
            final(self).size() == if width > 0 && height > 0 {
                (width, height)
            } else {
                old(self).size()
            },
    {
        if width > 0 && height > 0 {
            self.width = width;
            self.height = height;
        }
    }

    /// How many bytes the picture takes, four to a pixel.
    pub fn data_size(&self) -> (len: u32)
        requires
            self.size().0 * self.size().1 * 4 <= u32::MAX,
        ensures
            len == self.size().0 * self.size().1 * 4,
    {
        proof {
            let (w, h) = (self.width, self.height);
            assert(w * h <= w * h * 4) by (nonlinear_arith)
                requires
                    w >= 0,
                    h >= 0,
            ;
        }
        self.width * self.height * 4
    }

    /// What came of reading the picture's lines.
    pub fn check_lines(lines: i32) -> (out: Result<(), GdiError>)
        ensures
            out == if lines == 0 {
                Err::<(), GdiError>(GdiError::NoLines)
            } else {
                Ok(())
            },
    {
        if lines == 0 {
            Err(GdiError::NoLines)
        } else {
            Ok(())
        }
    }
}

/// A screen with pixels is captured at its size, one without is not; a later size counts
/// only where it has pixels; the picture has four bytes to a pixel.
pub proof fn law_screen_has_pixels(
    width: u32,
    height: u32,
    out: Result<GdiCapture, GdiError>,
    c: GdiCapture,
    size: (u32, u32),
    lines: i32,
    read: Result<(), GdiError>,
)
    requires
        call_ensures(GdiCapture::new, (width, height), out),
        call_ensures(GdiCapture::resolution, (&c,), size),
        call_ensures(GdiCapture::check_lines, (lines,), read),
    ensures
        out is Ok <==> width > 0 && height > 0,
        out matches Ok(capture) ==> capture.size() == (width, height),
        size == c.size(),
        read is Err <==> lines == 0,
        forall|g: &mut GdiCapture, u: ()| #[trigger]
            call_ensures(GdiCapture::reset, (g, width, height), u) ==> {
                &&& width > 0 && height > 0 ==> (*final(g)).size() == (width, height)
                &&& width == 0 || height == 0 ==> (*final(g)).size() == (*g).size()
            },
        c.size().0 * c.size().1 * 4 <= u32::MAX ==> forall|len: u32| #[trigger]
            call_ensures(GdiCapture::data_size, (&c,), len) ==> len == 4 * (c.size().0
                * c.size().1),
{
}

} // verus!
