//! Capture with the `scrap` crate: choosing the display, and its pixels.

use crate::bytes;
use crate::capture::rows;
use crate::capture::stats;
use crate::text;
use vstd::prelude::*;
use vstd::string::StringExecFns;

verus! {

/// Information about an available display.
#[derive(Debug, Clone, Copy, PartialEq, Eq, Structural)]
pub struct DisplayInfo {
    pub index: usize,
    pub width: u32,
    pub height: u32,
    pub is_primary: bool,
}

/// How a display is listed.
pub open spec fn display_line(d: DisplayInfo) -> Seq<char> {
    "Display "@ + text::decimal(d.index as nat) + ": "@ + text::decimal(d.width as nat) + "x"@
        + text::decimal(d.height as nat) + if d.is_primary {
        " (primary)"@
    } else {
        ""@
    }
}

impl DisplayInfo {
    /// How the display is listed.
    pub fn to_text(&self) -> (line: String)
        ensures
            line@ == display_line(*self),
    {
        let mut line = text::copy("Display ");
        text::push_decimal(&mut line, self.index as u64);
        line.append(": ");
        text::push_decimal(&mut line, self.width as u64);
        line.append("x");
        text::push_decimal(&mut line, self.height as u64);
        line.append(
            if self.is_primary {
                " (primary)"
            } else {
                ""
            },
        );
        line
    }
}

/// Why a display cannot be captured.
#[derive(Debug, Clone, Copy, PartialEq, Eq, Structural)]
pub enum DisplayError {
    NoDisplays,
    /// There are only `count` displays.
    OutOfRange { index: usize, count: usize },
    /// The display is gone.
    Disappeared,
}

/// How the error is reported.
pub open spec fn display_error_text(e: DisplayError) -> Seq<char> {
    match e {
        DisplayError::NoDisplays => "no displays found"@,
        DisplayError::OutOfRange { index, count } => "display index "@ + text::decimal(
            index as nat,
        ) + " out of range (found "@ + text::decimal(count as nat) + if count == 1 {
            " display)"@
        } else {
            " displays)"@
        },
        DisplayError::Disappeared => "display disappeared during reset"@,
    }
}

impl DisplayError {
    /// How the error is reported.
    pub fn to_text(&self) -> (message: String)
        ensures
            message@ == display_error_text(*self),
    {
        match *self {
            DisplayError::NoDisplays => text::copy("no displays found"),
            DisplayError::OutOfRange { index, count } => {
                let mut message = text::copy("display index ");
                text::push_decimal(&mut message, index as u64);
                message.append(" out of range (found ");
                text::push_decimal(&mut message, count as u64);
                message.append(
                    if count == 1 {
                        " display)"
                    } else {
                        " displays)"
                    },
                );
                message
            },
            DisplayError::Disappeared => text::copy("display disappeared during reset"),
        }
    }
}

/// A picture of a display as it comes: rows may be padded.
pub open spec fn frame_pixels(frame: Seq<u8>, width: u32, height: u32) -> Seq<u8> {
    let stride = frame.len() / height as nat;
    if stride == width * 4 {
        frame
    } else {
        rows::packed(frame, stride, (width * 4) as nat, height as nat)
    }
}

/// The pixels of a picture of `height` rows, without padding. A picture
/// without pixels gives none.
pub fn unpack_frame(frame: &[u8], width: u32, height: u32) -> (out: Option<Vec<u8>>)
    requires
        width * 4 <= usize::MAX,
        width > 0 && height > 0 && frame@.len() / height as nat != width * 4 ==> rows::rows_fit(
            frame@.len(),
            frame@.len() / height as nat,
            (width * 4) as nat,
            height as nat,
        ),
    ensures
        match out {
            Some(pixels) => {
                &&& width > 0
                &&& height > 0
                &&& pixels@ == frame_pixels(frame@, width, height)
            },
            None => width == 0 || height == 0,
        },
{
    if height == 0 || width == 0 {
        return None;
    }
    let stride: usize = frame.len() / height as usize;
    let row_bytes: usize = width as usize * 4;
    if stride == row_bytes {
        Some(bytes::copy_all(frame))
    } else {
        Some(rows::pack_rows(frame, stride, row_bytes, height as usize))
    }
}

/// Where the next picture comes from.
#[derive(Debug, Clone, Copy, PartialEq, Eq, Structural)]
pub enum FrameSource {
    /// The capturer.
    Capturer,
    /// The X11 fallback.
    Fallback,
}

/// Captures one display. On Linux an X11 fallback may stand by for displays of
/// which the capturer sees nothing but black.
#[derive(Debug, Clone, Copy, PartialEq, Eq, Structural)]
pub struct ScrapCapture {
    pub width: u32,
    pub height: u32,
    pub display_index: usize,
    /// An X11 fallback is there.
    pub has_fallback: bool,
    /// It is used.
    pub fallback_active: bool,
}

impl ScrapCapture {
    /// The displays of these sizes, in order. The first is the primary one.
    pub fn list_displays(sizes: &[(u32, u32)]) -> (displays: Vec<DisplayInfo>)
        ensures
            displays@.len() == sizes@.len(),
            forall|i: int|
                0 <= i < sizes@.len() ==> #[trigger] displays@[i] == (DisplayInfo {
                    index: i as usize,
                    width: sizes@[i].0,
                    height: sizes@[i].1,
                    is_primary: i == 0,
                }),
    {
        let mut displays: Vec<DisplayInfo> = Vec::new();
        let mut i: usize = 0;
        while i < sizes.len()
            invariant
                i <= sizes@.len(),
                displays@.len() == i,
                forall|j: int|
                    0 <= j < i ==> #[trigger] displays@[j] == (DisplayInfo {
                        index: j as usize,
                        width: sizes@[j].0,
                        height: sizes@[j].1,
                        is_primary: j == 0,
                    }),
            decreases sizes@.len() - i,
        {
            let (width, height) = sizes[i];
            displays.push(DisplayInfo { index: i, width, height, is_primary: i == 0 });
            i += 1;
        }
        displays
    }

    /// The display whose device name is `device`, in whatever case.
    pub fn windows_display_index_for_device_name(names: &[String], device: &str) -> (index: Option<
        usize,
    >)
        ensures
            match index {
                Some(i) => {
                    &&& i < names@.len()
                    &&& text::same_ignoring_case(names@[i as int]@, device@)
                    &&& forall|j: int|
                        0 <= j < i ==> !text::same_ignoring_case((#[trigger] names@[j])@, device@)
                },
                None => forall|j: int|
                    0 <= j < names@.len() ==> !text::same_ignoring_case(
                        (#[trigger] names@[j])@,
                        device@,
                    ),
            },
    {
        let mut i: usize = 0;
        while i < names.len()
            invariant
                i <= names@.len(),
                forall|j: int|
                    0 <= j < i ==> !text::same_ignoring_case((#[trigger] names@[j])@, device@),
            decreases names@.len() - i,
        {
            if text::eq_ignore_case(names[i].as_str(), device) {
                return Some(i);
            }
            i += 1;
        }
        None
    }

    /// Capture the display `index` of `displays`. A fallback that is there is
    /// used from the start.
    pub fn with_display(index: usize, displays: &[DisplayInfo], has_fallback: bool) -> (out: Result<
        Self,
        DisplayError,
    >)
        ensures
            match out {
                Ok(capture) => {
                    &&& index < displays@.len()
                    &&& capture == (ScrapCapture {
                        width: displays@[index as int].width,
                        height: displays@[index as int].height,
                        display_index: index,
                        has_fallback,
                        fallback_active: has_fallback,
                    })
                },
                Err(e) => {
                    &&& index >= displays@.len()
                    &&& e == if displays@.len() == 0 {
                        DisplayError::NoDisplays
                    } else {
                        DisplayError::OutOfRange { index, count: displays@.len() as usize }
                    }
                },
            },
    {
        if displays.len() == 0 {
            return Err(DisplayError::NoDisplays);
        }
        if index >= displays.len() {
            return Err(DisplayError::OutOfRange { index, count: displays.len() });
        }
        let display = displays[index];
        Ok(
            ScrapCapture {
                width: display.width,
                height: display.height,
                display_index: index,
                has_fallback,
                fallback_active: has_fallback,
            },
        )
    }

    /// Capture anew: the same display, or the last one where there are fewer
    /// now.
    pub fn reset(&mut self, displays: &[DisplayInfo], has_fallback: bool) -> (out: Result<
        (),
        DisplayError,
    >)
        ensures
            displays@.len() == 0 ==> {
                &&& out == Err::<(), DisplayError>(DisplayError::Disappeared)
                &&& *final(self) == *old(self)
            },
            displays@.len() > 0 ==> {
                let index = if old(self).display_index < displays@.len() {
                    old(self).display_index
                } else {
                    (displays@.len() - 1) as usize
                };
                &&& out is Ok
                &&& *final(self) == (ScrapCapture {
                    width: displays@[index as int].width,
                    height: displays@[index as int].height,
                    display_index: index,
                    has_fallback,
                    fallback_active: has_fallback,
                })
            },
    {
        if displays.len() == 0 {
            return Err(DisplayError::Disappeared);
        }
        let index: usize = if self.display_index < displays.len() {
            self.display_index
        } else {
            displays.len() - 1
        };
        let display = displays[index];
        self.width = display.width;
        self.height = display.height;
        self.display_index = index;
        self.has_fallback = has_fallback;
        self.fallback_active = has_fallback;
        Ok(())
    }

    /// Width and height of the captured picture.
    pub fn resolution(&self) -> (size: (u32, u32))
        ensures
            size == (self.width, self.height),
    {
        (self.width, self.height)
    }

    /// The number of the captured display.
    pub fn display_index(&self) -> (index: usize)
        ensures
            index == self.display_index,
    {
        self.display_index
    }

    /// Where the next picture comes from.
    pub fn source(&self) -> (source: FrameSource)
        ensures
            source == if self.fallback_active && self.has_fallback {
                FrameSource::Fallback
            } else {
                FrameSource::Capturer
            },
    {
        if self.fallback_active && self.has_fallback {
            FrameSource::Fallback
        } else {
            FrameSource::Capturer
        }
    }

    /// Whether the fallback is to be asked too: the capturer's picture is
    /// black and there is one.
    pub fn should_try_fallback(&self, pixels: &[u8]) -> (try_it: bool)
        ensures
            try_it == (self.has_fallback && stats::is_mostly_black(pixels@)),
    {
        stats::frame_is_mostly_black(pixels) && self.has_fallback
    }

    /// The fallback's picture. Whether it is used, from now on: it shows
    /// something.
    pub fn on_fallback_frame(&mut self, pixels: &[u8]) -> (use_it: bool)
        ensures
            use_it == !stats::is_mostly_black(pixels@),
            *final(self) == (ScrapCapture {
                fallback_active: old(self).fallback_active || use_it,
                ..*old(self)
            }),
    {
        let use_it = !stats::frame_is_mostly_black(pixels);
        if use_it {
            self.fallback_active = true;
        }
        use_it
    }
}

/// A picture that is taken in keeps every pixel in its place, whether its rows are padded
/// or not.
pub proof fn law_padding_is_dropped(
    frame: &[u8],
    width: u32,
    height: u32,
    out: Option<Vec<u8>>,
    x: int,
    y: int,
)
    requires
        width > 0,
        height > 0,
        width * 4 <= usize::MAX,
        rows::rows_fit(
            frame@.len(),
            frame@.len() / height as nat,
            (width * 4) as nat,
            height as nat,
        ),
        call_ensures(unpack_frame, (frame, width, height), out),
        0 <= x < width * 4,
        0 <= y < height,
    ensures
        out is Some,
        out matches Some(pixels) ==> pixels@[y * (width * 4) + x] == frame@[y * (frame@.len()
            / height as nat) + x],
{
    rows::law_packed_keeps_pixels(
        frame@,
        frame@.len() / height as nat,
        (width * 4) as nat,
        height as nat,
        x,
        y,
    );
}

/// The display that is asked for is captured if it is there; otherwise nothing is, and the
/// error says how many there are. A fallback that is there is used at once.
pub proof fn law_asked_display_is_captured(
    index: usize,
    displays: &[DisplayInfo],
    has_fallback: bool,
    out: Result<ScrapCapture, DisplayError>,
)
    requires
        call_ensures(ScrapCapture::with_display, (index, displays, has_fallback), out),
    ensures
        out is Ok <==> index < displays@.len(),
        out matches Ok(c) ==> c.display_index == index && c.width == displays@[index as int].width
            && c.height == displays@[index as int].height && c.has_fallback == has_fallback
            && c.fallback_active == has_fallback,
        displays@.len() == 0 ==> out == Err::<ScrapCapture, _>(DisplayError::NoDisplays),
        index >= displays@.len() && displays@.len() > 0 ==> out == Err::<ScrapCapture, _>(
            DisplayError::OutOfRange { index, count: displays@.len() as usize },
        ),
{
}

/// Starting over stays at its display, takes the last one where that is gone, and changes
/// nothing where none is left.
pub proof fn law_reset_stays_at_its_display(displays: &[DisplayInfo], has_fallback: bool)
    ensures
        forall|c: &mut ScrapCapture, out: Result<(), DisplayError>| #[trigger]
            call_ensures(ScrapCapture::reset, (c, displays, has_fallback), out) ==> {
                let (before, after) = (*c, *final(c));
                &&& out is Ok <==> displays@.len() > 0
                &&& displays@.len() == 0 ==> after == before
                &&& before.display_index < displays@.len() ==> after.display_index
                    == before.display_index
                &&& before.display_index >= displays@.len() && displays@.len() > 0
                    ==> after.display_index + 1 == displays@.len()
                &&& displays@.len() > 0 ==> after.width
                    == displays@[after.display_index as int].width && after.height
                    == displays@[after.display_index as int].height && after.fallback_active
                    == has_fallback && after.has_fallback == has_fallback
            },
{
}

/// The fallback is asked only where there is one and the picture is black, and once it has
/// shown something it is where pictures come from.
pub proof fn law_fallback_takes_over_once_it_shows(
    capture: ScrapCapture,
    pixels: &[u8],
    try_it: bool,
    source: FrameSource,
)
    requires
        call_ensures(ScrapCapture::should_try_fallback, (&capture, pixels), try_it),
        call_ensures(ScrapCapture::source, (&capture,), source),
    ensures
        try_it ==> capture.has_fallback && stats::is_mostly_black(pixels@),
        capture.has_fallback && stats::is_mostly_black(pixels@) ==> try_it,
        source is Fallback <==> capture.has_fallback && capture.fallback_active,
        forall|c: &mut ScrapCapture, used: bool| #[trigger]
            call_ensures(ScrapCapture::on_fallback_frame, (c, pixels), used) ==> {
                &&& used <==> !stats::is_mostly_black(pixels@)
                &&& used ==> (*final(c)).fallback_active
                &&& !used ==> *final(c) == *c
                &&& (*final(c)).display_index == (*c).display_index
                &&& (*final(c)).has_fallback == (*c).has_fallback
            },
{
}

/// Displays are listed in order, with the first as the primary one.
pub proof fn law_first_display_is_primary(
    sizes: &[(u32, u32)],
    displays: Vec<DisplayInfo>,
    i: int,
)
    requires
        call_ensures(ScrapCapture::list_displays, (sizes,), displays),
        0 <= i < sizes@.len(),
        sizes@.len() <= usize::MAX,
    ensures
        displays@.len() == sizes@.len(),
        displays@[i].index == i,
        displays@[i].is_primary <==> i == 0,
        (displays@[i].width, displays@[i].height) == sizes@[i],
{
}

} // verus!
