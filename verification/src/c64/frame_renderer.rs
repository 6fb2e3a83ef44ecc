//! A simulated TV display for the VIC-II output: it paints the pixels that
//! fall into its viewport and tells when the beam leaves it at the bottom.
use crate::c64::vic::{
    raster_line_to_screen_y, VideoOutput, LEFT_BORDER_START, TOP_BORDER_FIRST_LINE, TOTAL_HEIGHT,
    VISIBLE_LINES, VISIBLE_PIXELS,
};
use crate::common::colors::{black, create_palette, opaque_black, Rgba};
use vstd::prelude::*;

verus! {

/// The state of a display: the palette, the viewport (its left column, top
/// screen line, width and height), the picture and whether the beam is
/// outside the viewport's lines.
pub struct FrameRendererView {
    pub palette: Seq<Rgba>,
    pub left: nat,
    pub top: nat,
    pub width: nat,
    pub height: nat,
    /// The picture, row by row, `width` pixels in each.
    pub frame: Seq<Rgba>,
    pub vblank: bool,
}

/// Consumes VIC-II video output and renders it on a picture.
pub struct FrameRenderer {
    palette: Vec<Rgba>,
    viewport: [usize; 4],
    frame: Vec<Rgba>,
    vblank: bool,
}

impl View for FrameRenderer {
    type V = FrameRendererView;

    closed spec fn view(&self) -> FrameRendererView {
        FrameRendererView {
            palette: self.palette@,
            left: self.viewport[0] as nat,
            top: self.viewport[1] as nat,
            width: self.viewport[2] as nat,
            height: self.viewport[3] as nat,
            frame: self.frame@,
            vblank: self.vblank,
        }
    }
}

/// The viewport fits in the machine's numbers and the picture covers it.
pub open spec fn renderer_wf(r: FrameRendererView) -> bool {
    &&& r.frame.len() == r.width * r.height
    &&& r.left + r.width <= usize::MAX
    &&& r.top + r.height <= usize::MAX
}

/// The screen line of a raster line.
pub open spec fn screen_y(raster_line: int) -> int {
    (raster_line + TOTAL_HEIGHT - TOP_BORDER_FIRST_LINE) % (TOTAL_HEIGHT as int)
}

/// Whether a screen line falls inside the viewport's lines.
pub open spec fn in_lines(r: FrameRendererView, y: int) -> bool {
    r.top <= y < r.top + r.height
}

/// Whether a pixel falls inside the viewport.
pub open spec fn in_viewport(r: FrameRendererView, v: VideoOutput) -> bool {
    &&& r.left <= v.x < r.left + r.width
    &&& in_lines(r, screen_y(v.raster_line as int))
}

/// What one pixel of video output does to the display, and whether it
/// completes a frame: the pixel is painted if it falls into the viewport, and
/// the frame is complete when the beam first leaves the viewport's lines.
pub open spec fn consume_spec(r: FrameRendererView, v: VideoOutput) -> (FrameRendererView, bool) {
    let y = screen_y(v.raster_line as int);
    let frame = if in_viewport(r, v) {
        r.frame.update((y - r.top) * r.width + (v.x - r.left), r.palette[v.color as int])
    } else {
        r.frame
    };
    let in_y = in_lines(r, y);
    (FrameRendererView { frame, vblank: !in_y, ..r }, !r.vblank && !in_y)
}

/// Whether the display can take `v`: a painted pixel needs a palette entry,
/// and the raster line must be one that the VIC-II can report.
pub open spec fn can_consume(r: FrameRendererView, v: VideoOutput) -> bool {
    &&& v.raster_line + TOTAL_HEIGHT <= usize::MAX
    &&& in_viewport(r, v) ==> (v.color as int) < r.palette.len()
}

impl FrameRenderer {
    pub closed spec fn wf(&self) -> bool {
        renderer_wf(self@)
    }

    /// A display with a given palette and viewport (left column, top screen
    /// line, width, height), showing a black picture.
    pub fn new(palette: Vec<Rgba>, viewport: [usize; 4]) -> (r: Self)
        requires
            viewport[2] * viewport[3] <= usize::MAX,
            viewport[0] + viewport[2] <= usize::MAX,
            viewport[1] + viewport[3] <= usize::MAX,
        ensures
            r.wf(),
            r@ == (FrameRendererView {
                palette: palette@,
                left: viewport[0] as nat,
                top: viewport[1] as nat,
                width: viewport[2] as nat,
                height: viewport[3] as nat,
                frame: Seq::new((viewport[2] * viewport[3]) as nat, |i: int| black()),
                vblank: false,
            }),
    {
        let size: usize = viewport[2] * viewport[3];
        let mut frame: Vec<Rgba> = Vec::new();
        while frame.len() < size
            invariant
                frame@.len() <= size,
                forall|k: int| 0 <= k < frame@.len() ==> frame@[k] == black(),
            decreases size - frame@.len(),
        {
            frame.push(opaque_black());
        }
        assert(frame@ == Seq::new((viewport[2] * viewport[3]) as nat, |i: int| black()));
        FrameRenderer { palette, viewport, frame, vblank: false }
    }

    /// Consumes a single pixel of video output. Returns `true` if it marks
    /// the frame as ready to be shown.
    pub fn consume(&mut self, vic_output: VideoOutput) -> (r: bool)
        requires
            old(self).wf(),
            can_consume(old(self)@, vic_output),
        ensures
            final(self).wf(),
            (final(self)@, r) == consume_spec(old(self)@, vic_output),
    {
        let left = self.viewport[0];
        let top = self.viewport[1];
        let width = self.viewport[2];
        let height = self.viewport[3];
        let x = vic_output.x;
        let y = raster_line_to_screen_y(vic_output.raster_line);
        let in_y_range = top <= y && y < top + height;
        if left <= x && x < left + width && in_y_range {
            let frame_len = self.frame.len();
            assert(frame_len == width * height);
            proof {
                assert((y - top) * width + (x - left) < width * height) by (nonlinear_arith)
                    requires
                        0 <= y - top < height,
                        0 <= x - left < width,
                ;
            }
            let index: usize = (y - top) * width + (x - left);
            self.frame.set(index, self.palette[vic_output.color as usize]);
        }
        let frame_complete = !self.vblank && !in_y_range;
        self.vblank = !in_y_range;
        frame_complete
    }

    /// The picture, row by row.
    pub fn frame_image(&self) -> (r: &[Rgba])
        ensures
            r@ == self@.frame,
    {
        self.frame.as_slice()
    }

    /// The width and height of the picture in pixels.
    pub fn size(&self) -> (r: (usize, usize))
        ensures
            r.0 == self@.width,
            r.1 == self@.height,
    {
        (self.viewport[2], self.viewport[3])
    }

    /// The number of colors in the palette.
    pub fn palette_len(&self) -> (r: usize)
        ensures
            r == self@.palette.len(),
    {
        self.palette.len()
    }
}

/// The sixteen colors of the VIC-II.
pub open spec fn vic_colors() -> Seq<u32> {
    seq![
        0x000000u32, 0xffffff, 0x813338, 0x75cec8, 0x8e3c97, 0x56ac4d, 0x2e2c9b, 0xedf171,
        0x8e5029, 0x553800, 0xc46c71, 0x4a4a4a, 0x7b7b7b, 0xa9ff9f, 0x706deb, 0xb2b2b2,
    ]
}

impl Default for FrameRenderer {
    /// A display with the VIC-II palette and a viewport that covers the
    /// visible lines and pixels, borders included.
    fn default() -> (r: Self)
        ensures
            r.wf(),
            r@.palette == vic_colors().map_values(|c: u32| crate::common::colors::rgb_color(c)),
            r@.left == LEFT_BORDER_START,
            r@.top == screen_y(TOP_BORDER_FIRST_LINE as int),
            r@.width == VISIBLE_PIXELS,
            r@.height == VISIBLE_LINES,
            r@.frame == Seq::new((VISIBLE_PIXELS * VISIBLE_LINES) as nat, |i: int| black()),
            !r@.vblank,
    {
        let colors: [u32; 16] = [
            0x000000, 0xffffff, 0x813338, 0x75cec8, 0x8e3c97, 0x56ac4d, 0x2e2c9b, 0xedf171,
            0x8e5029, 0x553800, 0xc46c71, 0x4a4a4a, 0x7b7b7b, 0xa9ff9f, 0x706deb, 0xb2b2b2,
        ];
        let palette = create_palette(colors.as_slice());
        assert(colors@ == vic_colors());
        let viewport: [usize; 4] = [
            LEFT_BORDER_START,
            raster_line_to_screen_y(TOP_BORDER_FIRST_LINE),
            VISIBLE_PIXELS,
            VISIBLE_LINES,
        ];
        Self::new(palette, viewport)
    }
}

/// Whether a colour is a grey: all three channels equal.
pub open spec fn is_grey(c: Rgba) -> bool {
    c.r == c.g && c.g == c.b
}

/// Whether red is the strongest channel of a colour.
pub open spec fn reddish(c: Rgba) -> bool {
    c.r > c.g && c.r > c.b
}

/// Whether green is the strongest channel of a colour.
pub open spec fn greenish(c: Rgba) -> bool {
    c.g > c.r && c.g > c.b
}

/// Whether blue is the strongest channel of a colour.
pub open spec fn bluish(c: Rgba) -> bool {
    c.b > c.r && c.b > c.g
}

/// Whether every channel of `a` is brighter than that of `b`.
pub open spec fn lighter(a: Rgba, b: Rgba) -> bool {
    a.r > b.r && a.g > b.g && a.b > b.b
}

/// Palette law: the default display shows each VIC-II colour code as the
/// colour that the chip's colour table names for it: 0 black, 1 white,
/// 2 red, 3 cyan, 4 purple, 5 green, 6 blue, 7 yellow, 8 orange, 9 brown,
/// 10 light red, 11 dark grey, 12 grey, 13 light green, 14 light blue,
/// 15 light grey; every colour is opaque.
pub proof fn lemma_vic_palette()
    ensures
        ({
            let p = vic_colors().map_values(|c: u32| crate::common::colors::rgb_color(c));
            &&& p.len() == 16
            &&& forall|i: int| 0 <= i < 16 ==> #[trigger] p[i].a == 0xFF
            &&& p[0].r == 0 && p[0].g == 0 && p[0].b == 0
            &&& p[1].r == 0xFF && p[1].g == 0xFF && p[1].b == 0xFF
            &&& reddish(p[2])
            &&& p[3].g > p[3].r && p[3].b > p[3].r
            &&& p[4].r > p[4].g && p[4].b > p[4].g
            &&& greenish(p[5])
            &&& bluish(p[6])
            &&& p[7].r > p[7].b && p[7].g > p[7].b
            &&& p[8].r > p[8].g && p[8].g > p[8].b
            &&& p[9].r > p[9].g && p[9].g > p[9].b
            &&& p[9].r + p[9].g + p[9].b < p[8].r + p[8].g + p[8].b
            &&& reddish(p[10]) && lighter(p[10], p[2])
            &&& is_grey(p[11]) && is_grey(p[12]) && is_grey(p[15])
            &&& 0 < p[11].r < p[12].r < p[15].r < 0xFF
            &&& greenish(p[13]) && lighter(p[13], p[5])
            &&& bluish(p[14]) && lighter(p[14], p[6])
        }),
{
    let p = vic_colors().map_values(|c: u32| crate::common::colors::rgb_color(c));
    assert forall|i: int| 0 <= i < 16 implies #[trigger] p[i].a == 0xFF by {}
}

/// Frame law: the output right after a completed frame completes none, and
/// an output outside the viewport's lines leaves the picture alone.
pub proof fn lemma_frames_are_separated(r: FrameRendererView, v: VideoOutput, w: VideoOutput)
    requires
        consume_spec(r, v).1,
    ensures
        !consume_spec(consume_spec(r, v).0, w).1,
        consume_spec(r, v).0.frame == r.frame,
{
}

} // verus!
