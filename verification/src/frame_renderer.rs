//! A simulated TV display for the Atari TIA signal: it follows the sync
//! signals with a beam and paints the pixels that fall into its viewport.
use crate::common::colors::{black, opaque_black, Rgba};
use crate::tia::{VideoOutput, FRAME_WIDTH, HBLANK_WIDTH, HSYNC_END};
use vstd::prelude::*;

verus! {

/// The state of a display: its palette and viewport, the picture and the beam.
pub struct FrameRendererView {
    pub palette: Seq<Rgba>,
    /// The scanline, counted from the end of VSYNC, shown in the first row.
    pub first_visible_scanline_index: int,
    pub height: nat,
    /// The picture, row by row, `FRAME_WIDTH` pixels in each.
    pub frame: Seq<Rgba>,
    /// The column of the next pixel; 0 is the start of the front porch.
    pub x: int,
    /// The scanline of the next pixel; 0 is the first one after VSYNC.
    pub y: int,
    pub in_hsync: bool,
    pub in_vsync: bool,
    pub had_first_vsync: bool,
}

/// Consumes TIA video output and renders it on a picture. Use
/// `FrameRendererBuilder` to create one.
pub struct FrameRenderer {
    palette: Vec<Rgba>,
    first_visible_scanline_index: i32,
    height: u32,
    frame: Vec<Rgba>,
    x: i32,
    y: i32,
    in_hsync: bool,
    in_vsync: bool,
    had_first_vsync: bool,
}

impl View for FrameRenderer {
    type V = FrameRendererView;

    closed spec fn view(&self) -> FrameRendererView {
        FrameRendererView {
            palette: self.palette@,
            first_visible_scanline_index: self.first_visible_scanline_index as int,
            height: self.height as nat,
            frame: self.frame@,
            x: self.x as int,
            y: self.y as int,
            in_hsync: self.in_hsync,
            in_vsync: self.in_vsync,
            had_first_vsync: self.had_first_vsync,
        }
    }
}

/// The picture holds a full viewport and the beam is where it can be.
pub open spec fn renderer_wf(r: FrameRendererView) -> bool {
    &&& r.frame.len() == FRAME_WIDTH * r.height
    &&& i32::MIN <= r.first_visible_scanline_index <= i32::MAX
    &&& r.height <= u32::MAX
    &&& 0 <= r.x <= i32::MAX
    &&& -1 <= r.y <= i32::MAX
}

/// The picture after the beam emits `pixel`: painted where the beam is, if
/// that is inside the viewport.
pub open spec fn paint(r: FrameRendererView, pixel: u8) -> Seq<Rgba> {
    let column = r.x - HBLANK_WIDTH;
    let row = r.y - r.first_visible_scanline_index;
    if 0 <= column < FRAME_WIDTH && 0 <= row < r.height {
        r.frame.update(row * FRAME_WIDTH + column, r.palette[pixel as int])
    } else {
        r.frame
    }
}

/// What one video output does to the display, and whether it completes a
/// frame. VSYNC moves the beam above the top scanline, and each VSYNC after
/// the first ends a frame; HSYNC moves it to the start of the next scanline
/// once per pulse; anything else moves it right, painting a pixel if there is
/// one.
pub open spec fn consume_spec(r: FrameRendererView, v: VideoOutput) -> (FrameRendererView, bool) {
    if v.vsync {
        if !r.in_vsync {
            let moved = FrameRendererView { y: -1, in_vsync: true, ..r };
            if !r.had_first_vsync {
                (FrameRendererView { had_first_vsync: true, ..moved }, false)
            } else {
                (moved, true)
            }
        } else {
            (r, false)
        }
    } else if v.hsync {
        if !r.in_hsync {
            (
                FrameRendererView {
                    y: r.y + 1,
                    x: HSYNC_END as int,
                    in_hsync: true,
                    in_vsync: false,
                    ..r
                },
                false,
            )
        } else {
            (FrameRendererView { in_hsync: true, in_vsync: false, ..r }, false)
        }
    } else {
        let frame = match v.pixel {
            Some(p) => paint(r, p),
            None => r.frame,
        };
        (
            FrameRendererView { frame, x: r.x + 1, in_hsync: false, in_vsync: false, ..r },
            false,
        )
    }
}

/// Whether the display can take `v`: a pixel needs a palette entry, and the
/// beam must not run past the largest column or scanline.
pub open spec fn can_consume(r: FrameRendererView, v: VideoOutput) -> bool {
    &&& (!v.vsync && !v.hsync) ==> r.x < i32::MAX
    &&& (!v.vsync && !v.hsync && v.pixel is Some) ==> (v.pixel->0 as int) < r.palette.len()
    &&& (!v.vsync && v.hsync && !r.in_hsync) ==> r.y < i32::MAX
}

impl FrameRenderer {
    pub closed spec fn wf(&self) -> bool {
        renderer_wf(self@)
    }

    /// Consumes a single video output. Returns `true` if it marks the frame
    /// as ready to be shown.
    pub fn consume(&mut self, video_output: VideoOutput) -> (r: bool)
        requires
            old(self).wf(),
            can_consume(old(self)@, video_output),
        ensures
            final(self).wf(),
            (final(self)@, r) == consume_spec(old(self)@, video_output),
    {
        if video_output.vsync {
            if !self.in_vsync {
                self.y = -1;
                self.in_vsync = true;
                if !self.had_first_vsync {
                    self.had_first_vsync = true;
                    return false;
                }
                return true;
            }
            return false;
        }
        self.in_vsync = false;
        if video_output.hsync {
            if !self.in_hsync {
                self.y = self.y + 1;
                self.x = HSYNC_END as i32;
            }
            self.in_hsync = true;
            return false;
        }
        self.in_hsync = false;
        if let Some(pixel) = video_output.pixel {
            let color = self.palette[pixel as usize];
            let frame_len = self.frame.len();
            assert(frame_len == FRAME_WIDTH * self.height);
            let column: i64 = self.x as i64 - HBLANK_WIDTH as i64;
            let row: i64 = self.y as i64 - self.first_visible_scanline_index as i64;
            if 0 <= column && column < FRAME_WIDTH as i64 && 0 <= row && row < self.height as i64 {
                proof {
                    assert(row * FRAME_WIDTH + column < FRAME_WIDTH * self.height) by (nonlinear_arith)
                        requires
                            0 <= row < self.height,
                            0 <= column < FRAME_WIDTH,
                    ;
                }
                let index: usize = row as usize * FRAME_WIDTH as usize + column as usize;
                self.frame.set(index, color);
            }
        }
        self.x = self.x + 1;
        false
    }

    /// The picture, row by row.
    pub fn frame_image(&self) -> (r: &[Rgba])
        ensures
            r@ == self@.frame,
    {
        self.frame.as_slice()
    }

    /// The width of the picture in pixels.
    pub fn width(&self) -> (r: u32)
        ensures
            r == FRAME_WIDTH,
    {
        FRAME_WIDTH
    }

    /// The height of the picture in pixels.
    pub fn height(&self) -> (r: u32)
        ensures
            r == self@.height,
    {
        self.height
    }

    /// Where the beam is: its column and its scanline.
    pub fn beam(&self) -> (r: (i32, i32))
        ensures
            r.0 == self@.x,
            r.1 == self@.y,
    {
        (self.x, self.y)
    }

    /// The number of colors in the palette.
    pub fn palette_len(&self) -> (r: usize)
        ensures
            r == self@.palette.len(),
    {
        self.palette.len()
    }
}

/// Frame law: a completed frame is followed by at least one output that
/// completes none, since the display stays in VSYNC until the pulse ends.
pub proof fn lemma_frames_are_separated(r: FrameRendererView, v: VideoOutput, w: VideoOutput)
    requires
        consume_spec(r, v).1,
    ensures
        !consume_spec(consume_spec(r, v).0, w).1,
        consume_spec(r, v).0.frame == r.frame,
{
}

/// Frame law: a frame is complete exactly when a VSYNC pulse starts after an
/// earlier one.
pub proof fn lemma_frame_completion(r: FrameRendererView, v: VideoOutput)
    ensures
        consume_spec(r, v).1 <==> (v.vsync && !r.in_vsync && r.had_first_vsync),
{
}

/// The display after consuming `outputs`, in order.
pub open spec fn consume_all(r: FrameRendererView, outputs: Seq<VideoOutput>) -> FrameRendererView
    decreases outputs.len(),
{
    if outputs.len() == 0 {
        r
    } else {
        consume_spec(consume_all(r, outputs.drop_last()), outputs.last()).0
    }
}

proof fn lemma_sync_state(r: FrameRendererView, outputs: Seq<VideoOutput>)
    requires
        !r.in_vsync,
        !r.had_first_vsync,
    ensures
        consume_all(r, outputs).in_vsync == (outputs.len() > 0 && outputs.last().vsync),
        consume_all(r, outputs).had_first_vsync == exists|j: int|
            0 <= j < outputs.len() && (#[trigger] outputs[j]).vsync,
    decreases outputs.len(),
{
    if outputs.len() > 0 {
        let front = outputs.drop_last();
        lemma_sync_state(r, front);
        if exists|j: int| 0 <= j < front.len() && (#[trigger] front[j]).vsync {
            let j = choose|j: int| 0 <= j < front.len() && (#[trigger] front[j]).vsync;
            assert(outputs[j] == front[j]);
        }
        if exists|j: int| 0 <= j < outputs.len() && (#[trigger] outputs[j]).vsync {
            let j = choose|j: int| 0 <= j < outputs.len() && (#[trigger] outputs[j]).vsync;
            if j < front.len() {
                assert(front[j] == outputs[j]);
            }
        }
    }
}

/// Frame law over a whole signal: on a display that is not in VSYNC and has
/// not seen one yet (as `FrameRendererBuilder::build` makes it), the output
/// at index `k` completes a frame exactly when it starts a VSYNC pulse (it
/// has VSYNC and the output before it, if any, has not) and an earlier
/// output already had VSYNC: every rising edge of VSYNC but the first ends a
/// frame.
pub proof fn lemma_frames_at_vsync_rising_edges(r: FrameRendererView, outputs: Seq<VideoOutput>, k: int)
    requires
        !r.in_vsync,
        !r.had_first_vsync,
        0 <= k < outputs.len(),
    ensures
        consume_spec(consume_all(r, outputs.take(k)), outputs[k]).1 <==> (outputs[k].vsync && !(k > 0
            && outputs[k - 1].vsync) && exists|j: int| 0 <= j < k && (#[trigger] outputs[j]).vsync),
{
    let front = outputs.take(k);
    lemma_sync_state(r, front);
    if k > 0 {
        assert(front.last() == outputs[k - 1]);
    }
    if exists|j: int| 0 <= j < front.len() && (#[trigger] front[j]).vsync {
        let j = choose|j: int| 0 <= j < front.len() && (#[trigger] front[j]).vsync;
        assert(outputs[j] == front[j]);
    }
    if exists|j: int| 0 <= j < k && (#[trigger] outputs[j]).vsync {
        let j = choose|j: int| 0 <= j < k && (#[trigger] outputs[j]).vsync;
        assert(front[j] == outputs[j]);
    }
}

/// The settings of a display, from which displays are built.
pub struct FrameRendererBuilder {
    height: u32,
    palette: Vec<Rgba>,
    first_visible_scanline_index: i32,
}

/// The settings of a display: its height, palette and first visible scanline.
pub struct FrameRendererBuilderView {
    pub height: nat,
    pub palette: Seq<Rgba>,
    pub first_visible_scanline_index: int,
}

impl View for FrameRendererBuilder {
    type V = FrameRendererBuilderView;

    closed spec fn view(&self) -> FrameRendererBuilderView {
        FrameRendererBuilderView {
            height: self.height as nat,
            palette: self.palette@,
            first_visible_scanline_index: self.first_visible_scanline_index as int,
        }
    }
}

impl FrameRendererBuilder {
    /// The default settings: 192 scanlines, an empty palette, and the
    /// viewport starting 37 scanlines after VSYNC.
    pub fn new() -> (r: FrameRendererBuilder)
        ensures
            r@.height == 192,
            r@.palette.len() == 0,
            r@.first_visible_scanline_index == 37,
    {
        FrameRendererBuilder { height: 192, palette: Vec::new(), first_visible_scanline_index: 37 }
    }

    /// Changes the color palette.
    pub fn with_palette(self, palette: Vec<Rgba>) -> (r: Self)
        ensures
            r@ == (FrameRendererBuilderView { palette: palette@, ..self@ }),
    {
        FrameRendererBuilder { palette, ..self }
    }

    /// Changes the viewport height.
    pub fn with_height(self, height: u32) -> (r: Self)
        ensures
            r@ == (FrameRendererBuilderView { height: height as nat, ..self@ }),
    {
        FrameRendererBuilder { height, ..self }
    }

    /// Sets which scanline is the first one visible in the viewport; 0 is the
    /// one right after VSYNC.
    pub fn with_first_visible_scanline_index(self, index: i32) -> (r: Self)
        ensures
            r@ == (FrameRendererBuilderView { first_visible_scanline_index: index as int, ..self@ }),
    {
        FrameRendererBuilder { first_visible_scanline_index: index, ..self }
    }

    /// Creates a display with these settings: a black picture and the beam
    /// below the viewport, waiting for the first VSYNC. The builder can be
    /// used again.
    pub fn build(&self) -> (r: FrameRenderer)
        requires
            self@.first_visible_scanline_index + self@.height <= i32::MAX,
            self@.first_visible_scanline_index + self@.height >= -1,
            FRAME_WIDTH * self@.height <= usize::MAX,
        ensures
            r.wf(),
            r@ == (FrameRendererView {
                palette: self@.palette,
                first_visible_scanline_index: self@.first_visible_scanline_index,
                height: self@.height,
                frame: Seq::new((FRAME_WIDTH * self@.height) as nat, |i: int| black()),
                x: 0,
                y: self@.first_visible_scanline_index + self@.height,
                in_hsync: false,
                in_vsync: false,
                had_first_vsync: false,
            }),
    {
        let mut palette: Vec<Rgba> = Vec::new();
        let mut i: usize = 0;
        while i < self.palette.len()
            invariant
                i <= self.palette@.len(),
                palette@ == self.palette@.subrange(0, i as int),
            decreases self.palette@.len() - i,
        {
            palette.push(self.palette[i]);
            assert(self.palette@.subrange(0, i + 1) == self.palette@.subrange(0, i as int).push(
                self.palette@[i as int],
            ));
            i = i + 1;
        }
        assert(self.palette@.subrange(0, self.palette@.len() as int) == self.palette@);
        let size: usize = FRAME_WIDTH as usize * self.height as usize;
        let mut frame: Vec<Rgba> = Vec::new();
        while frame.len() < size
            invariant
                frame@.len() <= size,
                forall|k: int| 0 <= k < frame@.len() ==> frame@[k] == black(),
            decreases size - frame@.len(),
        {
            frame.push(opaque_black());
        }
        assert(frame@ == Seq::new((FRAME_WIDTH * self@.height) as nat, |i: int| black()));
        FrameRenderer {
            palette,
            first_visible_scanline_index: self.first_visible_scanline_index,
            height: self.height,
            frame,
            x: 0,
            y: (self.first_visible_scanline_index as i64 + self.height as i64) as i32,
            in_hsync: false,
            in_vsync: false,
            had_first_vsync: false,
        }
    }
}

} // verus!
