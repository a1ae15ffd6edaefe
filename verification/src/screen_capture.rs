//! Screen-frame processing: when the next capture is due, whether two
//! frames differ, cropping a region out of a frame, and PNG encoding.

use vstd::prelude::*;

verus! {

/// A captured frame: `width` by `height` pixels, four bytes (red, green,
/// blue, alpha) per pixel, row by row.
#[derive(Clone, Debug)]
pub struct RgbaFrame {
    pub width: u32,
    pub height: u32,
    pub pixels: Vec<u8>,
}

/// Where a display stands and how large it is.
#[derive(Clone, Copy, Debug)]
pub struct DisplayGeometry {
    pub width: u32,
    pub height: u32,
    pub x: i32,
    pub y: i32,
}

/// A display as the agent reports it; the first display counts as primary.
#[derive(Clone, Copy, Debug, PartialEq, Eq, Structural)]
pub struct ScreenInfo {
    pub index: usize,
    pub width: u32,
    pub height: u32,
    pub x: i32,
    pub y: i32,
    pub is_primary: bool,
}

/// Why a frame could not be turned into an image.
#[derive(Clone, Copy, Debug, PartialEq, Eq, Structural)]
pub enum CaptureError {
    /// The requested region has no pixel inside the frame.
    InvalidCropDimensions,
    /// The PNG encoder reported an error.
    EncodingFailed,
}

/// The capture schedule: when the last capture was taken (milliseconds on a
/// monotonic clock) and how long to wait between captures.
#[derive(Clone, Debug)]
pub struct ScreenCapture {
    last_capture_ms: Option<u64>,
    capture_interval_ms: u64,
}

impl ScreenCapture {
    /// The time of the last capture.
    pub closed spec fn last_capture(&self) -> Option<u64> {
        self.last_capture_ms
    }

    /// The time to wait between captures.
    pub closed spec fn interval(&self) -> u64 {
        self.capture_interval_ms
    }

    /// A schedule with no capture yet and five seconds between captures.
    pub fn new() -> (s: Self)
        ensures
            s.last_capture() is None,
            s.interval() == 5000,
    {
        ScreenCapture { last_capture_ms: None, capture_interval_ms: 5000 }
    }

    /// Sets the time between captures.
    pub fn set_capture_interval(&mut self, interval_ms: u64)
        ensures
            final(self).interval() == interval_ms,
            final(self).last_capture() == old(self).last_capture(),
    {
        self.capture_interval_ms = interval_ms;
    }

    /// Whether a capture is due at `now_ms`: there was none yet, or the
    /// interval has passed since the last one (a clock reading before the
    /// last capture counts as no time passed).
    pub fn capture_due(&self, now_ms: u64) -> (r: bool)
        ensures
            r == due_at(self.last_capture(), self.interval(), now_ms),
    {
        match self.last_capture_ms {
            None => true,
            Some(last) => now_ms.saturating_sub(last) >= self.capture_interval_ms,
        }
    }

    /// Notes a successful capture at `now_ms`.
    pub fn record_capture(&mut self, now_ms: u64)
        ensures
            final(self).last_capture() == Some(now_ms),
            final(self).interval() == old(self).interval(),
    {
        self.last_capture_ms = Some(now_ms);
    }

    /// Whether two images differ noticeably: they differ in size, or more
    /// than ten sampled bytes differ. At most about 10000 bytes are sampled,
    /// evenly spaced from the first.
    pub fn detect_changes(&self, previous_image: &[u8], current_image: &[u8]) -> (r: bool)
        ensures
            r == (previous_image@.len() != current_image@.len() || sampled_differences(
                previous_image@,
                current_image@,
                sample_step(previous_image@.len()),
                0,
            ) > 10),
    {
        if previous_image.len() != current_image.len() {
            return true;
        }
        let n = previous_image.len();
        let sample_size = if n < 10000 {
            n
        } else {
            10000
        };
        let step = if n > sample_size {
            n / sample_size
        } else {
            1
        };
        assert(step == sample_step(n as nat));
        let mut differences: u64 = 0;
        let mut i: usize = 0;
        while i < n
            invariant
                n == previous_image@.len(),
                n == current_image@.len(),
                step >= 1,
                step == sample_step(n as nat),
                differences <= 10,
                differences + sampled_differences(previous_image@, current_image@, step as nat, i as int)
                    == sampled_differences(previous_image@, current_image@, step as nat, 0),
            decreases n - i,
        {
            if previous_image[i] != current_image[i] {
                differences += 1;
                if differences > 10 {
                    proof {
                        assert(sampled_differences(previous_image@, current_image@, step as nat, i + step) >= 0);
                    }
                    return true;
                }
            }
            if step > n - i {
                assert(sampled_differences(previous_image@, current_image@, step as nat, i + step) == 0);
                i = n;
            } else {
                i += step;
            }
        }
        false
    }

    /// Cuts the region at (`x`, `y`) of `width` by `height` pixels out of
    /// `frame`. A negative origin counts as 0 and the region is clipped to
    /// the frame; a clipped region without pixels is refused. A pixel whose
    /// bytes lie beyond the frame's buffer comes out as four zero bytes.
    pub fn crop_frame(
        &self,
        frame: &RgbaFrame,
        x: i32,
        y: i32,
        width: u32,
        height: u32,
    ) -> (r: Result<RgbaFrame, CaptureError>)
        requires
            crop_fits(frame.width, frame.height, x, y, width, height),
        ensures
            ({
                let x0 = clamp_origin(x);
                let y0 = clamp_origin(y);
                let w = crop_extent(width, frame.width, x0);
                let h = crop_extent(height, frame.height, y0);
                match r {
                    Ok(f) => w > 0 && h > 0 && f.width == w && f.height == h && f.pixels@
                        == region_bytes(frame.pixels@, frame.width as int, x0, y0, w as nat, h as nat),
                    Err(e) => (w == 0 || h == 0) && e == CaptureError::InvalidCropDimensions,
                }
            }),
    {
        let img_w = frame.width;
        let img_h = frame.height;
        let x0: u32 = if x < 0 {
            0
        } else {
            x as u32
        };
        let y0: u32 = if y < 0 {
            0
        } else {
            y as u32
        };
        let avail_w = img_w.saturating_sub(x0);
        let avail_h = img_h.saturating_sub(y0);
        let w: u32 = if width < avail_w {
            width
        } else {
            avail_w
        };
        let h: u32 = if height < avail_h {
            height
        } else {
            avail_h
        };
        if w == 0 || h == 0 {
            return Err(CaptureError::InvalidCropDimensions);
        }
        let ghost buf = frame.pixels@;
        let mut out: Vec<u8> = Vec::new();
        let mut cy: u32 = 0;
        while cy < h
            invariant
                cy <= h,
                w > 0,
                h > 0,
                x0 == clamp_origin(x),
                y0 == clamp_origin(y),
                w == crop_extent(width, img_w, x0 as int),
                h == crop_extent(height, img_h, y0 as int),
                img_w == frame.width,
                img_h == frame.height,
                buf == frame.pixels@,
                crop_fits(frame.width, frame.height, x, y, width, height),
                out@ == region_bytes(buf, img_w as int, x0 as int, y0 as int, w as nat, cy as nat),
            decreases h - cy,
        {
            let mut cx: u32 = 0;
            while cx < w
                invariant
                    cx <= w,
                    cy < h,
                    w > 0,
                    h > 0,
                    x0 == clamp_origin(x),
                    y0 == clamp_origin(y),
                    w == crop_extent(width, img_w, x0 as int),
                    h == crop_extent(height, img_h, y0 as int),
                    img_w == frame.width,
                    img_h == frame.height,
                    buf == frame.pixels@,
                    crop_fits(frame.width, frame.height, x, y, width, height),
                    out@ == region_bytes(buf, img_w as int, x0 as int, y0 as int, w as nat, cy as nat)
                        + row_bytes(buf, img_w as int, x0 as int, y0 + cy, cx as nat),
                decreases w - cx,
            {
                let src_x: u32 = x0 + cx;
                let src_y: u32 = y0 + cy;
                proof {
                    let ymax = y0 + h - 1;
                    let xmax = x0 + w - 1;
                    assert(src_y * img_w <= ymax * img_w) by (nonlinear_arith)
                        requires
                            src_y <= ymax,
                    ;
                    assert((src_y * img_w + src_x) * 4 <= (ymax * img_w + xmax) * 4);
                }
                let src_index: usize = ((src_y * img_w + src_x) * 4) as usize;
                let ghost before = out@;
                if src_index + 3 < frame.pixels.len() {
                    out.push(frame.pixels[src_index]);
                    out.push(frame.pixels[src_index + 1]);
                    out.push(frame.pixels[src_index + 2]);
                    out.push(frame.pixels[src_index + 3]);
                } else {
                    out.push(0);
                    out.push(0);
                    out.push(0);
                    out.push(0);
                }
                proof {
                    assert(out@ =~= before + pixel_bytes(buf, img_w as int, src_x as int, src_y as int));
                }
                cx += 1;
            }
            cy += 1;
        }
        Ok(RgbaFrame { width: w, height: h, pixels: out })
    }

    /// The PNG encoding of a whole frame: the bytes the PNG encoder writes,
    /// or `EncodingFailed` exactly when the encoder reports an error.
    pub fn encode_frame_png(&self, frame: &RgbaFrame) -> (r: Result<Vec<u8>, CaptureError>)
        requires
            frame.pixels@.len() == frame.width * frame.height * 4,
        ensures
            match png_rgba8_outcome(frame.pixels@, frame.width, frame.height) {
                Some(png) => r matches Ok(bytes) && bytes@ == png,
                None => r == Err::<Vec<u8>, CaptureError>(CaptureError::EncodingFailed),
            },
    {
        match encode_png_rgba8(frame.pixels.as_slice(), frame.width, frame.height) {
            Ok(bytes) => Ok(bytes),
            Err(_) => Err(CaptureError::EncodingFailed),
        }
    }

    /// The PNG encoding of the region of `frame` that `crop_frame` cuts out:
    /// refused as `crop_frame` refuses, else as `encode_frame_png` encodes.
    pub fn region_png(
        &self,
        frame: &RgbaFrame,
        x: i32,
        y: i32,
        width: u32,
        height: u32,
    ) -> (r: Result<Vec<u8>, CaptureError>)
        requires
            crop_fits(frame.width, frame.height, x, y, width, height),
        ensures
            ({
                let x0 = clamp_origin(x);
                let y0 = clamp_origin(y);
                let w = crop_extent(width, frame.width, x0);
                let h = crop_extent(height, frame.height, y0);
                if w == 0 || h == 0 {
                    r == Err::<Vec<u8>, CaptureError>(CaptureError::InvalidCropDimensions)
                } else {
                    match png_rgba8_outcome(
                        region_bytes(frame.pixels@, frame.width as int, x0, y0, w as nat, h as nat),
                        w as u32,
                        h as u32,
                    ) {
                        Some(png) => r matches Ok(bytes) && bytes@ == png,
                        None => r == Err::<Vec<u8>, CaptureError>(CaptureError::EncodingFailed),
                    }
                }
            }),
    {
        let cropped = match self.crop_frame(frame, x, y, width, height) {
            Ok(f) => f,
            Err(e) => {
                return Err(e);
            },
        };
        proof {
            lemma_region_len(
                frame.pixels@,
                frame.width as int,
                clamp_origin(x),
                clamp_origin(y),
                cropped.width as nat,
                cropped.height as nat,
            );
            assert(cropped.width * cropped.height * 4 == (cropped.height * cropped.width) * 4)
                by (nonlinear_arith);
        }
        self.encode_frame_png(&cropped)
    }

    /// The displays with their positions in the list; the first is primary.
    pub fn get_screen_info(&self, displays: &Vec<DisplayGeometry>) -> (r: Vec<ScreenInfo>)
        ensures
            r@.len() == displays@.len(),
            forall|i: int|
                0 <= i < r@.len() ==> #[trigger] r@[i] == screen_info_spec(i, displays@[i]),
    {
        let mut r: Vec<ScreenInfo> = Vec::new();
        let n = displays.len();
        for i in 0..n
            invariant
                n == displays@.len(),
                r@.len() == i,
                forall|j: int| 0 <= j < i ==> #[trigger] r@[j] == screen_info_spec(j, displays@[j]),
        {
            let d = displays[i];
            r.push(
                ScreenInfo {
                    index: i,
                    width: d.width,
                    height: d.height,
                    x: d.x,
                    y: d.y,
                    is_primary: i == 0,
                },
            );
        }
        r
    }

    /// Locating text on screen needs character recognition, which the agent
    /// does not have: no element is ever found.
    pub fn find_element_by_text(&self, text: &str) -> (r: Option<(i32, i32, u32, u32)>)
        ensures
            r is None,
    {
        None
    }

    /// Locating an image on screen needs template matching, which the agent
    /// does not have: no element is ever found.
    pub fn find_element_by_image(&self, template: &[u8]) -> (r: Option<(i32, i32, u32, u32)>)
        ensures
            r is None,
    {
        None
    }
}

/// The report for display `i`.
pub open spec fn screen_info_spec(i: int, d: DisplayGeometry) -> ScreenInfo {
    ScreenInfo {
        index: i as usize,
        width: d.width,
        height: d.height,
        x: d.x,
        y: d.y,
        is_primary: i == 0,
    }
}

/// The distance between sampled bytes in an image of `n` bytes.
pub open spec fn sample_step(n: nat) -> nat {
    if n > 10000 {
        n / 10000
    } else {
        1
    }
}

/// How many of the bytes at positions `i`, `i + step`, `i + 2 * step`, ...
/// differ between the two images.
pub open spec fn sampled_differences(a: Seq<u8>, b: Seq<u8>, step: nat, i: int) -> nat
    decreases a.len() - i,
    when step >= 1
{
    if i < 0 || i >= a.len() {
        0
    } else {
        (if a[i] != b[i] {
            1nat
        } else {
            0nat
        }) + if i + step < a.len() {
            sampled_differences(a, b, step, i + step)
        } else {
            0nat
        }
    }
}

/// Law: an image compared with itself shows no change.
pub proof fn law_identical_images_unchanged(a: Seq<u8>, step: nat, i: int)
    requires
        step >= 1,
    ensures
        sampled_differences(a, a, step, i) == 0,
    decreases a.len() - i,
{
    if 0 <= i < a.len() && i + step < a.len() {
        law_identical_images_unchanged(a, step, i + step);
    }
}

/// Law: right after a capture at `now_ms`, the next capture is due exactly
/// when the interval has passed: not before `now_ms + interval`.
pub proof fn law_capture_waits_for_interval(s: ScreenCapture, now_ms: u64, later_ms: u64)
    requires
        s.last_capture() == Some(now_ms),
        later_ms >= now_ms,
    ensures
        due_at(s.last_capture(), s.interval(), later_ms) == (later_ms - now_ms >= s.interval()),
{
}

/// Whether a capture is due at `now_ms` after the last capture `last`:
/// there was none, or `interval` has passed (a clock reading before the last
/// capture counts as no time passed).
pub open spec fn due_at(last: Option<u64>, interval: u64, now_ms: u64) -> bool {
    match last {
        None => true,
        Some(l) => (if now_ms >= l {
            now_ms - l
        } else {
            0
        }) >= interval,
    }
}

/// A run of the continuous capture loop: at each clock reading of `ticks`
/// (the time, and whether grabbing the screen would succeed) the loop asks
/// `capture_due`, grabs the screen when it is due, and records a successful
/// grab with `record_capture`. The result is the times captured, in order,
/// and the last capture after the run.
pub open spec fn capture_run(last: Option<u64>, interval: u64, ticks: Seq<(u64, bool)>) -> (
    Seq<u64>,
    Option<u64>,
)
    decreases ticks.len(),
{
    if ticks.len() == 0 {
        (Seq::empty(), last)
    } else {
        let before = capture_run(last, interval, ticks.drop_last());
        let t = ticks.last().0;
        if due_at(before.1, interval, t) && ticks.last().1 {
            (before.0.push(t), Some(t))
        } else {
            before
        }
    }
}

/// Law: while the clock does not go back, the continuous capture loop takes
/// its captures at least `interval` apart, each at a successful grab; the
/// last capture it remembers is the last one it took.
pub proof fn law_captures_spaced(last: Option<u64>, interval: u64, ticks: Seq<(u64, bool)>)
    requires
        forall|i: int, j: int| 0 <= i <= j < ticks.len() ==> ticks[i].0 <= ticks[j].0,
    ensures
        ({
            let (caps, l) = capture_run(last, interval, ticks);
            &&& forall|k: int, m: int|
                #![trigger caps[k], caps[m]]
                0 <= k && m == k + 1 && m < caps.len() ==> caps[m] - caps[k] >= interval
            &&& l == if caps.len() == 0 {
                last
            } else {
                Some(caps.last())
            }
            &&& caps.len() > 0 ==> caps.last() <= ticks.last().0
            &&& caps.len() <= ticks.len()
        }),
    decreases ticks.len(),
{
    if ticks.len() > 0 {
        let rest = ticks.drop_last();
        assert forall|i: int, j: int| 0 <= i <= j < rest.len() implies rest[i].0 <= rest[j].0 by {
            assert(rest[i] == ticks[i] && rest[j] == ticks[j]);
        }
        law_captures_spaced(last, interval, rest);
        let (caps, l) = capture_run(last, interval, rest);
        if rest.len() > 0 {
            assert(rest.last() == ticks[rest.len() - 1]);
            assert(ticks[rest.len() - 1].0 <= ticks.last().0);
        }
        let t = ticks.last().0;
        if due_at(l, interval, t) && ticks.last().1 {
            let caps2 = caps.push(t);
            assert forall|k: int, m: int|
                #![trigger caps2[k], caps2[m]]
                0 <= k && m == k + 1 && m < caps2.len() implies caps2[m] - caps2[k] >= interval by {
                if m < caps.len() {
                    assert(caps2[k] == caps[k] && caps2[m] == caps[m]);
                } else {
                    assert(caps2[k] == caps.last());
                }
            }
        }
    }
}

/// A crop origin: negative coordinates count as 0.
pub open spec fn clamp_origin(v: i32) -> int {
    if v < 0 {
        0
    } else {
        v as int
    }
}

/// The extent of a crop along one axis: the requested extent, clipped to
/// what remains of the frame from `origin` on.
pub open spec fn crop_extent(requested: u32, size: u32, origin: int) -> int {
    let avail = if size >= origin {
        size - origin
    } else {
        0
    };
    if requested < avail {
        requested as int
    } else {
        avail
    }
}

/// The bytes of one cropped pixel: the four bytes of source pixel
/// (`sx`, `sy`) when the buffer holds them, four zero bytes otherwise.
pub open spec fn pixel_bytes(buf: Seq<u8>, img_w: int, sx: int, sy: int) -> Seq<u8> {
    let idx = (sy * img_w + sx) * 4;
    if idx + 3 < buf.len() {
        seq![buf[idx], buf[idx + 1], buf[idx + 2], buf[idx + 3]]
    } else {
        seq![0u8, 0u8, 0u8, 0u8]
    }
}

/// The first `cols` cropped pixels of source row `y`, from column `x0` on.
pub open spec fn row_bytes(buf: Seq<u8>, img_w: int, x0: int, y: int, cols: nat) -> Seq<u8>
    decreases cols,
{
    if cols == 0 {
        Seq::empty()
    } else {
        row_bytes(buf, img_w, x0, y, (cols - 1) as nat) + pixel_bytes(buf, img_w, x0 + cols - 1, y)
    }
}

/// The first `rows` cropped rows, each `w` pixels wide, from (`x0`, `y0`).
pub open spec fn region_bytes(buf: Seq<u8>, img_w: int, x0: int, y0: int, w: nat, rows: nat) -> Seq<u8>
    decreases rows,
{
    if rows == 0 {
        Seq::empty()
    } else {
        region_bytes(buf, img_w, x0, y0, w, (rows - 1) as nat) + row_bytes(buf, img_w, x0, y0 + rows - 1, w)
    }
}

/// The crop computes its source offsets in 32 bits and allocates four bytes
/// per pixel: the largest offset must fit in a `u32` and the output in
/// memory, else the crop would overflow.
pub open spec fn crop_fits(frame_w: u32, frame_h: u32, x: i32, y: i32, width: u32, height: u32) -> bool {
    let x0 = clamp_origin(x);
    let y0 = clamp_origin(y);
    let w = crop_extent(width, frame_w, x0);
    let h = crop_extent(height, frame_h, y0);
    w == 0 || h == 0 || (((y0 + h - 1) * frame_w + x0 + w - 1) * 4 <= u32::MAX && w * h * 4
        <= usize::MAX)
}

/// Law: a cropped region of `rows` rows of `w` pixels holds four bytes per
/// pixel.
pub proof fn lemma_region_len(buf: Seq<u8>, img_w: int, x0: int, y0: int, w: nat, rows: nat)
    ensures
        region_bytes(buf, img_w, x0, y0, w, rows).len() == rows * w * 4,
    decreases rows,
{
    if rows == 0 {
        assert(region_bytes(buf, img_w, x0, y0, w, rows).len() == 0);
    } else {
        lemma_region_len(buf, img_w, x0, y0, w, (rows - 1) as nat);
        lemma_row_len(buf, img_w, x0, y0 + rows - 1, w);
        let prev = region_bytes(buf, img_w, x0, y0, w, (rows - 1) as nat);
        let row = row_bytes(buf, img_w, x0, y0 + rows - 1, w);
        assert(region_bytes(buf, img_w, x0, y0, w, rows) == prev + row);
        assert((prev + row).len() == prev.len() + row.len());
        assert(((rows - 1) as nat) * w * 4 + w * 4 == rows * w * 4) by (nonlinear_arith)
            requires
                rows > 0,
        ;
    }
}

proof fn lemma_row_len(buf: Seq<u8>, img_w: int, x0: int, y: int, cols: nat)
    ensures
        row_bytes(buf, img_w, x0, y, cols).len() == cols * 4,
    decreases cols,
{
    if cols == 0 {
        assert(row_bytes(buf, img_w, x0, y, cols).len() == 0);
    } else {
        lemma_row_len(buf, img_w, x0, y, (cols - 1) as nat);
    }
}

#[verifier::external_type_specification]
#[verifier::external_body]
pub struct ExImageError(image::ImageError);

/// What the `image` crate's PNG encoder produces for an RGBA8 buffer of
/// `width` by `height` pixels, written to memory: the PNG bytes, or `None`
/// when it reports an error.
pub uninterp spec fn png_rgba8_outcome(pixels: Seq<u8>, width: u32, height: u32) -> Option<Seq<u8>>;

/// Encodes `pixels` with `image::codecs::png::PngEncoder::write_image` as
/// RGBA8. The outcome, bytes or error, is named by `png_rgba8_outcome`.
/// `write_image` panics unless the buffer holds exactly four bytes per
/// pixel, which `requires` demands.
#[verifier::external_body]
fn encode_png_rgba8(pixels: &[u8], width: u32, height: u32) -> (r: Result<Vec<u8>, image::ImageError>)
    requires
        pixels@.len() == width * height * 4,
    ensures
        match r {
            Ok(bytes) => png_rgba8_outcome(pixels@, width, height) == Some(bytes@),
            Err(_) => png_rgba8_outcome(pixels@, width, height) is None,
        },
{
    let mut out: Vec<u8> = Vec::new();
    let encoder = image::codecs::png::PngEncoder::new(&mut out);
    match image::ImageEncoder::write_image(encoder, pixels, width, height, image::ExtendedColorType::Rgba8) {
        Ok(()) => Ok(out),
        Err(e) => Err(e),
    }
}

} // verus!
