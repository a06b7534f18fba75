//! Framebuffer compositor: drawing primitives that clip silently, the fixed
//! widgets built from them, the redraw cache and the touch hit test.

use crate::firmware::display::{
    frame_len,
    on_screen,
    pixel_index,
    BlitRequest,
    DisplayDriver,
    DisplayError,
    DisplayView,
    DISP_HOR_RES,
    DISP_VER_RES,
};
use crate::levels::{is_critical_level, is_low_level, WATER_CRITICAL_MAX, WATER_LOW_MAX};
use vstd::prelude::*;

verus! {

// Colors, five bits of red, six of green and five of blue.
pub const COLOR_BLACK: u16 = 0x0000;

pub const COLOR_WHITE: u16 = 0xFFFF;

pub const COLOR_RED: u16 = 0xF800;

pub const COLOR_GREEN: u16 = 0x07E0;

pub const COLOR_BLUE: u16 = 0x001F;

pub const COLOR_YELLOW: u16 = 0xFFE0;

pub const COLOR_CYAN: u16 = 0x07FF;

pub const COLOR_MAGENTA: u16 = 0xF81F;

pub const COLOR_ORANGE: u16 = 0xFD20;

pub const COLOR_GRAY: u16 = 0x8410;

pub const COLOR_DARK_GRAY: u16 = 0x4208;

/// Screen background.
pub const COLOR_BG: u16 = 0x0841;

/// Fill of a section frame.
pub const COLOR_PANEL_BG: u16 = 0x2104;

/// Border of the light section.
pub const COLOR_LIGHTS_BORDER: u16 = 0xFF00;

/// Border of the water section.
pub const COLOR_WATER_BORDER: u16 = 0x041F;

/// Gauge color above the low mark.
pub const COLOR_WATER_NORMAL: u16 = 0x041F;

/// Gauge color at or below the low mark.
pub const COLOR_WATER_LOW: u16 = 0xFD20;

/// Gauge color at or below the critical mark.
pub const COLOR_WATER_CRITICAL: u16 = 0xF800;

/// Track of a switch that is on.
pub const COLOR_SWITCH_ON: u16 = 0xFF80;

/// Width of the block that stands for one character, in pixels.
pub const GLYPH_WIDTH: i32 = 4;

/// Height of the block that stands for one character, in pixels.
pub const GLYPH_HEIGHT: i32 = 8;

/// Distance from one character block to the next, in pixels.
pub const GLYPH_PITCH: i32 = 6;

/// Number of pixels that an arc table holds for each degree: the pixel on
/// the rim first, then the six of the band, from the inside out.
pub const ARC_PIXELS_PER_DEGREE: usize = 7;

/// Column of the gauge's centre.
pub const GAUGE_CENTER_X: u16 = 240;

/// Row of the gauge's centre.
pub const GAUGE_CENTER_Y: u16 = 300;

/// Outer radius of the gauge, in pixels.
pub const GAUGE_RADIUS: u16 = 80;

/// How far the gauge's band reaches inwards from its rim, in pixels.
pub const GAUGE_BAND: u16 = 5;

/// Degree at which the gauge starts.
pub const GAUGE_START_ANGLE: u16 = 180;

/// Degree at which a full gauge ends.
pub const GAUGE_END_ANGLE: u16 = 360;

/// Column of the pixel stored at index `i`.
pub open spec fn column_of(i: int) -> int {
    i % (DISP_HOR_RES as int)
}

/// Row of the pixel stored at index `i`.
pub open spec fn row_of(i: int) -> int {
    i / (DISP_HOR_RES as int)
}

/// `v` limited to the columns (or rows) of the panel: a value from 0 to 480.
pub open spec fn clipped(v: int) -> int {
    if v < 0 {
        0
    } else if v > DISP_HOR_RES {
        DISP_HOR_RES as int
    } else {
        v
    }
}

/// An index of a full frame names the pixel in its column and row, and only
/// that one.
pub proof fn lemma_pixel_coordinates(i: int)
    requires
        0 <= i < frame_len(),
    ensures
        on_screen(column_of(i), row_of(i)),
        pixel_index(column_of(i), row_of(i)) == i,
{
}

/// The pixel at `(x, y)` is stored at an index of the frame whose column and
/// row are `x` and `y`.
pub proof fn lemma_index_coordinates(x: int, y: int)
    requires
        on_screen(x, y),
    ensures
        0 <= pixel_index(x, y) < frame_len(),
        column_of(pixel_index(x, y)) == x,
        row_of(pixel_index(x, y)) == y,
{
}

/// A set of pixel positions.
pub type Region = spec_fn(int, int) -> bool;

/// `canvas` with every pixel of `region` that lies on the panel set to
/// `color`. A canvas that is not a full frame is left as it is.
pub open spec fn painted(canvas: Seq<u16>, region: Region, color: u16) -> Seq<u16> {
    if canvas.len() == frame_len() {
        Seq::new(
            canvas.len(),
            |i: int|
                if region(column_of(i), row_of(i)) {
                    color
                } else {
                    canvas[i]
                },
        )
    } else {
        canvas
    }
}

/// Painting a region of a full frame gives every pixel of the region the
/// color and leaves every other pixel alone; painting it again changes
/// nothing.
pub proof fn lemma_painted(canvas: Seq<u16>, region: Region, color: u16, x: int, y: int)
    requires
        canvas.len() == frame_len(),
        on_screen(x, y),
    ensures
        painted(canvas, region, color).len() == canvas.len(),
        region(x, y) ==> painted(canvas, region, color)[pixel_index(x, y)] == color,
        !region(x, y) ==> painted(canvas, region, color)[pixel_index(x, y)] == canvas[pixel_index(
            x,
            y,
        )],
        painted(painted(canvas, region, color), region, color) == painted(canvas, region, color),
{
    lemma_index_coordinates(x, y);
    assert(painted(painted(canvas, region, color), region, color) =~= painted(
        canvas,
        region,
        color,
    ));
}

/// The `width` x `height` rectangle whose top left pixel is `(x, y)`.
pub open spec fn rect_region(x: int, y: int, width: int, height: int) -> Region {
    |px: int, py: int| x <= px < x + width && y <= py < y + height
}

/// The disc of the given radius around `(cx, cy)`, rim included.
pub open spec fn disc_region(cx: int, cy: int, radius: int) -> Region {
    |px: int, py: int|
        radius >= 0 && (px - cx) * (px - cx) + (py - cy) * (py - cy) <= radius * radius
}

/// A point of a disc is no farther from the centre than the radius, along
/// either axis.
pub proof fn lemma_disc_extent(dx: int, dy: int, radius: int)
    requires
        radius >= 0,
        dx * dx + dy * dy <= radius * radius,
    ensures
        -radius <= dx <= radius,
        -radius <= dy <= radius,
{
    assert(-radius <= dx <= radius && -radius <= dy <= radius) by (nonlinear_arith)
        requires
            radius >= 0,
            dx * dx + dy * dy <= radius * radius,
    ;
}

/// The axis-parallel segment between `(x1, y1)` and `(x2, y2)`, ends
/// included. A slanted segment has no pixels.
pub open spec fn line_region(x1: int, y1: int, x2: int, y2: int) -> Region {
    |px: int, py: int|
        if x1 == x2 {
            px == x1 && (y1 <= py <= y2 || y2 <= py <= y1)
        } else if y1 == y2 {
            py == y1 && (x1 <= px <= x2 || x2 <= px <= x1)
        } else {
            false
        }
}

/// The blocks of a line of text of `chars` characters and `bytes` bytes,
/// centred on column `x` by its byte count, with its top on row `y`: one
/// block per character, every sixth column.
pub open spec fn text_region(x: int, y: int, bytes: int, chars: int) -> Region {
    |px: int, py: int|
        {
            let start = x - 3 * bytes;
            &&& y <= py < y + GLYPH_HEIGHT
            &&& start <= px < start + GLYPH_PITCH * chars
            &&& (px - start) % (GLYPH_PITCH as int) < GLYPH_WIDTH
        }
}

/// The blocks that stand for `text` when it is drawn centred on column `x`
/// with its top on row `y`.
pub open spec fn label_region(x: int, y: int, text: &str) -> Region {
    text_region(x, y, text.len() as int, text@.len() as int)
}

/// The pixels of a circular band, degree by degree, as whoever has
/// trigonometry at hand computed them for one centre and one radius.
/// Entry `k` belongs to degree `first_angle + k / 7`.
pub struct ArcTable {
    pub first_angle: u16,
    pub pixels: Vec<(u16, u16)>,
}

/// Whether entry `k` of a table that starts at `first_angle` belongs to a
/// degree from `start` to `end`.
pub open spec fn arc_selects(first_angle: int, start: int, end: int, k: int) -> bool {
    start <= first_angle + k / (ARC_PIXELS_PER_DEGREE as int) <= end
}

/// Whether one of the first `upto` entries of the table is selected and is
/// the pixel `(px, py)`.
pub open spec fn arc_hits(
    pixels: Seq<(u16, u16)>,
    first_angle: int,
    start: int,
    end: int,
    upto: int,
    px: int,
    py: int,
) -> bool {
    exists|k: int|
        0 <= k < upto && arc_selects(first_angle, start, end, k) && (#[trigger] pixels[k]).0 == px
            && pixels[k].1 == py
}

/// The pixels that the table holds for the degrees from `start` to `end`.
pub open spec fn arc_region(pixels: Seq<(u16, u16)>, first_angle: int, start: int, end: int)
    -> Region {
    |px: int, py: int| arc_hits(pixels, first_angle, start, end, pixels.len() as int, px, py)
}

/// Taking one more entry of the table into account adds that entry's pixel,
/// if the entry is selected, and nothing else.
pub proof fn lemma_arc_hits_step(
    pixels: Seq<(u16, u16)>,
    first_angle: int,
    start: int,
    end: int,
    k: int,
    px: int,
    py: int,
)
    requires
        0 <= k < pixels.len(),
    ensures
        arc_hits(pixels, first_angle, start, end, k + 1, px, py) <==> (arc_hits(
            pixels,
            first_angle,
            start,
            end,
            k,
            px,
            py,
        ) || (arc_selects(first_angle, start, end, k) && pixels[k].0 == px && pixels[k].1 == py)),
{
    if arc_hits(pixels, first_angle, start, end, k + 1, px, py) {
        let j = choose|j: int|
            0 <= j < k + 1 && arc_selects(first_angle, start, end, j) && (#[trigger] pixels[j]).0
                == px && pixels[j].1 == py;
        if j < k {
            assert(arc_hits(pixels, first_angle, start, end, k, px, py));
        }
    }
    if arc_hits(pixels, first_angle, start, end, k, px, py) {
        let j = choose|j: int|
            0 <= j < k && arc_selects(first_angle, start, end, j) && (#[trigger] pixels[j]).0 == px
                && pixels[j].1 == py;
        assert(0 <= j < k + 1);
    }
    if arc_selects(first_angle, start, end, k) && pixels[k].0 == px && pixels[k].1 == py {
        assert(0 <= k < k + 1 && (#[trigger] pixels[k]).0 == px);
    }
}

/// Whether the pixel `(x, y)` lies in the ring around `(cx, cy)` between the
/// radii `inner` and `outer`, both included.
pub open spec fn in_ring(x: int, y: int, cx: int, cy: int, inner: int, outer: int) -> bool {
    let d2 = (x - cx) * (x - cx) + (y - cy) * (y - cy);
    inner * inner <= d2 <= outer * outer
}

impl ArcTable {
    /// Whether every pixel of the table lies in the ring around `(cx, cy)`
    /// between the radii `inner` and `outer`.
    pub open spec fn in_ring(self, cx: int, cy: int, inner: int, outer: int) -> bool {
        forall|k: int|
            0 <= k < self.pixels@.len() ==> in_ring(
                (#[trigger] self.pixels@[k]).0 as int,
                self.pixels@[k].1 as int,
                cx,
                cy,
                inner,
                outer,
            )
    }

    /// Tells whether every pixel of the table lies in the ring around
    /// `(cx, cy)` between the radii `inner` and `outer`: a test, in whole
    /// numbers, of a table that was computed elsewhere.
    pub fn within_ring(&self, cx: u16, cy: u16, inner: u16, outer: u16) -> (ok: bool)
        ensures
            ok == self.in_ring(cx as int, cy as int, inner as int, outer as int),
    {
        assert(0 <= inner * inner <= 65535 * 65535 && 0 <= outer * outer <= 65535 * 65535)
            by (nonlinear_arith)
            requires
                0 <= inner <= 65535,
                0 <= outer <= 65535,
        ;
        let lo: i64 = (inner as i64) * (inner as i64);
        let hi: i64 = (outer as i64) * (outer as i64);
        let n = self.pixels.len();
        let mut k: usize = 0;
        while k < n
            invariant
                k <= n,
                n == self.pixels@.len(),
                lo == inner * inner,
                hi == outer * outer,
                forall|j: int|
                    0 <= j < k ==> in_ring(
                        (#[trigger] self.pixels@[j]).0 as int,
                        self.pixels@[j].1 as int,
                        cx as int,
                        cy as int,
                        inner as int,
                        outer as int,
                    ),
            decreases n - k,
        {
            let point = self.pixels[k];
            let dx: i64 = point.0 as i64 - cx as i64;
            let dy: i64 = point.1 as i64 - cy as i64;
            assert(0 <= dx * dx <= 65535 * 65535 && 0 <= dy * dy <= 65535 * 65535)
                by (nonlinear_arith)
                requires
                    -65535 <= dx <= 65535,
                    -65535 <= dy <= 65535,
            ;
            let d2 = dx * dx + dy * dy;
            if d2 < lo || d2 > hi {
                return false;
            }
            k = k + 1;
        }
        true
    }
}

/// An arc drawn from a table whose pixels all lie in a ring touches no
/// pixel outside that ring.
pub proof fn lemma_arc_stays_in_ring(
    table: ArcTable,
    start: int,
    end: int,
    cx: int,
    cy: int,
    inner: int,
    outer: int,
    x: int,
    y: int,
)
    requires
        table.in_ring(cx, cy, inner, outer),
        arc_region(table.pixels@, table.first_angle as int, start, end)(x, y),
    ensures
        in_ring(x, y, cx, cy, inner, outer),
{
    let k = choose|k: int|
        0 <= k < table.pixels@.len() && arc_selects(table.first_angle as int, start, end, k) && (
        #[trigger] table.pixels@[k]).0 == x && table.pixels@[k].1 == y;
    assert(in_ring(
        table.pixels@[k].0 as int,
        table.pixels@[k].1 as int,
        cx,
        cy,
        inner,
        outer,
    ));
}

/// The character of the decimal digit `d`.
pub open spec fn digit_char(d: u8) -> char {
    ((48 + d) as u8) as char
}

/// The text of a level in percent: its decimal digits, then a percent sign.
pub open spec fn percent_text(level: u8) -> Seq<char> {
    if level < 10 {
        seq![digit_char(level), '%']
    } else if level < 100 {
        seq![digit_char(level / 10), digit_char(level % 10), '%']
    } else {
        seq![digit_char(level / 100), digit_char((level / 10) % 10), digit_char(level % 10), '%']
    }
}

/// Number of characters, and of bytes, of a level's text in percent.
pub open spec fn percent_len(level: u8) -> int {
    if level < 10 {
        2
    } else if level < 100 {
        3
    } else {
        4
    }
}

/// The text of a level in percent is plain ASCII of two to four characters.
pub proof fn lemma_percent_text(level: u8)
    ensures
        percent_text(level).len() == percent_len(level),
        vstd::utf8::is_ascii_chars(percent_text(level)),
{
}

/// The text of a level in percent. Wraps `format!` with the pattern
/// `"{}%"`: the standard decimal rendering of the number, without sign or
/// padding, followed by a percent sign.
#[verifier::external_body]
fn percent_label(level: u8) -> (label: String)
    ensures
        label@ == percent_text(level),
{
    format!("{}%", level)
}

/// The gauge color of a level: critical up to 10, low up to 20, normal
/// above.
pub open spec fn water_color(level: u8) -> u16 {
    if level <= WATER_CRITICAL_MAX {
        COLOR_WATER_CRITICAL
    } else if level <= WATER_LOW_MAX {
        COLOR_WATER_LOW
    } else {
        COLOR_WATER_NORMAL
    }
}

/// How many degrees of the gauge a level fills: 180 for a full tank.
pub open spec fn gauge_fill_angle(level: u8) -> int {
    level * 180 / 100
}

/// The gauge color of a level is critical up to 10, low from 11 to 20 and
/// normal above: critical exactly where the level is critical, and other
/// than normal exactly where the level is low.
pub proof fn lemma_water_color_tiers(level: u8)
    ensures
        level <= 10 ==> water_color(level) == COLOR_WATER_CRITICAL,
        11 <= level <= 20 ==> water_color(level) == COLOR_WATER_LOW,
        level > 20 ==> water_color(level) == COLOR_WATER_NORMAL,
        water_color(level) == COLOR_WATER_CRITICAL <==> is_critical_level(level),
        water_color(level) != COLOR_WATER_NORMAL <==> is_low_level(level),
        level <= 100 ==> 0 <= gauge_fill_angle(level) <= 180,
{
}

/// A section frame: a filled rectangle in the border color with the fill
/// color laid over all of it but a rim of two pixels.
pub open spec fn panel_canvas(
    canvas: Seq<u16>,
    x: int,
    y: int,
    width: int,
    height: int,
    bg_color: u16,
    border_color: u16,
) -> Seq<u16> {
    painted(
        painted(canvas, rect_region(x, y, width, height), border_color),
        rect_region(x + 2, y + 2, width - 4, height - 4),
        bg_color,
    )
}

/// A toggle switch centred on `(x, y)`: the track, colored by the state;
/// the white handle, right when on and left when off; the label above.
pub open spec fn switch_canvas(canvas: Seq<u16>, x: int, y: int, label: &str, on: bool) -> Seq<
    u16,
> {
    let track = painted(
        canvas,
        rect_region(x - 50, y - 25, 100, 50),
        if on {
            COLOR_SWITCH_ON
        } else {
            COLOR_GRAY
        },
    );
    let handle = painted(
        track,
        disc_region(
            if on {
                x + 25
            } else {
                x - 25
            },
            y,
            18,
        ),
        COLOR_WHITE,
    );
    painted(handle, label_region(x, y - 40, label), COLOR_WHITE)
}

/// The handle of a switch that is drawn on a full frame sits 25 pixels
/// right of the centre when the switch is on and 25 pixels left of it when
/// it is off; the other side shows the track, lit or gray.
pub proof fn lemma_switch_handle(canvas: Seq<u16>, x: int, y: int, label: &str, on: bool)
    requires
        canvas.len() == frame_len(),
        on_screen(x - 25, y),
        on_screen(x + 25, y),
    ensures
        switch_canvas(canvas, x, y, label, on)[pixel_index(
            if on {
                x + 25
            } else {
                x - 25
            },
            y,
        )] == COLOR_WHITE,
        switch_canvas(canvas, x, y, label, on)[pixel_index(
            if on {
                x - 25
            } else {
                x + 25
            },
            y,
        )] == (if on {
            COLOR_SWITCH_ON
        } else {
            COLOR_GRAY
        }),
{
    lemma_index_coordinates(x - 25, y);
    lemma_index_coordinates(x + 25, y);
    assert(((x - 25) - (x + 25)) * ((x - 25) - (x + 25)) == 2500) by (nonlinear_arith);
    assert(((x + 25) - (x - 25)) * ((x + 25) - (x - 25)) == 2500) by (nonlinear_arith);
}

/// The gauge: the whole half circle in dark gray, and over it, from the
/// same origin, as many degrees as the level fills, in the level's color.
pub open spec fn water_arc_canvas(canvas: Seq<u16>, gauge: ArcTable, level: u8) -> Seq<u16> {
    painted(
        painted(
            canvas,
            arc_region(
                gauge.pixels@,
                gauge.first_angle as int,
                GAUGE_START_ANGLE as int,
                GAUGE_END_ANGLE as int,
            ),
            COLOR_DARK_GRAY,
        ),
        arc_region(
            gauge.pixels@,
            gauge.first_angle as int,
            GAUGE_START_ANGLE as int,
            GAUGE_START_ANGLE + gauge_fill_angle(level),
        ),
        water_color(level),
    )
}

/// The light section: its frame in the upper half, its title, the divider
/// and the two switches.
pub open spec fn lights_section_canvas(canvas: Seq<u16>, bright: bool, relax: bool) -> Seq<u16> {
    let frame = panel_canvas(canvas, 12, 12, 456, 222, COLOR_PANEL_BG, COLOR_LIGHTS_BORDER);
    let title = painted(frame, label_region(240, 40, "LIGHTS"), COLOR_YELLOW);
    let divider = painted(title, line_region(240, 60, 240, 210), COLOR_GRAY);
    let left = switch_canvas(divider, 140, 120, "BRIGHT", bright);
    switch_canvas(left, 340, 120, "RELAX", relax)
}

/// The water section: its frame in the lower half, its title, the gauge and
/// the level in percent.
pub open spec fn water_section_canvas(canvas: Seq<u16>, gauge: ArcTable, level: u8) -> Seq<u16> {
    let frame = panel_canvas(canvas, 12, 234, 456, 222, COLOR_PANEL_BG, COLOR_WATER_BORDER);
    let title = painted(frame, label_region(240, 260, "WATER LEVEL"), COLOR_CYAN);
    let arc = water_arc_canvas(title, gauge, level);
    painted(arc, text_region(240, 320, percent_len(level), percent_len(level)), water_color(level))
}

/// The whole frame: background, light section, water section.
pub open spec fn frame_canvas(canvas: Seq<u16>, ui: LvglUiView, gauge: ArcTable) -> Seq<u16> {
    water_section_canvas(
        lights_section_canvas(Seq::new(canvas.len(), |i: int| COLOR_BG), ui.bright, ui.relax),
        gauge,
        ui.water_level,
    )
}

/// A recomposition starts from scratch: the frame it leaves depends on the
/// cached state and the gauge table alone, not on what the framebuffer held
/// before.
pub proof fn lemma_frame_from_scratch(
    before: Seq<u16>,
    other: Seq<u16>,
    ui: LvglUiView,
    gauge: ArcTable,
)
    requires
        before.len() == other.len(),
    ensures
        frame_canvas(before, ui, gauge) == frame_canvas(other, ui, gauge),
        frame_canvas(before, ui, gauge).len() == before.len(),
{
    assert(Seq::new(before.len(), |i: int| COLOR_BG) =~= Seq::new(other.len(), |i: int| COLOR_BG));
}

/// The request that hands the whole frame to the panel.
pub open spec fn full_frame() -> BlitRequest {
    BlitRequest { x_start: 0, y_start: 0, x_end: 480, y_end: 480, offset: 0 }
}

/// What a touch asks for.
#[derive(Debug, Clone, Copy, PartialEq, Eq, Structural)]
pub enum UiAction {
    ToggleBright,
    ToggleRelax,
}

/// The action of a touch at `(x, y)`: the upper half of the screen toggles
/// Bright on its left and Relax on its right; the lower half does nothing.
pub open spec fn hit_test(x: int, y: int) -> Option<UiAction> {
    if y < DISP_VER_RES / 2 {
        if x < DISP_HOR_RES / 2 {
            Some(UiAction::ToggleBright)
        } else {
            Some(UiAction::ToggleRelax)
        }
    } else {
        None
    }
}

/// The hit test splits the screen at `(240, 240)`: above the split a touch
/// toggles Bright on the left and Relax on the right, below it does
/// nothing.
pub proof fn lemma_hit_test_regions(x: int, y: int)
    ensures
        hit_test(x, y) == Some(UiAction::ToggleBright) <==> x < 240 && y < 240,
        hit_test(x, y) == Some(UiAction::ToggleRelax) <==> x >= 240 && y < 240,
        hit_test(x, y) is None <==> y >= 240,
{
}

/// Mathematical model of an [`LvglUi`].
pub struct LvglUiView {
    pub bright: bool,
    pub relax: bool,
    pub water_level: u8,
    pub needs_redraw: bool,
}

impl LvglUiView {
    /// The cache in its boot state.
    pub open spec fn initial() -> LvglUiView {
        LvglUiView { bright: false, relax: false, water_level: 50, needs_redraw: true }
    }

    /// Whether a display can take a transfer: the panel and the framebuffer
    /// are both ready.
    pub open spec fn can_flush(display: DisplayView) -> bool {
        display.panel_ready && display.has_framebuffer()
    }

    /// The display after a call of `draw`: recomposed from scratch if the
    /// frame was stale, untouched if it was fresh.
    pub open spec fn composed(self, display: DisplayView, gauge: ArcTable) -> DisplayView {
        if self.needs_redraw {
            DisplayView { pixels: frame_canvas(display.pixels, self, gauge), ..display }
        } else {
            display
        }
    }

    /// The cache after a call of `draw`: fresh, unless the frame was stale
    /// and the display could not take it.
    pub open spec fn drawn(self, display: DisplayView) -> LvglUiView {
        LvglUiView { needs_redraw: self.needs_redraw && !LvglUiView::can_flush(display), ..self }
    }

    /// What a call of `draw` returns: nothing to transfer while the frame is
    /// fresh; the whole frame if it was stale; `NotInitialized` if it was
    /// stale and the display cannot take it.
    pub open spec fn draw_request(self, display: DisplayView) -> Result<
        Option<BlitRequest>,
        DisplayError,
    > {
        if !self.needs_redraw {
            Ok(None)
        } else if LvglUiView::can_flush(display) {
            Ok(Some(full_frame()))
        } else {
            Err(DisplayError::NotInitialized)
        }
    }

    /// The cache after it was told the Bright position.
    pub open spec fn with_bright(self, state: bool) -> LvglUiView {
        LvglUiView {
            bright: state,
            needs_redraw: self.needs_redraw || self.bright != state,
            ..self
        }
    }

    /// The cache after it was told the Relax position.
    pub open spec fn with_relax(self, state: bool) -> LvglUiView {
        LvglUiView { relax: state, needs_redraw: self.needs_redraw || self.relax != state, ..self }
    }

    /// The cache after it was told the level.
    pub open spec fn with_water_level(self, level: u8) -> LvglUiView {
        let stored = if level > 100 {
            100u8
        } else {
            level
        };
        LvglUiView {
            water_level: stored,
            needs_redraw: self.needs_redraw || self.water_level != stored,
            ..self
        }
    }
}

/// Of two calls of `draw` with no change of state between them, on a
/// display that can take a transfer, the second recomposes nothing, asks
/// for no transfer and leaves the cache as the first left it.
pub proof fn lemma_draw_twice(ui: LvglUiView, display: DisplayView, gauge: ArcTable)
    requires
        LvglUiView::can_flush(display),
    ensures
        !ui.drawn(display).needs_redraw,
        ui.drawn(display).composed(ui.composed(display, gauge), gauge) == ui.composed(
            display,
            gauge,
        ),
        ui.drawn(display).drawn(ui.composed(display, gauge)) == ui.drawn(display),
        ui.drawn(display).draw_request(ui.composed(display, gauge)) == Ok::<
            Option<BlitRequest>,
            DisplayError,
        >(None),
{
}

/// A change of a cached value makes the frame stale; telling the cache what
/// it already holds does not.
pub proof fn lemma_stale_on_change(ui: LvglUiView, bright: bool, relax: bool, level: u8)
    ensures
        ui.with_bright(bright).needs_redraw == (ui.needs_redraw || ui.bright != bright),
        ui.with_relax(relax).needs_redraw == (ui.needs_redraw || ui.relax != relax),
        level <= 100 ==> ui.with_water_level(level).needs_redraw == (ui.needs_redraw
            || ui.water_level != level),
        ui.with_bright(ui.bright) == ui,
        ui.with_relax(ui.relax) == ui,
        ui.water_level <= 100 ==> ui.with_water_level(ui.water_level) == ui,
{
}

fn clip(v: i64) -> (c: u16)
    ensures
        c == clipped(v as int),
{
    if v < 0 {
        0
    } else if v > 480 {
        480
    } else {
        v as u16
    }
}

/// Fills the box of columns `x0..x1` and rows `y0..y1`, all on the panel.
fn fill_box(display: &mut DisplayDriver, x0: u16, x1: u16, y0: u16, y1: u16, color: u16)
    requires
        x0 <= DISP_HOR_RES,
        x1 <= DISP_HOR_RES,
        y0 <= DISP_VER_RES,
        y1 <= DISP_VER_RES,
    ensures
        final(display)@ == (DisplayView {
            pixels: painted(
                old(display)@.pixels,
                rect_region(x0 as int, y0 as int, x1 - x0, y1 - y0),
                color,
            ),
            ..old(display)@
        }),
{
    let ghost canvas = display@.pixels;
    let ghost region = rect_region(x0 as int, y0 as int, x1 - x0, y1 - y0);
    let mut py = y0;
    while py < y1
        invariant
            y0 <= py,
            y1 <= DISP_VER_RES,
            x1 <= DISP_HOR_RES,
            region == rect_region(x0 as int, y0 as int, x1 - x0, y1 - y0),
            canvas == old(display)@.pixels,
            display@.pixels.len() == canvas.len(),
            display@.output == old(display)@.output,
            display@.config == old(display)@.config,
            display@.panel_ready == old(display)@.panel_ready,
            forall|i: int|
                0 <= i < canvas.len() ==> #[trigger] display@.pixels[i] == if canvas.len()
                    == frame_len() && region(column_of(i), row_of(i)) && row_of(i) < py {
                    color
                } else {
                    canvas[i]
                },
        decreases DISP_VER_RES - py,
    {
        let mut px = x0;
        while px < x1
            invariant
                x0 <= px,
                py < y1,
                y0 <= py,
                y1 <= DISP_VER_RES,
                x1 <= DISP_HOR_RES,
                region == rect_region(x0 as int, y0 as int, x1 - x0, y1 - y0),
                display@.pixels.len() == canvas.len(),
                display@.output == old(display)@.output,
                display@.config == old(display)@.config,
                display@.panel_ready == old(display)@.panel_ready,
                forall|i: int|
                    0 <= i < canvas.len() ==> #[trigger] display@.pixels[i] == if canvas.len()
                        == frame_len() && region(column_of(i), row_of(i)) && (row_of(i) < py || (
                    row_of(i) == py && column_of(i) < px)) {
                        color
                    } else {
                        canvas[i]
                    },
            decreases DISP_HOR_RES - px,
        {
            proof {
                lemma_index_coordinates(px as int, py as int);
            }
            display.draw_pixel(px, py, color);
            px = px + 1;
        }
        py = py + 1;
    }
    assert(display@.pixels =~= painted(canvas, region, color));
}

/// The redraw cache: what was last handed to the compositor, and whether the
/// frame on the panel is stale.
pub struct LvglUi {
    bright_state: bool,
    relax_state: bool,
    water_level: u8,
    needs_redraw: bool,
}

impl View for LvglUi {
    type V = LvglUiView;

    closed spec fn view(&self) -> LvglUiView {
        LvglUiView {
            bright: self.bright_state,
            relax: self.relax_state,
            water_level: self.water_level,
            needs_redraw: self.needs_redraw,
        }
    }
}

impl LvglUi {
    /// Fills the rectangle whose top left pixel is `(x, y)`; what falls off
    /// the panel is dropped.
    pub fn draw_rect(
        display: &mut DisplayDriver,
        x: i32,
        y: i32,
        width: i32,
        height: i32,
        color: u16,
    )
        ensures
            final(display)@ == (DisplayView {
                pixels: painted(
                    old(display)@.pixels,
                    rect_region(x as int, y as int, width as int, height as int),
                    color,
                ),
                ..old(display)@
            }),
    {
        let x0 = clip(x as i64);
        let x1 = clip(x as i64 + width as i64);
        let y0 = clip(y as i64);
        let y1 = clip(y as i64 + height as i64);
        fill_box(display, x0, x1, y0, y1, color);
        assert(display@.pixels =~= painted(
            old(display)@.pixels,
            rect_region(x as int, y as int, width as int, height as int),
            color,
        ));
    }

    /// The track of a switch. Its corners are square.
    pub fn draw_rounded_rect(
        display: &mut DisplayDriver,
        x: i32,
        y: i32,
        width: i32,
        height: i32,
        color: u16,
    )
        ensures
            final(display)@ == (DisplayView {
                pixels: painted(
                    old(display)@.pixels,
                    rect_region(x as int, y as int, width as int, height as int),
                    color,
                ),
                ..old(display)@
            }),
    {
        LvglUi::draw_rect(display, x, y, width, height, color);
    }

    /// Draws the segment between two points, ends included, if it is
    /// horizontal or vertical; a slanted segment is not drawn.
    pub fn draw_line(display: &mut DisplayDriver, x1: i32, y1: i32, x2: i32, y2: i32, color: u16)
        ensures
            final(display)@ == (DisplayView {
                pixels: painted(
                    old(display)@.pixels,
                    line_region(x1 as int, y1 as int, x2 as int, y2 as int),
                    color,
                ),
                ..old(display)@
            }),
    {
        let ghost canvas = display@.pixels;
        let ghost region = line_region(x1 as int, y1 as int, x2 as int, y2 as int);
        if x1 == x2 {
            let lo = if y1 < y2 {
                y1
            } else {
                y2
            };
            let hi = if y1 < y2 {
                y2
            } else {
                y1
            };
            let c0 = clip(x1 as i64);
            let c1 = clip(x1 as i64 + 1);
            let r0 = clip(lo as i64);
            let r1 = clip(hi as i64 + 1);
            fill_box(display, c0, c1, r0, r1, color);
        } else if y1 == y2 {
            let lo = if x1 < x2 {
                x1
            } else {
                x2
            };
            let hi = if x1 < x2 {
                x2
            } else {
                x1
            };
            let c0 = clip(lo as i64);
            let c1 = clip(hi as i64 + 1);
            let r0 = clip(y1 as i64);
            let r1 = clip(y1 as i64 + 1);
            fill_box(display, c0, c1, r0, r1, color);
        }
        assert(display@.pixels =~= painted(canvas, region, color));
    }

    /// Fills the disc of the given radius around `(center_x, center_y)`.
    pub fn draw_circle(
        display: &mut DisplayDriver,
        center_x: i32,
        center_y: i32,
        radius: u16,
        color: u16,
    )
        ensures
            final(display)@ == (DisplayView {
                pixels: painted(
                    old(display)@.pixels,
                    disc_region(center_x as int, center_y as int, radius as int),
                    color,
                ),
                ..old(display)@
            }),
    {
        let x0 = clip(center_x as i64 - radius as i64);
        let x1 = clip(center_x as i64 + radius as i64 + 1);
        let y0 = clip(center_y as i64 - radius as i64);
        let y1 = clip(center_y as i64 + radius as i64 + 1);
        assert(0 <= radius * radius <= 65535 * 65535) by (nonlinear_arith)
            requires
                0 <= radius <= 65535,
        ;
        let r2: i64 = (radius as i64) * (radius as i64);
        let ghost canvas = display@.pixels;
        let ghost region = disc_region(center_x as int, center_y as int, radius as int);
        let mut py = y0;
        while py < y1
            invariant
                y0 <= py,
                y1 <= DISP_VER_RES,
                x1 <= DISP_HOR_RES,
                x0 == clipped(center_x - radius),
                x1 == clipped(center_x + radius + 1),
                y0 == clipped(center_y - radius),
                y1 == clipped(center_y + radius + 1),
                r2 == radius * radius,
                region == disc_region(center_x as int, center_y as int, radius as int),
                canvas == old(display)@.pixels,
                display@.pixels.len() == canvas.len(),
                display@.output == old(display)@.output,
                display@.config == old(display)@.config,
                display@.panel_ready == old(display)@.panel_ready,
                forall|i: int|
                    0 <= i < canvas.len() ==> #[trigger] display@.pixels[i] == if canvas.len()
                        == frame_len() && region(column_of(i), row_of(i)) && y0 <= row_of(i) < py
                        && x0 <= column_of(i) < x1 {
                        color
                    } else {
                        canvas[i]
                    },
            decreases DISP_VER_RES - py,
        {
            let mut px = x0;
            while px < x1
                invariant
                    x0 <= px,
                    py < y1,
                    y0 <= py,
                    y1 <= DISP_VER_RES,
                    x1 <= DISP_HOR_RES,
                    x0 == clipped(center_x - radius),
                    x1 == clipped(center_x + radius + 1),
                    y0 == clipped(center_y - radius),
                    y1 == clipped(center_y + radius + 1),
                    r2 == radius * radius,
                    region == disc_region(center_x as int, center_y as int, radius as int),
                    display@.pixels.len() == canvas.len(),
                    display@.output == old(display)@.output,
                    display@.config == old(display)@.config,
                    display@.panel_ready == old(display)@.panel_ready,
                    forall|i: int|
                        0 <= i < canvas.len() ==> #[trigger] display@.pixels[i] == if canvas.len()
                            == frame_len() && region(column_of(i), row_of(i)) && x0 <= column_of(i)
                            < x1 && ((y0 <= row_of(i) < py) || (row_of(i) == py && column_of(i)
                            < px)) {
                            color
                        } else {
                            canvas[i]
                        },
                decreases DISP_HOR_RES - px,
            {
                let dx: i64 = px as i64 - center_x as i64;
                let dy: i64 = py as i64 - center_y as i64;
                assert(-65535 <= dx <= 65535 && -65535 <= dy <= 65535);
                assert(0 <= dx * dx <= 65535 * 65535 && 0 <= dy * dy <= 65535 * 65535)
                    by (nonlinear_arith)
                    requires
                        -65535 <= dx <= 65535,
                        -65535 <= dy <= 65535,
                ;
                proof {
                    lemma_index_coordinates(px as int, py as int);
                }
                if dx * dx + dy * dy <= r2 {
                    display.draw_pixel(px, py, color);
                }
                px = px + 1;
            }
            py = py + 1;
        }
        assert forall|i: int| 0 <= i < canvas.len() implies #[trigger] display@.pixels[i]
            == painted(canvas, region, color)[i] by {
            if canvas.len() == frame_len() && region(column_of(i), row_of(i)) {
                lemma_pixel_coordinates(i);
                lemma_disc_extent(
                    column_of(i) - center_x,
                    row_of(i) - center_y,
                    radius as int,
                );
            }
        }
        assert(display@.pixels =~= painted(canvas, region, color));
    }

    /// Draws a line of text as one block per character, centred on column
    /// `x` by the byte count of the text.
    pub fn draw_text(display: &mut DisplayDriver, x: i32, y: i32, text: &str, color: u16)
        ensures
            final(display)@ == (DisplayView {
                pixels: painted(old(display)@.pixels, label_region(x as int, y as int, text), color),
                ..old(display)@
            }),
    {
        let bytes = text.len();
        let chars = text.unicode_len();
        let start: i128 = x as i128 - 3 * (bytes as i128);
        let ghost canvas = display@.pixels;
        assert(canvas =~= painted(canvas, text_region(x as int, y as int, bytes as int, 0), color));
        let mut i: usize = 0;
        while i < chars
            invariant
                i <= chars,
                start == x - 3 * bytes,
                canvas == old(display)@.pixels,
                display@ == (DisplayView {
                    pixels: painted(
                        canvas,
                        text_region(x as int, y as int, bytes as int, i as int),
                        color,
                    ),
                    ..old(display)@
                }),
            decreases chars - i,
        {
            let left: i128 = start + 6 * (i as i128);
            let ghost before = display@.pixels;
            if -4 < left && left < 480 {
                LvglUi::draw_rect(display, left as i32, y, GLYPH_WIDTH, GLYPH_HEIGHT, color);
            }
            assert(display@.pixels =~= painted(
                canvas,
                text_region(x as int, y as int, bytes as int, i + 1),
                color,
            )) by {
                assert forall|j: int| 0 <= j < canvas.len() implies #[trigger] display@.pixels[j]
                    == painted(
                    canvas,
                    text_region(x as int, y as int, bytes as int, i + 1),
                    color,
                )[j] by {
                    if canvas.len() == frame_len() {
                        lemma_pixel_coordinates(j);
                        let px = column_of(j);
                        let off = px - start;
                        if left <= px < left + GLYPH_PITCH {
                            assert(off == 6 * i + (px - left));
                        }
                    }
                }
            }
            i = i + 1;
        }
    }

    /// Plots the pixels that `table` holds for the degrees from
    /// `start_angle` to `end_angle`, both included.
    pub fn draw_arc(
        display: &mut DisplayDriver,
        table: &ArcTable,
        start_angle: u16,
        end_angle: u16,
        color: u16,
    )
        ensures
            final(display)@ == (DisplayView {
                pixels: painted(
                    old(display)@.pixels,
                    arc_region(
                        table.pixels@,
                        table.first_angle as int,
                        start_angle as int,
                        end_angle as int,
                    ),
                    color,
                ),
                ..old(display)@
            }),
    {
        let ghost canvas = display@.pixels;
        let ghost first = table.first_angle as int;
        let ghost start = start_angle as int;
        let ghost end = end_angle as int;
        let n = table.pixels.len();
        let mut k: usize = 0;
        while k < n
            invariant
                k <= n,
                n == table.pixels.len(),
                first == table.first_angle,
                start == start_angle,
                end == end_angle,
                canvas == old(display)@.pixels,
                display@.pixels.len() == canvas.len(),
                display@.output == old(display)@.output,
                display@.config == old(display)@.config,
                display@.panel_ready == old(display)@.panel_ready,
                forall|i: int|
                    0 <= i < canvas.len() ==> #[trigger] display@.pixels[i] == if canvas.len()
                        == frame_len() && arc_hits(
                        table.pixels@,
                        first,
                        start,
                        end,
                        k as int,
                        column_of(i),
                        row_of(i),
                    ) {
                        color
                    } else {
                        canvas[i]
                    },
            decreases n - k,
        {
            let point = table.pixels[k];
            let angle: u64 = table.first_angle as u64 + (k / ARC_PIXELS_PER_DEGREE) as u64;
            let ghost before = display@.pixels;
            if start_angle as u64 <= angle && angle <= end_angle as u64 {
                display.draw_pixel(point.0, point.1, color);
            }
            assert forall|i: int| 0 <= i < canvas.len() implies #[trigger] display@.pixels[i]
                == if canvas.len() == frame_len() && arc_hits(
                table.pixels@,
                first,
                start,
                end,
                k + 1,
                column_of(i),
                row_of(i),
            ) {
                color
            } else {
                canvas[i]
            } by {
                lemma_arc_hits_step(
                    table.pixels@,
                    first,
                    start,
                    end,
                    k as int,
                    column_of(i),
                    row_of(i),
                );
                if canvas.len() == frame_len() {
                    lemma_pixel_coordinates(i);
                    if on_screen(point.0 as int, point.1 as int) {
                        lemma_index_coordinates(point.0 as int, point.1 as int);
                    }
                }
            }
            k = k + 1;
        }
        assert(display@.pixels =~= painted(
            canvas,
            arc_region(table.pixels@, first, start, end),
            color,
        ));
    }

    /// Draws a section frame with a border of two pixels.
    pub fn draw_panel(
        display: &mut DisplayDriver,
        x: u16,
        y: u16,
        width: u16,
        height: u16,
        bg_color: u16,
        border_color: u16,
    )
        ensures
            final(display)@ == (DisplayView {
                pixels: panel_canvas(
                    old(display)@.pixels,
                    x as int,
                    y as int,
                    width as int,
                    height as int,
                    bg_color,
                    border_color,
                ),
                ..old(display)@
            }),
    {
        let ghost canvas = display@.pixels;
        let mut i: i32 = 0;
        while i < 2
            invariant
                0 <= i <= 2,
                display@ == (DisplayView {
                    pixels: if i == 0 {
                        canvas
                    } else {
                        painted(
                            canvas,
                            rect_region(x as int, y as int, width as int, height as int),
                            border_color,
                        )
                    },
                    ..old(display)@
                }),
            decreases 2 - i,
        {
            let ghost before = display@.pixels;
            LvglUi::draw_rect(
                display,
                x as i32 + i,
                y as i32 + i,
                width as i32 - i * 2,
                height as i32 - i * 2,
                border_color,
            );
            assert(display@.pixels =~= painted(
                canvas,
                rect_region(x as int, y as int, width as int, height as int),
                border_color,
            ));
            i = i + 1;
        }
        LvglUi::draw_rect(
            display,
            x as i32 + 2,
            y as i32 + 2,
            width as i32 - 4,
            height as i32 - 4,
            bg_color,
        );
    }

    /// Draws a toggle switch centred on `(x, y)`.
    pub fn draw_switch(display: &mut DisplayDriver, x: u16, y: u16, label: &str, state: bool)
        ensures
            final(display)@ == (DisplayView {
                pixels: switch_canvas(old(display)@.pixels, x as int, y as int, label, state),
                ..old(display)@
            }),
    {
        let width: i32 = 100;
        let height: i32 = 50;
        let color = if state {
            COLOR_SWITCH_ON
        } else {
            COLOR_GRAY
        };
        LvglUi::draw_rounded_rect(
            display,
            x as i32 - width / 2,
            y as i32 - height / 2,
            width,
            height,
            color,
        );
        if state {
            LvglUi::draw_circle(display, x as i32 + width / 4, y as i32, 18, COLOR_WHITE);
        } else {
            LvglUi::draw_circle(display, x as i32 - width / 4, y as i32, 18, COLOR_WHITE);
        }
        LvglUi::draw_text(display, x as i32, y as i32 - height / 2 - 15, label, COLOR_WHITE);
    }

    /// A cache in its boot state: both lights off, level 50, frame stale.
    pub fn new() -> (ui: LvglUi)
        ensures
            ui@ == LvglUiView::initial(),
    {
        LvglUi { bright_state: false, relax_state: false, water_level: 50, needs_redraw: true }
    }

    /// The gauge color of the cached level.
    pub fn get_water_color(&self) -> (color: u16)
        ensures
            color == water_color(self@.water_level),
    {
        if self.water_level <= WATER_CRITICAL_MAX {
            COLOR_WATER_CRITICAL
        } else if self.water_level <= WATER_LOW_MAX {
            COLOR_WATER_LOW
        } else {
            COLOR_WATER_NORMAL
        }
    }

    /// Draws the gauge from the pixels that `gauge` holds for it.
    pub fn draw_water_arc(&self, display: &mut DisplayDriver, gauge: &ArcTable)
        ensures
            final(display)@ == (DisplayView {
                pixels: water_arc_canvas(old(display)@.pixels, *gauge, self@.water_level),
                ..old(display)@
            }),
    {
        LvglUi::draw_arc(display, gauge, GAUGE_START_ANGLE, GAUGE_END_ANGLE, COLOR_DARK_GRAY);
        let fill_angle: u16 = (self.water_level as u16) * 180 / 100;
        let water_color = self.get_water_color();
        LvglUi::draw_arc(
            display,
            gauge,
            GAUGE_START_ANGLE,
            GAUGE_START_ANGLE + fill_angle,
            water_color,
        );
    }

    /// Draws the light section for the cached switch positions.
    pub fn draw_lights_section(&self, display: &mut DisplayDriver)
        ensures
            final(display)@ == (DisplayView {
                pixels: lights_section_canvas(old(display)@.pixels, self@.bright, self@.relax),
                ..old(display)@
            }),
    {
        LvglUi::draw_panel(
            display,
            12,
            12,
            DISP_HOR_RES - 24,
            DISP_VER_RES / 2 - 18,
            COLOR_PANEL_BG,
            COLOR_LIGHTS_BORDER,
        );
        LvglUi::draw_text(display, (DISP_HOR_RES / 2) as i32, 40, "LIGHTS", COLOR_YELLOW);
        LvglUi::draw_line(
            display,
            (DISP_HOR_RES / 2) as i32,
            60,
            (DISP_HOR_RES / 2) as i32,
            (DISP_VER_RES / 2 - 30) as i32,
            COLOR_GRAY,
        );
        LvglUi::draw_switch(
            display,
            DISP_HOR_RES / 2 - 100,
            DISP_VER_RES / 4,
            "BRIGHT",
            self.bright_state,
        );
        LvglUi::draw_switch(
            display,
            DISP_HOR_RES / 2 + 100,
            DISP_VER_RES / 4,
            "RELAX",
            self.relax_state,
        );
    }

    /// Draws the water section for the cached level.
    pub fn draw_water_section(&self, display: &mut DisplayDriver, gauge: &ArcTable)
        ensures
            final(display)@ == (DisplayView {
                pixels: water_section_canvas(old(display)@.pixels, *gauge, self@.water_level),
                ..old(display)@
            }),
    {
        LvglUi::draw_panel(
            display,
            12,
            DISP_VER_RES / 2 - 6,
            DISP_HOR_RES - 24,
            DISP_VER_RES / 2 - 18,
            COLOR_PANEL_BG,
            COLOR_WATER_BORDER,
        );
        LvglUi::draw_text(
            display,
            (DISP_HOR_RES / 2) as i32,
            (DISP_VER_RES / 2 + 20) as i32,
            "WATER LEVEL",
            COLOR_CYAN,
        );
        self.draw_water_arc(display, gauge);
        let label = percent_label(self.water_level);
        let text = label.as_str();
        proof {
            lemma_percent_text(self.water_level);
            vstd::string::is_ascii_spec_bytes(text);
        }
        LvglUi::draw_text(
            display,
            (DISP_HOR_RES / 2) as i32,
            (DISP_VER_RES / 2 + 80) as i32,
            text,
            self.get_water_color(),
        );
    }

    /// Recomposes the whole frame if it is stale, and asks for it to be
    /// handed to the panel. Does nothing while the frame is fresh. With the
    /// panel or the framebuffer not ready, the frame stays stale.
    pub fn draw(&mut self, display: &mut DisplayDriver, gauge: &ArcTable) -> (request: Result<
        Option<BlitRequest>,
        DisplayError,
    >)
        ensures
            final(self)@ == old(self)@.drawn(old(display)@),
            final(display)@ == old(self)@.composed(old(display)@, *gauge),
            request == old(self)@.draw_request(old(display)@),
    {
        if !self.needs_redraw {
            return Ok(None);
        }
        display.fill_screen(COLOR_BG);
        self.draw_lights_section(display);
        self.draw_water_section(display, gauge);
        match display.flush(0, 0, DISP_HOR_RES as i32, DISP_VER_RES as i32) {
            Ok(blit) => {
                self.needs_redraw = false;
                Ok(Some(blit))
            },
            Err(e) => Err(e),
        }
    }

    /// Takes the status of the transfer that [`LvglUi::draw`] asked for. A
    /// failed transfer leaves the frame stale.
    pub fn flush_done(&mut self, status: i32) -> (outcome: Result<(), DisplayError>)
        ensures
            outcome == DisplayDriver::flush_status_spec(status),
            final(self)@ == (LvglUiView {
                needs_redraw: old(self)@.needs_redraw || outcome.is_err(),
                ..old(self)@
            }),
    {
        let outcome = DisplayDriver::flush_status(status);
        if outcome.is_err() {
            self.needs_redraw = true;
        }
        outcome
    }

    /// Caches the Bright position; a change makes the frame stale.
    pub fn set_bright_state(&mut self, state: bool)
        ensures
            final(self)@ == old(self)@.with_bright(state),
    {
        if self.bright_state != state {
            self.bright_state = state;
            self.needs_redraw = true;
        }
    }

    /// Caches the Relax position; a change makes the frame stale.
    pub fn set_relax_state(&mut self, state: bool)
        ensures
            final(self)@ == old(self)@.with_relax(state),
    {
        if self.relax_state != state {
            self.relax_state = state;
            self.needs_redraw = true;
        }
    }

    /// Caches the level, clamped to 100; a change makes the frame stale.
    pub fn set_water_level(&mut self, level: u8)
        ensures
            final(self)@ == old(self)@.with_water_level(level),
    {
        let level = if level > 100 {
            100
        } else {
            level
        };
        if self.water_level != level {
            self.water_level = level;
            self.needs_redraw = true;
        }
    }

    /// Whether the frame is stale.
    pub fn needs_redraw(&self) -> (stale: bool)
        ensures
            stale == self@.needs_redraw,
    {
        self.needs_redraw
    }

    /// Makes the frame stale.
    pub fn mark_for_redraw(&mut self)
        ensures
            final(self)@ == (LvglUiView { needs_redraw: true, ..old(self)@ }),
    {
        self.needs_redraw = true;
    }

    /// Maps a touch to the action it asks for. The cache is not changed.
    pub fn handle_touch(&mut self, x: i16, y: i16) -> (action: Option<UiAction>)
        ensures
            action == hit_test(x as int, y as int),
            final(self)@ == old(self)@,
    {
        if x < (DISP_HOR_RES / 2) as i16 && y < (DISP_VER_RES / 2) as i16 {
            return Some(UiAction::ToggleBright);
        } else if x >= (DISP_HOR_RES / 2) as i16 && y < (DISP_VER_RES / 2) as i16 {
            return Some(UiAction::ToggleRelax);
        }
        None
    }
}

} // verus!
