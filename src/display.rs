//! The 64x32 monochrome framebuffer, XOR sprite drawing with wraparound and
//! collision reporting, and the settings of the terminal renderer.
use vstd::prelude::*;
use crate::config::DisplaySettings;
use crate::constants::{DISPLAY_HEIGHT, DISPLAY_WIDTH};

verus! {

/// Number of cells of the framebuffer.
pub const DISPLAY_CELLS: usize = 2048;

/// Sprite width (always 8 pixels).
pub const SPRITE_WIDTH: usize = 8;

/// Tallest sprite an instruction can ask for.
pub const MAX_SPRITE_HEIGHT: usize = 15;

/// Display errors.
#[derive(Debug, Clone, Copy, PartialEq, Eq, Structural)]
pub enum DisplayError {
    EmptySpriteData,
    SpriteTooTall { height: usize, max_height: usize },
}

/// Control action requested by the renderer.
#[derive(Debug, Clone, Copy, PartialEq, Eq, Structural)]
pub enum ControlAction {
    /// No action requested: keep running.
    Continue,
    /// Reset the emulator.
    Reset,
    /// Toggle pause/resume.
    TogglePause,
    /// Quit the emulator.
    Quit,
}

/// Index of cell `(x, y)` in the row-major framebuffer.
pub open spec fn cell(x: int, y: int) -> int {
    y * DISPLAY_WIDTH + x
}

/// Whether bit `b` of a sprite row is set, bit 0 being the leftmost (MSB).
pub open spec fn sprite_bit(row: u8, b: int) -> bool {
    (row >> ((7 - b) as u8)) & 1u8 == 1u8
}

/// Whether drawing `rows` at `(x, y)` toggles cell `(cx, cy)`. A cell is
/// reached from sprite row `(cy - y) mod 32` and bit `(cx - x) mod 64`; since
/// a sprite is at most 15 rows and 8 bits wide, no cell is reached twice.
pub open spec fn sprite_hits(x: u8, y: u8, rows: Seq<u8>, cx: int, cy: int) -> bool {
    let r = (cy - y) % (DISPLAY_HEIGHT as int);
    let b = (cx - x) % (DISPLAY_WIDTH as int);
    r < rows.len() && b < SPRITE_WIDTH && sprite_bit(rows[r], b)
}

/// Whether the sprite toggles the cell with framebuffer index `i`.
pub open spec fn hits_cell(x: u8, y: u8, rows: Seq<u8>, i: int) -> bool {
    sprite_hits(x, y, rows, i % (DISPLAY_WIDTH as int), i / (DISPLAY_WIDTH as int))
}

/// The framebuffer after the sprite is XORed onto it.
pub open spec fn draw_spec(fb: Seq<bool>, x: u8, y: u8, rows: Seq<u8>) -> Seq<bool> {
    Seq::new(DISPLAY_CELLS as nat, |i: int| fb[i] != hits_cell(x, y, rows, i))
}

/// Whether the draw turns some lit cell off.
pub open spec fn collides(fb: Seq<bool>, x: u8, y: u8, rows: Seq<u8>) -> bool {
    exists|i: int| 0 <= i < DISPLAY_CELLS && #[trigger] fb[i] && hits_cell(x, y, rows, i)
}

/// Outcome of a draw: the sprite must have 1 to 15 rows.
pub open spec fn draw_result(fb: Seq<bool>, x: u8, y: u8, rows: Seq<u8>) -> Result<
    bool,
    DisplayError,
> {
    if rows.len() == 0 {
        Err(DisplayError::EmptySpriteData)
    } else if rows.len() > MAX_SPRITE_HEIGHT {
        Err(DisplayError::SpriteTooTall { height: rows.len() as usize, max_height: MAX_SPRITE_HEIGHT })
    } else {
        Ok(collides(fb, x, y, rows))
    }
}

/// The pixel at `(x, y)`; off outside the screen.
pub open spec fn pixel_at(fb: Seq<bool>, x: int, y: int) -> bool {
    if 0 <= x < DISPLAY_WIDTH && 0 <= y < DISPLAY_HEIGHT {
        fb[cell(x, y)]
    } else {
        false
    }
}

/// The blank framebuffer.
pub open spec fn blank() -> Seq<bool> {
    Seq::new(DISPLAY_CELLS as nat, |i: int| false)
}

/// Number of lit cells.
pub open spec fn count_on(fb: Seq<bool>) -> nat
    decreases fb.len(),
{
    if fb.len() == 0 {
        0
    } else {
        count_on(fb.drop_last()) + if fb.last() {
            1nat
        } else {
            0nat
        }
    }
}

/// Logical display operations the interpreter needs.
pub trait DisplayBus {
    /// The framebuffer, row-major, `DISPLAY_CELLS` cells.
    spec fn pixels(&self) -> Seq<bool>;

    /// Clear the entire display.
    fn clear(&mut self)
        ensures
            final(self).pixels() == blank(),
    ;

    /// XOR a sprite onto the display at `(x, y)`, wrapping at the edges.
    /// Returns whether a lit pixel was turned off.
    fn draw_sprite(&mut self, x: u8, y: u8, sprite_data: &[u8]) -> (r: Result<bool, DisplayError>)
        ensures
            r == draw_result(old(self).pixels(), x, y, sprite_data@),
            final(self).pixels() == (if r is Ok {
                draw_spec(old(self).pixels(), x, y, sprite_data@)
            } else {
                old(self).pixels()
            }),
    ;

    /// The pixel at `(x, y)`; off outside the screen.
    fn get_pixel(&self, x: usize, y: usize) -> (r: bool)
        ensures
            r == pixel_at(self.pixels(), x as int, y as int),
    ;

    /// Set one pixel; a no-op outside the screen.
    fn set_pixel(&mut self, x: usize, y: usize, on: bool)
        ensures
            final(self).pixels() == (if x < DISPLAY_WIDTH && y < DISPLAY_HEIGHT {
                old(self).pixels().update(cell(x as int, y as int), on)
            } else {
                old(self).pixels()
            }),
    ;
}

/// Row `r` of the sprite lands on screen row `(y + r) mod 32`, and that row
/// leads back to `r`.
proof fn lemma_wrap(y: int, r: int, m: int)
    requires
        0 <= y,
        0 <= r < m,
        m == 32 || m == 64,
    ensures
        0 <= (y + r) % m < m,
        ((y + r) % m - y) % m == r,
{
}

/// Screen coordinates determine the sprite row and bit they came from.
proof fn lemma_cell_unique(i: int, x: int, y: int, row: int, bit: int)
    requires
        0 <= i < DISPLAY_CELLS,
        0 <= x,
        0 <= y,
        0 <= row < 32,
        0 <= bit < 64,
        (i / 64 - y) % 32 == row,
        (i % 64 - x) % 64 == bit,
    ensures
        i == ((y + row) % 32) * 64 + (x + bit) % 64,
{
    assert(i / 64 == (y + row) % 32);
    assert(i % 64 == (x + bit) % 64);
}

/// Every bit of a full-width row is set.
proof fn lemma_full_row_bits()
    ensures
        forall|b: int| 0 <= b < 8 ==> #[trigger] sprite_bit(0xFFu8, b),
{
    assert(sprite_bit(0xFFu8, 0) && sprite_bit(0xFFu8, 1) && sprite_bit(0xFFu8, 2) && sprite_bit(
        0xFFu8,
        3,
    ) && sprite_bit(0xFFu8, 4) && sprite_bit(0xFFu8, 5) && sprite_bit(0xFFu8, 6) && sprite_bit(
        0xFFu8,
        7,
    )) by (bit_vector);
}

/// A non-zero row has some bit set.
proof fn lemma_nonzero_row_has_bit(row: u8)
    requires
        row != 0,
    ensures
        exists|b: int| 0 <= b < 8 && #[trigger] sprite_bit(row, b),
{
    assert(sprite_bit(row, 0) || sprite_bit(row, 1) || sprite_bit(row, 2) || sprite_bit(row, 3)
        || sprite_bit(row, 4) || sprite_bit(row, 5) || sprite_bit(row, 6) || sprite_bit(row, 7))
        by (bit_vector)
        requires
            row != 0u8,
    ;
}

/// Drawing is self-inverse: a second identical draw restores the framebuffer.
/// For a single non-empty row drawn where every touched pixel is off, the
/// first draw reports no collision, the second reports one, and the touched
/// pixels are off again afterward.
pub proof fn lemma_draw_twice(fb: Seq<bool>, x: u8, y: u8, row: u8)
    requires
        fb.len() == DISPLAY_CELLS,
        row != 0,
        forall|i: int| 0 <= i < DISPLAY_CELLS && #[trigger] hits_cell(x, y, seq![row], i) ==> !fb[i],
    ensures
        ({
            let rows = seq![row];
            let once = draw_spec(fb, x, y, rows);
            &&& draw_result(fb, x, y, rows) == Ok::<bool, DisplayError>(false)
            &&& draw_result(once, x, y, rows) == Ok::<bool, DisplayError>(true)
            &&& draw_spec(once, x, y, rows) == fb
            &&& forall|i: int|
                0 <= i < DISPLAY_CELLS && #[trigger] hits_cell(x, y, rows, i) ==> !draw_spec(
                    once,
                    x,
                    y,
                    rows,
                )[i]
        }),
{
    let rows = seq![row];
    let once = draw_spec(fb, x, y, rows);
    assert(draw_spec(once, x, y, rows) =~= fb);
    lemma_nonzero_row_has_bit(row);
    let b = choose|b: int| 0 <= b < 8 && #[trigger] sprite_bit(row, b);
    lemma_wrap(y as int, 0, 32);
    lemma_wrap(x as int, b, 64);
    let c = ((y as int) % 32) * 64 + (x + b) % 64;
    assert(c / 64 == (y as int) % 32 && c % 64 == (x + b) % 64);
    assert(hits_cell(x, y, rows, c));
    assert(once[c]);
}

/// A full-width row drawn at column 62 wraps: on the target row it toggles
/// columns 62, 63 and 0 to 5 and nothing else; on a blank screen exactly those
/// pixels come on.
pub proof fn lemma_draw_wraps_columns(fb: Seq<bool>, y: u8)
    requires
        fb.len() == DISPLAY_CELLS,
    ensures
        ({
            let out = draw_spec(fb, 62, y, seq![0xFFu8]);
            &&& forall|i: int|
                0 <= i < DISPLAY_CELLS ==> #[trigger] out[i] == (fb[i] != (i / 64 == y % 32 && (i
                    % 64 >= 62 || i % 64 < 6)))
            &&& fb == blank() ==> forall|cx: int|
                0 <= cx < DISPLAY_WIDTH ==> #[trigger] pixel_at(out, cx, (y % 32) as int) == (cx >= 62
                    || cx < 6)
        }),
{
    lemma_full_row_bits();
    let out = draw_spec(fb, 62, y, seq![0xFFu8]);
    assert forall|i: int| 0 <= i < DISPLAY_CELLS implies #[trigger] out[i] == (fb[i] != (i / 64
        == y % 32 && (i % 64 >= 62 || i % 64 < 6))) by {
        if i / 64 == y % 32 {
            lemma_wrap(y as int, 0, 32);
        }
    }
}

/// The display: a 64x32 framebuffer, row-major.
pub struct Display {
    framebuffer: [bool; DISPLAY_CELLS],
}

impl View for Display {
    type V = Seq<bool>;

    closed spec fn view(&self) -> Seq<bool> {
        self.framebuffer@
    }
}

impl Display {
    /// A display with all pixels off.
    pub fn new() -> (r: Self)
        ensures
            r@ == blank(),
    {
        let r = Display { framebuffer: [false; DISPLAY_CELLS] };
        assert(r@ =~= blank());
        r
    }

    /// Width, height and how many pixels are lit.
    pub fn get_stats(&self) -> (r: DisplayStats)
        ensures
            r.width == DISPLAY_WIDTH,
            r.height == DISPLAY_HEIGHT,
            r.pixels_on == count_on(self@),
            r.pixels_total == DISPLAY_CELLS,
    {
        let mut pixels_on: usize = 0;
        let mut i: usize = 0;
        while i < DISPLAY_CELLS
            invariant
                i <= DISPLAY_CELLS,
                self@.len() == DISPLAY_CELLS,
                pixels_on == count_on(self@.subrange(0, i as int)),
                pixels_on <= i,
            decreases DISPLAY_CELLS - i,
        {
            assert(self@.subrange(0, i + 1).drop_last() =~= self@.subrange(0, i as int));
            if self.framebuffer[i] {
                pixels_on += 1;
            }
            i += 1;
        }
        assert(self@.subrange(0, DISPLAY_CELLS as int) =~= self@);
        DisplayStats {
            width: DISPLAY_WIDTH,
            height: DISPLAY_HEIGHT,
            pixels_on,
            pixels_total: DISPLAY_WIDTH * DISPLAY_HEIGHT,
        }
    }
}

impl DisplayBus for Display {
    open spec fn pixels(&self) -> Seq<bool> {
        self@
    }

    fn clear(&mut self) {
        self.framebuffer = [false; DISPLAY_CELLS];
        assert(self@ =~= blank());
    }

    fn draw_sprite(&mut self, x: u8, y: u8, sprite_data: &[u8]) -> (r: Result<bool, DisplayError>) {
        if sprite_data.len() == 0 {
            return Err(DisplayError::EmptySpriteData);
        }
        if sprite_data.len() > MAX_SPRITE_HEIGHT {
            return Err(
                DisplayError::SpriteTooTall {
                    height: sprite_data.len(),
                    max_height: MAX_SPRITE_HEIGHT,
                },
            );
        }
        let ghost old_fb = self@;
        let ghost rows = sprite_data@;
        let mut collision = false;
        let mut row: usize = 0;
        while row < sprite_data.len()
            invariant
                1 <= rows.len() <= MAX_SPRITE_HEIGHT,
                rows == sprite_data@,
                row <= rows.len(),
                old_fb.len() == DISPLAY_CELLS,
                self@.len() == DISPLAY_CELLS,
                forall|i: int|
                    0 <= i < DISPLAY_CELLS ==> #[trigger] self@[i] == (old_fb[i] != (hits_cell(
                        x,
                        y,
                        rows,
                        i,
                    ) && (i / 64 - y) % 32 < row)),
                collision == exists|i: int|
                    0 <= i < DISPLAY_CELLS && #[trigger] old_fb[i] && hits_cell(x, y, rows, i) && (
                    i / 64 - y) % 32 < row,
            decreases rows.len() - row,
        {
            let sprite_byte = sprite_data[row];
            let screen_y: usize = ((y as usize) + row) % DISPLAY_HEIGHT;
            proof {
                lemma_wrap(y as int, row as int, 32);
            }
            let mut bit_pos: usize = 0;
            while bit_pos < SPRITE_WIDTH
                invariant
                    1 <= rows.len() <= MAX_SPRITE_HEIGHT,
                    rows == sprite_data@,
                    row < rows.len(),
                    sprite_byte == rows[row as int],
                    screen_y == (y + row) % 32,
                    (screen_y - y) % 32 == row,
                    bit_pos <= SPRITE_WIDTH,
                    old_fb.len() == DISPLAY_CELLS,
                    self@.len() == DISPLAY_CELLS,
                    forall|i: int|
                        0 <= i < DISPLAY_CELLS ==> #[trigger] self@[i] == (old_fb[i] != (hits_cell(
                            x,
                            y,
                            rows,
                            i,
                        ) && ((i / 64 - y) % 32 < row || ((i / 64 - y) % 32 == row && (i % 64
                            - x) % 64 < bit_pos)))),
                    collision == exists|i: int|
                        0 <= i < DISPLAY_CELLS && #[trigger] old_fb[i] && hits_cell(x, y, rows, i)
                            && ((i / 64 - y) % 32 < row || ((i / 64 - y) % 32 == row && (i % 64
                            - x) % 64 < bit_pos)),
                decreases SPRITE_WIDTH - bit_pos,
            {
                let screen_x: usize = ((x as usize) + bit_pos) % DISPLAY_WIDTH;
                proof {
                    lemma_wrap(x as int, bit_pos as int, 64);
                }
                let c: usize = screen_y * DISPLAY_WIDTH + screen_x;
                assert(c / 64 == screen_y && c % 64 == screen_x);
                let ghost before_collision = collision;
                if (sprite_byte >> (7 - bit_pos as u8)) & 1 == 1 {
                    let old_pixel = self.framebuffer[c];
                    let new_pixel = !old_pixel;
                    self.framebuffer[c] = new_pixel;
                    if old_pixel && !new_pixel {
                        collision = true;
                    }
                    assert(hits_cell(x, y, rows, c as int));
                    assert(old_pixel == old_fb[c as int]);
                    proof {
                        if collision && !before_collision {
                            assert(old_fb[c as int]);
                        }
                    }
                } else {
                    assert(!hits_cell(x, y, rows, c as int));
                }
                bit_pos += 1;
                assert forall|i: int|
                    0 <= i < DISPLAY_CELLS && #[trigger] hits_cell(x, y, rows, i) && i != c
                        implies !((i / 64 - y) % 32 == row && (i % 64 - x) % 64 == bit_pos - 1) by {
                    if (i / 64 - y) % 32 == row && (i % 64 - x) % 64 == bit_pos - 1 {
                        lemma_cell_unique(i, x as int, y as int, row as int, bit_pos - 1);
                    }
                }
            }
            row += 1;
        }
        assert(self@ =~= draw_spec(old_fb, x, y, rows)) by {
            assert forall|i: int| 0 <= i < DISPLAY_CELLS && hits_cell(x, y, rows, i) implies (i
                / 64 - y) % 32 < row by {}
        }
        if collision {
            let ghost w = choose|i: int|
                0 <= i < DISPLAY_CELLS && #[trigger] old_fb[i] && hits_cell(x, y, rows, i) && (i
                    / 64 - y) % 32 < row;
            assert(old_fb[w] && hits_cell(x, y, rows, w));
        } else {
            assert forall|i: int|
                0 <= i < DISPLAY_CELLS && #[trigger] old_fb[i] implies !hits_cell(
                x,
                y,
                rows,
                i,
            ) by {}
        }
        Ok(collision)
    }

    fn get_pixel(&self, x: usize, y: usize) -> (r: bool) {
        if x >= DISPLAY_WIDTH || y >= DISPLAY_HEIGHT {
            false
        } else {
            self.framebuffer[y * DISPLAY_WIDTH + x]
        }
    }

    fn set_pixel(&mut self, x: usize, y: usize, on: bool) {
        if x < DISPLAY_WIDTH && y < DISPLAY_HEIGHT {
            self.framebuffer[y * DISPLAY_WIDTH + x] = on;
        }
    }
}

impl Default for Display {
    /// A display with all pixels off.
    fn default() -> (r: Self)
        ensures
            r@ == blank(),
    {
        Self::new()
    }
}

/// Display figures.
#[derive(Debug, Clone, PartialEq)]
pub struct DisplayStats {
    pub width: usize,
    pub height: usize,
    pub pixels_on: usize,
    pub pixels_total: usize,
}

/// `std::io::Error`, carried by renderer errors.
#[verifier::external_type_specification]
#[verifier::external_body]
pub struct ExIoError(std::io::Error);

/// Renderer errors.
#[derive(Debug)]
pub enum RendererError {
    TerminalInit(std::io::Error),
    TerminalTooSmall { width: u16, height: u16 },
    NotATty,
    CrosstermError(String),
}

/// Settings of the terminal renderer.
#[derive(Debug, Clone)]
pub struct RatatuiConfig {
    pub theme: String,
    pub show_cpu_registers: bool,
    pub show_performance_stats: bool,
    pub show_input_status: bool,
    pub show_memory_info: bool,
    pub pixel_char: String,
    pub pixel_color: String,
    pub border_style: String,
    pub refresh_rate_ms: u64,
}

impl Default for RatatuiConfig {
    /// The classic theme: every panel on, green double-block pixels,
    /// rounded borders, 16 ms refresh.
    fn default() -> (r: Self)
        ensures
            r.theme@ == "classic"@,
            r.show_cpu_registers && r.show_performance_stats,
            r.show_input_status && r.show_memory_info,
            r.pixel_char@ == "██"@,
            r.pixel_color@ == "Green"@,
            r.border_style@ == "rounded"@,
            r.refresh_rate_ms == 16,
    {
        RatatuiConfig {
            theme: "classic".to_owned(),
            show_cpu_registers: true,
            show_performance_stats: true,
            show_input_status: true,
            show_memory_info: true,
            pixel_char: "██".to_owned(),
            pixel_color: "Green".to_owned(),
            border_style: "rounded".to_owned(),
            refresh_rate_ms: 16,
        }
    }
}

impl RatatuiConfig {
    /// Renderer settings from the user's display settings: theme, pixel text,
    /// colour and refresh rate come from them; every panel is on and borders
    /// are rounded.
    pub fn from_display_settings(display_settings: &DisplaySettings) -> (r: Self)
        ensures
            r.theme@ == display_settings.theme@,
            r.pixel_char@ == display_settings.pixel_char@,
            r.pixel_color@ == display_settings.pixel_color@,
            r.refresh_rate_ms == display_settings.refresh_rate_ms,
            r.show_cpu_registers && r.show_performance_stats,
            r.show_input_status && r.show_memory_info,
            r.border_style@ == "rounded"@,
    {
        RatatuiConfig {
            theme: display_settings.theme.clone(),
            show_cpu_registers: true,
            show_performance_stats: true,
            show_input_status: true,
            show_memory_info: true,
            pixel_char: display_settings.pixel_char.clone(),
            pixel_color: display_settings.pixel_color.clone(),
            border_style: "rounded".to_owned(),
            refresh_rate_ms: display_settings.refresh_rate_ms,
        }
    }
}

/// Colours a lit pixel can have.
#[derive(Debug, Clone, Copy, PartialEq, Eq, Structural)]
pub enum PixelColor {
    Green,
    White,
    Blue,
    Red,
    Yellow,
    Cyan,
    Magenta,
    Gray,
    DarkGray,
}

/// The colour of a lower-case colour name; unknown names give green.
pub open spec fn color_of(name: Seq<char>) -> PixelColor {
    if name == "green"@ {
        PixelColor::Green
    } else if name == "white"@ {
        PixelColor::White
    } else if name == "blue"@ {
        PixelColor::Blue
    } else if name == "red"@ {
        PixelColor::Red
    } else if name == "yellow"@ {
        PixelColor::Yellow
    } else if name == "cyan"@ {
        PixelColor::Cyan
    } else if name == "magenta"@ {
        PixelColor::Magenta
    } else if name == "gray"@ {
        PixelColor::Gray
    } else if name == "dark_gray"@ {
        PixelColor::DarkGray
    } else {
        PixelColor::Green
    }
}

/// What `str::to_lowercase` returns for `s`.
pub uninterp spec fn lower_of(s: Seq<char>) -> Seq<char>;

/// Relies on `str::to_lowercase`, to match colour names in any case: the
/// result depends on the characters alone.
#[verifier::external_body]
fn lowercase(s: &str) -> (r: String)
    ensures
        r@ == lower_of(s@),
{
    s.to_lowercase()
}

/// Whether two strings hold the same characters.
fn same_text(a: &str, b: &str) -> (r: bool)
    ensures
        r == (a@ == b@),
{
    let n = a.unicode_len();
    if n != b.unicode_len() {
        return false;
    }
    let mut i: usize = 0;
    while i < n
        invariant
            n == a@.len(),
            n == b@.len(),
            i <= n,
            a@.subrange(0, i as int) == b@.subrange(0, i as int),
        decreases n - i,
    {
        if a.get_char(i) != b.get_char(i) {
            return false;
        }
        i += 1;
        assert(a@.subrange(0, i as int) =~= b@.subrange(0, i as int));
    }
    assert(a@ =~= a@.subrange(0, n as int));
    assert(b@ =~= b@.subrange(0, n as int));
    true
}

/// The colour of an already lower-cased colour name; unknown names give green.
pub fn color_from_lowercase(name: &str) -> (r: PixelColor)
    ensures
        r == color_of(name@),
{
    if same_text(name, "green") {
        PixelColor::Green
    } else if same_text(name, "white") {
        PixelColor::White
    } else if same_text(name, "blue") {
        PixelColor::Blue
    } else if same_text(name, "red") {
        PixelColor::Red
    } else if same_text(name, "yellow") {
        PixelColor::Yellow
    } else if same_text(name, "cyan") {
        PixelColor::Cyan
    } else if same_text(name, "magenta") {
        PixelColor::Magenta
    } else if same_text(name, "gray") {
        PixelColor::Gray
    } else if same_text(name, "dark_gray") {
        PixelColor::DarkGray
    } else {
        PixelColor::Green
    }
}

/// The colour of a colour name, in any case; unknown names give green.
pub fn parse_pixel_color(color_str: &str) -> (r: PixelColor)
    ensures
        r == color_of(lower_of(color_str@)),
{
    let lowered = lowercase(color_str);
    color_from_lowercase(lowered.as_str())
}

} // verus!
