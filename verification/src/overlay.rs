//! The recording overlay: when it is visible, what it draws for each mode,
//! and the integer clockwork of its status animation. Geometry, colours and
//! level smoothing are floating point and are computed by the caller.
use vstd::prelude::*;
use vstd::string::{StrSliceExecFns, StringExecFns};

use crate::text::{to_uppercase, uppercase_of};

verus! {

/// Width of the overlay window in pixels.
pub const OVERLAY_WIDTH: i32 = 260;

/// Height of the overlay window in pixels.
pub const OVERLAY_HEIGHT: i32 = 52;

/// Distance of the overlay from the bottom screen edge in pixels.
pub const BOTTOM_MARGIN: i32 = 30;

/// Title of the overlay window.
pub const OVERLAY_TITLE: &'static str = "MadWhisp Overlay";

/// Layer-shell namespace of the overlay window.
pub const OVERLAY_NAMESPACE: &'static str = "madwhisp-overlay";

/// Number of audio level channels the overlay starts with.
pub const LEVEL_CHANNELS: usize = 16;

/// Milliseconds between level smoothing and repaint ticks.
pub const REPAINT_INTERVAL_MS: u64 = 33;

/// Milliseconds between updates of the window visibility.
pub const VISIBILITY_INTERVAL_MS: u64 = 50;

/// Number of waveform bars drawn while recording.
pub const RECORDING_BARS: usize = 9;

/// Columns of the "matrix rain" drawn behind a fancy status.
pub const MATRIX_COLUMNS: u32 = 18;

/// Glyphs per matrix rain column.
pub const MATRIX_ROWS: u32 = 4;

/// The glyphs the matrix rain draws from.
pub const MATRIX_GLYPHS: &'static str = "01{}[]<>|/\\:;~#$%&@!?*+=^";

/// What the overlay currently reports.
#[derive(Clone, Copy, Debug, PartialEq, Eq, Structural)]
pub enum OverlayMode {
    Hidden,
    Recording,
    Transcribing,
    Processing,
}

/// The two status screens.
#[derive(Clone, Copy, Debug, PartialEq, Eq, Structural)]
pub enum StatusKind {
    Transcribing,
    Processing,
}

/// What one repaint draws.
#[derive(Clone, Copy, Debug, PartialEq, Eq, Structural)]
pub enum OverlayScene {
    /// Only clears the window.
    Cleared,
    /// The panel with the waveform and "REC".
    Recording,
    /// The panel with a status text and spinner.
    Status(StatusKind),
}

pub open spec fn spec_overlay_visible(mode: OverlayMode) -> bool {
    mode != OverlayMode::Hidden
}

/// Whether the overlay window is shown for `mode`.
pub fn overlay_visible(mode: OverlayMode) -> (visible: bool)
    ensures
        visible == spec_overlay_visible(mode),
{
    mode != OverlayMode::Hidden
}

pub open spec fn spec_overlay_scene(mode: OverlayMode) -> OverlayScene {
    match mode {
        OverlayMode::Hidden => OverlayScene::Cleared,
        OverlayMode::Recording => OverlayScene::Recording,
        OverlayMode::Transcribing => OverlayScene::Status(StatusKind::Transcribing),
        OverlayMode::Processing => OverlayScene::Status(StatusKind::Processing),
    }
}

/// What a repaint draws in `mode`.
pub fn overlay_scene(mode: OverlayMode) -> (scene: OverlayScene)
    ensures
        scene == spec_overlay_scene(mode),
{
    match mode {
        OverlayMode::Hidden => OverlayScene::Cleared,
        OverlayMode::Recording => OverlayScene::Recording,
        OverlayMode::Transcribing => OverlayScene::Status(StatusKind::Transcribing),
        OverlayMode::Processing => OverlayScene::Status(StatusKind::Processing),
    }
}

/// The word shown on a status screen.
pub fn status_text(kind: StatusKind) -> (text: &'static str)
    ensures
        text@ == match kind {
            StatusKind::Transcribing => "Transcribing"@,
            StatusKind::Processing => "Processing"@,
        },
{
    match kind {
        StatusKind::Transcribing => "Transcribing",
        StatusKind::Processing => "Processing",
    }
}

/// Number of trailing dots at time `now_ms`: one more every 350 ms, 0 to 3.
pub open spec fn spec_status_dot_count(now_ms: u128) -> nat {
    ((now_ms / 350) % 4) as nat
}

/// Number of trailing dots of the status text at time `now_ms` (milliseconds).
pub fn status_dot_count(now_ms: u128) -> (dots: usize)
    ensures
        dots == spec_status_dot_count(now_ms),
        dots < 4,
{
    ((now_ms / 350) % 4) as usize
}

/// `n` dots.
pub open spec fn dots(n: nat) -> Seq<char> {
    Seq::new(n, |i: int| '.')
}

/// A status label: `> ` before the (upper-cased) text on the fancy screen,
/// then the dots.
pub open spec fn spec_label_with_dots(shown: Seq<char>, fancy: bool, dot_count: nat) -> Seq<
    char,
> {
    if fancy {
        "> "@ + shown + dots(dot_count)
    } else {
        shown + dots(dot_count)
    }
}

/// Builds a status label from the text as shown and the number of dots.
pub fn label_with_dots(shown: &str, fancy: bool, dot_count: usize) -> (label: String)
    ensures
        label@ == spec_label_with_dots(shown@, fancy, dot_count as nat),
{
    let mut label = if fancy {
        String::from_str("> ")
    } else {
        String::new()
    };
    label.append(shown);
    let ghost base = label@;
    let mut k: usize = 0;
    while k < dot_count
        invariant
            k <= dot_count,
            label@ == base + dots(k as nat),
        decreases dot_count - k,
    {
        label.append(".");
        proof {
            reveal_strlit(".");
            assert(base + dots((k + 1) as nat) =~= base + dots(k as nat) + "."@);
        }
        k = k + 1;
    }
    label
}

/// The label of a status screen at time `now_ms`; the fancy screen shows the
/// text upper-cased.
pub fn status_label(text: &str, fancy: bool, now_ms: u128) -> (label: String)
    ensures
        label@ == spec_label_with_dots(
            if fancy {
                uppercase_of(text@)
            } else {
                text@
            },
            fancy,
            spec_status_dot_count(now_ms),
        ),
{
    let dot_count = status_dot_count(now_ms);
    if fancy {
        let upper = to_uppercase(text);
        label_with_dots(upper.as_str(), true, dot_count)
    } else {
        label_with_dots(text, false, dot_count)
    }
}

pub open spec fn spec_cursor_visible(fancy: bool, now_ms: u128) -> bool {
    fancy && (now_ms / 500) % 2 == 0
}

/// Whether the blinking block cursor after a fancy label is drawn: on for
/// 500 ms, off for 500 ms.
pub fn cursor_visible(fancy: bool, now_ms: u128) -> (visible: bool)
    ensures
        visible == spec_cursor_visible(fancy, now_ms),
{
    fancy && (now_ms / 500) % 2 == 0
}

pub open spec fn spec_glitch_cycle(now_ms: u128) -> u128 {
    ((now_ms / 120) % 47) as u128
}

/// Position of `now_ms` in the 47-slot glitch cycle (slots of 120 ms).
pub fn glitch_cycle(now_ms: u128) -> (cycle: u128)
    ensures
        cycle == spec_glitch_cycle(now_ms),
        cycle < 47,
{
    (now_ms / 120) % 47
}

/// Whether the glitch bar is drawn: in the first 3 slots of each cycle.
pub fn glitch_active(now_ms: u128) -> (active: bool)
    ensures
        active == (spec_glitch_cycle(now_ms) < 3),
{
    glitch_cycle(now_ms) < 3
}

/// Top row of the glitch bar in a window `height` pixels high (a height of
/// 0 counts as 1).
pub fn glitch_row(now_ms: u128, height: u128) -> (row: u128)
    ensures
        row == (now_ms / 60) % (if height > 1 {
            height
        } else {
            1u128
        }),
{
    let h = if height > 1 {
        height
    } else {
        1
    };
    (now_ms / 60) % h
}

pub open spec fn spec_matrix_seed(col: u32) -> u128 {
    ((col * 7919 + 31) % 997) as u128
}

/// Pseudo-random seed of a matrix rain column.
pub fn matrix_seed(col: u32) -> (seed: u128)
    ensures
        seed == spec_matrix_seed(col),
        seed < 997,
{
    (col as u128 * 7919 + 31) % 997
}

pub open spec fn spec_matrix_phase(col: u32, row: u32) -> u128 {
    ((spec_matrix_seed(col) * (row + 1)) % 1000) as u128
}

/// Phase offset of glyph `row` in column `col`.
pub fn matrix_phase(col: u32, row: u32) -> (phase: u128)
    ensures
        phase == spec_matrix_phase(col, row),
        phase < 1000,
{
    let seed = matrix_seed(col);
    assert(seed * (row as u128 + 1) < 997 * 0x1_0000_0001) by (nonlinear_arith)
        requires
            seed < 997,
            row as u128 + 1 <= 0x1_0000_0000,
    ;
    seed.wrapping_mul(row as u128 + 1) % 1000
}

/// The clock (in milliseconds) from which glyph `row` of column `col`
/// computes how far it has fallen.
pub fn matrix_rain_clock(now_ms: u128, col: u32, row: u32) -> (clock: u128)
    requires
        now_ms + spec_matrix_phase(col, row) * 7 <= u128::MAX,
    ensures
        clock == now_ms + spec_matrix_phase(col, row) * 7,
{
    now_ms + matrix_phase(col, row) * 7
}

/// Which glyph (position in `MATRIX_GLYPHS`) row `row` of column `col` shows
/// at `now_ms`: each column changes glyph every `80 + seed` milliseconds.
pub open spec fn spec_matrix_glyph_index(now_ms: u128, col: u32, row: u32) -> int {
    (((now_ms as int / (80 + spec_matrix_seed(col)) + spec_matrix_phase(col, row)) as u128) as usize
        % 25) as int
}

/// The glyph row `row` of column `col` shows at `now_ms`.
pub fn matrix_glyph(now_ms: u128, col: u32, row: u32) -> (glyph: char)
    ensures
        glyph == MATRIX_GLYPHS@[spec_matrix_glyph_index(now_ms, col, row)],
{
    proof {
        reveal_strlit("01{}[]<>|/\\:;~#$%&@!?*+=^");
    }
    let seed = matrix_seed(col);
    let phase = matrix_phase(col, row);
    let step = now_ms / (80 + seed);
    assert(step <= now_ms);
    assert(step + phase <= u128::MAX) by (nonlinear_arith)
        requires
            step == now_ms as int / (80 + seed),
            seed < 997,
            phase < 1000,
    ;
    let index = ((step + phase) as usize) % 25;
    MATRIX_GLYPHS.get_char(index)
}

/// Law: the block cursor is drawn only on the fancy screen, and there it is
/// on during the first half of every second.
pub proof fn cursor_only_on_fancy_screen(now_ms: u128)
    ensures
        !spec_cursor_visible(false, now_ms),
        spec_cursor_visible(true, now_ms) <==> now_ms % 1000 < 500,
{
    let t = now_ms as int;
    assert(((t / 500) % 2 == 0) <==> (t % 1000 < 500)) by (nonlinear_arith)
        requires
            t >= 0,
    ;
}

/// Law: each mode draws its own screen: only Hidden clears, only Recording
/// draws the waveform, and a status screen names the mode it shows; the
/// window is visible in every mode but Hidden.
pub proof fn scene_matches_mode(mode: OverlayMode)
    ensures
        spec_overlay_visible(mode) <==> mode != OverlayMode::Hidden,
        (spec_overlay_scene(mode) == OverlayScene::Cleared) <==> mode == OverlayMode::Hidden,
        (spec_overlay_scene(mode) == OverlayScene::Recording) <==> mode == OverlayMode::Recording,
        (spec_overlay_scene(mode) == OverlayScene::Status(StatusKind::Transcribing)) <==> mode
            == OverlayMode::Transcribing,
        (spec_overlay_scene(mode) == OverlayScene::Status(StatusKind::Processing)) <==> mode
            == OverlayMode::Processing,
{
}

/// Law: the dots advance by one every 350 ms and wrap after three.
pub proof fn dots_advance_every_350_ms(now_ms: u128)
    requires
        now_ms + 350 <= u128::MAX,
    ensures
        spec_status_dot_count(now_ms) < 4,
        spec_status_dot_count((now_ms + 350) as u128) == (spec_status_dot_count(now_ms) + 1) % 4,
{
    let t = now_ms as int;
    assert((t + 350) / 350 == t / 350 + 1) by (nonlinear_arith);
    assert((t / 350 + 1) % 4 == ((t / 350) % 4 + 1) % 4) by (nonlinear_arith);
}

/// Law: a plain label is the text followed by 0 to 3 dots; a fancy label is
/// "> ", the shown text, and the same dots.
pub proof fn label_is_text_then_dots(shown: Seq<char>, fancy: bool, dot_count: nat)
    ensures
        ({
            let label = spec_label_with_dots(shown, fancy, dot_count);
            let start: int = if fancy {
                2
            } else {
                0
            };
            &&& label.len() == start + shown.len() + dot_count
            &&& label.subrange(start, start + shown.len()) == shown
            &&& forall|i: int| start + shown.len() <= i < label.len() ==> #[trigger] label[i] == '.'
            &&& fancy ==> label[0] == '>' && label[1] == ' '
        }),
{
    reveal_strlit("> ");
    let label = spec_label_with_dots(shown, fancy, dot_count);
    let start: int = if fancy {
        2
    } else {
        0
    };
    assert(label.subrange(start, start + shown.len()) =~= shown);
}

/// Law: the matrix rain only draws glyphs of its glyph set.
pub proof fn matrix_glyph_from_set(now_ms: u128, col: u32, row: u32)
    ensures
        0 <= spec_matrix_glyph_index(now_ms, col, row) < MATRIX_GLYPHS@.len(),
{
    reveal_strlit("01{}[]<>|/\\:;~#$%&@!?*+=^");
}

/// Law: a repaint only clears the window exactly when the window is hidden.
pub proof fn cleared_exactly_when_hidden(mode: OverlayMode)
    ensures
        (spec_overlay_scene(mode) == OverlayScene::Cleared) == !spec_overlay_visible(mode),
{
}

/// Law: the status animation repeats: the dots every 1400 ms, the cursor
/// every 1000 ms and the glitch cycle every 5640 ms.
pub proof fn status_animation_is_periodic(now_ms: u128)
    requires
        now_ms + 5640 <= u128::MAX,
    ensures
        spec_status_dot_count((now_ms + 1400) as u128) == spec_status_dot_count(now_ms),
        spec_cursor_visible(true, (now_ms + 1000) as u128) == spec_cursor_visible(true, now_ms),
        spec_glitch_cycle((now_ms + 5640) as u128) == spec_glitch_cycle(now_ms),
{
    let t = now_ms as int;
    assert((t + 1400) / 350 == t / 350 + 4) by (nonlinear_arith);
    assert((t / 350 + 4) % 4 == (t / 350) % 4) by (nonlinear_arith);
    assert((t + 1000) / 500 == t / 500 + 2) by (nonlinear_arith);
    assert((t / 500 + 2) % 2 == (t / 500) % 2) by (nonlinear_arith);
    assert((t + 5640) / 120 == t / 120 + 47) by (nonlinear_arith);
    assert((t / 120 + 47) % 47 == (t / 120) % 47) by (nonlinear_arith);
}

} // verus!
