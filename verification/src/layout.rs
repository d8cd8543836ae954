use vstd::prelude::*;
use crate::dice::BUTTON_COUNT;
use crate::text::{all_digits, decimal, digits_value, lemma_decimal_denotes, push_decimal};

verus! {

/// Width of the window in pixels.
pub const SCREEN_W: u32 = 960;

/// Height of the window in pixels.
pub const SCREEN_H: u32 = 640;

/// Left edge of the die buttons.
pub const BTN_X: u32 = 10;

/// Side of a (square) die button.
pub const BUTTON_SIZE: u32 = 70;

/// Gap between two die buttons.
pub const BTN_GAP: u32 = 8;

/// Top of the first die button: seven buttons and six gaps (538 px)
/// centred in the window's height.
pub const BTN_START_Y: u32 = 51;

/// Left edge of the right panel.
pub const PANEL_X: u32 = 768;

/// Width of the right panel.
pub const PANEL_W: u32 = 180;

/// Height of one line of the result panel.
pub const RESULT_LINE_H: u32 = 26;

/// Top edge of die button `i`.
pub open spec fn button_y(i: int) -> int {
    BTN_START_Y + i * (BUTTON_SIZE + BTN_GAP)
}

/// Whether the point (`mx`, `my`) lies on die button `i`.
pub open spec fn on_button(i: int, mx: u32, my: u32) -> bool {
    &&& BTN_X <= mx < BTN_X + BUTTON_SIZE
    &&& button_y(i) <= my < button_y(i) + BUTTON_SIZE
}

/// Top edge of die button `i`.
pub fn button_top(i: usize) -> (r: u32)
    requires
        i < BUTTON_COUNT,
    ensures
        r == button_y(i as int),
{
    let step: u32 = BUTTON_SIZE + BTN_GAP;
    let k: u32 = i as u32;
    assert(k * step <= 6 * 78) by (nonlinear_arith)
        requires
            k <= 6,
            step == 78,
    ;
    BTN_START_Y + k * step
}

/// The die button under the point (`mx`, `my`), if any.
pub fn button_at(mx: u32, my: u32) -> (r: Option<usize>)
    ensures
        r matches Some(i) ==> i < BUTTON_COUNT && on_button(i as int, mx, my),
        r is None ==> forall|i: int| 0 <= i < BUTTON_COUNT ==> !on_button(i, mx, my),
{
    let mut i: usize = 0;
    while i < BUTTON_COUNT
        invariant
            i <= BUTTON_COUNT,
            forall|j: int| 0 <= j < i ==> !on_button(j, mx, my),
        decreases BUTTON_COUNT - i,
    {
        let bx = BTN_X;
        let by = button_top(i);
        let bs = BUTTON_SIZE;
        if mx >= bx && mx < bx + bs && my >= by && my < by + bs {
            return Some(i);
        }
        i = i + 1;
    }
    None
}

/// No point lies on two die buttons, and every button lies inside the
/// window: a press selects at most one die.
pub proof fn lemma_buttons_disjoint(i: int, j: int, mx: u32, my: u32)
    requires
        0 <= i < BUTTON_COUNT,
        0 <= j < BUTTON_COUNT,
        on_button(i, mx, my),
        on_button(j, mx, my),
    ensures
        i == j,
        button_y(i) + BUTTON_SIZE <= SCREEN_H,
{
}

/// Where the dice-count badge stands for a pointer at (`mx`, `my`): to the
/// right of the pointer but never past 55 px from the window's right edge,
/// and 28 px above it but never above the window.
pub open spec fn label_spot(mx: u32, my: u32) -> (u32, u32) {
    let x = if mx + 38 <= SCREEN_W - 55 { (mx + 38) as u32 } else { (SCREEN_W - 55) as u32 };
    let y = if my >= 28 { (my - 28) as u32 } else { 0u32 };
    (x, y)
}

/// The position of the dice-count badge beside the pointer.
pub fn count_label_position(mx: u32, my: u32) -> (r: (u32, u32))
    requires
        mx + 38 <= u32::MAX,
    ensures
        r == label_spot(mx, my),
{
    let label_x = (mx + 38).min(SCREEN_W.saturating_sub(55));
    let label_y = my.saturating_sub(28);
    (label_x, label_y)
}

/// The text of the dice-count badge: "2d6", "8d20", and "1d%" for the
/// percentile die (100 faces).
pub open spec fn count_text(count: u32, sides: u32) -> Seq<char> {
    decimal(count as nat) + "d"@ + if sides == 100 {
        "%"@
    } else {
        decimal(sides as nat)
    }
}

/// The text of the dice-count badge for `count` dice of `sides` faces.
pub fn count_label_text(count: u32, sides: u32) -> (r: String)
    ensures
        r@ == count_text(count, sides),
{
    let mut s = String::new();
    push_decimal(&mut s, count);
    s.append("d");
    if sides == 100 {
        s.append("%");
    } else {
        push_decimal(&mut s, sides);
    }
    assert(s@ =~= count_text(count, sides));
    s
}

/// The badge reads as "<count>d<faces>": a run of digits denoting the
/// number of dice held, a 'd', and then, for the percentile die (100
/// faces) the single sign '%', and for every other die a run of digits
/// denoting its number of faces.
pub proof fn lemma_count_text_reads(count: u32, sides: u32)
    ensures
        ({
            let t = count_text(count, sides);
            exists|k: int|
                0 < k < t.len() && #[trigger] t[k] == 'd' && all_digits(t.take(k))
                    && digits_value(t.take(k)) == count && (sides == 100 ==> t.skip(k + 1) == seq!['%'])
                    && (sides != 100 ==> all_digits(t.skip(k + 1)) && t.skip(k + 1).len() >= 1
                    && digits_value(t.skip(k + 1)) == sides)
        }),
{
    reveal_strlit("d");
    reveal_strlit("%");
    lemma_decimal_denotes(count as nat);
    lemma_decimal_denotes(sides as nat);
    let t = count_text(count, sides);
    let k = decimal(count as nat).len() as int;
    assert(t.take(k) =~= decimal(count as nat));
    assert(t[k] == 'd');
    if sides == 100 {
        assert(t.skip(k + 1) =~= seq!['%']);
    } else {
        assert(t.skip(k + 1) =~= decimal(sides as nat));
    }
}

/// The height of a result block of `n_lines` lines, with the separator and
/// total below them when `has_total`.
pub open spec fn result_block_height(n_lines: u32, has_total: bool) -> int {
    36 + n_lines * RESULT_LINE_H + if has_total { 46int } else { 0int }
}

/// The top of a result block of `n_lines` lines, centred in the part of
/// the right panel below the material toggle (from y = 65, 555 px high);
/// a block taller than that starts at the top of that part.
pub open spec fn result_start(n_lines: u32, has_total: bool) -> int {
    let h = result_block_height(n_lines, has_total);
    65 + (if h <= 555 { (555 - h) / 2 } else { 0 })
}

/// Returns the y coordinate where the result block should start so that
/// it is vertically centred in the right panel below the material toggle.
pub fn centered_result_start(n_lines: u32, has_total: bool) -> (r: u32)
    requires
        result_block_height(n_lines, has_total) <= u32::MAX,
    ensures
        r == result_start(n_lines, has_total),
{
    let block_h = 36 + n_lines * RESULT_LINE_H + if has_total {
        46
    } else {
        0
    };
    let avail_top: u32 = 65;
    let avail_h: u32 = 555;
    avail_top + avail_h.saturating_sub(block_h) / 2
}

/// A result block that fits the panel is centred in it: it starts below
/// the material toggle, leaves equal space (to a pixel) above and below,
/// and ends above the panel's bottom margin.
pub proof fn lemma_result_block_centred(n_lines: u32, has_total: bool)
    requires
        result_block_height(n_lines, has_total) <= 555,
    ensures
        result_start(n_lines, has_total) >= 65,
        result_start(n_lines, has_total) + result_block_height(n_lines, has_total) <= 620,
        0 <= (620 - (result_start(n_lines, has_total) + result_block_height(n_lines, has_total)))
            - (result_start(n_lines, has_total) - 65) <= 1,
{
}

} // verus!
