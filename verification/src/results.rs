use vstd::prelude::*;
use crate::dice::{DieType, percentile_sum, percentile_total};
use crate::layout::{RESULT_LINE_H, result_start, centered_result_start};
use crate::roll::DieOutcome;
use crate::style::{
    Color, WidgetStyles, plain, rgba, result_band, result_color, result_line_styles,
    result_sep_styles, result_title_styles, result_total_styles_colored, transparent,
};
use crate::text::{decimal, two_digits, push_decimal, decimal_string, two_digit_string};

verus! {

/// A widget of the result panel: the heading, one of the eight result
/// lines, the separator bar, or the total.
#[derive(Clone, Copy, Debug, PartialEq, Eq, Structural)]
pub enum ResultSlot {
    Title,
    Line(usize),
    Separator,
    Total,
}

/// Where a widget of the result panel goes, what it says and how it looks.
#[derive(Debug)]
pub struct Placement {
    pub slot: ResultSlot,
    pub y: u32,
    pub label: String,
    pub styles: WidgetStyles,
}

/// A placement as the contracts speak of it: slot, y, text and styles.
pub type PlacementView = (ResultSlot, int, Seq<char>, WidgetStyles);

/// The view of a placement.
pub open spec fn placement_view(p: Placement) -> PlacementView {
    (p.slot, p.y as int, p.label@, p.styles)
}

/// The faces of the settled dice, in tray order.
pub open spec fn settled_values(dice: Seq<DieOutcome>) -> Seq<u32>
    decreases dice.len(),
{
    if dice.len() == 0 {
        Seq::empty()
    } else {
        let rest = settled_values(dice.drop_last());
        match dice.last().result {
            Some(v) => rest.push(v),
            None => rest,
        }
    }
}

/// The sum of a sequence of faces.
pub open spec fn sum_of(s: Seq<u32>) -> int
    decreases s.len(),
{
    if s.len() == 0 {
        0
    } else {
        sum_of(s.drop_last()) + s.last()
    }
}

/// Whether the roll holds the tens die of a percentile roll.
pub open spec fn has_tens_die(dice: Seq<DieOutcome>) -> bool {
    exists|i: int| 0 <= i < dice.len() && (#[trigger] dice[i]).die_type == DieType::PercentileTens
}

/// The face of the first die of type `t` in the tray, 0 where there is no
/// such die or it has not settled.
pub open spec fn first_face(dice: Seq<DieOutcome>, t: DieType) -> u32
    decreases dice.len(),
{
    if dice.len() == 0 {
        0
    } else if dice[0].die_type == t {
        match dice[0].result {
            Some(r) => r,
            None => 0,
        }
    } else {
        first_face(dice.drop_first(), t)
    }
}

/// The heading of a roll of `n` dice of `sides` faces: "d6" for one die,
/// "3d6" for three.
pub open spec fn title_text(n: nat, sides: u32) -> Seq<char> {
    if n == 1 {
        "d"@ + decimal(sides as nat)
    } else {
        decimal(n) + "d"@ + decimal(sides as nat)
    }
}

/// The text colour of the two lines of a percentile roll.
pub open spec fn percentile_white() -> Color {
    rgba(220, 220, 255, 255)
}

/// The look of the heading.
pub open spec fn title_look() -> WidgetStyles {
    plain(rgba(20, 20, 50, 230), rgba(255, 210, 80, 255))
}

/// The look of a result line with text in `c`.
pub open spec fn line_look(c: Color) -> WidgetStyles {
    plain(rgba(20, 20, 45, 180), c)
}

/// The look of the separator bar.
pub open spec fn sep_look() -> WidgetStyles {
    plain(rgba(150, 150, 180, 160), transparent())
}

/// The look of the total with text in `c`.
pub open spec fn total_look(c: Color) -> WidgetStyles {
    plain(rgba(50, 30, 10, 240), c)
}

/// The result panel of a percentile roll: heading "d%", the tens face with
/// two digits, the ones face, the separator, and the total (00 and 0 make
/// 100) graded out of 100.
pub open spec fn percentile_layout(dice: Seq<DieOutcome>) -> Seq<PlacementView> {
    let tens = first_face(dice, DieType::PercentileTens);
    let ones = first_face(dice, DieType::PercentileOnes);
    let total = percentile_sum(tens, ones);
    let start = result_start(2, true);
    let lines = start + 36;
    let sep = lines + 2 * RESULT_LINE_H + 6;
    seq![
        (ResultSlot::Title, start, "d%"@, title_look()),
        (ResultSlot::Line(0), lines, two_digits(tens as nat), line_look(percentile_white())),
        (ResultSlot::Line(1), lines + RESULT_LINE_H, decimal(ones as nat), line_look(percentile_white())),
        (ResultSlot::Separator, sep, Seq::<char>::empty(), sep_look()),
        (ResultSlot::Total, sep + 10, decimal(total as nat), total_look(result_band(total, 100))),
    ]
}

/// The result lines of a roll: one per settled face, 26 px apart from
/// `lines_y` down, each graded out of `sides`.
pub open spec fn line_views(values: Seq<u32>, sides: u32, lines_y: int) -> Seq<PlacementView> {
    Seq::new(
        values.len(),
        |i: int|
            (
                ResultSlot::Line(i as usize),
                lines_y + i * RESULT_LINE_H,
                decimal(values[i] as nat),
                line_look(result_band(values[i], sides)),
            ),
    )
}

/// The result panel of an ordinary roll, graded by the faces of the first
/// die: a heading, a line per settled die and, for more than one die, the
/// separator and the sum graded out of the highest possible sum. Nothing
/// is shown while no die has settled.
pub open spec fn normal_layout(dice: Seq<DieOutcome>) -> Seq<PlacementView> {
    let values = settled_values(dice);
    let n = values.len();
    if n == 0 {
        Seq::empty()
    } else {
        let sides = dice[0].sides;
        let start = result_start(n as u32, n > 1);
        let lines = start + 36;
        let head = seq![(ResultSlot::Title, start, title_text(n, sides), title_look())];
        let body = line_views(values, sides, lines);
        if n > 1 {
            let sep = lines + n * RESULT_LINE_H + 6;
            let sum = sum_of(values);
            head + body + seq![
                (ResultSlot::Separator, sep, Seq::<char>::empty(), sep_look()),
                (ResultSlot::Total, sep + 10, decimal(sum as nat), total_look(result_band(sum as u32, (n * sides) as u32))),
            ]
        } else {
            head + body
        }
    }
}

/// The result panel for the dice in the tray.
pub open spec fn result_layout_view(dice: Seq<DieOutcome>) -> Seq<PlacementView> {
    if has_tens_die(dice) {
        percentile_layout(dice)
    } else {
        normal_layout(dice)
    }
}

/// What the result panel needs of the faces so that no sum, product or
/// grade leaves `u32`, and the lines fit the panel's eight rows.
pub open spec fn layout_fits(dice: Seq<DieOutcome>) -> bool {
    if has_tens_die(dice) {
        let tens = first_face(dice, DieType::PercentileTens);
        let ones = first_face(dice, DieType::PercentileOnes);
        &&& tens + ones <= u32::MAX
        &&& percentile_sum(tens, ones) * 100 <= u32::MAX
    } else {
        let values = settled_values(dice);
        let n = values.len();
        n > 0 ==> {
            &&& n <= 8
            &&& dice[0].sides > 0
            &&& n * dice[0].sides <= u32::MAX
            &&& sum_of(values) * 100 <= u32::MAX
            &&& forall|i: int| 0 <= i < n ==> #[trigger] values[i] * 100 <= u32::MAX
        }
    }
}

/// The faces of the settled dice, in tray order.
pub fn settled_results(dice: &Vec<DieOutcome>) -> (r: Vec<u32>)
    ensures
        r@ == settled_values(dice@),
{
    let mut out: Vec<u32> = Vec::new();
    let mut i: usize = 0;
    while i < dice.len()
        invariant
            i <= dice.len(),
            out@ == settled_values(dice@.take(i as int)),
        decreases dice.len() - i,
    {
        assert(dice@.take(i + 1).drop_last() =~= dice@.take(i as int));
        if let Some(v) = dice[i].result {
            out.push(v);
        }
        i = i + 1;
    }
    assert(dice@.take(dice.len() as int) =~= dice@);
    out
}

/// A sum of faces is at least each of its prefix sums.
proof fn lemma_prefix_sum_le(s: Seq<u32>, k: int)
    requires
        0 <= k <= s.len(),
    ensures
        0 <= sum_of(s.take(k)) <= sum_of(s),
    decreases s.len() - k,
{
    if k < s.len() {
        lemma_prefix_sum_le(s, k + 1);
        assert(s.take(k + 1).drop_last() =~= s.take(k));
    } else {
        assert(s.take(k) =~= s);
    }
    lemma_sum_nonneg(s.take(k));
}

/// A sum of faces is not negative.
proof fn lemma_sum_nonneg(s: Seq<u32>)
    ensures
        sum_of(s) >= 0,
    decreases s.len(),
{
    if s.len() > 0 {
        lemma_sum_nonneg(s.drop_last());
    }
}

/// The sum of the faces.
pub fn sum_results(values: &Vec<u32>) -> (r: u32)
    requires
        sum_of(values@) <= u32::MAX,
    ensures
        r == sum_of(values@),
{
    let mut total: u32 = 0;
    let mut i: usize = 0;
    while i < values.len()
        invariant
            i <= values.len(),
            sum_of(values@) <= u32::MAX,
            total == sum_of(values@.take(i as int)),
        decreases values.len() - i,
    {
        assert(values@.take(i + 1).drop_last() =~= values@.take(i as int));
        proof {
            lemma_prefix_sum_le(values@, i + 1);
        }
        total = total + values[i];
        i = i + 1;
    }
    assert(values@.take(values.len() as int) =~= values@);
    total
}

/// Whether the roll holds the tens die of a percentile roll.
pub fn has_tens(dice: &Vec<DieOutcome>) -> (r: bool)
    ensures
        r == has_tens_die(dice@),
{
    let mut i: usize = 0;
    while i < dice.len()
        invariant
            i <= dice.len(),
            forall|j: int| 0 <= j < i ==> (#[trigger] dice@[j]).die_type != DieType::PercentileTens,
        decreases dice.len() - i,
    {
        if dice[i].die_type == DieType::PercentileTens {
            return true;
        }
        i = i + 1;
    }
    false
}

/// The face of the first die of type `t`, 0 where there is none or it has
/// not settled.
pub fn first_result(dice: &Vec<DieOutcome>, t: DieType) -> (r: u32)
    ensures
        r == first_face(dice@, t),
{
    let mut i: usize = 0;
    assert(dice@.skip(0) =~= dice@);
    while i < dice.len()
        invariant
            i <= dice.len(),
            first_face(dice@, t) == first_face(dice@.skip(i as int), t),
        decreases dice.len() - i,
    {
        assert(dice@.skip(i as int)[0] == dice@[i as int]);
        assert(dice@.skip(i as int).drop_first() =~= dice@.skip(i + 1));
        if dice[i].die_type == t {
            return match dice[i].result {
                Some(v) => v,
                None => 0,
            };
        }
        i = i + 1;
    }
    assert(dice@.skip(i as int) =~= Seq::<DieOutcome>::empty());
    0
}

/// The heading of a roll of `n` dice of `sides` faces: "d6" or "3d6".
pub fn roll_title(n: u32, sides: u32) -> (r: String)
    ensures
        r@ == title_text(n as nat, sides),
{
    let mut s = String::new();
    if n != 1 {
        push_decimal(&mut s, n);
    }
    s.append("d");
    push_decimal(&mut s, sides);
    assert(s@ =~= title_text(n as nat, sides));
    s
}

/// The result panel of an ordinary roll shows a line per settled face, in
/// tray order, each reading that face in decimal. With two or more settled
/// dice the panel then ends with the separator, 6 px below the last line,
/// and the total, 10 px below the separator, which reads the sum of the
/// settled faces in decimal; the block (heading 36 px, 26 px per line, 46
/// px for separator and total) is centred in the 555 px below the material
/// toggle. One settled die shows just its heading and its line, and no
/// settled die shows nothing.
pub proof fn lemma_total_shown(dice: Seq<DieOutcome>)
    requires
        !has_tens_die(dice),
    ensures
        ({
            let v = settled_values(dice);
            let p = result_layout_view(dice);
            let n = v.len() as int;
            &&& n == 0 ==> p.len() == 0
            &&& n >= 1 ==> {
                &&& p.len() == if n >= 2 { n + 3 } else { n + 1 }
                &&& p[0].0 == ResultSlot::Title
                &&& forall|i: int|
                    0 <= i < n ==> {
                        &&& (#[trigger] p[i + 1]).0 == ResultSlot::Line(i as usize)
                        &&& p[i + 1].2 == decimal(v[i] as nat)
                        &&& p[i + 1].1 == p[0].1 + 36 + 26 * i
                    }
            }
            &&& n == 1 ==> p[0].1 == 65 + (555 - (36 + 26)) / 2
            &&& n >= 2 ==> {
                &&& p[n + 1].0 == ResultSlot::Separator
                &&& p[n + 1].1 == p[n].1 + 26 + 6
                &&& p[n + 2].0 == ResultSlot::Total
                &&& p[n + 2].1 == p[n + 1].1 + 10
                &&& p[n + 2].2 == decimal(sum_of(v) as nat)
                &&& n <= 18 ==> p[0].1 == 65 + (555 - (36 + 26 * n + 46)) / 2
            }
        }),
{
    let v = settled_values(dice);
    let p = result_layout_view(dice);
    let n = v.len() as int;
    assert(p == normal_layout(dice));
    if n >= 1 {
        let start = result_start(n as u32, n > 1);
        let lines = start + 36;
        let body = line_views(v, dice[0].sides, lines);
        assert forall|i: int| 0 <= i < n implies {
            &&& (#[trigger] p[i + 1]).0 == ResultSlot::Line(i as usize)
            &&& p[i + 1].2 == decimal(v[i] as nat)
            &&& p[i + 1].1 == p[0].1 + 36 + 26 * i
        } by {
            assert(p[i + 1] == body[i]);
        }
        if n >= 2 {
            assert(p[n] == body[n - 1]);
        }
    }
}

/// There are no more settled faces than dice.
proof fn lemma_settled_len(dice: Seq<DieOutcome>)
    ensures
        settled_values(dice).len() <= dice.len(),
    decreases dice.len(),
{
    if dice.len() > 0 {
        lemma_settled_len(dice.drop_last());
    }
}

/// A string holding `text`.
fn text_of(text: &str) -> (r: String)
    ensures
        r@ == text@,
{
    let mut s = String::new();
    s.append(text);
    assert(s@ =~= text@);
    s
}

/// Positions, labels and styles the widgets of the result panel once the
/// dice have settled: the heading, one line per die, and for more than
/// one die (or a percentile roll) a separator and the total.
pub fn result_layout(dice: &Vec<DieOutcome>) -> (r: Vec<Placement>)
    requires
        layout_fits(dice@),
    ensures
        r.len() == result_layout_view(dice@).len(),
        forall|i: int| 0 <= i < r.len() ==> placement_view(#[trigger] r[i]) == result_layout_view(dice@)[i],
{
    let mut out: Vec<Placement> = Vec::new();
    if has_tens(dice) {
        let tens = first_result(dice, DieType::PercentileTens);
        let ones = first_result(dice, DieType::PercentileOnes);
        let total = percentile_total(tens, ones);
        let white = Color { r: 220, g: 220, b: 255, a: 255 };
        let start_y = centered_result_start(2, true);
        let lines_y = start_y + 36;
        let sep_y = lines_y + 2 * RESULT_LINE_H + 6;
        let total_y = sep_y + 10;
        out.push(Placement { slot: ResultSlot::Title, y: start_y, label: text_of("d%"), styles: result_title_styles() });
        out.push(
            Placement {
                slot: ResultSlot::Line(0),
                y: lines_y,
                label: two_digit_string(tens),
                styles: result_line_styles(white),
            },
        );
        out.push(
            Placement {
                slot: ResultSlot::Line(1),
                y: lines_y + RESULT_LINE_H,
                label: decimal_string(ones),
                styles: result_line_styles(white),
            },
        );
        out.push(Placement { slot: ResultSlot::Separator, y: sep_y, label: String::new(), styles: result_sep_styles() });
        out.push(
            Placement {
                slot: ResultSlot::Total,
                y: total_y,
                label: decimal_string(total),
                styles: result_total_styles_colored(result_color(total, 100)),
            },
        );
        proof {
            let v = result_layout_view(dice@);
            assert(v == percentile_layout(dice@));
            assert(placement_view(out[0]) == v[0]);
            assert(placement_view(out[1]) == v[1]);
            assert(placement_view(out[2]) == v[2]);
            assert(placement_view(out[3]) == v[3]);
            assert(placement_view(out[4]) == v[4]);
        }
        return out;
    }
    let values = settled_results(dice);
    if values.len() == 0 {
        return out;
    }
    proof {
        lemma_settled_len(dice@);
    }
    let sides = dice[0].sides;
    let n = values.len() as u32;
    let sum = sum_results(&values);
    let has_total = n > 1;
    let start_y = centered_result_start(n, has_total);
    let lines_y = start_y + 36;
    let ghost v = result_layout_view(dice@);
    let ghost body = line_views(values@, sides, lines_y as int);
    assert(v == normal_layout(dice@));
    out.push(Placement { slot: ResultSlot::Title, y: start_y, label: roll_title(n, sides), styles: result_title_styles() });
    let mut i: usize = 0;
    while i < values.len()
        invariant
            i <= values.len(),
            values@ == settled_values(dice@),
            n == values.len(),
            n <= 8,
            sides == dice@[0].sides,
            sides > 0,
            lines_y <= 65 + 555 + 36,
            body == line_views(values@, sides, lines_y as int),
            forall|k: int| 0 <= k < n ==> #[trigger] values@[k] * 100 <= u32::MAX,
            out.len() == 1 + i,
            placement_view(out[0]) == (ResultSlot::Title, start_y as int, title_text(n as nat, sides), title_look()),
            forall|k: int| 0 <= k < i ==> placement_view(#[trigger] out[k + 1]) == body[k],
        decreases values.len() - i,
    {
        let line_y = lines_y + i as u32 * RESULT_LINE_H;
        let val = values[i];
        out.push(
            Placement {
                slot: ResultSlot::Line(i),
                y: line_y,
                label: decimal_string(val),
                styles: result_line_styles(result_color(val, sides)),
            },
        );
        assert(placement_view(out[i + 1]) == body[i as int]);
        i = i + 1;
    }
    if has_total {
        let sep_y = lines_y + n * RESULT_LINE_H + 6;
        let total_y = sep_y + 10;
        assert(n * sides > 0) by (nonlinear_arith)
            requires
                n > 1,
                sides > 0,
        ;
        out.push(Placement { slot: ResultSlot::Separator, y: sep_y, label: String::new(), styles: result_sep_styles() });
        out.push(
            Placement {
                slot: ResultSlot::Total,
                y: total_y,
                label: decimal_string(sum),
                styles: result_total_styles_colored(result_color(sum, n * sides)),
            },
        );
    }
    proof {
        assert forall|k: int| 0 <= k < out.len() implies placement_view(#[trigger] out[k]) == v[k] by {
            if k >= 1 && k <= n {
                assert(placement_view(out[(k - 1) + 1]) == body[k - 1]);
            }
        }
    }
    out
}

} // verus!
