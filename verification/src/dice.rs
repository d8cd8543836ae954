use vstd::prelude::*;
use rand::Rng;

verus! {

/// How many die buttons the left panel has.
pub const BUTTON_COUNT: usize = 7;

/// The most dice that one drag can roll.
pub const MAX_DICE: u32 = 8;

/// The faces of the die of button `i`, in panel order d4, d6, d8, d10,
/// d12, d20 and d% (percentile, counted as 100).
pub open spec fn button_faces(i: int) -> u32 {
    if i == 0 {
        4
    } else if i == 1 {
        6
    } else if i == 2 {
        8
    } else if i == 3 {
        10
    } else if i == 4 {
        12
    } else if i == 5 {
        20
    } else {
        100
    }
}

/// The texture (and name) of the die of button `i`.
pub open spec fn button_texture_name(i: int) -> Seq<char> {
    if i == 0 {
        "d4"@
    } else if i == 1 {
        "d6"@
    } else if i == 2 {
        "d8"@
    } else if i == 3 {
        "d10"@
    } else if i == 4 {
        "d12"@
    } else if i == 5 {
        "d20"@
    } else {
        "d%"@
    }
}

/// Whether button `i` is the percentile die, which is always rolled as a
/// pair (tens and ones) and never in multiples.
pub open spec fn is_percentile_button(i: int) -> bool {
    button_faces(i) == 100
}

/// The number of faces of the die of button `i`.
pub fn button_sides(i: usize) -> (r: u32)
    requires
        i < BUTTON_COUNT,
    ensures
        r == button_faces(i as int),
{
    match i {
        0 => 4,
        1 => 6,
        2 => 8,
        3 => 10,
        4 => 12,
        5 => 20,
        _ => 100,
    }
}

/// The texture id of the die of button `i`.
pub fn button_texture(i: usize) -> (r: &'static str)
    requires
        i < BUTTON_COUNT,
    ensures
        r@ == button_texture_name(i as int),
{
    match i {
        0 => "d4",
        1 => "d6",
        2 => "d8",
        3 => "d10",
        4 => "d12",
        5 => "d20",
        _ => "d%",
    }
}

/// What a rolled die stands for: an ordinary die, or one half of a
/// percentile roll.
#[derive(Clone, Copy, Debug, PartialEq, Eq, Structural)]
pub enum DieType {
    Normal,
    PercentileTens,
    PercentileOnes,
}

/// The smallest value drawn for a die.
pub open spec fn draw_low(die_type: DieType) -> u32 {
    match die_type {
        DieType::Normal => 1,
        _ => 0,
    }
}

/// The largest value drawn for a die of `sides` faces.
pub open spec fn draw_high(die_type: DieType, sides: u32) -> u32 {
    match die_type {
        DieType::Normal => sides,
        _ => 9,
    }
}

/// The face that a draw `d` shows: the tens die shows tens.
pub open spec fn face_of(die_type: DieType, d: u32) -> int {
    match die_type {
        DieType::PercentileTens => d * 10,
        _ => d as int,
    }
}

/// Whether `r` is a face that a die of this type and `sides` can show:
/// 1 to `sides` for an ordinary die, 00 to 90 by tens for the tens die,
/// 0 to 9 for the ones die.
pub open spec fn valid_roll(die_type: DieType, sides: u32, r: u32) -> bool {
    match die_type {
        DieType::Normal => 1 <= r <= sides,
        DieType::PercentileTens => r % 10 == 0 && r <= 90,
        DieType::PercentileOnes => r <= 9,
    }
}

/// Whether a die of this type and `sides` can be rolled at all.
pub open spec fn rollable(die_type: DieType, sides: u32) -> bool {
    die_type == DieType::Normal ==> sides >= 1
}

/// The range of values drawn for a die, as an inclusive pair.
pub fn roll_bounds(die_type: DieType, sides: u32) -> (r: (u32, u32))
    ensures
        r.0 == draw_low(die_type),
        r.1 == draw_high(die_type, sides),
{
    match die_type {
        DieType::Normal => (1, sides),
        DieType::PercentileTens => (0, 9),
        DieType::PercentileOnes => (0, 9),
    }
}

/// The face shown for a draw `d` from the die's range.
pub fn face_value(die_type: DieType, d: u32) -> (r: u32)
    requires
        die_type == DieType::PercentileTens ==> d <= 9,
    ensures
        r == face_of(die_type, d),
{
    match die_type {
        DieType::PercentileTens => d * 10,
        _ => d,
    }
}

/// Every draw from the die's range shows a face that the die can show,
/// and the tens die shows each of 00, 10, ..., 90 for exactly one draw.
pub proof fn lemma_draw_faces(die_type: DieType, sides: u32, d: u32, e: u32)
    requires
        draw_low(die_type) <= d <= draw_high(die_type, sides),
        draw_low(die_type) <= e <= draw_high(die_type, sides),
    ensures
        0 <= face_of(die_type, d) <= u32::MAX,
        valid_roll(die_type, sides, face_of(die_type, d) as u32),
        d != e ==> face_of(die_type, d) != face_of(die_type, e),
{
}

/// Every face that a die can show is the face of a draw from its range:
/// faces 1 to `sides` of an ordinary die, 00 to 90 of the tens die and 0
/// to 9 of the ones die are each reached by exactly one draw.
pub proof fn lemma_every_face_drawable(die_type: DieType, sides: u32, r: u32)
    requires
        valid_roll(die_type, sides, r),
    ensures
        exists|d: u32|
            draw_low(die_type) <= d <= draw_high(die_type, sides) && #[trigger] face_of(die_type, d) == r,
{
    let d: u32 = match die_type {
        DieType::PercentileTens => r / 10,
        _ => r,
    };
    assert(face_of(die_type, d) == r);
}

/// `rand::thread_rng`: a handle on the thread's random number generator.
#[verifier::external_type_specification]
#[verifier::external_body]
pub struct ExThreadRng(rand::rngs::ThreadRng);

/// Calls `rand::thread_rng`. Nothing is stated of the generator it hands
/// back: its state is seeded from the operating system.
#[verifier::external_body]
fn thread_rng() -> rand::rngs::ThreadRng {
    rand::thread_rng()
}

/// Calls `Rng::gen_range` on the inclusive range `low..=high` of `u32`.
/// rand documents (and its source asserts) that the value lies in the
/// range and that an empty range panics, so `low <= high` is required;
/// which value of the range comes back is chance and is not stated.
#[verifier::external_body]
fn gen_range_inclusive(rng: &mut rand::rngs::ThreadRng, low: u32, high: u32) -> (r: u32)
    requires
        low <= high,
    ensures
        low <= r <= high,
{
    rng.gen_range(low..=high)
}

/// Rolls a die: a uniform draw from the die's range, shown as a face.
/// Whatever the generator draws, the face is one the die can show.
pub fn do_roll(die_type: DieType, sides: u32) -> (r: u32)
    requires
        rollable(die_type, sides),
    ensures
        valid_roll(die_type, sides, r),
        exists|d: u32|
            draw_low(die_type) <= d <= draw_high(die_type, sides) && #[trigger] face_of(die_type, d) == r,
{
    let mut rng = thread_rng();
    let (low, high) = roll_bounds(die_type, sides);
    let d = gen_range_inclusive(&mut rng, low, high);
    proof {
        lemma_draw_faces(die_type, sides, d, d);
    }
    face_value(die_type, d)
}

/// The total of a percentile roll: tens plus ones, where 00 and 0 make 100.
pub open spec fn percentile_sum(tens: u32, ones: u32) -> u32 {
    if tens == 0 && ones == 0 {
        100
    } else {
        (tens + ones) as u32
    }
}

/// The total of a percentile roll from its tens and ones faces.
pub fn percentile_total(tens: u32, ones: u32) -> (r: u32)
    requires
        tens + ones <= u32::MAX,
    ensures
        r == percentile_sum(tens, ones),
{
    if tens == 0 && ones == 0 {
        100
    } else {
        tens + ones
    }
}

/// A percentile roll totals 1 to 100, and distinct pairs of faces give
/// distinct totals: each of the hundred totals comes from one pair.
pub proof fn lemma_percentile_range(t1: u32, o1: u32, t2: u32, o2: u32)
    requires
        valid_roll(DieType::PercentileTens, 100, t1),
        valid_roll(DieType::PercentileOnes, 100, o1),
        valid_roll(DieType::PercentileTens, 100, t2),
        valid_roll(DieType::PercentileOnes, 100, o2),
    ensures
        1 <= percentile_sum(t1, o1) <= 100,
        (t1, o1) != (t2, o2) ==> percentile_sum(t1, o1) != percentile_sum(t2, o2),
{
}

/// Every total from 1 to 100 is the total of some percentile roll.
pub proof fn lemma_percentile_onto(total: u32)
    requires
        1 <= total <= 100,
    ensures
        exists|t: u32, o: u32|
            valid_roll(DieType::PercentileTens, 100, t) && valid_roll(DieType::PercentileOnes, 100, o)
                && #[trigger] percentile_sum(t, o) == total,
{
    let t: u32 = if total == 100 { 0 } else { (total / 10 * 10) as u32 };
    let o: u32 = if total == 100 { 0 } else { (total % 10) as u32 };
    assert(percentile_sum(t, o) == total);
}

} // verus!
