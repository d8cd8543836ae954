use vstd::prelude::*;
use crate::dice::{
    BUTTON_COUNT, DieType, button_faces, button_texture_name, button_sides, button_texture, do_roll,
    rollable, valid_roll, is_percentile_button,
};

verus! {

/// The part of a die in the tray that the rules read: what it stands
/// for, how many faces it has, and the face it settled on, if it has.
#[derive(Clone, Copy, Debug, PartialEq, Eq, Structural)]
pub struct DieOutcome {
    pub die_type: DieType,
    pub sides: u32,
    pub result: Option<u32>,
}

impl DieOutcome {
    /// The die can be rolled, and a face it settled on is one it can show.
    pub open spec fn wf(self) -> bool {
        &&& rollable(self.die_type, self.sides)
        &&& (self.result matches Some(r) ==> valid_roll(self.die_type, self.sides, r))
    }

    /// A die that has come to rest shows a rolled face; a die that has
    /// already settled keeps its face.
    pub fn settle(&mut self)
        requires
            old(self).wf(),
        ensures
            final(self).wf(),
            final(self).die_type == old(self).die_type,
            final(self).sides == old(self).sides,
            final(self).result is Some,
            old(self).result is Some ==> *final(self) == *old(self),
    {
        if self.result.is_none() {
            let r = do_roll(self.die_type, self.sides);
            self.result = Some(r);
        }
    }
}

/// Whether every die has settled.
pub open spec fn every_settled(dice: Seq<DieOutcome>) -> bool {
    forall|i: int| 0 <= i < dice.len() ==> (#[trigger] dice[i]).result is Some
}

/// Whether every die in the tray has come to rest on a face.
pub fn all_settled(dice: &Vec<DieOutcome>) -> (r: bool)
    ensures
        r == every_settled(dice@),
{
    let mut i: usize = 0;
    while i < dice.len()
        invariant
            i <= dice.len(),
            forall|j: int| 0 <= j < i ==> (#[trigger] dice@[j]).result is Some,
        decreases dice.len() - i,
    {
        if dice[i].result.is_none() {
            return false;
        }
        i = i + 1;
    }
    true
}

/// A die thrown into the tray: the texture it is drawn with and its
/// (not yet rolled) outcome.
#[derive(Clone, Copy, Debug)]
pub struct DieSpawn {
    pub texture: &'static str,
    pub outcome: DieOutcome,
}

/// An unrolled die of this type with `sides` faces.
pub open spec fn fresh(die_type: DieType, sides: u32) -> DieOutcome {
    DieOutcome { die_type, sides, result: None }
}

/// Whether `r` is the set of dice that a release of `count` dice from
/// button `button` throws: the percentile button throws a tens die (drawn
/// as "d%") and a ones die (drawn as "d10"), both ten-sided; any other
/// button throws `count` ordinary dice of its kind. None is rolled yet.
pub open spec fn plan_for(button: int, count: u32, r: Seq<DieSpawn>) -> bool {
    &&& is_percentile_button(button) ==> {
        &&& r.len() == 2
        &&& r[0].texture@ == "d%"@
        &&& r[0].outcome == fresh(DieType::PercentileTens, 10)
        &&& r[1].texture@ == "d10"@
        &&& r[1].outcome == fresh(DieType::PercentileOnes, 10)
    }
    &&& !is_percentile_button(button) ==> {
        &&& r.len() == count
        &&& forall|i: int|
            0 <= i < r.len() ==> {
                &&& (#[trigger] r[i]).texture@ == button_texture_name(button)
                &&& r[i].outcome == fresh(DieType::Normal, button_faces(button))
            }
    }
    &&& forall|i: int| 0 <= i < r.len() ==> (#[trigger] r[i]).outcome.wf()
}

/// A release from any button but the last (index 6, the only one with
/// 100 faces) throws exactly the held number of ordinary, unrolled dice,
/// each with that button's faces and texture; a throw that holds any
/// percentile die comes from that last button, and is then a tens die
/// and a ones die, whatever number of dice was held.
pub proof fn lemma_plan_follows_button(button: int, count: u32, r: Seq<DieSpawn>)
    requires
        0 <= button < BUTTON_COUNT,
        plan_for(button, count, r),
    ensures
        button != 6 ==> {
            &&& r.len() == count
            &&& forall|i: int|
                0 <= i < r.len() ==> {
                    &&& (#[trigger] r[i]).outcome.die_type == DieType::Normal
                    &&& r[i].outcome.sides == button_faces(button)
                    &&& r[i].outcome.result is None
                    &&& r[i].texture@ == button_texture_name(button)
                }
        },
        (exists|i: int| 0 <= i < r.len() && (#[trigger] r[i]).outcome.die_type != DieType::Normal)
            ==> button == 6 && r.len() == 2 && r[0].outcome.die_type == DieType::PercentileTens
            && r[1].outcome.die_type == DieType::PercentileOnes,
        button == 6 ==> button_faces(button) == 100,
        button != 6 ==> button_faces(button) <= 20,
{
}

/// The dice that releasing a drag of `count` dice from button `button`
/// throws: the percentile button throws a tens die (drawn as "d%") and a
/// ones die (drawn as "d10"), both ten-sided; any other button throws
/// `count` ordinary dice of its kind.
pub fn spawn_plan(button: usize, count: u32) -> (r: Vec<DieSpawn>)
    requires
        button < BUTTON_COUNT,
    ensures
        plan_for(button as int, count, r@),
{
    let sides = button_sides(button);
    let mut plan: Vec<DieSpawn> = Vec::new();
    if sides == 100 {
        plan.push(
            DieSpawn {
                texture: "d%",
                outcome: DieOutcome { die_type: DieType::PercentileTens, sides: 10, result: None },
            },
        );
        plan.push(
            DieSpawn {
                texture: "d10",
                outcome: DieOutcome { die_type: DieType::PercentileOnes, sides: 10, result: None },
            },
        );
        return plan;
    }
    let texture = button_texture(button);
    let mut k: u32 = 0;
    while k < count
        invariant
            k <= count,
            plan.len() == k,
            sides == button_faces(button as int),
            texture@ == button_texture_name(button as int),
            forall|i: int|
                0 <= i < plan.len() ==> {
                    &&& (#[trigger] plan[i]).texture@ == button_texture_name(button as int)
                    &&& plan[i].outcome == fresh(DieType::Normal, sides)
                },
        decreases count - k,
    {
        plan.push(
            DieSpawn {
                texture,
                outcome: DieOutcome { die_type: DieType::Normal, sides, result: None },
            },
        );
        k = k + 1;
    }
    plan
}

} // verus!
