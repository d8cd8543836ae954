use vstd::prelude::*;
use crate::dice::{BUTTON_COUNT, MAX_DICE, button_sides, is_percentile_button};
use crate::layout::{button_at, on_button};
use crate::material::{TrayMaterial, spec_next};
use crate::roll::{DieSpawn, plan_for, spawn_plan};

verus! {

/// Whether the title screen is still up or the table is in play.
#[derive(Clone, Copy, Debug, PartialEq, Eq, Structural)]
pub enum AppState {
    Splash,
    Playing,
}

/// The rules' state of the table, as the contracts see it.
#[derive(Clone, Copy, Debug, PartialEq, Eq, Structural)]
pub struct SessionView {
    pub app_state: AppState,
    pub material: TrayMaterial,
    pub dragging: bool,
    pub drag_idx: usize,
    pub drag_count: u32,
    pub results_shown: bool,
}

impl SessionView {
    /// The dragged button is one of the panel's, between one and
    /// `MAX_DICE` dice are held, and the percentile die is held alone.
    pub open spec fn wf(self) -> bool {
        &&& self.drag_idx < BUTTON_COUNT
        &&& 1 <= self.drag_count <= MAX_DICE
        &&& is_percentile_button(self.drag_idx as int) ==> self.drag_count == 1
    }
}

/// The state after one right press during play.
pub open spec fn after_add(v: SessionView) -> SessionView {
    if v.dragging && !is_percentile_button(v.drag_idx as int) && v.drag_count < MAX_DICE {
        SessionView { drag_count: (v.drag_count + 1) as u32, ..v }
    } else {
        v
    }
}

/// The state after `k` right presses.
pub open spec fn after_adds(v: SessionView, k: nat) -> SessionView
    decreases k,
{
    if k == 0 {
        v
    } else {
        after_add(after_adds(v, (k - 1) as nat))
    }
}

/// However often the right button is pressed during a drag, the drag ends
/// up holding one die more per press, up to `MAX_DICE`, and a percentile
/// drag still holds its single die; nothing else about the state changes.
pub proof fn lemma_adds_saturate(v: SessionView, k: nat)
    requires
        v.wf(),
        v.dragging,
    ensures
        after_adds(v, k).wf(),
        after_adds(v, k) == (SessionView { drag_count: after_adds(v, k).drag_count, ..v }),
        is_percentile_button(v.drag_idx as int) ==> after_adds(v, k).drag_count == v.drag_count,
        !is_percentile_button(v.drag_idx as int) ==> after_adds(v, k).drag_count == (if v.drag_count + k
            <= MAX_DICE {
            v.drag_count + k
        } else {
            MAX_DICE as int
        }),
    decreases k,
{
    if k > 0 {
        lemma_adds_saturate(v, (k - 1) as nat);
    }
}

/// The decisions of the dice table: the splash screen, the material
/// toggle, and dragging dice from the die buttons into the tray.
pub struct DiceSession {
    app_state: AppState,
    material: TrayMaterial,
    dragging: bool,
    drag_idx: usize,
    drag_count: u32,
    results_shown: bool,
}

impl View for DiceSession {
    type V = SessionView;

    closed spec fn view(&self) -> SessionView {
        SessionView {
            app_state: self.app_state,
            material: self.material,
            dragging: self.dragging,
            drag_idx: self.drag_idx,
            drag_count: self.drag_count,
            results_shown: self.results_shown,
        }
    }
}

impl DiceSession {
    /// A table at the splash screen, on felt, holding nothing.
    pub fn new() -> (s: Self)
        ensures
            s@ == (SessionView {
                app_state: AppState::Splash,
                material: TrayMaterial::Felt,
                dragging: false,
                drag_idx: 0,
                drag_count: 1,
                results_shown: false,
            }),
            s@.wf(),
    {
        DiceSession {
            app_state: AppState::Splash,
            material: TrayMaterial::Felt,
            dragging: false,
            drag_idx: 0,
            drag_count: 1,
            results_shown: false,
        }
    }

    /// Whether the splash screen or the table is up.
    pub fn app_state(&self) -> (r: AppState)
        ensures
            r == self@.app_state,
    {
        self.app_state
    }

    /// The tray's material.
    pub fn material(&self) -> (r: TrayMaterial)
        ensures
            r == self@.material,
    {
        self.material
    }

    /// Whether dice are being dragged.
    pub fn is_dragging(&self) -> (r: bool)
        ensures
            r == self@.dragging,
    {
        self.dragging
    }

    /// The button whose dice are (or were last) dragged.
    pub fn drag_button(&self) -> (r: usize)
        requires
            self@.wf(),
        ensures
            r == self@.drag_idx,
            r < BUTTON_COUNT,
    {
        self.drag_idx
    }

    /// How many dice the drag holds.
    pub fn drag_count(&self) -> (r: u32)
        requires
            self@.wf(),
        ensures
            r == self@.drag_count,
            1 <= r <= MAX_DICE,
    {
        self.drag_count
    }

    /// Whether the result panel shows the last roll.
    pub fn results_shown(&self) -> (r: bool)
        ensures
            r == self@.results_shown,
    {
        self.results_shown
    }

    /// At the splash screen, any key or mouse press starts play; the
    /// answer says whether it did (and the splash must be hidden).
    pub fn splash_input(&mut self, key_down: bool, left_down: bool, right_down: bool) -> (advanced: bool)
        requires
            old(self)@.wf(),
        ensures
            advanced == (old(self)@.app_state == AppState::Splash && (key_down || left_down || right_down)),
            advanced ==> final(self)@ == (SessionView { app_state: AppState::Playing, ..old(self)@ }),
            !advanced ==> final(self)@ == old(self)@,
            final(self)@.wf(),
    {
        if self.app_state == AppState::Splash && (key_down || left_down || right_down) {
            self.app_state = AppState::Playing;
            true
        } else {
            false
        }
    }

    /// A click on the material toggle during play, when no dice are being
    /// dragged, moves the tray to the next material; the answer says
    /// whether it did (and the caption and tray texture must follow).
    pub fn toggle_material(&mut self, clicked: bool) -> (toggled: bool)
        requires
            old(self)@.wf(),
        ensures
            toggled == (old(self)@.app_state == AppState::Playing && clicked && !old(self)@.dragging),
            toggled ==> final(self)@ == (SessionView { material: spec_next(old(self)@.material), ..old(self)@ }),
            !toggled ==> final(self)@ == old(self)@,
            final(self)@.wf(),
    {
        if self.app_state == AppState::Playing && clicked && !self.dragging {
            self.material = self.material.next();
            true
        } else {
            false
        }
    }

    /// A left press during play, when nothing is dragged, on a die button
    /// picks up one die of that button and clears the last roll's result
    /// panel; the answer is the button, if one was picked.
    pub fn press(&mut self, mx: u32, my: u32, left_down: bool) -> (picked: Option<usize>)
        requires
            old(self)@.wf(),
        ensures
            final(self)@.wf(),
            old(self)@.app_state != AppState::Playing || old(self)@.dragging || !left_down ==> {
                &&& picked is None
                &&& final(self)@ == old(self)@
            },
            old(self)@.app_state == AppState::Playing && !old(self)@.dragging && left_down ==> {
                &&& (picked is None <==> forall|i: int| 0 <= i < BUTTON_COUNT ==> !on_button(i, mx, my))
                &&& picked is None ==> final(self)@ == old(self)@
            },
            picked matches Some(b) ==> {
                &&& b < BUTTON_COUNT
                &&& on_button(b as int, mx, my)
                &&& final(self)@ == (SessionView {
                    dragging: true,
                    drag_idx: b,
                    drag_count: 1,
                    results_shown: false,
                    ..old(self)@
                })
            },
    {
        if self.app_state != AppState::Playing || self.dragging || !left_down {
            return None;
        }
        match button_at(mx, my) {
            Some(b) => {
                self.dragging = true;
                self.drag_idx = b;
                self.drag_count = 1;
                self.results_shown = false;
                Some(b)
            },
            None => None,
        }
    }

    /// A right press during a drag adds one die, up to `MAX_DICE`; the
    /// percentile die is never multiplied. The answer says whether a die
    /// was added.
    pub fn add_die(&mut self) -> (added: bool)
        requires
            old(self)@.wf(),
        ensures
            added == (old(self)@.dragging && !is_percentile_button(old(self)@.drag_idx as int)
                && old(self)@.drag_count < MAX_DICE),
            final(self)@ == after_add(old(self)@),
            final(self)@.wf(),
    {
        if self.dragging && button_sides(self.drag_idx) != 100 && self.drag_count < MAX_DICE {
            self.drag_count = self.drag_count + 1;
            true
        } else {
            false
        }
    }

    /// Releasing the mouse during a drag throws the held dice: the answer
    /// is the dice to put in the tray, or nothing when no drag was on.
    pub fn release(&mut self) -> (thrown: Option<Vec<DieSpawn>>)
        requires
            old(self)@.wf(),
        ensures
            final(self)@.wf(),
            !old(self)@.dragging ==> thrown is None && final(self)@ == old(self)@,
            old(self)@.dragging ==> {
                &&& final(self)@ == (SessionView { dragging: false, ..old(self)@ })
                &&& thrown matches Some(plan) && plan_for(old(self)@.drag_idx as int, old(self)@.drag_count, plan@)
            },
    {
        if !self.dragging {
            return None;
        }
        self.dragging = false;
        Some(spawn_plan(self.drag_idx, self.drag_count))
    }

    /// Once every die in the tray has settled, the results are shown, once
    /// per roll; the answer says whether they are to be shown now.
    pub fn results_ready(&mut self, all_settled: bool) -> (show: bool)
        requires
            old(self)@.wf(),
        ensures
            show == (!old(self)@.results_shown && all_settled),
            show ==> final(self)@ == (SessionView { results_shown: true, ..old(self)@ }),
            !show ==> final(self)@ == old(self)@,
            final(self)@.wf(),
    {
        if !self.results_shown && all_settled {
            self.results_shown = true;
            true
        } else {
            false
        }
    }
}

} // verus!
