//! The match phase controller.
//!
//! One controller owns the single `Phase` value of the match and advances
//! it once per tick: first it emits the current phase as an event, then it
//! follows the transition table, and last it honours the debug override
//! that jumps to the `Egg` phase from anywhere.  Round-over detection is a
//! separate step, run after all despawns of the tick have been applied.

use vstd::prelude::*;

verus! {

/// The match's current high-level state.  Exactly one value is active at a
/// time, owned by [`Game`].
#[derive(Clone, Copy, Debug, PartialEq, Eq, Structural)]
pub enum Phase {
    Start,
    TransIntro,
    Intro,
    TransDead,
    Dead,
    TransMain,
    TransMain2,
    Main,
    TransEnd,
    End,
    Egg,
}

/// The decisive round was won; consumed by the controller in `TransMain2`.
#[derive(Clone, Copy, Debug, PartialEq, Eq, Structural)]
pub struct Won;

/// A full-screen overlay the presentation layer can show.
#[derive(Clone, Copy, Debug, PartialEq, Eq, Structural)]
pub enum OverlayKind {
    PressStart,
    YouWin,
    MemoryOverflow,
    Egg,
}

/// What the controller tells the presentation layer to do with the overlay.
#[derive(Clone, Copy, Debug, PartialEq, Eq, Structural)]
pub enum OverlayCmd {
    Show(OverlayKind),
    Hide,
}

/// Everything one controller step emits besides the new phase.
#[derive(Clone, Copy, Debug, PartialEq, Eq, Structural)]
pub struct StepOut {
    /// The `Phase` event of this tick: the phase the controller entered
    /// the tick with.
    pub emitted: Phase,
    /// Overlay change, if any.
    pub overlay: Option<OverlayCmd>,
    /// Tell the monster to begin its shoot animation.
    pub monster_shoot: bool,
    /// A `TargetStatus(true)` event was emitted: the cursor arms.
    pub target_armed: bool,
    /// Reset the player to its resting pose; reacts to the emitted
    /// `TransDead` event.
    pub reset_player: bool,
    /// The phase event asks the win detector to cast its ray next tick.
    pub arm_win_check: bool,
    /// The easter egg fired: the simulation terminates deliberately and
    /// must not continue.  Never recovered from.
    pub terminate: bool,
}

/// The transition table of the match, without the debug override: the next
/// phase from the current one, whether any input was pressed this tick and
/// whether a `Won` event was observed this tick.
pub open spec fn spec_table_next(p: Phase, pressed: bool, won: bool) -> Phase {
    match p {
        Phase::Start => if pressed { Phase::TransIntro } else { Phase::Start },
        Phase::TransIntro => Phase::Intro,
        Phase::Intro => Phase::Intro,
        Phase::TransDead => Phase::Dead,
        Phase::Dead => if pressed { Phase::TransMain } else { Phase::Dead },
        Phase::TransMain => Phase::TransMain2,
        Phase::TransMain2 => if won { Phase::TransEnd } else { Phase::Main },
        Phase::Main => Phase::Main,
        Phase::TransEnd => Phase::End,
        Phase::End => Phase::End,
        Phase::Egg => Phase::Egg,
    }
}

/// The phase after one full controller step: the table, then the debug
/// override, which forces `Egg` from any phase.
pub open spec fn spec_next_phase(p: Phase, pressed: bool, debug: bool, won: bool) -> Phase {
    if debug {
        Phase::Egg
    } else {
        spec_table_next(p, pressed, won)
    }
}

/// The step terminates the process: any press while the egg is shown.
pub open spec fn spec_step_terminates(p: Phase, pressed: bool) -> bool {
    p == Phase::Egg && pressed
}

/// The match: the one place the phase lives.
#[derive(Clone, Copy, Debug, PartialEq, Eq, Structural)]
pub struct Game {
    pub phase: Phase,
}

impl Game {
    /// A fresh match sits on the start screen.
    pub fn new() -> (g: Game)
        ensures
            g.phase == Phase::Start,
    {
        Game { phase: Phase::Start }
    }

    /// One controller step.
    ///
    /// Emits the entry phase, advances along the transition table, then
    /// applies the debug override.  When the step terminates (`Egg` and a
    /// press), the caller must stop the simulation; the phase is left on
    /// `Egg` and no other effect is produced.
    pub fn update(&mut self, pressed: bool, debug: bool, won: bool) -> (out: StepOut)
        ensures
            out.emitted == old(self).phase,
            out.terminate == spec_step_terminates(old(self).phase, pressed),
            !out.terminate ==> final(self).phase
                == spec_next_phase(old(self).phase, pressed, debug, won),
            out.terminate ==> final(self).phase == Phase::Egg,
            out.monster_shoot == (!out.terminate && (old(self).phase == Phase::TransIntro
                || old(self).phase == Phase::TransMain)),
            out.target_armed == (!out.terminate && old(self).phase == Phase::TransMain),
            out.reset_player == (!out.terminate && old(self).phase == Phase::TransDead),
            out.arm_win_check == (old(self).phase == Phase::TransMain),
            out.overlay == spec_step_overlay(old(self).phase, pressed, debug),
    {
        let emitted = self.phase;
        if matches!(self.phase, Phase::Egg) && pressed {
            return StepOut {
                emitted,
                overlay: None,
                monster_shoot: false,
                target_armed: false,
                reset_player: false,
                arm_win_check: false,
                terminate: true,
            };
        }
        let mut overlay: Option<OverlayCmd> = None;
        let mut monster_shoot = false;
        let mut target_armed = false;
        let mut reset_player = false;
        match self.phase {
            Phase::Start => {
                if pressed {
                    overlay = Some(OverlayCmd::Hide);
                    self.phase = Phase::TransIntro;
                }
            },
            Phase::TransIntro => {
                monster_shoot = true;
                self.phase = Phase::Intro;
            },
            Phase::Intro => {},
            Phase::TransDead => {
                overlay = Some(OverlayCmd::Show(OverlayKind::YouWin));
                reset_player = true;
                self.phase = Phase::Dead;
            },
            Phase::Dead => {
                if pressed {
                    overlay = Some(OverlayCmd::Hide);
                    self.phase = Phase::TransMain;
                }
            },
            Phase::TransMain => {
                monster_shoot = true;
                target_armed = true;
                self.phase = Phase::TransMain2;
            },
            Phase::TransMain2 => {
                if won {
                    self.phase = Phase::TransEnd;
                } else {
                    self.phase = Phase::Main;
                }
            },
            Phase::TransEnd => {
                overlay = Some(OverlayCmd::Show(OverlayKind::MemoryOverflow));
                self.phase = Phase::End;
            },
            Phase::Main => {},
            Phase::End => {},
            Phase::Egg => {},
        }
        if debug {
            overlay = Some(OverlayCmd::Show(OverlayKind::Egg));
            self.phase = Phase::Egg;
        }
        StepOut {
            emitted,
            overlay,
            monster_shoot,
            target_armed,
            reset_player,
            arm_win_check: matches!(emitted, Phase::TransMain),
            terminate: false,
        }
    }

    /// Round-over detection, run after this tick's despawns are applied:
    /// the round ends only on the tick a removal empties the arena, and
    /// only out of the two playing phases.
    pub fn detect_round_over(&mut self, removed_this_tick: bool, any_left: bool)
        ensures
            final(self).phase
                == spec_round_over(old(self).phase, removed_this_tick, any_left),
    {
        if removed_this_tick && !any_left {
            match self.phase {
                Phase::Intro | Phase::Main => {
                    self.phase = Phase::TransDead;
                },
                _ => {},
            }
        }
    }
}

/// The phase after round-over detection: `TransDead` exactly when a
/// projectile was removed this tick, none remain, and the match was in a
/// playing phase.
pub open spec fn spec_round_over(p: Phase, removed_this_tick: bool, any_left: bool) -> Phase {
    if removed_this_tick && !any_left && (p == Phase::Intro || p == Phase::Main) {
        Phase::TransDead
    } else {
        p
    }
}

/// The overlay command of one controller step.
pub open spec fn spec_step_overlay(p: Phase, pressed: bool, debug: bool) -> Option<OverlayCmd> {
    if spec_step_terminates(p, pressed) {
        None
    } else if debug {
        Some(OverlayCmd::Show(OverlayKind::Egg))
    } else {
        match p {
            Phase::Start => if pressed { Some(OverlayCmd::Hide) } else { None },
            Phase::TransDead => Some(OverlayCmd::Show(OverlayKind::YouWin)),
            Phase::Dead => if pressed { Some(OverlayCmd::Hide) } else { None },
            Phase::TransEnd => Some(OverlayCmd::Show(OverlayKind::MemoryOverflow)),
            _ => None,
        }
    }
}

} // verus!
