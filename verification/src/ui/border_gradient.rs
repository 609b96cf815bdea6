//! The gradient that flashes along the border of the screen when a mob reaches
//! the bottom gate.

use crate::clock::{timer_after_reset, timer_reset, timer_state};
use bevy_time::Timer;
use vstd::prelude::*;

verus! {

/// The two gradients: a warning when the defense is damaged, another when it is
/// healed.
#[derive(Debug, PartialEq, Eq, Clone, Copy, Structural)]
pub enum BorderGradientType {
    Warning,
    Defense,
}

/// What a mob does to the defense when it reaches the bottom gate.
#[derive(Debug, PartialEq, Eq, Clone, Copy, Structural)]
pub enum DefenseInteraction {
    Heal(usize),
    Damage(usize),
}

/// The gradient that answers an interaction with the defense.
pub open spec fn gradient_for(interaction: DefenseInteraction) -> BorderGradientType {
    match interaction {
        DefenseInteraction::Heal(_) => BorderGradientType::Defense,
        DefenseInteraction::Damage(_) => BorderGradientType::Warning,
    }
}

/// Trigger a border gradient event for each mob that has reached the bottom gate.
pub fn border_gradient_on_gate_interaction(interactions: &Vec<DefenseInteraction>) -> (events: Vec<
    BorderGradientType,
>)
    ensures
        events@ == interactions@.map_values(|i: DefenseInteraction| gradient_for(i)),
{
    let mut events: Vec<BorderGradientType> = Vec::new();
    let mut i: usize = 0;
    while i < interactions.len()
        invariant
            i <= interactions.len(),
            events@ == interactions@.take(i as int).map_values(
                |i: DefenseInteraction| gradient_for(i),
            ),
        decreases interactions.len() - i,
    {
        let event = match interactions[i] {
            DefenseInteraction::Heal(_) => BorderGradientType::Defense,
            DefenseInteraction::Damage(_) => BorderGradientType::Warning,
        };
        events.push(event);
        i += 1;
    }
    events
}

/// Starts the gradient of the type `bg_type` over if one of the events asks for
/// it: its timer is then reset, and the caller shows the gradient in full.
/// Returns whether it did.
pub fn border_gradient_start_system(
    bg_type: BorderGradientType,
    timer: &mut Timer,
    events: &Vec<BorderGradientType>,
) -> (restarted: bool)
    ensures
        restarted == events@.contains(bg_type),
        timer_state(*final(timer)) == (if restarted {
            timer_after_reset(timer_state(*old(timer)))
        } else {
            timer_state(*old(timer))
        }),
{
    let mut restarted = false;
    let mut i: usize = 0;
    while i < events.len()
        invariant
            i <= events.len(),
            restarted == events@.take(i as int).contains(bg_type),
            timer_state(*timer) == (if restarted {
                timer_after_reset(timer_state(*old(timer)))
            } else {
                timer_state(*old(timer))
            }),
        decreases events.len() - i,
    {
        if events[i] == bg_type {
            timer_reset(timer);
            restarted = true;
        }
        proof {
            let before = events@.take(i as int);
            let after = events@.take(i + 1);
            assert(after[i as int] == events@[i as int]);
            if before.contains(bg_type) {
                let j = choose|j: int| 0 <= j < before.len() && before[j] == bg_type;
                assert(after[j] == bg_type);
            }
            if after.contains(bg_type) && events@[i as int] != bg_type {
                let j = choose|j: int| 0 <= j < after.len() && after[j] == bg_type;
                assert(before[j] == bg_type);
            }
        }
        i += 1;
    }
    proof {
        assert(events@.take(i as int) =~= events@);
    }
    restarted
}

} // verus!
