//! What projectiles do when they touch something.

use crate::collision::{contains_entity, IntersectionEvent};
use crate::spawnable::ProjectileType;
use vstd::prelude::*;

verus! {

/// Types of behaviors that can be performed by projectiles
#[derive(Debug, PartialEq, Eq, Clone, Copy, Structural)]
pub enum ProjectileBehavior {
    ExplodeOnImpact,
}

/// Core component for projectiles
#[derive(Debug, Clone)]
pub struct ProjectileComponent {
    /// Type of projectile
    pub projectile_type: ProjectileType,
    /// Projectile specific behaviors
    pub behaviors: Vec<ProjectileBehavior>,
}

/// Whether the intersection brings `entity` together with one of `players`.
pub open spec fn touches_player(entity: u64, event: IntersectionEvent, players: Seq<u64>) -> bool {
    ||| entity == event.collider1 && players.contains(event.collider2)
    ||| entity == event.collider2 && players.contains(event.collider1)
}

/// Whether one of the intersections brings `entity` together with one of `players`.
pub open spec fn hits_player(entity: u64, events: Seq<IntersectionEvent>, players: Seq<u64>) -> bool {
    exists|i: int| 0 <= i < events.len() && touches_player(entity, #[trigger] events[i], players)
}

/// Marks the projectile `entity` for despawning if it intersects a player. A
/// mark that is already set stays.
pub fn explode_on_impact(
    entity: u64,
    should_despawn: &mut bool,
    intersection_events: &Vec<IntersectionEvent>,
    players: &Vec<u64>,
)
    ensures
        *final(should_despawn) == (*old(should_despawn) || hits_player(
            entity,
            intersection_events@,
            players@,
        )),
{
    let mut i: usize = 0;
    while i < intersection_events.len()
        invariant
            i <= intersection_events.len(),
            *should_despawn == (*old(should_despawn) || hits_player(
                entity,
                intersection_events@.take(i as int),
                players@,
            )),
        decreases intersection_events.len() - i,
    {
        let event = intersection_events[i];
        let touched = (entity == event.collider1 && contains_entity(players, event.collider2)) || (
        entity == event.collider2 && contains_entity(players, event.collider1));
        if touched {
            *should_despawn = true;
        }
        proof {
            let before = intersection_events@.take(i as int);
            let after = intersection_events@.take(i + 1);
            assert(after[i as int] == event);
            if hits_player(entity, before, players@) {
                let j = choose|j: int|
                    0 <= j < before.len() && touches_player(entity, #[trigger] before[j], players@);
                assert(touches_player(entity, after[j], players@));
            }
            if hits_player(entity, after, players@) && !touched {
                let j = choose|j: int|
                    0 <= j < after.len() && touches_player(entity, #[trigger] after[j], players@);
                assert(touches_player(entity, before[j], players@));
            }
        }
        i += 1;
    }
    proof {
        assert(intersection_events@.take(i as int) =~= intersection_events@);
    }
}

/// Performs the behaviors of the projectile `entity`, in order: the projectile is
/// marked for despawning if it explodes on impact and intersects a player.
pub fn execute_projectile_behaviors(
    entity: u64,
    behaviors: &Vec<ProjectileBehavior>,
    should_despawn: &mut bool,
    intersection_events: &Vec<IntersectionEvent>,
    players: &Vec<u64>,
)
    ensures
        *final(should_despawn) == (*old(should_despawn) || (behaviors@.len() > 0 && hits_player(
            entity,
            intersection_events@,
            players@,
        ))),
{
    let mut i: usize = 0;
    while i < behaviors.len()
        invariant
            i <= behaviors.len(),
            *should_despawn == (*old(should_despawn) || (i > 0 && hits_player(
                entity,
                intersection_events@,
                players@,
            ))),
        decreases behaviors.len() - i,
    {
        match behaviors[i] {
            ProjectileBehavior::ExplodeOnImpact => {
                explode_on_impact(entity, should_despawn, intersection_events, players);
            },
        }
        i += 1;
    }
}

/// A projectile in play: its entity, its behaviors, and whether it is marked for
/// despawning.
#[derive(Debug, Clone)]
pub struct Projectile {
    pub entity: u64,
    pub should_despawn: bool,
    pub component: ProjectileComponent,
}

/// The projectile after a frame with these intersections: it is marked for
/// despawning if it was so before, or if it has a behavior and intersects a player.
pub open spec fn projectile_after_frame(
    projectile: Projectile,
    events: Seq<IntersectionEvent>,
    players: Seq<u64>,
) -> Projectile {
    Projectile {
        should_despawn: projectile.should_despawn || (projectile.component.behaviors@.len() > 0
            && hits_player(projectile.entity, events, players)),
        ..projectile
    }
}

/// Performs the behaviors of every projectile for one frame, given the
/// intersections of the frame and the entities of the players.
pub fn projectile_execute_behavior_system(
    projectiles: &mut Vec<Projectile>,
    intersection_events: &Vec<IntersectionEvent>,
    players: &Vec<u64>,
)
    ensures
        final(projectiles)@.len() == old(projectiles)@.len(),
        forall|i: int|
            0 <= i < old(projectiles)@.len() ==> (#[trigger] final(projectiles)@[i])
                == projectile_after_frame(old(projectiles)@[i], intersection_events@, players@),
{
    let mut i: usize = 0;
    while i < projectiles.len()
        invariant
            i <= projectiles.len(),
            projectiles@.len() == old(projectiles)@.len(),
            forall|j: int|
                0 <= j < i ==> (#[trigger] projectiles@[j]) == projectile_after_frame(
                    old(projectiles)@[j],
                    intersection_events@,
                    players@,
                ),
            forall|j: int| i <= j < projectiles@.len() ==> projectiles@[j] == old(projectiles)@[j],
        decreases projectiles.len() - i,
    {
        let entity = projectiles[i].entity;
        let mut should_despawn = projectiles[i].should_despawn;
        execute_projectile_behaviors(
            entity,
            &projectiles[i].component.behaviors,
            &mut should_despawn,
            intersection_events,
            players,
        );
        projectiles[i].should_despawn = should_despawn;
        i += 1;
    }
}

} // verus!
