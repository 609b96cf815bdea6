//! What mob segments do on each frame: they hurt the players they touch, take
//! damage from what touches them, die and turn their joints.
//!
//! Health is kept by the caller. The segment's frame is therefore worked out as a
//! list of actions that the caller performs in order, so that a death check sees
//! the damage of the actions before it.

use crate::collision::{occurrences, SortedCollisionEvent};
use vstd::prelude::*;

verus! {

/// Types of behaviors that can be performed by mob segments
#[derive(Debug, PartialEq, Eq, Clone, Copy, Structural)]
pub enum MobSegmentBehavior {
    DealDamageToPlayerOnImpact,
    ReceiveDamageOnImpact,
    DieAtZeroHealth,
    /// Turn the joint to a random angle within the range that the caller keeps
    /// for this behavior.
    RandomRotation,
}

/// One step of a mob segment's frame, for the caller to perform.
#[derive(Debug, PartialEq, Eq, Clone, Copy, Structural)]
pub enum MobSegmentAction {
    /// The player at this position among the players takes this much damage.
    DamagePlayer { player: usize, damage: usize },
    /// The segment takes this much damage.
    TakeDamage { damage: usize },
    /// If the segment's health is at zero by now, it explodes, drops its loot and
    /// despawns.
    DieAtZeroHealth,
    /// The joint turns to a random angle, by the behavior at this position among
    /// the segment's behaviors.
    RandomRotation { behavior: usize },
}

/// Whether the contact names `entity` as the segment that is touched: as the
/// segment of a contact with a player or a mob, or as the first segment of a
/// contact between two segments.
pub open spec fn names_segment(event: SortedCollisionEvent, entity: u64) -> bool {
    match event {
        SortedCollisionEvent::PlayerToMobSegmentContact { mob_segment_entity, .. } => entity
            == mob_segment_entity,
        SortedCollisionEvent::MobToMobSegmentContact { mob_segment_entity, .. } => entity
            == mob_segment_entity,
        SortedCollisionEvent::MobSegmentToMobSegmentContact { mob_segment_entity_1, .. } => entity
            == mob_segment_entity_1,
        SortedCollisionEvent::Other => false,
    }
}

/// The damage of `damage` to each player whose entity is `target`, in the order of
/// the players.
pub open spec fn hits_on_player(players: Seq<u64>, target: u64, damage: usize) -> Seq<
    MobSegmentAction,
>
    decreases players.len(),
{
    if players.len() == 0 {
        Seq::empty()
    } else {
        let earlier = hits_on_player(players.drop_last(), target, damage);
        if players.last() == target {
            earlier.push(
                MobSegmentAction::DamagePlayer { player: (players.len() - 1) as usize, damage },
            )
        } else {
            earlier
        }
    }
}

/// What one contact makes the segment `entity` do to the players: a player who
/// touches the segment takes the segment's damage.
pub open spec fn damage_dealt_by_event(
    entity: u64,
    event: SortedCollisionEvent,
    players: Seq<u64>,
) -> Seq<MobSegmentAction> {
    match event {
        SortedCollisionEvent::PlayerToMobSegmentContact {
            player_entity,
            mob_segment_entity,
            mob_segment_damage,
            ..
        } => if entity == mob_segment_entity {
            hits_on_player(players, player_entity, mob_segment_damage)
        } else {
            Seq::empty()
        },
        _ => Seq::empty(),
    }
}

/// What the contacts make the segment `entity` do to the players, in the order of
/// the contacts.
pub open spec fn damage_dealt(
    entity: u64,
    events: Seq<SortedCollisionEvent>,
    players: Seq<u64>,
) -> Seq<MobSegmentAction>
    decreases events.len(),
{
    if events.len() == 0 {
        Seq::empty()
    } else {
        damage_dealt(entity, events.drop_last(), players) + damage_dealt_by_event(
            entity,
            events.last(),
            players,
        )
    }
}

/// `count` times the same damage to the segment.
pub open spec fn repeated_damage(count: nat, damage: usize) -> Seq<MobSegmentAction> {
    Seq::new(count, |i: int| MobSegmentAction::TakeDamage { damage })
}

/// What one contact does to the segment `entity`: it takes the damage of the
/// player or mob that touches it, and of a segment that it touches as the first of
/// the pair. A player counts only if it is among `players`.
pub open spec fn damage_received_by_event(
    entity: u64,
    event: SortedCollisionEvent,
    players: Seq<u64>,
) -> Seq<MobSegmentAction> {
    match event {
        SortedCollisionEvent::PlayerToMobSegmentContact {
            player_entity,
            mob_segment_entity,
            player_damage,
            ..
        } => if entity == mob_segment_entity {
            repeated_damage(occurrences(players, player_entity), player_damage)
        } else {
            Seq::empty()
        },
        SortedCollisionEvent::MobToMobSegmentContact { mob_segment_entity, mob_damage, .. } => {
            if entity == mob_segment_entity {
                seq![MobSegmentAction::TakeDamage { damage: mob_damage }]
            } else {
                Seq::empty()
            }
        },
        SortedCollisionEvent::MobSegmentToMobSegmentContact {
            mob_segment_entity_1,
            mob_segment_damage_2,
            ..
        } => if entity == mob_segment_entity_1 {
            seq![MobSegmentAction::TakeDamage { damage: mob_segment_damage_2 }]
        } else {
            Seq::empty()
        },
        SortedCollisionEvent::Other => Seq::empty(),
    }
}

/// What the contacts do to the segment `entity`, in the order of the contacts.
pub open spec fn damage_received(
    entity: u64,
    events: Seq<SortedCollisionEvent>,
    players: Seq<u64>,
) -> Seq<MobSegmentAction>
    decreases events.len(),
{
    if events.len() == 0 {
        Seq::empty()
    } else {
        damage_received(entity, events.drop_last(), players) + damage_received_by_event(
            entity,
            events.last(),
            players,
        )
    }
}

/// What one behavior, at the position `index` among the segment's behaviors,
/// makes the segment `entity` do.
pub open spec fn behavior_actions(
    behavior: MobSegmentBehavior,
    index: usize,
    entity: u64,
    events: Seq<SortedCollisionEvent>,
    players: Seq<u64>,
) -> Seq<MobSegmentAction> {
    match behavior {
        MobSegmentBehavior::DealDamageToPlayerOnImpact => damage_dealt(entity, events, players),
        MobSegmentBehavior::ReceiveDamageOnImpact => damage_received(entity, events, players),
        MobSegmentBehavior::DieAtZeroHealth => seq![MobSegmentAction::DieAtZeroHealth],
        MobSegmentBehavior::RandomRotation => seq![
            MobSegmentAction::RandomRotation { behavior: index },
        ],
    }
}

/// What the behaviors make the segment `entity` do, in the order of the behaviors.
pub open spec fn segment_actions(
    behaviors: Seq<MobSegmentBehavior>,
    entity: u64,
    events: Seq<SortedCollisionEvent>,
    players: Seq<u64>,
) -> Seq<MobSegmentAction>
    decreases behaviors.len(),
{
    if behaviors.len() == 0 {
        Seq::empty()
    } else {
        segment_actions(behaviors.drop_last(), entity, events, players) + behavior_actions(
            behaviors.last(),
            (behaviors.len() - 1) as usize,
            entity,
            events,
            players,
        )
    }
}

/// Whether the action strikes, with the damage given, a position at which the
/// target stands among the players.
pub open spec fn strikes(
    action: MobSegmentAction,
    players: Seq<u64>,
    target: u64,
    damage: usize,
) -> bool {
    match action {
        MobSegmentAction::DamagePlayer { player, damage: dealt } => {
            &&& dealt == damage
            &&& player < players.len()
            &&& players[player as int] == target
        },
        _ => false,
    }
}

/// Each hit on a player strikes, with the damage given, a position at which the
/// target stands among the players; and there are as many hits as the target
/// occurs there.
pub proof fn lemma_hits_on_player(players: Seq<u64>, target: u64, damage: usize)
    requires
        players.len() <= usize::MAX,
    ensures
        hits_on_player(players, target, damage).len() == occurrences(players, target),
        forall|k: int|
            0 <= k < hits_on_player(players, target, damage).len() ==> strikes(
                #[trigger] hits_on_player(players, target, damage)[k],
                players,
                target,
                damage,
            ),
    decreases players.len(),
{
    if players.len() > 0 {
        lemma_hits_on_player(players.drop_last(), target, damage);
    }
}

/// A segment that no contact names neither deals nor takes damage.
pub proof fn lemma_untouched_segment(
    entity: u64,
    events: Seq<SortedCollisionEvent>,
    players: Seq<u64>,
)
    requires
        forall|i: int| 0 <= i < events.len() ==> !names_segment(#[trigger] events[i], entity),
    ensures
        damage_dealt(entity, events, players) == Seq::<MobSegmentAction>::empty(),
        damage_received(entity, events, players) == Seq::<MobSegmentAction>::empty(),
    decreases events.len(),
{
    if events.len() > 0 {
        lemma_untouched_segment(entity, events.drop_last(), players);
    }
}

/// Appends to `actions` the damage of `damage` to each player whose entity is
/// `target`.
fn push_hits_on_player(
    actions: &mut Vec<MobSegmentAction>,
    players: &Vec<u64>,
    target: u64,
    damage: usize,
)
    ensures
        final(actions)@ == old(actions)@ + hits_on_player(players@, target, damage),
{
    let mut i: usize = 0;
    while i < players.len()
        invariant
            i <= players.len(),
            actions@ == old(actions)@ + hits_on_player(players@.take(i as int), target, damage),
        decreases players.len() - i,
    {
        proof {
            assert(players@.take(i + 1).drop_last() =~= players@.take(i as int));
        }
        if players[i] == target {
            actions.push(MobSegmentAction::DamagePlayer { player: i, damage });
        }
        i += 1;
    }
    proof {
        assert(players@.take(i as int) =~= players@);
    }
}

/// Appends to `actions` the segment's damage to itself for each time that
/// `target` occurs among the players.
fn push_repeated_damage(
    actions: &mut Vec<MobSegmentAction>,
    players: &Vec<u64>,
    target: u64,
    damage: usize,
)
    ensures
        final(actions)@ == old(actions)@ + repeated_damage(
            occurrences(players@, target),
            damage,
        ),
{
    let mut i: usize = 0;
    while i < players.len()
        invariant
            i <= players.len(),
            actions@ == old(actions)@ + repeated_damage(
                occurrences(players@.take(i as int), target),
                damage,
            ),
        decreases players.len() - i,
    {
        proof {
            assert(players@.take(i + 1).drop_last() =~= players@.take(i as int));
        }
        if players[i] == target {
            actions.push(MobSegmentAction::TakeDamage { damage });
        }
        i += 1;
    }
    proof {
        assert(players@.take(i as int) =~= players@);
    }
}

/// Appends to `actions` the damage that the segment `entity` deals to the players
/// it touches.
pub fn deal_damage_to_player_on_impact(
    actions: &mut Vec<MobSegmentAction>,
    entity: u64,
    collision_events: &Vec<SortedCollisionEvent>,
    players: &Vec<u64>,
)
    ensures
        final(actions)@ == old(actions)@ + damage_dealt(entity, collision_events@, players@),
{
    let mut i: usize = 0;
    while i < collision_events.len()
        invariant
            i <= collision_events.len(),
            actions@ == old(actions)@ + damage_dealt(
                entity,
                collision_events@.take(i as int),
                players@,
            ),
        decreases collision_events.len() - i,
    {
        proof {
            assert(collision_events@.take(i + 1).drop_last() =~= collision_events@.take(i as int));
        }
        match collision_events[i] {
            SortedCollisionEvent::PlayerToMobSegmentContact {
                player_entity,
                mob_segment_entity,
                mob_segment_faction: _,
                player_damage: _,
                mob_segment_damage,
            } => {
                if entity == mob_segment_entity {
                    push_hits_on_player(actions, players, player_entity, mob_segment_damage);
                }
            },
            _ => {},
        }
        i += 1;
    }
    proof {
        assert(collision_events@.take(i as int) =~= collision_events@);
    }
}

/// Appends to `actions` the damage that the segment `entity` takes from what
/// touches it.
pub fn receive_damage_on_impact(
    actions: &mut Vec<MobSegmentAction>,
    entity: u64,
    collision_events: &Vec<SortedCollisionEvent>,
    players: &Vec<u64>,
)
    ensures
        final(actions)@ == old(actions)@ + damage_received(entity, collision_events@, players@),
{
    let mut i: usize = 0;
    while i < collision_events.len()
        invariant
            i <= collision_events.len(),
            actions@ == old(actions)@ + damage_received(
                entity,
                collision_events@.take(i as int),
                players@,
            ),
        decreases collision_events.len() - i,
    {
        proof {
            assert(collision_events@.take(i + 1).drop_last() =~= collision_events@.take(i as int));
        }
        match collision_events[i] {
            SortedCollisionEvent::PlayerToMobSegmentContact {
                player_entity,
                mob_segment_entity,
                mob_segment_faction: _,
                player_damage,
                mob_segment_damage: _,
            } => {
                if entity == mob_segment_entity {
                    push_repeated_damage(actions, players, player_entity, player_damage);
                }
            },
            SortedCollisionEvent::MobToMobSegmentContact {
                mob_segment_entity,
                mob_segment_faction: _,
                mob_segment_damage: _,
                mob_entity: _,
                mob_faction: _,
                mob_damage,
            } => {
                if entity == mob_segment_entity {
                    actions.push(MobSegmentAction::TakeDamage { damage: mob_damage });
                }
            },
            SortedCollisionEvent::MobSegmentToMobSegmentContact {
                mob_segment_entity_1,
                mob_segment_faction_1: _,
                mob_segment_damage_1: _,
                mob_segment_entity_2: _,
                mob_segment_faction_2: _,
                mob_segment_damage_2,
            } => {
                if entity == mob_segment_entity_1 {
                    actions.push(MobSegmentAction::TakeDamage { damage: mob_segment_damage_2 });
                }
            },
            _ => {},
        }
        i += 1;
    }
    proof {
        assert(collision_events@.take(i as int) =~= collision_events@);
    }
}

/// Works out the frame of the mob segment `entity`: what its behaviors make it
/// do, in the order of the behaviors, given the contacts of the frame and the
/// entities of the players.
pub fn execute_segment_behaviors(
    entity: u64,
    behaviors: &Vec<MobSegmentBehavior>,
    collision_events: &Vec<SortedCollisionEvent>,
    players: &Vec<u64>,
) -> (actions: Vec<MobSegmentAction>)
    ensures
        actions@ == segment_actions(behaviors@, entity, collision_events@, players@),
{
    let mut actions: Vec<MobSegmentAction> = Vec::new();
    let mut i: usize = 0;
    while i < behaviors.len()
        invariant
            i <= behaviors.len(),
            actions@ == segment_actions(
                behaviors@.take(i as int),
                entity,
                collision_events@,
                players@,
            ),
        decreases behaviors.len() - i,
    {
        proof {
            assert(behaviors@.take(i + 1).drop_last() =~= behaviors@.take(i as int));
        }
        match behaviors[i] {
            MobSegmentBehavior::DealDamageToPlayerOnImpact => {
                deal_damage_to_player_on_impact(&mut actions, entity, collision_events, players);
            },
            MobSegmentBehavior::ReceiveDamageOnImpact => {
                receive_damage_on_impact(&mut actions, entity, collision_events, players);
            },
            MobSegmentBehavior::DieAtZeroHealth => {
                actions.push(MobSegmentAction::DieAtZeroHealth);
            },
            MobSegmentBehavior::RandomRotation => {
                actions.push(MobSegmentAction::RandomRotation { behavior: i });
            },
        }
        i += 1;
    }
    proof {
        assert(behaviors@.take(i as int) =~= behaviors@);
    }
    actions
}

/// Works out one frame of every mob segment. A segment is given by its entity
/// and its behaviors; the result holds the actions of each segment, to be
/// performed segment by segment.
pub fn mob_segment_execute_behavior_system(
    segments: &Vec<(u64, Vec<MobSegmentBehavior>)>,
    collision_events: &Vec<SortedCollisionEvent>,
    players: &Vec<u64>,
) -> (frames: Vec<Vec<MobSegmentAction>>)
    ensures
        frames@.len() == segments@.len(),
        forall|i: int|
            0 <= i < segments@.len() ==> (#[trigger] frames@[i])@ == segment_actions(
                segments@[i].1@,
                segments@[i].0,
                collision_events@,
                players@,
            ),
{
    let mut frames: Vec<Vec<MobSegmentAction>> = Vec::new();
    let mut i: usize = 0;
    while i < segments.len()
        invariant
            i <= segments.len(),
            frames@.len() == i,
            forall|j: int|
                0 <= j < i ==> (#[trigger] frames@[j])@ == segment_actions(
                    segments@[j].1@,
                    segments@[j].0,
                    collision_events@,
                    players@,
                ),
        decreases segments.len() - i,
    {
        let actions = execute_segment_behaviors(
            segments[i].0,
            &segments[i].1,
            collision_events,
            players,
        );
        frames.push(actions);
        i += 1;
    }
    frames
}

} // verus!
