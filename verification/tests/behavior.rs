use thetawave::behavior::mob_segment::{
    deal_damage_to_player_on_impact, execute_segment_behaviors,
    mob_segment_execute_behavior_system, receive_damage_on_impact, MobSegmentAction,
    MobSegmentBehavior,
};
use thetawave::behavior::projectile::{
    execute_projectile_behaviors, explode_on_impact, projectile_execute_behavior_system,
    Projectile, ProjectileBehavior, ProjectileComponent,
};
use thetawave::collision::{contains_entity, IntersectionEvent, SortedCollisionEvent};
use thetawave::spawnable::{Faction, ProjectileType};

const SEGMENT: u64 = 40;
const OTHER_SEGMENT: u64 = 41;
const PLAYER_ONE: u64 = 7;
const PLAYER_TWO: u64 = 9;
const MOB: u64 = 70;

fn player_contact(player: u64, segment: u64, player_damage: usize, segment_damage: usize) -> SortedCollisionEvent {
    SortedCollisionEvent::PlayerToMobSegmentContact {
        player_entity: player,
        mob_segment_entity: segment,
        mob_segment_faction: Faction::Enemy,
        player_damage,
        mob_segment_damage: segment_damage,
    }
}

fn mob_contact(segment: u64, mob_damage: usize) -> SortedCollisionEvent {
    SortedCollisionEvent::MobToMobSegmentContact {
        mob_segment_entity: segment,
        mob_segment_faction: Faction::Enemy,
        mob_segment_damage: 1,
        mob_entity: MOB,
        mob_faction: Faction::Ally,
        mob_damage,
    }
}

fn segment_contact(first: u64, second: u64, first_damage: usize, second_damage: usize) -> SortedCollisionEvent {
    SortedCollisionEvent::MobSegmentToMobSegmentContact {
        mob_segment_entity_1: first,
        mob_segment_faction_1: Faction::Enemy,
        mob_segment_damage_1: first_damage,
        mob_segment_entity_2: second,
        mob_segment_faction_2: Faction::Neutral,
        mob_segment_damage_2: second_damage,
    }
}

fn frame_events() -> Vec<SortedCollisionEvent> {
    vec![
        player_contact(PLAYER_TWO, SEGMENT, 5, 11),
        SortedCollisionEvent::Other,
        player_contact(PLAYER_ONE, OTHER_SEGMENT, 6, 12),
        mob_contact(SEGMENT, 3),
        segment_contact(SEGMENT, OTHER_SEGMENT, 20, 30),
        segment_contact(OTHER_SEGMENT, SEGMENT, 21, 31),
        player_contact(PLAYER_ONE, SEGMENT, 8, 13),
        player_contact(99, SEGMENT, 50, 60),
    ]
}

#[test]
fn segment_hurts_the_players_it_touches() {
    let mut actions = vec![MobSegmentAction::DieAtZeroHealth];
    deal_damage_to_player_on_impact(
        &mut actions,
        SEGMENT,
        &frame_events(),
        &vec![PLAYER_ONE, PLAYER_TWO],
    );
    assert_eq!(
        actions,
        vec![
            MobSegmentAction::DieAtZeroHealth,
            MobSegmentAction::DamagePlayer { player: 1, damage: 11 },
            MobSegmentAction::DamagePlayer { player: 0, damage: 13 },
        ]
    );
}

#[test]
fn segment_takes_damage_from_what_touches_it() {
    let mut actions = Vec::new();
    receive_damage_on_impact(&mut actions, SEGMENT, &frame_events(), &vec![PLAYER_ONE, PLAYER_TWO]);
    assert_eq!(
        actions,
        vec![
            MobSegmentAction::TakeDamage { damage: 5 },
            MobSegmentAction::TakeDamage { damage: 3 },
            MobSegmentAction::TakeDamage { damage: 30 },
            MobSegmentAction::TakeDamage { damage: 8 },
        ]
    );
    let mut other = Vec::new();
    receive_damage_on_impact(&mut other, OTHER_SEGMENT, &frame_events(), &vec![PLAYER_ONE, PLAYER_TWO]);
    assert_eq!(
        other,
        vec![
            MobSegmentAction::TakeDamage { damage: 6 },
            MobSegmentAction::TakeDamage { damage: 31 },
        ]
    );
}

#[test]
fn untouched_segment_does_nothing() {
    let mut actions = Vec::new();
    deal_damage_to_player_on_impact(&mut actions, 1234, &frame_events(), &vec![PLAYER_ONE]);
    receive_damage_on_impact(&mut actions, 1234, &frame_events(), &vec![PLAYER_ONE]);
    assert!(actions.is_empty());
}

#[test]
fn player_contact_without_that_player_counts_for_nothing() {
    let mut actions = Vec::new();
    let events = vec![player_contact(PLAYER_ONE, SEGMENT, 5, 11)];
    deal_damage_to_player_on_impact(&mut actions, SEGMENT, &events, &vec![PLAYER_TWO]);
    receive_damage_on_impact(&mut actions, SEGMENT, &events, &Vec::new());
    assert!(actions.is_empty());
}

#[test]
fn behaviors_act_in_their_order() {
    let behaviors = vec![
        MobSegmentBehavior::DieAtZeroHealth,
        MobSegmentBehavior::ReceiveDamageOnImpact,
        MobSegmentBehavior::RandomRotation,
        MobSegmentBehavior::DealDamageToPlayerOnImpact,
        MobSegmentBehavior::DieAtZeroHealth,
    ];
    let events = vec![player_contact(PLAYER_ONE, SEGMENT, 5, 11), mob_contact(SEGMENT, 3)];
    let actions = execute_segment_behaviors(SEGMENT, &behaviors, &events, &vec![PLAYER_ONE]);
    assert_eq!(
        actions,
        vec![
            MobSegmentAction::DieAtZeroHealth,
            MobSegmentAction::TakeDamage { damage: 5 },
            MobSegmentAction::TakeDamage { damage: 3 },
            MobSegmentAction::RandomRotation { behavior: 2 },
            MobSegmentAction::DamagePlayer { player: 0, damage: 11 },
            MobSegmentAction::DieAtZeroHealth,
        ]
    );
}

#[test]
fn every_segment_gets_its_own_frame() {
    let segments = vec![
        (SEGMENT, vec![MobSegmentBehavior::ReceiveDamageOnImpact]),
        (OTHER_SEGMENT, vec![MobSegmentBehavior::DealDamageToPlayerOnImpact]),
        (1234, Vec::new()),
    ];
    let frames =
        mob_segment_execute_behavior_system(&segments, &frame_events(), &vec![PLAYER_ONE, PLAYER_TWO]);
    assert_eq!(
        frames,
        vec![
            vec![
                MobSegmentAction::TakeDamage { damage: 5 },
                MobSegmentAction::TakeDamage { damage: 3 },
                MobSegmentAction::TakeDamage { damage: 30 },
                MobSegmentAction::TakeDamage { damage: 8 },
            ],
            vec![MobSegmentAction::DamagePlayer { player: 0, damage: 12 }],
            Vec::new(),
        ]
    );
}

#[test]
fn contains_entity_finds_members_only() {
    assert!(contains_entity(&vec![3, 5, 8], 8));
    assert!(contains_entity(&vec![3, 5, 8], 3));
    assert!(!contains_entity(&vec![3, 5, 8], 4));
    assert!(!contains_entity(&Vec::new(), 0));
}

#[test]
fn projectile_explodes_on_a_player_from_either_side() {
    let players = vec![PLAYER_ONE, PLAYER_TWO];
    let mut flag = false;
    explode_on_impact(
        50,
        &mut flag,
        &vec![IntersectionEvent { collider1: 50, collider2: PLAYER_TWO }],
        &players,
    );
    assert!(flag);
    let mut flag = false;
    explode_on_impact(
        50,
        &mut flag,
        &vec![
            IntersectionEvent { collider1: 51, collider2: PLAYER_ONE },
            IntersectionEvent { collider1: PLAYER_ONE, collider2: 50 },
        ],
        &players,
    );
    assert!(flag);
}

#[test]
fn projectile_ignores_what_is_not_a_player() {
    let players = vec![PLAYER_ONE];
    let events = vec![
        IntersectionEvent { collider1: 50, collider2: MOB },
        IntersectionEvent { collider1: 51, collider2: PLAYER_ONE },
        IntersectionEvent { collider1: PLAYER_ONE, collider2: PLAYER_ONE },
    ];
    let mut flag = false;
    explode_on_impact(50, &mut flag, &events, &players);
    assert!(!flag);
    let mut set_before = true;
    explode_on_impact(50, &mut set_before, &events, &players);
    assert!(set_before);
}

#[test]
fn projectile_without_behaviors_never_explodes() {
    let players = vec![PLAYER_ONE];
    let events = vec![IntersectionEvent { collider1: 50, collider2: PLAYER_ONE }];
    let mut flag = false;
    execute_projectile_behaviors(50, &Vec::new(), &mut flag, &events, &players);
    assert!(!flag);
    execute_projectile_behaviors(
        50,
        &vec![ProjectileBehavior::ExplodeOnImpact],
        &mut flag,
        &events,
        &players,
    );
    assert!(flag);
}

#[test]
fn projectile_system_marks_each_projectile_on_its_own() {
    let bullet = |entity: u64, should_despawn: bool, behaviors: Vec<ProjectileBehavior>| Projectile {
        entity,
        should_despawn,
        component: ProjectileComponent {
            projectile_type: ProjectileType::Bullet(Faction::Enemy),
            behaviors,
        },
    };
    let mut projectiles = vec![
        bullet(50, false, vec![ProjectileBehavior::ExplodeOnImpact]),
        bullet(51, false, vec![ProjectileBehavior::ExplodeOnImpact]),
        bullet(52, false, Vec::new()),
        bullet(53, true, Vec::new()),
    ];
    let events = vec![
        IntersectionEvent { collider1: PLAYER_ONE, collider2: 50 },
        IntersectionEvent { collider1: 52, collider2: PLAYER_ONE },
        IntersectionEvent { collider1: 51, collider2: MOB },
    ];
    projectile_execute_behavior_system(&mut projectiles, &events, &vec![PLAYER_ONE]);
    let flags: Vec<bool> = projectiles.iter().map(|p| p.should_despawn).collect();
    assert_eq!(flags, vec![true, false, false, true]);
    let entities: Vec<u64> = projectiles.iter().map(|p| p.entity).collect();
    assert_eq!(entities, vec![50, 51, 52, 53]);
    assert_eq!(projectiles[0].component.behaviors, vec![ProjectileBehavior::ExplodeOnImpact]);
}

#[test]
fn a_player_listed_twice_is_struck_twice() {
    let events = vec![player_contact(PLAYER_ONE, SEGMENT, 5, 11)];
    let players = vec![PLAYER_ONE, PLAYER_TWO, PLAYER_ONE];
    let mut dealt = Vec::new();
    deal_damage_to_player_on_impact(&mut dealt, SEGMENT, &events, &players);
    assert_eq!(
        dealt,
        vec![
            MobSegmentAction::DamagePlayer { player: 0, damage: 11 },
            MobSegmentAction::DamagePlayer { player: 2, damage: 11 },
        ]
    );
    let mut received = Vec::new();
    receive_damage_on_impact(&mut received, SEGMENT, &events, &players);
    assert_eq!(
        received,
        vec![MobSegmentAction::TakeDamage { damage: 5 }, MobSegmentAction::TakeDamage { damage: 5 }]
    );
}
