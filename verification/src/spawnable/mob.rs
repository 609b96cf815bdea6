use vstd::prelude::*;

verus! {

/// Type that encompasses all spawnable enemy mobs
#[derive(Debug, Hash, PartialEq, Eq, Clone, Copy, Structural)]
pub enum EnemyMobType {
    Pawn,
    Drone,
    StraferRight,
    StraferLeft,
    MissileLauncher,
    Missile,
    CrustlingRight,
    CrustlingLeft,
    Repeater,
    Shelly,
}

/// Type that encompasses all spawnable mobs
#[derive(Debug, Hash, PartialEq, Eq, Clone, Copy, Structural)]
pub enum MobType {
    Enemy(EnemyMobType),
    Ally(AllyMobType),
    Neutral(NeutralMobType),
}

/// Type that encompasses all spawnable neutral mobs
#[derive(Debug, Hash, PartialEq, Eq, Clone, Copy, Structural)]
pub enum NeutralMobType {
    MoneyAsteroid,
    TutorialDrone,
}

/// Type that encompasses all spawnable mob segments
#[derive(Debug, Hash, PartialEq, Eq, Clone, Copy, Structural)]
pub enum MobSegmentType {
    Neutral(NeutralMobSegmentType),
    Enemy(EnemyMobSegmentType),
}

/// Type that encompasses all spawnable ally mobs
#[derive(Debug, Hash, PartialEq, Eq, Clone, Copy, Structural)]
pub enum AllyMobType {
    Hauler2,
    Hauler3,
    TutorialHauler2,
}

/// Type that encompasses all spawnable neutral mob segments
#[derive(Debug, Hash, PartialEq, Eq, Clone, Copy, Structural)]
pub enum NeutralMobSegmentType {
    HaulerBack,
    HaulerMiddle,
    TutorialHaulerBack,
}

/// Type that encompasses all spawnable enemy mob segments
#[derive(Debug, Hash, PartialEq, Eq, Clone, Copy, Structural)]
pub enum EnemyMobSegmentType {
    CrustlingTentacle1,
    CrustlingTentacle2,
    CrustlingTentacle3,
    RepeaterBody,
    RepeaterRightShoulder,
    RepeaterLeftShoulder,
    RepeaterRightArm,
    RepeaterLeftArm,
    RepeaterRightClaw,
    RepeaterLeftClaw,
}

/// Sends information about destroyed mobs
/// Includes information that is lost when the entity is destroyed
#[derive(Debug, PartialEq, Eq, Clone, Copy, Structural)]
pub struct MobDestroyedEvent {
    pub mob_type: MobType,
    pub entity: u64,
    pub is_boss: bool,
}

/// Sends information about destroyed mob segments
#[derive(Debug, PartialEq, Eq, Clone, Copy, Structural)]
pub struct MobSegmentDestroyedEvent {
    pub mob_segment_type: MobSegmentType,
    pub entity: u64,
}

impl EnemyMobType {
    /// The name shown to the player. Mirrored variants share one name.
    pub open spec fn name(self) -> Seq<char> {
        match self {
            EnemyMobType::Pawn => "Pawn"@,
            EnemyMobType::Drone => "Drone"@,
            EnemyMobType::StraferRight | EnemyMobType::StraferLeft => "Strafer"@,
            EnemyMobType::MissileLauncher => "Missile Launcher"@,
            EnemyMobType::Missile => "Missile"@,
            EnemyMobType::CrustlingRight | EnemyMobType::CrustlingLeft => "Crustling"@,
            EnemyMobType::Repeater => "Repeater"@,
            EnemyMobType::Shelly => "Shelly"@,
        }
    }
}

impl MobType {
    /// The name shown to the player: every hauler is a "Hauler", and the left and
    /// right forms of an enemy share one name.
    pub open spec fn name(self) -> Seq<char> {
        match self {
            MobType::Enemy(enemy_type) => enemy_type.name(),
            MobType::Ally(_) => "Hauler"@,
            MobType::Neutral(NeutralMobType::MoneyAsteroid) => "Money Asteroid"@,
            MobType::Neutral(NeutralMobType::TutorialDrone) => "Tutorial Drone"@,
        }
    }

    /// The name of the mob as shown to the player.
    pub fn get_name(&self) -> (r: String)
        ensures
            r@ == self.name(),
    {
        let name: &str = match self {
            MobType::Enemy(enemy_type) => match enemy_type {
                EnemyMobType::Pawn => "Pawn",
                EnemyMobType::Drone => "Drone",
                EnemyMobType::StraferRight | EnemyMobType::StraferLeft => "Strafer",
                EnemyMobType::MissileLauncher => "Missile Launcher",
                EnemyMobType::Missile => "Missile",
                EnemyMobType::CrustlingRight | EnemyMobType::CrustlingLeft => "Crustling",
                EnemyMobType::Repeater => "Repeater",
                EnemyMobType::Shelly => "Shelly",
            },
            MobType::Ally(ally_type) => match ally_type {
                AllyMobType::Hauler2 => "Hauler",
                AllyMobType::Hauler3 => "Hauler",
                AllyMobType::TutorialHauler2 => "Hauler",
            },
            MobType::Neutral(neutral_type) => match neutral_type {
                NeutralMobType::MoneyAsteroid => "Money Asteroid",
                NeutralMobType::TutorialDrone => "Tutorial Drone",
            },
        };
        name.to_owned()
    }
}

} // verus!
