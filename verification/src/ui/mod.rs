//! The decisions behind the menus. Laying out and drawing them is the engine's
//! business.

use crate::spawnable::EnemyMobType;
use vstd::prelude::*;
use vstd::string::StringExecFns;

pub mod border_gradient;
pub mod character_selection;

verus! {

/// The name of the variant, spelled as its identifier.
pub open spec fn variant_name(mob_type: EnemyMobType) -> Seq<char> {
    match mob_type {
        EnemyMobType::Pawn => "Pawn"@,
        EnemyMobType::Drone => "Drone"@,
        EnemyMobType::StraferRight => "StraferRight"@,
        EnemyMobType::StraferLeft => "StraferLeft"@,
        EnemyMobType::MissileLauncher => "MissileLauncher"@,
        EnemyMobType::Missile => "Missile"@,
        EnemyMobType::CrustlingRight => "CrustlingRight"@,
        EnemyMobType::CrustlingLeft => "CrustlingLeft"@,
        EnemyMobType::Repeater => "Repeater"@,
        EnemyMobType::Shelly => "Shelly"@,
    }
}

/// The decimal digit of a number below ten.
pub open spec fn digit(d: nat) -> char {
    if d == 0 {
        '0'
    } else if d == 1 {
        '1'
    } else if d == 2 {
        '2'
    } else if d == 3 {
        '3'
    } else if d == 4 {
        '4'
    } else if d == 5 {
        '5'
    } else if d == 6 {
        '6'
    } else if d == 7 {
        '7'
    } else if d == 8 {
        '8'
    } else {
        '9'
    }
}

/// A number in decimal digits, without leading zeros.
pub open spec fn decimal(n: nat) -> Seq<char>
    decreases n,
{
    if n < 10 {
        seq![digit(n)]
    } else {
        decimal(n / 10).push(digit(n % 10))
    }
}

/// One line of the list of kills: the mob type, a colon and the count.
pub open spec fn kill_line(entry: (EnemyMobType, usize)) -> Seq<char> {
    variant_name(entry.0) + ": "@ + decimal(entry.1 as nat)
}

/// The lines of the list of kills, one for each entry, with a line break between
/// two lines and none at the end.
pub open spec fn kill_lines(entries: Seq<(EnemyMobType, usize)>) -> Seq<char>
    decreases entries.len(),
{
    if entries.len() == 0 {
        Seq::empty()
    } else if entries.len() == 1 {
        kill_line(entries[0])
    } else {
        kill_lines(entries.drop_last()) + "\n"@ + kill_line(entries.last())
    }
}

/// The list of kills as shown to the player. A player without a record has
/// killed no mobs.
pub open spec fn mob_kills_text(data: Option<Seq<(EnemyMobType, usize)>>) -> Seq<char> {
    match data {
        None => "No mobs killed"@,
        Some(entries) => kill_lines(entries),
    }
}

/// The name of the variant, spelled as its identifier.
pub fn enemy_mob_variant_name(mob_type: EnemyMobType) -> (name: &'static str)
    ensures
        name@ == variant_name(mob_type),
{
    match mob_type {
        EnemyMobType::Pawn => "Pawn",
        EnemyMobType::Drone => "Drone",
        EnemyMobType::StraferRight => "StraferRight",
        EnemyMobType::StraferLeft => "StraferLeft",
        EnemyMobType::MissileLauncher => "MissileLauncher",
        EnemyMobType::Missile => "Missile",
        EnemyMobType::CrustlingRight => "CrustlingRight",
        EnemyMobType::CrustlingLeft => "CrustlingLeft",
        EnemyMobType::Repeater => "Repeater",
        EnemyMobType::Shelly => "Shelly",
    }
}

/// Appends `n` in decimal digits to `text`.
pub fn append_decimal(text: &mut String, n: usize)
    ensures
        final(text)@ == old(text)@ + decimal(n as nat),
    decreases n,
{
    if n >= 10 {
        append_decimal(text, n / 10);
    }
    let d = n % 10;
    let digit_text = if d == 0 {
        "0"
    } else if d == 1 {
        "1"
    } else if d == 2 {
        "2"
    } else if d == 3 {
        "3"
    } else if d == 4 {
        "4"
    } else if d == 5 {
        "5"
    } else if d == 6 {
        "6"
    } else if d == 7 {
        "7"
    } else if d == 8 {
        "8"
    } else {
        "9"
    };
    text.append(digit_text);
    proof {
        reveal_strlit("0");
        reveal_strlit("1");
        reveal_strlit("2");
        reveal_strlit("3");
        reveal_strlit("4");
        reveal_strlit("5");
        reveal_strlit("6");
        reveal_strlit("7");
        reveal_strlit("8");
        reveal_strlit("9");
    }
}

/// Consistently format mob+kill-count pairs: one line for each entry of the
/// player's record, in the order given, or a note that there is no record.
pub fn pprint_mob_kills_from_data(data: Option<&Vec<(EnemyMobType, usize)>>) -> (text: String)
    ensures
        text@ == mob_kills_text(
            match data {
                Some(entries) => Some(entries@),
                None => None,
            },
        ),
{
    match data {
        None => "No mobs killed".to_owned(),
        Some(entries) => {
            let mut text = String::new();
            let mut i: usize = 0;
            while i < entries.len()
                invariant
                    i <= entries.len(),
                    text@ == kill_lines(entries@.take(i as int)),
                decreases entries.len() - i,
            {
                proof {
                    assert(entries@.take(i + 1).drop_last() =~= entries@.take(i as int));
                }
                if i > 0 {
                    text.append("\n");
                }
                text.append(enemy_mob_variant_name(entries[i].0));
                text.append(": ");
                append_decimal(&mut text, entries[i].1);
                i += 1;
            }
            proof {
                assert(entries@.take(i as int) =~= entries@);
            }
            text
        },
    }
}

} // verus!
