//! Statistic kinds and the statistic value object.

use vstd::prelude::*;
use crate::fixed::Fixed;

verus! {

/// The three saving throws a creature has.
#[derive(Clone, Copy, Debug, PartialEq, Eq, Structural)]
pub enum SavingThrowType {
    Fortitude,
    Reflex,
    Will,
}

/// The skills a creature can be proficient in.
#[derive(Clone, Copy, Debug, PartialEq, Eq, Structural)]
pub enum SkillType {
    Acrobatics,
    Arcana,
    Athletics,
    Crafting,
    Deception,
    Diplomacy,
    Intimidation,
    Lore,
    Medicine,
    Nature,
    Occultism,
    Performance,
    Religion,
    Society,
    Stealth,
    Survival,
    Thievery,
}

/// Which statistic a value belongs to. The kind selects the reference
/// table and decides whether the value is a plain number or a damage
/// expression.
#[derive(Clone, Copy, Debug, PartialEq, Eq, Structural)]
pub enum StatType {
    Perception,
    Skill,
    ArmorClass,
    SavingThrow,
    HitPoints,
    Resistance,
    Weakness,
    StrikeAttackBonus,
    StrikeDamage,
    SpellDC,
    SpellAttackBonus,
    UnlimitedAreaDamage,
    LimitedAreaDamage,
}

/// Whether the statistic is a bonus, conventionally displayed with an
/// explicit sign. A presentation property only; the engine ignores it.
pub fn is_bonus(stat: StatType) -> (r: bool)
    ensures
        r == (stat is Perception || stat is Skill || stat is SavingThrow
            || stat is StrikeAttackBonus || stat is SpellAttackBonus),
{
    match stat {
        StatType::Perception
        | StatType::Skill
        | StatType::SavingThrow
        | StatType::StrikeAttackBonus
        | StatType::SpellAttackBonus => true,
        _ => false,
    }
}

/// The display name of a statistic kind.
pub fn stat_type_label(stat: StatType) -> (r: &'static str)
    ensures
        r@ == spec_stat_type_label(stat),
{
    match stat {
        StatType::Perception => "perception",
        StatType::Skill => "skill",
        StatType::ArmorClass => "AC",
        StatType::SavingThrow => "save",
        StatType::HitPoints => "HP",
        StatType::Resistance => "resistance",
        StatType::Weakness => "weakness",
        StatType::StrikeAttackBonus => "strike-attack",
        StatType::StrikeDamage => "strike-damage",
        StatType::SpellDC => "spell-DC",
        StatType::SpellAttackBonus => "spell-attack",
        StatType::UnlimitedAreaDamage => "unlimited-area-damage",
        StatType::LimitedAreaDamage => "limited-area-damage",
    }
}

pub open spec fn spec_stat_type_label(stat: StatType) -> Seq<char> {
    match stat {
        StatType::Perception => "perception"@,
        StatType::Skill => "skill"@,
        StatType::ArmorClass => "AC"@,
        StatType::SavingThrow => "save"@,
        StatType::HitPoints => "HP"@,
        StatType::Resistance => "resistance"@,
        StatType::Weakness => "weakness"@,
        StatType::StrikeAttackBonus => "strike-attack"@,
        StatType::StrikeDamage => "strike-damage"@,
        StatType::SpellDC => "spell-DC"@,
        StatType::SpellAttackBonus => "spell-attack"@,
        StatType::UnlimitedAreaDamage => "unlimited-area-damage"@,
        StatType::LimitedAreaDamage => "limited-area-damage"@,
    }
}

/// The display name of a skill.
pub fn skill_label(skill: SkillType) -> (r: &'static str)
    ensures
        r@ == spec_skill_label(skill),
{
    match skill {
        SkillType::Acrobatics => "acrobatics",
        SkillType::Arcana => "arcana",
        SkillType::Athletics => "athletics",
        SkillType::Crafting => "crafting",
        SkillType::Deception => "deception",
        SkillType::Diplomacy => "diplomacy",
        SkillType::Intimidation => "intimidation",
        SkillType::Lore => "lore",
        SkillType::Medicine => "medicine",
        SkillType::Nature => "nature",
        SkillType::Occultism => "occultism",
        SkillType::Performance => "performance",
        SkillType::Religion => "religion",
        SkillType::Society => "society",
        SkillType::Stealth => "stealth",
        SkillType::Survival => "survival",
        SkillType::Thievery => "thievery",
    }
}

pub open spec fn spec_skill_label(skill: SkillType) -> Seq<char> {
    match skill {
        SkillType::Acrobatics => "acrobatics"@,
        SkillType::Arcana => "arcana"@,
        SkillType::Athletics => "athletics"@,
        SkillType::Crafting => "crafting"@,
        SkillType::Deception => "deception"@,
        SkillType::Diplomacy => "diplomacy"@,
        SkillType::Intimidation => "intimidation"@,
        SkillType::Lore => "lore"@,
        SkillType::Medicine => "medicine"@,
        SkillType::Nature => "nature"@,
        SkillType::Occultism => "occultism"@,
        SkillType::Performance => "performance"@,
        SkillType::Religion => "religion"@,
        SkillType::Society => "society"@,
        SkillType::Stealth => "stealth"@,
        SkillType::Survival => "survival"@,
        SkillType::Thievery => "thievery"@,
    }
}

/// The display name of a saving throw.
pub fn saving_throw_label(save: SavingThrowType) -> (r: &'static str)
    ensures
        r@ == spec_saving_throw_label(save),
{
    match save {
        SavingThrowType::Fortitude => "fortitude",
        SavingThrowType::Reflex => "reflex",
        SavingThrowType::Will => "will",
    }
}

pub open spec fn spec_saving_throw_label(save: SavingThrowType) -> Seq<char> {
    match save {
        SavingThrowType::Fortitude => "fortitude"@,
        SavingThrowType::Reflex => "reflex"@,
        SavingThrowType::Will => "will"@,
    }
}

/// A statistic kind together with its value.
#[derive(Clone, Copy, Debug, PartialEq, Eq, Structural)]
pub struct Statistic {
    pub kind: StatType,
    pub value: Fixed,
}

impl Statistic {
    pub fn new(kind: StatType, value: Fixed) -> (r: Statistic)
        ensures
            r.kind == kind,
            r.value == value,
    {
        Statistic { kind, value }
    }
}

} // verus!
