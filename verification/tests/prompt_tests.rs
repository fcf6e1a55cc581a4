use stronk::levels::Levels;
use stronk::prompt::handle_prompt;
use stronk::scaling::ScaleMethod;
use stronk::statistic::StatType;
use stronk::tables::Proficiency;

#[test]
fn accept_valid_prompt_syntax() {
    let levels = Levels::new(1, 2).unwrap();

    assert!(handle_prompt(levels, "ac 12").is_some());
    assert!(handle_prompt(levels, "AC 12").is_some());
    assert!(handle_prompt(levels, "   ac   12    ").is_some());
    assert!(handle_prompt(levels, "AC 120").is_some());
    assert!(handle_prompt(levels, "ac 0").is_some());
    assert!(handle_prompt(levels, "ac -1").is_some());
    assert!(handle_prompt(levels, "ac -34").is_some());

    assert!(handle_prompt(levels, "strike-damage 2d12+11 bludgeoning").is_some());
    assert!(handle_prompt(
        levels,
        "strike-damage 3d10 + 17 slashing plus 2d6+6 cold plus 1d4 acid plus 2 vitality"
    )
    .is_some());
}

#[test]
fn reject_invalid_prompt_syntax() {
    let levels = Levels::new(1, 2).unwrap();

    assert!(handle_prompt(levels, "").is_none());
    assert!(handle_prompt(levels, "ac").is_none());
    assert!(handle_prompt(levels, "invalid").is_none());
    assert!(handle_prompt(levels, "ac x").is_none());
    assert!(handle_prompt(levels, "invalid 12").is_none());
    assert!(handle_prompt(levels, "invalid x").is_none());
    assert!(handle_prompt(levels, "ac 12 34").is_none());
    assert!(handle_prompt(levels, "ac 12.34").is_none());

    assert!(handle_prompt(levels, "ac 2d6+1 fire").is_none());
    assert!(handle_prompt(levels, "damage 1d4+1").is_none());
    assert!(handle_prompt(levels, "1d6+2").is_none());
}

#[test]
fn reject_out_of_range_prompt_values() {
    let levels = Levels::new(1, 2).unwrap();

    // A plain value beyond the supported magnitude is refused rather
    // than scaled.
    assert!(handle_prompt(levels, "ac 100000001").is_none());
    assert!(handle_prompt(levels, "ac -100000001").is_none());
    assert!(handle_prompt(levels, "ac 100000000").is_some());
}

#[test]
fn reject_non_positive_damage_aggregate() {
    let levels = Levels::new(1, 2).unwrap();

    // An aggregate of zero cannot be redistributed over components.
    assert!(handle_prompt(levels, "strike-damage 0 fire").is_none());
}

#[test]
fn scale_perception() {
    let levels = Levels::new(19, 15).unwrap();

    let result = handle_prompt(levels, "perception +29").unwrap().result;
    assert_eq!(result.stat.kind, StatType::Perception);
    assert_eq!(result.stat.value.units(), 230_000_000);
    assert_eq!(result.proficiency, Proficiency::Low);
    assert_eq!(result.method, ScaleMethod::Exact);
}

#[test]
fn scale_skill() {
    let levels = Levels::new(3, 4).unwrap();

    let result = handle_prompt(levels, "skill +13").unwrap().result;
    assert_eq!(result.stat.kind, StatType::Skill);
    assert_eq!(result.stat.value.units(), 150_000_000);
    assert_eq!(result.proficiency, Proficiency::Extreme);
    assert_eq!(result.method, ScaleMethod::Exact);
}

#[test]
fn scale_armor_class() {
    let levels = Levels::new(3, 14).unwrap();

    let result = handle_prompt(levels, "ac 18").unwrap().result;
    assert_eq!(result.stat.kind, StatType::ArmorClass);
    assert_eq!(result.stat.value.units(), 350_000_000);
    assert_eq!(result.proficiency, Proficiency::Moderate);
    assert_eq!(result.method, ScaleMethod::Exact);
}

#[test]
fn scale_saving_throw() {
    let levels = Levels::new(6, 0).unwrap();

    let result = handle_prompt(levels, "save +11").unwrap().result;
    assert_eq!(result.stat.kind, StatType::SavingThrow);
    assert_eq!(result.stat.value.units(), 30_000_000);
    assert_eq!(result.proficiency, Proficiency::Low);
    assert_eq!(result.method, ScaleMethod::Exact);
}

#[test]
fn scale_hit_points() {
    let levels = Levels::new(24, 10).unwrap();

    let result = handle_prompt(levels, "hp 367").unwrap().result;
    assert_eq!(result.stat.kind, StatType::HitPoints);
    assert_eq!(result.stat.value.units(), 1_270_000_000);
    assert_eq!(result.proficiency, Proficiency::Low);
    assert_eq!(result.method, ScaleMethod::Exact);
}

#[test]
fn scale_resistance() {
    let levels = Levels::new(7, 12).unwrap();

    let result = handle_prompt(levels, "resistance 10").unwrap().result;
    assert_eq!(result.stat.kind, StatType::Resistance);
    assert_eq!(result.stat.value.units(), 150_000_000);
    assert_eq!(result.proficiency, Proficiency::High);
    assert_eq!(result.method, ScaleMethod::Exact);
}

#[test]
fn scale_weakness() {
    let levels = Levels::new(8, 23).unwrap();

    let result = handle_prompt(levels, "weakness 6").unwrap().result;
    assert_eq!(result.stat.kind, StatType::Weakness);
    assert_eq!(result.stat.value.units(), 130_000_000);
    assert_eq!(result.proficiency, Proficiency::Low);
    assert_eq!(result.method, ScaleMethod::Exact);
}

#[test]
fn scale_strike_attack_bonus() {
    let levels = Levels::new(11, 19).unwrap();

    let result = handle_prompt(levels, "strike-attack +24").unwrap().result;
    assert_eq!(result.stat.kind, StatType::StrikeAttackBonus);
    assert_eq!(result.stat.value.units(), 360_000_000);
    assert_eq!(result.proficiency, Proficiency::High);
    assert_eq!(result.method, ScaleMethod::Exact);
}

#[test]
fn scale_strike_damage() {
    let levels = Levels::new(7, 17).unwrap();

    let outcome = handle_prompt(levels, "strike-damage 2d12+12 piercing").unwrap();
    let result = outcome.result;
    assert_eq!(result.stat.kind, StatType::StrikeDamage);
    assert_eq!(result.stat.value.units(), 500_000_000);
    assert_eq!(result.proficiency, Proficiency::Extreme);
    assert_eq!(result.method, ScaleMethod::Exact);

    let scaled = outcome.scaled_damage.unwrap();
    assert_eq!(scaled.components.len(), 1);
    assert_eq!(scaled.components[0].damage_type, "piercing");
    assert_eq!(scaled.total_average_value().units(), 500_000_000);
}

#[test]
fn scale_spell_dc() {
    let levels = Levels::new(22, 20).unwrap();

    let result = handle_prompt(levels, "spell-dc 50").unwrap().result;
    assert_eq!(result.stat.kind, StatType::SpellDC);
    assert_eq!(result.stat.value.units(), 470_000_000);
    assert_eq!(result.proficiency, Proficiency::Extreme);
    assert_eq!(result.method, ScaleMethod::Exact);
}

#[test]
fn scale_spell_attack_bonus() {
    let levels = Levels::new(12, 5).unwrap();

    let result = handle_prompt(levels, "spell-attack +21").unwrap().result;
    assert_eq!(result.stat.kind, StatType::SpellAttackBonus);
    assert_eq!(result.stat.value.units(), 110_000_000);
    assert_eq!(result.proficiency, Proficiency::Moderate);
    assert_eq!(result.method, ScaleMethod::Exact);
}

#[test]
fn scale_unlimited_area_damage() {
    let levels = Levels::new(6, 14).unwrap();

    let result = handle_prompt(levels, "unlimited-area-damage 4d6 fire").unwrap().result;
    assert_eq!(result.stat.kind, StatType::UnlimitedAreaDamage);
    assert_eq!(result.stat.value.units(), 260_000_000);
    assert_eq!(result.proficiency, Proficiency::Moderate);
    assert_eq!(result.method, ScaleMethod::Exact);
}

#[test]
fn scale_limited_area_damage() {
    let levels = Levels::new(17, 12).unwrap();

    let result = handle_prompt(levels, "limited-area-damage 18d6 cold").unwrap().result;
    assert_eq!(result.stat.kind, StatType::LimitedAreaDamage);
    assert_eq!(result.stat.value.units(), 460_000_000);
    assert_eq!(result.proficiency, Proficiency::Moderate);
    assert_eq!(result.method, ScaleMethod::Exact);
}
