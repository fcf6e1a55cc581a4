use stronk::levels::NUM_LEVELS;
use stronk::statistic::StatType;
use stronk::tables::{get_table_for_statistic, Proficiency, StatTable};

/// The shape invariants are proved of every embedded table; this
/// re-checks them on the concrete data from outside.
fn validate_table(table: StatTable) {
    assert_eq!(table.values.len(), NUM_LEVELS);

    let columns = table.values[0].len();
    for row in &table.values {
        assert_eq!(row.len(), columns);
    }

    for i in 0..NUM_LEVELS - 1 {
        for j in 0..columns - 1 {
            assert!(table.values[i][j] <= table.values[i][j + 1]);
            assert!(table.values[i][j] <= table.values[i + 1][j]);
        }
    }

    assert_eq!(table.proficiencies.len(), columns);

    for j in 0..columns - 1 {
        assert!(table.proficiencies[j].rank() <= table.proficiencies[j + 1].rank());
    }
}

#[test]
fn validate_perception_table() {
    validate_table(get_table_for_statistic(StatType::Perception));
}

#[test]
fn validate_skills_table() {
    validate_table(get_table_for_statistic(StatType::Skill));
}

#[test]
fn validate_armor_class_table() {
    validate_table(get_table_for_statistic(StatType::ArmorClass));
}

#[test]
fn validate_saving_throws_table() {
    validate_table(get_table_for_statistic(StatType::SavingThrow));
}

#[test]
fn validate_hit_points_table() {
    validate_table(get_table_for_statistic(StatType::HitPoints));
}

#[test]
fn validate_resistance_weakness_table() {
    validate_table(get_table_for_statistic(StatType::Resistance));
    validate_table(get_table_for_statistic(StatType::Weakness));

    // Resistance and Weakness share one reference table.
    let resistance = get_table_for_statistic(StatType::Resistance);
    let weakness = get_table_for_statistic(StatType::Weakness);
    assert_eq!(resistance.values, weakness.values);
    assert_eq!(resistance.proficiencies, weakness.proficiencies);
}

#[test]
fn validate_strike_attack_bonus_table() {
    validate_table(get_table_for_statistic(StatType::StrikeAttackBonus));
}

#[test]
fn validate_strike_damage_table() {
    validate_table(get_table_for_statistic(StatType::StrikeDamage));
}

#[test]
fn validate_spell_dc_table() {
    validate_table(get_table_for_statistic(StatType::SpellDC));
}

#[test]
fn validate_spell_attack_bonus_table() {
    validate_table(get_table_for_statistic(StatType::SpellAttackBonus));
}

#[test]
fn validate_unlimited_area_damage_table() {
    validate_table(get_table_for_statistic(StatType::UnlimitedAreaDamage));
}

#[test]
fn validate_limited_area_damage_table() {
    validate_table(get_table_for_statistic(StatType::LimitedAreaDamage));
}

#[test]
fn proficiency_ranks_are_ordered() {
    assert!(Proficiency::Terrible.rank() < Proficiency::Low.rank());
    assert!(Proficiency::Low.rank() < Proficiency::Moderate.rank());
    assert!(Proficiency::Moderate.rank() < Proficiency::High.rank());
    assert!(Proficiency::High.rank() < Proficiency::Extreme.rank());
}
