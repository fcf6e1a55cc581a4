use stronk::color::{color_text, Color};
use stronk::damage::{build_damage_expression, parse_damage_expression};
use stronk::fixed::Fixed;
use stronk::levels::Levels;
use stronk::logging::{format_log_line, LogLevel};
use stronk::prompt::{parse_stat_kind, parse_stat_value_integer};
use stronk::statistic::{is_bonus, stat_type_label, StatType};
use stronk::tables::Proficiency;

#[test]
fn levels_are_validated() {
    let levels = Levels::new(1, 2).unwrap();
    assert_eq!(levels.current, 1);
    assert_eq!(levels.target, 2);

    assert!(Levels::new(-1, 24).is_some());
    assert!(Levels::new(24, -1).is_some());
    assert!(Levels::new(-2, 2).is_none());
    assert!(Levels::new(1, 25).is_none());
    assert!(Levels::new(-2, 25).is_none());
}

#[test]
fn builder_uses_single_die_for_small_targets() {
    // 2.5 is exactly one d4.
    let expr = build_damage_expression(Fixed::from_units(25_000_000), Proficiency::Low);
    assert_eq!(expr, "1d4");
}

#[test]
fn builder_falls_back_to_flat_number() {
    // Below the average of a single d4 no dice combination fits.
    let expr = build_damage_expression(Fixed::from_units(20_000_000), Proficiency::Low);
    assert_eq!(expr, "2");

    let expr = build_damage_expression(Fixed::from_units(5_000_000), Proficiency::Extreme);
    assert_eq!(expr, "0");
}

#[test]
fn builder_prefers_balanced_combination() {
    // At 15.25 both 2d4+10 and 2d6+8 leave a residual gap of 0.25;
    // 2d6+8 has the flat modifier closer to the dice average and wins.
    let expr = build_damage_expression(Fixed::from_units(152_500_000), Proficiency::Low);
    assert_eq!(expr, "2d6+8");
}

#[test]
fn builder_output_reparses_exactly() {
    let expr = build_damage_expression(Fixed::from_int(15), Proficiency::Extreme);
    let parsed = parse_damage_expression(&expr).unwrap();
    assert!(parsed.units() <= 150_000_000);
    assert!(150_000_000 - parsed.units() < 10_000_000);
}

#[test]
fn stat_kinds_parse_from_keywords() {
    assert_eq!(parse_stat_kind("perception"), Some(StatType::Perception));
    assert_eq!(parse_stat_kind("per"), Some(StatType::Perception));
    assert_eq!(parse_stat_kind("skill"), Some(StatType::Skill));
    assert_eq!(parse_stat_kind("ac"), Some(StatType::ArmorClass));
    assert_eq!(parse_stat_kind("fortitude"), Some(StatType::SavingThrow));
    assert_eq!(parse_stat_kind("hp"), Some(StatType::HitPoints));
    assert_eq!(parse_stat_kind("dmg"), Some(StatType::StrikeDamage));
    assert_eq!(parse_stat_kind("spell-dc"), Some(StatType::SpellDC));
    assert_eq!(parse_stat_kind("unknown"), None);
    assert_eq!(parse_stat_kind(""), None);
}

#[test]
fn stat_values_parse_as_signed_integers() {
    assert_eq!(parse_stat_value_integer("12"), Some(12));
    assert_eq!(parse_stat_value_integer("+29"), Some(29));
    assert_eq!(parse_stat_value_integer("-34"), Some(-34));
    assert_eq!(parse_stat_value_integer("0"), Some(0));
    assert_eq!(parse_stat_value_integer(""), None);
    assert_eq!(parse_stat_value_integer("x"), None);
    assert_eq!(parse_stat_value_integer("12.34"), None);
    assert_eq!(parse_stat_value_integer("+-1"), None);
    assert_eq!(parse_stat_value_integer("12 34"), None);
}

#[test]
fn bonus_statistics_are_marked() {
    assert!(is_bonus(StatType::Perception));
    assert!(is_bonus(StatType::Skill));
    assert!(is_bonus(StatType::SavingThrow));
    assert!(is_bonus(StatType::StrikeAttackBonus));
    assert!(is_bonus(StatType::SpellAttackBonus));

    assert!(!is_bonus(StatType::ArmorClass));
    assert!(!is_bonus(StatType::HitPoints));
    assert!(!is_bonus(StatType::StrikeDamage));
}

#[test]
fn stat_type_labels() {
    assert_eq!(stat_type_label(StatType::ArmorClass), "AC");
    assert_eq!(stat_type_label(StatType::StrikeDamage), "strike-damage");
    assert_eq!(stat_type_label(StatType::Perception), "perception");
}

#[test]
fn color_text_wraps_in_control_sequences() {
    assert_eq!(color_text("hello", Color::Red), "\u{1b}[31mhello\u{1b}[0m");
    assert_eq!(color_text("hi", Color::BrightCyan), "\u{1b}[96mhi\u{1b}[0m");
    assert_eq!(color_text("x", Color::Rgb(1, 22, 255)), "\u{1b}[38;2;1;22;255mx\u{1b}[0m");
}

#[test]
fn log_lines_carry_severity_tags() {
    assert_eq!(format_log_line(LogLevel::Info, "plain"), "plain");
    assert_eq!(
        format_log_line(LogLevel::Warning, "watch out"),
        "\u{1b}[93mwarning\u{1b}[0m: watch out"
    );
    assert_eq!(
        format_log_line(LogLevel::Error, "broken"),
        "\u{1b}[91merror\u{1b}[0m: broken"
    );
}
