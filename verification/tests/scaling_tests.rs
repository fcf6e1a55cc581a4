use stronk::damage::{Damage, DamageComponent};
use stronk::fixed::Fixed;
use stronk::levels::Levels;
use stronk::scaling::{
    extrapolate, interpolate, scale_all_damage_components, scale_damage_components,
    scale_first_damage_component, scale_statistic, ScaleMethod,
};
use stronk::statistic::{StatType, Statistic};
use stronk::tables::Proficiency;

fn fx(n: i64) -> Fixed {
    Fixed::from_int(n)
}

fn fu(units: i64) -> Fixed {
    Fixed::from_units(units)
}

#[test]
fn test_interpolate() {
    // identity map
    assert_eq!(interpolate(fx(0), fx(1), fx(0), fx(1), fu(5_000_000)).units(), 5_000_000);
    assert_eq!(interpolate(fx(1), fx(2), fx(1), fx(2), fu(15_000_000)).units(), 15_000_000);
    assert_eq!(interpolate(fx(2), fx(4), fx(2), fx(4), fx(3)).units(), 30_000_000);

    // equal interval up
    assert_eq!(interpolate(fx(2), fx(5), fx(7), fx(10), fx(3)).units(), 80_000_000);

    // equal interval down
    assert_eq!(interpolate(fx(12), fx(16), fx(4), fx(8), fx(15)).units(), 70_000_000);

    // increasing interval
    assert_eq!(interpolate(fx(5), fx(8), fx(10), fx(16), fx(7)).units(), 140_000_000);
    assert_eq!(interpolate(fx(1), fx(3), fx(1), fx(2), fx(2)).units(), 15_000_000);

    // decreasing interval: four thirds and five thirds, rounded down
    assert_eq!(interpolate(fx(3), fx(6), fx(1), fx(2), fx(4)).units(), 13_333_333);
    assert_eq!(interpolate(fx(3), fx(6), fx(1), fx(2), fx(5)).units(), 16_666_666);

    // negative intervals
    assert_eq!(interpolate(fx(-4), fx(-2), fx(-10), fx(-6), fx(-3)).units(), -80_000_000);
    assert_eq!(interpolate(fx(-4), fx(-2), fx(6), fx(10), fx(-3)).units(), 80_000_000);
    assert_eq!(interpolate(fx(2), fx(4), fx(-10), fx(-6), fx(3)).units(), -80_000_000);

    // map to point-b
    assert_eq!(interpolate(fx(1), fx(5), fx(4), fx(4), fx(2)).units(), 40_000_000);
    assert_eq!(interpolate(fx(1), fx(5), fx(7), fx(7), fx(4)).units(), 70_000_000);
    assert_eq!(interpolate(fx(1), fx(5), fx(0), fx(0), fx(4)).units(), 0);
}

#[test]
fn test_extrapolate() {
    assert_eq!(extrapolate(fx(0), fx(1), fx(2)).units(), 30_000_000);
    assert_eq!(extrapolate(fx(0), fx(1), fx(-2)).units(), -10_000_000);

    assert_eq!(extrapolate(fx(9), fx(3), fx(14)).units(), 80_000_000);
    assert_eq!(extrapolate(fx(9), fx(3), fx(2)).units(), -40_000_000);

    assert_eq!(extrapolate(fx(-5), fx(-2), fx(-3)).units(), 0);
    assert_eq!(extrapolate(fx(-5), fx(-2), fx(-7)).units(), -40_000_000);

    assert_eq!(extrapolate(fx(-4), fx(-8), fx(-1)).units(), -50_000_000);
    assert_eq!(extrapolate(fx(-4), fx(-8), fx(-7)).units(), -110_000_000);
}

#[test]
fn test_scale_all_damage_components() {
    let mut damage = Damage::new();

    damage.components.push(DamageComponent {
        average_value: fx(15),
        damage_type: String::from("bludgeoning"),
    });

    let target_total = fx(12);
    let scaled = scale_all_damage_components(&damage, target_total);
    assert_eq!(scaled.total_average_value().units(), 120_000_000);
    assert_eq!(scaled.components[0].average_value.units(), 120_000_000);

    damage.components.push(DamageComponent {
        average_value: fx(5),
        damage_type: String::from("fire"),
    });

    damage.components.push(DamageComponent {
        average_value: fx(1),
        damage_type: String::from("void"),
    });

    let scaled = scale_all_damage_components(&damage, target_total);
    // Each component keeps its share of the total, rounded down, so
    // the rescaled total may fall a few units short of the target.
    assert!((scaled.total_average_value().units() - 120_000_000).abs() < 10);
    assert_eq!(scaled.components[0].average_value.units(), 85_714_285);
    assert_eq!(scaled.components[1].average_value.units(), 28_571_428);
    assert_eq!(scaled.components[2].average_value.units(), 5_714_285);
}

#[test]
fn test_scale_first_damage_component() {
    let mut damage = Damage::new();

    damage.components.push(DamageComponent {
        average_value: fx(15),
        damage_type: String::from("bludgeoning"),
    });

    let target_total = fx(12);
    let scaled = scale_first_damage_component(&damage, target_total);
    assert_eq!(scaled.total_average_value().units(), 120_000_000);
    assert_eq!(scaled.components[0].average_value.units(), 120_000_000);

    damage.components.push(DamageComponent {
        average_value: fx(5),
        damage_type: String::from("fire"),
    });

    damage.components.push(DamageComponent {
        average_value: fx(1),
        damage_type: String::from("void"),
    });

    let scaled = scale_first_damage_component(&damage, target_total);
    assert_eq!(scaled.total_average_value().units(), 120_000_000);
    assert_eq!(scaled.components[0].average_value.units(), 60_000_000);
    assert_eq!(scaled.components[1].average_value.units(), 50_000_000);
    assert_eq!(scaled.components[2].average_value.units(), 10_000_000);
}

#[test]
fn scale_damage_components_switches_to_proportional() {
    let mut damage = Damage::new();

    damage.components.push(DamageComponent {
        average_value: fx(15),
        damage_type: String::from("bludgeoning"),
    });
    damage.components.push(DamageComponent {
        average_value: fx(5),
        damage_type: String::from("fire"),
    });
    damage.components.push(DamageComponent {
        average_value: fx(1),
        damage_type: String::from("void"),
    });

    // A decrease to 12 fits in the first component alone.
    let scaled = scale_damage_components(&damage, fx(12));
    assert_eq!(scaled.components[0].average_value.units(), 60_000_000);
    assert_eq!(scaled.components[1].average_value.units(), 50_000_000);
    assert_eq!(scaled.components[2].average_value.units(), 10_000_000);

    // A decrease to 5 would drive the first component below zero, so
    // every component is scaled proportionally: 15/21, 5/21 and 1/21
    // of the new total.
    let scaled = scale_damage_components(&damage, fx(5));
    assert_eq!(scaled.components[0].average_value.units(), 35_714_285);
    assert_eq!(scaled.components[1].average_value.units(), 11_904_761);
    assert_eq!(scaled.components[2].average_value.units(), 2_380_952);
}

#[test]
fn scaling_armor_class_exact_scale() {
    let levels = Levels::new(4, 17).unwrap();
    let stat = Statistic::new(StatType::ArmorClass, fx(21));

    let result = scale_statistic(levels, stat);

    assert_eq!(result.stat.kind, StatType::ArmorClass);
    assert_eq!(result.stat.value.units(), 400_000_000);
    assert_eq!(result.proficiency, Proficiency::High);
    assert_eq!(result.method, ScaleMethod::Exact);
}

#[test]
fn scaling_armor_class_interpolate() {
    let levels = Levels::new(11, 2).unwrap();
    let stat = Statistic::new(StatType::ArmorClass, fx(32));

    let result = scale_statistic(levels, stat);

    assert_eq!(result.stat.kind, StatType::ArmorClass);
    assert_eq!(result.stat.value.units(), 190_000_000);
    assert_eq!(result.proficiency, Proficiency::High);
    assert_eq!(result.method, ScaleMethod::Interpolated);

    let stat = Statistic::new(StatType::ArmorClass, fx(33));
    let result = scale_statistic(levels, stat);

    assert_eq!(result.stat.kind, StatType::ArmorClass);
    assert_eq!(result.stat.value.units(), 200_000_000);
    assert_eq!(result.proficiency, Proficiency::High);
    assert_eq!(result.method, ScaleMethod::Interpolated);
}

#[test]
fn scaling_armor_class_extrapolate() {
    let levels = Levels::new(5, 9).unwrap();
    let stat = Statistic::new(StatType::ArmorClass, fx(17));

    let result = scale_statistic(levels, stat);

    assert_eq!(result.stat.kind, StatType::ArmorClass);
    assert_eq!(result.stat.value.units(), 230_000_000);
    assert_eq!(result.proficiency, Proficiency::Low);
    assert_eq!(result.method, ScaleMethod::Extrapolated);
}

#[test]
fn strike_damage_exact_scale() {
    let levels = Levels::new(8, 13).unwrap();
    let stat = Statistic::new(StatType::StrikeDamage, fx(22));

    let result = scale_statistic(levels, stat);

    assert_eq!(result.stat.kind, StatType::StrikeDamage);
    assert_eq!(result.stat.value.units(), 320_000_000);
    assert_eq!(result.proficiency, Proficiency::High);
    assert_eq!(result.method, ScaleMethod::Exact);
}

#[test]
fn strike_damage_interpolate() {
    let levels = Levels::new(14, 6).unwrap();
    let stat = Statistic::new(StatType::StrikeDamage, fx(30));

    let result = scale_statistic(levels, stat);

    assert_eq!(result.stat.kind, StatType::StrikeDamage);
    assert_eq!(result.stat.value.units(), 160_000_000);
    assert_eq!(result.proficiency, Proficiency::Moderate);
    assert_eq!(result.method, ScaleMethod::Interpolated);
}

#[test]
fn strike_damage_extrapolate() {
    let levels = Levels::new(18, 24).unwrap();
    let stat = Statistic::new(StatType::StrikeDamage, fx(57));

    let result = scale_statistic(levels, stat);

    assert_eq!(result.stat.kind, StatType::StrikeDamage);
    assert_eq!(result.stat.value.units(), 720_000_000);
    assert_eq!(result.proficiency, Proficiency::Extreme);
    assert_eq!(result.method, ScaleMethod::Extrapolated);
}
