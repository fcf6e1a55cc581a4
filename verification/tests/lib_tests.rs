use stronk::fixed::Fixed;
use stronk::levels::Levels;
use stronk::scale_statistic;
use stronk::scaling::ScaleMethod;
use stronk::statistic::{StatType, Statistic};
use stronk::tables::Proficiency;

#[test]
fn lib_armor_class_exact_scale() {
    let levels = Levels::new(4, 17).unwrap();
    let stat = Statistic::new(StatType::ArmorClass, Fixed::from_int(21));

    let result = scale_statistic(levels, stat);

    assert_eq!(result.stat.kind, StatType::ArmorClass);
    assert_eq!(result.stat.value.units(), 400_000_000);
    assert_eq!(result.proficiency, Proficiency::High);
    assert_eq!(result.method, ScaleMethod::Exact);
}

#[test]
fn lib_armor_class_interpolate() {
    let levels = Levels::new(11, 2).unwrap();
    let stat = Statistic::new(StatType::ArmorClass, Fixed::from_int(32));

    let result = scale_statistic(levels, stat);

    assert_eq!(result.stat.kind, StatType::ArmorClass);
    assert_eq!(result.stat.value.units(), 190_000_000);
    assert_eq!(result.proficiency, Proficiency::High);
    assert_eq!(result.method, ScaleMethod::Interpolated);

    let stat = Statistic::new(StatType::ArmorClass, Fixed::from_int(33));
    let result = scale_statistic(levels, stat);

    assert_eq!(result.stat.kind, StatType::ArmorClass);
    assert_eq!(result.stat.value.units(), 200_000_000);
    assert_eq!(result.proficiency, Proficiency::High);
    assert_eq!(result.method, ScaleMethod::Interpolated);
}

#[test]
fn lib_armor_class_extrapolate() {
    let levels = Levels::new(5, 9).unwrap();
    let stat = Statistic::new(StatType::ArmorClass, Fixed::from_int(17));

    let result = scale_statistic(levels, stat);

    assert_eq!(result.stat.kind, StatType::ArmorClass);
    assert_eq!(result.stat.value.units(), 230_000_000);
    assert_eq!(result.proficiency, Proficiency::Low);
    assert_eq!(result.method, ScaleMethod::Extrapolated);
}
