use stronk::damage::{
    build_damage_expression, parse_damage, parse_damage_component, parse_damage_expression,
    parse_dice_expression, parse_flat_modifier,
};
use stronk::fixed::SCALE;
use stronk::tables::Proficiency;

#[test]
fn accept_valid_flat_modifier() {
    assert_eq!(parse_flat_modifier("1").unwrap().units(), 10_000_000);
    assert_eq!(parse_flat_modifier("1234").unwrap().units(), 12_340_000_000);
}

#[test]
fn reject_invalid_flat_modifier() {
    assert!(parse_flat_modifier("").is_none());
    assert!(parse_flat_modifier("d").is_none());
    assert!(parse_flat_modifier("1d").is_none());
    assert!(parse_flat_modifier("d4").is_none());
    assert!(parse_flat_modifier("1d4").is_none());
    assert!(parse_flat_modifier("x").is_none());

    assert!(parse_flat_modifier("-1").is_none());
}

#[test]
fn accept_valid_dice_expression() {
    assert_eq!(parse_dice_expression("1d4").unwrap().units(), 25_000_000);
    assert_eq!(parse_dice_expression("1d6").unwrap().units(), 35_000_000);
    assert_eq!(parse_dice_expression("1d8").unwrap().units(), 45_000_000);
    assert_eq!(parse_dice_expression("1d10").unwrap().units(), 55_000_000);
    assert_eq!(parse_dice_expression("1d12").unwrap().units(), 65_000_000);

    assert_eq!(parse_dice_expression("3d4").unwrap().units(), 75_000_000);
    assert_eq!(parse_dice_expression("7d6").unwrap().units(), 245_000_000);
    assert_eq!(parse_dice_expression("12d8").unwrap().units(), 540_000_000);
    assert_eq!(parse_dice_expression("10d10").unwrap().units(), 550_000_000);
    assert_eq!(parse_dice_expression("1234d12").unwrap().units(), 80_210_000_000);
}

#[test]
fn reject_invalid_dice_expression() {
    assert!(parse_dice_expression("").is_none());
    assert!(parse_dice_expression("4").is_none());
    assert!(parse_dice_expression("d").is_none());
    assert!(parse_dice_expression("4d").is_none());
    assert!(parse_dice_expression("d4").is_none());
    assert!(parse_dice_expression("dd").is_none());
    assert!(parse_dice_expression("4dd4").is_none());
    assert!(parse_dice_expression("4d4d4").is_none());

    assert!(parse_dice_expression("1d5").is_none());
    assert!(parse_dice_expression("1d20").is_none());

    assert!(parse_dice_expression("1x4").is_none());
    assert!(parse_dice_expression("xd4").is_none());
    assert!(parse_dice_expression("4dx").is_none());
    assert!(parse_dice_expression("xdy").is_none());

    assert!(parse_dice_expression("1 d 4").is_none());
    assert!(parse_dice_expression("1 d4").is_none());
    assert!(parse_dice_expression("1d 4").is_none());
    assert!(parse_dice_expression("1 4").is_none());
}

#[test]
fn accept_valid_damage_expression() {
    assert_eq!(parse_damage_expression("2").unwrap().units(), 20_000_000);
    assert_eq!(parse_damage_expression("1d4").unwrap().units(), 25_000_000);
    assert_eq!(parse_damage_expression("2d6+7").unwrap().units(), 140_000_000);
    assert_eq!(parse_damage_expression("12d10+64").unwrap().units(), 1_300_000_000);
    assert_eq!(parse_damage_expression("1d4 + 2").unwrap().units(), 45_000_000);
    assert_eq!(parse_damage_expression("3d8 + 6 + 2").unwrap().units(), 215_000_000);
    assert_eq!(parse_damage_expression("3d8 + 1d4 + 15").unwrap().units(), 310_000_000);
    assert_eq!(parse_damage_expression("2+1d4").unwrap().units(), 45_000_000);
}

#[test]
fn reject_invalid_damage_expression() {
    assert!(parse_damage_expression("2d6+").is_none());
    assert!(parse_damage_expression("+2d6").is_none());
    assert!(parse_damage_expression("1d6++1d4").is_none());
    assert!(parse_damage_expression("1d6 fire").is_none());

    assert!(parse_damage_expression("1d8 - 3").is_none());
}

#[test]
fn accept_valid_damage_component() {
    let component = parse_damage_component("2d6 + 7 fire").unwrap();
    assert_eq!(component.average_value.units(), 140_000_000);
    assert_eq!(component.damage_type, "fire");

    let component = parse_damage_component("1d4+1 untyped").unwrap();
    assert_eq!(component.average_value.units(), 35_000_000);
    assert_eq!(component.damage_type, "untyped");
}

#[test]
fn reject_invalid_damage_component() {
    assert!(parse_damage_component("1d4 + 1").is_none());
    assert!(parse_damage_component("cold").is_none());
    assert!(parse_damage_component("1d4 + 1 fire cold").is_none());
    assert!(parse_damage_component("fire 1d4 + 1").is_none());
    assert!(parse_damage_component("fire 1d4 + 1 cold").is_none());

    assert!(parse_damage_component("3d6 + 2 persistent fire").is_none());
}

#[test]
fn accept_valid_damage() {
    let damage = parse_damage("3d12+20 bludgeoning").unwrap();
    assert_eq!(damage.components.len(), 1);
    assert_eq!(damage.components[0].average_value.units(), 395_000_000);
    assert_eq!(damage.components[0].damage_type, "bludgeoning");
    assert_eq!(damage.total_average_value().units(), 395_000_000);

    let damage = parse_damage("2d8+11 piercing plus 1d6 fire").unwrap();
    assert_eq!(damage.components.len(), 2);
    assert_eq!(damage.components[0].average_value.units(), 200_000_000);
    assert_eq!(damage.components[0].damage_type, "piercing");
    assert_eq!(damage.components[1].average_value.units(), 35_000_000);
    assert_eq!(damage.components[1].damage_type, "fire");
    assert_eq!(damage.total_average_value().units(), 235_000_000);

    let damage =
        parse_damage("3d10+15 slashing plus 2d6 + 1 cold plus 1d4 electricity plus 1 void")
            .unwrap();
    assert_eq!(damage.components.len(), 4);
    assert_eq!(damage.components[0].average_value.units(), 315_000_000);
    assert_eq!(damage.components[0].damage_type, "slashing");
    assert_eq!(damage.components[1].average_value.units(), 80_000_000);
    assert_eq!(damage.components[1].damage_type, "cold");
    assert_eq!(damage.components[2].average_value.units(), 25_000_000);
    assert_eq!(damage.components[2].damage_type, "electricity");
    assert_eq!(damage.components[3].average_value.units(), 10_000_000);
    assert_eq!(damage.components[3].damage_type, "void");
    assert_eq!(damage.total_average_value().units(), 430_000_000);
}

#[test]
fn reject_invalid_damage() {
    assert!(parse_damage("1d4 piercing plus").is_none());
    assert!(parse_damage("plus 1d4 piercing").is_none());
    assert!(parse_damage("2d6+5 piercing plus 1d6 persistent fire").is_none());
    assert!(parse_damage("2d8+9 piercing + 1d10 cold").is_none());
}

#[test]
fn test_damage_expression_builder_correctness() {
    let proficiencies = vec![
        Proficiency::Low,
        Proficiency::Moderate,
        Proficiency::High,
        Proficiency::Extreme,
    ];

    for prof in &proficiencies {
        // From 1.0 to 75.0 points in steps of a quarter point.
        let mut average_units: i64 = 10_000_000;
        while average_units <= 750_000_000 {
            let average = stronk::fixed::Fixed::from_units(average_units);
            let expression = build_damage_expression(average, *prof);
            let parsed = parse_damage_expression(&expression)
                .expect("the generated expression should always be valid");

            assert!(parsed.units() <= average_units);
            assert!(average_units - parsed.units() < SCALE);

            average_units += 2_500_000;
        }
    }
}
