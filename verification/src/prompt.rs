//! The prompt pipeline: one line of text names a statistic and its
//! current value; the library parses it, scales it, and for damage
//! statistics redistributes the scaled total over the components.
//! Printing the outcome is left to the embedding program.

use vstd::prelude::*;
use crate::damage::{
    parse_damage, spec_damage_fits, spec_damage_pairs, spec_pairs_total, Damage,
};
use crate::fixed::{Fixed, MAX_UNITS, SCALE};
use crate::levels::Levels;
use crate::scaling::{
    lemma_scale_result_value, scale_damage_components, scale_statistic, spec_scale_result,
    spec_scale_value, ScaleResult,
};
use crate::statistic::{Statistic, StatType};
use crate::tables::{spec_table_proficiencies, spec_table_values};
use crate::text::{
    chars_of, digits_val, eq_str, find_first, is_first_occurrence, is_uint_literal, lower_seq,
    parse_uint, spec_trim, string_from_chars, subvec, to_lower_vec, trim_vec,
};

verus! {

/// The statistic a prompt keyword names.
pub open spec fn spec_parse_stat_kind(s: Seq<char>) -> Option<StatType> {
    if s == "perception"@ || s == "per"@ {
        Some(StatType::Perception)
    } else if s == "skill"@ {
        Some(StatType::Skill)
    } else if s == "ac"@ {
        Some(StatType::ArmorClass)
    } else if s == "save"@ || s == "fortitude"@ || s == "fort"@ || s == "reflex"@ || s == "ref"@
        || s == "will"@ {
        Some(StatType::SavingThrow)
    } else if s == "hp"@ {
        Some(StatType::HitPoints)
    } else if s == "resistance"@ {
        Some(StatType::Resistance)
    } else if s == "weakness"@ {
        Some(StatType::Weakness)
    } else if s == "strike-attack"@ || s == "att"@ {
        Some(StatType::StrikeAttackBonus)
    } else if s == "strike-damage"@ || s == "dmg"@ {
        Some(StatType::StrikeDamage)
    } else if s == "spell-dc"@ {
        Some(StatType::SpellDC)
    } else if s == "spell-attack"@ {
        Some(StatType::SpellAttackBonus)
    } else if s == "unlimited-area-damage"@ {
        Some(StatType::UnlimitedAreaDamage)
    } else if s == "limited-area-damage"@ {
        Some(StatType::LimitedAreaDamage)
    } else {
        None
    }
}

fn parse_stat_kind_chars(v: &Vec<char>) -> (r: Option<StatType>)
    ensures
        r == spec_parse_stat_kind(v@),
{
    if eq_str(v, "perception") || eq_str(v, "per") {
        Some(StatType::Perception)
    } else if eq_str(v, "skill") {
        Some(StatType::Skill)
    } else if eq_str(v, "ac") {
        Some(StatType::ArmorClass)
    } else if eq_str(v, "save") || eq_str(v, "fortitude") || eq_str(v, "fort")
        || eq_str(v, "reflex") || eq_str(v, "ref") || eq_str(v, "will") {
        Some(StatType::SavingThrow)
    } else if eq_str(v, "hp") {
        Some(StatType::HitPoints)
    } else if eq_str(v, "resistance") {
        Some(StatType::Resistance)
    } else if eq_str(v, "weakness") {
        Some(StatType::Weakness)
    } else if eq_str(v, "strike-attack") || eq_str(v, "att") {
        Some(StatType::StrikeAttackBonus)
    } else if eq_str(v, "strike-damage") || eq_str(v, "dmg") {
        Some(StatType::StrikeDamage)
    } else if eq_str(v, "spell-dc") {
        Some(StatType::SpellDC)
    } else if eq_str(v, "spell-attack") {
        Some(StatType::SpellAttackBonus)
    } else if eq_str(v, "unlimited-area-damage") {
        Some(StatType::UnlimitedAreaDamage)
    } else if eq_str(v, "limited-area-damage") {
        Some(StatType::LimitedAreaDamage)
    } else {
        None
    }
}

/// The statistic a prompt keyword names.
pub fn parse_stat_kind(kind: &str) -> (r: Option<StatType>)
    ensures
        r == spec_parse_stat_kind(kind@),
{
    let v = chars_of(kind);
    parse_stat_kind_chars(&v)
}

/// A signed decimal integer: an optional sign followed by digits.
pub open spec fn spec_parse_int(s: Seq<char>) -> Option<int> {
    if s.len() >= 1 && s[0] as u32 == 43 {
        if is_uint_literal(s.skip(1)) {
            Some(digits_val(s.skip(1)))
        } else {
            None
        }
    } else if s.len() >= 1 && s[0] as u32 == 45 {
        if is_uint_literal(s.skip(1)) {
            Some(-digits_val(s.skip(1)))
        } else {
            None
        }
    } else if is_uint_literal(s) {
        Some(digits_val(s))
    } else {
        None
    }
}

fn parse_int_chars(v: &Vec<char>) -> (r: Option<i64>)
    ensures
        r is Some <==> spec_parse_int(v@) is Some,
        r matches Some(x) ==> Some(x as int) == spec_parse_int(v@)
            && -2_147_483_648 < x < 2_147_483_648,
{
    if v.len() >= 1 && (v[0] as u32 == 43 || v[0] as u32 == 45) {
        let negative = v[0] as u32 == 45;
        let n = v.len();
        let rest = subvec(v, 1, n);
        proof {
            assert(rest@ =~= v@.skip(1));
        }
        match parse_uint(&rest) {
            Some(x) => {
                if negative {
                    Some(-x)
                } else {
                    Some(x)
                }
            },
            None => None,
        }
    } else {
        parse_uint(v)
    }
}

/// A plain statistic value: a signed integer.
pub fn parse_stat_value_integer(value: &str) -> (r: Option<i64>)
    ensures
        r is Some <==> spec_parse_int(value@) is Some,
        r matches Some(x) ==> Some(x as int) == spec_parse_int(value@)
            && -2_147_483_648 < x < 2_147_483_648,
{
    let v = chars_of(value);
    parse_int_chars(&v)
}

/// Largest magnitude, in whole points, a plain statistic value may
/// have at the prompt.
pub const MAX_PROMPT_VALUE: i64 = 100_000_000;

/// Statistic kinds whose value is a damage expression rather than a
/// plain number.
pub open spec fn spec_is_damage_kind(k: StatType) -> bool {
    ||| k is StrikeDamage
    ||| k is UnlimitedAreaDamage
    ||| k is LimitedAreaDamage
}

/// The prompt after trimming and lower-casing.
pub open spec fn spec_prompt_text(s: Seq<char>) -> Seq<char> {
    spec_trim(lower_seq(s))
}

/// The keyword before the first space, and the trimmed remainder.
pub open spec fn spec_prompt_split(t: Seq<char>) -> Option<(Seq<char>, Seq<char>)> {
    let i = choose|i: int| is_first_occurrence(t, ' ', i);
    if is_first_occurrence(t, ' ', i) {
        Some((t.take(i), spec_trim(t.skip(i + 1))))
    } else {
        None
    }
}

/// The rescaled damage components a damage prompt must produce, given
/// the parsed pairs and the scaled aggregate.
pub open spec fn spec_rescaled_pairs(ps: Seq<(int, Seq<char>)>, new_total: int, d: Damage) -> bool {
    let total = spec_pairs_total(ps);
    &&& d.components@.len() == ps.len()
    &&& forall|j: int| 0 <= j < ps.len()
        ==> (#[trigger] d.components@[j]).damage_type@ == ps[j].1
    &&& if ps.len() >= 2 && ps[0].0 + new_total - total <= 0 {
        forall|j: int| 0 <= j < ps.len()
            ==> (#[trigger] d.components@[j]).average_value@ == ps[j].0 * new_total / total
    } else {
        &&& d.components@[0].average_value@ == ps[0].0 + new_total - total
        &&& forall|j: int| 1 <= j < ps.len()
            ==> (#[trigger] d.components@[j]).average_value@ == ps[j].0
    }
}

/// Everything the embedding program needs to print and diagnose: the
/// statistic as parsed from the prompt, the scale result, and for
/// damage statistics both the parsed and the rescaled components.
pub struct PromptOutcome {
    pub input: Statistic,
    pub result: ScaleResult,
    pub parsed_damage: Option<Damage>,
    pub scaled_damage: Option<Damage>,
}

/// Handles one prompt line: `<statistic> <current_value>`. Yields no
/// value when the line does not parse, when a value lies outside the
/// supported range, or when a damage aggregate is not positive before
/// or after scaling.
pub fn handle_prompt(levels: Levels, prompt: &str) -> (r: Option<PromptOutcome>)
    requires
        Levels::spec_is_valid(levels.current),
        Levels::spec_is_valid(levels.target),
    ensures
        ({
            let t = spec_prompt_text(prompt@);
            &&& (spec_prompt_split(t) is None ==> r is None)
            &&& (spec_prompt_split(t) matches Some(parts) ==> {
                let k = spec_parse_stat_kind(parts.0);
                &&& (k is None ==> r is None)
                &&& (k matches Some(kk) ==> {
                    &&& (spec_is_damage_kind(kk) && !spec_damage_fits(parts.1)
                        ==> r is None)
                    &&& (!spec_is_damage_kind(kk) && spec_parse_int(parts.1) is None
                        ==> r is None)
                })
            })
        }),
        ({
            let t = spec_prompt_text(prompt@);
            spec_prompt_split(t) matches Some(parts) ==> {
                let k = spec_parse_stat_kind(parts.0);
                k matches Some(kk) ==> {
                    &&& (!spec_is_damage_kind(kk) && (spec_parse_int(parts.1) matches Some(x)
                        && -MAX_PROMPT_VALUE <= x <= MAX_PROMPT_VALUE) ==> r is Some)
                    &&& (spec_is_damage_kind(kk) && spec_damage_fits(parts.1)
                        && spec_pairs_total(spec_damage_pairs(parts.1).unwrap()) > 0
                        && spec_scale_value(
                            spec_table_values(kk),
                            spec_table_proficiencies(kk),
                            levels,
                            spec_pairs_total(spec_damage_pairs(parts.1).unwrap()),
                        ) > 0 ==> r is Some)
                }
            }
        }),
        r matches Some(o) ==> ({
            let t = spec_prompt_text(prompt@);
            &&& spec_prompt_split(t) is Some
            &&& {
                let kind_part = spec_prompt_split(t).unwrap().0;
                let value_part = spec_prompt_split(t).unwrap().1;
                let k = spec_parse_stat_kind(kind_part);
                &&& k is Some
                &&& o.result.stat.kind == k.unwrap()
                &&& o.input.kind == k.unwrap()
                &&& -MAX_UNITS <= o.result.stat.value@ <= MAX_UNITS
                &&& if spec_is_damage_kind(k.unwrap()) {
                    &&& spec_damage_fits(value_part)
                    &&& {
                        let ps = spec_damage_pairs(value_part).unwrap();
                        &&& spec_pairs_total(ps) > 0
                        &&& o.input.value@ == spec_pairs_total(ps)
                        &&& o.result.stat.value@ > 0
                        &&& o.parsed_damage matches Some(pd) && pd.components@.len() == ps.len()
                            && (forall|j: int| 0 <= j < ps.len() ==> {
                                &&& (#[trigger] pd.components@[j]).average_value@ == ps[j].0
                                &&& pd.components@[j].damage_type@ == ps[j].1
                            })
                        &&& spec_scale_result(
                            spec_table_values(k.unwrap()),
                            spec_table_proficiencies(k.unwrap()),
                            levels,
                            Statistic {
                                kind: k.unwrap(),
                                value: Fixed { units: spec_pairs_total(ps) as i64 },
                            },
                            o.result,
                        )
                        &&& o.scaled_damage matches Some(d)
                            && spec_rescaled_pairs(ps, o.result.stat.value@, d)
                    }
                } else {
                    &&& spec_parse_int(value_part) is Some
                    &&& -MAX_PROMPT_VALUE <= spec_parse_int(value_part).unwrap()
                        <= MAX_PROMPT_VALUE
                    &&& o.input.value@ == spec_parse_int(value_part).unwrap() * SCALE
                    &&& o.parsed_damage is None
                    &&& o.scaled_damage is None
                    &&& spec_scale_result(
                        spec_table_values(k.unwrap()),
                        spec_table_proficiencies(k.unwrap()),
                        levels,
                        Statistic {
                            kind: k.unwrap(),
                            value: Fixed {
                                units: (spec_parse_int(value_part).unwrap() * SCALE) as i64,
                            },
                        },
                        o.result,
                    )
                }
            }
        }),
{
    let raw = chars_of(prompt);
    let low = to_lower_vec(&raw);
    let t = trim_vec(&low);

    let i = match find_first(&t, ' ') {
        Some(i) => i,
        None => {
            return None;
        },
    };

    proof {
        let j = choose|j: int| is_first_occurrence(t@, ' ', j);
        assert forall|k: int| is_first_occurrence(t@, ' ', k) implies k == i as int by {
            if k < i as int {
                assert(t@[k] != ' ');
            } else if k > i as int {
                assert(t@[i as int] != ' ');
            }
        }
        assert(j == i as int);
    }

    let n = t.len();
    proof {
        assert(i < n);
    }

    let kindv = subvec(&t, 0, i);
    let valuev_raw = subvec(&t, i + 1, n);
    let valuev = trim_vec(&valuev_raw);

    proof {
        assert(kindv@ =~= t@.take(i as int));
        assert(valuev_raw@ =~= t@.skip(i + 1));
    }

    let kind = match parse_stat_kind_chars(&kindv) {
        Some(k) => k,
        None => {
            return None;
        },
    };

    match kind {
        StatType::StrikeDamage | StatType::UnlimitedAreaDamage | StatType::LimitedAreaDamage => {
            let vs = string_from_chars(&valuev);
            let damage = match parse_damage(vs.as_str()) {
                Some(d) => d,
                None => {
                    return None;
                },
            };

            let ghost ps = spec_damage_pairs(vs@).unwrap();
            proof {
                crate::damage::lemma_pairs_total_eq(damage.components@, ps);
            }

            let total = damage.total_average_value();
            if total.units() <= 0 {
                return None;
            }

            let stat = Statistic::new(kind, total);
            let res = scale_statistic(levels, stat);

            proof {
                lemma_scale_result_value(
                    spec_table_values(kind),
                    spec_table_proficiencies(kind),
                    levels,
                    stat,
                    res,
                );
            }

            if res.stat.value.units() <= 0 {
                return None;
            }

            let scaled = scale_damage_components(&damage, res.stat.value);

            Some(PromptOutcome {
                input: stat,
                result: res,
                parsed_damage: Some(damage),
                scaled_damage: Some(scaled),
            })
        },
        _ => {
            let value = match parse_int_chars(&valuev) {
                Some(x) => x,
                None => {
                    return None;
                },
            };

            if value > MAX_PROMPT_VALUE || value < -MAX_PROMPT_VALUE {
                return None;
            }

            let stat = Statistic::new(kind, Fixed::from_int(value));
            let res = scale_statistic(levels, stat);

            Some(PromptOutcome {
                input: stat,
                result: res,
                parsed_damage: None,
                scaled_damage: None,
            })
        },
    }
}

} // verus!
