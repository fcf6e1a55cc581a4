//! The scaling engine and the damage component rescaler.
//!
//! Given a statistic value that is valid at one level, the engine
//! locates it in the current level's table row and produces the
//! equivalent value at the target level: directly when the value hits
//! a column exactly, by linear interpolation when it falls strictly
//! between two columns, and by preserving the signed offset from the
//! violated edge when it falls outside the row altogether.

use vstd::prelude::*;
use crate::damage::{Damage, DamageComponent, spec_total, lemma_total_nonneg, lemma_component_le_total, lemma_total_first_changed, lemma_total_push};
use crate::fixed::{Fixed, SCALE, MAX_UNITS};
use crate::levels::{Levels, MIN_LEVEL};
use crate::statistic::{Statistic};
use crate::tables::{spec_table_proficiencies, spec_table_values, Proficiency, StatTable};

verus! {

/// Largest magnitude, in fixed-point units, a statistic value handed
/// to the engine may have. Keeps extrapolated results within bounds.
pub const MAX_STAT_UNITS: i64 = 1_000_000_000_000_000;

/// Largest magnitude, in fixed-point units, of a scaled table entry.
pub const MAX_TABLE_UNITS: i64 = 10_000_000_000_000;

/// How a scaled value was obtained from the reference table.
#[derive(Clone, Copy, Debug, PartialEq, Eq, Structural)]
pub enum ScaleMethod {
    Exact,
    Interpolated,
    Extrapolated,
}

/// The outcome of one scaling call: the rescaled statistic, the
/// proficiency column it was read from, and how it was obtained.
#[derive(Clone, Copy, Debug)]
pub struct ScaleResult {
    pub stat: Statistic,
    pub proficiency: Proficiency,
    pub method: ScaleMethod,
}

/// The table row index a level maps to.
pub open spec fn spec_row_index(level: i32) -> int {
    level - MIN_LEVEL
}

/// A table entry in fixed-point units.
pub open spec fn spec_entry(row: Seq<i64>, j: int) -> int {
    row[j] * SCALE
}

/// Linear interpolation of `v` from the open interval `(al, ar)` onto
/// the closed interval `[bl, br]`, rounded toward negative infinity.
pub open spec fn spec_interpolate(al: int, ar: int, bl: int, br: int, v: int) -> int {
    bl + (v - al) * (br - bl) / (ar - al)
}

/// Extrapolation: the signed offset of `v` from the current edge is
/// preserved relative to the target edge.
pub open spec fn spec_extrapolate(cur_edge: int, tgt_edge: int, v: int) -> int {
    tgt_edge + (v - cur_edge)
}

/// `i` is the first column whose current-row entry equals `v`.
pub open spec fn spec_exact_at(cur: Seq<i64>, v: int, i: int) -> bool {
    &&& 0 <= i < cur.len()
    &&& spec_entry(cur, i) == v
    &&& forall|k: int| 0 <= k < i ==> spec_entry(cur, k) != v
}

/// `v` falls strictly between columns `i` and `i + 1` of the current row.
pub open spec fn spec_interp_at(cur: Seq<i64>, v: int, i: int) -> bool {
    &&& 0 <= i < cur.len() - 1
    &&& spec_entry(cur, i) < v
    &&& v < spec_entry(cur, i + 1)
}

/// In a row whose adjacent entries never decrease, entries never
/// decrease between any two positions.
pub proof fn lemma_row_monotone(row: Seq<i64>, k: int, m: int)
    requires
        forall|j: int| 0 <= j < row.len() - 1 ==> #[trigger] row[j] <= row[j + 1],
        0 <= k <= m < row.len(),
    ensures
        row[k] <= row[m],
    decreases m - k,
{
    if k < m {
        lemma_row_monotone(row, k + 1, m);
    }
}

/// The rows a `StatTable` holds, one sequence per level.
pub open spec fn spec_view_values(t: StatTable) -> Seq<Seq<i64>> {
    Seq::new(t.values@.len(), |i: int| t.values@[i]@)
}

/// What scaling promises, over the table's rows and proficiency
/// labels: exactly one of the three methods applies, decided by where
/// the value sits in the current row, and the result value,
/// proficiency and method all follow from it.
pub open spec fn spec_scale_result(
    vals: Seq<Seq<i64>>,
    profs: Seq<Proficiency>,
    levels: Levels,
    stat: Statistic,
    r: ScaleResult,
) -> bool {
    let cur = vals[spec_row_index(levels.current)];
    let tgt = vals[spec_row_index(levels.target)];
    let cols = profs.len() as int;
    let v = stat.value@;
    &&& r.stat.kind == stat.kind
    &&& if v < spec_entry(cur, 0) {
        &&& r.method is Extrapolated
        &&& r.proficiency == profs[0]
        &&& r.stat.value@ == spec_extrapolate(spec_entry(cur, 0), spec_entry(tgt, 0), v)
    } else if v > spec_entry(cur, cols - 1) {
        &&& r.method is Extrapolated
        &&& r.proficiency == profs[cols - 1]
        &&& r.stat.value@ == spec_extrapolate(
            spec_entry(cur, cols - 1),
            spec_entry(tgt, cols - 1),
            v,
        )
    } else if exists|i: int| spec_exact_at(cur, v, i) {
        let i = choose|i: int| spec_exact_at(cur, v, i);
        &&& r.method is Exact
        &&& r.proficiency == profs[i]
        &&& r.stat.value@ == spec_entry(tgt, i)
    } else {
        &&& exists|i: int| spec_interp_at(cur, v, i)
        &&& {
            let i = choose|i: int| spec_interp_at(cur, v, i);
            &&& r.method is Interpolated
            &&& r.proficiency == profs[i]
            &&& r.stat.value@ == spec_interpolate(
                spec_entry(cur, i),
                spec_entry(cur, i + 1),
                spec_entry(tgt, i),
                spec_entry(tgt, i + 1),
                v,
            )
            &&& spec_entry(tgt, i) <= r.stat.value@ <= spec_entry(tgt, i + 1)
        }
    }
}

/// The scaled value alone, as a function of the rows, the labels, the
/// levels and the input value: the same case split the scaling
/// relation makes.
pub open spec fn spec_scale_value(
    vals: Seq<Seq<i64>>,
    profs: Seq<Proficiency>,
    levels: Levels,
    v: int,
) -> int {
    let cur = vals[spec_row_index(levels.current)];
    let tgt = vals[spec_row_index(levels.target)];
    let cols = profs.len() as int;
    if v < spec_entry(cur, 0) {
        spec_extrapolate(spec_entry(cur, 0), spec_entry(tgt, 0), v)
    } else if v > spec_entry(cur, cols - 1) {
        spec_extrapolate(spec_entry(cur, cols - 1), spec_entry(tgt, cols - 1), v)
    } else if exists|i: int| spec_exact_at(cur, v, i) {
        spec_entry(tgt, choose|i: int| spec_exact_at(cur, v, i))
    } else {
        let i = choose|i: int| spec_interp_at(cur, v, i);
        spec_interpolate(
            spec_entry(cur, i),
            spec_entry(cur, i + 1),
            spec_entry(tgt, i),
            spec_entry(tgt, i + 1),
            v,
        )
    }
}

/// The scaling relation pins the result's value to `spec_scale_value`.
pub proof fn lemma_scale_result_value(
    vals: Seq<Seq<i64>>,
    profs: Seq<Proficiency>,
    levels: Levels,
    stat: Statistic,
    r: ScaleResult,
)
    requires
        spec_scale_result(vals, profs, levels, stat, r),
    ensures
        r.stat.value@ == spec_scale_value(vals, profs, levels, stat.value@),
{
}

/// Law: the scaling relation is deterministic. Two results that both
/// stand in the relation with the same rows, labels, levels and
/// statistic are one and the same, so scaling is a pure function of
/// its inputs.
pub proof fn lemma_scale_result_deterministic(
    vals: Seq<Seq<i64>>,
    profs: Seq<Proficiency>,
    levels: Levels,
    stat: Statistic,
    r1: ScaleResult,
    r2: ScaleResult,
)
    requires
        spec_scale_result(vals, profs, levels, stat, r1),
        spec_scale_result(vals, profs, levels, stat, r2),
    ensures
        r1 == r2,
{
    assert(r1.stat.value@ == r2.stat.value@);
    assert(r1.stat.value == r2.stat.value);
    assert(r1.stat == r2.stat);
}

/// Law: for well-formed rows, an input within the current row's range
/// scales to a value within the target row's range.
pub proof fn lemma_scale_in_range(
    vals: Seq<Seq<i64>>,
    profs: Seq<Proficiency>,
    levels: Levels,
    stat: Statistic,
    r: ScaleResult,
)
    requires
        crate::tables::rows_wf(vals, profs),
        Levels::spec_is_valid(levels.current),
        Levels::spec_is_valid(levels.target),
        spec_scale_result(vals, profs, levels, stat, r),
        spec_entry(vals[spec_row_index(levels.current)], 0) <= stat.value@,
        stat.value@ <= spec_entry(vals[spec_row_index(levels.current)], profs.len() - 1),
    ensures
        spec_entry(vals[spec_row_index(levels.target)], 0) <= r.stat.value@,
        r.stat.value@ <= spec_entry(vals[spec_row_index(levels.target)], profs.len() - 1),
{
    let cur = vals[spec_row_index(levels.current)];
    let tgt = vals[spec_row_index(levels.target)];
    let cols = profs.len() as int;
    let v = stat.value@;

    assert(cur.len() == cols);
    assert(tgt.len() == cols);
    assert forall|j: int| 0 <= j < tgt.len() - 1 implies #[trigger] tgt[j] <= tgt[j + 1] by {
        assert(vals[spec_row_index(levels.target)][j]
            <= vals[spec_row_index(levels.target)][j + 1]);
    }

    if exists|i: int| spec_exact_at(cur, v, i) {
        let i = choose|i: int| spec_exact_at(cur, v, i);
        lemma_row_monotone(tgt, 0, i);
        lemma_row_monotone(tgt, i, cols - 1);
    } else {
        let i = choose|i: int| spec_interp_at(cur, v, i);
        lemma_row_monotone(tgt, 0, i);
        lemma_row_monotone(tgt, i + 1, cols - 1);
    }
}

/// Maps `val` from the open interval `(al, ar)` onto the closed
/// interval `[bl, br]` by ratio, rounding toward negative infinity.
/// The source interval cannot be a point; the target interval can.
pub fn interpolate(al: Fixed, ar: Fixed, bl: Fixed, br: Fixed, val: Fixed) -> (r: Fixed)
    requires
        al@ < ar@,
        bl@ <= br@,
        al@ < val@ < ar@,
        -MAX_TABLE_UNITS <= al@ && ar@ <= MAX_TABLE_UNITS,
        -MAX_TABLE_UNITS <= bl@ && br@ <= MAX_TABLE_UNITS,
    ensures
        r@ == spec_interpolate(al@, ar@, bl@, br@, val@),
        bl@ <= r@ <= br@,
{
    let dv = val.sub(al);
    let db = br.sub(bl);
    let da = ar.sub(al);
    let part = dv.mul_div(db, da);
    bl.add(part)
}

/// Maps a value outside the current row's edge to the same signed
/// offset from the target row's edge.
pub fn extrapolate(cur_edge: Fixed, tgt_edge: Fixed, value: Fixed) -> (r: Fixed)
    requires
        value@ != cur_edge@,
        -MAX_TABLE_UNITS <= cur_edge@ <= MAX_TABLE_UNITS,
        -MAX_TABLE_UNITS <= tgt_edge@ <= MAX_TABLE_UNITS,
        -MAX_STAT_UNITS <= value@ <= MAX_STAT_UNITS,
    ensures
        r@ == spec_extrapolate(cur_edge@, tgt_edge@, value@),
        -MAX_UNITS <= r@ <= MAX_UNITS,
{
    if value.le(cur_edge) {
        let diff = cur_edge.sub(value);
        tgt_edge.sub(diff)
    } else {
        let diff = value.sub(cur_edge);
        tgt_edge.add(diff)
    }
}

/// Rescales one statistic against its reference table. Total: by the
/// table invariants every value is either matched exactly,
/// interpolated between two columns, or extrapolated past an edge.
#[verifier::loop_isolation(false)]
#[verifier::rlimit(100)]
#[verifier::spinoff_prover]
pub fn scale_by_table(levels: Levels, stat: Statistic, table: StatTable) -> (r: ScaleResult)
    requires
        Levels::spec_is_valid(levels.current),
        Levels::spec_is_valid(levels.target),
        table.wf(),
        -MAX_STAT_UNITS <= stat.value@ <= MAX_STAT_UNITS,
    ensures
        spec_scale_result(spec_view_values(table), table.proficiencies@, levels, stat, r),
        -MAX_UNITS <= r.stat.value@ <= MAX_UNITS,
{
    let cur_row_i = (levels.current - MIN_LEVEL) as usize;
    let tgt_row_i = (levels.target - MIN_LEVEL) as usize;
    let cur_row = &table.values[cur_row_i];
    let tgt_row = &table.values[tgt_row_i];
    let cols = table.proficiencies.len();
    let ghost cur = cur_row@;
    let ghost tgt = tgt_row@;
    let v = stat.value;

    proof {
        assert(spec_view_values(table)[spec_row_index(levels.current)] == cur);
        assert(spec_view_values(table)[spec_row_index(levels.target)] == tgt);
    }

    let cur_min = Fixed::from_int(cur_row[0]);
    let cur_max = Fixed::from_int(cur_row[cols - 1]);

    if v.lt(cur_min) {
        let scaled = extrapolate(cur_min, Fixed::from_int(tgt_row[0]), v);
        return ScaleResult {
            stat: Statistic::new(stat.kind, scaled),
            proficiency: table.proficiencies[0],
            method: ScaleMethod::Extrapolated,
        };
    }

    if cur_max.lt(v) {
        let scaled = extrapolate(cur_max, Fixed::from_int(tgt_row[cols - 1]), v);
        return ScaleResult {
            stat: Statistic::new(stat.kind, scaled),
            proficiency: table.proficiencies[cols - 1],
            method: ScaleMethod::Extrapolated,
        };
    }

    let mut i: usize = 0;
    while i < cols
        invariant
            table.wf(),
            cols == table.cols(),
            cur_row == table.values@[spec_row_index(levels.current)],
            tgt_row == table.values@[spec_row_index(levels.target)],
            cur == cur_row@,
            tgt == tgt_row@,
            cur.len() == cols,
            tgt.len() == cols,
            v == stat.value,
            -MAX_STAT_UNITS <= v@ <= MAX_STAT_UNITS,
            spec_entry(cur, 0) <= v@,
            v@ <= spec_entry(cur, cols - 1),
            i <= cols,
            forall|k: int| 0 <= k < i ==> spec_entry(cur, k) < v@,
            i < cols ==> spec_entry(cur, i as int) <= v@,
        decreases cols - i,
    {
        proof {
            assert(cur[i as int] == table.values@[spec_row_index(levels.current)]@[i as int]);
            assert(tgt[i as int] == table.values@[spec_row_index(levels.target)]@[i as int]);
            if i + 1 < cols {
                assert(cur[i + 1] == table.values@[spec_row_index(levels.current)]@[i + 1]);
                assert(tgt[i + 1] == table.values@[spec_row_index(levels.target)]@[i + 1]);
            }
        }

        let e = Fixed::from_int(cur_row[i]);

        if e.units() == v.units() {
            proof {
                assert(spec_exact_at(cur, v@, i as int));
                assert forall|j: int| spec_exact_at(cur, v@, j) implies j == i as int by {
                    if j < i as int {
                        assert(spec_entry(cur, j) < v@);
                    } else if j > i as int {
                        assert(spec_entry(cur, i as int) != v@);
                    }
                }
            }
            return ScaleResult {
                stat: Statistic::new(stat.kind, Fixed::from_int(tgt_row[i])),
                proficiency: table.proficiencies[i],
                method: ScaleMethod::Exact,
            };
        }

        if i + 1 < cols {
            let e1 = Fixed::from_int(cur_row[i + 1]);
            if e.lt(v) && v.lt(e1) {
                let scaled = interpolate(
                    e,
                    e1,
                    Fixed::from_int(tgt_row[i]),
                    Fixed::from_int(tgt_row[i + 1]),
                    v,
                );
                proof {
                    assert(forall|j: int| 0 <= j < cur.len() - 1
                        ==> #[trigger] cur[j] <= cur[j + 1]);
                    assert(spec_interp_at(cur, v@, i as int));
                    assert forall|j: int| spec_interp_at(cur, v@, j) implies j == i as int by {
                        if j < i as int {
                            lemma_row_monotone(cur, j + 1, i as int);
                            assert(spec_entry(cur, j + 1) <= spec_entry(cur, i as int));
                        } else if j > i as int {
                            lemma_row_monotone(cur, i + 1, j);
                            assert(spec_entry(cur, i + 1) <= spec_entry(cur, j));
                        }
                    }
                    assert forall|k: int| 0 <= k < cur.len()
                        implies !spec_exact_at(cur, v@, k) by {
                        if k <= i as int {
                            assert(spec_entry(cur, k) < v@);
                        } else {
                            lemma_row_monotone(cur, i + 1, k);
                            assert(spec_entry(cur, i + 1) <= spec_entry(cur, k));
                        }
                    }
                }
                return ScaleResult {
                    stat: Statistic::new(stat.kind, scaled),
                    proficiency: table.proficiencies[i],
                    method: ScaleMethod::Interpolated,
                };
            }
        }

        proof {
            assert(spec_entry(cur, i as int) < v@);
            if i + 1 < cols {
                assert(spec_entry(cur, i + 1) <= v@);
            }
        }

        i += 1;
    }

    proof {
        assert(spec_entry(cur, cols - 1) < v@);
        assert(false);
    }

    vstd::pervasive::unreached()
}

/// Proportional rescale: every component is mapped to its share of the
/// original total, applied to the new total, rounded toward negative
/// infinity.
pub open spec fn spec_scaled_all(d: Damage, new_total: int, r: Damage) -> bool {
    let total = spec_total(d.components@);
    &&& r.components@.len() == d.components@.len()
    &&& forall|i: int| 0 <= i < d.components@.len() ==> {
        &&& (#[trigger] r.components@[i]).damage_type@ == d.components@[i].damage_type@
        &&& r.components@[i].average_value@ == d.components@[i].average_value@ * new_total / total
    }
}

/// First-component rescale: the entire change lands on the first
/// component; the others are untouched.
pub open spec fn spec_scaled_first(d: Damage, new_total: int, r: Damage) -> bool {
    let total = spec_total(d.components@);
    &&& r.components@.len() == d.components@.len()
    &&& r.components@[0].damage_type@ == d.components@[0].damage_type@
    &&& r.components@[0].average_value@ == d.components@[0].average_value@ + new_total - total
    &&& forall|i: int| 1 <= i < d.components@.len() ==> {
        &&& (#[trigger] r.components@[i]).damage_type@ == d.components@[i].damage_type@
        &&& r.components@[i].average_value@ == d.components@[i].average_value@
    }
}

/// Rescales every component proportionally to its share of the
/// original aggregate. The rounded components never sum past the new
/// total.
#[verifier::loop_isolation(false)]
pub fn scale_all_damage_components(damage: &Damage, scaled_total: Fixed) -> (r: Damage)
    requires
        damage.wf(),
        0 < scaled_total@ <= MAX_UNITS,
        spec_total(damage.components@) > 0,
    ensures
        spec_scaled_all(*damage, scaled_total@, r),
        r.wf(),
        spec_total(r.components@) <= scaled_total@,
{
    let ghost d = damage.components@;
    let ghost nt = scaled_total@;
    let ghost gtotal = spec_total(d);

    let total = damage.total_average_value();
    let mut scaled = Damage::new();
    let n = damage.components.len();

    proof {
        assert(d.subrange(0, 0) =~= Seq::<DamageComponent>::empty());
    }

    for i in 0..n
        invariant
            scaled.components@.len() == i,
            forall|k: int| 0 <= k < i ==> {
                &&& (#[trigger] scaled.components@[k]).damage_type@ == d[k].damage_type@
                &&& scaled.components@[k].average_value@ == d[k].average_value@ * nt / gtotal
                &&& 0 <= scaled.components@[k].average_value@ <= nt
            },
            spec_total(scaled.components@) * gtotal <= spec_total(d.subrange(0, i as int)) * nt,
            0 <= spec_total(scaled.components@),
    {
        let c = &damage.components[i];
        proof {
            lemma_component_le_total(d, i as int);
        }
        let value = c.average_value.mul_div(scaled_total, total);
        let ghost old_scaled = scaled.components@;
        let new_component = DamageComponent {
            average_value: value,
            damage_type: c.damage_type.clone(),
        };
        scaled.components.push(new_component);

        proof {
            lemma_total_push(old_scaled, new_component);
            lemma_total_nonneg(old_scaled);
            assert(d.subrange(0, i + 1) =~= d.subrange(0, i as int).push(d[i as int]));
            lemma_total_push(d.subrange(0, i as int), d[i as int]);
            let q = value@;
            let c0 = d[i as int].average_value@;
            vstd::arithmetic::div_mod::lemma_fundamental_div_mod(c0 * nt, gtotal);
            assert(q * gtotal <= c0 * nt) by (nonlinear_arith)
                requires
                    q == (c0 * nt) / gtotal,
                    gtotal > 0,
                    c0 * nt == gtotal * ((c0 * nt) / gtotal) + (c0 * nt) % gtotal,
                    (c0 * nt) % gtotal >= 0;
            assert((spec_total(old_scaled) + q) * gtotal
                == spec_total(old_scaled) * gtotal + q * gtotal) by (nonlinear_arith);
            assert((spec_total(d.subrange(0, i as int)) + c0) * nt
                == spec_total(d.subrange(0, i as int)) * nt + c0 * nt) by (nonlinear_arith);
        }
    }

    proof {
        assert(d.subrange(0, n as int) =~= d);
        assert(spec_total(scaled.components@) <= nt) by (nonlinear_arith)
            requires
                spec_total(scaled.components@) * gtotal <= gtotal * nt,
                gtotal > 0;
        lemma_total_nonneg(scaled.components@);
    }

    scaled
}

/// Applies the whole change in the aggregate to the first component
/// alone, leaving the secondary components untouched.
#[verifier::loop_isolation(false)]
pub fn scale_first_damage_component(damage: &Damage, scaled_total: Fixed) -> (r: Damage)
    requires
        damage.wf(),
        0 < scaled_total@ <= MAX_UNITS,
        damage.components@[0].average_value@ + scaled_total@ - spec_total(damage.components@) > 0,
    ensures
        spec_scaled_first(*damage, scaled_total@, r),
        r.wf(),
        spec_total(r.components@) == scaled_total@,
{
    let ghost d = damage.components@;

    let total = damage.total_average_value();
    let delta = scaled_total.sub(total);
    let n = damage.components.len();

    proof {
        lemma_component_le_total(d, 0);
    }

    let first = &damage.components[0];
    let mut scaled = Damage::new();
    let new_first = DamageComponent {
        average_value: first.average_value.add(delta),
        damage_type: first.damage_type.clone(),
    };
    scaled.components.push(new_first);

    let mut i: usize = 1;
    while i < n
        invariant
            1 <= i <= n,
            scaled.components@.len() == i,
            scaled.components@[0].damage_type@ == d[0].damage_type@,
            scaled.components@[0].average_value@
                == d[0].average_value@ + scaled_total@ - spec_total(d),
            forall|k: int| 1 <= k < i ==> {
                &&& (#[trigger] scaled.components@[k]).damage_type@ == d[k].damage_type@
                &&& scaled.components@[k].average_value@ == d[k].average_value@
            },
        decreases n - i,
    {
        let c = &damage.components[i];
        scaled.components.push(DamageComponent {
            average_value: c.average_value,
            damage_type: c.damage_type.clone(),
        });
        i += 1;
    }

    proof {
        lemma_total_first_changed(d, scaled.components@);
        lemma_component_le_total(d, 0);
    }

    scaled
}

/// Redistributes a rescaled aggregate over the original components.
/// The whole change is absorbed by the first component; but when there
/// are secondary components to protect and that would drive the first
/// component to zero or below, every component is instead scaled
/// proportionally.
pub fn scale_damage_components(damage: &Damage, scaled_total: Fixed) -> (r: Damage)
    requires
        damage.wf(),
        0 < scaled_total@ <= MAX_UNITS,
    ensures
        ({
            let total = spec_total(damage.components@);
            if damage.components@.len() >= 2
                && damage.components@[0].average_value@ + scaled_total@ - total <= 0 {
                &&& spec_scaled_all(*damage, scaled_total@, r)
                &&& spec_total(r.components@) <= scaled_total@
            } else {
                &&& spec_scaled_first(*damage, scaled_total@, r)
                &&& spec_total(r.components@) == scaled_total@
            }
        }),
        r.wf(),
{
    let ghost d = damage.components@;

    let total = damage.total_average_value();
    let first = damage.components[0].average_value;
    let n = damage.components.len();

    proof {
        lemma_component_le_total(d, 0);
        lemma_total_nonneg(d);
        if n == 1 {
            assert(d.drop_first().len() == 0);
            assert(spec_total(d.drop_first()) == 0);
            assert(spec_total(d) == d[0].average_value@);
        }
    }

    if n >= 2 && first.units() + scaled_total.units() - total.units() <= 0 {
        scale_all_damage_components(damage, scaled_total)
    } else {
        scale_first_damage_component(damage, scaled_total)
    }
}

/// Rescales one statistic by the reference table for its kind: the
/// result stands in the scaling relation with exactly that kind's
/// reference rows and labels.
pub fn scale_statistic(levels: Levels, stat: Statistic) -> (r: ScaleResult)
    requires
        Levels::spec_is_valid(levels.current),
        Levels::spec_is_valid(levels.target),
        -MAX_STAT_UNITS <= stat.value@ <= MAX_STAT_UNITS,
    ensures
        spec_scale_result(
            spec_table_values(stat.kind),
            spec_table_proficiencies(stat.kind),
            levels,
            stat,
            r,
        ),
        r.stat.kind == stat.kind,
        -MAX_UNITS <= r.stat.value@ <= MAX_UNITS,
{
    let table = crate::tables::get_table_for_statistic(stat.kind);
    let ghost gt = table;
    let res = scale_by_table(levels, stat, table);
    proof {
        assert(spec_view_values(gt) =~= spec_table_values(stat.kind));
        assert(gt.proficiencies@ == spec_table_proficiencies(stat.kind));
    }
    res
}

} // verus!
