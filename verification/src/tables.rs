//! Level-by-proficiency reference tables.
//!
//! A table has one row per creature level and one column per
//! proficiency rank. The shape invariants — full height, rectangular,
//! non-decreasing along rows and columns, bounded entries, proficiency
//! labels in rank order — are both checked at run time for arbitrary
//! tables and proved of the embedded reference data. The reference
//! rows themselves are stated once more as specification functions, so
//! contracts downstream can speak of exactly the table a statistic
//! kind maps to.

use vstd::prelude::*;
use crate::levels::NUM_LEVELS;
use crate::statistic::StatType;

verus! {

/// Largest magnitude a table entry may have.
pub const MAX_TABLE_VALUE: i64 = 1_000_000;

/// An ordinal skill tier attached to a column of a reference table.
#[derive(Clone, Copy, Debug, PartialEq, Eq, Structural)]
pub enum Proficiency {
    Terrible,
    Low,
    Moderate,
    High,
    Extreme,
}

/// The position of a proficiency in the Terrible..Extreme order.
pub open spec fn spec_rank(p: Proficiency) -> int {
    match p {
        Proficiency::Terrible => 0,
        Proficiency::Low => 1,
        Proficiency::Moderate => 2,
        Proficiency::High => 3,
        Proficiency::Extreme => 4,
    }
}

impl Proficiency {
    /// The position of this proficiency in the Terrible..Extreme order.
    pub fn rank(self) -> (r: u8)
        ensures
            r == spec_rank(self),
    {
        match self {
            Proficiency::Terrible => 0,
            Proficiency::Low => 1,
            Proficiency::Moderate => 2,
            Proficiency::High => 3,
            Proficiency::Extreme => 4,
        }
    }

    /// The display name of this proficiency.
    pub fn label(self) -> (r: &'static str)
        ensures
            r@ == spec_proficiency_label(self),
    {
        match self {
            Proficiency::Terrible => "Terrible",
            Proficiency::Low => "Low",
            Proficiency::Moderate => "Moderate",
            Proficiency::High => "High",
            Proficiency::Extreme => "Extreme",
        }
    }
}

pub open spec fn spec_proficiency_label(p: Proficiency) -> Seq<char> {
    match p {
        Proficiency::Terrible => "Terrible"@,
        Proficiency::Low => "Low"@,
        Proficiency::Moderate => "Moderate"@,
        Proficiency::High => "High"@,
        Proficiency::Extreme => "Extreme"@,
    }
}

/// Every row has exactly `cols` entries.
fn row_lengths_ok(values: &Vec<Vec<i64>>, cols: usize) -> (r: bool)
    ensures
        r == forall|i: int| 0 <= i < values@.len()
            ==> (#[trigger] values@[i])@.len() == cols,
{
    for i in 0..values.len()
        invariant
            forall|k: int| 0 <= k < i ==> (#[trigger] values@[k])@.len() == cols,
    {
        if values[i].len() != cols {
            return false;
        }
    }

    true
}

/// Every entry lies within `MAX_TABLE_VALUE` in magnitude.
fn entries_bounded(values: &Vec<Vec<i64>>) -> (r: bool)
    ensures
        r == forall|i: int, j: int|
            0 <= i < values@.len() && 0 <= j < values@[i]@.len()
            ==> -MAX_TABLE_VALUE <= #[trigger] values@[i]@[j] <= MAX_TABLE_VALUE,
{
    for i in 0..values.len()
        invariant
            forall|k: int, j: int| 0 <= k < i && 0 <= j < values@[k]@.len()
                ==> -MAX_TABLE_VALUE <= #[trigger] values@[k]@[j] <= MAX_TABLE_VALUE,
    {
        let row = &values[i];
        for j in 0..row.len()
            invariant
                i < values@.len(),
                row == values@[i as int],
                forall|k: int, m: int| 0 <= k < i && 0 <= m < values@[k]@.len()
                    ==> -MAX_TABLE_VALUE <= #[trigger] values@[k]@[m] <= MAX_TABLE_VALUE,
                forall|m: int| 0 <= m < j
                    ==> -MAX_TABLE_VALUE <= #[trigger] row@[m] <= MAX_TABLE_VALUE,
        {
            if row[j] < -MAX_TABLE_VALUE || row[j] > MAX_TABLE_VALUE {
                return false;
            }
        }
    }

    true
}

/// Within each row the entries never decrease from left to right.
fn rows_monotone(values: &Vec<Vec<i64>>) -> (r: bool)
    ensures
        r == forall|i: int, j: int|
            0 <= i < values@.len() && 0 <= j < values@[i]@.len() - 1
            ==> #[trigger] values@[i]@[j] <= values@[i]@[j + 1],
{
    for i in 0..values.len()
        invariant
            forall|k: int, j: int| 0 <= k < i && 0 <= j < values@[k]@.len() - 1
                ==> #[trigger] values@[k]@[j] <= values@[k]@[j + 1],
    {
        let row = &values[i];
        if row.len() >= 1 {
            for j in 0..row.len() - 1
                invariant
                    i < values@.len(),
                    row == values@[i as int],
                    row@.len() >= 1,
                    forall|k: int, m: int| 0 <= k < i && 0 <= m < values@[k]@.len() - 1
                        ==> #[trigger] values@[k]@[m] <= values@[k]@[m + 1],
                    forall|m: int| 0 <= m < j ==> #[trigger] row@[m] <= row@[m + 1],
            {
                if row[j] > row[j + 1] {
                    return false;
                }
            }
        }
    }

    true
}

/// Within each column the entries never decrease from top to bottom.
/// Expects every row to have exactly `cols` entries.
fn columns_monotone(values: &Vec<Vec<i64>>, cols: usize) -> (r: bool)
    requires
        forall|i: int| 0 <= i < values@.len() ==> (#[trigger] values@[i])@.len() == cols,
    ensures
        r == forall|i: int, j: int|
            0 <= i < values@.len() - 1 && 0 <= j < cols
            ==> #[trigger] values@[i]@[j] <= values@[i + 1]@[j],
{
    if values.len() >= 1 {
        for i in 0..values.len() - 1
            invariant
                values@.len() >= 1,
                forall|k: int| 0 <= k < values@.len() ==> (#[trigger] values@[k])@.len() == cols,
                forall|k: int, j: int| 0 <= k < i && 0 <= j < cols
                    ==> #[trigger] values@[k]@[j] <= values@[k + 1]@[j],
        {
            let row = &values[i];
            let next = &values[i + 1];
            for j in 0..cols
                invariant
                    i + 1 < values@.len(),
                    row == values@[i as int],
                    next == values@[i + 1],
                    row@.len() == cols,
                    next@.len() == cols,
                    forall|k: int, m: int| 0 <= k < i && 0 <= m < cols
                        ==> #[trigger] values@[k]@[m] <= values@[k + 1]@[m],
                    forall|m: int| 0 <= m < j ==> #[trigger] row@[m] <= next@[m],
            {
                if row[j] > next[j] {
                    return false;
                }
            }
        }
    }

    true
}

/// The proficiency labels never decrease in rank from left to right.
fn proficiencies_sorted(proficiencies: &Vec<Proficiency>) -> (r: bool)
    ensures
        r == forall|j: int| 0 <= j < proficiencies@.len() - 1
            ==> spec_rank(#[trigger] proficiencies@[j]) <= spec_rank(proficiencies@[j + 1]),
{
    if proficiencies.len() >= 1 {
        for j in 0..proficiencies.len() - 1
            invariant
                proficiencies@.len() >= 1,
                forall|m: int| 0 <= m < j
                    ==> spec_rank(#[trigger] proficiencies@[m]) <= spec_rank(proficiencies@[m + 1]),
        {
            if proficiencies[j].rank() > proficiencies[j + 1].rank() {
                return false;
            }
        }
    }

    true
}

/// A reference table: `values[row][column]` is the value a creature of
/// level `MIN_LEVEL + row` has at the proficiency `proficiencies[column]`.
pub struct StatTable {
    pub values: Vec<Vec<i64>>,
    pub proficiencies: Vec<Proficiency>,
}

impl StatTable {
    /// Number of proficiency columns.
    pub open spec fn cols(self) -> int {
        self.proficiencies@.len() as int
    }

    /// The shape invariants every table must satisfy.
    pub open spec fn wf(self) -> bool {
        &&& self.values@.len() == NUM_LEVELS
        &&& self.cols() >= 1
        &&& forall|i: int| 0 <= i < self.values@.len()
            ==> (#[trigger] self.values@[i])@.len() == self.cols()
        &&& forall|i: int, j: int|
            0 <= i < self.values@.len() && 0 <= j < self.cols()
            ==> -MAX_TABLE_VALUE <= #[trigger] self.values@[i]@[j] <= MAX_TABLE_VALUE
        &&& forall|i: int, j: int|
            0 <= i < self.values@.len() && 0 <= j < self.cols() - 1
            ==> #[trigger] self.values@[i]@[j] <= self.values@[i]@[j + 1]
        &&& forall|i: int, j: int|
            0 <= i < self.values@.len() - 1 && 0 <= j < self.cols()
            ==> #[trigger] self.values@[i]@[j] <= self.values@[i + 1]@[j]
        &&& forall|j: int| 0 <= j < self.cols() - 1
            ==> spec_rank(#[trigger] self.proficiencies@[j]) <= spec_rank(self.proficiencies@[j + 1])
    }

    /// Validates the shape invariants at run time; yields the table
    /// exactly when they all hold of the given data.
    pub fn new(values: Vec<Vec<i64>>, proficiencies: Vec<Proficiency>) -> (r: Option<StatTable>)
        ensures
            r matches Some(t) ==> t.wf() && t.values == values && t.proficiencies == proficiencies,
            r is None ==> !(StatTable { values, proficiencies }).wf(),
    {
        let cols = proficiencies.len();

        if values.len() != NUM_LEVELS || cols < 1 {
            return None;
        }

        if !row_lengths_ok(&values, cols) {
            return None;
        }

        if !entries_bounded(&values) {
            return None;
        }

        if !rows_monotone(&values) {
            return None;
        }

        if !columns_monotone(&values, cols) {
            return None;
        }

        if !proficiencies_sorted(&proficiencies) {
            return None;
        }

        Some(StatTable { values, proficiencies })
    }
}

/// The reference table for a statistic kind. Each embedded table is
/// proved to satisfy the shape invariants, so this always succeeds.
pub fn get_table_for_statistic(stat: StatType) -> (r: StatTable)
    ensures
        r.wf(),
        table_matches(r, spec_table_values(stat), spec_table_proficiencies(stat)),
{
    let table = match stat {
        StatType::Perception => perception(),
        StatType::Skill => skills(),
        StatType::ArmorClass => armor_class(),
        StatType::SavingThrow => saving_throws(),
        StatType::HitPoints => hit_points(),
        StatType::Resistance => resistance_weakness(),
        StatType::Weakness => resistance_weakness(),
        StatType::StrikeAttackBonus => strike_attack_bonus(),
        StatType::StrikeDamage => strike_damage(),
        StatType::SpellDC => spell_dc(),
        StatType::SpellAttackBonus => spell_attack_bonus(),
        StatType::UnlimitedAreaDamage => unlimited_area_damage(),
        StatType::LimitedAreaDamage => limited_area_damage(),
    };

    match table {
        Some(t) => t,
        None => vstd::pervasive::unreached(),
    }
}

/// The rows of the reference table for a statistic kind.
pub open spec fn spec_table_values(stat: StatType) -> Seq<Seq<i64>> {
    match stat {
        StatType::Perception => spec_perception_values(),
        StatType::Skill => spec_skills_values(),
        StatType::ArmorClass => spec_armor_class_values(),
        StatType::SavingThrow => spec_saving_throws_values(),
        StatType::HitPoints => spec_hit_points_values(),
        StatType::Resistance => spec_resistance_weakness_values(),
        StatType::Weakness => spec_resistance_weakness_values(),
        StatType::StrikeAttackBonus => spec_strike_attack_bonus_values(),
        StatType::StrikeDamage => spec_strike_damage_values(),
        StatType::SpellDC => spec_spell_dc_values(),
        StatType::SpellAttackBonus => spec_spell_attack_bonus_values(),
        StatType::UnlimitedAreaDamage => spec_unlimited_area_damage_values(),
        StatType::LimitedAreaDamage => spec_limited_area_damage_values(),
    }
}

/// The proficiency labels of the reference table for a statistic kind.
pub open spec fn spec_table_proficiencies(stat: StatType) -> Seq<Proficiency> {
    match stat {
        StatType::Perception => spec_perception_proficiencies(),
        StatType::Skill => spec_skills_proficiencies(),
        StatType::ArmorClass => spec_armor_class_proficiencies(),
        StatType::SavingThrow => spec_saving_throws_proficiencies(),
        StatType::HitPoints => spec_hit_points_proficiencies(),
        StatType::Resistance => spec_resistance_weakness_proficiencies(),
        StatType::Weakness => spec_resistance_weakness_proficiencies(),
        StatType::StrikeAttackBonus => spec_strike_attack_bonus_proficiencies(),
        StatType::StrikeDamage => spec_strike_damage_proficiencies(),
        StatType::SpellDC => spec_spell_dc_proficiencies(),
        StatType::SpellAttackBonus => spec_spell_attack_bonus_proficiencies(),
        StatType::UnlimitedAreaDamage => spec_unlimited_area_damage_proficiencies(),
        StatType::LimitedAreaDamage => spec_limited_area_damage_proficiencies(),
    }
}

/// The shape invariants, stated over rows and labels directly: full
/// height, rectangular, bounded entries, non-decreasing along rows and
/// columns, labels in rank order.
pub open spec fn rows_wf(vals: Seq<Seq<i64>>, profs: Seq<Proficiency>) -> bool {
    &&& vals.len() == NUM_LEVELS
    &&& profs.len() >= 1
    &&& forall|i: int| 0 <= i < vals.len() ==> (#[trigger] vals[i]).len() == profs.len()
    &&& forall|i: int, j: int|
        0 <= i < vals.len() && 0 <= j < profs.len()
        ==> -MAX_TABLE_VALUE <= #[trigger] vals[i][j] <= MAX_TABLE_VALUE
    &&& forall|i: int, j: int|
        0 <= i < vals.len() && 0 <= j < profs.len() - 1
        ==> #[trigger] vals[i][j] <= vals[i][j + 1]
    &&& forall|i: int, j: int|
        0 <= i < vals.len() - 1 && 0 <= j < profs.len()
        ==> #[trigger] vals[i][j] <= vals[i + 1][j]
    &&& forall|j: int| 0 <= j < profs.len() - 1
        ==> spec_rank(#[trigger] profs[j]) <= spec_rank(profs[j + 1])
}

/// Every embedded reference table satisfies the shape invariants.
#[verifier::rlimit(100)]
#[verifier::spinoff_prover]
pub proof fn lemma_spec_table_wf(stat: StatType)
    ensures
        rows_wf(spec_table_values(stat), spec_table_proficiencies(stat)),
{
    match stat {
        StatType::Perception => {
            assert(rows_wf(spec_perception_values(), spec_perception_proficiencies()));
        },
        StatType::Skill => {
            assert(rows_wf(spec_skills_values(), spec_skills_proficiencies()));
        },
        StatType::ArmorClass => {
            assert(rows_wf(spec_armor_class_values(), spec_armor_class_proficiencies()));
        },
        StatType::SavingThrow => {
            assert(rows_wf(spec_saving_throws_values(), spec_saving_throws_proficiencies()));
        },
        StatType::HitPoints => {
            assert(rows_wf(spec_hit_points_values(), spec_hit_points_proficiencies()));
        },
        StatType::Resistance => {
            assert(rows_wf(spec_resistance_weakness_values(), spec_resistance_weakness_proficiencies()));
        },
        StatType::Weakness => {
            assert(rows_wf(spec_resistance_weakness_values(), spec_resistance_weakness_proficiencies()));
        },
        StatType::StrikeAttackBonus => {
            assert(rows_wf(spec_strike_attack_bonus_values(), spec_strike_attack_bonus_proficiencies()));
        },
        StatType::StrikeDamage => {
            assert(rows_wf(spec_strike_damage_values(), spec_strike_damage_proficiencies()));
        },
        StatType::SpellDC => {
            assert(rows_wf(spec_spell_dc_values(), spec_spell_dc_proficiencies()));
        },
        StatType::SpellAttackBonus => {
            assert(rows_wf(spec_spell_attack_bonus_values(), spec_spell_attack_bonus_proficiencies()));
        },
        StatType::UnlimitedAreaDamage => {
            assert(rows_wf(spec_unlimited_area_damage_values(), spec_unlimited_area_damage_proficiencies()));
        },
        StatType::LimitedAreaDamage => {
            assert(rows_wf(spec_limited_area_damage_values(), spec_limited_area_damage_proficiencies()));
        },
    }
}

/// The table holds exactly the given rows and proficiency labels.
pub open spec fn table_matches(t: StatTable, vals: Seq<Seq<i64>>, profs: Seq<Proficiency>) -> bool {
    &&& t.values@.len() == vals.len()
    &&& forall|i: int| 0 <= i < vals.len() ==> (#[trigger] t.values@[i])@ == vals[i]
    &&& t.proficiencies@ == profs
}

/// The rows of the perception table.
pub open spec fn spec_perception_values() -> Seq<Seq<i64>> {
    seq![
        seq![0i64, 2, 5, 8, 9],
        seq![1i64, 3, 6, 9, 10],
        seq![2i64, 4, 7, 10, 11],
        seq![3i64, 5, 8, 11, 12],
        seq![4i64, 6, 9, 12, 14],
        seq![6i64, 8, 11, 14, 15],
        seq![7i64, 9, 12, 15, 17],
        seq![8i64, 11, 14, 17, 18],
        seq![10i64, 12, 15, 18, 20],
        seq![11i64, 13, 16, 19, 21],
        seq![12i64, 15, 18, 21, 23],
        seq![14i64, 16, 19, 22, 24],
        seq![15i64, 18, 21, 24, 26],
        seq![16i64, 19, 22, 25, 27],
        seq![18i64, 20, 23, 26, 29],
        seq![19i64, 22, 25, 28, 30],
        seq![20i64, 23, 26, 29, 32],
        seq![22i64, 25, 28, 30, 33],
        seq![23i64, 26, 29, 32, 35],
        seq![24i64, 27, 30, 33, 36],
        seq![26i64, 29, 32, 35, 38],
        seq![27i64, 30, 33, 36, 39],
        seq![28i64, 32, 35, 38, 41],
        seq![30i64, 33, 36, 39, 43],
        seq![31i64, 34, 37, 40, 44],
        seq![32i64, 36, 38, 42, 46],
    ]
}

/// The proficiency labels of the perception table.
pub open spec fn spec_perception_proficiencies() -> Seq<Proficiency> {
    seq![Proficiency::Terrible, Proficiency::Low, Proficiency::Moderate, Proficiency::High, Proficiency::Extreme]
}

/// The rows of the skills table.
pub open spec fn spec_skills_values() -> Seq<Seq<i64>> {
    seq![
        seq![1i64, 2, 4, 5, 8],
        seq![2i64, 3, 5, 6, 9],
        seq![3i64, 4, 6, 7, 10],
        seq![4i64, 5, 7, 8, 11],
        seq![5i64, 7, 9, 10, 13],
        seq![7i64, 8, 10, 12, 15],
        seq![8i64, 10, 12, 13, 16],
        seq![9i64, 11, 13, 15, 18],
        seq![11i64, 13, 15, 17, 20],
        seq![12i64, 14, 16, 18, 21],
        seq![13i64, 16, 18, 20, 23],
        seq![15i64, 17, 19, 22, 25],
        seq![16i64, 19, 21, 23, 26],
        seq![17i64, 20, 22, 25, 28],
        seq![19i64, 22, 24, 27, 30],
        seq![20i64, 23, 25, 28, 31],
        seq![21i64, 25, 27, 30, 33],
        seq![23i64, 26, 28, 32, 35],
        seq![24i64, 28, 30, 33, 36],
        seq![25i64, 29, 31, 35, 38],
        seq![27i64, 31, 33, 37, 40],
        seq![28i64, 32, 34, 38, 41],
        seq![29i64, 34, 36, 40, 43],
        seq![31i64, 35, 37, 42, 45],
        seq![32i64, 36, 38, 43, 46],
        seq![33i64, 38, 40, 45, 48],
    ]
}

/// The proficiency labels of the skills table.
pub open spec fn spec_skills_proficiencies() -> Seq<Proficiency> {
    seq![Proficiency::Low, Proficiency::Low, Proficiency::Moderate, Proficiency::High, Proficiency::Extreme]
}

/// The rows of the armor class table.
pub open spec fn spec_armor_class_values() -> Seq<Seq<i64>> {
    seq![
        seq![12i64, 14, 15, 18],
        seq![13i64, 15, 16, 19],
        seq![13i64, 15, 16, 19],
        seq![15i64, 17, 18, 21],
        seq![16i64, 18, 19, 22],
        seq![18i64, 20, 21, 24],
        seq![19i64, 21, 22, 25],
        seq![21i64, 23, 24, 27],
        seq![22i64, 24, 25, 28],
        seq![24i64, 26, 27, 30],
        seq![25i64, 27, 28, 31],
        seq![27i64, 29, 30, 33],
        seq![28i64, 30, 31, 34],
        seq![30i64, 32, 33, 36],
        seq![31i64, 33, 34, 37],
        seq![33i64, 35, 36, 39],
        seq![34i64, 36, 37, 40],
        seq![36i64, 38, 39, 42],
        seq![37i64, 39, 40, 43],
        seq![39i64, 41, 42, 45],
        seq![40i64, 42, 43, 46],
        seq![42i64, 44, 45, 48],
        seq![43i64, 45, 46, 49],
        seq![45i64, 47, 48, 51],
        seq![46i64, 48, 49, 52],
        seq![48i64, 50, 51, 54],
    ]
}

/// The proficiency labels of the armor class table.
pub open spec fn spec_armor_class_proficiencies() -> Seq<Proficiency> {
    seq![Proficiency::Low, Proficiency::Moderate, Proficiency::High, Proficiency::Extreme]
}

/// The rows of the saving throws table.
pub open spec fn spec_saving_throws_values() -> Seq<Seq<i64>> {
    seq![
        seq![0i64, 2, 5, 8, 9],
        seq![1i64, 3, 6, 9, 10],
        seq![2i64, 4, 7, 10, 11],
        seq![3i64, 5, 8, 11, 12],
        seq![4i64, 6, 9, 12, 14],
        seq![6i64, 8, 11, 14, 15],
        seq![7i64, 9, 12, 15, 17],
        seq![8i64, 11, 14, 17, 18],
        seq![10i64, 12, 15, 18, 20],
        seq![11i64, 13, 16, 19, 21],
        seq![12i64, 15, 18, 21, 23],
        seq![14i64, 16, 19, 22, 24],
        seq![15i64, 18, 21, 24, 26],
        seq![16i64, 19, 22, 25, 27],
        seq![18i64, 20, 23, 26, 29],
        seq![19i64, 22, 25, 28, 30],
        seq![20i64, 23, 26, 29, 32],
        seq![22i64, 25, 28, 30, 33],
        seq![23i64, 26, 29, 32, 35],
        seq![24i64, 27, 30, 33, 36],
        seq![26i64, 29, 32, 35, 38],
        seq![27i64, 30, 33, 36, 39],
        seq![28i64, 32, 35, 38, 41],
        seq![30i64, 33, 36, 39, 43],
        seq![31i64, 34, 37, 40, 44],
        seq![32i64, 36, 38, 42, 46],
    ]
}

/// The proficiency labels of the saving throws table.
pub open spec fn spec_saving_throws_proficiencies() -> Seq<Proficiency> {
    seq![Proficiency::Terrible, Proficiency::Low, Proficiency::Moderate, Proficiency::High, Proficiency::Extreme]
}

/// The rows of the hit points table.
pub open spec fn spec_hit_points_values() -> Seq<Seq<i64>> {
    seq![
        seq![5i64, 6, 7, 8, 9, 9],
        seq![11i64, 13, 14, 16, 17, 20],
        seq![14i64, 16, 19, 21, 24, 26],
        seq![21i64, 25, 28, 32, 36, 40],
        seq![31i64, 37, 42, 48, 53, 59],
        seq![42i64, 48, 57, 63, 72, 78],
        seq![53i64, 59, 72, 78, 91, 97],
        seq![67i64, 75, 91, 99, 115, 123],
        seq![82i64, 90, 111, 119, 140, 148],
        seq![97i64, 105, 131, 139, 165, 173],
        seq![112i64, 120, 151, 159, 190, 198],
        seq![127i64, 135, 171, 179, 215, 223],
        seq![142i64, 150, 191, 199, 240, 248],
        seq![157i64, 165, 211, 219, 265, 273],
        seq![172i64, 180, 231, 239, 290, 298],
        seq![187i64, 195, 251, 259, 315, 323],
        seq![202i64, 210, 271, 279, 340, 348],
        seq![217i64, 225, 291, 299, 365, 373],
        seq![232i64, 240, 311, 319, 390, 398],
        seq![247i64, 255, 331, 339, 415, 423],
        seq![262i64, 270, 351, 359, 440, 448],
        seq![277i64, 285, 371, 379, 465, 473],
        seq![295i64, 305, 395, 405, 495, 505],
        seq![317i64, 329, 424, 436, 532, 544],
        seq![339i64, 351, 454, 466, 569, 581],
        seq![367i64, 383, 492, 508, 617, 633],
    ]
}

/// The proficiency labels of the hit points table.
pub open spec fn spec_hit_points_proficiencies() -> Seq<Proficiency> {
    seq![Proficiency::Low, Proficiency::Low, Proficiency::Moderate, Proficiency::Moderate, Proficiency::High, Proficiency::High]
}

/// The rows of the resistance weakness table.
pub open spec fn spec_resistance_weakness_values() -> Seq<Seq<i64>> {
    seq![
        seq![1i64, 1],
        seq![1i64, 3],
        seq![2i64, 3],
        seq![2i64, 5],
        seq![3i64, 6],
        seq![4i64, 7],
        seq![4i64, 8],
        seq![5i64, 9],
        seq![5i64, 10],
        seq![6i64, 11],
        seq![6i64, 12],
        seq![7i64, 13],
        seq![7i64, 14],
        seq![8i64, 15],
        seq![8i64, 16],
        seq![9i64, 17],
        seq![9i64, 18],
        seq![9i64, 19],
        seq![10i64, 19],
        seq![10i64, 20],
        seq![11i64, 21],
        seq![11i64, 22],
        seq![12i64, 23],
        seq![12i64, 24],
        seq![13i64, 25],
        seq![13i64, 26],
    ]
}

/// The proficiency labels of the resistance weakness table.
pub open spec fn spec_resistance_weakness_proficiencies() -> Seq<Proficiency> {
    seq![Proficiency::Low, Proficiency::High]
}

/// The rows of the strike attack bonus table.
pub open spec fn spec_strike_attack_bonus_values() -> Seq<Seq<i64>> {
    seq![
        seq![4i64, 6, 8, 10],
        seq![4i64, 6, 8, 10],
        seq![5i64, 7, 9, 11],
        seq![7i64, 9, 11, 13],
        seq![8i64, 10, 12, 14],
        seq![9i64, 12, 14, 16],
        seq![11i64, 13, 15, 17],
        seq![12i64, 15, 17, 19],
        seq![13i64, 16, 18, 20],
        seq![15i64, 18, 20, 22],
        seq![16i64, 19, 21, 23],
        seq![17i64, 21, 23, 25],
        seq![19i64, 22, 24, 27],
        seq![20i64, 24, 26, 28],
        seq![21i64, 25, 27, 29],
        seq![23i64, 27, 29, 31],
        seq![24i64, 28, 30, 32],
        seq![25i64, 30, 32, 34],
        seq![27i64, 31, 33, 35],
        seq![28i64, 33, 35, 37],
        seq![29i64, 34, 36, 38],
        seq![31i64, 36, 38, 40],
        seq![32i64, 37, 39, 41],
        seq![33i64, 39, 41, 43],
        seq![35i64, 40, 42, 44],
        seq![36i64, 42, 44, 46],
    ]
}

/// The proficiency labels of the strike attack bonus table.
pub open spec fn spec_strike_attack_bonus_proficiencies() -> Seq<Proficiency> {
    seq![Proficiency::Low, Proficiency::Moderate, Proficiency::High, Proficiency::Extreme]
}

/// The rows of the strike damage table.
pub open spec fn spec_strike_damage_values() -> Seq<Seq<i64>> {
    seq![
        seq![2i64, 3, 3, 4],
        seq![3i64, 4, 5, 6],
        seq![4i64, 5, 6, 8],
        seq![6i64, 8, 9, 11],
        seq![8i64, 10, 12, 15],
        seq![9i64, 12, 14, 18],
        seq![11i64, 13, 16, 20],
        seq![12i64, 15, 18, 23],
        seq![13i64, 17, 20, 25],
        seq![15i64, 18, 22, 28],
        seq![16i64, 20, 24, 30],
        seq![17i64, 22, 26, 33],
        seq![19i64, 23, 28, 35],
        seq![20i64, 25, 30, 38],
        seq![21i64, 27, 32, 40],
        seq![23i64, 28, 34, 43],
        seq![24i64, 30, 36, 45],
        seq![25i64, 31, 37, 48],
        seq![26i64, 32, 38, 50],
        seq![27i64, 33, 40, 53],
        seq![28i64, 35, 42, 55],
        seq![29i64, 37, 44, 58],
        seq![31i64, 38, 46, 60],
        seq![32i64, 40, 48, 63],
        seq![33i64, 42, 50, 65],
        seq![35i64, 44, 52, 68],
    ]
}

/// The proficiency labels of the strike damage table.
pub open spec fn spec_strike_damage_proficiencies() -> Seq<Proficiency> {
    seq![Proficiency::Low, Proficiency::Moderate, Proficiency::High, Proficiency::Extreme]
}

/// The rows of the spell dc table.
pub open spec fn spec_spell_dc_values() -> Seq<Seq<i64>> {
    seq![
        seq![13i64, 16, 19],
        seq![13i64, 16, 19],
        seq![14i64, 17, 20],
        seq![15i64, 18, 22],
        seq![17i64, 20, 23],
        seq![18i64, 21, 25],
        seq![19i64, 22, 26],
        seq![21i64, 24, 27],
        seq![22i64, 25, 29],
        seq![23i64, 26, 30],
        seq![25i64, 28, 32],
        seq![26i64, 29, 33],
        seq![27i64, 30, 34],
        seq![29i64, 32, 36],
        seq![30i64, 33, 37],
        seq![31i64, 34, 39],
        seq![33i64, 36, 40],
        seq![34i64, 37, 41],
        seq![35i64, 38, 43],
        seq![37i64, 40, 44],
        seq![38i64, 41, 46],
        seq![39i64, 42, 47],
        seq![41i64, 44, 48],
        seq![42i64, 45, 50],
        seq![43i64, 46, 51],
        seq![45i64, 48, 52],
    ]
}

/// The proficiency labels of the spell dc table.
pub open spec fn spec_spell_dc_proficiencies() -> Seq<Proficiency> {
    seq![Proficiency::Moderate, Proficiency::High, Proficiency::Extreme]
}

/// The rows of the spell attack bonus table.
pub open spec fn spec_spell_attack_bonus_values() -> Seq<Seq<i64>> {
    seq![
        seq![5i64, 8, 11],
        seq![5i64, 8, 11],
        seq![6i64, 9, 12],
        seq![7i64, 10, 14],
        seq![9i64, 12, 15],
        seq![10i64, 13, 17],
        seq![11i64, 14, 18],
        seq![13i64, 16, 19],
        seq![14i64, 17, 21],
        seq![15i64, 18, 22],
        seq![17i64, 20, 24],
        seq![18i64, 21, 25],
        seq![19i64, 22, 26],
        seq![21i64, 24, 28],
        seq![22i64, 25, 29],
        seq![23i64, 26, 31],
        seq![25i64, 28, 32],
        seq![26i64, 29, 33],
        seq![27i64, 30, 35],
        seq![29i64, 32, 36],
        seq![30i64, 33, 38],
        seq![31i64, 34, 39],
        seq![33i64, 36, 40],
        seq![34i64, 37, 42],
        seq![35i64, 38, 43],
        seq![37i64, 40, 44],
    ]
}

/// The proficiency labels of the spell attack bonus table.
pub open spec fn spec_spell_attack_bonus_proficiencies() -> Seq<Proficiency> {
    seq![Proficiency::Moderate, Proficiency::High, Proficiency::Extreme]
}

/// The rows of the unlimited area damage table.
pub open spec fn spec_unlimited_area_damage_values() -> Seq<Seq<i64>> {
    seq![
        seq![2i64],
        seq![4i64],
        seq![5i64],
        seq![7i64],
        seq![9i64],
        seq![11i64],
        seq![12i64],
        seq![14i64],
        seq![15i64],
        seq![17i64],
        seq![18i64],
        seq![20i64],
        seq![21i64],
        seq![23i64],
        seq![24i64],
        seq![26i64],
        seq![27i64],
        seq![28i64],
        seq![29i64],
        seq![30i64],
        seq![32i64],
        seq![33i64],
        seq![35i64],
        seq![36i64],
        seq![38i64],
        seq![39i64],
    ]
}

/// The proficiency labels of the unlimited area damage table.
pub open spec fn spec_unlimited_area_damage_proficiencies() -> Seq<Proficiency> {
    seq![Proficiency::Moderate]
}

/// The rows of the limited area damage table.
pub open spec fn spec_limited_area_damage_values() -> Seq<Seq<i64>> {
    seq![
        seq![4i64],
        seq![6i64],
        seq![7i64],
        seq![11i64],
        seq![14i64],
        seq![18i64],
        seq![21i64],
        seq![25i64],
        seq![28i64],
        seq![32i64],
        seq![35i64],
        seq![39i64],
        seq![42i64],
        seq![46i64],
        seq![49i64],
        seq![53i64],
        seq![56i64],
        seq![60i64],
        seq![63i64],
        seq![67i64],
        seq![70i64],
        seq![74i64],
        seq![77i64],
        seq![81i64],
        seq![84i64],
        seq![88i64],
    ]
}

/// The proficiency labels of the limited area damage table.
pub open spec fn spec_limited_area_damage_proficiencies() -> Seq<Proficiency> {
    seq![Proficiency::Moderate]
}

fn perception() -> (r: Option<StatTable>)
    ensures
        r is Some,
        r matches Some(t) ==> t.wf()
            && table_matches(t, spec_perception_values(), spec_perception_proficiencies()),
{
    let values: Vec<Vec<i64>> = vec![
        vec![0, 2, 5, 8, 9],
        vec![1, 3, 6, 9, 10],
        vec![2, 4, 7, 10, 11],
        vec![3, 5, 8, 11, 12],
        vec![4, 6, 9, 12, 14],
        vec![6, 8, 11, 14, 15],
        vec![7, 9, 12, 15, 17],
        vec![8, 11, 14, 17, 18],
        vec![10, 12, 15, 18, 20],
        vec![11, 13, 16, 19, 21],
        vec![12, 15, 18, 21, 23],
        vec![14, 16, 19, 22, 24],
        vec![15, 18, 21, 24, 26],
        vec![16, 19, 22, 25, 27],
        vec![18, 20, 23, 26, 29],
        vec![19, 22, 25, 28, 30],
        vec![20, 23, 26, 29, 32],
        vec![22, 25, 28, 30, 33],
        vec![23, 26, 29, 32, 35],
        vec![24, 27, 30, 33, 36],
        vec![26, 29, 32, 35, 38],
        vec![27, 30, 33, 36, 39],
        vec![28, 32, 35, 38, 41],
        vec![30, 33, 36, 39, 43],
        vec![31, 34, 37, 40, 44],
        vec![32, 36, 38, 42, 46],
    ];

    let proficiencies: Vec<Proficiency> = vec![
        Proficiency::Terrible,
        Proficiency::Low,
        Proficiency::Moderate,
        Proficiency::High,
        Proficiency::Extreme,
    ];

    proof {
        assert(proficiencies@ =~= spec_perception_proficiencies());
        assert forall|i: int| 0 <= i < spec_perception_values().len()
            implies (#[trigger] values@[i])@ == spec_perception_values()[i] by {
            assert(values@[i]@ =~= spec_perception_values()[i]);
        }
        assert(values@.len() == spec_perception_values().len());
    }

    StatTable::new(values, proficiencies)
}

fn skills() -> (r: Option<StatTable>)
    ensures
        r is Some,
        r matches Some(t) ==> t.wf()
            && table_matches(t, spec_skills_values(), spec_skills_proficiencies()),
{
    let values: Vec<Vec<i64>> = vec![
        vec![1, 2, 4, 5, 8],
        vec![2, 3, 5, 6, 9],
        vec![3, 4, 6, 7, 10],
        vec![4, 5, 7, 8, 11],
        vec![5, 7, 9, 10, 13],
        vec![7, 8, 10, 12, 15],
        vec![8, 10, 12, 13, 16],
        vec![9, 11, 13, 15, 18],
        vec![11, 13, 15, 17, 20],
        vec![12, 14, 16, 18, 21],
        vec![13, 16, 18, 20, 23],
        vec![15, 17, 19, 22, 25],
        vec![16, 19, 21, 23, 26],
        vec![17, 20, 22, 25, 28],
        vec![19, 22, 24, 27, 30],
        vec![20, 23, 25, 28, 31],
        vec![21, 25, 27, 30, 33],
        vec![23, 26, 28, 32, 35],
        vec![24, 28, 30, 33, 36],
        vec![25, 29, 31, 35, 38],
        vec![27, 31, 33, 37, 40],
        vec![28, 32, 34, 38, 41],
        vec![29, 34, 36, 40, 43],
        vec![31, 35, 37, 42, 45],
        vec![32, 36, 38, 43, 46],
        vec![33, 38, 40, 45, 48],
    ];

    let proficiencies: Vec<Proficiency> = vec![
        Proficiency::Low,
        Proficiency::Low,
        Proficiency::Moderate,
        Proficiency::High,
        Proficiency::Extreme,
    ];

    proof {
        assert(proficiencies@ =~= spec_skills_proficiencies());
        assert forall|i: int| 0 <= i < spec_skills_values().len()
            implies (#[trigger] values@[i])@ == spec_skills_values()[i] by {
            assert(values@[i]@ =~= spec_skills_values()[i]);
        }
        assert(values@.len() == spec_skills_values().len());
    }

    StatTable::new(values, proficiencies)
}

fn armor_class() -> (r: Option<StatTable>)
    ensures
        r is Some,
        r matches Some(t) ==> t.wf()
            && table_matches(t, spec_armor_class_values(), spec_armor_class_proficiencies()),
{
    let values: Vec<Vec<i64>> = vec![
        vec![12, 14, 15, 18],
        vec![13, 15, 16, 19],
        vec![13, 15, 16, 19],
        vec![15, 17, 18, 21],
        vec![16, 18, 19, 22],
        vec![18, 20, 21, 24],
        vec![19, 21, 22, 25],
        vec![21, 23, 24, 27],
        vec![22, 24, 25, 28],
        vec![24, 26, 27, 30],
        vec![25, 27, 28, 31],
        vec![27, 29, 30, 33],
        vec![28, 30, 31, 34],
        vec![30, 32, 33, 36],
        vec![31, 33, 34, 37],
        vec![33, 35, 36, 39],
        vec![34, 36, 37, 40],
        vec![36, 38, 39, 42],
        vec![37, 39, 40, 43],
        vec![39, 41, 42, 45],
        vec![40, 42, 43, 46],
        vec![42, 44, 45, 48],
        vec![43, 45, 46, 49],
        vec![45, 47, 48, 51],
        vec![46, 48, 49, 52],
        vec![48, 50, 51, 54],
    ];

    let proficiencies: Vec<Proficiency> = vec![
        Proficiency::Low,
        Proficiency::Moderate,
        Proficiency::High,
        Proficiency::Extreme,
    ];

    proof {
        assert(proficiencies@ =~= spec_armor_class_proficiencies());
        assert forall|i: int| 0 <= i < spec_armor_class_values().len()
            implies (#[trigger] values@[i])@ == spec_armor_class_values()[i] by {
            assert(values@[i]@ =~= spec_armor_class_values()[i]);
        }
        assert(values@.len() == spec_armor_class_values().len());
    }

    StatTable::new(values, proficiencies)
}

fn saving_throws() -> (r: Option<StatTable>)
    ensures
        r is Some,
        r matches Some(t) ==> t.wf()
            && table_matches(t, spec_saving_throws_values(), spec_saving_throws_proficiencies()),
{
    let values: Vec<Vec<i64>> = vec![
        vec![0, 2, 5, 8, 9],
        vec![1, 3, 6, 9, 10],
        vec![2, 4, 7, 10, 11],
        vec![3, 5, 8, 11, 12],
        vec![4, 6, 9, 12, 14],
        vec![6, 8, 11, 14, 15],
        vec![7, 9, 12, 15, 17],
        vec![8, 11, 14, 17, 18],
        vec![10, 12, 15, 18, 20],
        vec![11, 13, 16, 19, 21],
        vec![12, 15, 18, 21, 23],
        vec![14, 16, 19, 22, 24],
        vec![15, 18, 21, 24, 26],
        vec![16, 19, 22, 25, 27],
        vec![18, 20, 23, 26, 29],
        vec![19, 22, 25, 28, 30],
        vec![20, 23, 26, 29, 32],
        vec![22, 25, 28, 30, 33],
        vec![23, 26, 29, 32, 35],
        vec![24, 27, 30, 33, 36],
        vec![26, 29, 32, 35, 38],
        vec![27, 30, 33, 36, 39],
        vec![28, 32, 35, 38, 41],
        vec![30, 33, 36, 39, 43],
        vec![31, 34, 37, 40, 44],
        vec![32, 36, 38, 42, 46],
    ];

    let proficiencies: Vec<Proficiency> = vec![
        Proficiency::Terrible,
        Proficiency::Low,
        Proficiency::Moderate,
        Proficiency::High,
        Proficiency::Extreme,
    ];

    proof {
        assert(proficiencies@ =~= spec_saving_throws_proficiencies());
        assert forall|i: int| 0 <= i < spec_saving_throws_values().len()
            implies (#[trigger] values@[i])@ == spec_saving_throws_values()[i] by {
            assert(values@[i]@ =~= spec_saving_throws_values()[i]);
        }
        assert(values@.len() == spec_saving_throws_values().len());
    }

    StatTable::new(values, proficiencies)
}

fn hit_points() -> (r: Option<StatTable>)
    ensures
        r is Some,
        r matches Some(t) ==> t.wf()
            && table_matches(t, spec_hit_points_values(), spec_hit_points_proficiencies()),
{
    let values: Vec<Vec<i64>> = vec![
        vec![5, 6, 7, 8, 9, 9],
        vec![11, 13, 14, 16, 17, 20],
        vec![14, 16, 19, 21, 24, 26],
        vec![21, 25, 28, 32, 36, 40],
        vec![31, 37, 42, 48, 53, 59],
        vec![42, 48, 57, 63, 72, 78],
        vec![53, 59, 72, 78, 91, 97],
        vec![67, 75, 91, 99, 115, 123],
        vec![82, 90, 111, 119, 140, 148],
        vec![97, 105, 131, 139, 165, 173],
        vec![112, 120, 151, 159, 190, 198],
        vec![127, 135, 171, 179, 215, 223],
        vec![142, 150, 191, 199, 240, 248],
        vec![157, 165, 211, 219, 265, 273],
        vec![172, 180, 231, 239, 290, 298],
        vec![187, 195, 251, 259, 315, 323],
        vec![202, 210, 271, 279, 340, 348],
        vec![217, 225, 291, 299, 365, 373],
        vec![232, 240, 311, 319, 390, 398],
        vec![247, 255, 331, 339, 415, 423],
        vec![262, 270, 351, 359, 440, 448],
        vec![277, 285, 371, 379, 465, 473],
        vec![295, 305, 395, 405, 495, 505],
        vec![317, 329, 424, 436, 532, 544],
        vec![339, 351, 454, 466, 569, 581],
        vec![367, 383, 492, 508, 617, 633],
    ];

    let proficiencies: Vec<Proficiency> = vec![
        Proficiency::Low,
        Proficiency::Low,
        Proficiency::Moderate,
        Proficiency::Moderate,
        Proficiency::High,
        Proficiency::High,
    ];

    proof {
        assert(proficiencies@ =~= spec_hit_points_proficiencies());
        assert forall|i: int| 0 <= i < spec_hit_points_values().len()
            implies (#[trigger] values@[i])@ == spec_hit_points_values()[i] by {
            assert(values@[i]@ =~= spec_hit_points_values()[i]);
        }
        assert(values@.len() == spec_hit_points_values().len());
    }

    StatTable::new(values, proficiencies)
}

fn resistance_weakness() -> (r: Option<StatTable>)
    ensures
        r is Some,
        r matches Some(t) ==> t.wf()
            && table_matches(t, spec_resistance_weakness_values(), spec_resistance_weakness_proficiencies()),
{
    let values: Vec<Vec<i64>> = vec![
        vec![1, 1],
        vec![1, 3],
        vec![2, 3],
        vec![2, 5],
        vec![3, 6],
        vec![4, 7],
        vec![4, 8],
        vec![5, 9],
        vec![5, 10],
        vec![6, 11],
        vec![6, 12],
        vec![7, 13],
        vec![7, 14],
        vec![8, 15],
        vec![8, 16],
        vec![9, 17],
        vec![9, 18],
        vec![9, 19],
        vec![10, 19],
        vec![10, 20],
        vec![11, 21],
        vec![11, 22],
        vec![12, 23],
        vec![12, 24],
        vec![13, 25],
        vec![13, 26],
    ];

    let proficiencies: Vec<Proficiency> = vec![Proficiency::Low, Proficiency::High];

    proof {
        assert(proficiencies@ =~= spec_resistance_weakness_proficiencies());
        assert forall|i: int| 0 <= i < spec_resistance_weakness_values().len()
            implies (#[trigger] values@[i])@ == spec_resistance_weakness_values()[i] by {
            assert(values@[i]@ =~= spec_resistance_weakness_values()[i]);
        }
        assert(values@.len() == spec_resistance_weakness_values().len());
    }

    StatTable::new(values, proficiencies)
}

fn strike_attack_bonus() -> (r: Option<StatTable>)
    ensures
        r is Some,
        r matches Some(t) ==> t.wf()
            && table_matches(t, spec_strike_attack_bonus_values(), spec_strike_attack_bonus_proficiencies()),
{
    let values: Vec<Vec<i64>> = vec![
        vec![4, 6, 8, 10],
        vec![4, 6, 8, 10],
        vec![5, 7, 9, 11],
        vec![7, 9, 11, 13],
        vec![8, 10, 12, 14],
        vec![9, 12, 14, 16],
        vec![11, 13, 15, 17],
        vec![12, 15, 17, 19],
        vec![13, 16, 18, 20],
        vec![15, 18, 20, 22],
        vec![16, 19, 21, 23],
        vec![17, 21, 23, 25],
        vec![19, 22, 24, 27],
        vec![20, 24, 26, 28],
        vec![21, 25, 27, 29],
        vec![23, 27, 29, 31],
        vec![24, 28, 30, 32],
        vec![25, 30, 32, 34],
        vec![27, 31, 33, 35],
        vec![28, 33, 35, 37],
        vec![29, 34, 36, 38],
        vec![31, 36, 38, 40],
        vec![32, 37, 39, 41],
        vec![33, 39, 41, 43],
        vec![35, 40, 42, 44],
        vec![36, 42, 44, 46],
    ];

    let proficiencies: Vec<Proficiency> = vec![
        Proficiency::Low,
        Proficiency::Moderate,
        Proficiency::High,
        Proficiency::Extreme,
    ];

    proof {
        assert(proficiencies@ =~= spec_strike_attack_bonus_proficiencies());
        assert forall|i: int| 0 <= i < spec_strike_attack_bonus_values().len()
            implies (#[trigger] values@[i])@ == spec_strike_attack_bonus_values()[i] by {
            assert(values@[i]@ =~= spec_strike_attack_bonus_values()[i]);
        }
        assert(values@.len() == spec_strike_attack_bonus_values().len());
    }

    StatTable::new(values, proficiencies)
}

fn strike_damage() -> (r: Option<StatTable>)
    ensures
        r is Some,
        r matches Some(t) ==> t.wf()
            && table_matches(t, spec_strike_damage_values(), spec_strike_damage_proficiencies()),
{
    let values: Vec<Vec<i64>> = vec![
        vec![2, 3, 3, 4],
        vec![3, 4, 5, 6],
        vec![4, 5, 6, 8],
        vec![6, 8, 9, 11],
        vec![8, 10, 12, 15],
        vec![9, 12, 14, 18],
        vec![11, 13, 16, 20],
        vec![12, 15, 18, 23],
        vec![13, 17, 20, 25],
        vec![15, 18, 22, 28],
        vec![16, 20, 24, 30],
        vec![17, 22, 26, 33],
        vec![19, 23, 28, 35],
        vec![20, 25, 30, 38],
        vec![21, 27, 32, 40],
        vec![23, 28, 34, 43],
        vec![24, 30, 36, 45],
        vec![25, 31, 37, 48],
        vec![26, 32, 38, 50],
        vec![27, 33, 40, 53],
        vec![28, 35, 42, 55],
        vec![29, 37, 44, 58],
        vec![31, 38, 46, 60],
        vec![32, 40, 48, 63],
        vec![33, 42, 50, 65],
        vec![35, 44, 52, 68],
    ];

    let proficiencies: Vec<Proficiency> = vec![
        Proficiency::Low,
        Proficiency::Moderate,
        Proficiency::High,
        Proficiency::Extreme,
    ];

    proof {
        assert(proficiencies@ =~= spec_strike_damage_proficiencies());
        assert forall|i: int| 0 <= i < spec_strike_damage_values().len()
            implies (#[trigger] values@[i])@ == spec_strike_damage_values()[i] by {
            assert(values@[i]@ =~= spec_strike_damage_values()[i]);
        }
        assert(values@.len() == spec_strike_damage_values().len());
    }

    StatTable::new(values, proficiencies)
}

fn spell_dc() -> (r: Option<StatTable>)
    ensures
        r is Some,
        r matches Some(t) ==> t.wf()
            && table_matches(t, spec_spell_dc_values(), spec_spell_dc_proficiencies()),
{
    let values: Vec<Vec<i64>> = vec![
        vec![13, 16, 19],
        vec![13, 16, 19],
        vec![14, 17, 20],
        vec![15, 18, 22],
        vec![17, 20, 23],
        vec![18, 21, 25],
        vec![19, 22, 26],
        vec![21, 24, 27],
        vec![22, 25, 29],
        vec![23, 26, 30],
        vec![25, 28, 32],
        vec![26, 29, 33],
        vec![27, 30, 34],
        vec![29, 32, 36],
        vec![30, 33, 37],
        vec![31, 34, 39],
        vec![33, 36, 40],
        vec![34, 37, 41],
        vec![35, 38, 43],
        vec![37, 40, 44],
        vec![38, 41, 46],
        vec![39, 42, 47],
        vec![41, 44, 48],
        vec![42, 45, 50],
        vec![43, 46, 51],
        vec![45, 48, 52],
    ];

    let proficiencies: Vec<Proficiency> = vec![
        Proficiency::Moderate,
        Proficiency::High,
        Proficiency::Extreme,
    ];

    proof {
        assert(proficiencies@ =~= spec_spell_dc_proficiencies());
        assert forall|i: int| 0 <= i < spec_spell_dc_values().len()
            implies (#[trigger] values@[i])@ == spec_spell_dc_values()[i] by {
            assert(values@[i]@ =~= spec_spell_dc_values()[i]);
        }
        assert(values@.len() == spec_spell_dc_values().len());
    }

    StatTable::new(values, proficiencies)
}

fn spell_attack_bonus() -> (r: Option<StatTable>)
    ensures
        r is Some,
        r matches Some(t) ==> t.wf()
            && table_matches(t, spec_spell_attack_bonus_values(), spec_spell_attack_bonus_proficiencies()),
{
    let values: Vec<Vec<i64>> = vec![
        vec![5, 8, 11],
        vec![5, 8, 11],
        vec![6, 9, 12],
        vec![7, 10, 14],
        vec![9, 12, 15],
        vec![10, 13, 17],
        vec![11, 14, 18],
        vec![13, 16, 19],
        vec![14, 17, 21],
        vec![15, 18, 22],
        vec![17, 20, 24],
        vec![18, 21, 25],
        vec![19, 22, 26],
        vec![21, 24, 28],
        vec![22, 25, 29],
        vec![23, 26, 31],
        vec![25, 28, 32],
        vec![26, 29, 33],
        vec![27, 30, 35],
        vec![29, 32, 36],
        vec![30, 33, 38],
        vec![31, 34, 39],
        vec![33, 36, 40],
        vec![34, 37, 42],
        vec![35, 38, 43],
        vec![37, 40, 44],
    ];

    let proficiencies: Vec<Proficiency> = vec![
        Proficiency::Moderate,
        Proficiency::High,
        Proficiency::Extreme,
    ];

    proof {
        assert(proficiencies@ =~= spec_spell_attack_bonus_proficiencies());
        assert forall|i: int| 0 <= i < spec_spell_attack_bonus_values().len()
            implies (#[trigger] values@[i])@ == spec_spell_attack_bonus_values()[i] by {
            assert(values@[i]@ =~= spec_spell_attack_bonus_values()[i]);
        }
        assert(values@.len() == spec_spell_attack_bonus_values().len());
    }

    StatTable::new(values, proficiencies)
}

fn unlimited_area_damage() -> (r: Option<StatTable>)
    ensures
        r is Some,
        r matches Some(t) ==> t.wf()
            && table_matches(t, spec_unlimited_area_damage_values(), spec_unlimited_area_damage_proficiencies()),
{
    let values: Vec<Vec<i64>> = vec![
        vec![2],
        vec![4],
        vec![5],
        vec![7],
        vec![9],
        vec![11],
        vec![12],
        vec![14],
        vec![15],
        vec![17],
        vec![18],
        vec![20],
        vec![21],
        vec![23],
        vec![24],
        vec![26],
        vec![27],
        vec![28],
        vec![29],
        vec![30],
        vec![32],
        vec![33],
        vec![35],
        vec![36],
        vec![38],
        vec![39],
    ];

    let proficiencies: Vec<Proficiency> = vec![Proficiency::Moderate];

    proof {
        assert(proficiencies@ =~= spec_unlimited_area_damage_proficiencies());
        assert forall|i: int| 0 <= i < spec_unlimited_area_damage_values().len()
            implies (#[trigger] values@[i])@ == spec_unlimited_area_damage_values()[i] by {
            assert(values@[i]@ =~= spec_unlimited_area_damage_values()[i]);
        }
        assert(values@.len() == spec_unlimited_area_damage_values().len());
    }

    StatTable::new(values, proficiencies)
}

fn limited_area_damage() -> (r: Option<StatTable>)
    ensures
        r is Some,
        r matches Some(t) ==> t.wf()
            && table_matches(t, spec_limited_area_damage_values(), spec_limited_area_damage_proficiencies()),
{
    let values: Vec<Vec<i64>> = vec![
        vec![4],
        vec![6],
        vec![7],
        vec![11],
        vec![14],
        vec![18],
        vec![21],
        vec![25],
        vec![28],
        vec![32],
        vec![35],
        vec![39],
        vec![42],
        vec![46],
        vec![49],
        vec![53],
        vec![56],
        vec![60],
        vec![63],
        vec![67],
        vec![70],
        vec![74],
        vec![77],
        vec![81],
        vec![84],
        vec![88],
    ];

    let proficiencies: Vec<Proficiency> = vec![Proficiency::Moderate];

    proof {
        assert(proficiencies@ =~= spec_limited_area_damage_proficiencies());
        assert forall|i: int| 0 <= i < spec_limited_area_damage_values().len()
            implies (#[trigger] values@[i])@ == spec_limited_area_damage_values()[i] by {
            assert(values@[i]@ =~= spec_limited_area_damage_values()[i]);
        }
        assert(values@.len() == spec_limited_area_damage_values().len());
    }

    StatTable::new(values, proficiencies)
}

} // verus!
