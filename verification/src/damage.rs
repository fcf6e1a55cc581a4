//! Damage values: typed components and their aggregate.

use vstd::prelude::*;
use crate::fixed::{Fixed, HALF_SCALE, SCALE, MAX_UNITS};
use crate::scaling::MAX_STAT_UNITS;
use crate::tables::Proficiency;
use crate::text::{
    contains_char, digits_val, find_first, is_first_occurrence, is_last_occurrence,
    is_uint_literal, parse_uint, spec_trim, spec_uint_string, subvec, trim_vec,
};

verus! {

/// Largest value, in fixed-point units, a single parsed term can
/// denote before the aggregate limit is even considered.
pub const MAX_TERM_UNITS: i64 = 200_000_000_000_000_000;

/// One typed share of a damage expression: an expected value and the
/// name of the damage type it is dealt as.
#[derive(Clone, Debug)]
pub struct DamageComponent {
    pub average_value: Fixed,
    pub damage_type: String,
}

/// An ordered, non-empty list of damage components. The first one is
/// conventionally the main (physical) component; the order matters to
/// the rescaling policy.
#[derive(Clone, Debug)]
pub struct Damage {
    pub components: Vec<DamageComponent>,
}

/// Sum of the expected values of a component sequence.
pub open spec fn spec_total(components: Seq<DamageComponent>) -> int
    decreases components.len(),
{
    if components.len() == 0 {
        0
    } else {
        components.first().average_value@ + spec_total(components.drop_first())
    }
}

/// A total over non-negative components is non-negative.
pub proof fn lemma_total_nonneg(components: Seq<DamageComponent>)
    requires
        forall|i: int| 0 <= i < components.len()
            ==> 0 <= (#[trigger] components[i]).average_value@,
    ensures
        0 <= spec_total(components),
    decreases components.len(),
{
    if components.len() > 0 {
        assert(forall|i: int| 0 <= i < components.drop_first().len()
            ==> (#[trigger] components.drop_first()[i]) == components[i + 1]);
        lemma_total_nonneg(components.drop_first());
    }
}

/// No single non-negative component exceeds the total.
pub proof fn lemma_component_le_total(components: Seq<DamageComponent>, i: int)
    requires
        forall|k: int| 0 <= k < components.len()
            ==> 0 <= (#[trigger] components[k]).average_value@,
        0 <= i < components.len(),
    ensures
        components[i].average_value@ <= spec_total(components),
    decreases components.len(),
{
    assert(forall|k: int| 0 <= k < components.drop_first().len()
        ==> (#[trigger] components.drop_first()[k]) == components[k + 1]);
    if i == 0 {
        lemma_total_nonneg(components.drop_first());
    } else {
        lemma_component_le_total(components.drop_first(), i - 1);
    }
}

/// Appending a component adds its expected value to the total.
pub proof fn lemma_total_push(components: Seq<DamageComponent>, c: DamageComponent)
    ensures
        spec_total(components.push(c)) == spec_total(components) + c.average_value@,
    decreases components.len(),
{
    assert(components.push(c).len() == components.len() + 1);
    if components.len() == 0 {
        assert(components.push(c)[0] == c);
        assert(components.push(c).drop_first() =~= Seq::<DamageComponent>::empty());
        assert(spec_total(components.push(c))
            == c.average_value@ + spec_total(components.push(c).drop_first()));
    } else {
        assert(components.push(c)[0] == components[0]);
        assert(components.push(c).drop_first() =~= components.drop_first().push(c));
        lemma_total_push(components.drop_first(), c);
        assert(spec_total(components.push(c))
            == components[0].average_value@ + spec_total(components.drop_first().push(c)));
        assert(spec_total(components)
            == components[0].average_value@ + spec_total(components.drop_first()));
    }
}

/// Two component sequences that differ only in their first expected
/// value have totals that differ by the same amount.
pub proof fn lemma_total_first_changed(a: Seq<DamageComponent>, b: Seq<DamageComponent>)
    requires
        a.len() == b.len(),
        a.len() >= 1,
        forall|i: int| 1 <= i < a.len() ==> #[trigger] a[i].average_value@ == b[i].average_value@,
    ensures
        spec_total(b) - spec_total(a) == b[0].average_value@ - a[0].average_value@,
    decreases a.len(),
{
    assert(forall|k: int| 0 <= k < a.drop_first().len()
        ==> (#[trigger] a.drop_first()[k]) == a[k + 1]);
    assert(forall|k: int| 0 <= k < b.drop_first().len()
        ==> (#[trigger] b.drop_first()[k]) == b[k + 1]);
    assert(spec_total(a) == a[0].average_value@ + spec_total(a.drop_first()));
    assert(spec_total(b) == b[0].average_value@ + spec_total(b.drop_first()));
    if a.len() == 1 {
        assert(a.drop_first().len() == 0);
        assert(spec_total(a.drop_first()) == 0);
        assert(spec_total(b.drop_first()) == 0);
    } else {
        lemma_total_first_changed(a.drop_first(), b.drop_first());
        assert(a.drop_first()[0].average_value@ == b.drop_first()[0].average_value@);
    }
}

impl Damage {
    /// Every component has a non-negative expected value within the
    /// supported magnitude.
    pub open spec fn components_in_bounds(self) -> bool {
        forall|i: int| 0 <= i < self.components@.len()
            ==> 0 <= (#[trigger] self.components@[i]).average_value@ <= MAX_UNITS
    }

    /// A well-formed damage list: non-empty, bounded components, and a
    /// bounded aggregate.
    pub open spec fn wf(self) -> bool {
        &&& self.components@.len() >= 1
        &&& self.components_in_bounds()
        &&& spec_total(self.components@) <= MAX_UNITS
    }

    /// An empty damage list, to be filled component by component.
    pub fn new() -> (r: Damage)
        ensures
            r.components@.len() == 0,
    {
        Damage { components: Vec::new() }
    }

    /// The aggregate expected value: the sum of the components'.
    pub fn total_average_value(&self) -> (r: Fixed)
        requires
            self.components_in_bounds(),
            spec_total(self.components@) <= MAX_UNITS,
        ensures
            r@ == spec_total(self.components@),
            0 <= r@,
    {
        let s = Ghost(self.components@);
        let mut total = Fixed::from_int(0);
        let n = self.components.len();

        proof {
            assert(s@.skip(0) =~= s@);
            lemma_total_nonneg(s@);
        }

        for i in 0..n
            invariant
                n == s@.len(),
                s@ == self.components@,
                self.components_in_bounds(),
                spec_total(s@) <= MAX_UNITS,
                total@ == spec_total(s@) - spec_total(s@.skip(i as int)),
                0 <= total@,
        {
            proof {
                assert(s@.skip(i as int).drop_first() =~= s@.skip(i + 1));
                assert(s@.skip(i as int).first() == s@[i as int]);
                lemma_total_nonneg(s@.skip(i + 1));
                lemma_total_nonneg(s@.skip(i as int));
            }
            total = total.add(self.components[i].average_value);
        }

        proof {
            assert(s@.skip(n as int) =~= Seq::<DamageComponent>::empty());
        }

        total
    }
}

impl Default for Damage {
    /// An empty damage list, as `Damage::new` yields.
    fn default() -> (r: Damage)
        ensures
            r.components@.len() == 0,
    {
        Damage::new()
    }
}

/// The die sizes the grammar knows, written exactly as they must
/// appear after the `d`.
pub open spec fn die_sides(size: Seq<char>) -> Option<int> {
    if size.len() == 1 && size[0] as u32 == 52 {
        Some(4)
    } else if size.len() == 1 && size[0] as u32 == 54 {
        Some(6)
    } else if size.len() == 1 && size[0] as u32 == 56 {
        Some(8)
    } else if size.len() == 2 && size[0] as u32 == 49 && size[1] as u32 == 48 {
        Some(10)
    } else if size.len() == 2 && size[0] as u32 == 49 && size[1] as u32 == 50 {
        Some(12)
    } else {
        None
    }
}

/// The expected value, in fixed-point units, of a dice term `NdS`:
/// exactly one `d`, a positive integer count before it, a supported
/// even die size after it. One die of size `S` averages `(S + 1) / 2`.
pub open spec fn spec_dice_term(p: Seq<char>) -> Option<int> {
    let i = choose|i: int| is_first_occurrence(p, 'd', i);
    if is_first_occurrence(p, 'd', i) {
        let count = p.take(i);
        let size = p.skip(i + 1);
        if !contains_char(size, 'd') && is_uint_literal(count) && digits_val(count) >= 1
            && die_sides(size) is Some {
            Some(digits_val(count) * (die_sides(size).unwrap() + 1) * HALF_SCALE)
        } else {
            None
        }
    } else {
        None
    }
}

/// The value, in fixed-point units, of a flat term: a non-negative
/// integer literal.
pub open spec fn spec_flat_term(p: Seq<char>) -> Option<int> {
    if is_uint_literal(p) {
        Some(digits_val(p) * SCALE)
    } else {
        None
    }
}

/// The value of one term: any term holding a `d` must be a dice term;
/// anything else must be a flat modifier.
pub open spec fn spec_term(p: Seq<char>) -> Option<int> {
    if contains_char(p, 'd') {
        spec_dice_term(p)
    } else {
        spec_flat_term(p)
    }
}

/// The value of a damage expression: terms separated by `+`, each
/// trimmed, all or nothing.
pub open spec fn spec_expr_value(s: Seq<char>) -> Option<int>
    decreases s.len(),
{
    let i = choose|i: int| is_first_occurrence(s, '+', i);
    if is_first_occurrence(s, '+', i) {
        let head = spec_term(spec_trim(s.take(i)));
        let tail = spec_expr_value(s.skip(i + 1));
        if head is Some && tail is Some {
            Some(head.unwrap() + tail.unwrap())
        } else {
            None
        }
    } else {
        spec_term(spec_trim(s))
    }
}

/// A damage expression both parses and stays within the magnitude the
/// engine supports.
pub open spec fn spec_expr_fits(s: Seq<char>) -> bool {
    &&& spec_expr_value(s) is Some
    &&& spec_expr_value(s).unwrap() <= MAX_STAT_UNITS
}

/// The die size written after the `d`, if it is a supported one.
fn die_sides_of(size: &Vec<char>) -> (r: Option<i64>)
    ensures
        r is Some <==> die_sides(size@) is Some,
        r matches Some(x) ==> x == die_sides(size@).unwrap() && 4 <= x <= 12,
{
    if size.len() == 1 {
        let c = size[0] as u32;
        if c == 52 {
            Some(4)
        } else if c == 54 {
            Some(6)
        } else if c == 56 {
            Some(8)
        } else {
            None
        }
    } else if size.len() == 2 && size[0] as u32 == 49 {
        let c = size[1] as u32;
        if c == 48 {
            Some(10)
        } else if c == 50 {
            Some(12)
        } else {
            None
        }
    } else {
        None
    }
}

/// Parses a dice term `NdS` into its expected value.
fn parse_dice_term(p: &Vec<char>) -> (r: Option<i64>)
    ensures
        r is Some <==> spec_dice_term(p@) is Some,
        r matches Some(x) ==> Some(x as int) == spec_dice_term(p@) && 0 <= x <= MAX_TERM_UNITS,
{
    let i = match find_first(p, 'd') {
        Some(i) => i,
        None => {
            return None;
        },
    };

    proof {
        let j = choose|j: int| is_first_occurrence(p@, 'd', j);
        assert forall|k: int| is_first_occurrence(p@, 'd', k) implies k == i as int by {
            if k < i as int {
                assert(p@[k] != 'd');
            } else if k > i as int {
                assert(p@[i as int] != 'd');
            }
        }
        assert(j == i as int);
    }

    let n = p.len();
    proof {
        assert(i < n);
    }

    let count = subvec(p, 0, i);
    let size = subvec(p, i + 1, n);

    proof {
        assert(count@ =~= p@.take(i as int));
        assert(size@ =~= p@.skip(i + 1));
    }

    if find_first(&size, 'd').is_some() {
        return None;
    }

    let num_dice = match parse_uint(&count) {
        Some(x) => x,
        None => {
            return None;
        },
    };

    if num_dice < 1 {
        return None;
    }

    let sides = match die_sides_of(&size) {
        Some(s) => s,
        None => {
            return None;
        },
    };

    proof {
        assert(num_dice * (sides + 1) <= 2_147_483_647 * 13) by (nonlinear_arith)
            requires 0 <= num_dice < 2_147_483_648 && 0 <= sides + 1 <= 13;
        assert(num_dice * (sides + 1) >= 0) by (nonlinear_arith)
            requires 0 <= num_dice && 0 <= sides + 1;
        assert(num_dice * (sides + 1) * (HALF_SCALE as int) <= 2_147_483_647 * 13 * 5_000_000)
            by (nonlinear_arith)
            requires 0 <= num_dice * (sides + 1) <= 2_147_483_647 * 13;
    }

    Some(num_dice * (sides + 1) * HALF_SCALE)
}

/// Parses a flat modifier into its value.
fn parse_flat_term(p: &Vec<char>) -> (r: Option<i64>)
    ensures
        r is Some <==> spec_flat_term(p@) is Some,
        r matches Some(x) ==> Some(x as int) == spec_flat_term(p@) && 0 <= x <= MAX_TERM_UNITS,
{
    match parse_uint(p) {
        Some(n) => Some(n * SCALE),
        None => None,
    }
}

/// Parses one trimmed term, dice or flat.
fn parse_term(p: &Vec<char>) -> (r: Option<i64>)
    ensures
        r is Some <==> spec_term(p@) is Some,
        r matches Some(x) ==> Some(x as int) == spec_term(p@) && 0 <= x <= MAX_TERM_UNITS,
{
    match find_first(p, 'd') {
        Some(i) => {
            proof {
                assert(contains_char(p@, 'd'));
            }
            parse_dice_term(p)
        },
        None => parse_flat_term(p),
    }
}

/// Parses a whole `+`-separated expression into fixed-point units,
/// refusing totals past the magnitude the engine supports.
fn parse_expr_units(v: &Vec<char>) -> (r: Option<i64>)
    ensures
        r is Some <==> spec_expr_fits(v@),
        r matches Some(x) ==> Some(x as int) == spec_expr_value(v@) && 0 <= x <= MAX_STAT_UNITS,
    decreases v@.len(),
{
    let i = match find_first(v, '+') {
        Some(i) => i,
        None => {
            let t = trim_vec(v);
            return match parse_term(&t) {
                Some(x) => {
                    if x > MAX_STAT_UNITS {
                        None
                    } else {
                        Some(x)
                    }
                },
                None => None,
            };
        },
    };

    proof {
        let j = choose|j: int| is_first_occurrence(v@, '+', j);
        assert forall|k: int| is_first_occurrence(v@, '+', k) implies k == i as int by {
            if k < i as int {
                assert(v@[k] != '+');
            } else if k > i as int {
                assert(v@[i as int] != '+');
            }
        }
        assert(j == i as int);
    }

    let n = v.len();
    proof {
        assert(i < n);
    }

    let head = subvec(v, 0, i);
    let tail = subvec(v, i + 1, n);

    proof {
        assert(head@ =~= v@.take(i as int));
        assert(tail@ =~= v@.skip(i + 1));
    }

    let ht = trim_vec(&head);
    let hv = match parse_term(&ht) {
        Some(x) => x,
        None => {
            return None;
        },
    };

    let tv = match parse_expr_units(&tail) {
        Some(x) => x,
        None => {
            return None;
        },
    };

    let total = hv + tv;

    if total > MAX_STAT_UNITS {
        None
    } else {
        Some(total)
    }
}

/// Parses one dice term `NdS` on its own.
pub fn parse_dice_expression(dice: &str) -> (r: Option<Fixed>)
    ensures
        r is Some <==> (spec_dice_term(dice@) is Some && spec_dice_term(dice@).unwrap()
            <= MAX_STAT_UNITS),
        r matches Some(f) ==> Some(f@) == spec_dice_term(dice@),
{
    let v = crate::text::chars_of(dice);
    match parse_dice_term(&v) {
        Some(x) => {
            if x > MAX_STAT_UNITS {
                None
            } else {
                Some(Fixed::from_units(x))
            }
        },
        None => None,
    }
}

/// Parses one flat modifier on its own. The `+`-only grammar cannot
/// represent negative modifiers, so only non-negative integers parse.
pub fn parse_flat_modifier(modifier: &str) -> (r: Option<Fixed>)
    ensures
        r is Some <==> (spec_flat_term(modifier@) is Some && spec_flat_term(modifier@).unwrap()
            <= MAX_STAT_UNITS),
        r matches Some(f) ==> Some(f@) == spec_flat_term(modifier@),
{
    let v = crate::text::chars_of(modifier);
    match parse_flat_term(&v) {
        Some(x) => {
            if x > MAX_STAT_UNITS {
                None
            } else {
                Some(Fixed::from_units(x))
            }
        },
        None => None,
    }
}

/// Parses one trimmed damage component: an expression, a space, and
/// the damage type.
pub fn parse_damage_component(component: &str) -> (r: Option<DamageComponent>)
    ensures
        r is Some <==> spec_component(component@) is Some,
        r matches Some(dc) ==> {
            let p = spec_component(component@).unwrap();
            &&& dc.average_value@ == p.0
            &&& dc.damage_type@ == p.1
        },
{
    let v = crate::text::chars_of(component);
    parse_component_chars(&v)
}

/// Parses a textual damage expression, such as a dice term with flat
/// modifiers, into its expected value.
pub fn parse_damage_expression(s: &str) -> (r: Option<Fixed>)
    ensures
        r is Some <==> spec_expr_fits(s@),
        r matches Some(f) ==> Some(f@) == spec_expr_value(s@) && 0 <= f@ <= MAX_STAT_UNITS,
{
    let v = crate::text::chars_of(s);
    match parse_expr_units(&v) {
        Some(x) => Some(Fixed::from_units(x)),
        None => None,
    }
}

/// The parse of one trimmed damage component: the expression before
/// the last space, the damage type after it.
pub open spec fn spec_component(c: Seq<char>) -> Option<(int, Seq<char>)> {
    let i = choose|i: int| is_last_occurrence(c, ' ', i);
    if is_last_occurrence(c, ' ', i) {
        if spec_expr_fits(c.take(i)) {
            Some((spec_expr_value(c.take(i)).unwrap(), c.skip(i + 1)))
        } else {
            None
        }
    } else {
        None
    }
}

/// The word `plus` starts at position `i`.
pub open spec fn is_plus_word_at(s: Seq<char>, i: int) -> bool {
    &&& 0 <= i
    &&& i + 4 <= s.len()
    &&& s[i] == 'p'
    &&& s[i + 1] == 'l'
    &&& s[i + 2] == 'u'
    &&& s[i + 3] == 's'
}

/// `i` is the first position at which the word `plus` starts.
pub open spec fn is_first_plus_word(s: Seq<char>, i: int) -> bool {
    &&& is_plus_word_at(s, i)
    &&& forall|k: int| 0 <= k < i ==> !is_plus_word_at(s, k)
}

/// The parse of a damage specification: components joined by the word
/// `plus`, each trimmed, all or nothing.
pub open spec fn spec_components(s: Seq<char>) -> Option<Seq<(int, Seq<char>)>>
    decreases s.len(),
{
    let i = choose|i: int| is_first_plus_word(s, i);
    if is_first_plus_word(s, i) {
        let head = spec_component(spec_trim(s.take(i)));
        let tail = spec_components(s.skip(i + 4));
        if head is Some && tail is Some {
            Some(seq![head.unwrap()] + tail.unwrap())
        } else {
            None
        }
    } else {
        if spec_component(spec_trim(s)) is Some {
            Some(seq![spec_component(spec_trim(s)).unwrap()])
        } else {
            None
        }
    }
}

/// Sum of the expected values of parsed component pairs.
pub open spec fn spec_pairs_total(ps: Seq<(int, Seq<char>)>) -> int
    decreases ps.len(),
{
    if ps.len() == 0 {
        0
    } else {
        ps.first().0 + spec_pairs_total(ps.drop_first())
    }
}

/// The component pairs a damage specification denotes, after the
/// whole input is trimmed and lower-cased.
pub open spec fn spec_damage_pairs(s: Seq<char>) -> Option<Seq<(int, Seq<char>)>> {
    spec_components(spec_trim(crate::text::lower_seq(s)))
}

/// The specification parses and its aggregate stays within the
/// magnitude the engine supports.
pub open spec fn spec_damage_fits(s: Seq<char>) -> bool {
    &&& spec_damage_pairs(s) is Some
    &&& spec_pairs_total(spec_damage_pairs(s).unwrap()) <= MAX_STAT_UNITS
}

/// The total splits across any prefix/suffix boundary.
proof fn lemma_total_split(s: Seq<DamageComponent>, i: int)
    requires
        0 <= i <= s.len(),
    ensures
        spec_total(s) == spec_total(s.take(i)) + spec_total(s.skip(i)),
    decreases i,
{
    if i == 0 {
        assert(s.take(0) =~= Seq::<DamageComponent>::empty());
        assert(s.skip(0) =~= s);
    } else {
        assert(s.len() >= 1);
        lemma_total_split(s.drop_first(), i - 1);
        assert(s.take(i).drop_first() =~= s.drop_first().take(i - 1));
        assert(s.take(i).first() == s.first());
        assert(s.skip(i) =~= s.drop_first().skip(i - 1));
        assert(spec_total(s.take(i))
            == s.first().average_value@ + spec_total(s.drop_first().take(i - 1)));
        assert(spec_total(s) == s.first().average_value@ + spec_total(s.drop_first()));
    }
}

/// Components holding the same values as parsed pairs sum to the same
/// total.
pub proof fn lemma_pairs_total_eq(cs: Seq<DamageComponent>, ps: Seq<(int, Seq<char>)>)
    requires
        cs.len() == ps.len(),
        forall|k: int| 0 <= k < ps.len()
            ==> (#[trigger] cs[k]).average_value@ == ps[k].0,
    ensures
        spec_total(cs) == spec_pairs_total(ps),
    decreases cs.len(),
{
    if cs.len() > 0 {
        assert(forall|k: int| 0 <= k < cs.drop_first().len()
            ==> (#[trigger] cs.drop_first()[k]) == cs[k + 1]);
        assert(forall|k: int| 0 <= k < ps.drop_first().len()
            ==> (#[trigger] ps.drop_first()[k]) == ps[k + 1]);
        lemma_pairs_total_eq(cs.drop_first(), ps.drop_first());
    }
}

/// A copy of one component; the value is `Copy`, the type name is a
/// fresh `String` with the same characters.
fn clone_component(c: &DamageComponent) -> (r: DamageComponent)
    ensures
        r.average_value == c.average_value,
        r.damage_type@ == c.damage_type@,
{
    DamageComponent { average_value: c.average_value, damage_type: c.damage_type.clone() }
}

/// The first position at which the word `plus` starts, if any.
fn find_plus_word(v: &Vec<char>) -> (r: Option<usize>)
    ensures
        r matches Some(i) ==> is_first_plus_word(v@, i as int),
        r is None ==> forall|j: int| !is_first_plus_word(v@, j),
{
    if v.len() < 4 {
        return None;
    }

    let n = v.len();

    for i in 0..n - 3
        invariant
            n == v@.len(),
            4 <= n,
            forall|k: int| 0 <= k < i ==> !is_plus_word_at(v@, k),
    {
        if v[i] == 'p' && v[i + 1] == 'l' && v[i + 2] == 'u' && v[i + 3] == 's' {
            return Some(i);
        }
    }

    None
}

/// Parses one trimmed damage component.
fn parse_component_chars(c: &Vec<char>) -> (r: Option<DamageComponent>)
    ensures
        r is Some <==> spec_component(c@) is Some,
        r matches Some(dc) ==> {
            let p = spec_component(c@).unwrap();
            &&& dc.average_value@ == p.0
            &&& dc.damage_type@ == p.1
            &&& 0 <= dc.average_value@ <= MAX_STAT_UNITS
        },
{
    let i = match crate::text::find_last(c, ' ') {
        Some(i) => i,
        None => {
            return None;
        },
    };

    proof {
        let j = choose|j: int| is_last_occurrence(c@, ' ', j);
        assert forall|k: int| is_last_occurrence(c@, ' ', k) implies k == i as int by {
            if k < i as int {
                assert(c@[i as int] != ' ');
            } else if k > i as int {
                assert(c@[k] != ' ');
            }
        }
        assert(j == i as int);
    }

    let n = c.len();
    proof {
        assert(i < n);
    }

    let expr = subvec(c, 0, i);
    let dtype = subvec(c, i + 1, n);

    proof {
        assert(expr@ =~= c@.take(i as int));
        assert(dtype@ =~= c@.skip(i + 1));
    }

    let units = match parse_expr_units(&expr) {
        Some(x) => x,
        None => {
            return None;
        },
    };

    Some(DamageComponent {
        average_value: Fixed::from_units(units),
        damage_type: crate::text::string_from_chars(&dtype),
    })
}

/// Parses `plus`-separated components, all or nothing.
fn parse_components(v: &Vec<char>) -> (r: Option<Vec<DamageComponent>>)
    ensures
        r is Some <==> spec_components(v@) is Some,
        r matches Some(cs) ==> {
            let ps = spec_components(v@).unwrap();
            &&& cs@.len() == ps.len()
            &&& cs@.len() >= 1
            &&& forall|k: int| 0 <= k < ps.len() ==> {
                &&& (#[trigger] cs@[k]).average_value@ == ps[k].0
                &&& cs@[k].damage_type@ == ps[k].1
                &&& 0 <= cs@[k].average_value@ <= MAX_STAT_UNITS
            }
        },
    decreases v@.len(),
{
    let i = match find_plus_word(v) {
        Some(i) => i,
        None => {
            let t = trim_vec(v);
            return match parse_component_chars(&t) {
                Some(dc) => {
                    let mut cs: Vec<DamageComponent> = Vec::new();
                    cs.push(dc);
                    proof {
                        assert(cs@ =~= seq![cs@[0]]);
                    }
                    Some(cs)
                },
                None => None,
            };
        },
    };

    proof {
        let j = choose|j: int| is_first_plus_word(v@, j);
        assert forall|k: int| is_first_plus_word(v@, k) implies k == i as int by {
            if k < i as int {
                assert(!is_plus_word_at(v@, k));
            } else if k > i as int {
                assert(!is_plus_word_at(v@, i as int));
            }
        }
        assert(j == i as int);
    }

    let n = v.len();
    proof {
        assert(i + 4 <= n);
    }

    let headv = subvec(v, 0, i);
    let tailv = subvec(v, i + 4, n);

    proof {
        assert(headv@ =~= v@.take(i as int));
        assert(tailv@ =~= v@.skip(i + 4));
    }

    let ht = trim_vec(&headv);
    let head = match parse_component_chars(&ht) {
        Some(x) => x,
        None => {
            return None;
        },
    };

    let tail = match parse_components(&tailv) {
        Some(x) => x,
        None => {
            return None;
        },
    };

    let ghost ps = spec_components(v@).unwrap();
    let ghost tail_ps = spec_components(tailv@).unwrap();

    let mut cs: Vec<DamageComponent> = Vec::new();
    cs.push(head);

    for k in 0..tail.len()
        invariant
            cs@.len() == k + 1,
            ps.len() == tail_ps.len() + 1,
            tail@.len() == tail_ps.len(),
            cs@[0].average_value@ == ps[0].0,
            cs@[0].damage_type@ == ps[0].1,
            0 <= cs@[0].average_value@ <= MAX_STAT_UNITS,
            ps[0] == spec_component(spec_trim(v@.take(i as int))).unwrap(),
            forall|m: int| 0 <= m < tail_ps.len() ==> ps[m + 1] == tail_ps[m],
            forall|m: int| 0 <= m < tail_ps.len() ==> {
                &&& (#[trigger] tail@[m]).average_value@ == tail_ps[m].0
                &&& tail@[m].damage_type@ == tail_ps[m].1
                &&& 0 <= tail@[m].average_value@ <= MAX_STAT_UNITS
            },
            forall|m: int| 1 <= m < k + 1 ==> {
                &&& (#[trigger] cs@[m]).average_value@ == ps[m].0
                &&& cs@[m].damage_type@ == ps[m].1
                &&& 0 <= cs@[m].average_value@ <= MAX_STAT_UNITS
            },
    {
        cs.push(clone_component(&tail[k]));
    }

    Some(cs)
}

/// Parses a full damage specification: damage components joined by
/// the word `plus`, case-insensitively, whitespace ignored.
#[verifier::loop_isolation(false)]
pub fn parse_damage(s: &str) -> (r: Option<Damage>)
    ensures
        r is Some <==> spec_damage_fits(s@),
        r matches Some(d) ==> {
            let ps = spec_damage_pairs(s@).unwrap();
            &&& d.components@.len() == ps.len()
            &&& forall|k: int| 0 <= k < ps.len() ==> {
                &&& (#[trigger] d.components@[k]).average_value@ == ps[k].0
                &&& d.components@[k].damage_type@ == ps[k].1
            }
            &&& d.wf()
            &&& spec_total(d.components@) == spec_pairs_total(ps)
            &&& spec_total(d.components@) <= MAX_STAT_UNITS
        },
{
    let raw = crate::text::chars_of(s);
    let low = crate::text::to_lower_vec(&raw);
    let t = trim_vec(&low);

    let cs = match parse_components(&t) {
        Some(x) => x,
        None => {
            return None;
        },
    };

    let ghost ps = spec_components(t@).unwrap();
    proof {
        lemma_pairs_total_eq(cs@, ps);
    }

    let mut total: i64 = 0;
    let m = cs.len();

    proof {
        assert(cs@.take(0) =~= Seq::<DamageComponent>::empty());
    }

    for k in 0..m
        invariant
            m == cs@.len(),
            forall|j: int| 0 <= j < cs@.len()
                ==> 0 <= (#[trigger] cs@[j]).average_value@ <= MAX_STAT_UNITS,
            total == spec_total(cs@.take(k as int)),
            0 <= total <= MAX_STAT_UNITS,
            spec_total(cs@) == spec_pairs_total(ps),
    {
        proof {
            assert(cs@.take(k + 1) =~= cs@.take(k as int).push(cs@[k as int]));
            lemma_total_push(cs@.take(k as int), cs@[k as int]);
        }

        let x = total + cs[k].average_value.units();

        if x > MAX_STAT_UNITS {
            proof {
                lemma_total_split(cs@, k + 1);
                assert(forall|j: int| 0 <= j < cs@.skip(k + 1).len()
                    ==> (#[trigger] cs@.skip(k + 1)[j]) == cs@[k + 1 + j]);
                lemma_total_nonneg(cs@.skip(k + 1));
                assert(spec_total(cs@.take(k + 1)) == x);
                assert(spec_total(cs@) >= x);
                assert(spec_pairs_total(ps) > MAX_STAT_UNITS);
                assert(t@ == spec_trim(crate::text::lower_seq(s@)));
                assert(spec_damage_pairs(s@) == spec_components(t@));
                assert(!spec_damage_fits(s@));
            }
            return None;
        }

        total = x;
    }

    proof {
        assert(cs@.take(m as int) =~= cs@);
    }

    Some(Damage { components: cs })
}

/// An expression without `+` is one trimmed term.
proof fn lemma_expr_single_term(s: Seq<char>)
    requires
        forall|k: int| 0 <= k < s.len() ==> (#[trigger] s[k]) as u32 != 43,
    ensures
        spec_expr_value(s) == spec_term(spec_trim(s)),
{
    assert forall|j: int| !is_first_occurrence(s, '+', j) by {
        if 0 <= j < s.len() {
            assert(s[j] as u32 != 43);
            assert('+' as u32 == 43);
        }
    }
}

/// A bare decimal number parses as a flat term with its own value.
proof fn lemma_flat_expr(f: int)
    requires
        0 <= f < 2_147_483_648,
    ensures
        spec_expr_value(spec_uint_string(f)) == Some(f * SCALE),
{
    let s = spec_uint_string(f);
    crate::text::lemma_uint_string_val(f);
    assert forall|k: int| 0 <= k < s.len() implies (#[trigger] s[k]) as u32 != 43 by {
        assert(crate::text::is_digit_char(s[k]));
    }
    lemma_expr_single_term(s);
    assert forall|k: int| 0 <= k < s.len()
        implies !crate::text::is_space_char(#[trigger] s[k]) by {
        assert(crate::text::is_digit_char(s[k]));
    }
    crate::text::lemma_trim_nonspace(s);
    assert forall|k: int| 0 <= k < s.len() implies (#[trigger] s[k]) as u32 != 100 by {
        assert(crate::text::is_digit_char(s[k]));
    }
    assert(!contains_char(s, 'd')) by {
        if contains_char(s, 'd') {
            let k = choose|k: int| 0 <= k < s.len() && s[k] == 'd';
            assert(s[k] as u32 == 'd' as u32);
            assert('d' as u32 == 100);
        }
    }
    assert(spec_term(s) == spec_flat_term(s));
    assert(is_uint_literal(s));
}

/// `NdS` parses as a dice term whose value is `N` times the average
/// of one die of `S` sides.
proof fn lemma_dice_term_value(n: int, die: int)
    requires
        1 <= n <= 9,
        die == 4 || die == 6 || die == 8 || die == 10 || die == 12,
    ensures
        ({
            let e = spec_uint_string(n) + seq!['d'] + spec_uint_string(die);
            &&& spec_term(e) == Some(n * (die + 1) * HALF_SCALE)
            &&& forall|k: int| 0 <= k < e.len()
                ==> (#[trigger] e[k]) as u32 != 43 && !crate::text::is_space_char(e[k])
        }),
{
    let a = spec_uint_string(n);
    let b = spec_uint_string(die);
    let e = a + seq!['d'] + b;
    crate::text::lemma_uint_string_val(n);
    crate::text::lemma_uint_string_val(die);

    assert(a =~= seq![crate::text::digit_char(n)]);
    assert(a.len() == 1);

    let i0 = a.len() as int;
    assert(e.len() == a.len() + 1 + b.len());
    assert(forall|k: int| 0 <= k < i0 ==> #[trigger] e[k] == a[k]);
    assert(e[i0] == 'd');
    assert(forall|k: int| i0 + 1 <= k < e.len() ==> #[trigger] e[k] == b[k - i0 - 1]);

    assert forall|k: int| 0 <= k < e.len()
        implies (#[trigger] e[k]) as u32 != 43 && !crate::text::is_space_char(e[k]) by {
        if k < i0 {
            assert(crate::text::is_digit_char(a[k]));
        } else if k == i0 {
            assert(e[k] == 'd');
            assert('d' as u32 == 100);
        } else {
            assert(crate::text::is_digit_char(b[k - i0 - 1]));
        }
    }

    assert(is_first_occurrence(e, 'd', i0)) by {
        assert forall|k: int| 0 <= k < i0 implies e[k] != 'd' by {
            assert(crate::text::is_digit_char(a[k]));
            assert('d' as u32 == 100);
        }
    }
    assert(contains_char(e, 'd'));

    let j = choose|j: int| is_first_occurrence(e, 'd', j);
    assert forall|k: int| is_first_occurrence(e, 'd', k) implies k == i0 by {
        if k < i0 {
            assert(e[k] != 'd');
        } else if k > i0 {
            assert(e[i0] != 'd');
        }
    }
    assert(j == i0);

    assert(e.take(i0) =~= a);
    assert(e.skip(i0 + 1) =~= b);

    assert(!contains_char(b, 'd')) by {
        if contains_char(b, 'd') {
            let k = choose|k: int| 0 <= k < b.len() && b[k] == 'd';
            assert(crate::text::is_digit_char(b[k]));
            assert(b[k] as u32 == 'd' as u32);
            assert('d' as u32 == 100);
        }
    }

    assert(is_uint_literal(a));
    assert(digits_val(a) == n);

    if die == 4 {
        assert(b =~= seq![crate::text::digit_char(4)]);
        assert(b[0] as u32 == 52);
        assert(die_sides(b) == Some(4int));
    } else if die == 6 {
        assert(b =~= seq![crate::text::digit_char(6)]);
        assert(b[0] as u32 == 54);
        assert(die_sides(b) == Some(6int));
    } else if die == 8 {
        assert(b =~= seq![crate::text::digit_char(8)]);
        assert(b[0] as u32 == 56);
        assert(die_sides(b) == Some(8int));
    } else if die == 10 {
        assert(spec_uint_string(1int) =~= seq![crate::text::digit_char(1)]);
        assert(b =~= spec_uint_string(1int).push(crate::text::digit_char(0)));
        assert(b.len() == 2);
        assert(b[0] as u32 == 49);
        assert(b[1] as u32 == 48);
        assert(die_sides(b) == Some(10int));
    } else {
        assert(spec_uint_string(1int) =~= seq![crate::text::digit_char(1)]);
        assert(b =~= spec_uint_string(1int).push(crate::text::digit_char(2)));
        assert(b.len() == 2);
        assert(b[0] as u32 == 49);
        assert(b[1] as u32 == 50);
        assert(die_sides(b) == Some(12int));
    }

    assert(spec_dice_term(e) == Some(n * (die + 1) * HALF_SCALE));
}

/// `NdS` parses as an expression with the dice term's value.
proof fn lemma_dice_expr(n: int, die: int)
    requires
        1 <= n <= 9,
        die == 4 || die == 6 || die == 8 || die == 10 || die == 12,
    ensures
        spec_expr_value(spec_uint_string(n) + seq!['d'] + spec_uint_string(die))
            == Some(n * (die + 1) * HALF_SCALE),
{
    let e = spec_uint_string(n) + seq!['d'] + spec_uint_string(die);
    lemma_dice_term_value(n, die);
    lemma_expr_single_term(e);
    crate::text::lemma_trim_nonspace(e);
}

/// `NdS+F` parses as an expression summing the dice term and the flat
/// modifier.
proof fn lemma_dice_flat_expr(n: int, die: int, f: int)
    requires
        1 <= n <= 9,
        die == 4 || die == 6 || die == 8 || die == 10 || die == 12,
        1 <= f < 2_147_483_648,
    ensures
        spec_expr_value(
            spec_uint_string(n) + seq!['d'] + spec_uint_string(die) + seq!['+']
                + spec_uint_string(f),
        ) == Some(n * (die + 1) * HALF_SCALE + f * SCALE),
{
    let head = spec_uint_string(n) + seq!['d'] + spec_uint_string(die);
    let ftail = spec_uint_string(f);
    let e = head + seq!['+'] + ftail;
    lemma_dice_term_value(n, die);
    crate::text::lemma_uint_string_val(f);

    let i1 = head.len() as int;
    assert(e.len() == head.len() + 1 + ftail.len());
    assert(forall|k: int| 0 <= k < i1 ==> #[trigger] e[k] == head[k]);
    assert(e[i1] == '+');
    assert(forall|k: int| i1 + 1 <= k < e.len() ==> #[trigger] e[k] == ftail[k - i1 - 1]);

    assert(is_first_occurrence(e, '+', i1)) by {
        assert forall|k: int| 0 <= k < i1 implies e[k] != '+' by {
            assert(head[k] as u32 != 43);
            assert('+' as u32 == 43);
        }
    }

    let j = choose|j: int| is_first_occurrence(e, '+', j);
    assert forall|k: int| is_first_occurrence(e, '+', k) implies k == i1 by {
        if k < i1 {
            assert(e[k] != '+');
        } else if k > i1 {
            assert(e[i1] != '+');
        }
    }
    assert(j == i1);

    assert(e.take(i1) =~= head);
    assert(e.skip(i1 + 1) =~= ftail);

    crate::text::lemma_trim_nonspace(head);
    lemma_flat_expr(f);
    assert(spec_expr_value(ftail) == Some(f * SCALE));
}

/// The die sizes preferred for strike damage at each proficiency, in
/// preference order. Terrible has no strike-damage dice.
pub open spec fn spec_dice_preference(p: Proficiency) -> Seq<i64> {
    match p {
        Proficiency::Extreme => seq![12i64, 10i64],
        Proficiency::High => seq![10i64, 12i64, 8i64],
        Proficiency::Moderate => seq![8i64, 10i64, 6i64],
        Proficiency::Low => seq![4i64, 6i64],
        Proficiency::Terrible => Seq::empty(),
    }
}

/// Every die size, largest first; the fallback when no preferred die
/// fits under the target.
pub open spec fn spec_all_dice() -> Seq<i64> {
    seq![12i64, 10i64, 8i64, 6i64, 4i64]
}

/// Expected value, in fixed-point units, of `n` dice of `die` sides.
pub open spec fn spec_dice_avg(die: i64, n: int) -> int {
    n * (die + 1) * HALF_SCALE
}

/// The largest whole flat modifier that keeps the combination at or
/// below the target.
pub open spec fn spec_flat_for(target: int, die: i64, n: int) -> int {
    (target - spec_dice_avg(die, n)) / (SCALE as int)
}

/// Residual gap between the target and the achieved expected value:
/// the first ranking key.
pub open spec fn spec_gap(target: int, die: i64, n: int) -> int {
    target - spec_dice_avg(die, n) - spec_flat_for(target, die, n) * SCALE
}

/// How far the flat modifier is from the dice average: the second
/// ranking key, so the modifier does not dominate the dice.
pub open spec fn spec_balance(target: int, die: i64, n: int) -> int {
    let d = spec_flat_for(target, die, n) * SCALE - spec_dice_avg(die, n);
    if d < 0 {
        -d
    } else {
        d
    }
}

/// `(i, n)` picks a die from the list and a count whose dice-only
/// average does not exceed the target.
pub open spec fn is_candidate(dice: Seq<i64>, target: int, i: int, n: int) -> bool {
    &&& 0 <= i < dice.len()
    &&& 1 <= n <= 4
    &&& spec_dice_avg(dice[i], n) <= target
}

/// Strict ranking between two candidates: smaller gap first, then
/// smaller flat-to-dice imbalance, then earlier enumeration position
/// (preference order, then dice count).
pub open spec fn spec_better(dice: Seq<i64>, target: int, i1: int, n1: int, i2: int, n2: int) -> bool {
    let a1 = spec_gap(target, dice[i1], n1);
    let a2 = spec_gap(target, dice[i2], n2);
    let b1 = spec_balance(target, dice[i1], n1);
    let b2 = spec_balance(target, dice[i2], n2);
    ||| a1 < a2
    ||| (a1 == a2 && b1 < b2)
    ||| (a1 == a2 && b1 == b2 && i1 * 4 + n1 < i2 * 4 + n2)
}

/// Some candidate exists in the list for this target.
pub open spec fn spec_has_candidate(dice: Seq<i64>, target: int) -> bool {
    exists|i: int, n: int| is_candidate(dice, target, i, n)
}

/// `(i, n)` is the candidate that beats every other one.
pub open spec fn spec_chosen(dice: Seq<i64>, target: int, i: int, n: int) -> bool {
    &&& is_candidate(dice, target, i, n)
    &&& forall|i2: int, n2: int|
        is_candidate(dice, target, i2, n2) && (i2 != i || n2 != n)
            ==> spec_better(dice, target, i, n, i2, n2)
}

/// The text of a chosen combination: `NdS+F`, or `NdS` when the flat
/// modifier is zero.
pub open spec fn spec_expression_chars(die: i64, n: int, flat: int) -> Seq<char> {
    if flat > 0 {
        spec_uint_string(n) + seq!['d'] + spec_uint_string(die as int) + seq!['+']
            + spec_uint_string(flat)
    } else {
        spec_uint_string(n) + seq!['d'] + spec_uint_string(die as int)
    }
}

/// What the builder promises about its output text: the best
/// preferred-dice candidate if one exists, else the best candidate
/// over all dice, else the floored target as a bare number.
pub open spec fn spec_build_result(target: int, p: Proficiency, out: Seq<char>) -> bool {
    if spec_has_candidate(spec_dice_preference(p), target) {
        exists|i: int, n: int|
            #[trigger] spec_chosen(spec_dice_preference(p), target, i, n)
                && out == spec_expression_chars(
                spec_dice_preference(p)[i],
                n,
                spec_flat_for(target, spec_dice_preference(p)[i], n),
            )
    } else if spec_has_candidate(spec_all_dice(), target) {
        exists|i: int, n: int|
            #[trigger] spec_chosen(spec_all_dice(), target, i, n)
                && out == spec_expression_chars(
                spec_all_dice()[i],
                n,
                spec_flat_for(target, spec_all_dice()[i], n),
            )
    } else {
        out == spec_uint_string(target / (SCALE as int))
    }
}

/// The preferred strike-damage dice for a proficiency.
fn dice_preference(p: Proficiency) -> (r: Vec<i64>)
    ensures
        r@ == spec_dice_preference(p),
        forall|k: int| 0 <= k < r@.len()
            ==> (#[trigger] r@[k]) == 4 || r@[k] == 6 || r@[k] == 8 || r@[k] == 10 || r@[k] == 12,
{
    let mut v: Vec<i64> = Vec::new();
    match p {
        Proficiency::Extreme => {
            v.push(12);
            v.push(10);
        },
        Proficiency::High => {
            v.push(10);
            v.push(12);
            v.push(8);
        },
        Proficiency::Moderate => {
            v.push(8);
            v.push(10);
            v.push(6);
        },
        Proficiency::Low => {
            v.push(4);
            v.push(6);
        },
        Proficiency::Terrible => {},
    }
    proof {
        assert(v@ =~= spec_dice_preference(p));
    }
    v
}

/// Every die size, largest first.
fn all_dice() -> (r: Vec<i64>)
    ensures
        r@ == spec_all_dice(),
        forall|k: int| 0 <= k < r@.len()
            ==> (#[trigger] r@[k]) == 4 || r@[k] == 6 || r@[k] == 8 || r@[k] == 10 || r@[k] == 12,
{
    let mut v: Vec<i64> = Vec::new();
    v.push(12);
    v.push(10);
    v.push(8);
    v.push(6);
    v.push(4);
    proof {
        assert(v@ =~= spec_all_dice());
    }
    v
}

/// Scans every (die, count) combination in enumeration order and
/// keeps the first candidate no later one beats.
#[verifier::loop_isolation(false)]
#[verifier::rlimit(100)]
#[verifier::spinoff_prover]
fn best_candidate(dice: &Vec<i64>, target: i64) -> (r: Option<(usize, i64)>)
    requires
        0 < target <= MAX_STAT_UNITS,
        forall|k: int| 0 <= k < dice@.len() ==> 4 <= #[trigger] dice@[k] <= 12,
    ensures
        r is Some <==> spec_has_candidate(dice@, target as int),
        r matches Some(p) ==> spec_chosen(dice@, target as int, p.0 as int, p.1 as int)
            && 0 <= p.0 < dice@.len() && 1 <= p.1 <= 4,
{
    let mut found = false;
    let mut bi: usize = 0;
    let mut bn: i64 = 1;
    let mut ba: i64 = 0;
    let mut bb: i64 = 0;

    for i in 0..dice.len()
        invariant
            found ==> {
                &&& bi < i
                &&& 1 <= bn <= 4
                &&& is_candidate(dice@, target as int, bi as int, bn as int)
                &&& ba == spec_gap(target as int, dice@[bi as int], bn as int)
                &&& bb == spec_balance(target as int, dice@[bi as int], bn as int)
                &&& forall|i2: int, n2: int|
                    is_candidate(dice@, target as int, i2, n2) && i2 < i
                        && (i2 != bi as int || n2 != bn as int)
                        ==> spec_better(dice@, target as int, bi as int, bn as int, i2, n2)
            },
            !found ==> forall|i2: int, n2: int|
                0 <= i2 < i ==> !is_candidate(dice@, target as int, i2, n2),
    {
        let die = dice[i];
        let mut n: i64 = 1;

        while n <= 4
            invariant
                1 <= n <= 5,
                4 <= die <= 12,
                die == dice@[i as int],
                found ==> {
                    &&& (bi < i || (bi == i && bn < n))
                    &&& 1 <= bn <= 4
                    &&& is_candidate(dice@, target as int, bi as int, bn as int)
                    &&& ba == spec_gap(target as int, dice@[bi as int], bn as int)
                    &&& bb == spec_balance(target as int, dice@[bi as int], bn as int)
                    &&& forall|i2: int, n2: int|
                        is_candidate(dice@, target as int, i2, n2)
                            && (i2 < i || (i2 == i && n2 < n))
                            && (i2 != bi as int || n2 != bn as int)
                            ==> spec_better(dice@, target as int, bi as int, bn as int, i2, n2)
                },
                !found ==> forall|i2: int, n2: int|
                    (0 <= i2 < i || (i2 == i && n2 < n))
                        ==> !is_candidate(dice@, target as int, i2, n2),
            decreases 5 - n,
        {
            proof {
                assert(1 <= n * (die + 1) <= 52) by (nonlinear_arith)
                    requires 1 <= n <= 4 && 4 <= die <= 12;
            }
            let avg = n * (die + 1) * HALF_SCALE;

            if avg <= target {
                let flat = ((target - avg) as u64 / SCALE as u64) as i64;
                proof {
                    vstd::arithmetic::div_mod::lemma_fundamental_div_mod(
                        target - avg,
                        SCALE as int,
                    );
                    assert(flat == spec_flat_for(target as int, die, n as int));
                }
                let a = target - avg - flat * SCALE;
                let d = flat * SCALE - avg;
                let b = if d < 0 {
                    -d
                } else {
                    d
                };

                if !found || a < ba || (a == ba && b < bb) {
                    found = true;
                    bi = i;
                    bn = n;
                    ba = a;
                    bb = b;
                }
            }

            n += 1;
        }
    }

    if found {
        Some((bi, bn))
    } else {
        None
    }
}

/// Renders `NdS` plus the largest flat modifier that stays at or
/// below the target.
fn render_expression(die: i64, n: i64, target: i64) -> (r: String)
    requires
        die == 4 || die == 6 || die == 8 || die == 10 || die == 12,
        1 <= n <= 4,
        n * (die + 1) * HALF_SCALE <= target,
        0 < target <= MAX_STAT_UNITS,
    ensures
        r@ == spec_expression_chars(die, n as int, spec_flat_for(target as int, die, n as int)),
        spec_expr_value(r@) == Some(
            spec_dice_avg(die, n as int) + spec_flat_for(target as int, die, n as int) * SCALE,
        ),
        spec_expr_value(r@).unwrap() <= target,
        target - SCALE < spec_expr_value(r@).unwrap(),
{
    proof {
        assert(1 <= n * (die + 1) <= 52) by (nonlinear_arith)
            requires 1 <= n <= 4 && 4 <= die <= 12;
    }
    let avg = n * (die + 1) * HALF_SCALE;
    let flat = ((target - avg) as u64 / SCALE as u64) as i64;

    proof {
        vstd::arithmetic::div_mod::lemma_fundamental_div_mod(target - avg, SCALE as int);
        assert(flat == spec_flat_for(target as int, die, n as int));
        assert(0 <= flat < 2_147_483_648);
    }

    let mut out = crate::text::uint_string(n as u64);
    out.push('d');
    let mut ds = crate::text::uint_string(die as u64);
    out.append(&mut ds);

    if flat > 0 {
        out.push('+');
        let mut fs = crate::text::uint_string(flat as u64);
        out.append(&mut fs);
        proof {
            assert(out@ =~= spec_uint_string(n as int) + seq!['d'] + spec_uint_string(die as int)
                + seq!['+'] + spec_uint_string(flat as int));
            lemma_dice_flat_expr(n as int, die as int, flat as int);
        }
    } else {
        proof {
            assert(out@ =~= spec_uint_string(n as int) + seq!['d']
                + spec_uint_string(die as int));
            lemma_dice_expr(n as int, die as int);
        }
    }

    crate::text::string_from_chars(&out)
}

/// Searches the small space of dice expressions for the one whose
/// expected value best approximates the target without exceeding it.
/// The result always parses back to a value at most the target and
/// strictly within one point below it.
pub fn build_damage_expression(average_damage: Fixed, proficiency: Proficiency) -> (r: String)
    requires
        0 < average_damage@ <= MAX_STAT_UNITS,
        !(proficiency is Terrible),
    ensures
        spec_build_result(average_damage@, proficiency, r@),
        spec_expr_fits(r@),
        spec_expr_value(r@).unwrap() <= average_damage@,
        average_damage@ - SCALE < spec_expr_value(r@).unwrap(),
{
    let t = average_damage.units();

    let pref = dice_preference(proficiency);
    match best_candidate(&pref, t) {
        Some(p) => {
            return render_expression(pref[p.0], p.1, t);
        },
        None => {},
    }

    let all = all_dice();
    match best_candidate(&all, t) {
        Some(p) => {
            return render_expression(all[p.0], p.1, t);
        },
        None => {},
    }

    let f = average_damage.floor();
    proof {
        vstd::arithmetic::div_mod::lemma_fundamental_div_mod(t as int, SCALE as int);
        lemma_flat_expr(f as int);
    }
    let v = crate::text::uint_string(f as u64);
    crate::text::string_from_chars(&v)
}

} // verus!
