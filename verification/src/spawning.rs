//! The population controller: whether to produce a new agent, and with what
//! capability loadout.
//!
//! A read-only table of `(population ceiling, resource cost, loadout)` rows
//! is scanned in ascending ceiling order; the first row whose ceiling
//! exceeds the current population and whose cost is affordable wins. No
//! matching row means no creation this tick.

use vstd::prelude::*;
use crate::scan::{first_match, lemma_first_match, lemma_first_match_is, lemma_first_match_none};

verus! {

/// A capability part of an agent's loadout.
#[derive(Clone, Copy, Debug, PartialEq, Eq, Structural)]
pub enum Part {
    Move,
    Work,
    Carry,
    Attack,
    RangedAttack,
    Tough,
    Heal,
    Claim,
}

/// Production cost of one capability part.
pub open spec fn spec_part_cost(p: Part) -> u32 {
    match p {
        Part::Move => 50u32,
        Part::Work => 100u32,
        Part::Carry => 50u32,
        Part::Attack => 80u32,
        Part::RangedAttack => 150u32,
        Part::Tough => 10u32,
        Part::Heal => 250u32,
        Part::Claim => 600u32,
    }
}

impl Part {
    /// Production cost of this part.
    pub fn cost(&self) -> (r: u32)
        ensures
            r == spec_part_cost(*self),
    {
        match self {
            Part::Move => 50,
            Part::Work => 100,
            Part::Carry => 50,
            Part::Attack => 80,
            Part::RangedAttack => 150,
            Part::Tough => 10,
            Part::Heal => 250,
            Part::Claim => 600,
        }
    }
}

/// Total cost of a sequence of parts.
pub open spec fn spec_sum_parts(s: Seq<Part>) -> int
    decreases s.len(),
{
    if s.len() == 0 {
        0
    } else {
        spec_sum_parts(s.drop_last()) + spec_part_cost(s.last())
    }
}

/// Total cost of a loadout.
pub fn sum_parts(parts: &Vec<Part>) -> (r: u32)
    requires
        spec_sum_parts(parts@) <= u32::MAX,
    ensures
        r == spec_sum_parts(parts@),
{
    proof {
        lemma_sum_parts_bounds(parts@);
    }
    let n = parts.len();
    let mut total: u32 = 0;
    let mut i: usize = 0;
    while i < n
        invariant
            0 <= i <= n,
            total == spec_sum_parts(parts@.take(i as int)),
        decreases n - i,
    {
        proof {
            lemma_sum_parts_bounds(parts@.take(i as int + 1));
            lemma_sum_parts_prefix(parts@, i as int + 1);
            assert(parts@.take(i as int + 1).drop_last() =~= parts@.take(i as int));
            assert(parts@.take(i as int + 1).last() == parts@[i as int]);
        }
        total = total + parts[i].cost();
        i = i + 1;
    }
    proof {
        assert(parts@.take(n as int) =~= parts@);
    }
    total
}

/// The cost of a sequence of parts is nonnegative, and every part only adds.
proof fn lemma_sum_parts_bounds(s: Seq<Part>)
    ensures
        spec_sum_parts(s) >= 0,
    decreases s.len(),
{
    if s.len() > 0 {
        lemma_sum_parts_bounds(s.drop_last());
    }
}

/// A prefix of a sequence of parts costs no more than the whole.
proof fn lemma_sum_parts_prefix(s: Seq<Part>, i: int)
    requires
        0 <= i <= s.len(),
    ensures
        spec_sum_parts(s.take(i)) <= spec_sum_parts(s),
    decreases s.len() - i,
{
    if i == s.len() {
        assert(s.take(i) =~= s);
    } else {
        lemma_sum_parts_prefix(s, i + 1);
        lemma_sum_parts_bounds(s.take(i + 1));
        assert(s.take(i + 1).drop_last() =~= s.take(i));
    }
}

/// One row of the population threshold table.
pub struct ThresholdRow {
    /// The row applies while the population is below this ceiling.
    pub population_ceiling: u32,
    /// Total cost of the loadout; must be affordable for the row to win.
    pub resource_cost: u32,
    /// The parts a new agent is created with.
    pub loadout: Vec<Part>,
}

/// Well-formed table: ceilings strictly ascending, and each row's cost is
/// the total cost of its loadout.
pub open spec fn wf_rows(rows: Seq<ThresholdRow>) -> bool {
    &&& forall|i: int, j: int|
        0 <= i < j < rows.len() ==> rows[i].population_ceiling < rows[j].population_ceiling
    &&& forall|i: int|
        0 <= i < rows.len() ==> spec_sum_parts(#[trigger] rows[i].loadout@)
            == rows[i].resource_cost
}

/// Whether row `r` wins for the given population and available resource.
pub open spec fn row_matches(r: ThresholdRow, population: u32, energy: u32) -> bool {
    population < r.population_ceiling && r.resource_cost <= energy
}

/// Index of the first matching row, if any.
pub open spec fn choose_row_spec(rows: Seq<ThresholdRow>, population: u32, energy: u32) -> Option<
    int,
> {
    first_match(rows, |r: ThresholdRow| row_matches(r, population, energy))
}

/// The engine's default threshold table: a small starter loadout while the
/// population is below six, a larger one below twenty.
pub fn default_thresholds() -> (r: Vec<ThresholdRow>)
    ensures
        wf_rows(r@),
        r@.len() == 2,
        r@[0].population_ceiling == 6,
        r@[0].resource_cost == 300,
        r@[0].loadout@ =~= seq![Part::Move, Part::Move, Part::Carry, Part::Carry, Part::Work],
        r@[1].population_ceiling == 20,
        r@[1].resource_cost == 550,
        r@[1].loadout@ =~= seq![
            Part::Move,
            Part::Move,
            Part::Move,
            Part::Carry,
            Part::Carry,
            Part::Work,
            Part::Work,
            Part::Work,
        ],
{
    let small: Vec<Part> = vec![Part::Move, Part::Move, Part::Carry, Part::Carry, Part::Work];
    let large: Vec<Part> = vec![
        Part::Move,
        Part::Move,
        Part::Move,
        Part::Carry,
        Part::Carry,
        Part::Work,
        Part::Work,
        Part::Work,
    ];
    proof {
        reveal_with_fuel(spec_sum_parts, 9);
        assert(spec_sum_parts(small@) == 300);
        assert(spec_sum_parts(large@) == 550);
    }
    let rows: Vec<ThresholdRow> = vec![
        ThresholdRow { population_ceiling: 6, resource_cost: 300, loadout: small },
        ThresholdRow { population_ceiling: 20, resource_cost: 550, loadout: large },
    ];
    rows
}

/// Decide whether a new agent should be produced: the index of the first
/// threshold row whose ceiling exceeds the current population and whose cost
/// is affordable, or nothing when no row matches.
pub fn decide_spawn(rows: &Vec<ThresholdRow>, population: u32, energy_available: u32) -> (r:
    Option<usize>)
    ensures
        match r {
            Some(i) => choose_row_spec(rows@, population, energy_available) == Some(i as int),
            None => choose_row_spec(rows@, population, energy_available) is None,
        },
{
    let ghost p = |row: ThresholdRow| row_matches(row, population, energy_available);
    let n = rows.len();
    let mut i: usize = 0;
    while i < n
        invariant
            0 <= i <= n,
            forall|j: int| 0 <= j < i ==> !p(rows@[j]),
        decreases n - i,
    {
        let row = &rows[i];
        if population < row.population_ceiling && row.resource_cost <= energy_available {
            proof {
                assert(p(rows@[i as int]));
                lemma_first_match_is(rows@, p, i as int);
            }
            return Some(i);
        }
        i = i + 1;
    }
    proof {
        lemma_first_match_none(rows@, p);
    }
    None
}

/// Population threshold monotonicity, for tables whose loadout costs do not
/// grow across rows: with resource availability fixed, a larger population
/// never selects a costlier loadout than a smaller one — if any row still
/// matches, a row also matched at the smaller population, no later in the
/// table and no cheaper.
pub proof fn lemma_threshold_monotonic(rows: Seq<ThresholdRow>, pop1: u32, pop2: u32, energy: u32)
    requires
        pop1 <= pop2,
        forall|i: int, j: int|
            0 <= i < j < rows.len() ==> rows[j].resource_cost <= rows[i].resource_cost,
    ensures
        match choose_row_spec(rows, pop2, energy) {
            Some(j) => match choose_row_spec(rows, pop1, energy) {
                Some(i) => i <= j && rows[j].resource_cost <= rows[i].resource_cost,
                None => false,
            },
            None => true,
        },
{
    let p1 = |r: ThresholdRow| row_matches(r, pop1, energy);
    let p2 = |r: ThresholdRow| row_matches(r, pop2, energy);
    lemma_first_match(rows, p1);
    lemma_first_match(rows, p2);
    match first_match(rows, p2) {
        Some(j) => {
            assert(p2(rows[j]));
            assert(p1(rows[j]));
            match first_match(rows, p1) {
                Some(i) => {
                    if i > j {
                        assert(!p1(rows[j]));
                        assert(false);
                    }
                },
                None => {
                    assert(!p1(rows[j]));
                    assert(false);
                },
            }
        },
        None => {},
    }
}

} // verus!
