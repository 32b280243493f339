//! The in-memory store of user-created scenarios, keyed by scenario id.
//!
//! It holds scenarios for the life of the process and does not persist
//! them. Sharing it between tasks (behind a lock) is left to the caller.
use vstd::prelude::*;
use crate::paths::Keyed;
use crate::scenario::model::{scenario_duration, NetworkScenario};
use crate::text::str_eq;

verus! {

/// What a list of records with distinct ids holds: each id mapped to its
/// record.
pub open spec fn store_map(s: Seq<NetworkScenario>) -> Map<Seq<char>, NetworkScenario>
    decreases s.len(),
{
    if s.len() == 0 {
        Map::empty()
    } else {
        store_map(s.drop_last()).insert(s.last().id@, s.last())
    }
}

/// No id occurs twice.
pub open spec fn distinct_ids(s: Seq<NetworkScenario>) -> bool {
    forall|i: int, j: int| 0 <= i < j < s.len() ==> #[trigger] s[i].id@ != #[trigger] s[j].id@
}

/// The steps of the scenarios, counted together.
pub open spec fn total_steps(s: Seq<NetworkScenario>) -> nat
    decreases s.len(),
{
    if s.len() == 0 {
        0
    } else {
        total_steps(s.drop_last()) + s.last().steps@.len()
    }
}

/// How long the scenarios take together, in milliseconds.
pub open spec fn total_duration(s: Seq<NetworkScenario>) -> nat
    decreases s.len(),
{
    if s.len() == 0 {
        0
    } else {
        total_duration(s.drop_last()) + scenario_duration(s.last().steps@)
    }
}

proof fn lemma_store_map_absent(s: Seq<NetworkScenario>, k: Seq<char>)
    requires
        forall|j: int| 0 <= j < s.len() ==> #[trigger] s[j].id@ != k,
    ensures
        !store_map(s).contains_key(k),
    decreases s.len(),
{
    if s.len() > 0 {
        let d = s.drop_last();
        assert forall|j: int| 0 <= j < d.len() implies #[trigger] d[j].id@ != k by {
            assert(d[j] == s[j]);
        }
        lemma_store_map_absent(d, k);
        assert(s.last() == s[s.len() - 1]);
    }
}

proof fn lemma_store_map_at(s: Seq<NetworkScenario>, i: int)
    requires
        distinct_ids(s),
        0 <= i < s.len(),
    ensures
        store_map(s).contains_key(s[i].id@),
        store_map(s)[s[i].id@] == s[i],
    decreases s.len(),
{
    let d = s.drop_last();
    if i < s.len() - 1 {
        assert(d[i] == s[i]);
        assert(distinct_ids(d)) by {
            assert forall|a: int, b: int| 0 <= a < b < d.len() implies #[trigger] d[a].id@
                != #[trigger] d[b].id@ by {
                assert(d[a] == s[a] && d[b] == s[b]);
            }
        }
        lemma_store_map_at(d, i);
        assert(s[i].id@ != s[s.len() - 1].id@);
    }
}

proof fn lemma_store_map_len(s: Seq<NetworkScenario>)
    requires
        distinct_ids(s),
    ensures
        store_map(s).dom().finite(),
        store_map(s).len() == s.len(),
    decreases s.len(),
{
    if s.len() > 0 {
        let d = s.drop_last();
        assert(distinct_ids(d)) by {
            assert forall|a: int, b: int| 0 <= a < b < d.len() implies #[trigger] d[a].id@
                != #[trigger] d[b].id@ by {
                assert(d[a] == s[a] && d[b] == s[b]);
            }
        }
        lemma_store_map_len(d);
        assert forall|j: int| 0 <= j < d.len() implies #[trigger] d[j].id@ != s.last().id@ by {
            assert(d[j] == s[j]);
        }
        lemma_store_map_absent(d, s.last().id@);
    }
}

proof fn lemma_store_map_update(s: Seq<NetworkScenario>, i: int, x: NetworkScenario)
    requires
        distinct_ids(s),
        0 <= i < s.len(),
        s[i].id@ == x.id@,
    ensures
        store_map(s.update(i, x)) =~= store_map(s).insert(x.id@, x),
    decreases s.len(),
{
    let t = s.update(i, x);
    let d = s.drop_last();
    if i == s.len() - 1 {
        assert(t.drop_last() =~= d);
    } else {
        assert(t.drop_last() =~= d.update(i, x));
        assert(distinct_ids(d)) by {
            assert forall|a: int, b: int| 0 <= a < b < d.len() implies #[trigger] d[a].id@
                != #[trigger] d[b].id@ by {
                assert(d[a] == s[a] && d[b] == s[b]);
            }
        }
        assert(d[i] == s[i]);
        lemma_store_map_update(d, i, x);
        assert(s[i].id@ != s[s.len() - 1].id@);
    }
}

proof fn lemma_store_map_remove(s: Seq<NetworkScenario>, i: int)
    requires
        distinct_ids(s),
        0 <= i < s.len(),
    ensures
        store_map(s.remove(i)) =~= store_map(s).remove(s[i].id@),
        distinct_ids(s.remove(i)),
    decreases s.len(),
{
    let t = s.remove(i);
    let d = s.drop_last();
    let k = s[i].id@;
    assert(distinct_ids(d)) by {
        assert forall|a: int, b: int| 0 <= a < b < d.len() implies #[trigger] d[a].id@
            != #[trigger] d[b].id@ by {
            assert(d[a] == s[a] && d[b] == s[b]);
        }
    }
    assert(distinct_ids(t)) by {
        assert forall|a: int, b: int| 0 <= a < b < t.len() implies #[trigger] t[a].id@
            != #[trigger] t[b].id@ by {
            let a2 = if a < i { a } else { a + 1 };
            let b2 = if b < i { b } else { b + 1 };
            assert(t[a] == s[a2] && t[b] == s[b2]);
        }
    }
    if i == s.len() - 1 {
        assert(t =~= d);
        assert forall|j: int| 0 <= j < d.len() implies #[trigger] d[j].id@ != k by {
            assert(d[j] == s[j]);
        }
        lemma_store_map_absent(d, k);
    } else {
        assert(t.drop_last() =~= d.remove(i));
        assert(t.last() == s.last());
        assert(d[i] == s[i]);
        lemma_store_map_remove(d, i);
        assert(k != s[s.len() - 1].id@);
    }
}

/// Scenarios by id.
pub struct ScenarioStore {
    scenarios: Vec<NetworkScenario>,
}

/// Counts over the stored scenarios.
#[derive(Debug, Clone, Copy)]
pub struct ScenarioStorageStats {
    pub total_scenarios: usize,
    /// Steps of all scenarios together.
    pub total_steps: usize,
    /// Duration of all scenarios together, in milliseconds.
    pub total_duration_ms: u64,
}

impl View for ScenarioStore {
    type V = Map<Seq<char>, NetworkScenario>;

    closed spec fn view(&self) -> Map<Seq<char>, NetworkScenario> {
        store_map(self.scenarios@)
    }
}

impl ScenarioStore {
    #[verifier::type_invariant]
    spec fn ids_distinct(self) -> bool {
        distinct_ids(self.scenarios@)
    }

    /// The stored scenarios, in the order the store keeps them.
    pub closed spec fn entries(&self) -> Seq<NetworkScenario> {
        self.scenarios@
    }

    /// An empty store.
    pub fn new() -> (s: ScenarioStore)
        ensures
            s@ == Map::<Seq<char>, NetworkScenario>::empty(),
    {
        ScenarioStore { scenarios: Vec::new() }
    }

    fn index_of(&self, id: &str) -> (r: Option<usize>)
        ensures
            match r {
                Some(i) => i < self.scenarios@.len() && self.scenarios@[i as int].id@ == id@,
                None => forall|j: int|
                    0 <= j < self.scenarios@.len() ==> #[trigger] self.scenarios@[j].id@ != id@,
            },
    {
        let mut i: usize = 0;
        while i < self.scenarios.len()
            invariant
                i <= self.scenarios@.len(),
                forall|j: int| 0 <= j < i ==> #[trigger] self.scenarios@[j].id@ != id@,
            decreases self.scenarios.len() - i,
        {
            if str_eq(self.scenarios[i].id.as_str(), id) {
                return Some(i);
            }
            i = i + 1;
        }
        None
    }

    /// Stores `scenario` under its id, replacing one stored there before.
    pub fn put_scenario(&mut self, scenario: NetworkScenario)
        ensures
            final(self)@ == old(self)@.insert(scenario.id@, scenario),
    {
        proof {
            use_type_invariant(&*self);
        }
        let ghost before = self.scenarios@;
        let ghost k = scenario.id@;
        match self.index_of(scenario.id.as_str()) {
            Some(i) => {
                let mut v = Vec::new();
                std::mem::swap(&mut v, &mut self.scenarios);
                v.set(i, scenario);
                proof {
                    assert(v@ == before.update(i as int, scenario));
                    assert(distinct_ids(v@)) by {
                        assert forall|a: int, b: int| 0 <= a < b < v@.len() implies #[trigger] v@[a].id@
                            != #[trigger] v@[b].id@ by {
                            assert(a != i ==> v@[a] == before[a]);
                            assert(b != i ==> v@[b] == before[b]);
                        }
                    }
                    lemma_store_map_update(before, i as int, scenario);
                }
                self.scenarios = v;
            },
            None => {
                let mut v = Vec::new();
                std::mem::swap(&mut v, &mut self.scenarios);
                v.push(scenario);
                proof {
                    assert(v@ == before.push(scenario));
                    assert(v@.drop_last() =~= before);
                    assert(distinct_ids(v@)) by {
                        assert forall|a: int, b: int| 0 <= a < b < v@.len() implies #[trigger] v@[a].id@
                            != #[trigger] v@[b].id@ by {
                            assert(v@[a] == before[a]);
                            if b < before.len() {
                                assert(v@[b] == before[b]);
                            }
                        }
                    }
                }
                self.scenarios = v;
            },
        }
    }

    /// The scenario stored under `id`, if any.
    pub fn get_scenario(&self, id: &str) -> (r: Option<&NetworkScenario>)
        ensures
            match r {
                Some(s) => self@.contains_key(id@) && *s == self@[id@],
                None => !self@.contains_key(id@),
            },
    {
        proof {
            use_type_invariant(self);
        }
        match self.index_of(id) {
            Some(i) => {
                proof {
                    lemma_store_map_at(self.scenarios@, i as int);
                }
                Some(&self.scenarios[i])
            },
            None => {
                proof {
                    lemma_store_map_absent(self.scenarios@, id@);
                }
                None
            },
        }
    }

    /// Every stored scenario, each once.
    pub fn list_scenarios(&self) -> (r: &Vec<NetworkScenario>)
        ensures
            r@ == self.entries(),
            r@.len() == self@.len(),
            distinct_ids(r@),
            forall|i: int| 0 <= i < r@.len() ==> self@.contains_key(#[trigger] r@[i].id@) && self@[r@[i].id@]
                == r@[i],
    {
        proof {
            use_type_invariant(self);
            lemma_store_map_len(self.scenarios@);
            assert forall|i: int| 0 <= i < self.scenarios@.len() implies self@.contains_key(
                #[trigger] self.scenarios@[i].id@,
            ) && self@[self.scenarios@[i].id@] == self.scenarios@[i] by {
                lemma_store_map_at(self.scenarios@, i);
            }
        }
        &self.scenarios
    }

    /// Removes the scenario stored under `id`; whether there was one.
    pub fn delete_scenario(&mut self, id: &str) -> (existed: bool)
        ensures
            existed == old(self)@.contains_key(id@),
            final(self)@ == old(self)@.remove(id@),
    {
        proof {
            use_type_invariant(&*self);
        }
        let ghost before = self.scenarios@;
        match self.index_of(id) {
            Some(i) => {
                proof {
                    lemma_store_map_at(before, i as int);
                    lemma_store_map_remove(before, i as int);
                }
                let mut v = Vec::new();
                std::mem::swap(&mut v, &mut self.scenarios);
                v.remove(i);
                self.scenarios = v;
                true
            },
            None => {
                proof {
                    lemma_store_map_absent(before, id@);
                    assert(store_map(before).remove(id@) =~= store_map(before));
                }
                false
            },
        }
    }

    /// Whether a scenario is stored under `id`.
    pub fn scenario_exists(&self, id: &str) -> (r: bool)
        ensures
            r == self@.contains_key(id@),
    {
        self.get_scenario(id).is_some()
    }

    /// The number of stored scenarios, their steps and their duration,
    /// each counted over all of them.
    pub fn get_storage_stats(&self) -> (r: ScenarioStorageStats)
        requires
            total_steps(self.entries()) <= usize::MAX,
            total_duration(self.entries()) <= u64::MAX,
        ensures
            r.total_scenarios == self@.len(),
            r.total_steps == total_steps(self.entries()),
            r.total_duration_ms == total_duration(self.entries()),
    {
        proof {
            use_type_invariant(self);
            lemma_store_map_len(self.scenarios@);
        }
        let s = &self.scenarios;
        let mut steps: usize = 0;
        let mut duration: u64 = 0;
        let mut i: usize = 0;
        while i < s.len()
            invariant
                i <= s@.len(),
                s@ == self.scenarios@,
                steps == total_steps(s@.subrange(0, i as int)),
                duration == total_duration(s@.subrange(0, i as int)),
                total_steps(s@) <= usize::MAX,
                total_duration(s@) <= u64::MAX,
            decreases s.len() - i,
        {
            let ghost pre = s@.subrange(0, i as int);
            let ghost next = s@.subrange(0, i + 1);
            proof {
                assert(next.drop_last() =~= pre);
                lemma_totals_monotone(s@, i + 1);
            }
            let d = s[i].estimated_total_duration_ms();
            steps = steps + s[i].steps.len();
            duration = duration + d;
            i = i + 1;
        }
        assert(s@.subrange(0, s@.len() as int) =~= s@);
        ScenarioStorageStats { total_scenarios: s.len(), total_steps: steps, total_duration_ms: duration }
    }
}

proof fn lemma_totals_monotone(s: Seq<NetworkScenario>, n: int)
    requires
        0 <= n <= s.len(),
    ensures
        total_steps(s.subrange(0, n)) <= total_steps(s),
        total_duration(s.subrange(0, n)) <= total_duration(s),
    decreases s.len() - n,
{
    if n < s.len() {
        lemma_totals_monotone(s, n + 1);
        assert(s.subrange(0, n + 1).drop_last() =~= s.subrange(0, n));
    } else {
        assert(s.subrange(0, n) =~= s);
    }
}

/// A scenario by id: the stored one if there is one, else the first
/// loaded template with that id.
pub fn lookup_scenario<'a>(
    store: &'a ScenarioStore,
    templates: &'a Vec<NetworkScenario>,
    id: &str,
) -> (r: Option<&'a NetworkScenario>)
    ensures
        store@.contains_key(id@) ==> r == Some(&store@[id@]),
        !store@.contains_key(id@) ==> match r {
            Some(t) => exists|i: int|
                0 <= i < templates@.len() && templates@[i] == *t && templates@[i].id@ == id@
                    && forall|j: int| 0 <= j < i ==> #[trigger] templates@[j].id@ != id@,
            None => forall|j: int| 0 <= j < templates@.len() ==> #[trigger] templates@[j].id@ != id@,
        },
{
    match store.get_scenario(id) {
        Some(s) => Some(s),
        None => {
            let mut i: usize = 0;
            while i < templates.len()
                invariant
                    i <= templates@.len(),
                    !store@.contains_key(id@),
                    forall|j: int| 0 <= j < i ==> #[trigger] templates@[j].id@ != id@,
                decreases templates.len() - i,
            {
                if str_eq(templates[i].id.as_str(), id) {
                    return Some(&templates[i]);
                }
                i = i + 1;
            }
            None
        },
    }
}

} // verus!
