use vstd::prelude::*;
use std::sync::Arc;
use vstd::arithmetic::power::pow;
use crate::noodle::{NoodleState, QuantumNoodle, QUIET_NAN_BITS, is_nan_bits, nan_bits, state_of};

verus! {

/// Events that occur in the pasta simulation. The confusion level of a
/// paradox is held as a binary64 bit pattern. The last two events are
/// reserved and never reported by a tick.
#[derive(Debug, Clone)]
pub enum PastaEvent {
    ChefKiss(String),
    Tragedy(String),
    ParadoxDetected { noodle: String, confusion_level_bits: u64 },
    MeatballEscapeVelocityReached,
    GarlicBreadSingularity,
}

/// A registry entry as the contracts see it: the name and the noodle.
pub type EntryView = (Seq<char>, QuantumNoodle);

/// The abstract state of an engine: the registry's entries in the order in
/// which their names were first registered, the number of successful
/// registrations that have strengthened the sauce field, and the meatball count.
pub struct EngineView {
    pub entries: Seq<EntryView>,
    pub field_growths: nat,
    pub meatball_count: int,
}

/// The Grand Unified Pasta Theory engine: a registry of shared noodles, a
/// sauce field that grows with each registration, and a meatball count.
pub struct GUPTEngine {
    noodle_registry: Vec<(String, Arc<QuantumNoodle>)>,
    sauce_field_growths: u64,
    meatball_count: i32,
}

/// The sauce field strength of a fresh engine is 9.81; each registration
/// multiplies it by 1.001. This is that strength after `growths`
/// registrations, as a numerator and a denominator.
pub open spec fn field_strength(growths: nat) -> (nat, nat) {
    ((981 * pow(1001, growths)) as nat, (100 * pow(1000, growths)) as nat)
}

/// No two entries share a name.
pub open spec fn names_unique(s: Seq<EntryView>) -> bool {
    forall|i: int, j: int| 0 <= i < s.len() && 0 <= j < s.len() && i != j ==> s[i].0 != s[j].0
}

/// Some entry carries the name `k`.
pub open spec fn has_name(s: Seq<EntryView>, k: Seq<char>) -> bool {
    exists|i: int| 0 <= i < s.len() && s[i].0 == k
}

/// The entries after registering `v` under `k`: an entry with that name is
/// replaced in place, otherwise the new entry goes to the end.
pub open spec fn with_entry(s: Seq<EntryView>, k: Seq<char>, v: QuantumNoodle) -> Seq<EntryView> {
    if has_name(s, k) {
        s.update(choose|i: int| 0 <= i < s.len() && s[i].0 == k, (k, v))
    } else {
        s.push((k, v))
    }
}

/// The number of entries whose noodle is overcooked.
pub open spec fn overcooked_count(s: Seq<EntryView>) -> nat
    decreases s.len(),
{
    if s.len() == 0 {
        0
    } else {
        (if state_of(s[0].1.al_dente_coefficient) == NoodleState::OvercookedIntoOblivion {
            1nat
        } else {
            0nat
        }) + overcooked_count(s.subrange(1, s.len() as int))
    }
}

/// `e` is the event that a tick reports for a noodle named `name` in `state`.
pub open spec fn reports(e: PastaEvent, name: Seq<char>, state: NoodleState) -> bool {
    match state {
        NoodleState::PerfectlyAlDente => e matches PastaEvent::ChefKiss(n) && n@ == name,
        NoodleState::OvercookedIntoOblivion => e matches PastaEvent::Tragedy(n) && n@ == name,
        NoodleState::SomehowFrozenAndBurning => e matches PastaEvent::ParadoxDetected {
            noodle,
            confusion_level_bits,
        } && noodle@ == name && confusion_level_bits == QUIET_NAN_BITS,
    }
}

/// A successful registration of `v` under `k` took the engine from `a` to `b`.
pub open spec fn registered(a: EngineView, b: EngineView, k: Seq<char>, v: QuantumNoodle) -> bool {
    &&& b.entries == with_entry(a.entries, k, v)
    &&& b.field_growths == a.field_growths + 1
    &&& b.meatball_count == a.meatball_count
}

/// A tick took the engine from `a` to `b` and reported `events`: one event per
/// entry, in registry order, and one meatball fewer per overcooked noodle.
pub open spec fn ticked(a: EngineView, b: EngineView, events: Seq<PastaEvent>) -> bool {
    &&& events.len() == a.entries.len()
    &&& forall|i: int|
        0 <= i < events.len() ==> #[trigger] reports(
            events[i],
            a.entries[i].0,
            state_of(a.entries[i].1.al_dente_coefficient),
        )
    &&& b.entries == a.entries
    &&& b.field_growths == a.field_growths
    &&& b.meatball_count == a.meatball_count - overcooked_count(a.entries)
}

/// Starting from a fresh engine, registering noodles one after another
/// multiplies the sauce field strength by 1.001 each time: after `n`
/// registrations it is 9.81 * 1.001^n.
pub proof fn lemma_field_strength_after_registrations(
    states: Seq<EngineView>,
    names: Seq<Seq<char>>,
    noodles: Seq<QuantumNoodle>,
)
    requires
        states.len() == names.len() + 1,
        noodles.len() == names.len(),
        states[0].field_growths == 0,
        forall|i: int|
            0 <= i < names.len() ==> #[trigger] registered(
                states[i],
                states[i + 1],
                names[i],
                noodles[i],
            ),
    ensures
        states.last().field_growths == names.len(),
        field_strength(states.last().field_growths) == (
            (981 * pow(1001, names.len() as nat)) as nat,
            (100 * pow(1000, names.len() as nat)) as nat,
        ),
    decreases names.len(),
{
    if names.len() > 0 {
        let k = names.len() - 1;
        let (s1, n1, v1) = (states.drop_last(), names.drop_last(), noodles.drop_last());
        assert forall|i: int| 0 <= i < n1.len() implies #[trigger] registered(
            s1[i],
            s1[i + 1],
            n1[i],
            v1[i],
        ) by {
            assert(registered(states[i], states[i + 1], names[i], noodles[i]));
        }
        lemma_field_strength_after_registrations(s1, n1, v1);
        assert(s1.last() == states[k]);
        assert(registered(states[k], states[k + 1], names[k], noodles[k]));
    }
}

/// A registry with no overcooked noodle costs no meatballs.
proof fn lemma_no_overcooked(s: Seq<EntryView>)
    requires
        forall|j: int|
            0 <= j < s.len() ==> state_of(#[trigger] s[j].1.al_dente_coefficient)
                != NoodleState::OvercookedIntoOblivion,
    ensures
        overcooked_count(s) == 0,
    decreases s.len(),
{
    if s.len() > 0 {
        let t = s.subrange(1, s.len() as int);
        assert forall|j: int| 0 <= j < t.len() implies state_of(#[trigger] t[j].1.al_dente_coefficient)
            != NoodleState::OvercookedIntoOblivion by {
            assert(t[j] == s[j + 1]);
        }
        lemma_no_overcooked(t);
    }
}

/// A registry with exactly one overcooked noodle, at `k`, costs one meatball.
proof fn lemma_one_overcooked(s: Seq<EntryView>, k: int)
    requires
        0 <= k < s.len(),
        state_of(s[k].1.al_dente_coefficient) == NoodleState::OvercookedIntoOblivion,
        forall|j: int|
            0 <= j < s.len() && j != k ==> state_of(#[trigger] s[j].1.al_dente_coefficient)
                != NoodleState::OvercookedIntoOblivion,
    ensures
        overcooked_count(s) == 1,
    decreases s.len(),
{
    let t = s.subrange(1, s.len() as int);
    if k == 0 {
        assert forall|j: int| 0 <= j < t.len() implies state_of(#[trigger] t[j].1.al_dente_coefficient)
            != NoodleState::OvercookedIntoOblivion by {
            assert(t[j] == s[j + 1]);
        }
        lemma_no_overcooked(t);
    } else {
        assert forall|j: int| 0 <= j < t.len() && j != k - 1 implies state_of(
            #[trigger] t[j].1.al_dente_coefficient,
        ) != NoodleState::OvercookedIntoOblivion by {
            assert(t[j] == s[j + 1]);
        }
        assert(t[k - 1] == s[k]);
        lemma_one_overcooked(t, k - 1);
    }
}

/// A tick over a registry holding exactly one overcooked noodle decrements
/// the meatball count by exactly one and reports exactly one tragedy, for
/// that noodle.
pub proof fn lemma_single_overcooked_tick(
    before: EngineView,
    after: EngineView,
    events: Seq<PastaEvent>,
    k: int,
)
    requires
        ticked(before, after, events),
        0 <= k < before.entries.len(),
        state_of(before.entries[k].1.al_dente_coefficient) == NoodleState::OvercookedIntoOblivion,
        forall|j: int|
            0 <= j < before.entries.len() && j != k ==> state_of(
                #[trigger] before.entries[j].1.al_dente_coefficient,
            ) != NoodleState::OvercookedIntoOblivion,
    ensures
        after.meatball_count == before.meatball_count - 1,
        events[k] matches PastaEvent::Tragedy(n) && n@ == before.entries[k].0,
        forall|j: int| 0 <= j < events.len() && j != k ==> !(#[trigger] events[j] is Tragedy),
{
    lemma_one_overcooked(before.entries, k);
    assert(reports(events[k], before.entries[k].0, state_of(before.entries[k].1.al_dente_coefficient)));
    assert forall|j: int| 0 <= j < events.len() && j != k implies !(#[trigger] events[j] is Tragedy) by {
        assert(reports(events[j], before.entries[j].0, state_of(before.entries[j].1.al_dente_coefficient)));
    }
}

impl View for GUPTEngine {
    type V = EngineView;

    closed spec fn view(&self) -> EngineView {
        EngineView {
            entries: self.noodle_registry@.map_values(
                |e: (String, Arc<QuantumNoodle>)| (e.0@, *e.1),
            ),
            field_growths: self.sauce_field_growths as nat,
            meatball_count: self.meatball_count as int,
        }
    }
}

impl GUPTEngine {
    /// No two registry entries share a name.
    pub open spec fn wf(&self) -> bool {
        names_unique(self@.entries)
    }

    /// An empty registry, a sauce field of 9.81 and 42 meatballs.
    pub fn new() -> (r: Self)
        ensures
            r.wf(),
            r@.entries.len() == 0,
            r@.field_growths == 0,
            r@.meatball_count == 42,
    {
        GUPTEngine { noodle_registry: Vec::new(), sauce_field_growths: 0, meatball_count: 42 }
    }

    /// The number of overcooked noodles in the registry: the meatballs that
    /// the next tick will cost.
    pub fn overcooked_total(&self) -> (r: usize)
        ensures
            r as nat == overcooked_count(self@.entries),
    {
        let ghost s = self@.entries;
        let n: usize = self.noodle_registry.len();
        let mut count: usize = 0;
        let mut i: usize = 0;
        proof {
            assert(s.subrange(0, n as int) =~= s);
        }
        while i < n
            invariant
                n == s.len(),
                s == self@.entries,
                0 <= count <= i <= n,
                count + overcooked_count(s.subrange(i as int, n as int)) == overcooked_count(s),
            decreases n - i,
        {
            let ghost rest = s.subrange(i as int, n as int);
            let entry = &self.noodle_registry[i];
            proof {
                assert(rest.subrange(1, rest.len() as int) =~= s.subrange(i + 1, n as int));
                assert(s[i as int] == (entry.0@, *entry.1));
                assert(rest[0] == s[i as int]);
            }
            if entry.1.measure() == NoodleState::OvercookedIntoOblivion {
                count = count + 1;
            }
            i = i + 1;
        }
        proof {
            assert(s.subrange(n as int, n as int).len() == 0);
        }
        count
    }

    /// Simulates the pasta universe for one tick: every noodle in the
    /// registry, in registry order, is measured and reported, and each
    /// overcooked one costs a meatball.
    pub fn tick(&mut self) -> (events: Vec<PastaEvent>)
        requires
            old(self).wf(),
            old(self)@.meatball_count - overcooked_count(old(self)@.entries) >= i32::MIN,
        ensures
            final(self).wf(),
            ticked(old(self)@, final(self)@, events@),
    {
        let ghost s0 = self@;
        let mut events: Vec<PastaEvent> = Vec::new();
        let n: usize = self.noodle_registry.len();
        let mut i: usize = 0;
        proof {
            assert(s0.entries.subrange(0, n as int) =~= s0.entries);
        }
        while i < n
            invariant
                n == s0.entries.len(),
                self@.entries == s0.entries,
                self@.field_growths == s0.field_growths,
                0 <= i <= n,
                events@.len() == i,
                forall|j: int|
                    0 <= j < i ==> #[trigger] reports(
                        events@[j],
                        s0.entries[j].0,
                        state_of(s0.entries[j].1.al_dente_coefficient),
                    ),
                self@.meatball_count - overcooked_count(s0.entries.subrange(i as int, n as int))
                    == s0.meatball_count - overcooked_count(s0.entries),
                i32::MIN <= self@.meatball_count <= i32::MAX,
                s0.meatball_count - overcooked_count(s0.entries) >= i32::MIN,
            decreases n - i,
        {
            let ghost rest = s0.entries.subrange(i as int, n as int);
            proof {
                assert(rest.subrange(1, rest.len() as int) =~= s0.entries.subrange(
                    i + 1,
                    n as int,
                ));
            }
            let entry = &self.noodle_registry[i];
            proof {
                assert(s0.entries[i as int] == (entry.0@, *entry.1));
                assert(rest[0] == s0.entries[i as int]);
            }
            let name = entry.0.clone();
            match entry.1.measure() {
                NoodleState::PerfectlyAlDente => {
                    events.push(PastaEvent::ChefKiss(name));
                },
                NoodleState::OvercookedIntoOblivion => {
                    self.meatball_count = self.meatball_count - 1;
                    events.push(PastaEvent::Tragedy(name));
                },
                NoodleState::SomehowFrozenAndBurning => {
                    events.push(
                        PastaEvent::ParadoxDetected { noodle: name, confusion_level_bits: QUIET_NAN_BITS },
                    );
                },
            }
            i = i + 1;
        }
        proof {
            assert(s0.entries.subrange(n as int, n as int).len() == 0);
        }
        events
    }

    /// Adds a noodle to the registry under `name`, replacing any noodle of
    /// that name, and strengthens the sauce field. A noodle whose wobble
    /// factor is not a number is refused and nothing changes.
    pub fn register_noodle(&mut self, name: String, noodle: QuantumNoodle) -> (r: bool)
        requires
            old(self).wf(),
            old(self)@.field_growths < u64::MAX,
        ensures
            final(self).wf(),
            r == !is_nan_bits(noodle.wobble_bits),
            !r ==> final(self)@ == old(self)@,
            r ==> registered(old(self)@, final(self)@, name@, noodle),
    {
        if nan_bits(noodle.wobble_bits) {
            return false;
        }
        let ghost s0 = self@;
        let n: usize = self.noodle_registry.len();
        let mut i: usize = 0;
        while i < n
            invariant
                self@ == s0,
                old(self)@ == s0,
                s0.field_growths < u64::MAX,
                names_unique(s0.entries),
                !is_nan_bits(noodle.wobble_bits),
                n == s0.entries.len(),
                0 <= i <= n,
                forall|j: int| 0 <= j < i ==> s0.entries[j].0 != name@,
            decreases n - i,
        {
            proof {
                assert(s0.entries[i as int].0 == self.noodle_registry@[i as int].0@);
            }
            if self.noodle_registry[i].0 == name {
                proof {
                    let k = choose|k: int| 0 <= k < s0.entries.len() && s0.entries[k].0 == name@;
                    assert(k == i);
                }
                self.noodle_registry[i] = (name, Arc::new(noodle));
                self.sauce_field_growths = self.sauce_field_growths + 1;
                proof {
                    assert(self@.entries =~= with_entry(s0.entries, name@, noodle));
                }
                return true;
            }
            i = i + 1;
        }
        self.noodle_registry.push((name, Arc::new(noodle)));
        self.sauce_field_growths = self.sauce_field_growths + 1;
        proof {
            assert(self@.entries =~= with_entry(s0.entries, name@, noodle));
        }
        true
    }

    /// The current meatball count.
    pub fn meatball_count(&self) -> (r: i32)
        ensures
            r as int == self@.meatball_count,
    {
        self.meatball_count
    }

    /// How many registrations have strengthened the sauce field.
    pub fn sauce_field_growths(&self) -> (r: u64)
        ensures
            r as nat == self@.field_growths,
    {
        self.sauce_field_growths
    }

    /// The number of noodles in the registry.
    pub fn registry_len(&self) -> (r: usize)
        ensures
            r as nat == self@.entries.len(),
    {
        self.noodle_registry.len()
    }
}

} // verus!
