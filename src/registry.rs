//! The registry of valves, kept in the order they were created, with the actuator's address.

use crate::error::Error;
use crate::valve::{Valve, ValveNumber};
use vstd::prelude::*;
use vstd::std_specs::iter::IteratorSpec;
use vstd::std_specs::slice::axiom_spec_slice_iter;

verus! {

/// Some valve of `s` has the number `n`.
pub open spec fn has_valve(s: Seq<Valve>, n: ValveNumber) -> bool {
    exists|i: int| 0 <= i < s.len() && (#[trigger] s[i]).valve_number == n
}

/// No two valves of `s` share a number.
pub open spec fn unique_numbers(s: Seq<Valve>) -> bool {
    forall|i: int, j: int|
        0 <= i < s.len() && 0 <= j < s.len() && i != j ==> (#[trigger] s[i]).valve_number
            != (#[trigger] s[j]).valve_number
}

/// `s` with the valve numbered `n` left out.
pub open spec fn without_valve(s: Seq<Valve>, n: ValveNumber) -> Seq<Valve> {
    s.filter(|v: Valve| v.valve_number != n)
}

/// All valves under control, in the order they were created, and the base address of the
/// actuator that drives them.
#[derive(Debug)]
pub struct ControllerConfig {
    valves: Vec<Valve>,
    address: String,
}

impl View for ControllerConfig {
    type V = Seq<Valve>;

    closed spec fn view(&self) -> Seq<Valve> {
        self.valves@
    }
}

proof fn lemma_without_valve_push(s: Seq<Valve>, v: Valve, n: ValveNumber)
    ensures
        without_valve(s.push(v), n) == (if v.valve_number != n {
            without_valve(s, n).push(v)
        } else {
            without_valve(s, n)
        }),
{
    reveal(Seq::filter);
    assert(s.push(v).drop_last() == s);
    assert(s.push(v).last() == v);
}

impl ControllerConfig {
    pub closed spec fn address_spec(self) -> Seq<char> {
        self.address@
    }

    pub open spec fn wf(&self) -> bool {
        &&& unique_numbers(self@)
        &&& forall|i: int| 0 <= i < self@.len() ==> (#[trigger] self@[i]).wf()
    }

    /// An empty registry for the actuator at `address`.
    pub fn new(address: String) -> (r: ControllerConfig)
        ensures
            r.wf(),
            r@ == Seq::<Valve>::empty(),
            r.address_spec() == address@,
    {
        ControllerConfig { valves: Vec::new(), address }
    }

    /// The base address of the actuator.
    pub fn address(&self) -> (r: &String)
        ensures
            r@ == self.address_spec(),
    {
        &self.address
    }

    /// The valve numbered `valve_number`, if there is one.
    pub fn get(&self, valve_number: ValveNumber) -> (r: Option<&Valve>)
        ensures
            r is None <==> !has_valve(self@, valve_number),
            r matches Some(v) ==> exists|i: int|
                0 <= i < self@.len() && self@[i] == *v && v.valve_number == valve_number,
    {
        let n = self.valves.len();
        let mut i: usize = 0;
        while i < n
            invariant
                n == self.valves@.len(),
                0 <= i <= n,
                forall|k: int| 0 <= k < i ==> (#[trigger] self.valves@[k]).valve_number
                    != valve_number,
            decreases n - i,
        {
            if self.valves[i].valve_number == valve_number {
                return Some(&self.valves[i]);
            }
            i = i + 1;
        }
        None
    }

    /// Position of the valve numbered `valve_number`, if there is one.
    fn position(&self, valve_number: ValveNumber) -> (r: Option<usize>)
        ensures
            r is None <==> !has_valve(self@, valve_number),
            r matches Some(i) ==> i < self@.len() && self@[i as int].valve_number
                == valve_number,
    {
        let n = self.valves.len();
        let mut i: usize = 0;
        while i < n
            invariant
                n == self.valves@.len(),
                0 <= i <= n,
                forall|k: int| 0 <= k < i ==> (#[trigger] self.valves@[k]).valve_number
                    != valve_number,
            decreases n - i,
        {
            if self.valves[i].valve_number == valve_number {
                return Some(i);
            }
            i = i + 1;
        }
        None
    }

    /// The valve numbered `valve_number`, for change, if there is one.
    pub fn get_mut(&mut self, valve_number: ValveNumber) -> (r: Option<&mut Valve>)
        ensures
            r is None <==> !has_valve(old(self)@, valve_number),
            r is None ==> *final(self) == *old(self),
            r matches Some(v) ==> exists|i: int|
                {
                    &&& 0 <= i < old(self)@.len()
                    &&& old(self)@[i] == *v
                    &&& v.valve_number == valve_number
                    &&& final(self)@ == old(self)@.update(i, *final(v))
                    &&& final(self).address_spec() == old(self).address_spec()
                },
    {
        match self.position(valve_number) {
            Some(i) => Some(&mut self.valves[i]),
            None => None,
        }
    }

    /// Appends `valve`, unless a valve with its number exists already; then nothing changes.
    pub fn push(&mut self, valve: Valve) -> (r: Result<(), Error>)
        requires
            old(self).wf(),
            valve.wf(),
        ensures
            final(self).wf(),
            final(self).address_spec() == old(self).address_spec(),
            r is Err <==> has_valve(old(self)@, valve.valve_number),
            r matches Err(e) ==> e == Error::DuplicateValveNumber && *final(self) == *old(self),
            r is Ok ==> final(self)@ == old(self)@.push(valve),
    {
        if self.position(valve.valve_number).is_some() {
            return Err(Error::DuplicateValveNumber);
        }
        let ghost before = self.valves@;
        self.valves.push(valve);
        proof {
            assert forall|i: int, j: int|
                0 <= i < self@.len() && 0 <= j < self@.len() && i != j implies (#[trigger] self@[
                i]).valve_number != (#[trigger] self@[j]).valve_number by {
                if i < before.len() {
                    assert(self@[i] == before[i]);
                }
                if j < before.len() {
                    assert(self@[j] == before[j]);
                }
            }
            assert forall|i: int| 0 <= i < self@.len() implies (#[trigger] self@[i]).wf() by {
                if i < before.len() {
                    assert(self@[i] == before[i]);
                }
            }
        }
        Ok(())
    }

    /// Removes the valve numbered `valve_number`; tells whether there was one.
    pub fn remove_valve(&mut self, valve_number: ValveNumber) -> (r: bool)
        requires
            old(self).wf(),
        ensures
            final(self).wf(),
            final(self).address_spec() == old(self).address_spec(),
            r == has_valve(old(self)@, valve_number),
            final(self)@ == without_valve(old(self)@, valve_number),
            !r ==> final(self)@ == old(self)@,
    {
        let n = self.valves.len();
        let mut kept: Vec<Valve> = Vec::new();
        let mut found_smt = false;
        let mut rest: Vec<Valve> = Vec::new();
        std::mem::swap(&mut rest, &mut self.valves);
        let ghost all = rest@;
        let mut i: usize = 0;
        while i < n
            invariant
                n == all.len(),
                0 <= i <= n,
                rest@ == all.subrange(i as int, n as int),
                unique_numbers(all),
                forall|k: int| 0 <= k < n ==> (#[trigger] all[k]).wf(),
                kept@ == without_valve(all.subrange(0, i as int), valve_number),
                found_smt == has_valve(all.subrange(0, i as int), valve_number),
                !found_smt ==> kept@ == all.subrange(0, i as int),
                unique_numbers(kept@),
                forall|k: int| 0 <= k < kept@.len() ==> (#[trigger] kept@[k]).wf(),
                forall|k: int, j: int|
                    0 <= k < kept@.len() && i <= j < n ==> (#[trigger] kept@[k]).valve_number
                        != (#[trigger] all[j]).valve_number,
            decreases n - i,
        {
            let ghost prefix = all.subrange(0, i as int);
            let valve = rest.remove(0);
            proof {
                assert(valve == all[i as int]);
                assert(all.subrange(0, i + 1) == prefix.push(valve));
                lemma_without_valve_push(prefix, valve, valve_number);
                assert(rest@ == all.subrange(i + 1, n as int));
            }
            if valve.valve_number != valve_number {
                let ghost kept_before = kept@;
                kept.push(valve);
                proof {
                    assert forall|a: int, b: int|
                        0 <= a < kept@.len() && 0 <= b < kept@.len() && a != b implies (
                        #[trigger] kept@[a]).valve_number != (#[trigger] kept@[b]).valve_number by {
                        if a < kept_before.len() {
                            assert(kept@[a] == kept_before[a]);
                        }
                        if b < kept_before.len() {
                            assert(kept@[b] == kept_before[b]);
                        }
                    }
                    assert forall|k: int| 0 <= k < kept@.len() implies (#[trigger] kept@[k]).wf() by {
                        if k < kept_before.len() {
                            assert(kept@[k] == kept_before[k]);
                        }
                    }
                    assert forall|k: int, j: int|
                        0 <= k < kept@.len() && i + 1 <= j < n implies (
                        #[trigger] kept@[k]).valve_number != (#[trigger] all[j]).valve_number by {
                        if k < kept_before.len() {
                            assert(kept@[k] == kept_before[k]);
                        }
                    }
                    if !has_valve(all.subrange(0, i + 1), valve_number) {
                        assert forall|k: int| 0 <= k < i implies (#[trigger] prefix[k]).valve_number != valve_number by {
                            assert(all.subrange(0, i + 1)[k] == prefix[k]);
                        }
                    }
                    if has_valve(prefix, valve_number) {
                        let w = choose|w: int| 0 <= w < prefix.len() && (#[trigger] prefix[w]).valve_number == valve_number;
                        assert(all.subrange(0, i + 1)[w] == prefix[w]);
                    }
                }
            } else {
                found_smt = true;
                proof {
                    assert(all.subrange(0, i + 1)[i as int] == valve);
                }
            }
            i = i + 1;
        }
        proof {
            assert(all.subrange(0, n as int) == all);
        }
        self.valves = kept;
        found_smt
    }

    /// The valves, in the order they were created.
    pub fn iter(&self) -> (r: std::slice::Iter<'_, Valve>)
        ensures
            r.remaining() == self@.as_ref(),
    {
        proof {
            broadcast use axiom_spec_slice_iter;
        }
        self.valves.as_slice().iter()
    }

    /// The number of valves.
    pub fn len(&self) -> (r: usize)
        ensures
            r == self@.len(),
    {
        self.valves.len()
    }

    /// The valve at position `i`, in the order the valves were created.
    pub fn at(&self, i: usize) -> (r: &Valve)
        requires
            i < self@.len(),
        ensures
            *r == self@[i as int],
    {
        &self.valves[i]
    }
}

} // verus!
