use vstd::prelude::*;

use crate::x86::{Operand, OperandModel};

verus! {

/// The operands in a sequence, as a set of models.
pub open spec fn models_of(s: Seq<Operand>) -> Set<OperandModel> {
    Set::new(|m: OperandModel| exists|i: int| 0 <= i < s.len() && s[i]@ == m)
}

/// Appending an operand adds its model to the set.
proof fn lemma_models_of_push(s: Seq<Operand>, o: Operand)
    ensures
        models_of(s.push(o)) == models_of(s).insert(o@),
{
    let t = s.push(o);
    assert forall|m: OperandModel| models_of(t).contains(m) implies models_of(s).insert(
        o@,
    ).contains(m) by {
        let i = choose|i: int| 0 <= i < t.len() && t[i]@ == m;
        if i < s.len() {
            assert(s[i] == t[i]);
        }
    }
    assert forall|m: OperandModel| models_of(s).insert(o@).contains(m) implies models_of(
        t,
    ).contains(m) by {
        if m != o@ {
            let i = choose|i: int| 0 <= i < s.len() && s[i]@ == m;
            assert(t[i] == s[i]);
        } else {
            assert(t[s.len() as int] == o);
        }
    }
    assert(models_of(t) =~= models_of(s).insert(o@));
}

/// A finite set of operands, compared by value.
pub struct OperandSet {
    items: Vec<Operand>,
}

impl View for OperandSet {
    type V = Set<OperandModel>;

    closed spec fn view(&self) -> Set<OperandModel> {
        models_of(self.items@)
    }
}

impl Clone for OperandSet {
    fn clone(&self) -> (r: Self)
        ensures
            r@ == self@,
    {
        let mut items: Vec<Operand> = Vec::new();
        let mut i: usize = 0;
        while i < self.items.len()
            invariant
                i <= self.items.len(),
                items@ == self.items@.take(i as int),
            decreases self.items.len() - i,
        {
            items.push(self.items[i].clone());
            i += 1;
            assert(items@ =~= self.items@.take(i as int));
        }
        assert(items@ =~= self.items@);
        OperandSet { items }
    }
}

impl OperandSet {
    /// The empty set.
    pub fn new() -> (r: Self)
        ensures
            r@ == Set::<OperandModel>::empty(),
    {
        let r = OperandSet { items: Vec::new() };
        assert(r@ =~= Set::<OperandModel>::empty());
        r
    }

    /// Whether an operand equal to `o` is a member.
    pub fn contains(&self, o: &Operand) -> (r: bool)
        ensures
            r == self@.contains(o@),
    {
        let mut i: usize = 0;
        while i < self.items.len()
            invariant
                i <= self.items.len(),
                forall|j: int| 0 <= j < i ==> self.items@[j]@ != o@,
            decreases self.items.len() - i,
        {
            if self.items[i] == *o {
                return true;
            }
            i += 1;
        }
        false
    }

    /// Adds `o` unless an equal operand is already a member.
    pub fn insert(&mut self, o: Operand)
        ensures
            final(self)@ == old(self)@.insert(o@),
    {
        if !self.contains(&o) {
            let ghost before = self.items@;
            self.items.push(o);
            proof {
                lemma_models_of_push(before, o);
            }
        } else {
            assert(self@ =~= old(self)@.insert(o@));
        }
    }

    /// Whether the set has no members.
    pub fn is_empty(&self) -> (r: bool)
        ensures
            r == (self@ == Set::<OperandModel>::empty()),
    {
        if self.items.len() == 0 {
            assert(self@ =~= Set::<OperandModel>::empty());
            true
        } else {
            assert(self@.contains(self.items@[0]@));
            false
        }
    }

    /// The members, in the order they were first inserted.
    pub fn to_vec(&self) -> (r: Vec<Operand>)
        ensures
            models_of(r@) == self@,
    {
        self.clone().items
    }

    /// The members of `self` and of `other`.
    pub fn union(&self, other: &OperandSet) -> (r: OperandSet)
        ensures
            r@ == self@.union(other@),
    {
        let mut r = self.clone();
        let mut i: usize = 0;
        while i < other.items.len()
            invariant
                i <= other.items.len(),
                r@ == self@.union(models_of(other.items@.take(i as int))),
            decreases other.items.len() - i,
        {
            r.insert(other.items[i].clone());
            i += 1;
            proof {
                assert(other.items@.take(i as int) =~= other.items@.take(i - 1).push(
                    other.items@[i - 1],
                ));
                lemma_models_of_push(other.items@.take(i - 1), other.items@[i - 1]);
            }
        }
        assert(other.items@.take(i as int) =~= other.items@);
        r
    }

    /// The members of `self` that are not members of `other`.
    pub fn difference(&self, other: &OperandSet) -> (r: OperandSet)
        ensures
            r@ == self@.difference(other@),
    {
        let mut r = OperandSet::new();
        let mut i: usize = 0;
        while i < self.items.len()
            invariant
                i <= self.items.len(),
                r@ == models_of(self.items@.take(i as int)).difference(other@),
            decreases self.items.len() - i,
        {
            let o = &self.items[i];
            if !other.contains(o) {
                r.insert(o.clone());
            }
            i += 1;
            proof {
                assert(self.items@.take(i as int) =~= self.items@.take(i - 1).push(
                    self.items@[i - 1],
                ));
                lemma_models_of_push(self.items@.take(i - 1), self.items@[i - 1]);
            }
            assert(r@ =~= models_of(self.items@.take(i as int)).difference(other@));
        }
        assert(self.items@.take(i as int) =~= self.items@);
        r
    }
}

} // verus!
