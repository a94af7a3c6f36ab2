//! The registry: which operator stands under which symbol.

use vstd::prelude::*;
use vstd::string::StringExecFns;
use crate::lexer::same_text;
use crate::operators::Operator;

verus! {

/// The operators by symbol. No symbol is held twice.
#[derive(Debug)]
pub struct OperatorRegistry<O: Operator> {
    entries: Vec<(String, O)>,
}

impl<O: Operator> OperatorRegistry<O> {
    #[verifier::type_invariant]
    spec fn distinct_symbols(self) -> bool {
        forall|i: int, j: int|
            0 <= i < j < self.entries@.len() ==> (#[trigger] self.entries@[i]).0@
                != (#[trigger] self.entries@[j]).0@
    }

    /// Whether the entry at `index` is the one for `symbol`.
    spec fn holds_at(self, symbol: Seq<char>, index: int) -> bool {
        0 <= index < self.entries@.len() && self.entries@[index].0@ == symbol
    }

    /// The registry as a map from symbol to operator.
    pub closed spec fn view(&self) -> Map<Seq<char>, O> {
        Map::new(
            |symbol: Seq<char>| exists|i: int| self.holds_at(symbol, i),
            |symbol: Seq<char>| self.entries@[choose|i: int| self.holds_at(symbol, i)].1,
        )
    }

    /// A registry without operators.
    pub fn new() -> (registry: Self)
        ensures
            registry@ == Map::<Seq<char>, O>::empty(),
    {
        let registry = OperatorRegistry { entries: Vec::new() };
        assert(registry@ =~= Map::<Seq<char>, O>::empty());
        registry
    }

    /// The position of the entry for `symbol`.
    fn position(&self, symbol: &str) -> (found: Option<usize>)
        ensures
            match found {
                Some(index) => self.holds_at(symbol@, index as int),
                None => forall|i: int| !self.holds_at(symbol@, i),
            },
    {
        let mut index: usize = 0;
        while index < self.entries.len()
            invariant
                index <= self.entries@.len(),
                forall|i: int| 0 <= i < index ==> !self.holds_at(symbol@, i),
            decreases self.entries@.len() - index,
        {
            if same_text(self.entries[index].0.as_str(), symbol) {
                return Some(index);
            }
            index = index + 1;
        }
        None
    }

    /// Puts `operator` under `symbol`, in place of the operator that the
    /// symbol had, if it had one.
    pub fn register(&mut self, symbol: &str, operator: O)
        ensures
            final(self)@ == old(self)@.insert(symbol@, operator),
    {
        proof {
            use_type_invariant(&*self);
        }
        let found = self.position(symbol);
        let name = String::from_str(symbol);
        let mut taken = OperatorRegistry { entries: Vec::new() };
        core::mem::swap(self, &mut taken);
        let mut entries = taken.entries;
        match found {
            Some(index) => {
                entries.set(index, (name, operator));
                *self = OperatorRegistry { entries };
                proof {
                    assert forall|k: Seq<char>, i: int| self.holds_at(k, i) == old(self).holds_at(
                        k,
                        i,
                    ) by {}
                    assert(self.holds_at(symbol@, index as int));
                    assert forall|k: Seq<char>| #[trigger] self@.contains_key(k) implies self@[k]
                        == old(self)@.insert(symbol@, operator)[k] by {
                        let i = choose|i: int| self.holds_at(k, i);
                        let j = choose|j: int| old(self).holds_at(k, j);
                        assert(old(self).holds_at(k, i));
                        assert(i == j);
                    }
                    assert(self@ =~= old(self)@.insert(symbol@, operator));
                }
            },
            None => {
                entries.push((name, operator));
                proof {
                    assert forall|i: int, j: int| 0 <= i < j < entries@.len() implies (
                    #[trigger] entries@[i]).0@ != (#[trigger] entries@[j]).0@ by {
                        if j == entries@.len() - 1 {
                            assert(!old(self).holds_at(symbol@, i));
                        } else {
                            assert(entries@[i] == old(self).entries@[i]);
                            assert(entries@[j] == old(self).entries@[j]);
                        }
                    }
                }
                *self = OperatorRegistry { entries };
                proof {
                    let last = old(self).entries@.len() as int;
                    assert(self.holds_at(symbol@, last));
                    assert forall|k: Seq<char>, i: int| old(self).holds_at(k, i) implies self.holds_at(
                        k,
                        i,
                    ) by {}
                    assert forall|k: Seq<char>| #[trigger]
                        self@.contains_key(k) == old(self)@.insert(symbol@, operator).contains_key(
                            k,
                        ) by {
                        if self@.contains_key(k) {
                            let i = choose|i: int| self.holds_at(k, i);
                            if i < last {
                                assert(old(self).holds_at(k, i));
                            }
                        }
                        if old(self)@.contains_key(k) {
                            let i = choose|i: int| old(self).holds_at(k, i);
                            assert(self.holds_at(k, i));
                        }
                    }
                    assert forall|k: Seq<char>| #[trigger] self@.contains_key(k) implies self@[k]
                        == old(self)@.insert(symbol@, operator)[k] by {
                        let i = choose|i: int| self.holds_at(k, i);
                        if k == symbol@ {
                            if i < last {
                                assert(old(self).holds_at(k, i));
                            }
                        } else {
                            assert(old(self).holds_at(k, i));
                            let j = choose|j: int| old(self).holds_at(k, j);
                            assert(i == j);
                        }
                    }
                    assert(self@ =~= old(self)@.insert(symbol@, operator));
                }
            },
        }
    }

    /// The operator under `symbol`.
    pub fn get(&self, symbol: &str) -> (found: Option<&O>)
        ensures
            match found {
                Some(operator) => self@.contains_key(symbol@) && *operator == self@[symbol@],
                None => !self@.contains_key(symbol@),
            },
    {
        proof {
            use_type_invariant(self);
        }
        match self.position(symbol) {
            Some(index) => {
                proof {
                    let i = choose|i: int| self.holds_at(symbol@, i);
                    assert(i == index);
                }
                Some(&self.entries[index].1)
            },
            None => None,
        }
    }
}

} // verus!
