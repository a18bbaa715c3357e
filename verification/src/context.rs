//! The context abstraction: resolving a tag to a graph element that exposes
//! an intrinsic value and an optional property bag.

use vstd::prelude::*;
use crate::value::{Value, ValueV};
use crate::wire::{NameOrId, NameOrIdV, PropKey};

verus! {

/// The view of an element: its intrinsic value and, when it has a property
/// store, its key-value pairs in order.
pub struct ElemV {
    pub value: ValueV,
    pub props: Option<Seq<(NameOrIdV, ValueV)>>,
}

/// A property bag: key-value pairs, looked up front to back.
#[derive(Debug)]
pub struct Details {
    pub props: Vec<(PropKey, Value)>,
}

impl View for Details {
    type V = Seq<(NameOrIdV, ValueV)>;

    open spec fn view(&self) -> Seq<(NameOrIdV, ValueV)> {
        self.props@.map_values(|kv: (PropKey, Value)| (kv.0@, kv.1@))
    }
}

/// The first value bound to `k`, scanning front to back.
pub open spec fn spec_lookup(ps: Seq<(NameOrIdV, ValueV)>, k: NameOrIdV) -> Option<ValueV>
    decreases ps.len(),
{
    if ps.len() == 0 {
        None
    } else if ps[0].0 == k {
        Some(ps[0].1)
    } else {
        spec_lookup(ps.subrange(1, ps.len() as int), k)
    }
}

impl Details {
    /// The property bound to `key`, if any.
    pub fn get(&self, key: &PropKey) -> (r: Option<Value>)
        ensures
            match r {
                Some(v) => spec_lookup(self@, key@) matches Some(w) && v@ == w,
                None => spec_lookup(self@, key@) is None,
            },
    {
        let n = self.props.len();
        proof {
            assert(self@.len() == n);
            assert(self@.subrange(0, n as int) =~= self@);
        }
        let mut i: usize = 0;
        while i < n
            invariant
                i <= n,
                n == self.props.len(),
                spec_lookup(self@, key@) == spec_lookup(self@.subrange(i as int, n as int), key@),
            decreases n - i,
        {
            let kv = &self.props[i];
            if kv.0.key_eq(key) {
                proof {
                    assert(self@.subrange(i as int, n as int)[0] == (
                        self.props@[i as int].0@,
                        self.props@[i as int].1@,
                    ));
                }
                return Some(kv.1.dup());
            }
            proof {
                assert(self@.subrange(i as int, n as int).subrange(
                    1,
                    (n - i) as int,
                ) =~= self@.subrange(i + 1, n as int));
            }
            i = i + 1;
        }
        proof {
            assert(self@.subrange(n as int, n as int).len() == 0);
        }
        None
    }
}

/// A graph element: an intrinsic value and an optional property bag.
#[derive(Debug)]
pub struct Element {
    pub value: Value,
    pub details: Option<Details>,
}

impl View for Element {
    type V = ElemV;

    open spec fn view(&self) -> ElemV {
        ElemV {
            value: self.value@,
            props: match &self.details {
                Some(d) => Some(d@),
                None => None,
            },
        }
    }
}

impl Element {
    /// The element's intrinsic value (for a variable without a property key).
    pub fn as_borrow_object(&self) -> (r: Value)
        ensures
            r@ == self@.value,
    {
        self.value.dup()
    }

    /// The element's property bag; absent when it has no property store.
    pub fn details(&self) -> (r: Option<&Details>)
        ensures
            match r {
                Some(d) => self@.props matches Some(p) && d@ == p,
                None => self@.props is None,
            },
    {
        self.details.as_ref()
    }
}

/// A context resolves a tag to an element.  Its `ctx_view` is the binding it
/// represents; `get` must answer according to that binding.
pub trait Context {
    /// The binding of tags to elements that this context represents.
    spec fn ctx_view(&self) -> Map<NameOrIdV, ElemV>;

    /// The element bound to `tag`, if any.
    fn get(&self, tag: &NameOrId) -> (r: Option<&Element>)
        ensures
            match r {
                Some(e) => self.ctx_view().contains_key(tag@) && e@ == self.ctx_view()[tag@],
                None => !self.ctx_view().contains_key(tag@),
            },
    ;
}

/// A context with no bindings at all.
#[derive(Debug)]
pub struct NoneContext {}

impl Context for NoneContext {
    open spec fn ctx_view(&self) -> Map<NameOrIdV, ElemV> {
        Map::empty()
    }

    fn get(&self, _tag: &NameOrId) -> (r: Option<&Element>) {
        None
    }
}

/// The binding a sequence of entries represents; a later entry for the same
/// tag overrides an earlier one.
pub open spec fn spec_bindings(s: Seq<(NameOrIdV, ElemV)>) -> Map<NameOrIdV, ElemV>
    decreases s.len(),
{
    if s.len() == 0 {
        Map::empty()
    } else {
        spec_bindings(s.drop_last()).insert(s.last().0, s.last().1)
    }
}

/// A context backed by a vector of bindings.
#[derive(Debug)]
pub struct VecContext {
    pub entries: Vec<(NameOrId, Element)>,
}

impl VecContext {
    /// The entries as viewed pairs.
    pub open spec fn entries_view(&self) -> Seq<(NameOrIdV, ElemV)> {
        self.entries@.map_values(|kv: (NameOrId, Element)| (kv.0@, kv.1@))
    }
}

impl Context for VecContext {
    open spec fn ctx_view(&self) -> Map<NameOrIdV, ElemV> {
        spec_bindings(self.entries_view())
    }

    fn get(&self, tag: &NameOrId) -> (r: Option<&Element>) {
        let n = self.entries.len();
        proof {
            assert(self.entries_view().len() == n);
            assert(self.entries_view().subrange(0, n as int) =~= self.entries_view());
        }
        let mut i: usize = n;
        while i > 0
            invariant
                i <= n,
                n == self.entries.len(),
                self.ctx_view().contains_key(tag@) == spec_bindings(
                    self.entries_view().subrange(0, i as int),
                ).contains_key(tag@),
                spec_bindings(self.entries_view().subrange(0, i as int)).contains_key(tag@)
                    ==> self.ctx_view()[tag@] == spec_bindings(
                    self.entries_view().subrange(0, i as int),
                )[tag@],
            decreases i,
        {
            i = i - 1;
            let kv = &self.entries[i];
            proof {
                assert(self.entries_view().subrange(0, i + 1 as int).drop_last()
                    =~= self.entries_view().subrange(0, i as int));
                assert(self.entries_view().subrange(0, i + 1 as int).last() == (
                    self.entries@[i as int].0@,
                    self.entries@[i as int].1@,
                ));
            }
            if kv.0.key_eq(tag) {
                return Some(&kv.1);
            }
        }
        proof {
            assert(self.entries_view().subrange(0, 0).len() == 0);
        }
        None
    }
}

} // verus!
