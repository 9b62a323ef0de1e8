//! `Itemizer` assigns dense, zero-based `Item` identifiers to distinct values
//! of a type `T` on first encounter, and answers lookups in both directions.
//!
//! The abstract state of an `Itemizer` (its view) is the sequence of distinct
//! values it has seen, in assignment order: the value with identifier `i`
//! sits at index `i` of that sequence.

use vstd::prelude::*;
use vstd::std_specs::hash::{builds_valid_hashers, obeys_key_model};
use vstd::std_specs::iter::IteratorSpec;
use vstd::string::StringExecFns;
use std::collections::HashMap;
use std::hash::BuildHasherDefault;
use std::hash::Hash;
use std::slice::Iter;

use crate::item::Item;

verus! {

/// `fnv::FnvHasher` appears as the hasher of the forward map's
/// `fnv::FnvBuildHasher` (`BuildHasherDefault<FnvHasher>`), so Verus needs the
/// type declared; it stays opaque.
#[verifier::external_type_specification]
#[verifier::external_body]
pub struct ExFnvHasher(fnv::FnvHasher);

/// `std::hash::BuildHasherDefault` carries the hasher type of the forward
/// map; vstd does not declare it, so it is declared here and stays opaque.
#[verifier::external_type_specification]
#[verifier::external_body]
#[verifier::reject_recursive_types(H)]
pub struct ExBuildHasherDefault<H>(BuildHasherDefault<H>);

/// What `new_fnv_map` establishes of its result: the map is empty, and fnv's
/// build hasher conforms to vstd's hash-table model.
spec fn new_fnv_map_post<T>(m: HashMap<T, Item, BuildHasherDefault<fnv::FnvHasher>>) -> bool {
    &&& m@ == Map::<T, Item>::empty()
    &&& builds_valid_hashers::<BuildHasherDefault<fnv::FnvHasher>>()
}

/// Relies on `fnv::FnvHashMap::default` (`HashMap::default` with
/// `fnv::FnvBuildHasher`): the new map is empty. The contract also records
/// that `fnv::FnvBuildHasher` builds valid hashers in the sense of vstd's
/// hash-table model: every `FnvHasher` it builds computes the FNV-1a function
/// of the bytes written to it, so two hashers fed the same writes produce the
/// same digest.
#[verifier::external_body]
fn new_fnv_map<T: Eq + Hash>() -> (m: HashMap<T, Item, BuildHasherDefault<fnv::FnvHasher>>)
    ensures
        new_fnv_map_post(m),
{
    fnv::FnvHashMap::default()
}

/// `T` can serve as an interned value type: its `Hash` and `Eq` obey vstd's
/// hash-table key model (deterministic hashing, `==` agreeing with value
/// identity), and `T::clone` only returns values equal to its input.
///
/// This is the formal counterpart of the informal demand that `T` support
/// equality comparison, hashing and cloning.
pub open spec fn obeys_value_model<T: Clone>() -> bool {
    &&& obeys_key_model::<T>()
    &&& forall|a: T, b: T| #[trigger] cloned::<T>(a, b) ==> a == b
}

/// No two positions of `s` hold equal values.
pub open spec fn distinct_values<T>(s: Seq<T>) -> bool {
    forall|i: int, j: int| 0 <= i < j < s.len() ==> s[i] != s[j]
}

/// The outcome of a get-or-assign step: from abstract state `s`, asking for
/// `v` leads to state `s2` and identifier `id`. If `v` was already present
/// the state is unchanged; otherwise `v` is appended and receives the next
/// identifier. Either way `id` is a position of `s2` holding `v` (for a state
/// with `distinct_values`, that pins `id` uniquely).
pub open spec fn assigned<T>(s: Seq<T>, v: T, s2: Seq<T>, id: nat) -> bool {
    &&& if s.contains(v) {
        s2 == s
    } else {
        s2 == s.push(v)
    }
    &&& id < s2.len()
    &&& s2[id as int] == v
}

/// Assigns dense, zero-based `Item` identifiers to distinct values of type
/// `T`, and maps values to identifiers and back.
///
/// Internally it owns a forward map (value to `Item`, an fnv hash map) and a
/// reverse sequence (values in assignment order); the counter `next_item_id`
/// always equals the number of distinct values seen.
pub struct Itemizer<T> {
    next_item_id: u32,
    item_str_to_id: HashMap<T, Item, BuildHasherDefault<fnv::FnvHasher>>,
    item_id_to_str: Vec<T>,
}

impl<T> View for Itemizer<T> {
    type V = Seq<T>;

    /// The abstract state: the distinct values seen so far, in assignment
    /// order, so that the value with identifier `i` sits at index `i`.
    closed spec fn view(&self) -> Seq<T> {
        self.item_id_to_str@
    }
}

impl<T> Itemizer<T> where T: Eq + Hash + Clone {
    /// Well-formedness: the counter matches the number of values, the forward
    /// map and the reverse sequence are inverse to each other, and the facts
    /// about `T` and the fnv hasher that the hash-map reasoning needs hold.
    pub closed spec fn wf(&self) -> bool {
        &&& obeys_value_model::<T>()
        &&& builds_valid_hashers::<BuildHasherDefault<fnv::FnvHasher>>()
        &&& self.next_item_id as nat == self.item_id_to_str@.len()
        &&& forall|i: int|
            0 <= i < self.item_id_to_str@.len() ==> {
                &&& self.item_str_to_id@.contains_key(#[trigger] self.item_id_to_str@[i])
                &&& self.item_str_to_id@[self.item_id_to_str@[i]]@ == i
            }
        &&& forall|k: T|
            #[trigger] self.item_str_to_id@.contains_key(k) ==> {
                &&& self.item_str_to_id@[k]@ < self.item_id_to_str@.len()
                &&& self.item_id_to_str@[self.item_str_to_id@[k]@ as int] == k
            }
    }

    /// A well-formed `Itemizer` holds no value twice.
    pub proof fn lemma_wf_distinct(&self)
        requires
            self.wf(),
        ensures
            distinct_values(self@),
    {
        assert forall|i: int, j: int| 0 <= i < j < self@.len() implies self@[i] != self@[j] by {
            if self@[i] == self@[j] {
                assert(self.item_str_to_id@[self@[i]]@ == i);
                assert(self.item_str_to_id@[self@[j]]@ == j);
            }
        }
    }

    /// Creates a new, empty `Itemizer`: no values, counter at zero.
    pub fn new() -> (r: Itemizer<T>)
        requires
            obeys_value_model::<T>(),
        ensures
            r.wf(),
            r@ == Seq::<T>::empty(),
    {
        Itemizer { next_item_id: 0, item_str_to_id: new_fnv_map(), item_id_to_str: Vec::new() }
    }

    /// Returns the `Item` for the given value. If the value has not been seen
    /// before, it is appended and receives the next identifier; otherwise the
    /// state is unchanged and the identifier assigned earlier is returned.
    ///
    /// The counter is a `u32`, so when the value is new there must still be
    /// room for one more identifier.
    pub fn id_of(&mut self, item: &T) -> (r: Item)
        requires
            old(self).wf(),
            !old(self)@.contains(*item) ==> old(self)@.len() < u32::MAX as nat,
        ensures
            final(self).wf(),
            assigned(old(self)@, *item, final(self)@, r@),
    {
        if let Some(id) = self.item_str_to_id.get(item) {
            return *id;
        }

        let id = self.next_item_id;
        self.next_item_id = self.next_item_id + 1;

        let key = item.clone();
        proof {
            assert(cloned::<T>(*item, key));
        }
        self.item_str_to_id.insert(key, Item::with_id(id));

        let val = item.clone();
        proof {
            assert(cloned::<T>(*item, val));
        }
        self.item_id_to_str.push(val);

        Item::with_id(id)
    }

    /// Returns the `Item` assigned to the given value, or `None` if the value
    /// has never been interned. Never mutates the state.
    pub fn id_of_opt(&self, item: &T) -> (r: Option<Item>)
        requires
            self.wf(),
        ensures
            match r {
                Some(id) => id@ < self@.len() && self@[id@ as int] == *item,
                None => !self@.contains(*item),
            },
    {
        if let Some(id) = self.item_str_to_id.get(item) {
            Some(*id)
        } else {
            None
        }
    }

    /// Returns a reference to the value assigned the given `Item`.
    ///
    /// The identifier must be in range for this `Itemizer`: it must have been
    /// produced by it, or lie numerically below `len()`. Verified callers
    /// discharge that statically; for any other caller an out-of-range
    /// identifier fails the bounds check of the underlying indexing.
    pub fn value_of(&self, id: &Item) -> (r: &T)
        requires
            id@ < self@.len(),
        ensures
            *r == self@[id@ as int],
    {
        &self.item_id_to_str[id.as_index()]
    }

    /// Returns the number of distinct values interned so far.
    pub fn len(&self) -> (r: usize)
        ensures
            r == self@.len(),
    {
        self.item_id_to_str.len()
    }

    /// Returns an iterator over the interned values in assignment order,
    /// that is, by strictly increasing `Item` identifier.
    pub fn iter(&self) -> (it: Iter<'_, T>)
        ensures
            it.remaining() == self@.as_ref(),
            IteratorSpec::decrease(&it) is Some,
            IteratorSpec::initial_value_relation(&it, &it),
    {
        self.item_id_to_str.as_slice().iter()
    }
}

/// The text of one line of the diagnostic listing: a value and its index.
/// Named rather than spelled out, since it stands for what std's formatting
/// machinery produces; `format_entry` is the one place that applies it.
pub uninterp spec fn entry_line(value: Seq<char>, index: usize) -> Seq<char>;

/// Relies on std's `format!`: renders one listing entry from the value and
/// its index. The result depends on the two arguments alone.
#[verifier::external_body]
fn format_entry(value: &String, index: usize) -> (r: String)
    ensures
        r@ == entry_line(value@, index),
{
    format!("{}: {}\n", value, index)
}

/// The diagnostic listing of the values `s`: the entry lines from position
/// `i` on, each value paired with its index, concatenated in index order.
pub open spec fn listing_of(s: Seq<Seq<char>>, i: int) -> Seq<char>
    decreases s.len() - i,
{
    if i < 0 || i >= s.len() {
        Seq::empty()
    } else {
        entry_line(s[i], i as usize) + listing_of(s, i + 1)
    }
}

impl Itemizer<String> {
    /// Diagnostic rendering, for human inspection only: each stored value
    /// paired with its assigned index, one line per value, in assignment
    /// order. Calling code should not rely on the exact formatting.
    pub fn debug_listing(&self) -> (r: String)
        ensures
            r@ == listing_of(self@.map_values(|v: String| v@), 0),
    {
        let ghost m = self@.map_values(|v: String| v@);
        let mut out = String::new();
        let mut i: usize = 0;
        while i < self.item_id_to_str.len()
            invariant
                i <= m.len(),
                m == self@.map_values(|v: String| v@),
                out@ + listing_of(m, i as int) == listing_of(m, 0),
            decreases m.len() - i,
        {
            let line = format_entry(&self.item_id_to_str[i], i);
            proof {
                assert(m[i as int] == self.item_id_to_str@[i as int]@);
                assert((out@ + line@) + listing_of(m, i + 1) =~= out@ + (line@ + listing_of(
                    m,
                    i + 1,
                )));
            }
            out.append(line.as_str());
            i = i + 1;
        }
        out
    }
}

} // verus!
