//! A type-indexed store: a container that holds at most one value of each
//! distinct type, retrievable by naming the type rather than a key.
//!
//! Values are kept behind a uniform type-erased representation
//! ([`ValueBox`]) and indexed by a 64-bit key derived from the type's
//! runtime identity token.  [`UniqueHasher`] is the hash accumulator fit
//! for such keys: they are already unique, so it reports its input
//! unchanged instead of mixing it.  The backing table itself is a std
//! `HashMap` kept under its default hasher, the one configuration whose
//! behaviour vstd states exactly.
use vstd::prelude::*;

use std::collections::HashMap;
use std::collections::hash_map::Entry;
use std::collections::hash_map::VacantEntry;

mod hash;
mod maps;
mod typ;
mod value;

pub use value::Value;
pub use value::ValueBox;
pub use value::content_id;
pub use typ::RawType;
pub use typ::Type;
pub use typ::type_key;
pub use hash::UniqueHasher;
pub use hash::UniqueHasherBuilder;
pub use hash::accum_bytes;
pub use hash::accum_step;
pub use hash::lemma_hasher_identity;

verus! {

use vstd::std_specs::hash::VacantEntrySpecFns;

broadcast use
    vstd::std_specs::hash::group_hash_axioms,
    vstd::set::group_set_axioms,
    maps::lemma_insert_resident,
    maps::lemma_remove_absent,
    maps::lemma_insert_len,
    maps::lemma_remove_len;

/// Relies on `HashMap::capacity`: the number of entries the table can
/// hold before it regrows, a figure about the allocation only, of which
/// nothing is stated.
#[verifier::external_body]
fn table_capacity(m: &HashMap<u64, ValueBox>) -> usize {
    m.capacity()
}

/// The store's single correctness-critical invariant: every resident
/// erased value sits at exactly the table key derived from the identity of
/// its own content, so a lookup keyed by a type can only ever surface a
/// value whose content is of that type.
pub open spec fn well_keyed(m: Map<u64, ValueBox>) -> bool {
    forall|k: u64| #[trigger] m.contains_key(k) ==> type_key(content_id(m[k])) == k
}

/// Type-indexed store: holds at most one owned value per distinct type,
/// in a hash table keyed by the 64-bit key derived from each type's
/// identity token.
///
/// Its view is the mathematical map from table key to resident erased
/// value.  Operations named by a compile-time type derive the key from the
/// type's identity token at runtime; that token has no fixed
/// specification-level value, so their contracts bound what the call can
/// do to the view, while the operations taking an explicit identifier
/// (`get_raw`, `insert_raw`, `remove_raw`, `get_mut_raw`) carry exact
/// contracts over the view.
pub struct TypeMap {
    inner: HashMap<u64, ValueBox>,
}

impl View for TypeMap {
    type V = Map<u64, ValueBox>;

    closed spec fn view(&self) -> Map<u64, ValueBox> {
        self.inner@
    }
}

impl TypeMap {
    /// Creates an empty store.
    pub fn new() -> (r: Self)
        ensures
            r@ == Map::<u64, ValueBox>::empty(),
            well_keyed(r@),
    {
        Self { inner: HashMap::new() }
    }

    /// The store's view is always a finite map: it mirrors a hash table
    /// held in memory.  Callers outside this module need this to apply
    /// the size-counting laws, since the view itself is kept closed.
    pub proof fn lemma_view_finite(&self)
        ensures
            self@.dom().finite(),
    {
    }

    /// Number of values currently resident.
    pub fn len(&self) -> (r: usize)
        ensures
            r == self@.len(),
    {
        self.inner.len()
    }

    /// Number of values the backing table can hold before it regrows: a
    /// diagnostic figure with no contractual meaning.
    pub fn capacity(&self) -> usize {
        table_capacity(&self.inner)
    }

    /// A diagnostic rendering showing only the store's size and capacity;
    /// the resident values are of arbitrary types and have no rendering.
    /// The line is the fixed rendering of the store's size and of some
    /// capacity figure; the capacity itself is an allocation detail with
    /// no fixed specification-level value.
    pub fn debug_string(&self) -> (r: String)
        ensures
            exists|c: usize| r@ == #[trigger] summary_of(self@.len() as usize, c),
    {
        let n = self.len();
        let c = self.capacity();
        let r = render_summary(n, c);
        proof {
            assert(r@ == summary_of(self@.len() as usize, c));
        }
        r
    }

    /// Whether no value at all is resident.
    pub fn is_empty(&self) -> (r: bool)
        ensures
            r == (self@.len() == 0),
    {
        self.inner.is_empty()
    }

    /// Drops every resident value; the backing table keeps its capacity.
    pub fn clear(&mut self)
        ensures
            final(self)@ == Map::<u64, ValueBox>::empty(),
            well_keyed(final(self)@),
    {
        self.inner.clear()
    }

    /// Whether a value of type `T` is resident.  The result is the
    /// membership of `T`'s key in the table; the key of a compile-time
    /// type has no fixed specification-level value, so the contract states
    /// only what holds of every key: an empty store contains nothing.
    pub fn has<T: Type>(&self) -> (r: bool)
        ensures
            self@.len() == 0 ==> !r,
    {
        let k = typ::key_for(&T::id());
        self.inner.contains_key(&k)
    }

    /// Whether a value of type `T` is resident; `has` under its
    /// conventional map-interface name.
    pub fn contains_key<T: Type>(&self) -> (r: bool)
        ensures
            self@.len() == 0 ==> !r,
    {
        self.has::<T>()
    }

    /// Borrows the erased value stored under the given type identifier,
    /// if one is resident.
    pub fn get_raw(&self, id: core::any::TypeId) -> (r: Option<&ValueBox>)
        ensures
            match r {
                Some(v) => self@.contains_key(type_key(id)) && *v == self@[type_key(id)],
                None => !self@.contains_key(type_key(id)),
            },
    {
        let k = typ::key_for(&id);
        self.inner.get(&k)
    }

    /// Borrows the resident value of type `T`, if one is resident.  The
    /// borrow is checked: it can only surface a value whose content really
    /// is a `T`, never a reinterpretation of some other type.
    pub fn get<T: Type>(&self) -> (r: Option<&T>)
        ensures
            self@.len() == 0 ==> r is None,
    {
        match self.get_raw(T::id()) {
            Some(v) => v.try_downcast_ref::<T>(),
            None => None,
        }
    }

    /// Stores an erased value under the key derived from its own content
    /// type, returning the previously resident value of that key, if any.
    /// Because the key is taken from the value itself, never from the
    /// caller, this path keeps the store well keyed.
    pub fn insert_raw(&mut self, value: ValueBox) -> (r: Option<ValueBox>)
        ensures
            final(self)@ == old(self)@.insert(type_key(content_id(value)), value),
            match r {
                Some(v) => old(self)@.contains_key(type_key(content_id(value))) && v == old(
                    self,
                )@[type_key(content_id(value))],
                None => !old(self)@.contains_key(type_key(content_id(value))),
            },
            well_keyed(old(self)@) ==> well_keyed(final(self)@),
    {
        let id = value.type_id();
        let k = typ::key_for(&id);
        self.inner.insert(k, value)
    }

    /// Stores a value of type `T`, returning the previously resident value
    /// of that type, if any, boxed, so that the caller controls when the
    /// replaced value is dropped.  Exactly one key, the one derived from
    /// the value, is written; a result of `Some` can only arise when that
    /// key was already occupied.  Should the replaced resident not be a
    /// `T` — possible only when two distinct types' keys collide — it is
    /// dropped and `None` is returned.
    pub fn insert<T: Type>(&mut self, value: T) -> (r: Option<Box<T>>)
        ensures
            exists|k: u64|
                {
                    &&& final(self)@ == old(self)@.insert(k, final(self)@.index(k))
                    &&& #[trigger] final(self)@.contains_key(k)
                    &&& (!old(self)@.contains_key(k) ==> r is None)
                    &&& (old(self)@.contains_key(k) ==> final(self)@.len() == old(self)@.len())
                    &&& (!old(self)@.contains_key(k) ==> final(self)@.len() == old(self)@.len()
                        + 1)
                },
            well_keyed(old(self)@) ==> well_keyed(final(self)@),
    {
        let vb = ValueBox::from_boxed(Box::new(value));
        let ghost gk: u64 = type_key(content_id(vb));
        let prev = self.insert_raw(vb);
        let r = match prev {
            Some(p) => match p.try_downcast::<T>() {
                Ok(b) => Some(b),
                Err(_) => None,
            },
            None => None,
        };
        proof {
            assert(old(self)@.dom().finite());
            assert(self@.contains_key(gk));
            assert(self@ == old(self)@.insert(gk, self@.index(gk)));
            assert(self@.dom() =~= old(self)@.dom().insert(gk));
            if old(self)@.contains_key(gk) {
                assert(self@.dom().len() == old(self)@.dom().len());
            } else {
                assert(self@.dom().len() == old(self)@.dom().len() + 1);
            }
            assert(exists|k: u64|
                {
                    &&& self@ == old(self)@.insert(k, self@.index(k))
                    &&& #[trigger] self@.contains_key(k)
                    &&& (!old(self)@.contains_key(k) ==> r is None)
                    &&& (old(self)@.contains_key(k) ==> self@.len() == old(self)@.len())
                    &&& (!old(self)@.contains_key(k) ==> self@.len() == old(self)@.len() + 1)
                });
        }
        r
    }

    /// Removes and returns the erased value stored under the given type
    /// identifier, if one is resident; afterwards that key is vacant.
    pub fn remove_raw(&mut self, id: core::any::TypeId) -> (r: Option<ValueBox>)
        ensures
            final(self)@ == old(self)@.remove(type_key(id)),
            match r {
                Some(v) => old(self)@.contains_key(type_key(id)) && v == old(self)@[type_key(id)],
                None => !old(self)@.contains_key(type_key(id)),
            },
            well_keyed(old(self)@) ==> well_keyed(final(self)@),
    {
        let k = typ::key_for(&id);
        self.inner.remove(&k)
    }

    /// Removes and returns the resident value of type `T`, boxed, if one
    /// is resident.  Exactly one key, the one derived from the type, is
    /// vacated; a result of `Some` can only arise when that key was
    /// occupied.  Should the removed resident not be a `T` — possible
    /// only when two distinct types' keys collide — it is dropped and
    /// `None` is returned.
    pub fn remove<T: Type>(&mut self) -> (r: Option<Box<T>>)
        ensures
            exists|k: u64|
                {
                    &&& final(self)@ == #[trigger] old(self)@.remove(k)
                    &&& (r is Some ==> old(self)@.contains_key(k))
                    &&& (!old(self)@.contains_key(k) ==> r is None)
                },
            well_keyed(old(self)@) ==> well_keyed(final(self)@),
    {
        match self.remove_raw(T::id()) {
            Some(vb) => match vb.try_downcast::<T>() {
                Ok(b) => Some(b),
                Err(_) => None,
            },
            None => None,
        }
    }

    /// Exclusively borrows the erased value stored under the given type
    /// identifier, if one is resident.  The borrow gives the caller the
    /// whole erased slot: overwriting it with a value of a different type
    /// is the one way to put the store's keying out of step with its
    /// contents, so the final view records whatever the borrow is left
    /// holding.
    pub fn get_mut_raw(&mut self, id: core::any::TypeId) -> (r: Option<&mut ValueBox>)
        ensures
            match r {
                Some(v) => old(self)@.contains_key(type_key(id)) && *v == old(self)@[type_key(id)]
                    && final(self)@ == old(self)@.insert(type_key(id), *final(v)),
                None => !old(self)@.contains_key(type_key(id)) && final(self)@ == old(self)@,
            },
    {
        let k = typ::key_for(&id);
        match self.inner.entry(k) {
            Entry::Occupied(occ) => Some(occ.into_mut()),
            Entry::Vacant(_) => None,
        }
    }

    /// Exclusively borrows the resident value of type `T`, if one is
    /// resident.  Writing through the borrow can change the resident
    /// value but never the type of the resident content, so the store
    /// stays well keyed.
    pub fn get_mut<T: Type>(&mut self) -> (r: Option<&mut T>)
        ensures
            r is None ==> final(self)@ == old(self)@,
            r is Some ==> exists|k: u64|
                {
                    &&& #[trigger] old(self)@.contains_key(k)
                    &&& final(self)@.contains_key(k)
                    &&& final(self)@ == old(self)@.insert(k, final(self)@.index(k))
                    &&& content_id(final(self)@.index(k)) == content_id(old(self)@.index(k))
                    &&& final(self)@.len() == old(self)@.len()
                },
            well_keyed(old(self)@) ==> well_keyed(final(self)@),
    {
        match self.get_mut_raw(T::id()) {
            Some(vb) => vb.try_downcast_mut::<T>(),
            None => None,
        }
    }

    /// Exclusively borrows the resident value of type `T`, first storing a
    /// freshly constructed default value of `T` if the type was absent.
    /// Exactly one key is touched: an occupied key keeps the type of its
    /// content, a vacant key receives the default value, keyed by the
    /// content's own identity, so the store stays well keyed.
    pub fn get_or_default<T: Type + Default>(&mut self) -> (r: &mut T)
        ensures
            exists|k: u64|
                {
                    &&& #[trigger] final(self)@.contains_key(k)
                    &&& final(self)@ == old(self)@.insert(k, final(self)@.index(k))
                    &&& (old(self)@.contains_key(k) ==> final(self)@.len() == old(self)@.len()
                        && content_id(final(self)@.index(k)) == content_id(old(self)@.index(k)))
                    &&& (!old(self)@.contains_key(k) ==> final(self)@.len() == old(self)@.len()
                        + 1 && type_key(content_id(final(self)@.index(k))) == k)
                },
            well_keyed(old(self)@) ==> well_keyed(final(self)@),
    {
        let vb = ValueBox::from_boxed(Box::new(T::default()));
        let id = vb.type_id();
        let k = typ::key_for(&id);
        self.slot_default_mut::<T>(k, vb)
    }

    /// The keyed body of `get_or_default`: fills the slot at `k` with the
    /// given erased value if it is vacant, then hands out a checked
    /// exclusive borrow of the slot's content.
    fn slot_default_mut<T: Type + Default>(&mut self, k: u64, vb: ValueBox) -> (r: &mut T)
        requires
            type_key(content_id(vb)) == k,
        ensures
            final(self)@.contains_key(k),
            final(self)@ == old(self)@.insert(k, final(self)@.index(k)),
            old(self)@.contains_key(k) ==> final(self)@.len() == old(self)@.len() && content_id(
                final(self)@.index(k),
            ) == content_id(old(self)@.index(k)),
            !old(self)@.contains_key(k) ==> final(self)@.len() == old(self)@.len() + 1
                && content_id(final(self)@.index(k)) == content_id(vb),
            well_keyed(old(self)@) ==> well_keyed(final(self)@),
    {
        match self.inner.entry(k) {
            Entry::Occupied(occ) => {
                let slot = occ.into_mut();
                match slot.try_downcast_mut::<T>() {
                    Some(r) => r,
                    // the slot's key is derived from its content's own
                    // identity, so a resident of another type cannot sit
                    // here; hand out a detached default rather than abort
                    None => leaked_default::<T>(),
                }
            },
            Entry::Vacant(vac) => {
                let slot = unlikely_vacant_insert(vac, vb);
                match slot.try_downcast_mut::<T>() {
                    Some(r) => r,
                    None => leaked_default::<T>(),
                }
            },
        }
    }
}

/// Cold path of `get_or_default`: fills a vacant slot with the given
/// erased value and hands back the table's exclusive view of it.
fn unlikely_vacant_insert<'a>(this: VacantEntry<'a, u64, ValueBox>, val: ValueBox) -> (r:
    &'a mut ValueBox)
    ensures
        *r == val,
        this.final_value() == Some(*final(r)),
{
    this.insert(val)
}

/// Relies on `Box::leak`: a lasting exclusive view of a freshly allocated
/// default value.  Only the recovery arm of `get_or_default` calls it,
/// where a checked downcast missed, which cannot happen for a slot keyed
/// by its content's own identity.
#[verifier::external_body]
fn leaked_default<T: Type + Default>() -> &'static mut T {
    Box::leak(Box::new(T::default()))
}

/// The diagnostic line rendered for a store of the given size and
/// capacity: a fixed function of the two figures alone.
pub uninterp spec fn summary_of(len: usize, capacity: usize) -> Seq<char>;

/// Relies on the `format!` macro: the rendered line is a fixed function
/// of the two formatted figures, named here `summary_of`.
#[verifier::external_body]
fn render_summary(len: usize, capacity: usize) -> (r: String)
    ensures
        r@ == summary_of(len, capacity),
{
    format!("TypeMap {{ size={}, capacity={} }}\n", len, capacity)
}

/// Retrieval-safety law: in a well-keyed store, a lookup by a type's
/// identity token can only surface a value whose own content identity
/// yields that very key, never a slot filled by some other type's key.
pub proof fn lemma_well_keyed_retrieval(m: Map<u64, ValueBox>, id: core::any::TypeId)
    requires
        well_keyed(m),
        m.contains_key(type_key(id)),
    ensures
        type_key(content_id(m[type_key(id)])) == type_key(id),
{
}

/// Uniqueness law: values of two distinct types sit under distinct keys,
/// so inserting one of each into an empty store leaves a store of exactly
/// two entries, each key still holding its own value, unaffected by the
/// other.
pub proof fn lemma_uniqueness(v1: ValueBox, v2: ValueBox)
    requires
        type_key(content_id(v1)) != type_key(content_id(v2)),
    ensures
        ({
            let k1 = type_key(content_id(v1));
            let k2 = type_key(content_id(v2));
            let m = Map::<u64, ValueBox>::empty().insert(k1, v1).insert(k2, v2);
            &&& m.len() == 2
            &&& m.contains_key(k1) && m[k1] == v1
            &&& m.contains_key(k2) && m[k2] == v2
        }),
{
    let k1 = type_key(content_id(v1));
    let k2 = type_key(content_id(v2));
    assert(Map::<u64, ValueBox>::empty().insert(k1, v1).dom() =~= Set::empty().insert(k1));
    assert(Map::<u64, ValueBox>::empty().insert(k1, v1).insert(k2, v2).dom() =~= Set::empty()
        .insert(k1).insert(k2));
}

/// Overwrite law: inserting a second value under a key the store already
/// holds leaves the first value as the one handed back (it is what the
/// slot held) and the second value as the one a later lookup sees, with
/// no other key touched.
pub proof fn lemma_overwrite_returns_old(m: Map<u64, ValueBox>, v1: ValueBox, v2: ValueBox)
    requires
        type_key(content_id(v1)) == type_key(content_id(v2)),
    ensures
        ({
            let k = type_key(content_id(v1));
            let m1 = m.insert(k, v1);
            let m2 = m1.insert(k, v2);
            &&& m1.contains_key(k) && m1[k] == v1
            &&& m2.contains_key(k) && m2[k] == v2
            &&& m2.dom() == m1.dom()
            &&& forall|j: u64| j != k && #[trigger] m1.contains_key(j) ==> m2[j] == m1[j]
        }),
{
    let k = type_key(content_id(v1));
    assert(m.insert(k, v1).insert(k, v2).dom() =~= m.insert(k, v1).dom());
}

/// Exactly-once removal law: removing a resident key hands back its value
/// and vacates the slot, the store shrinks by exactly that one entry, and
/// a second removal of the same key finds nothing and changes nothing.
pub proof fn lemma_remove_exactly_once(m: Map<u64, ValueBox>, k: u64)
    requires
        m.dom().finite(),
        m.contains_key(k),
    ensures
        !m.remove(k).contains_key(k),
        m.remove(k).len() == m.len() - 1,
        m.remove(k).remove(k) == m.remove(k),
        forall|j: u64| j != k && #[trigger] m.contains_key(j) ==> m.remove(k).contains_key(j)
            && m.remove(k)[j] == m[j],
{
}

impl Default for TypeMap {
    /// Creates an empty store.
    fn default() -> (r: Self)
        ensures
            r@ == Map::<u64, ValueBox>::empty(),
            well_keyed(r@),
    {
        Self::new()
    }
}

} // verus!
