//! Small facts about mathematical maps that the store's contracts lean on.
use vstd::prelude::*;

verus! {

/// Re-inserting the value a key already holds leaves a map unchanged.
pub broadcast proof fn lemma_insert_resident<K, V>(m: Map<K, V>, k: K)
    requires
        m.contains_key(k),
    ensures
        #[trigger] m.insert(k, m.index(k)) == m,
{
    assert(m.insert(k, m.index(k)) =~= m);
}

/// Removing a key that a map does not hold leaves it unchanged.
pub broadcast proof fn lemma_remove_absent<K, V>(m: Map<K, V>, k: K)
    requires
        !m.contains_key(k),
    ensures
        #[trigger] m.remove(k) == m,
{
    assert(m.remove(k) =~= m);
}

/// Inserting into a finite map grows it by one entry when the key is new
/// and keeps its size when the key is already held.
pub broadcast proof fn lemma_insert_len<K, V>(m: Map<K, V>, k: K, v: V)
    requires
        m.dom().finite(),
    ensures
        #[trigger] m.insert(k, v).len() == if m.contains_key(k) {
            m.len()
        } else {
            m.len() + 1
        },
{
    broadcast use vstd::set::group_set_axioms;

    assert(m.insert(k, v).dom() =~= m.dom().insert(k));
}

/// Removing a key from a finite map shrinks it by one entry when the key
/// is held and keeps its size otherwise.
pub broadcast proof fn lemma_remove_len<K, V>(m: Map<K, V>, k: K)
    requires
        m.dom().finite(),
    ensures
        #[trigger] m.remove(k).len() == if m.contains_key(k) {
            m.len() - 1
        } else {
            m.len() as int
        },
{
    broadcast use vstd::set::group_set_axioms;

    assert(m.remove(k).dom() =~= m.dom().remove(k));
}

} // verus!
