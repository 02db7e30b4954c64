use vstd::prelude::*;
use crate::domain::email::Email;

verus! {

/// A value kept under an address.
pub struct Entry<V> {
    pub email: Email,
    pub value: V,
}

/// The table that a list of entries stands for; a later entry replaces an
/// earlier one for the same address.
pub open spec fn entry_table<V: View>(s: Seq<Entry<V>>) -> Map<Seq<char>, V::V>
    decreases s.len(),
{
    if s.len() == 0 {
        Map::empty()
    } else {
        entry_table(s.drop_last()).insert(s.last().email@, s.last().value@)
    }
}

/// Index `i` holds the latest entry of address `k`.
pub open spec fn latest<V>(s: Seq<Entry<V>>, i: int, k: Seq<char>) -> bool {
    &&& 0 <= i < s.len()
    &&& s[i].email@ == k
    &&& forall|j: int| i < j < s.len() ==> s[j].email@ != k
}

/// An address is in the table exactly when some entry carries it, and its
/// value is that of its latest entry.
pub proof fn lemma_entry_table<V: View>(s: Seq<Entry<V>>, k: Seq<char>)
    ensures
        entry_table(s).contains_key(k) <==> exists|i: int| 0 <= i < s.len() && s[i].email@ == k,
        forall|i: int| #[trigger] latest(s, i, k) ==> entry_table(s)[k] == s[i].value@,
    decreases s.len(),
{
    if s.len() > 0 {
        let t = s.drop_last();
        lemma_entry_table(t, k);
        if entry_table(t).contains_key(k) {
            let i = choose|i: int| 0 <= i < t.len() && t[i].email@ == k;
            assert(s[i].email@ == k);
        }
        if exists|i: int| 0 <= i < s.len() && s[i].email@ == k {
            let i = choose|i: int| 0 <= i < s.len() && s[i].email@ == k;
            if i < s.len() - 1 {
                assert(t[i].email@ == k);
            }
        }
        assert forall|i: int| #[trigger] latest(s, i, k) implies entry_table(s)[k] == s[i].value@ by {
            if i < s.len() - 1 {
                assert(latest(t, i, k));
            }
        }
    }
}

/// Taking out one entry of address `k` leaves the rest of the table alone.
proof fn lemma_remove_entry<V: View>(s: Seq<Entry<V>>, i: int, k: Seq<char>)
    requires
        0 <= i < s.len(),
        s[i].email@ == k,
    ensures
        entry_table(s.remove(i)).remove(k) == entry_table(s).remove(k),
    decreases s.len(),
{
    let t = s.drop_last();
    if i == s.len() - 1 {
        assert(s.remove(i) == t);
        assert(entry_table(s).remove(k) =~= entry_table(t).remove(k));
    } else {
        lemma_remove_entry(t, i, k);
        let u = s.remove(i);
        assert(u.drop_last() =~= t.remove(i));
        assert(u.last() == s.last());
        assert(entry_table(u) == entry_table(t.remove(i)).insert(s.last().email@, s.last().value@));
        assert(entry_table(s) == entry_table(t).insert(s.last().email@, s.last().value@));
        let a = entry_table(t.remove(i));
        let b = entry_table(t);
        let x = s.last().email@;
        let v = s.last().value@;
        let p = a.insert(x, v).remove(k);
        let q = b.insert(x, v).remove(k);
        assert forall|j: Seq<char>| #[trigger] p.contains_key(j) == q.contains_key(j) by {
            if j != k && j != x {
                assert(a.remove(k).contains_key(j) == b.remove(k).contains_key(j));
            }
        }
        assert forall|j: Seq<char>| #[trigger] p.contains_key(j) implies p[j] == q[j] by {
            if j != x {
                assert(a.remove(k).contains_key(j) == b.remove(k).contains_key(j));
                assert(a.remove(k)[j] == b.remove(k)[j]);
            }
        }
        assert(p =~= q);
    }
}

/// Where the latest entry of `email` stands, if anywhere.
pub fn position<V: View>(entries: &Vec<Entry<V>>, email: &Email) -> (r: Option<usize>)
    ensures
        match r {
            Some(i) => latest(entries@, i as int, email@),
            None => forall|i: int| 0 <= i < entries@.len() ==> entries@[i].email@ != email@,
        },
{
    let mut i: usize = entries.len();
    while i > 0
        invariant
            i <= entries@.len(),
            forall|j: int| i <= j < entries@.len() ==> entries@[j].email@ != email@,
        decreases i,
    {
        i = i - 1;
        if entries[i].email.same_as(email) {
            return Some(i);
        }
    }
    None
}

/// Appends a value for `email`, replacing it in the table.
pub fn push_entry<V: View>(entries: &mut Vec<Entry<V>>, email: Email, value: V)
    ensures
        entry_table(final(entries)@) == entry_table(old(entries)@).insert(email@, value@),
{
    entries.push(Entry { email, value });
    assert(entries@.drop_last() == old(entries)@);
}

/// Drops every entry of `email`.
pub fn drop_all<V: View>(entries: &mut Vec<Entry<V>>, email: &Email)
    ensures
        entry_table(final(entries)@) == entry_table(old(entries)@).remove(email@),
{
    let mut i: usize = 0;
    while i < entries.len()
        invariant
            i <= entries@.len(),
            forall|j: int| 0 <= j < i ==> entries@[j].email@ != email@,
            entry_table(entries@).remove(email@) == entry_table(old(entries)@).remove(email@),
        decreases entries@.len() - i,
    {
        if entries[i].email.same_as(email) {
            proof {
                lemma_remove_entry(entries@, i as int, email@);
            }
            let _ = entries.remove(i);
        } else {
            i = i + 1;
        }
    }
    proof {
        lemma_entry_table(entries@, email@);
    }
    assert(entry_table(entries@) =~= entry_table(entries@).remove(email@));
}

} // verus!
