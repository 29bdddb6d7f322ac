use vstd::prelude::*;

verus! {

/// No two entries share a key.
pub open spec fn keys_unique(b: Seq<(String, String)>) -> bool {
    forall|i: int, j: int| 0 <= i < j < b.len() ==> b[i].0@ != b[j].0@
}

pub open spec fn has_key(b: Seq<(String, String)>, key: Seq<char>) -> bool {
    exists|i: int| 0 <= i < b.len() && b[i].0@ == key
}

/// `b` with `key` bound to `value`: an existing entry of the key is
/// replaced in place, otherwise the entry is added at the end.
pub open spec fn bind_spec(b: Seq<(String, String)>, key: String, value: String) -> Seq<(String, String)> {
    if has_key(b, key@) {
        b.update(choose|i: int| 0 <= i < b.len() && b[i].0@ == key@, (key, value))
    } else {
        b.push((key, value))
    }
}

/// `b` with each entry of `extra` bound in turn.
pub open spec fn bind_all(b: Seq<(String, String)>, extra: Seq<(String, String)>) -> Seq<(String, String)>
    decreases extra.len(),
{
    if extra.len() == 0 {
        b
    } else {
        bind_spec(bind_all(b, extra.drop_last()), extra.last().0, extra.last().1)
    }
}

/// Binds `key` to `value` in `entries`, in place of an earlier entry of the
/// same key.
pub fn bind_entry(entries: &mut Vec<(String, String)>, key: String, value: String)
    requires
        keys_unique(old(entries)@),
    ensures
        keys_unique(final(entries)@),
        final(entries)@ == bind_spec(old(entries)@, key, value),
{
    let mut i: usize = 0;
    while i < entries.len()
        invariant
            i <= entries@.len(),
            entries@ == old(entries)@,
            keys_unique(old(entries)@),
            forall|k: int| 0 <= k < i ==> entries@[k].0@ != key@,
        decreases entries@.len() - i,
    {
        if entries[i].0 == key {
            proof {
                let c = choose|c: int| 0 <= c < old(entries)@.len() && old(entries)@[c].0@ == key@;
                if c != i {
                    assert(old(entries)@[c].0@ == old(entries)@[i as int].0@);
                }
            }
            entries[i] = (key, value);
            assert(keys_unique(entries@)) by {
                assert forall|a: int, b: int| 0 <= a < b < entries@.len() implies entries@[a].0@
                    != entries@[b].0@ by {
                    assert(old(entries)@[a].0@ != old(entries)@[b].0@);
                }
            }
            return;
        }
        i += 1;
    }
    entries.push((key, value));
}

/// Binds each entry of `extra`, in order.
pub fn bind_each(entries: &mut Vec<(String, String)>, extra: &Vec<(String, String)>)
    requires
        keys_unique(old(entries)@),
    ensures
        keys_unique(final(entries)@),
        final(entries)@ == bind_all(old(entries)@, extra@),
{
    let mut i: usize = 0;
    while i < extra.len()
        invariant
            i <= extra@.len(),
            keys_unique(entries@),
            entries@ == bind_all(old(entries)@, extra@.subrange(0, i as int)),
        decreases extra@.len() - i,
    {
        let key = extra[i].0.clone();
        let value = extra[i].1.clone();
        bind_entry(entries, key, value);
        proof {
            let next = extra@.subrange(0, i + 1);
            assert(next.drop_last() =~= extra@.subrange(0, i as int));
        }
        i += 1;
    }
    assert(extra@.subrange(0, extra@.len() as int) =~= extra@);
}

} // verus!
