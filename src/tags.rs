//! Tag mappings: key/value pairs with unique keys, read from the `@` segment
//! of a line.

use vstd::prelude::*;
use crate::text::{char_from, split_from, split_on, find_char, string_of, sub_chars};
use crate::text::lemma_char_from_bounds;

verus! {

/// The pairs of a tag list, as sequences of chars.
pub open spec fn pairs_view(tags: Seq<(String, String)>) -> Seq<(Seq<char>, Seq<char>)> {
    tags.map_values(|p: (String, String)| (p.0@, p.1@))
}

/// No key occurs twice.
pub open spec fn keys_unique(pairs: Seq<(Seq<char>, Seq<char>)>) -> bool {
    forall|i: int, j: int| 0 <= i < j < pairs.len() ==> pairs[i].0 != pairs[j].0
}

/// The value stored under `k`: the last pair with that key.
pub open spec fn lookup(pairs: Seq<(Seq<char>, Seq<char>)>, k: Seq<char>) -> Option<Seq<char>>
    decreases pairs.len(),
{
    if pairs.len() == 0 {
        None
    } else if pairs.last().0 == k {
        Some(pairs.last().1)
    } else {
        lookup(pairs.drop_last(), k)
    }
}

/// The mapping that a pair list stands for.
pub open spec fn tag_map(pairs: Seq<(Seq<char>, Seq<char>)>) -> Map<Seq<char>, Seq<char>> {
    Map::new(|k: Seq<char>| lookup(pairs, k) is Some, |k: Seq<char>| lookup(pairs, k)->0)
}

/// The key of a tag entry: what precedes its first `=`, or the whole entry.
pub open spec fn entry_key(e: Seq<char>) -> Seq<char> {
    e.subrange(0, char_from(e, '=', 0))
}

/// The value of a tag entry: what follows its first `=`, or empty.
pub open spec fn entry_value(e: Seq<char>) -> Seq<char> {
    let k = char_from(e, '=', 0);
    if k < e.len() {
        e.subrange(k + 1, e.len() as int)
    } else {
        Seq::empty()
    }
}

/// The mapping made by storing the entries in order, a later entry replacing
/// an earlier one with the same key.
pub open spec fn entries_map(entries: Seq<Seq<char>>) -> Map<Seq<char>, Seq<char>>
    decreases entries.len(),
{
    if entries.len() == 0 {
        Map::empty()
    } else {
        entries_map(entries.drop_last()).insert(
            entry_key(entries.last()),
            entry_value(entries.last()),
        )
    }
}

/// The mapping that a tags segment (the text between `@` and the first space)
/// stands for: entries separated by `;`.
pub open spec fn segment_map(seg: Seq<char>) -> Map<Seq<char>, Seq<char>> {
    entries_map(split_on(seg, ';'))
}

proof fn lemma_lookup_update(
    pairs: Seq<(Seq<char>, Seq<char>)>,
    j: int,
    v: Seq<char>,
    k2: Seq<char>,
)
    requires
        keys_unique(pairs),
        0 <= j < pairs.len(),
    ensures
        lookup(pairs.update(j, (pairs[j].0, v)), k2) == if k2 == pairs[j].0 {
            Some(v)
        } else {
            lookup(pairs, k2)
        },
    decreases pairs.len(),
{
    let up = pairs.update(j, (pairs[j].0, v));
    if j < pairs.len() - 1 {
        assert(up.drop_last() == pairs.drop_last().update(j, (pairs[j].0, v)));
        if pairs.last().0 != k2 {
            lemma_lookup_update(pairs.drop_last(), j, v, k2);
        }
    } else {
        assert(up.drop_last() == pairs.drop_last());
    }
}

proof fn lemma_lookup_absent(pairs: Seq<(Seq<char>, Seq<char>)>, k: Seq<char>)
    requires
        lookup(pairs, k) is None,
    ensures
        forall|i: int| 0 <= i < pairs.len() ==> pairs[i].0 != k,
    decreases pairs.len(),
{
    if pairs.len() > 0 {
        lemma_lookup_absent(pairs.drop_last(), k);
        assert forall|i: int| 0 <= i < pairs.len() implies pairs[i].0 != k by {
            if i < pairs.len() - 1 {
                assert(pairs[i] == pairs.drop_last()[i]);
            }
        }
    }
}

/// Index of the pair whose key is `key`, if there is one; the value there is
/// what `lookup` gives.
pub fn find_tag(tags: &Vec<(String, String)>, key: &str) -> (r: Option<usize>)
    ensures
        match r {
            Some(i) => i < tags@.len() && pairs_view(tags@)[i as int].0 == key@
                && lookup(pairs_view(tags@), key@) == Some(pairs_view(tags@)[i as int].1),
            None => lookup(pairs_view(tags@), key@) is None,
        },
{
    let ghost pv = pairs_view(tags@);
    let target = key.to_owned();
    let mut k: usize = tags.len();
    assert(pv.take(k as int) == pv);
    while k > 0
        invariant
            k <= tags@.len(),
            pv == pairs_view(tags@),
            target@ == key@,
            lookup(pv, key@) == lookup(pv.take(k as int), key@),
        decreases k,
    {
        assert(pv.take(k as int).drop_last() == pv.take(k - 1));
        if tags[k - 1].0 == target {
            return Some(k - 1);
        }
        k = k - 1;
    }
    None
}

/// Stores `value` under `key`, replacing a value stored there before.
pub fn insert_tag(tags: &mut Vec<(String, String)>, key: String, value: String)
    requires
        keys_unique(pairs_view(old(tags)@)),
    ensures
        keys_unique(pairs_view(final(tags)@)),
        tag_map(pairs_view(final(tags)@)) == tag_map(pairs_view(old(tags)@)).insert(key@, value@),
{
    let ghost before = pairs_view(tags@);
    let ghost kv = key@;
    let ghost vv = value@;
    match find_tag(tags, key.as_str()) {
        Some(i) => {
            tags.set(i, (key, value));
            let ghost after = pairs_view(tags@);
            assert(after == before.update(i as int, (before[i as int].0, vv)));
            assert forall|k2: Seq<char>| #[trigger] lookup(after, k2) == (if k2 == kv {
                Some(vv)
            } else {
                lookup(before, k2)
            }) by {
                lemma_lookup_update(before, i as int, vv, k2);
            }
            assert(tag_map(after) =~= tag_map(before).insert(kv, vv));
        },
        None => {
            proof {
                lemma_lookup_absent(before, kv);
            }
            tags.push((key, value));
            let ghost after = pairs_view(tags@);
            assert(after == before.push((kv, vv)));
            assert(after.drop_last() == before);
            assert(tag_map(after) =~= tag_map(before).insert(kv, vv));
        },
    }
}

/// Stores the entry `e` (`key=value`, or a bare `key` with an empty value).
fn add_entry(tags: &mut Vec<(String, String)>, e: &Vec<char>)
    requires
        keys_unique(pairs_view(old(tags)@)),
    ensures
        keys_unique(pairs_view(final(tags)@)),
        tag_map(pairs_view(final(tags)@)) == tag_map(pairs_view(old(tags)@)).insert(
            entry_key(e@),
            entry_value(e@),
        ),
{
    let k = find_char(e, '=', 0);
    proof {
        lemma_char_from_bounds(e@, '=', 0);
    }
    let key = string_of(e, 0, k);
    let value = if k < e.len() {
        string_of(e, k + 1, e.len())
    } else {
        String::new()
    };
    insert_tag(tags, key, value);
}

/// The tag list of a tags segment: entries separated by `;`, each split at
/// its first `=`.
pub fn parse_tags(seg: &Vec<char>) -> (r: Vec<(String, String)>)
    ensures
        keys_unique(pairs_view(r@)),
        tag_map(pairs_view(r@)) == segment_map(seg@),
{
    let mut out: Vec<(String, String)> = Vec::new();
    let ghost done: Seq<Seq<char>> = Seq::empty();
    let mut start: usize = 0;
    let mut i: usize = 0;
    assert(tag_map(pairs_view(out@)) =~= entries_map(done));
    while i < seg.len()
        invariant
            start <= i <= seg.len(),
            done + split_from(seg@, ';', start as int, i as int) == split_on(seg@, ';'),
            keys_unique(pairs_view(out@)),
            tag_map(pairs_view(out@)) == entries_map(done),
        decreases seg.len() - i,
    {
        if seg[i] == ';' {
            let e = sub_chars(seg, start, i);
            add_entry(&mut out, &e);
            proof {
                let d2 = done.push(e@);
                assert(d2.drop_last() == done);
                assert(d2 + split_from(seg@, ';', i + 1, i + 1) == done + split_from(
                    seg@,
                    ';',
                    start as int,
                    i as int,
                ));
                done = d2;
            }
            start = i + 1;
        }
        i = i + 1;
    }
    let e = sub_chars(seg, start, seg.len());
    add_entry(&mut out, &e);
    proof {
        let d2 = done.push(e@);
        assert(d2.drop_last() == done);
        assert(d2 == done + split_from(seg@, ';', start as int, i as int));
    }
    out
}

} // verus!
