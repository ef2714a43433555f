//! The hierarchy tab's search: given a snapshot of the live objects
//! and a prepared (trimmed, lowercased) query, produce the flat result
//! list the tab renders — matched by name or by textual identity,
//! deduplicated by identity, and sorted by display name with equal
//! names ordered by identity, so the result is deterministic however
//! the snapshot was ordered.

use vstd::prelude::*;
use vstd::string::StringExecFns;

use crate::state::EntityId;
use crate::text::{
    contains_sub, entity_label, entity_label_seq, lemma_lex_le_total, lemma_lex_le_trans, lex_le,
    str_contains, str_le,
};

verus! {

/// What the case folding of the standard library returns for a string;
/// the result depends on the characters alone.
pub uninterp spec fn lower_of(s: Seq<char>) -> Seq<char>;

/// What the whitespace trimming of the standard library returns for a
/// string; the result depends on the characters alone.
pub uninterp spec fn trim_of(s: Seq<char>) -> Seq<char>;

/// Relies on str::to_lowercase: the lowercase equivalent of the
/// string, a function of its characters alone.
#[verifier::external_body]
fn lowercase_str(s: &str) -> (r: String)
    ensures
        r@ == lower_of(s@),
{
    s.to_lowercase()
}

/// Relies on str::trim: the string without leading and trailing
/// whitespace, a function of its characters alone.
#[verifier::external_body]
fn trim_str(s: &str) -> (r: String)
    ensures
        r@ == trim_of(s@),
{
    s.trim().to_owned()
}

/// Prepare the raw search filter: trim it, then lowercase it. The
/// hierarchy tab falls back to the plain tree browser when the
/// prepared query is empty.
pub fn prepare_search_query(raw: &str) -> (r: String)
    ensures
        r@ == lower_of(trim_of(raw@)),
{
    let trimmed = trim_str(raw);
    lowercase_str(trimmed.as_str())
}

/// One live object in the snapshot the search scans: its identity and
/// its human-readable name component, if it has one.
#[derive(Debug)]
pub struct EntityEntry {
    pub id: EntityId,
    pub name: Option<String>,
}

/// One search result: the object's identity and the name the list
/// displays for it.
#[derive(Debug)]
pub struct SearchHit {
    pub id: EntityId,
    pub display_name: String,
}

/// The textual rendering of an entry's identity.
pub open spec fn entry_label(e: EntityEntry) -> Seq<char> {
    entity_label_seq(e.id.index as nat, e.id.generation as nat)
}

/// The name the result list displays for an entry: its name component
/// if present, else its textual identity.
pub open spec fn entry_display(e: EntityEntry) -> Seq<char> {
    match e.name {
        Some(n) => n@,
        None => entry_label(e),
    }
}

/// The entry's lowercased name contains the query.
pub open spec fn entry_matches_name(e: EntityEntry, q: Seq<char>) -> bool {
    e.name matches Some(n) && contains_sub(lower_of(n@), q)
}

/// The entry's textual identity contains the query.
pub open spec fn entry_matches_id(e: EntityEntry, q: Seq<char>) -> bool {
    contains_sub(entry_label(e), q)
}

/// A result list as plain values: identity and displayed name.
pub open spec fn hits_view(s: Seq<SearchHit>) -> Seq<(EntityId, Seq<char>)> {
    s.map_values(|h: SearchHit| (h.id, h.display_name@))
}

/// Whether a result list already holds the identity.
pub open spec fn has_id(ps: Seq<(EntityId, Seq<char>)>, id: EntityId) -> bool {
    exists|i: int| 0 <= i < ps.len() && ps[i].0 == id
}

/// The first scan: every entry whose lowercased name contains the
/// query, in scan order, displayed under its name.
pub open spec fn name_pass(s: Seq<EntityEntry>, q: Seq<char>) -> Seq<(EntityId, Seq<char>)>
    decreases s.len(),
{
    if s.len() == 0 {
        Seq::empty()
    } else {
        let rest = name_pass(s.drop_last(), q);
        if entry_matches_name(s.last(), q) {
            rest.push((s.last().id, entry_display(s.last())))
        } else {
            rest
        }
    }
}

/// The second scan: every entry whose textual identity contains the
/// query and whose identity is not already in the list (`base` holds
/// the first scan's results), in scan order.
pub open spec fn id_pass(
    s: Seq<EntityEntry>,
    q: Seq<char>,
    base: Seq<(EntityId, Seq<char>)>,
) -> Seq<(EntityId, Seq<char>)>
    decreases s.len(),
{
    if s.len() == 0 {
        Seq::empty()
    } else {
        let rest = id_pass(s.drop_last(), q, base);
        let e = s.last();
        if entry_matches_id(e, q) && !has_id(base + rest, e.id) {
            rest.push((e.id, entry_display(e)))
        } else {
            rest
        }
    }
}

/// Both scans, in order: name matches first, then identity matches
/// not already present.
pub open spec fn combined_matches(s: Seq<EntityEntry>, q: Seq<char>) -> Seq<(EntityId, Seq<char>)> {
    name_pass(s, q) + id_pass(s, q, name_pass(s, q))
}

/// Identity order: by slot index, then by generation.
pub open spec fn id_le(a: EntityId, b: EntityId) -> bool {
    a.index < b.index || (a.index == b.index && a.generation <= b.generation)
}

/// The display names are equal, code point for code point.
pub open spec fn display_eq(a: Seq<char>, b: Seq<char>) -> bool {
    lex_le(a, b) && lex_le(b, a)
}

/// The search ordering on result entries: by display name ascending,
/// and between equal names by identity — so the result order is
/// deterministic however the snapshot happened to be ordered.
pub open spec fn hit_le(a: (EntityId, Seq<char>), b: (EntityId, Seq<char>)) -> bool {
    if display_eq(a.1, b.1) {
        id_le(a.0, b.0)
    } else {
        lex_le(a.1, b.1)
    }
}

/// Insert into a sorted list, after any entries that compare
/// less-or-equal in the search ordering.
pub open spec fn insert_sorted(p: (EntityId, Seq<char>), s: Seq<(EntityId, Seq<char>)>) -> Seq<
    (EntityId, Seq<char>),
>
    decreases s.len(),
{
    if s.len() == 0 {
        seq![p]
    } else if hit_le(s[0], p) {
        seq![s[0]] + insert_sorted(p, s.drop_first())
    } else {
        seq![p] + s
    }
}

/// Sort by display name with the identity tie-break.
pub open spec fn sort_by_name(s: Seq<(EntityId, Seq<char>)>) -> Seq<(EntityId, Seq<char>)>
    decreases s.len(),
{
    if s.len() == 0 {
        s
    } else {
        insert_sorted(s.last(), sort_by_name(s.drop_last()))
    }
}

/// The list follows the search ordering: display names ascend, and
/// equal names are ordered by identity.
pub open spec fn sorted_by_hit_order(s: Seq<(EntityId, Seq<char>)>) -> bool {
    forall|i: int, j: int| 0 <= i < j < s.len() ==> hit_le(#[trigger] s[i], #[trigger] s[j])
}

/// The list is ordered by display name, ascending.
pub open spec fn sorted_by_display(s: Seq<(EntityId, Seq<char>)>) -> bool {
    forall|i: int, j: int| 0 <= i < j < s.len() ==> lex_le((#[trigger] s[i]).1, (#[trigger] s[j]).1)
}

/// The search ordering is total.
proof fn lemma_hit_le_total(a: (EntityId, Seq<char>), b: (EntityId, Seq<char>))
    ensures
        hit_le(a, b) || hit_le(b, a),
{
    lemma_lex_le_total(a.1, b.1);
}

/// The search ordering is transitive.
proof fn lemma_hit_le_trans(
    a: (EntityId, Seq<char>),
    b: (EntityId, Seq<char>),
    c: (EntityId, Seq<char>),
)
    requires
        hit_le(a, b),
        hit_le(b, c),
    ensures
        hit_le(a, c),
{
    if display_eq(a.1, b.1) {
        if display_eq(b.1, c.1) {
            lemma_lex_le_trans(a.1, b.1, c.1);
            lemma_lex_le_trans(c.1, b.1, a.1);
        } else {
            lemma_lex_le_trans(a.1, b.1, c.1);
            if lex_le(c.1, a.1) {
                lemma_lex_le_trans(c.1, a.1, b.1);
            }
        }
    } else {
        if display_eq(b.1, c.1) {
            lemma_lex_le_trans(a.1, b.1, c.1);
            if lex_le(c.1, a.1) {
                lemma_lex_le_trans(b.1, c.1, a.1);
            }
        } else {
            lemma_lex_le_trans(a.1, b.1, c.1);
            if lex_le(c.1, a.1) {
                lemma_lex_le_trans(c.1, a.1, b.1);
            }
        }
    }
}

/// The search ordering refines the display-name order.
proof fn lemma_hit_le_names(a: (EntityId, Seq<char>), b: (EntityId, Seq<char>))
    requires
        hit_le(a, b),
    ensures
        lex_le(a.1, b.1),
{
}

/// Prepending an element inserts it into the sequence's multiset.
proof fn lemma_cons_to_multiset(x: (EntityId, Seq<char>), t: Seq<(EntityId, Seq<char>)>)
    ensures
        (seq![x] + t).to_multiset() == t.to_multiset().insert(x),
{
    broadcast use vstd::seq_lib::group_to_multiset_ensures;

    let c = seq![x] + t;
    assert(c.remove(0) =~= t);
    assert(c[0] == x);
    assert(t.to_multiset() =~= c.to_multiset().remove(x));
    assert(c.contains(x));
    assert(c.to_multiset().count(x) > 0);
    assert(t.to_multiset().insert(x) =~= c.to_multiset());
}

/// The snapshot holds each identity at most once.
pub open spec fn entries_unique(s: Seq<EntityEntry>) -> bool {
    forall|i: int, j: int| 0 <= i < j < s.len() ==> (#[trigger] s[i]).id != (#[trigger] s[j]).id
}

/// The result list holds each identity at most once.
pub open spec fn ids_unique(ps: Seq<(EntityId, Seq<char>)>) -> bool {
    forall|i: int, j: int| 0 <= i < j < ps.len() ==> (#[trigger] ps[i]).0 != (#[trigger] ps[j]).0
}

/// Every identity in the first scan's output comes from the snapshot.
proof fn lemma_name_pass_ids_from_input(s: Seq<EntityEntry>, q: Seq<char>)
    ensures
        forall|t: int|
            0 <= t < name_pass(s, q).len() ==> exists|k: int|
                0 <= k < s.len() && s[k].id == (#[trigger] name_pass(s, q)[t]).0,
    decreases s.len(),
{
    if s.len() > 0 {
        lemma_name_pass_ids_from_input(s.drop_last(), q);
        let np = name_pass(s, q);
        let rest = name_pass(s.drop_last(), q);
        assert forall|t: int| 0 <= t < np.len() implies exists|k: int|
            0 <= k < s.len() && s[k].id == (#[trigger] np[t]).0 by {
            if t < rest.len() {
                assert(np[t] == rest[t]);
                let k = choose|k: int| 0 <= k < s.drop_last().len() && s.drop_last()[k].id
                    == rest[t].0;
                assert(s[k].id == np[t].0);
            } else {
                assert(np[t].0 == s.last().id);
                assert(s[s.len() - 1].id == np[t].0);
            }
        }
    }
}

/// With pairwise distinct identities in the snapshot, the first scan's
/// output has pairwise distinct identities.
proof fn lemma_name_pass_ids_unique(s: Seq<EntityEntry>, q: Seq<char>)
    requires
        entries_unique(s),
    ensures
        ids_unique(name_pass(s, q)),
    decreases s.len(),
{
    if s.len() > 0 {
        assert(entries_unique(s.drop_last())) by {
            assert forall|i: int, j: int|
                0 <= i < j < s.drop_last().len() implies (#[trigger] s.drop_last()[i]).id
                != (#[trigger] s.drop_last()[j]).id by {
                assert(s[i].id != s[j].id);
            }
        }
        lemma_name_pass_ids_unique(s.drop_last(), q);
        lemma_name_pass_ids_from_input(s.drop_last(), q);
        let np = name_pass(s, q);
        let rest = name_pass(s.drop_last(), q);
        assert forall|i: int, j: int|
            0 <= i < j < np.len() implies (#[trigger] np[i]).0 != (#[trigger] np[j]).0 by {
            if j < rest.len() {
                assert(np[i] == rest[i]);
                assert(np[j] == rest[j]);
                assert(rest[i].0 != rest[j].0);
            } else if j == rest.len() && j < np.len() {
                assert(np[i] == rest[i]);
                assert(np[j].0 == s.last().id);
                let k = choose|k: int| 0 <= k < s.drop_last().len() && s.drop_last()[k].id
                    == rest[i].0;
                assert(s[k].id == rest[i].0);
                assert(s[k].id != s[s.len() - 1].id);
            }
        }
    }
}

/// The deduplicating scan never introduces an identity already present.
proof fn lemma_id_pass_ids_unique(
    s: Seq<EntityEntry>,
    q: Seq<char>,
    base: Seq<(EntityId, Seq<char>)>,
)
    requires
        ids_unique(base),
    ensures
        ids_unique(base + id_pass(s, q, base)),
    decreases s.len(),
{
    if s.len() == 0 {
        assert(base + id_pass(s, q, base) =~= base);
    } else {
        lemma_id_pass_ids_unique(s.drop_last(), q, base);
        let rest = id_pass(s.drop_last(), q, base);
        let e = s.last();
        if entry_matches_id(e, q) && !has_id(base + rest, e.id) {
            let acc = base + rest;
            let now = base + id_pass(s, q, base);
            assert(now =~= acc.push((e.id, entry_display(e))));
            assert forall|i: int, j: int|
                0 <= i < j < now.len() implies (#[trigger] now[i]).0 != (#[trigger] now[j]).0 by {
                if j < acc.len() {
                    assert(now[i] == acc[i]);
                    assert(now[j] == acc[j]);
                    assert(acc[i].0 != acc[j].0);
                } else {
                    assert(now[i] == acc[i]);
                    assert(now[j].0 == e.id);
                    assert(acc[i].0 != e.id) by {
                        if acc[i].0 == e.id {
                            assert(has_id(acc, e.id));
                        }
                    }
                }
            }
        } else {
            assert(base + id_pass(s, q, base) =~= base + rest);
        }
    }
}

/// An identity occurring at two positions yields two occurrences in
/// the multiset-image, so uniqueness of identities survives any
/// permutation.
proof fn lemma_ids_unique_permutation(
    a: Seq<(EntityId, Seq<char>)>,
    b: Seq<(EntityId, Seq<char>)>,
)
    requires
        a.to_multiset() == b.to_multiset(),
        ids_unique(a),
    ensures
        ids_unique(b),
{
    broadcast use vstd::seq_lib::group_to_multiset_ensures;

    assert forall|i: int, j: int|
        0 <= i < j < b.len() implies (#[trigger] b[i]).0 != (#[trigger] b[j]).0 by {
        if b[i].0 == b[j].0 {
            if b[i] == b[j] {
                let p = b[i];
                b.remove_ensures(i);
                assert(b.remove(i)[j - 1] == p);
                assert(b.remove(i).contains(p));
                assert(b.remove(i).to_multiset().count(p) > 0);
                assert(b.to_multiset().count(p) >= 2);
                assert(a.to_multiset().count(p) >= 2);
                assert(a.contains(p));
                let k = choose|k: int| 0 <= k < a.len() && a[k] == p;
                a.remove_ensures(k);
                assert(a.remove(k).to_multiset().count(p) >= 1);
                assert(a.remove(k).contains(p));
                let m = choose|m: int| 0 <= m < a.remove(k).len() && a.remove(k)[m] == p;
                if m < k {
                    assert(a[m] == p);
                    assert(a[m].0 != a[k].0);
                } else {
                    assert(a[m + 1] == p);
                    assert(a[k].0 != a[m + 1].0);
                }
                assert(false);
            } else {
                assert(b.contains(b[i]));
                assert(b.contains(b[j]));
                assert(a.to_multiset().count(b[i]) > 0);
                assert(a.to_multiset().count(b[j]) > 0);
                assert(a.contains(b[i]));
                assert(a.contains(b[j]));
                let k = choose|k: int| 0 <= k < a.len() && a[k] == b[i];
                let m = choose|m: int| 0 <= m < a.len() && a[m] == b[j];
                assert(k != m);
                if k < m {
                    assert(a[k].0 != a[m].0);
                } else {
                    assert(a[m].0 != a[k].0);
                }
                assert(false);
            }
        }
    }
}

/// Deduplication by identity: with pairwise distinct identities in the
/// snapshot, the matched list never lists one object under two
/// entries, and neither does the sorted search result.
pub proof fn lemma_search_deduplicates(s: Seq<EntityEntry>, q: Seq<char>)
    requires
        entries_unique(s),
    ensures
        ids_unique(combined_matches(s, q)),
        ids_unique(sort_by_name(combined_matches(s, q))),
{
    lemma_name_pass_ids_unique(s, q);
    lemma_id_pass_ids_unique(s, q, name_pass(s, q));
    lemma_sort_by_name_sorts(combined_matches(s, q));
    lemma_ids_unique_permutation(
        combined_matches(s, q),
        sort_by_name(combined_matches(s, q)),
    );
}

/// Insertion keeps the list sorted and adds exactly the new element.
proof fn lemma_insert_sorted_props(p: (EntityId, Seq<char>), s: Seq<(EntityId, Seq<char>)>)
    requires
        sorted_by_hit_order(s),
    ensures
        sorted_by_hit_order(insert_sorted(p, s)),
        insert_sorted(p, s).to_multiset() == s.to_multiset().insert(p),
    decreases s.len(),
{
    broadcast use vstd::seq_lib::group_to_multiset_ensures;

    if s.len() == 0 {
        assert(insert_sorted(p, s) =~= Seq::<(EntityId, Seq<char>)>::empty().push(p));
        assert(insert_sorted(p, s).to_multiset() =~= s.to_multiset().insert(p));
    } else if hit_le(s[0], p) {
        let tail = s.drop_first();
        assert(sorted_by_hit_order(tail)) by {
            assert forall|i: int, j: int| 0 <= i < j < tail.len() implies hit_le(
                #[trigger] tail[i],
                #[trigger] tail[j],
            ) by {
                assert(tail[i] == s[i + 1]);
                assert(tail[j] == s[j + 1]);
            }
        }
        lemma_insert_sorted_props(p, tail);
        let tail_ins = insert_sorted(p, tail);
        let r = seq![s[0]] + tail_ins;
        assert(insert_sorted(p, s) == r);
        lemma_cons_to_multiset(s[0], tail_ins);
        assert(s =~= seq![s[0]] + tail);
        lemma_cons_to_multiset(s[0], tail);
        assert(r.to_multiset() =~= s.to_multiset().insert(p));
        assert forall|i: int, j: int| 0 <= i < j < r.len() implies hit_le(
            #[trigger] r[i],
            #[trigger] r[j],
        ) by {
            if i > 0 {
                assert(r[i] == tail_ins[i - 1]);
                assert(r[j] == tail_ins[j - 1]);
            } else {
                let e = r[j];
                assert(e == tail_ins[j - 1]);
                assert(tail_ins.contains(e));
                assert(tail_ins.to_multiset().count(e) > 0);
                if e == p {
                    assert(hit_le(s[0], e));
                } else {
                    assert(tail.to_multiset().insert(p).count(e) > 0);
                    assert(tail.to_multiset().count(e) > 0);
                    assert(tail.contains(e));
                    let k = choose|k: int| 0 <= k < tail.len() && tail[k] == e;
                    assert(tail[k] == s[k + 1]);
                    assert(hit_le(s[0], s[k + 1]));
                }
            }
        }
    } else {
        lemma_hit_le_total(s[0], p);
        assert(hit_le(p, s[0]));
        let r = seq![p] + s;
        assert(insert_sorted(p, s) == r);
        lemma_cons_to_multiset(p, s);
        assert forall|i: int, j: int| 0 <= i < j < r.len() implies hit_le(
            #[trigger] r[i],
            #[trigger] r[j],
        ) by {
            if i > 0 {
                assert(r[i] == s[i - 1]);
                assert(r[j] == s[j - 1]);
            } else {
                assert(r[j] == s[j - 1]);
                if j > 1 {
                    assert(hit_le(s[0], s[j - 1]));
                    lemma_hit_le_trans(p, s[0], s[j - 1]);
                }
            }
        }
    }
}

/// The search ordering is what its name says: the sorted sequence is a
/// permutation of its input, display names ascend, and equal names are
/// ordered by identity.
pub proof fn lemma_sort_by_name_sorts(s: Seq<(EntityId, Seq<char>)>)
    ensures
        sorted_by_hit_order(sort_by_name(s)),
        sorted_by_display(sort_by_name(s)),
        sort_by_name(s).to_multiset() == s.to_multiset(),
    decreases s.len(),
{
    broadcast use vstd::seq_lib::group_to_multiset_ensures;

    if s.len() > 0 {
        lemma_sort_by_name_sorts(s.drop_last());
        lemma_insert_sorted_props(s.last(), sort_by_name(s.drop_last()));
        assert(s =~= s.drop_last().push(s.last()));
        assert(s.drop_last().push(s.last()).to_multiset() =~= s.drop_last().to_multiset().insert(
            s.last(),
        ));
    }
    let r = sort_by_name(s);
    assert forall|i: int, j: int| 0 <= i < j < r.len() implies lex_le(
        (#[trigger] r[i]).1,
        (#[trigger] r[j]).1,
    ) by {
        lemma_hit_le_names(r[i], r[j]);
    }
}

/// Inserting at the boundary position: if every entry before `j`
/// compares less-or-equal and the entry at `j` (if any) does not, the
/// insertion lands exactly at `j`.
proof fn lemma_insert_sorted_at(p: (EntityId, Seq<char>), s: Seq<(EntityId, Seq<char>)>, j: int)
    requires
        0 <= j <= s.len(),
        forall|k: int| 0 <= k < j ==> hit_le(#[trigger] s[k], p),
        j < s.len() ==> !hit_le(s[j], p),
    ensures
        insert_sorted(p, s) == s.take(j) + seq![p] + s.skip(j),
    decreases s.len(),
{
    if s.len() == 0 {
        assert(insert_sorted(p, s) =~= s.take(j) + seq![p] + s.skip(j));
    } else if j == 0 {
        assert(!hit_le(s[0], p));
        assert(s.take(0) + seq![p] + s.skip(0) =~= seq![p] + s);
    } else {
        assert(hit_le(s[0], p));
        lemma_insert_sorted_at(p, s.drop_first(), j - 1);
        assert(s.drop_first().take(j - 1) =~= s.take(j).drop_first());
        assert(s.drop_first().skip(j - 1) =~= s.skip(j));
        assert(seq![s[0]] + (s.drop_first().take(j - 1) + seq![p] + s.drop_first().skip(j - 1))
            =~= s.take(j) + seq![p] + s.skip(j));
    }
}

/// Search the snapshot: scan by name, then by textual identity with
/// deduplication, and sort the results by display name, equal names
/// ordered by identity.
pub fn search_filtered_hierarchy(entities: &Vec<EntityEntry>, query: &String) -> (r: Vec<SearchHit>)
    ensures
        hits_view(r@) == sort_by_name(combined_matches(entities@, query@)),
        sorted_by_hit_order(hits_view(r@)),
        sorted_by_display(hits_view(r@)),
        hits_view(r@).to_multiset() == combined_matches(entities@, query@).to_multiset(),
{
    proof {
        lemma_sort_by_name_sorts(combined_matches(entities@, query@));
    }
    let mut hits: Vec<SearchHit> = Vec::new();
    assert(entities@.take(0) =~= Seq::<EntityEntry>::empty());
    assert(hits_view(hits@) =~= name_pass(entities@.take(0), query@));

    // First scan: match against the lowercased name component.
    let mut i: usize = 0;
    while i < entities.len()
        invariant
            i <= entities@.len(),
            hits_view(hits@) == name_pass(entities@.take(i as int), query@),
        decreases entities@.len() - i,
    {
        proof {
            assert(entities@.take(i + 1).drop_last() =~= entities@.take(i as int));
            assert(entities@.take(i + 1).last() == entities@[i as int]);
        }
        match &entities[i].name {
            Some(n) => {
                let lowered = lowercase_str(n.as_str());
                if str_contains(lowered.as_str(), query.as_str()) {
                    let ghost before = hits@;
                    hits.push(SearchHit { id: entities[i].id, display_name: n.clone() });
                    assert(hits_view(hits@) =~= hits_view(before).push(
                        (entities@[i as int].id, entry_display(entities@[i as int])),
                    ));
                } else {
                    assert(!entry_matches_name(entities@[i as int], query@));
                }
            },
            None => {
                assert(!entry_matches_name(entities@[i as int], query@));
            },
        }
        i = i + 1;
    }
    proof {
        assert(entities@.take(entities@.len() as int) =~= entities@);
    }
    let ghost base = name_pass(entities@, query@);

    // Second scan: match against the textual identity, skipping
    // identities already in the list.
    let mut i2: usize = 0;
    assert(entities@.take(0) =~= Seq::<EntityEntry>::empty());
    while i2 < entities.len()
        invariant
            i2 <= entities@.len(),
            base == name_pass(entities@, query@),
            hits_view(hits@) == base + id_pass(entities@.take(i2 as int), query@, base),
        decreases entities@.len() - i2,
    {
        proof {
            assert(entities@.take(i2 + 1).drop_last() =~= entities@.take(i2 as int));
            assert(entities@.take(i2 + 1).last() == entities@[i2 as int]);
        }
        let label = entity_label(entities[i2].id.index, entities[i2].id.generation);
        if str_contains(label.as_str(), query.as_str()) {
            let already = contains_hit_id(&hits, entities[i2].id);
            if !already {
                let display = match &entities[i2].name {
                    Some(n) => n.clone(),
                    None => label,
                };
                let ghost before = hits@;
                hits.push(SearchHit { id: entities[i2].id, display_name: display });
                assert(hits_view(hits@) =~= hits_view(before).push(
                    (entities@[i2 as int].id, entry_display(entities@[i2 as int])),
                ));
                assert(hits_view(hits@) =~= base + id_pass(entities@.take(i2 + 1), query@, base));
            }
        } else {
            assert(!entry_matches_id(entities@[i2 as int], query@));
        }
        i2 = i2 + 1;
    }
    proof {
        assert(entities@.take(entities@.len() as int) =~= entities@);
    }
    assert(hits_view(hits@) == combined_matches(entities@, query@));

    // Insertion sort in the search ordering.
    let ghost unsorted = hits_view(hits@);
    let mut sorted: Vec<SearchHit> = Vec::new();
    assert(unsorted.take(0) =~= Seq::<(EntityId, Seq<char>)>::empty());
    assert(hits_view(sorted@) =~= sort_by_name(unsorted.take(0)));
    let ghost mut taken: int = 0;
    while hits.len() > 0
        invariant
            0 <= taken <= unsorted.len(),
            hits_view(hits@) == unsorted.skip(taken),
            hits_view(sorted@) == sort_by_name(unsorted.take(taken)),
        decreases hits@.len(),
    {
        let h = hits.remove(0);
        proof {
            assert(hits_view(hits@) =~= unsorted.skip(taken).drop_first());
            assert(unsorted.skip(taken).drop_first() =~= unsorted.skip(taken + 1));
            assert((h.id, h.display_name@) == unsorted.skip(taken)[0]);
            assert(unsorted.skip(taken)[0] == unsorted[taken]);
        }
        let mut j: usize = 0;
        while j < sorted.len() && hit_le_exec(&sorted[j], &h)
            invariant
                j <= sorted@.len(),
                forall|k: int|
                    0 <= k < j ==> hit_le(
                        #[trigger] hits_view(sorted@)[k],
                        (h.id, h.display_name@),
                    ),
            decreases sorted@.len() - j,
        {
            j = j + 1;
        }
        let ghost sorted_before = hits_view(sorted@);
        proof {
            if j < sorted@.len() {
                assert(!hit_le(hits_view(sorted@)[j as int], (h.id, h.display_name@)));
            }
            lemma_insert_sorted_at((h.id, h.display_name@), sorted_before, j as int);
        }
        sorted.insert(j, h);
        proof {
            assert(hits_view(sorted@) =~= sorted_before.take(j as int) + seq![
                (h.id, h.display_name@),
            ] + sorted_before.skip(j as int));
            assert(hits_view(sorted@) == insert_sorted((h.id, h.display_name@), sorted_before));
            assert(unsorted.take(taken + 1).drop_last() =~= unsorted.take(taken));
            assert(unsorted.take(taken + 1).last() == unsorted[taken]);
            taken = taken + 1;
        }
    }
    proof {
        assert(unsorted.skip(taken).len() == 0);
        assert(taken == unsorted.len());
        assert(unsorted.take(taken) =~= unsorted);
    }
    sorted
}

/// Compare two results in the search ordering: by display name, and
/// between equal names by identity.
fn hit_le_exec(a: &SearchHit, b: &SearchHit) -> (r: bool)
    ensures
        r == hit_le((a.id, a.display_name@), (b.id, b.display_name@)),
{
    let name_le = str_le(a.display_name.as_str(), b.display_name.as_str());
    let name_ge = str_le(b.display_name.as_str(), a.display_name.as_str());
    if name_le && name_ge {
        a.id.index < b.id.index || (a.id.index == b.id.index && a.id.generation
            <= b.id.generation)
    } else {
        name_le
    }
}

/// Whether the result list already holds the identity.
fn contains_hit_id(hits: &Vec<SearchHit>, id: EntityId) -> (r: bool)
    ensures
        r == has_id(hits_view(hits@), id),
{
    let mut i: usize = 0;
    while i < hits.len()
        invariant
            i <= hits@.len(),
            forall|k: int| 0 <= k < i ==> hits_view(hits@)[k].0 != id,
        decreases hits@.len() - i,
    {
        if hits[i].id == id {
            assert(hits_view(hits@)[i as int].0 == id);
            return true;
        }
        i = i + 1;
    }
    false
}

} // verus!
