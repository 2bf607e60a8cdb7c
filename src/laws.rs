use vstd::prelude::*;

use crate::model::{BookRequest, BookView, patched};
use crate::store::{has_id, ids_unique, pos_of};

verus! {

/// A table that was never written to holds no id, so every lookup on it
/// fails with `NotFound`.
pub proof fn lemma_empty_has_no_id(id: Seq<char>)
    ensures
        !has_id(Seq::<BookView>::empty(), id),
{
}

/// Storing a book and then looking up its id yields that same book, field
/// for field.
pub proof fn lemma_create_then_find(s: Seq<BookView>, b: BookView)
    requires
        ids_unique(s),
        !has_id(s, b.id),
    ensures
        ids_unique(s.push(b)),
        has_id(s.push(b), b.id),
        s.push(b)[pos_of(s.push(b), b.id)] == b,
{
    let t = s.push(b);
    assert(t[s.len() as int].id == b.id);
    assert(ids_unique(t)) by {
        assert forall|i: int, j: int|
            0 <= i < t.len() && 0 <= j < t.len() && i != j implies t[i].id != t[j].id by {
            if i == s.len() {
                assert(t[j] == s[j]);
            } else if j == s.len() {
                assert(t[i] == s[i]);
            }
        }
    }
    crate::store::lemma_pos_of(t, b.id, s.len() as int);
}

/// An update replaces exactly the name, author, language and page count,
/// and keeps the id and the creation instant.
pub proof fn lemma_update_keeps_identity(b: BookView, req: BookRequest)
    ensures
        patched(b, req).id == b.id,
        patched(b, req).added_at == b.added_at,
        patched(b, req).name == req.name@,
        patched(b, req).author == req.author@,
        patched(b, req).language == req.language@,
        patched(b, req).pages == req.pages,
{
}

/// Once the row holding an id is removed, no row holds it: a second delete
/// of the same id removes nothing, and a lookup fails.
pub proof fn lemma_delete_twice(s: Seq<BookView>, id: Seq<char>)
    requires
        ids_unique(s),
        has_id(s, id),
    ensures
        ids_unique(s.remove(pos_of(s, id))),
        !has_id(s.remove(pos_of(s, id)), id),
{
    let p = pos_of(s, id);
    let t = s.remove(p);
    assert forall|k: int| 0 <= k < t.len() implies t[k].id != id by {
        if k < p {
            assert(t[k] == s[k]);
        } else {
            assert(t[k] == s[k + 1]);
        }
    }
    assert forall|i: int, j: int|
        0 <= i < t.len() && 0 <= j < t.len() && i != j implies t[i].id != t[j].id by {
        let si = if i < p { i } else { i + 1 };
        let sj = if j < p { j } else { j + 1 };
        assert(t[i] == s[si]);
        assert(t[j] == s[sj]);
    }
}

/// Two books stored one after the other carry different ids.
pub proof fn lemma_created_ids_distinct(s: Seq<BookView>, a: BookView, b: BookView)
    requires
        ids_unique(s),
        !has_id(s, a.id),
        !has_id(s.push(a), b.id),
    ensures
        a.id != b.id,
        ids_unique(s.push(a).push(b)),
{
    lemma_create_then_find(s, a);
    lemma_create_then_find(s.push(a), b);
}

/// A successful create adds exactly one row; a successful delete of an
/// existing id removes exactly one.
pub proof fn lemma_row_count(s: Seq<BookView>, b: BookView, id: Seq<char>)
    requires
        ids_unique(s),
    ensures
        !has_id(s, b.id) ==> s.push(b).len() == s.len() + 1,
        has_id(s, id) ==> s.remove(pos_of(s, id)).len() == s.len() - 1,
{
    if has_id(s, id) {
        let i = choose|i: int| 0 <= i < s.len() && s[i].id == id;
        crate::store::lemma_pos_of(s, id, i);
    }
}

} // verus!
