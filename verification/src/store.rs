//! The membership store: one row per tracked group, keyed by chat id.
//!
//! This is the store the dispatcher is verified against. It offers exactly
//! the operations the dispatch loop needs — insert, delete-by-id and a full
//! load — and surfaces a duplicate insert as a distinguishable condition
//! rather than a generic failure.

use vstd::prelude::*;

use crate::models::{Chat, ChatV, NewChat};

verus! {

/// The one failure the store distinguishes: an insert whose id is already
/// present. The agent treats it as "already tracking this chat".
#[derive(Clone, Copy, PartialEq, Eq, Structural, Debug)]
pub enum StoreError {
    UniqueViolation,
}

/// Whether some row of `s` carries the id `id`.
pub open spec fn contains_id(s: Seq<ChatV>, id: int) -> bool {
    exists|i: int| 0 <= i < s.len() && s[i].id == id
}

/// Rows carry pairwise distinct ids.
pub open spec fn unique_ids(s: Seq<ChatV>) -> bool {
    forall|i: int, j: int| 0 <= i < s.len() && 0 <= j < s.len() && i != j ==> s[i].id != s[j].id
}

/// The rows of `s` whose id is not `id`, in order.
pub open spec fn without_id(s: Seq<ChatV>, id: int) -> Seq<ChatV>
    decreases s.len(),
{
    if s.len() == 0 {
        s
    } else {
        let rest = without_id(s.drop_last(), id);
        if s.last().id == id {
            rest
        } else {
            rest.push(s.last())
        }
    }
}

/// What deleting by id leaves behind: no row with that id, every other row
/// kept, distinctness preserved, and nothing at all changed when the id was
/// absent.
pub proof fn lemma_without_id(s: Seq<ChatV>, id: int)
    ensures
        !contains_id(without_id(s, id), id),
        unique_ids(s) ==> unique_ids(without_id(s, id)),
        forall|x: int|
            x != id ==> (contains_id(without_id(s, id), x) <==> contains_id(s, x)),
        forall|j: int| 0 <= j < without_id(s, id).len() ==> s.contains(without_id(s, id)[j]),
        !contains_id(s, id) ==> without_id(s, id) == s,
    decreases s.len(),
{
    if s.len() == 0 {
        assert(without_id(s, id) =~= s);
    } else {
        let dl = s.drop_last();
        lemma_without_id(dl, id);
        let rest = without_id(dl, id);
        let out = without_id(s, id);
        assert(unique_ids(s) ==> unique_ids(dl));
        assert forall|x: int| contains_id(dl, x) implies contains_id(s, x) by {
            let i = choose|i: int| 0 <= i < dl.len() && dl[i].id == x;
            assert(s[i].id == x);
        }
        assert forall|x: int| x != id && contains_id(s, x) implies contains_id(out, x) by {
            let i = choose|i: int| 0 <= i < s.len() && s[i].id == x;
            if i < dl.len() {
                assert(dl[i].id == x);
                assert(contains_id(dl, x));
                assert(contains_id(rest, x));
                let k = choose|k: int| 0 <= k < rest.len() && rest[k].id == x;
                if s.last().id == id {
                    assert(out == rest);
                    assert(out[k].id == x);
                } else {
                    assert(out == rest.push(s.last()));
                    assert(out[k] == rest[k]);
                    assert(out[k].id == x);
                }
            } else {
                assert(s[i] == s.last());
                assert(s.last().id == x);
                assert(out == rest.push(s.last()));
                assert(out[out.len() - 1].id == x);
            }
        }
        assert forall|x: int| x != id && contains_id(out, x) implies contains_id(s, x) by {
            let k = choose|k: int| 0 <= k < out.len() && out[k].id == x;
            if k < rest.len() {
                assert(contains_id(rest, x));
            } else {
                assert(out[k] == s.last());
                assert(s[s.len() - 1].id == x);
            }
        }
        assert forall|j: int| 0 <= j < out.len() implies s.contains(out[j]) by {
            if j < rest.len() {
                assert(dl.contains(rest[j]));
                let m = choose|m: int| 0 <= m < dl.len() && dl[m] == rest[j];
                assert(s[m] == out[j]);
            } else {
                assert(out[j] == s.last());
                assert(s[s.len() - 1] == out[j]);
            }
        }
        if !(s.last().id == id) {
            assert(!contains_id(out, id)) by {
                if contains_id(out, id) {
                    let k = choose|k: int| 0 <= k < out.len() && out[k].id == id;
                    if k < rest.len() {
                        assert(contains_id(rest, id));
                    } else {
                        assert(out[k] == s.last());
                    }
                }
            }
            if unique_ids(s) {
                assert forall|i: int, j: int|
                    0 <= i < out.len() && 0 <= j < out.len() && i != j implies out[i].id
                    != out[j].id by {
                    if i < rest.len() && j < rest.len() {
                        assert(rest[i].id != rest[j].id);
                    } else {
                        let k = if i < rest.len() {
                            i
                        } else {
                            j
                        };
                        assert(k < rest.len());
                        assert(dl.contains(rest[k]));
                        let m = choose|m: int| 0 <= m < dl.len() && dl[m] == rest[k];
                        assert(s[m] == rest[k]);
                        assert(s[m].id != s[s.len() - 1].id);
                        assert(out[out.len() - 1] == s.last());
                    }
                }
            }
        }
        if !contains_id(s, id) {
            assert(s[s.len() - 1].id != id);
            assert(out =~= s);
        }
    }
}

/// The rows of a store, as mathematical values, in order.
pub open spec fn rows_view(s: Seq<Chat>) -> Seq<ChatV> {
    s.map_values(|c: Chat| c@)
}

pub proof fn lemma_rows_view_len(s: Seq<Chat>)
    ensures
        rows_view(s).len() == s.len(),
{
}

pub proof fn lemma_rows_view_index(s: Seq<Chat>, j: int)
    requires
        0 <= j < s.len(),
    ensures
        rows_view(s)[j] == s[j]@,
{
}

pub struct ChatStore {
    rows: Vec<Chat>,
}

impl View for ChatStore {
    type V = Seq<ChatV>;

    closed spec fn view(&self) -> Seq<ChatV> {
        rows_view(self.rows@)
    }
}

impl ChatStore {
    /// At most one row per chat id.
    pub open spec fn wf(&self) -> bool {
        unique_ids(self@)
    }

    pub fn new() -> (r: ChatStore)
        ensures
            r@ == Seq::<ChatV>::empty(),
            r.wf(),
    {
        let r = ChatStore { rows: Vec::new() };
        proof {
            assert(r@ =~= Seq::<ChatV>::empty());
        }
        r
    }

    /// Index of the row carrying `id`, if any.
    fn find_index(&self, id: i64) -> (r: Option<usize>)
        ensures
            match r {
                Some(i) => i < self@.len() && self@[i as int].id == id as int,
                None => !contains_id(self@, id as int),
            },
    {
        let n = self.rows.len();
        for i in 0..n
            invariant
                n == self.rows.len(),
                forall|j: int| 0 <= j < i ==> self@[j].id != id as int,
        {
            if self.rows[i].id == id {
                return Some(i);
            }
        }
        None
    }

    /// Insert a candidate row, stamping it with `now`. An id already present
    /// is reported as a unique-constraint violation and the store is left
    /// unchanged; otherwise the new row is returned, as the original row
    /// including its timestamp.
    pub fn insert(&mut self, row: NewChat, now: i64) -> (r: Result<Chat, StoreError>)
        requires
            old(self).wf(),
        ensures
            final(self).wf(),
            match r {
                Ok(c) => !contains_id(old(self)@, row.id as int) && c@ == row.as_row(now as int)
                    && final(self)@ == old(self)@.push(c@),
                Err(e) => e == StoreError::UniqueViolation && contains_id(old(self)@, row.id as int)
                    && final(self)@ == old(self)@,
            },
    {
        match self.find_index(row.id) {
            Some(_) => Err(StoreError::UniqueViolation),
            None => {
                let c = Chat {
                    id: row.id,
                    title: row.title,
                    description: row.description,
                    last_updated: now,
                };
                let ghost cv = c@;
                let r = Chat {
                    id: c.id,
                    title: c.title.clone(),
                    description: c.description.clone(),
                    last_updated: c.last_updated,
                };
                self.rows.push(c);
                proof {
                    assert(self@ =~= old(self)@.push(cv));
                    assert(r@ == cv);
                }
                Ok(r)
            },
        }
    }

    /// Delete the row carrying `id`, if present. Returns whether a row was
    /// removed; afterwards no row carries `id` and every other row is kept.
    pub fn delete(&mut self, id: i64) -> (found: bool)
        requires
            old(self).wf(),
        ensures
            final(self).wf(),
            final(self)@ == without_id(old(self)@, id as int),
            found == contains_id(old(self)@, id as int),
            !contains_id(final(self)@, id as int),
    {
        let mut out: Vec<Chat> = Vec::new();
        let mut found = false;
        let n = self.rows.len();
        for i in 0..n
            invariant
                n == self.rows.len(),
                rows_view(out@) =~= without_id(self@.take(i as int), id as int),
                found == contains_id(self@.take(i as int), id as int),
        {
            let ghost t0 = self@.take(i as int);
            let ghost t1 = self@.take(i as int + 1);
            proof {
                lemma_rows_view_len(self.rows@);
                lemma_rows_view_index(self.rows@, i as int);
                assert(t1.drop_last() =~= t0);
                assert(t1.last() == self@[i as int]);
            }
            if self.rows[i].id == id {
                found = true;
                proof {
                    assert(t1[i as int].id == id as int);
                    assert(contains_id(t1, id as int));
                    assert(without_id(t1, id as int) == without_id(t0, id as int));
                }
            } else {
                let d = self.rows[i].duplicate();
                let ghost prev = out@;
                out.push(d);
                proof {
                    lemma_rows_view_len(prev);
                    assert(out@ == prev.push(d));
                    assert(without_id(t1, id as int) == without_id(t0, id as int).push(
                        self@[i as int],
                    ));
                    assert forall|j: int| 0 <= j < out@.len() implies rows_view(out@)[j]
                        == without_id(t1, id as int)[j] by {
                        lemma_rows_view_index(out@, j);
                        if j < prev.len() {
                            assert(out@[j] == prev[j]);
                            lemma_rows_view_index(prev, j);
                        } else {
                            assert(out@[j] == d);
                            lemma_rows_view_index(self.rows@, i as int);
                        }
                    }
                    lemma_rows_view_len(out@);
                    assert(rows_view(out@) =~= without_id(t1, id as int));
                    assert forall|x: int| contains_id(t1, x) implies contains_id(t0, x) || x
                        == self@[i as int].id by {
                        let k = choose|k: int| 0 <= k < t1.len() && t1[k].id == x;
                        if k < t0.len() {
                            assert(t0[k].id == x);
                        }
                    }
                    assert(contains_id(t1, id as int) == contains_id(t0, id as int));
                }
            }
        }
        proof {
            assert(self@.take(n as int) =~= self@);
        }
        self.rows = out;
        proof {
            lemma_without_id(old(self)@, id as int);
        }
        found
    }

    /// A copy of every row, in insertion order.
    pub fn load_all(&self) -> (r: Vec<Chat>)
        ensures
            rows_view(r@) == self@,
    {
        let mut out: Vec<Chat> = Vec::new();
        let n = self.rows.len();
        for i in 0..n
            invariant
                n == self.rows.len(),
                rows_view(out@) =~= self@.take(i as int),
        {
            let d = self.rows[i].duplicate();
            let ghost prev = out@;
            out.push(d);
            proof {
                lemma_rows_view_len(prev);
                lemma_rows_view_len(out@);
                lemma_rows_view_len(self.rows@);
                assert(out@ == prev.push(d));
                assert(prev.len() == i);
                assert forall|j: int| 0 <= j <= i implies rows_view(out@)[j] == self@.take(
                    i as int + 1,
                )[j] by {
                    lemma_rows_view_index(out@, j);
                    lemma_rows_view_index(self.rows@, j);
                    if j < i {
                        assert(out@[j] == prev[j]);
                        lemma_rows_view_index(prev, j);
                        assert(rows_view(prev)[j] == self@.take(i as int)[j]);
                    } else {
                        assert(out@[j] == d);
                        assert(d@ == self.rows@[i as int]@);
                    }
                }
                assert(rows_view(out@) =~= self@.take(i as int + 1));
            }
        }
        proof {
            assert(self@.take(n as int) =~= self@);
        }
        out
    }
}

} // verus!
