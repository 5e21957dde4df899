//! The four handler operations over the shared todo collection.
//!
//! Each operation takes the whole collection by reference for the duration of
//! one call; a server keeps the `Vec` behind a lock and holds it across the
//! call, which makes the operations atomic with respect to one another.

use vstd::prelude::*;

use crate::models::{has_id, is_first_match, unique_ids, ListOptions, Status, Todo};

verus! {

broadcast use Seq::lemma_filter_push, Seq::lemma_filter_len;

/// The offset a list request asks for; a missing offset means zero.
pub open spec fn requested_offset(opts: ListOptions) -> int {
    match opts.offset {
        Some(o) => o as int,
        None => 0,
    }
}

/// The index in a collection of `n` records where the requested page starts:
/// the offset, capped at `n`.
pub open spec fn page_start(opts: ListOptions, n: int) -> int {
    if requested_offset(opts) <= n {
        requested_offset(opts)
    } else {
        n
    }
}

/// The index just past the requested page: `limit` records after the start,
/// capped at `n`; all of `n` when no limit is given.
pub open spec fn page_end(opts: ListOptions, n: int) -> int {
    match opts.limit {
        Some(l) => if page_start(opts, n) + l <= n {
            page_start(opts, n) + l
        } else {
            n
        },
        None => n,
    }
}

/// How many records the requested page holds: none when the offset is at or
/// past the end, otherwise the records left after the offset, capped by the
/// limit.
pub open spec fn page_len(opts: ListOptions, n: int) -> int {
    let off = requested_offset(opts);
    if off >= n {
        0
    } else {
        match opts.limit {
            Some(l) => if l <= n - off { l as int } else { n - off },
            None => n - off,
        }
    }
}

/// Return the requested page of the collection: a copy of the contiguous run
/// of records from `offset`, at most `limit` long. Always succeeds.
pub fn list_todos(opts: &ListOptions, todos: &Vec<Todo>) -> (page: Vec<Todo>)
    ensures
        page@ == todos@.subrange(
            page_start(*opts, todos@.len() as int),
            page_end(*opts, todos@.len() as int),
        ),
        page@.len() == page_len(*opts, todos@.len() as int),
{
    let len = todos.len();
    let offset = match opts.offset {
        Some(o) => o,
        None => 0,
    };
    let start = if offset <= len { offset } else { len };
    let remaining = len - start;
    let count = match opts.limit {
        Some(l) => if l <= remaining { l } else { remaining },
        None => remaining,
    };
    let end = start + count;
    let mut page: Vec<Todo> = Vec::new();
    let mut i: usize = start;
    while i < end
        invariant
            start <= i <= end <= len,
            len == todos@.len(),
            page@ == todos@.subrange(start as int, i as int),
        decreases end - i,
    {
        page.push(todos[i].clone());
        assert(page@ =~= todos@.subrange(start as int, i as int + 1));
        i = i + 1;
    }
    assert(start as int == page_start(*opts, len as int));
    assert(end as int == page_end(*opts, len as int));
    page
}

/// Find the position of the first record carrying `id`, if any.
pub fn find_index_with_id(todos: &Vec<Todo>, id: u64) -> (found: Option<usize>)
    ensures
        match found {
            Some(j) => is_first_match(todos@, id, j as int),
            None => !has_id(todos@, id),
        },
{
    let len = todos.len();
    let mut i: usize = 0;
    while i < len
        invariant
            i <= len,
            len == todos@.len(),
            forall|k: int| 0 <= k < i ==> todos@[k].id != id,
        decreases len - i,
    {
        if todos[i].id == id {
            return Some(i);
        }
        i = i + 1;
    }
    None
}

/// Appending a record whose id is fresh keeps the ids unique.
pub proof fn lemma_create_preserves_unique_ids(s: Seq<Todo>, new_todo: Todo)
    requires
        unique_ids(s),
        !has_id(s, new_todo.id),
    ensures
        unique_ids(s.push(new_todo)),
{
    let pushed = s.push(new_todo);
    assert forall|i: int, j: int| 0 <= i < j < pushed.len() implies pushed[i].id != pushed[j].id by {
        if j == s.len() {
            assert(pushed[i] == s[i]);
        }
    }
}

/// Append `new_todo` to the collection, unless its id is already taken.
///
/// On a fresh id the record goes to the end and the outcome is `Created`; on a
/// taken id nothing changes and the outcome is `BadRequest`. This is the only
/// operation that grows the collection, and it keeps the ids unique.
pub fn create_todo(new_todo: Todo, todos: &mut Vec<Todo>) -> (status: Status)
    ensures
        has_id(old(todos)@, new_todo.id) ==> {
            &&& status == Status::BadRequest
            &&& final(todos)@ == old(todos)@
        },
        !has_id(old(todos)@, new_todo.id) ==> {
            &&& status == Status::Created
            &&& final(todos)@ == old(todos)@.push(new_todo)
        },
        unique_ids(old(todos)@) ==> unique_ids(final(todos)@),
{
    match find_index_with_id(todos, new_todo.id) {
        Some(_) => Status::BadRequest,
        None => {
            proof {
                if unique_ids(todos@) {
                    lemma_create_preserves_unique_ids(todos@, new_todo);
                }
            }
            todos.push(new_todo);
            Status::Created
        },
    }
}

/// Replace the first record carrying `id` with `replacement`, in place.
///
/// On a match the outcome is `Okay` and exactly that slot now holds the
/// replacement, every other record untouched; on no match nothing changes and
/// the outcome is `NotFound`. The replacement is stored whole: its own `id`
/// field is taken as it is, even when it differs from `id`, so an id-changing
/// replacement can reintroduce a duplicate id. Callers that rely on
/// [`unique_ids`] must pass a replacement whose id is either `id` itself or
/// otherwise absent from the collection.
pub fn update_todo(id: u64, replacement: Todo, todos: &mut Vec<Todo>) -> (status: Status)
    ensures
        !has_id(old(todos)@, id) ==> {
            &&& status == Status::NotFound
            &&& final(todos)@ == old(todos)@
        },
        has_id(old(todos)@, id) ==> {
            &&& status == Status::Okay
            &&& exists|j: int|
                is_first_match(old(todos)@, id, j)
                    && final(todos)@ == old(todos)@.update(j, replacement)
        },
{
    match find_index_with_id(todos, id) {
        Some(j) => {
            todos[j] = replacement;
            Status::Okay
        },
        None => Status::NotFound,
    }
}

/// The collection without the records that carry `id`, in their original
/// relative order.
pub open spec fn without_id(s: Seq<Todo>, id: u64) -> Seq<Todo> {
    s.filter(|t: Todo| t.id != id)
}

/// Copy the collection, leaving out every record that carries `id`.
fn retain_other_ids(todos: &Vec<Todo>, id: u64) -> (kept: Vec<Todo>)
    ensures
        kept@ == without_id(todos@, id),
        kept@.len() < todos@.len() <==> has_id(todos@, id),
        !has_id(todos@, id) ==> kept@ == todos@,
{
    let len = todos.len();
    let mut kept: Vec<Todo> = Vec::new();
    let mut i: usize = 0;
    while i < len
        invariant
            i <= len,
            len == todos@.len(),
            kept@ == without_id(todos@.take(i as int), id),
            kept@.len() < i <==> has_id(todos@.take(i as int), id),
            !has_id(todos@.take(i as int), id) ==> kept@ == todos@.take(i as int),
        decreases len - i,
    {
        assert(todos@.take(i as int + 1) =~= todos@.take(i as int).push(todos@[i as int]));
        proof {
            let prefix = todos@.take(i as int);
            let current = todos@[i as int];
            assert(without_id(prefix.push(current), id) == if current.id != id {
                without_id(prefix, id).push(current)
            } else {
                without_id(prefix, id)
            });
        }
        if todos[i].id != id {
            kept.push(todos[i].clone());
        } else {
            assert(has_id(todos@.take(i as int + 1), id)) by {
                assert(todos@.take(i as int + 1)[i as int].id == id);
            }
        }
        i = i + 1;
    }
    assert(todos@.take(len as int) =~= todos@);
    kept
}

/// A collection in which no record carries `id` is left whole by
/// [`without_id`].
pub proof fn lemma_without_id_unchanged(s: Seq<Todo>, id: u64)
    requires
        !has_id(s, id),
    ensures
        without_id(s, id) == s,
    decreases s.len(),
{
    if s.len() == 0 {
        assert(without_id(s, id) =~= s);
    } else {
        let rest = s.drop_last();
        assert(rest.push(s.last()) =~= s);
        assert forall|k: int| 0 <= k < rest.len() implies rest[k].id != id by {
            assert(rest[k] == s[k]);
        }
        lemma_without_id_unchanged(rest, id);
    }
}

/// While the ids are unique, deleting a present id removes exactly one record.
pub proof fn lemma_delete_removes_exactly_one(s: Seq<Todo>, id: u64)
    requires
        unique_ids(s),
        has_id(s, id),
    ensures
        without_id(s, id).len() == s.len() - 1,
    decreases s.len(),
{
    let last = s.last();
    let rest = s.drop_last();
    assert(rest.push(last) =~= s);
    if last.id == id {
        assert forall|k: int| 0 <= k < rest.len() implies rest[k].id != id by {
            assert(rest[k] == s[k] && last == s[s.len() - 1]);
        }
        lemma_without_id_unchanged(rest, id);
    } else {
        let i = choose|i: int| 0 <= i < s.len() && s[i].id == id;
        assert(rest[i] == s[i]);
        lemma_delete_removes_exactly_one(rest, id);
    }
}

/// Remove every record carrying `id` — at most one, while the ids are unique.
///
/// The surviving records keep their relative order. The outcome is `NoContent`
/// when a record was removed and `NotFound` when none carried the id (and the
/// collection is then unchanged).
pub fn delete_todo(id: u64, todos: &mut Vec<Todo>) -> (status: Status)
    ensures
        final(todos)@ == without_id(old(todos)@, id),
        status == if has_id(old(todos)@, id) {
            Status::NoContent
        } else {
            Status::NotFound
        },
        !has_id(old(todos)@, id) ==> final(todos)@ == old(todos)@,
        unique_ids(old(todos)@) && has_id(old(todos)@, id) ==> final(todos)@.len() + 1 == old(todos)@.len(),
{
    proof {
        if unique_ids(todos@) && has_id(todos@, id) {
            lemma_delete_removes_exactly_one(todos@, id);
        }
    }
    let len = todos.len();
    let kept = retain_other_ids(todos, id);
    let deleted = kept.len() != len;
    *todos = kept;
    if deleted {
        Status::NoContent
    } else {
        Status::NotFound
    }
}

} // verus!
