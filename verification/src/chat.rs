use vstd::prelude::*;
use vstd::string::*;
use crate::item::opt_text;
use crate::keys::{
    joined_key, key_before, lemma_key_before_asymmetric, lemma_key_before_irreflexive, lemma_key_before_transitive,
    sort_key,
};
use crate::types::ChatMessageRecord;
use crate::utils::{clock_text, is_hyphenated_uuid_v4, new_uuid_v4_text, now_rfc3339};

verus! {

/// The values that are present, in order.
pub open spec fn present<T>(s: Seq<Option<T>>) -> Seq<T>
    decreases s.len(),
{
    if s.len() == 0 {
        Seq::empty()
    } else {
        let rest = present(s.drop_last());
        match s.last() {
            Some(x) => rest.push(x),
            None => rest,
        }
    }
}

/// The records that decoded, in the order in which they were read; items
/// that did not decode are dropped.
pub fn decoded_records(items: Vec<Option<ChatMessageRecord>>) -> (records: Vec<ChatMessageRecord>)
    ensures
        records@ == present(items@),
{
    let mut records: Vec<ChatMessageRecord> = Vec::new();
    let ghost all = items@;
    for item in it: items.into_iter()
        invariant
            it.seq() == all,
            records@ == present(all.take(it.index() as int)),
    {
        let ghost k = it.index() as int;
        assert(all.take(k + 1).drop_last() =~= all.take(k));
        match item {
            Some(r) => records.push(r),
            None => {},
        }
    }
    assert(all.take(all.len() as int) =~= all);
    records
}

/// A new text chat message from `sender_id` in `group_id`, stamped with the
/// current time (as `now_rfc3339` writes it) and a fresh random message id;
/// its sort key is the creation text, a `#` and the message id, so a group's
/// messages sort by the character order of their creation texts.
pub fn new_chat_message(group_id: &str, sender_id: &str, content: &str) -> (record: ChatMessageRecord)
    ensures
        record.group_id@ == group_id@,
        record.sender_id@ == sender_id@,
        record.content@ == content@,
        record.message_type@ == "TEXT"@,
        exists|first: i128, second: i128| record.created_at@ == clock_text(first, second),
        is_hyphenated_uuid_v4(record.message_id@),
        record.sort_key@ == joined_key(record.created_at@, record.message_id@),
{
    let created_at = now_rfc3339();
    let message_id = new_uuid_v4_text();
    let key = sort_key(created_at.as_str(), message_id.as_str());
    ChatMessageRecord {
        group_id: group_id.to_owned(),
        sort_key: key,
        message_id,
        sender_id: sender_id.to_owned(),
        content: content.to_owned(),
        message_type: String::from_str("TEXT"),
        created_at,
    }
}

/// A key-condition query on a table: the condition, the values bound to its
/// placeholders, the read direction and the page size.
#[derive(Debug, Clone, PartialEq, Eq)]
pub struct KeyQuery {
    pub key_condition: String,
    pub values: Vec<(String, String)>,
    /// Oldest first when true.
    pub ascending: bool,
    pub limit: Option<i32>,
}

impl KeyQuery {
    /// Placeholder `i` is named `name` and bound to `value`.
    pub open spec fn binds(&self, i: int, name: Seq<char>, value: Seq<char>) -> bool {
        0 <= i < self.values@.len() && self.values@[i].0@ == name && self.values@[i].1@ == value
    }
}

/// A name and the value bound to it.
fn binding(name: &str, value: &str) -> (b: (String, String))
    ensures
        b.0@ == name@,
        b.1@ == value@,
{
    (name.to_owned(), value.to_owned())
}

/// The query for a group's chat history, oldest first: all of the group's
/// messages, or, given `since`, those whose sort key is at or after `since`.
pub fn history_query(group_id: &str, since: &Option<String>) -> (q: KeyQuery)
    ensures
        q.ascending,
        q.limit is None,
        q.binds(0, ":gid"@, group_id@),
        match since {
            Some(s) => {
                &&& q.key_condition@ == "group_id = :gid AND sort_key >= :since"@
                &&& q.values@.len() == 2
                &&& q.binds(1, ":since"@, s@)
            },
            None => {
                &&& q.key_condition@ == "group_id = :gid"@
                &&& q.values@.len() == 1
            },
        },
{
    let mut values: Vec<(String, String)> = Vec::new();
    values.push(binding(":gid", group_id));
    let key_condition = match since {
        Some(s) => {
            values.push(binding(":since", s.as_str()));
            String::from_str("group_id = :gid AND sort_key >= :since")
        },
        None => String::from_str("group_id = :gid"),
    };
    KeyQuery { key_condition, values, ascending: true, limit: None }
}

/// The query for one page of a group's chat history, oldest first: the
/// group's messages, or, given a cursor, those whose sort key is strictly
/// after the cursor; at most `limit` of them where a limit is given.
pub fn history_page_query(group_id: &str, cursor: &Option<String>, limit: Option<i32>) -> (q: KeyQuery)
    ensures
        q.ascending,
        q.limit == limit,
        q.binds(0, ":gid"@, group_id@),
        match cursor {
            Some(c) => {
                &&& q.key_condition@ == "group_id = :gid AND sort_key > :cursor"@
                &&& q.values@.len() == 2
                &&& q.binds(1, ":cursor"@, c@)
            },
            None => {
                &&& q.key_condition@ == "group_id = :gid"@
                &&& q.values@.len() == 1
            },
        },
{
    let mut values: Vec<(String, String)> = Vec::new();
    values.push(binding(":gid", group_id));
    let key_condition = match cursor {
        Some(c) => {
            values.push(binding(":cursor", c.as_str()));
            String::from_str("group_id = :gid AND sort_key > :cursor")
        },
        None => String::from_str("group_id = :gid"),
    };
    KeyQuery { key_condition, values, ascending: true, limit }
}

/// The cursor that follows a page: the sort key of its last record when the
/// store reported more items and the page is not empty; otherwise none.
pub open spec fn next_cursor(records: Seq<ChatMessageRecord>, more: bool) -> Option<Seq<char>> {
    if more && records.len() > 0 {
        Some(records.last().sort_key@)
    } else {
        None
    }
}

/// The cursor for the next page: the sort key of the page's last record when
/// the store reported more items and the page is not empty; otherwise none.
pub fn next_page_cursor(records: &Vec<ChatMessageRecord>, more: bool) -> (cursor: Option<String>)
    ensures
        opt_text(cursor) == next_cursor(records@, more),
{
    if more && records.len() > 0 {
        Some(records[records.len() - 1].sort_key.clone())
    } else {
        None
    }
}

/// The records' sort keys strictly ascend, as those of one group do in the
/// store.
pub open spec fn keys_ascending(all: Seq<ChatMessageRecord>) -> bool {
    forall|i: int, j: int|
        0 <= i < j < all.len() ==> key_before(#[trigger] all[i].sort_key@, #[trigger] all[j].sort_key@)
}

/// The records of `all` whose sort keys come after `cursor` are those from
/// index `i` on; with no cursor, all of them.
pub open spec fn starts_after(all: Seq<ChatMessageRecord>, cursor: Option<Seq<char>>, i: int) -> bool {
    &&& 0 <= i <= all.len()
    &&& match cursor {
        None => i == 0,
        Some(c) => {
            &&& forall|j: int| 0 <= j < i ==> !key_before(c, #[trigger] all[j].sort_key@)
            &&& forall|j: int| i <= j < all.len() ==> key_before(c, #[trigger] all[j].sort_key@)
        },
    }
}

/// `page` and `more` answer the page query with this cursor and limit over a
/// group whose records, in ascending key order, are `all`: the page is the
/// records after the cursor, oldest first, at most `limit` of them, and
/// `more` is set whenever records after the cursor were left out.
pub open spec fn answers_page(
    all: Seq<ChatMessageRecord>,
    cursor: Option<Seq<char>>,
    limit: int,
    page: Seq<ChatMessageRecord>,
    more: bool,
) -> bool {
    exists|i: int|
        #![trigger starts_after(all, cursor, i)]
        starts_after(all, cursor, i) && page == all.subrange(
            i,
            if i + limit < all.len() { i + limit } else { all.len() as int },
        ) && (i + page.len() < all.len() ==> more)
}

/// The cursor that page `k` of a reading is asked for: none for the first
/// page, then the cursor that follows the page before.
pub open spec fn page_cursor(pages: Seq<Seq<ChatMessageRecord>>, mores: Seq<bool>, k: int) -> Option<
    Seq<char>,
> {
    if k == 0 {
        None
    } else {
        next_cursor(pages[k - 1], mores[k - 1])
    }
}

/// `pages` and `mores` are a reading of a group's history page by page: each
/// page answers the query for the cursor that the page before gave, every
/// page but the last gives a cursor, and the last gives none.
pub open spec fn is_paged_reading(
    all: Seq<ChatMessageRecord>,
    limit: int,
    pages: Seq<Seq<ChatMessageRecord>>,
    mores: Seq<bool>,
) -> bool {
    &&& pages.len() >= 1
    &&& mores.len() == pages.len()
    &&& forall|k: int|
        0 <= k < pages.len() ==> #[trigger] answers_page(all, page_cursor(pages, mores, k), limit, pages[k], mores[k])
    &&& forall|k: int| 0 <= k < pages.len() - 1 ==> #[trigger] next_cursor(pages[k], mores[k]) is Some
    &&& next_cursor(pages.last(), mores.last()) is None
}

/// Where the records after a cursor start is fixed by the cursor.
proof fn lemma_start_unique(all: Seq<ChatMessageRecord>, cursor: Option<Seq<char>>, i: int, i2: int)
    requires
        starts_after(all, cursor, i),
        starts_after(all, cursor, i2),
    ensures
        i == i2,
{
    if let Some(c) = cursor {
        if i < i2 {
            assert(key_before(c, all[i].sort_key@));
        } else if i2 < i {
            assert(key_before(c, all[i2].sort_key@));
        }
    }
}

/// From page `k` on, a paged reading whose page `k` starts at index `i`
/// reads the records from `i` to the end.
proof fn lemma_pages_from(
    all: Seq<ChatMessageRecord>,
    limit: int,
    pages: Seq<Seq<ChatMessageRecord>>,
    mores: Seq<bool>,
    k: int,
    i: int,
)
    requires
        keys_ascending(all),
        limit >= 1,
        is_paged_reading(all, limit, pages, mores),
        0 <= k < pages.len(),
        starts_after(all, page_cursor(pages, mores, k), i),
    ensures
        pages.skip(k).flatten() == all.subrange(i, all.len() as int),
    decreases pages.len() - k,
{
    let cursor = page_cursor(pages, mores, k);
    assert(answers_page(all, cursor, limit, pages[k], mores[k]));
    let i2 = choose|i2: int|
        #![trigger starts_after(all, cursor, i2)]
        starts_after(all, cursor, i2) && pages[k] == all.subrange(
            i2,
            if i2 + limit < all.len() { i2 + limit } else { all.len() as int },
        ) && (i2 + pages[k].len() < all.len() ==> mores[k]);
    lemma_start_unique(all, cursor, i, i2);
    let page = pages[k];
    let m = page.len() as int;
    let rest = pages.skip(k);
    assert(rest.first() == page);
    assert(rest.drop_first() =~= pages.skip(k + 1));
    assert(rest.flatten() == page + pages.skip(k + 1).flatten());
    if k == pages.len() - 1 {
        assert(next_cursor(page, mores[k]) is None);
        assert(i + m == all.len());
        assert(pages.skip(k + 1) =~= Seq::<Seq<ChatMessageRecord>>::empty());
        assert(pages.skip(k + 1).flatten() =~= Seq::<ChatMessageRecord>::empty());
        assert(page + Seq::<ChatMessageRecord>::empty() =~= page);
        assert(page =~= all.subrange(i, all.len() as int));
    } else {
        assert(next_cursor(pages[k], mores[k]) is Some);
        let c = page.last().sort_key@;
        assert(page_cursor(pages, mores, k + 1) == Some(c));
        assert(page.last() == all[i + m - 1]);
        assert forall|j: int| 0 <= j < i + m implies !key_before(c, #[trigger] all[j].sort_key@) by {
            if j < i + m - 1 {
                lemma_key_before_asymmetric(all[j].sort_key@, c);
            } else {
                lemma_key_before_irreflexive(c);
            }
        }
        assert forall|j: int| i + m <= j < all.len() implies key_before(c, #[trigger] all[j].sort_key@) by {
            assert(key_before(all[i + m - 1].sort_key@, all[j].sort_key@));
        }
        assert(starts_after(all, page_cursor(pages, mores, k + 1), i + m));
        lemma_pages_from(all, limit, pages, mores, k + 1, i + m);
        assert(page + all.subrange(i + m, all.len() as int) =~= all.subrange(i, all.len() as int));
    }
}

/// Reading a group's history page by page, from no cursor and on with the
/// cursor that each page gives until one gives none, reads every record of
/// the group exactly once, oldest first, provided each page holds what its
/// query selects.
pub proof fn lemma_paged_reading_reads_history_once(
    all: Seq<ChatMessageRecord>,
    limit: int,
    pages: Seq<Seq<ChatMessageRecord>>,
    mores: Seq<bool>,
)
    requires
        keys_ascending(all),
        limit >= 1,
        is_paged_reading(all, limit, pages, mores),
    ensures
        pages.flatten() == all,
{
    assert(starts_after(all, page_cursor(pages, mores, 0), 0));
    lemma_pages_from(all, limit, pages, mores, 0, 0);
    assert(pages.skip(0) =~= pages);
    assert(all.subrange(0, all.len() as int) =~= all);
}

/// The records of `all` whose sort keys are at or after `since` are those
/// from index `i` on; with no `since`, all of them.
pub open spec fn starts_at(all: Seq<ChatMessageRecord>, since: Option<Seq<char>>, i: int) -> bool {
    &&& 0 <= i <= all.len()
    &&& match since {
        None => i == 0,
        Some(s) => {
            &&& forall|j: int| 0 <= j < i ==> key_before(#[trigger] all[j].sort_key@, s)
            &&& forall|j: int| i <= j < all.len() ==> !key_before(#[trigger] all[j].sort_key@, s)
        },
    }
}

/// `records` answers the history query with this `since` over a group whose
/// records, in ascending key order, are `all`: the records whose sort keys
/// are at or after `since`, oldest first.
pub open spec fn answers_history(all: Seq<ChatMessageRecord>, since: Option<Seq<char>>, records: Seq<ChatMessageRecord>) -> bool {
    exists|i: int| #![trigger starts_at(all, since, i)] starts_at(all, since, i) && records == all.subrange(i, all.len() as int)
}

/// `first` asks for no later a start than `second`: no `since` at all, or a
/// `since` at or before the other one in key order.
pub open spec fn since_not_later(first: Option<Seq<char>>, second: Option<Seq<char>>) -> bool {
    match (first, second) {
        (None, _) => true,
        (Some(_), None) => false,
        (Some(a), Some(b)) => a == b || key_before(a, b),
    }
}

/// Reading a group's history with a later `since` gives a suffix of what an
/// earlier one gives, and with no `since` it gives the whole history.
pub proof fn lemma_later_since_reads_suffix(
    all: Seq<ChatMessageRecord>,
    since1: Option<Seq<char>>,
    since2: Option<Seq<char>>,
    records1: Seq<ChatMessageRecord>,
    records2: Seq<ChatMessageRecord>,
)
    requires
        since_not_later(since1, since2),
        answers_history(all, since1, records1),
        answers_history(all, since2, records2),
    ensures
        records2.len() <= records1.len(),
        records2 == records1.skip(records1.len() - records2.len()),
        since1 is None ==> records1 == all,
{
    let i1 = choose|i: int| #![trigger starts_at(all, since1, i)] starts_at(all, since1, i) && records1 == all.subrange(i, all.len() as int);
    let i2 = choose|i: int| #![trigger starts_at(all, since2, i)] starts_at(all, since2, i) && records2 == all.subrange(i, all.len() as int);
    if i2 < i1 {
        let s1 = since1->0;
        let s2 = since2->0;
        let k = all[i2].sort_key@;
        assert(key_before(k, s1));
        assert(!key_before(k, s2));
        if s1 != s2 {
            lemma_key_before_transitive(k, s1, s2);
        }
    }
    assert(records1.skip(i2 - i1) =~= records2);
    if since1 is None {
        assert(records1 =~= all);
    }
}

} // verus!
