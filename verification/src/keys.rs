use vstd::prelude::*;
use vstd::string::*;
use crate::utils::is_hyphenated_uuid_v4;

verus! {

/// Two texts joined by a `#`, the layout of every composite key of the service.
pub open spec fn joined_key(first: Seq<char>, second: Seq<char>) -> Seq<char> {
    first + seq!['#'] + second
}

/// Text that holds no `#`.
pub open spec fn hash_free(s: Seq<char>) -> bool {
    forall|i: int| 0 <= i < s.len() ==> #[trigger] s[i] != '#'
}

/// `a` comes strictly before `b` in character order at their first difference,
/// and neither is a prefix of the other there.
pub open spec fn text_precedes(a: Seq<char>, b: Seq<char>) -> bool {
    exists|k: int|
        #![trigger a[k], b[k]]
        0 <= k < a.len() && k < b.len() && a.subrange(0, k) == b.subrange(0, k) && (a[k] as int)
            < (b[k] as int)
}

/// `a` comes strictly before `b` in the string order of keys: at their first
/// difference `a` holds the smaller character, or `a` is a proper prefix of `b`.
pub open spec fn key_before(a: Seq<char>, b: Seq<char>) -> bool {
    text_precedes(a, b) || (a.len() < b.len() && b.subrange(0, a.len() as int) == a)
}

/// No key comes before itself.
pub proof fn lemma_key_before_irreflexive(a: Seq<char>)
    ensures
        !key_before(a, a),
{
    if text_precedes(a, a) {
        let k = choose|k: int|
            #![trigger a[k], a[k]]
            0 <= k < a.len() && k < a.len() && a.subrange(0, k) == a.subrange(0, k) && (a[k] as int)
                < (a[k] as int);
        assert(false);
    }
}

/// Of two keys, at most one comes before the other.
pub proof fn lemma_key_before_asymmetric(a: Seq<char>, b: Seq<char>)
    requires
        key_before(a, b),
    ensures
        !key_before(b, a),
{
    if key_before(b, a) {
        if text_precedes(a, b) {
            let k = choose|k: int|
                #![trigger a[k], b[k]]
                0 <= k < a.len() && k < b.len() && a.subrange(0, k) == b.subrange(0, k) && (a[k] as int)
                    < (b[k] as int);
            if text_precedes(b, a) {
                let k2 = choose|k2: int|
                    #![trigger b[k2], a[k2]]
                    0 <= k2 < b.len() && k2 < a.len() && b.subrange(0, k2) == a.subrange(0, k2)
                        && (b[k2] as int) < (a[k2] as int);
                if k < k2 {
                    assert(b.subrange(0, k2)[k] == a.subrange(0, k2)[k]);
                } else if k2 < k {
                    assert(a.subrange(0, k)[k2] == b.subrange(0, k)[k2]);
                }
            } else {
                assert(a.subrange(0, b.len() as int)[k] == a[k]);
            }
        } else {
            if text_precedes(b, a) {
                let k2 = choose|k2: int|
                    #![trigger b[k2], a[k2]]
                    0 <= k2 < b.len() && k2 < a.len() && b.subrange(0, k2) == a.subrange(0, k2)
                        && (b[k2] as int) < (a[k2] as int);
                assert(b.subrange(0, a.len() as int)[k2] == b[k2]);
            }
        }
    }
}

/// `a` and `b` agree on their first `n` characters.
pub open spec fn agree_upto(a: Seq<char>, b: Seq<char>, n: int) -> bool {
    0 <= n <= a.len() && n <= b.len() && forall|j: int| 0 <= j < n ==> #[trigger] a[j] == #[trigger] b[j]
}

/// `key_before` read as: the keys agree up to some position, where `a` ends
/// or holds the smaller character.
proof fn lemma_key_before_at(a: Seq<char>, b: Seq<char>) -> (p: int)
    requires
        key_before(a, b),
    ensures
        agree_upto(a, b, p),
        p < b.len(),
        p == a.len() || (a[p] as int) < (b[p] as int),
{
    if text_precedes(a, b) {
        let k = choose|k: int|
            #![trigger a[k], b[k]]
            0 <= k < a.len() && k < b.len() && a.subrange(0, k) == b.subrange(0, k) && (a[k] as int)
                < (b[k] as int);
        assert forall|j: int| 0 <= j < k implies #[trigger] a[j] == #[trigger] b[j] by {
            assert(a.subrange(0, k)[j] == b.subrange(0, k)[j]);
        }
        k
    } else {
        assert forall|j: int| 0 <= j < a.len() implies #[trigger] a[j] == #[trigger] b[j] by {
            assert(b.subrange(0, a.len() as int)[j] == b[j]);
        }
        a.len() as int
    }
}

/// Keys that agree up to a position where the first ends, before the second
/// does, or holds the smaller character, are in key order.
proof fn lemma_key_before_from(a: Seq<char>, b: Seq<char>, p: int)
    requires
        agree_upto(a, b, p),
        p < b.len(),
        p == a.len() || (a[p] as int) < (b[p] as int),
    ensures
        key_before(a, b),
{
    if p == a.len() {
        assert(b.subrange(0, a.len() as int) =~= a);
    } else {
        assert(a.subrange(0, p) =~= b.subrange(0, p));
        assert(a[p] == a[p] && b[p] == b[p]);
    }
}

/// Key order is transitive.
pub proof fn lemma_key_before_transitive(a: Seq<char>, b: Seq<char>, c: Seq<char>)
    requires
        key_before(a, b),
        key_before(b, c),
    ensures
        key_before(a, c),
{
    let p = lemma_key_before_at(a, b);
    let q = lemma_key_before_at(b, c);
    let r = if p < q { p } else { q };
    assert(agree_upto(a, c, r)) by {
        assert forall|j: int| 0 <= j < r implies #[trigger] a[j] == #[trigger] c[j] by {
            assert(a[j] == b[j]);
            assert(b[j] == c[j]);
        }
    }
    if p < q {
        assert(b[p] == c[p]);
        lemma_key_before_from(a, c, p);
    } else if q < p {
        assert(a[q] == b[q]);
        lemma_key_before_from(a, c, q);
    } else {
        lemma_key_before_from(a, c, p);
    }
}

/// The sort key of a stored message or notification: its creation time, a
/// `#`, and its identifier.
pub fn sort_key(created_at: &str, id: &str) -> (key: String)
    ensures
        key@ == joined_key(created_at@, id@),
{
    let key = String::from_str(created_at).concat("#").concat(id);
    proof {
        reveal_strlit("#");
        assert("#"@ =~= seq!['#']);
    }
    key
}

/// The partition key of a group in the membership table: `GROUP#` and the group id.
pub fn group_pk(group_id: &str) -> (key: String)
    ensures
        key@ == "GROUP#"@ + group_id@,
{
    String::from_str("GROUP#").concat(group_id)
}

/// The sort key of a member in the membership table: `MEMBER#` and the user id.
pub fn member_sk(user_id: &str) -> (key: String)
    ensures
        key@ == "MEMBER#"@ + user_id@,
{
    String::from_str("MEMBER#").concat(user_id)
}

/// Sort keys keep creation order: when one creation time precedes another
/// in character order, the first sort key precedes the second, whatever the
/// identifiers.
pub proof fn lemma_sort_key_keeps_creation_order(
    created_a: Seq<char>,
    id_a: Seq<char>,
    created_b: Seq<char>,
    id_b: Seq<char>,
)
    requires
        text_precedes(created_a, created_b),
    ensures
        text_precedes(joined_key(created_a, id_a), joined_key(created_b, id_b)),
{
    let k = choose|k: int|
        #![trigger created_a[k], created_b[k]]
        0 <= k < created_a.len() && k < created_b.len() && created_a.subrange(0, k)
            == created_b.subrange(0, k) && (created_a[k] as int) < (created_b[k] as int);
    let ka = joined_key(created_a, id_a);
    let kb = joined_key(created_b, id_b);
    assert(ka.subrange(0, k) =~= created_a.subrange(0, k));
    assert(kb.subrange(0, k) =~= created_b.subrange(0, k));
    assert(ka[k] == created_a[k]);
    assert(kb[k] == created_b[k]);
}

/// A sort key determines its parts: when identifiers hold no `#`, equal sort
/// keys have equal creation times and equal identifiers.
pub proof fn lemma_sort_key_determines_parts(
    created_a: Seq<char>,
    id_a: Seq<char>,
    created_b: Seq<char>,
    id_b: Seq<char>,
)
    requires
        hash_free(id_a),
        hash_free(id_b),
        joined_key(created_a, id_a) == joined_key(created_b, id_b),
    ensures
        created_a == created_b,
        id_a == id_b,
{
    let ka = joined_key(created_a, id_a);
    let kb = joined_key(created_b, id_b);
    let n = ka.len();
    if id_a.len() < id_b.len() {
        let p = n - id_a.len() - 1;
        assert(ka[p] == '#');
        assert(kb[p] == id_b[p - created_b.len() - 1]);
    } else if id_b.len() < id_a.len() {
        let p = n - id_b.len() - 1;
        assert(kb[p] == '#');
        assert(ka[p] == id_a[p - created_a.len() - 1]);
    }
    assert(created_a.len() == created_b.len());
    assert(created_a =~= ka.subrange(0, created_a.len() as int));
    assert(created_b =~= kb.subrange(0, created_b.len() as int));
    assert(id_a =~= ka.subrange(created_a.len() as int + 1, n as int));
    assert(id_b =~= kb.subrange(created_b.len() as int + 1, n as int));
}

/// UUID text holds no `#`.
pub proof fn lemma_uuid_text_is_hash_free(s: Seq<char>)
    requires
        is_hyphenated_uuid_v4(s),
    ensures
        hash_free(s),
{
    assert forall|i: int| 0 <= i < s.len() implies #[trigger] s[i] != '#' by {
        if i == 8 || i == 13 || i == 18 || i == 23 {
            assert(s[i] == '-');
        } else {
            assert(crate::utils::is_lower_hex(s[i]));
        }
    }
}

} // verus!
