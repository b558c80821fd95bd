use vstd::prelude::*;
use vstd::string::*;
use crate::errors::WsError;
use crate::item::same_text;

verus! {

/// The value of the first query-string parameter named `key`.
pub open spec fn first_value(params: Seq<(String, String)>, key: Seq<char>) -> Option<Seq<char>>
    decreases params.len(),
{
    if params.len() == 0 {
        None
    } else if params[0].0@ == key {
        Some(params[0].1@)
    } else {
        first_value(params.drop_first(), key)
    }
}

/// The bearer token of a `$connect` request: the first `token` query-string
/// parameter; a request without one is unauthorized ("no token query").
pub fn query_token(params: &Vec<(String, String)>) -> (r: Result<String, WsError>)
    ensures
        match first_value(params@, "token"@) {
            Some(t) => r matches Ok(s) && s@ == t,
            None => r matches Err(WsError::Unauthorized(m)) && m@ == "no token query"@,
        },
{
    let n = params.len();
    let mut i: usize = 0;
    assert(params@.subrange(0, n as int) =~= params@);
    while i < n
        invariant
            n == params@.len(),
            i <= n,
            first_value(params@, "token"@) == first_value(params@.subrange(i as int, n as int), "token"@),
        decreases n - i,
    {
        let ghost rest = params@.subrange(i as int, n as int);
        assert(rest.drop_first() =~= params@.subrange(i + 1, n as int));
        assert(rest[0] == params@[i as int]);
        if same_text(params[i].0.as_str(), "token") {
            return Ok(params[i].1.clone());
        }
        i = i + 1;
    }
    assert(params@.subrange(n as int, n as int).len() == 0);
    Err(WsError::Unauthorized(String::from_str("no token query")))
}

} // verus!
