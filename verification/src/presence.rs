use vstd::prelude::*;
use crate::item::{opt_text, Item};

verus! {

/// When a user was last seen: the `last_seen_at` string of the user's
/// presence item, if there is an item and it holds one.
pub fn last_seen_at(found: &Option<Item>) -> (r: Option<String>)
    ensures
        opt_text(r) == match found {
            Some(item) => item.text("last_seen_at"@),
            None => None,
        },
{
    match found {
        Some(item) => item.string_attr("last_seen_at"),
        None => None,
    }
}

} // verus!
