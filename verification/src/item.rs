use vstd::prelude::*;

verus! {

/// One attribute of a stored item, as the service reads it: its name and,
/// where the attribute holds a string, that string.
#[derive(Debug, Clone, PartialEq, Eq)]
pub struct Attribute {
    pub name: String,
    pub text: Option<String>,
}

/// A stored item: its attributes, each name at most once.
#[derive(Debug, Clone, PartialEq, Eq)]
pub struct Item {
    pub attributes: Vec<Attribute>,
}

/// The view of an optional string.
pub open spec fn opt_text(o: Option<String>) -> Option<Seq<char>> {
    match o {
        Some(s) => Some(s@),
        None => None,
    }
}

/// The string held by the first attribute named `name`, if that attribute
/// holds a string.
pub open spec fn attr_text(attrs: Seq<Attribute>, name: Seq<char>) -> Option<Seq<char>>
    decreases attrs.len(),
{
    if attrs.len() == 0 {
        None
    } else if attrs[0].name@ == name {
        opt_text(attrs[0].text)
    } else {
        attr_text(attrs.drop_first(), name)
    }
}

/// Two texts are equal.
pub fn same_text(a: &str, b: &str) -> (r: bool)
    ensures
        r == (a@ == b@),
{
    let x: String = a.to_owned();
    let y: String = b.to_owned();
    x == y
}

impl Item {
    /// The string held by the attribute named `name`.
    pub open spec fn text(&self, name: Seq<char>) -> Option<Seq<char>> {
        attr_text(self.attributes@, name)
    }

    /// The string held by the attribute named `name`; `None` where the item has
    /// no such attribute or the attribute does not hold a string.
    pub fn string_attr(&self, name: &str) -> (r: Option<String>)
        ensures
            opt_text(r) == self.text(name@),
    {
        let n = self.attributes.len();
        let mut i: usize = 0;
        assert(self.attributes@.subrange(0, n as int) =~= self.attributes@);
        while i < n
            invariant
                n == self.attributes@.len(),
                i <= n,
                attr_text(self.attributes@, name@) == attr_text(
                    self.attributes@.subrange(i as int, n as int),
                    name@,
                ),
            decreases n - i,
        {
            let ghost rest = self.attributes@.subrange(i as int, n as int);
            assert(rest.drop_first() =~= self.attributes@.subrange(i + 1, n as int));
            assert(rest[0] == self.attributes@[i as int]);
            if same_text(self.attributes[i].name.as_str(), name) {
                return match &self.attributes[i].text {
                    Some(s) => Some(s.clone()),
                    None => None,
                };
            }
            i = i + 1;
        }
        assert(self.attributes@.subrange(n as int, n as int).len() == 0);
        None
    }
}

} // verus!
