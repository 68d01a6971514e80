use vstd::prelude::*;

verus! {

/// A JSON document as a tree of plain values.
#[derive(Debug)]
pub enum JsonValue {
    Null,
    Bool(bool),
    /// A non-negative integer.
    UInt(u64),
    /// A negative integer.
    NegInt(i64),
    /// A number written with a fraction or an exponent, kept as its text.
    Real(String),
    Str(String),
    Array(Vec<JsonValue>),
    /// The members of an object, in document order.
    Object(Vec<(String, JsonValue)>),
}

/// `i` is the first position of a member named `key`.
pub open spec fn is_first_key(ms: Seq<(String, JsonValue)>, key: Seq<char>, i: int) -> bool {
    &&& 0 <= i < ms.len()
    &&& ms[i].0@ == key
    &&& forall|j: int| 0 <= j < i ==> ms[j].0@ != key
}

/// The position of the first member named `key`, or -1 when there is none.
pub open spec fn member_at(ms: Seq<(String, JsonValue)>, key: Seq<char>) -> int {
    if exists|i: int| is_first_key(ms, key, i) {
        choose|i: int| is_first_key(ms, key, i)
    } else {
        -1
    }
}

/// The value of the first member named `key`.
pub open spec fn member(ms: Seq<(String, JsonValue)>, key: Seq<char>) -> Option<JsonValue> {
    let i = member_at(ms, key);
    if 0 <= i {
        Some(ms[i].1)
    } else {
        None
    }
}

/// Character-wise equality of two strings.
pub fn str_eq(a: &str, b: &str) -> (r: bool)
    ensures
        r == (a@ == b@),
{
    let n = a.unicode_len();
    if n != b.unicode_len() {
        return false;
    }
    let mut i: usize = 0;
    while i < n
        invariant
            n == a@.len(),
            n == b@.len(),
            i <= n,
            forall|j: int| 0 <= j < i ==> a@[j] == b@[j],
        decreases n - i,
    {
        if a.get_char(i) != b.get_char(i) {
            return false;
        }
        i = i + 1;
    }
    assert(a@ =~= b@);
    true
}

/// The position of the first member named `key`.
pub fn find_member(ms: &Vec<(String, JsonValue)>, key: &str) -> (r: Option<usize>)
    ensures
        match r {
            Some(i) => member_at(ms@, key@) == i as int,
            None => member_at(ms@, key@) == -1,
        },
{
    let mut i: usize = 0;
    while i < ms.len()
        invariant
            i <= ms@.len(),
            forall|j: int| 0 <= j < i ==> ms@[j].0@ != key@,
        decreases ms.len() - i,
    {
        if str_eq(ms[i].0.as_str(), key) {
            assert(is_first_key(ms@, key@, i as int));
            let ghost c = choose|c: int| is_first_key(ms@, key@, c);
            assert(c == i as int) by {
                if c < i as int {
                } else if c > i as int {
                    assert(ms@[i as int].0@ != key@);
                }
            }
            return Some(i);
        }
        i = i + 1;
    }
    assert(!exists|c: int| is_first_key(ms@, key@, c));
    None
}

} // verus!
