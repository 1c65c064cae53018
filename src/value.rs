use vstd::prelude::*;

verus! {

/// A leaf of a structured message: a non-negative integer, a text, or
/// anything else (which no field of this protocol accepts).
#[derive(Clone, Debug, PartialEq, Eq)]
pub enum Scalar {
    Num(u64),
    Text(String),
    Other,
}

/// A flat object: named scalars, in the order they were written.
#[derive(Clone, Debug, PartialEq, Eq)]
pub struct Record {
    pub entries: Vec<(String, Scalar)>,
}

/// The value of a top-level field of a message.
#[derive(Clone, Debug, PartialEq, Eq)]
pub enum Node {
    Scalar(Scalar),
    Record(Record),
    List(Vec<Record>),
    Other,
}

/// A whole client message: named nodes.
#[derive(Clone, Debug, PartialEq, Eq)]
pub struct Message {
    pub entries: Vec<(String, Node)>,
}

/// The value of the first entry named `key`.
pub open spec fn lookup<V>(es: Seq<(String, V)>, key: Seq<char>) -> Option<V>
    decreases es.len(),
{
    if es.len() == 0 {
        None
    } else if es[0].0@ == key {
        Some(es[0].1)
    } else {
        lookup(es.drop_first(), key)
    }
}

/// The index of the first entry named `key`.
pub fn position<V>(es: &Vec<(String, V)>, key: &str) -> (r: Option<usize>)
    ensures
        r matches Some(i) ==> i < es@.len() && lookup(es@, key@) == Some(es@[i as int].1),
        r is None ==> lookup(es@, key@) is None,
{
    let k = key.to_owned();
    let n = es.len();
    let mut i: usize = 0;
    assert(es@.subrange(0, n as int) =~= es@);
    while i < n
        invariant
            n == es@.len(),
            i <= n,
            k@ == key@,
            lookup(es@, key@) == lookup(es@.subrange(i as int, n as int), key@),
        decreases n - i,
    {
        let ghost rest = es@.subrange(i as int, n as int);
        assert(rest.drop_first() =~= es@.subrange(i + 1, n as int));
        if es[i].0 == k {
            return Some(i);
        }
        i = i + 1;
    }
    assert(es@.subrange(n as int, n as int).len() == 0);
    None
}

/// `es` holds `n` under `key`.
pub open spec fn has_num(es: Seq<(String, Scalar)>, key: Seq<char>, n: u64) -> bool {
    lookup(es, key) == Some(Scalar::Num(n))
}

/// `es` holds the string `s` under `key`.
pub open spec fn has_string(es: Seq<(String, Scalar)>, key: Seq<char>, s: String) -> bool {
    lookup(es, key) == Some(Scalar::Text(s))
}

/// `es` holds a text spelling `t` under `key`.
pub open spec fn has_text(es: Seq<(String, Scalar)>, key: Seq<char>, t: Seq<char>) -> bool {
    lookup(es, key) matches Some(Scalar::Text(s)) && s@ == t
}

/// The text that `es` holds under `key`, if any.
pub open spec fn text_at(es: Seq<(String, Scalar)>, key: Seq<char>) -> Option<Seq<char>> {
    match lookup(es, key) {
        Some(Scalar::Text(s)) => Some(s@),
        _ => None,
    }
}

} // verus!
