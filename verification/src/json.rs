//! A plain model of JSON values, holding exactly what the core logic reads of
//! them: whether a value is an object, and the string-to-string pairs of an
//! object used as an HTTP header map.

use vstd::prelude::*;

verus! {

/// A JSON value. Objects keep their members as a list of pairs, in order of
/// appearance.
#[derive(Debug)]
pub enum JsonValue {
    Null,
    Bool(bool),
    Int(i64),
    Str(String),
    Array(Vec<JsonValue>),
    Object(Vec<(String, JsonValue)>),
}

impl JsonValue {
    /// Whether the value is an object.
    pub open spec fn is_object_spec(&self) -> bool {
        self is Object
    }

    /// Whether the value is an object.
    pub fn is_object(&self) -> (r: bool)
        ensures
            r == self.is_object_spec(),
    {
        match self {
            JsonValue::Object(_) => true,
            _ => false,
        }
    }

    /// The header map an object stands for: `Some` iff the value is an object
    /// and every member is a string, giving the members as (name, value) pairs.
    pub open spec fn headers_spec(&self) -> Option<Seq<(Seq<char>, Seq<char>)>> {
        match self {
            JsonValue::Object(members) => {
                if forall|i: int|
                    0 <= i < members@.len() ==> (#[trigger] members@[i].1) is Str {
                    Some(
                        members@.map_values(
                            |m: (String, JsonValue)| (m.0@, m.1->Str_0@),
                        ),
                    )
                } else {
                    None
                }
            },
            _ => None,
        }
    }

    /// Extract the header map of an object whose members are all strings.
    pub fn headers(&self) -> (r: Option<Vec<(String, String)>>)
        ensures
            r is Some <==> self.headers_spec() is Some,
            r is Some ==> pair_views(r.unwrap()@) == self.headers_spec().unwrap(),
    {
        match self {
            JsonValue::Object(members) => {
                let mut out: Vec<(String, String)> = Vec::new();
                let mut i: usize = 0;
                while i < members.len()
                    invariant
                        *self is Object,
                        (*self)->Object_0@ == members@,
                        0 <= i <= members@.len(),
                        forall|j: int| 0 <= j < i ==> (#[trigger] members@[j].1) is Str,
                        out@.len() == i,
                        forall|j: int|
                            0 <= j < i ==> (#[trigger] out@[j]).0@ == members@[j].0@
                                && out@[j].1@ == members@[j].1->Str_0@,
                    decreases members@.len() - i,
                {
                    let member = &members[i];
                    match &member.1 {
                        JsonValue::Str(s) => {
                            out.push((clone_string(&member.0), clone_string(s)));
                        },
                        _ => {
                            proof {
                                let k = i as int;
                                let mseq = (*self)->Object_0@;
                                assert(mseq == members@);
                                assert(mseq[k].1 !is Str);
                                assert(!(forall|j: int|
                                    0 <= j < mseq.len() ==> (#[trigger] mseq[j].1) is Str));
                                assert(self.headers_spec() is None);
                            }
                            return None;
                        },
                    }
                    i = i + 1;
                }
                proof {
                    let mapped = members@.map_values(
                        |m: (String, JsonValue)| (m.0@, m.1->Str_0@),
                    );
                    let got = pair_views(out@);
                    assert(got =~= mapped);
                }
                Some(out)
            },
            _ => None,
        }
    }
}

/// The character views of a list of string pairs.
pub open spec fn pair_views(pairs: Seq<(String, String)>) -> Seq<(Seq<char>, Seq<char>)> {
    pairs.map_values(|p: (String, String)| (p.0@, p.1@))
}

/// Clone a string, keeping its characters.
pub fn clone_string(s: &String) -> (r: String)
    ensures
        r == *s,
{
    s.clone()
}

} // verus!
