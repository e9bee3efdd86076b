use vstd::prelude::*;
use crate::text::str_eq;

verus! {

/// A JSON document, as `nix` prints it with `--json`.
#[derive(Debug)]
pub enum Json {
    Null,
    Bool(bool),
    /// A number, kept in the text form it was written in.
    Number(String),
    Str(String),
    Array(Vec<Json>),
    /// An object's members, in order.
    Object(Vec<(String, Json)>),
}


/// The value of the first member named `key`.
pub open spec fn first_member(members: Seq<(String, Json)>, key: Seq<char>) -> Option<Json>
    decreases members.len(),
{
    if members.len() == 0 {
        None
    } else if members[0].0@ == key {
        Some(members[0].1)
    } else {
        first_member(members.drop_first(), key)
    }
}

proof fn lemma_first_member_skip(members: Seq<(String, Json)>, key: Seq<char>, i: int)
    requires
        0 <= i <= members.len(),
        forall|j: int| 0 <= j < i ==> #[trigger] members[j].0@ != key,
    ensures
        first_member(members, key) == first_member(members.skip(i), key),
    decreases i,
{
    if i == 0 {
        assert(members.skip(0) =~= members);
    } else {
        assert forall|j: int| 0 <= j < i - 1 implies #[trigger] members.drop_first()[j].0@ != key by {
            assert(members.drop_first()[j] == members[j + 1]);
        }
        lemma_first_member_skip(members.drop_first(), key, i - 1);
        assert(members.drop_first().skip(i - 1) =~= members.skip(i));
    }
}

/// The member `key` of an object; nothing for other values.
pub open spec fn json_get(j: Json, key: Seq<char>) -> Option<Json> {
    match j {
        Json::Object(m) => first_member(m@, key),
        _ => None,
    }
}

/// The boolean a value holds, if it is one.
pub open spec fn json_bool(j: Option<Json>) -> Option<bool> {
    match j {
        Some(Json::Bool(b)) => Some(b),
        _ => None,
    }
}

impl Json {
    /// The member `key` of an object.
    pub fn get(&self, key: &str) -> (r: Option<&Json>)
        ensures
            match r {
                Some(v) => json_get(*self, key@) == Some(*v),
                None => json_get(*self, key@) is None,
            },
    {
        match self {
            Json::Object(members) => {
                for i in 0..members.len()
                    invariant
                        *self == Json::Object(*members),
                        forall|j: int| 0 <= j < i ==> #[trigger] members@[j].0@ != key@,
                {
                    if str_eq(members[i].0.as_str(), key) {
                        proof {
                            lemma_first_member_skip(members@, key@, i as int);
                            assert(members@.skip(i as int)[0] == members@[i as int]);
                        }
                        return Some(&members[i].1);
                    }
                }
                proof {
                    lemma_first_member_skip(members@, key@, members@.len() as int);
                }
                None
            },
            _ => None,
        }
    }

    pub fn as_bool(&self) -> (r: Option<bool>)
        ensures
            r == json_bool(Some(*self)),
    {
        match self {
            Json::Bool(b) => Some(*b),
            _ => None,
        }
    }

    pub fn as_str(&self) -> (r: Option<&String>)
        ensures
            match r {
                Some(s) => *self == Json::Str(*s),
                None => !(*self is Str),
            },
    {
        match self {
            Json::Str(s) => Some(s),
            _ => None,
        }
    }

    pub fn as_object(&self) -> (r: Option<&Vec<(String, Json)>>)
        ensures
            match r {
                Some(m) => *self == Json::Object(*m),
                None => !(*self is Object),
            },
    {
        match self {
            Json::Object(m) => Some(m),
            _ => None,
        }
    }
}

} // verus!
