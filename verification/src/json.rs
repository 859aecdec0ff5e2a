use vstd::prelude::*;

verus! {

/// A JSON tree, as the transport hands it to the extraction pipeline.
///
/// Numbers are kept only when they are integers: the API fields this library
/// reads (page ids, view counts) are integral, and a non-integral number in
/// their place is a type mismatch.  An object keeps its members in response
/// order; lookup takes the first member with the requested key.
#[derive(Debug)]
pub enum Json {
    Null,
    Bool(bool),
    Int(i64),
    Str(String),
    Arr(Vec<Json>),
    Obj(Vec<(String, Json)>),
}

/// The first value in `entries` whose key reads `key`, if any.
pub open spec fn lookup_entries(entries: Seq<(String, Json)>, key: Seq<char>) -> Option<Json>
    decreases entries.len(),
{
    if entries.len() == 0 {
        None
    } else if entries[0].0@ == key {
        Some(entries[0].1)
    } else {
        lookup_entries(entries.drop_first(), key)
    }
}

impl Json {
    /// The member of this object named `key`; `None` when this is not an
    /// object or no member has that key.
    pub open spec fn spec_get(self, key: Seq<char>) -> Option<Json> {
        match self {
            Json::Obj(entries) => lookup_entries(entries@, key),
            _ => None,
        }
    }

    /// Defensive member access: never fails, returns `None` on any shape
    /// other than an object containing `key`.
    pub fn get<'a>(&'a self, key: &str) -> (r: Option<&'a Json>)
        ensures
            match r {
                Some(v) => self.spec_get(key@) == Some(*v),
                None => self.spec_get(key@) is None,
            },
    {
        match self {
            Json::Obj(entries) => {
                let key_string = String::from_str(key);
                let n = entries.len();
                let mut i: usize = 0;
                proof {
                    assert(entries@.skip(0) =~= entries@);
                }
                while i < n
                    invariant
                        i <= n,
                        n == entries@.len(),
                        *self == Json::Obj(*entries),
                        key_string@ == key@,
                        lookup_entries(entries@, key@) == lookup_entries(
                            entries@.skip(i as int),
                            key@,
                        ),
                        forall|j: int| 0 <= j < i ==> entries@[j].0@ != key@,
                    decreases n - i,
                {
                    if entries[i].0 == key_string {
                        proof {
                            assert(entries@.skip(i as int)[0] == entries@[i as int]);
                            assert(lookup_entries(entries@.skip(i as int), key@) == Some(
                                entries@[i as int].1,
                            ));
                            assert(self.spec_get(key@) == Some(entries@[i as int].1));
                        }
                        return Some(&entries[i].1);
                    }
                    proof {
                        assert(entries@.skip(i as int).drop_first() =~= entries@.skip(
                            i as int + 1,
                        ));
                    }
                    i = i + 1;
                }
                None
            },
            _ => None,
        }
    }

    /// The borrowed string when this is a JSON string.
    pub fn as_str<'a>(&'a self) -> (r: Option<&'a String>)
        ensures
            match r {
                Some(s) => *self == Json::Str(*s),
                None => !(self is Str),
            },
    {
        match self {
            Json::Str(s) => Some(s),
            _ => None,
        }
    }

    /// The integer when this is a JSON (integral) number.
    pub fn as_i64(&self) -> (r: Option<i64>)
        ensures
            match r {
                Some(n) => *self == Json::Int(n),
                None => !(self is Int),
            },
    {
        match self {
            Json::Int(n) => Some(*n),
            _ => None,
        }
    }

    /// The borrowed element list when this is a JSON array.
    pub fn as_array<'a>(&'a self) -> (r: Option<&'a Vec<Json>>)
        ensures
            match r {
                Some(v) => *self == Json::Arr(*v),
                None => !(self is Arr),
            },
    {
        match self {
            Json::Arr(v) => Some(v),
            _ => None,
        }
    }

    /// The borrowed member list when this is a JSON object.
    pub fn as_object<'a>(&'a self) -> (r: Option<&'a Vec<(String, Json)>>)
        ensures
            match r {
                Some(v) => *self == Json::Obj(*v),
                None => !(self is Obj),
            },
    {
        match self {
            Json::Obj(v) => Some(v),
            _ => None,
        }
    }
}

} // verus!
