//! The job description: an ordered list of named, typed parameters, with
//! typed lookup.  A lookup finds the first parameter carrying the requested
//! identifier; it yields a value only when that parameter has the requested
//! type.

use vstd::prelude::*;
use crate::text::str_eq;

verus! {

/// One typed parameter value.
pub enum ParamValue {
    Text(String),
    Flag(bool),
    TextList(Vec<String>),
}

/// The mathematical shape of a `ParamValue`.
pub enum ValueV {
    Text(Seq<char>),
    Flag(bool),
    TextList(Seq<Seq<char>>),
}

/// The views of a sequence of strings.
pub open spec fn str_views(v: Seq<String>) -> Seq<Seq<char>> {
    v.map_values(|s: String| s@)
}

impl View for ParamValue {
    type V = ValueV;

    open spec fn view(&self) -> ValueV {
        match self {
            ParamValue::Text(s) => ValueV::Text(s@),
            ParamValue::Flag(b) => ValueV::Flag(*b),
            ParamValue::TextList(l) => ValueV::TextList(str_views(l@)),
        }
    }
}

/// A named, typed job parameter.
pub struct Param {
    pub id: String,
    pub value: ParamValue,
}

/// The mathematical shape of a `Param`.
pub struct ParamV {
    pub id: Seq<char>,
    pub value: ValueV,
}

impl View for Param {
    type V = ParamV;

    open spec fn view(&self) -> ParamV {
        ParamV { id: self.id@, value: self.value@ }
    }
}

/// The views of a sequence of parameters.
pub open spec fn param_views(v: Seq<Param>) -> Seq<ParamV> {
    v.map_values(|p: Param| p@)
}

/// The job description handed in by the dispatcher.  It is read-only for the
/// duration of one job.
pub struct JobSpec {
    pub parameters: Vec<Param>,
}

impl View for JobSpec {
    type V = Seq<ParamV>;

    open spec fn view(&self) -> Seq<ParamV> {
        param_views(self.parameters@)
    }
}

/// The value of the first parameter named `key`, if any.
pub open spec fn find_value(params: Seq<ParamV>, key: Seq<char>) -> Option<ValueV>
    decreases params.len(),
{
    if params.len() == 0 {
        None
    } else if params[0].id == key {
        Some(params[0].value)
    } else {
        find_value(params.drop_first(), key)
    }
}

/// The text of the first parameter named `key`, when that parameter is text.
pub open spec fn string_param(job: Seq<ParamV>, key: Seq<char>) -> Option<Seq<char>> {
    match find_value(job, key) {
        Some(ValueV::Text(s)) => Some(s),
        _ => None,
    }
}

/// The flag of the first parameter named `key`, when that parameter is a flag.
pub open spec fn bool_param(job: Seq<ParamV>, key: Seq<char>) -> Option<bool> {
    match find_value(job, key) {
        Some(ValueV::Flag(b)) => Some(b),
        _ => None,
    }
}

/// The list of the first parameter named `key`, when that parameter is a list.
pub open spec fn list_param(job: Seq<ParamV>, key: Seq<char>) -> Option<Seq<Seq<char>>> {
    match find_value(job, key) {
        Some(ValueV::TextList(l)) => Some(l),
        _ => None,
    }
}

proof fn lemma_find_value_step(params: Seq<ParamV>, key: Seq<char>, i: int)
    requires
        0 <= i < params.len(),
        find_value(params.skip(i), key) == find_value(params, key),
        params[i].id != key,
    ensures
        find_value(params.skip(i + 1), key) == find_value(params, key),
{
    assert(params.skip(i)[0] == params[i]);
    assert(params.skip(i).drop_first() =~= params.skip(i + 1));
}

impl JobSpec {
    /// The text value of the parameter named `key`, if one is present.
    pub fn get_string_parameter(&self, key: &str) -> (r: Option<String>)
        ensures
            match r {
                Some(s) => string_param(self@, key@) == Some(s@),
                None => string_param(self@, key@) is None,
            },
    {
        let n = self.parameters.len();
        let mut i: usize = 0;
        proof {
            assert(self@.skip(0) =~= self@);
        }
        while i < n
            invariant
                i <= n,
                n == self.parameters.len(),
                self@.len() == n,
                find_value(self@.skip(i as int), key@) == find_value(self@, key@),
                forall|j: int| 0 <= j < i ==> self@[j].id != key@,
            decreases n - i,
        {
            let p = &self.parameters[i];
            proof {
                assert(self@[i as int] == self.parameters@[i as int]@);
            }
            if str_eq(p.id.as_str(), key) {
                proof {
                    assert(self@.skip(i as int)[0] == self@[i as int]);
                }
                return match &p.value {
                    ParamValue::Text(s) => Some(s.clone()),
                    _ => None,
                };
            }
            proof {
                lemma_find_value_step(self@, key@, i as int);
            }
            i += 1;
        }
        proof {
            assert(self@.skip(n as int) =~= Seq::<ParamV>::empty());
        }
        None
    }

    /// The flag value of the parameter named `key`, if one is present.
    pub fn get_boolean_parameter(&self, key: &str) -> (r: Option<bool>)
        ensures
            r == bool_param(self@, key@),
    {
        let n = self.parameters.len();
        let mut i: usize = 0;
        proof {
            assert(self@.skip(0) =~= self@);
        }
        while i < n
            invariant
                i <= n,
                n == self.parameters.len(),
                self@.len() == n,
                find_value(self@.skip(i as int), key@) == find_value(self@, key@),
            decreases n - i,
        {
            let p = &self.parameters[i];
            proof {
                assert(self@[i as int] == self.parameters@[i as int]@);
            }
            if str_eq(p.id.as_str(), key) {
                proof {
                    assert(self@.skip(i as int)[0] == self@[i as int]);
                }
                return match &p.value {
                    ParamValue::Flag(b) => Some(*b),
                    _ => None,
                };
            }
            proof {
                lemma_find_value_step(self@, key@, i as int);
            }
            i += 1;
        }
        proof {
            assert(self@.skip(n as int) =~= Seq::<ParamV>::empty());
        }
        None
    }

    /// The list value of the parameter named `key`, if one is present.
    pub fn get_array_of_strings_parameter(&self, key: &str) -> (r: Option<Vec<String>>)
        ensures
            match r {
                Some(l) => list_param(self@, key@) == Some(str_views(l@)),
                None => list_param(self@, key@) is None,
            },
    {
        let n = self.parameters.len();
        let mut i: usize = 0;
        proof {
            assert(self@.skip(0) =~= self@);
        }
        while i < n
            invariant
                i <= n,
                n == self.parameters.len(),
                self@.len() == n,
                find_value(self@.skip(i as int), key@) == find_value(self@, key@),
            decreases n - i,
        {
            let p = &self.parameters[i];
            proof {
                assert(self@[i as int] == self.parameters@[i as int]@);
            }
            if str_eq(p.id.as_str(), key) {
                proof {
                    assert(self@.skip(i as int)[0] == self@[i as int]);
                }
                return match &p.value {
                    ParamValue::TextList(l) => {
                        let c = l.clone();
                        proof {
                            assert(str_views(c@) =~= str_views(l@));
                        }
                        Some(c)
                    },
                    _ => None,
                };
            }
            proof {
                lemma_find_value_step(self@, key@, i as int);
            }
            i += 1;
        }
        proof {
            assert(self@.skip(n as int) =~= Seq::<ParamV>::empty());
        }
        None
    }
}

} // verus!
