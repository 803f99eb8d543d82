//! An in-memory JSON value tree, with a mathematical mirror used in
//! specifications.

use vstd::prelude::*;

verus! {

broadcast use vstd::std_specs::vec::axiom_vec_index_decreases;

/// Mathematical mirror of a JSON value: what contracts and lemmas speak of.
#[verifier::ext_equal]
pub enum JsonV {
    Null,
    Bool(bool),
    Int(int),
    Str(Seq<char>),
    Arr(Seq<JsonV>),
    Obj(Seq<(Seq<char>, JsonV)>),
}

/// An executable JSON value. Objects keep their members in insertion order.
pub enum Json {
    Null,
    Bool(bool),
    Int(i64),
    Str(String),
    Arr(Vec<Json>),
    Obj(Vec<(String, Json)>),
}

impl DeepView for Json {
    type V = JsonV;

    open spec fn deep_view(&self) -> JsonV
        decreases self,
    {
        match self {
            Json::Null => JsonV::Null,
            Json::Bool(b) => JsonV::Bool(*b),
            Json::Int(n) => JsonV::Int(*n as int),
            Json::Str(s) => JsonV::Str(s@),
            Json::Arr(v) => JsonV::Arr(arr_view(v@)),
            Json::Obj(m) => JsonV::Obj(obj_view(m@)),
        }
    }
}

/// The element-wise deep view of a sequence of JSON values.
pub open spec fn arr_view(s: Seq<Json>) -> Seq<JsonV>
    decreases s,
{
    if s.len() == 0 {
        Seq::empty()
    } else {
        seq![s[0].deep_view()] + arr_view(s.subrange(1, s.len() as int))
    }
}

/// The member-wise deep view of a sequence of JSON object members.
pub open spec fn obj_view(s: Seq<(String, Json)>) -> Seq<(Seq<char>, JsonV)>
    decreases s,
{
    if s.len() == 0 {
        Seq::empty()
    } else {
        seq![(s[0].0@, s[0].1.deep_view())] + obj_view(s.subrange(1, s.len() as int))
    }
}

pub broadcast proof fn lemma_arr_view(s: Seq<Json>)
    ensures
        (#[trigger] arr_view(s)).len() == s.len(),
        forall|i: int|
            #![trigger arr_view(s)[i]]
            #![trigger s[i].deep_view()]
            0 <= i < s.len() ==> arr_view(s)[i] == s[i].deep_view(),
    decreases s.len(),
{
    if s.len() > 0 {
        let rest = s.subrange(1, s.len() as int);
        lemma_arr_view(rest);
        assert(arr_view(s) == seq![s[0].deep_view()] + arr_view(rest));
        assert forall|i: int|
            #![trigger arr_view(s)[i]]
            #![trigger s[i].deep_view()]
            0 <= i < s.len() implies arr_view(s)[i] == s[i].deep_view() by {
            if i > 0 {
                assert(rest[i - 1] == s[i]);
            }
        }
    }
}

pub broadcast proof fn lemma_obj_view(s: Seq<(String, Json)>)
    ensures
        (#[trigger] obj_view(s)).len() == s.len(),
        forall|i: int|
            #![trigger obj_view(s)[i]]
            #![trigger s[i].1.deep_view()]
            0 <= i < s.len() ==> obj_view(s)[i] == (s[i].0@, s[i].1.deep_view()),
    decreases s.len(),
{
    if s.len() > 0 {
        let rest = s.subrange(1, s.len() as int);
        lemma_obj_view(rest);
        assert(obj_view(s) == seq![(s[0].0@, s[0].1.deep_view())] + obj_view(rest));
        assert forall|i: int|
            #![trigger obj_view(s)[i]]
            #![trigger s[i].1.deep_view()]
            0 <= i < s.len() implies obj_view(s)[i] == (s[i].0@, s[i].1.deep_view()) by {
            if i > 0 {
                assert(rest[i - 1] == s[i]);
            }
        }
    }
}

/// Whether the string `s` holds exactly the text of `lit`.
pub(crate) fn str_is(s: &String, lit: &str) -> (r: bool)
    ensures
        r == (s@ == lit@),
{
    *s == lit.to_owned()
}


/// The deep view of a vector of JSON values is its element-wise view.
pub broadcast proof fn lemma_vec_json_view(v: Vec<Json>)
    ensures
        #[trigger] arr_view(v@) == v.deep_view(),
{
    lemma_arr_view(v@);
    assert(arr_view(v@) =~= v.deep_view());
}

/// The deep view of a member vector is its member-wise view.
pub broadcast proof fn lemma_vec_members_view(v: Vec<(String, Json)>)
    ensures
        #[trigger] obj_view(v@) == v.deep_view(),
{
    lemma_obj_view(v@);
    assert(obj_view(v@) =~= v.deep_view());
}

impl Json {
    /// A structurally equal copy of this value.
    #[verifier::loop_isolation(false)]
    pub fn duplicate(&self) -> (r: Json)
        ensures
            r.deep_view() == self.deep_view(),
        decreases self,
    {
        broadcast use lemma_arr_view, lemma_obj_view;

        match self {
            Json::Null => Json::Null,
            Json::Bool(b) => Json::Bool(*b),
            Json::Int(n) => Json::Int(*n),
            Json::Str(s) => Json::Str(s.clone()),
            Json::Arr(v) => {
                let mut out: Vec<Json> = Vec::new();
                let mut k: usize = 0;
                while k < v.len()
                    invariant
                        out@.len() == k,
                        0 <= k <= v@.len(),
                        forall|t: int|
                            0 <= t < k ==> (#[trigger] out@[t]).deep_view() == v@[t].deep_view(),
                    decreases v@.len() - k,
                {
                    proof {
                        assert(*self == Json::Arr(*v));
                        assert(decreases_to!(*self => self->Arr_0));
                        assert(decreases_to!(*v => v@[k as int]));
                    }
                    let e = v[k].duplicate();
                    out.push(e);
                    k = k + 1;
                }
                proof {
                    assert(arr_view(out@) =~= arr_view(v@));
                }
                Json::Arr(out)
            },
            Json::Obj(m) => {
                let mut out: Vec<(String, Json)> = Vec::new();
                let mut k: usize = 0;
                while k < m.len()
                    invariant
                        out@.len() == k,
                        0 <= k <= m@.len(),
                        forall|t: int|
                            0 <= t < k ==> (#[trigger] out@[t]).0@ == m@[t].0@ && out@[t].1.deep_view()
                                == m@[t].1.deep_view(),
                    decreases m@.len() - k,
                {
                    proof {
                        assert(*self == Json::Obj(*m));
                        assert(decreases_to!(*self => self->Obj_0));
                        assert(decreases_to!(*m => m@[k as int]));
                        assert(decreases_to!(m@[k as int] => m@[k as int].1));
                    }
                    let key = m[k].0.clone();
                    let val = m[k].1.duplicate();
                    out.push((key, val));
                    k = k + 1;
                }
                proof {
                    assert(obj_view(out@) =~= obj_view(m@));
                }
                Json::Obj(out)
            },
        }
    }
}

} // verus!
