//! A structured model of the JSON wire format.
//!
//! Every request body the client sends and every response body it reads
//! is a tree of these values; the surrounding program is responsible only
//! for moving such trees to and from raw bytes.

use vstd::prelude::*;

verus! {

/// A JSON document. Numbers are restricted to integers: no field of the
/// remote service's schema carries a fractional value.
#[derive(Debug, PartialEq)]
pub enum JsonValue {
    Null,
    Bool(bool),
    Num(i64),
    Str(String),
    Arr(Vec<JsonValue>),
    Obj(Vec<(String, JsonValue)>),
}

/// The mathematical shape of a JSON document.
pub ghost enum JsonView {
    Null,
    Bool(bool),
    Num(i64),
    Str(Seq<char>),
    Arr(Seq<JsonView>),
    Obj(Seq<(Seq<char>, JsonView)>),
}

pub open spec fn view_of_json(v: JsonValue) -> JsonView
    decreases v,
{
    match v {
        JsonValue::Null => JsonView::Null,
        JsonValue::Bool(b) => JsonView::Bool(b),
        JsonValue::Num(n) => JsonView::Num(n),
        JsonValue::Str(s) => JsonView::Str(s@),
        JsonValue::Arr(vs) => JsonView::Arr(view_of_json_seq(vs@)),
        JsonValue::Obj(fs) => JsonView::Obj(view_of_json_fields(fs@)),
    }
}

pub open spec fn view_of_json_seq(vs: Seq<JsonValue>) -> Seq<JsonView>
    decreases vs,
{
    if vs.len() == 0 {
        Seq::empty()
    } else {
        view_of_json_seq(vs.drop_last()).push(view_of_json(vs.last()))
    }
}

pub open spec fn view_of_json_fields(fs: Seq<(String, JsonValue)>) -> Seq<(Seq<char>, JsonView)>
    decreases fs,
{
    if fs.len() == 0 {
        Seq::empty()
    } else {
        view_of_json_fields(fs.drop_last()).push((fs.last().0@, view_of_json(fs.last().1)))
    }
}

pub proof fn lemma_view_of_json_seq(vs: Seq<JsonValue>)
    ensures
        view_of_json_seq(vs).len() == vs.len(),
        forall|i: int| 0 <= i < vs.len() ==> view_of_json_seq(vs)[i] == view_of_json(vs[i]),
    decreases vs.len(),
{
    if vs.len() > 0 {
        lemma_view_of_json_seq(vs.drop_last());
    }
}

pub proof fn lemma_view_of_json_fields(fs: Seq<(String, JsonValue)>)
    ensures
        view_of_json_fields(fs).len() == fs.len(),
        forall|i: int| 0 <= i < fs.len() ==> view_of_json_fields(fs)[i] == (fs[i].0@, view_of_json(
            fs[i].1,
        )),
    decreases fs.len(),
{
    if fs.len() > 0 {
        lemma_view_of_json_fields(fs.drop_last());
    }
}

impl View for JsonValue {
    type V = JsonView;

    open spec fn view(&self) -> JsonView {
        view_of_json(*self)
    }
}

impl DeepView for JsonValue {
    type V = JsonView;

    open spec fn deep_view(&self) -> JsonView {
        view_of_json(*self)
    }
}

/// The value of the first field named `key`, if any.
pub open spec fn obj_get(fields: Seq<(Seq<char>, JsonView)>, key: Seq<char>) -> Option<JsonView>
    decreases fields.len(),
{
    if fields.len() == 0 {
        None
    } else if fields[0].0 == key {
        Some(fields[0].1)
    } else {
        obj_get(fields.drop_first(), key)
    }
}

impl JsonValue {
    /// The value of the first field named `key` of an object, if any.
    pub fn lookup<'a>(fields: &'a Vec<(String, JsonValue)>, key: &String) -> (r: Option<
        &'a JsonValue,
    >)
        ensures
            match r {
                Some(v) => obj_get(view_of_json_fields(fields@), key@) == Some(v@),
                None => obj_get(view_of_json_fields(fields@), key@) is None,
            },
    {
        proof {
            lemma_view_of_json_fields(fields@);
            assert(view_of_json_fields(fields@).skip(0) =~= view_of_json_fields(fields@));
        }
        let mut i: usize = 0;
        while i < fields.len()
            invariant
                0 <= i <= fields.len(),
                obj_get(view_of_json_fields(fields@), key@) == obj_get(
                    view_of_json_fields(fields@).skip(i as int),
                    key@,
                ),
                view_of_json_fields(fields@).len() == fields@.len(),
                forall|j: int| 0 <= j < fields@.len() ==> view_of_json_fields(fields@)[j] == (
                fields@[j].0@, view_of_json(fields@[j].1)),
            decreases fields.len() - i,
        {
            let hit = fields[i].0 == *key;
            proof {
                let rest = view_of_json_fields(fields@).skip(i as int);
                assert(rest.len() == fields@.len() - i);
                assert(rest[0] == (fields@[i as int].0@, view_of_json(fields@[i as int].1)));
                if fields@[i as int].0@ == key@ {
                    assert(obj_get(rest, key@) == Some(rest[0].1));
                } else {
                    assert(rest.drop_first() =~= view_of_json_fields(fields@).skip(i + 1));
                    assert(obj_get(rest, key@) == obj_get(rest.drop_first(), key@));
                }
            }
            if hit {
                return Some(&fields[i].1);
            }
            i = i + 1;
        }
        proof {
            assert(view_of_json_fields(fields@).skip(i as int) =~= Seq::empty());
        }
        None
    }

    /// A deep copy whose mathematical value is unchanged.
    #[verifier::loop_isolation(false)]
    pub fn duplicate(&self) -> (r: JsonValue)
        ensures
            r@ == self@,
        decreases self,
    {
        match self {
            JsonValue::Null => JsonValue::Null,
            JsonValue::Bool(b) => JsonValue::Bool(*b),
            JsonValue::Num(n) => JsonValue::Num(*n),
            JsonValue::Str(s) => JsonValue::Str(s.clone()),
            JsonValue::Arr(vs) => {
                let mut out: Vec<JsonValue> = Vec::new();
                let mut i: usize = 0;
                while i < vs.len()
                    invariant
                        0 <= i <= vs.len(),
                        out@.len() == i,
                        forall|j: int| 0 <= j < i ==> out@[j]@ == vs@[j]@,
                    decreases vs.len() - i,
                {
                    proof {
                        assert(decreases_to!(*self => (*self)->Arr_0));
                        assert(decreases_to!((*self)->Arr_0 => (*self)->Arr_0@));
                        assert(decreases_to!((*self)->Arr_0@ => (*self)->Arr_0@[i as int]));
                        assert(vs@ == (*self)->Arr_0@);
                        assert(decreases_to!(*self => vs@[i as int]));
                    }
                    let c = vs[i].duplicate();
                    out.push(c);
                    i = i + 1;
                }
                proof {
                    lemma_view_of_json_seq(out@);
                    lemma_view_of_json_seq(vs@);
                    assert(view_of_json_seq(out@) =~= view_of_json_seq(
                        vs@,
                    ));
                }
                JsonValue::Arr(out)
            },
            JsonValue::Obj(fs) => {
                let mut out: Vec<(String, JsonValue)> = Vec::new();
                let mut i: usize = 0;
                while i < fs.len()
                    invariant
                        0 <= i <= fs.len(),
                        out@.len() == i,
                        forall|j: int| 0 <= j < i ==> out@[j].0@ == fs@[j].0@ && out@[j].1@
                            == fs@[j].1@,
                    decreases fs.len() - i,
                {
                    proof {
                        assert(decreases_to!(*self => (*self)->Obj_0));
                        assert(decreases_to!((*self)->Obj_0 => (*self)->Obj_0@));
                        assert(decreases_to!((*self)->Obj_0@ => (*self)->Obj_0@[i as int]));
                        assert(decreases_to!((*self)->Obj_0@[i as int] => (*self)->Obj_0@[i
                            as int].1));
                        assert(fs@ == (*self)->Obj_0@);
                        assert(decreases_to!(*self => fs@[i as int].1));
                    }
                    let k = fs[i].0.clone();
                    let c = fs[i].1.duplicate();
                    out.push((k, c));
                    i = i + 1;
                }
                proof {
                    lemma_view_of_json_fields(out@);
                    lemma_view_of_json_fields(fs@);
                    assert(view_of_json_fields(out@)
                        =~= view_of_json_fields(fs@));
                }
                JsonValue::Obj(out)
            },
        }
    }
}

} // verus!
