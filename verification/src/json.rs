//! A small JSON value model: scalars, flat records, and the two-level
//! objects that tagged-union encodings produce.
//!
//! The model is layered rather than fully recursive because the encodings in
//! this library only ever produce values of bounded depth: a scalar, a flat
//! record of scalars, or an object whose field values are scalars or flat
//! records.

use vstd::prelude::*;

verus! {

/// A JSON scalar: an integer, a boolean, or a string.
#[derive(Debug, Clone, PartialEq, Eq)]
pub enum Atom {
    Int(i64),
    Bool(bool),
    Str(String),
}

/// Mathematical model of an [`Atom`].
#[verifier::ext_equal]
pub enum AtomV {
    Int(int),
    Bool(bool),
    Str(Seq<char>),
}

impl View for Atom {
    type V = AtomV;

    open spec fn view(&self) -> AtomV {
        match self {
            Atom::Int(i) => AtomV::Int(*i as int),
            Atom::Bool(b) => AtomV::Bool(*b),
            Atom::Str(s) => AtomV::Str(s@),
        }
    }
}

impl Atom {
    /// A structural copy whose model equals this one's.
    pub fn dup(&self) -> (r: Atom)
        ensures
            r@ == self@,
    {
        match self {
            Atom::Int(i) => Atom::Int(*i),
            Atom::Bool(b) => Atom::Bool(*b),
            Atom::Str(s) => Atom::Str(s.clone()),
        }
    }
}

/// The payload of one variant of a tagged union: either a scalar or a flat
/// record of named scalars.
#[derive(Debug, Clone, PartialEq, Eq)]
pub enum Payload {
    Atom(Atom),
    Record(Vec<(String, Atom)>),
}

/// Mathematical model of a [`Payload`].
#[verifier::ext_equal]
pub enum PayloadV {
    Atom(AtomV),
    Record(Seq<(Seq<char>, AtomV)>),
}

/// The model of a record's fields: each name as a character sequence, each
/// value as a scalar model.
pub open spec fn record_view(fields: Seq<(String, Atom)>) -> Seq<(Seq<char>, AtomV)> {
    fields.map_values(|f: (String, Atom)| (f.0@, f.1@))
}

impl View for Payload {
    type V = PayloadV;

    open spec fn view(&self) -> PayloadV {
        match self {
            Payload::Atom(a) => PayloadV::Atom(a@),
            Payload::Record(fields) => PayloadV::Record(record_view(fields@)),
        }
    }
}

impl Payload {
    /// A structural copy whose model equals this one's.
    pub fn dup(&self) -> (r: Payload)
        ensures
            r@ == self@,
    {
        match self {
            Payload::Atom(a) => Payload::Atom(a.dup()),
            Payload::Record(fields) => {
                let mut out: Vec<(String, Atom)> = Vec::new();
                let mut i: usize = 0;
                while i < fields.len()
                    invariant
                        i <= fields.len(),
                        out@.len() == i,
                        record_view(out@) =~= record_view(fields@).take(i as int),
                    decreases fields.len() - i,
                {
                    out.push((fields[i].0.clone(), fields[i].1.dup()));
                    proof {
                        let target = record_view(fields@).take(i as int + 1);
                        let cur = record_view(out@);
                        assert(record_view(fields@).len() == fields@.len());
                        assert(record_view(fields@).take(i as int).len() == i as int);
                        assert(out@.len() == i as int + 1);
                        assert(cur.len() == i as int + 1);
                        assert forall|j: int| 0 <= j <= i as int implies cur[j] == target[j] by {
                            assert(cur[j] == (out@[j].0@, out@[j].1@));
                            assert(target[j] == (fields@[j].0@, fields@[j].1@));
                        }
                        assert(cur =~= target);
                    }
                    i = i + 1;
                }
                proof {
                    assert(record_view(fields@).take(fields@.len() as int) =~= record_view(
                        fields@,
                    ));
                }
                Payload::Record(out)
            },
        }
    }
}

/// An encoded JSON value: a scalar, or an object whose field values are
/// payloads (scalars or flat records).
#[derive(Debug, Clone, PartialEq, Eq)]
pub enum Json {
    Atom(Atom),
    Obj(Vec<(String, Payload)>),
}

/// Mathematical model of a [`Json`] value.
#[verifier::ext_equal]
pub enum JsonV {
    Atom(AtomV),
    Obj(Seq<(Seq<char>, PayloadV)>),
}

/// The model of an object's fields.
pub open spec fn obj_view(fields: Seq<(String, Payload)>) -> Seq<(Seq<char>, PayloadV)> {
    fields.map_values(|f: (String, Payload)| (f.0@, f.1@))
}

impl View for Json {
    type V = JsonV;

    open spec fn view(&self) -> JsonV {
        match self {
            Json::Atom(a) => JsonV::Atom(a@),
            Json::Obj(fields) => JsonV::Obj(obj_view(fields@)),
        }
    }
}

/// Lifts record fields to object fields, wrapping each scalar value as a
/// payload. This is the shape a record takes when it stands alone as a JSON
/// object.
pub open spec fn lift_fields(fields: Seq<(Seq<char>, AtomV)>) -> Seq<(Seq<char>, PayloadV)> {
    fields.map_values(|f: (Seq<char>, AtomV)| (f.0, PayloadV::Atom(f.1)))
}

/// The JSON value a payload denotes on its own: a scalar stays a scalar, a
/// record becomes an object of its fields.
pub open spec fn spec_payload_to_json(p: PayloadV) -> JsonV {
    match p {
        PayloadV::Atom(a) => JsonV::Atom(a),
        PayloadV::Record(fields) => JsonV::Obj(lift_fields(fields)),
    }
}

/// Turns a payload into the JSON value it denotes on its own.
pub fn payload_to_json(p: Payload) -> (r: Json)
    ensures
        r@ == spec_payload_to_json(p@),
{
    match p {
        Payload::Atom(a) => Json::Atom(a),
        Payload::Record(fields) => {
            let mut out: Vec<(String, Payload)> = Vec::new();
            let mut i: usize = 0;
            while i < fields.len()
                invariant
                    i <= fields.len(),
                    out@.len() == i,
                    obj_view(out@) =~= lift_fields(record_view(fields@)).take(i as int),
                decreases fields.len() - i,
            {
                out.push((fields[i].0.clone(), Payload::Atom(fields[i].1.dup())));
                proof {
                    let target = lift_fields(record_view(fields@)).take(i as int + 1);
                    let cur = obj_view(out@);
                    assert(record_view(fields@).len() == fields@.len());
                    assert(lift_fields(record_view(fields@)).len() == fields@.len());
                    assert(out@.len() == i as int + 1);
                    assert(cur.len() == i as int + 1);
                    assert forall|j: int| 0 <= j <= i as int implies cur[j] == target[j] by {
                        assert(cur[j] == (out@[j].0@, out@[j].1@));
                        assert(target[j] == (fields@[j].0@, PayloadV::Atom(fields@[j].1@)));
                    }
                    assert(cur =~= target);
                }
                i = i + 1;
            }
            proof {
                assert(lift_fields(record_view(fields@)).take(fields@.len() as int)
                    =~= lift_fields(record_view(fields@)));
            }
            Json::Obj(out)
        },
    }
}

} // verus!
