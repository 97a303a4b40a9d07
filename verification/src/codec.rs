//! One parameterized encoder for a closed set of alternative value kinds: a
//! (kind, payload) pair is turned into a JSON value under a serialization
//! policy, and a decoder recovers the pair where the policy records it.

use vstd::prelude::*;
use crate::json::Atom;
use crate::json::AtomV;
use crate::json::Json;
use crate::json::JsonV;
use crate::json::Payload;
use crate::json::PayloadV;
use crate::json::lift_fields;
use crate::json::obj_view;
use crate::json::payload_to_json;
use crate::json::record_view;
use crate::json::spec_payload_to_json;

verus! {

/// How the kind of a variant is recorded in its encoding.
#[derive(Debug, Clone, PartialEq, Eq)]
pub enum Policy {
    /// The bare payload; the kind is left to be inferred from the JSON type.
    Untagged,
    /// A single-field object whose field name is the kind.
    External,
    /// An object with the kind under `tag` and the payload under `content`.
    Internal { tag: String, content: String },
    /// The payload's own fields with the kind added under `tag` at the same
    /// level; the payload must be a record.
    Flattened { tag: String },
}

/// Mathematical model of a [`Policy`].
#[verifier::ext_equal]
pub enum PolicyV {
    Untagged,
    External,
    Internal { tag: Seq<char>, content: Seq<char> },
    Flattened { tag: Seq<char> },
}

impl View for Policy {
    type V = PolicyV;

    open spec fn view(&self) -> PolicyV {
        match self {
            Policy::Untagged => PolicyV::Untagged,
            Policy::External => PolicyV::External,
            Policy::Internal { tag, content } => PolicyV::Internal {
                tag: tag@,
                content: content@,
            },
            Policy::Flattened { tag } => PolicyV::Flattened { tag: tag@ },
        }
    }
}

/// A policy is well formed when the field names it introduces cannot collide
/// with each other inside one object.
pub open spec fn policy_wf(p: PolicyV) -> bool {
    match p {
        PolicyV::Internal { tag, content } => tag != content,
        _ => true,
    }
}

/// Why an encoding can fail.
#[derive(Debug, Clone, Copy, PartialEq, Eq)]
pub enum EncodeError {
    /// A flattened tag needs a record payload to merge into, not a scalar.
    ScalarFlattened,
}

/// Why a decoding can fail.
#[derive(Debug, Clone, Copy, PartialEq, Eq)]
pub enum DecodeError {
    /// The untagged policy records no kind, so nothing can be recovered.
    UntaggedPolicy,
    /// The value does not have the shape the policy encodes to.
    Mismatch,
}

/// The encoding of a (kind, payload) pair under a policy, or `None` where
/// the policy does not apply (a flattened tag on a scalar payload).
pub open spec fn spec_encode(p: PolicyV, kind: Seq<char>, payload: PayloadV) -> Option<JsonV> {
    match p {
        PolicyV::Untagged => Some(spec_payload_to_json(payload)),
        PolicyV::External => Some(JsonV::Obj(seq![(kind, payload)])),
        PolicyV::Internal { tag, content } => Some(
            JsonV::Obj(seq![(tag, PayloadV::Atom(AtomV::Str(kind))), (content, payload)]),
        ),
        PolicyV::Flattened { tag } => match payload {
            PayloadV::Record(fields) => Some(
                JsonV::Obj(seq![(tag, PayloadV::Atom(AtomV::Str(kind)))] + lift_fields(fields)),
            ),
            PayloadV::Atom(_) => None,
        },
    }
}

/// Encodes one variant of a closed set, given its kind name, its payload and
/// the serialization policy. Fails exactly when a scalar payload is asked to
/// carry a flattened tag.
pub fn encode(policy: &Policy, kind: String, payload: Payload) -> (r: Result<Json, EncodeError>)
    ensures
        match r {
            Ok(j) => spec_encode(policy@, kind@, payload@) == Some(j@),
            Err(e) => spec_encode(policy@, kind@, payload@) is None && e
                == EncodeError::ScalarFlattened,
        },
{
    let ghost kv = kind@;
    let ghost pv = payload@;
    match policy {
        Policy::Untagged => Ok(payload_to_json(payload)),
        Policy::External => {
            let mut fields: Vec<(String, Payload)> = Vec::new();
            fields.push((kind, payload));
            proof {
                assert(obj_view(fields@) =~= seq![(kv, pv)]);
            }
            Ok(Json::Obj(fields))
        },
        Policy::Internal { tag, content } => {
            let mut fields: Vec<(String, Payload)> = Vec::new();
            fields.push((tag.clone(), Payload::Atom(Atom::Str(kind))));
            fields.push((content.clone(), payload));
            proof {
                assert(obj_view(fields@) =~= seq![
                    (tag@, PayloadV::Atom(AtomV::Str(kv))),
                    (content@, pv),
                ]);
            }
            Ok(Json::Obj(fields))
        },
        Policy::Flattened { tag } => match payload {
            Payload::Atom(_) => Err(EncodeError::ScalarFlattened),
            Payload::Record(rec) => {
                let ghost rv = record_view(rec@);
                let mut fields: Vec<(String, Payload)> = Vec::new();
                fields.push((tag.clone(), Payload::Atom(Atom::Str(kind))));
                let mut i: usize = 0;
                while i < rec.len()
                    invariant
                        i <= rec.len(),
                        fields@.len() == i + 1,
                        rv == record_view(rec@),
                        obj_view(fields@)[0] == (tag@, PayloadV::Atom(AtomV::Str(kv))),
                        forall|j: int|
                            0 <= j < i ==> obj_view(fields@)[1 + j] == (
                                rec@[j].0@,
                                PayloadV::Atom(rec@[j].1@),
                            ),
                    decreases rec.len() - i,
                {
                    let ghost pre = fields@;
                    fields.push((rec[i].0.clone(), Payload::Atom(rec[i].1.dup())));
                    proof {
                        assert(fields@ == pre.push(fields@[pre.len() as int]));
                        assert(obj_view(fields@)[1 + i as int] == (
                            rec@[i as int].0@,
                            PayloadV::Atom(rec@[i as int].1@),
                        ));
                        assert forall|j: int| 0 <= j < i as int implies obj_view(fields@)[1 + j]
                            == (rec@[j].0@, PayloadV::Atom(rec@[j].1@)) by {
                            assert(fields@[1 + j] == pre[1 + j]);
                            assert(obj_view(pre)[1 + j] == (rec@[j].0@, PayloadV::Atom(rec@[j].1@)));
                        }
                        assert(obj_view(fields@)[0] == obj_view(pre)[0]);
                    }
                    i = i + 1;
                }
                proof {
                    let target = seq![(tag@, PayloadV::Atom(AtomV::Str(kv)))] + lift_fields(rv);
                    assert(record_view(rec@).len() == rec@.len());
                    assert(lift_fields(rv).len() == rec@.len());
                    assert(obj_view(fields@).len() == target.len());
                    assert forall|j: int| 0 <= j < target.len() implies obj_view(fields@)[j]
                        == target[j] by {
                        if j >= 1 {
                            assert(target[j] == lift_fields(rv)[j - 1]);
                            assert(lift_fields(rv)[j - 1] == (rv[j - 1].0, PayloadV::Atom(
                                rv[j - 1].1,
                            )));
                            assert(rv[j - 1] == (rec@[j - 1].0@, rec@[j - 1].1@));
                        }
                    }
                    assert(obj_view(fields@) =~= target);
                }
                Ok(Json::Obj(fields))
            },
        },
    }
}

/// The first index whose field name equals `key`, if any.
pub open spec fn spec_find_key(fields: Seq<(Seq<char>, PayloadV)>, key: Seq<char>) -> Option<
    int,
>
    decreases fields.len(),
{
    if fields.len() == 0 {
        None
    } else if fields[0].0 == key {
        Some(0)
    } else {
        match spec_find_key(fields.drop_first(), key) {
            Some(i) => Some(i + 1),
            None => None,
        }
    }
}

/// What `spec_find_key` returns: the first index carrying the key, or `None`
/// when no field carries it.
pub proof fn lemma_find_key(fields: Seq<(Seq<char>, PayloadV)>, key: Seq<char>)
    ensures
        match spec_find_key(fields, key) {
            Some(i) => 0 <= i < fields.len() && fields[i].0 == key && forall|j: int|
                0 <= j < i ==> fields[j].0 != key,
            None => forall|j: int| 0 <= j < fields.len() ==> fields[j].0 != key,
        },
    decreases fields.len(),
{
    if fields.len() == 0 {
    } else if fields[0].0 == key {
    } else {
        lemma_find_key(fields.drop_first(), key);
        assert forall|j: int| 1 <= j < fields.len() implies fields[j]
            == fields.drop_first()[j - 1] by {}
    }
}

/// The first occurrence of a key determines `spec_find_key`.
pub proof fn lemma_find_key_at(fields: Seq<(Seq<char>, PayloadV)>, key: Seq<char>, i: int)
    requires
        0 <= i < fields.len(),
        fields[i].0 == key,
        forall|j: int| 0 <= j < i ==> fields[j].0 != key,
    ensures
        spec_find_key(fields, key) == Some(i),
{
    lemma_find_key(fields, key);
    match spec_find_key(fields, key) {
        Some(k) => {
            if k < i {
                assert(fields[k].0 != key);
            }
            if k > i {
                assert(fields[i].0 != key);
            }
        },
        None => {
            assert(fields[i].0 != key);
        },
    }
}

/// All field values of an object are scalars.
pub open spec fn all_atoms(fields: Seq<(Seq<char>, PayloadV)>) -> bool {
    forall|i: int| 0 <= i < fields.len() ==> fields[i].1 is Atom
}

/// The scalar inside a payload (meaningful only when the payload is one).
pub open spec fn atom_of(p: PayloadV) -> AtomV {
    match p {
        PayloadV::Atom(a) => a,
        PayloadV::Record(_) => arbitrary(),
    }
}

/// Drops the payload wrapper from each field value of a flat object.
pub open spec fn unlift_fields(fields: Seq<(Seq<char>, PayloadV)>) -> Seq<(Seq<char>, AtomV)> {
    fields.map_values(|f: (Seq<char>, PayloadV)| (f.0, atom_of(f.1)))
}

/// The (kind, payload) pair recorded in an encoded value under a policy, or
/// `None` where the value does not have the policy's shape. The untagged
/// policy records no kind, so nothing can be recovered from it.
pub open spec fn spec_decode(p: PolicyV, j: JsonV) -> Option<(Seq<char>, PayloadV)> {
    match p {
        PolicyV::Untagged => None,
        PolicyV::External => match j {
            JsonV::Obj(fields) => if fields.len() == 1 {
                Some((fields[0].0, fields[0].1))
            } else {
                None
            },
            JsonV::Atom(_) => None,
        },
        PolicyV::Internal { tag, content } => match j {
            JsonV::Obj(fields) => if fields.len() == 2 && fields[0].0 == tag && fields[1].0
                == content {
                match fields[0].1 {
                    PayloadV::Atom(AtomV::Str(kind)) => Some((kind, fields[1].1)),
                    _ => None,
                }
            } else {
                None
            },
            JsonV::Atom(_) => None,
        },
        PolicyV::Flattened { tag } => match j {
            JsonV::Obj(fields) => match spec_find_key(fields, tag) {
                Some(i) => match fields[i].1 {
                    PayloadV::Atom(AtomV::Str(kind)) => {
                        let rest = fields.remove(i);
                        if all_atoms(rest) {
                            Some((kind, PayloadV::Record(unlift_fields(rest))))
                        } else {
                            None
                        }
                    },
                    _ => None,
                },
                None => None,
            },
            JsonV::Atom(_) => None,
        },
    }
}

/// Decodes an encoded value back to its (kind, payload) pair under a policy.
/// Fails exactly on the untagged policy, which records no kind, and on values
/// that do not have the policy's shape.
pub fn decode(policy: &Policy, j: Json) -> (r: Result<(String, Payload), DecodeError>)
    ensures
        match r {
            Ok(kp) => spec_decode(policy@, j@) == Some((kp.0@, kp.1@)),
            Err(e) => spec_decode(policy@, j@) is None && (e == DecodeError::UntaggedPolicy
                <==> policy@ is Untagged),
        },
{
    match policy {
        Policy::Untagged => Err(DecodeError::UntaggedPolicy),
        Policy::External => match j {
            Json::Atom(_) => Err(DecodeError::Mismatch),
            Json::Obj(mut fields) => {
                if fields.len() == 1 {
                    let pair = fields.remove(0);
                    Ok(pair)
                } else {
                    Err(DecodeError::Mismatch)
                }
            },
        },
        Policy::Internal { tag, content } => match j {
            Json::Atom(_) => Err(DecodeError::Mismatch),
            Json::Obj(mut fields) => {
                if fields.len() == 2 {
                    let first = fields.remove(0);
                    let second = fields.remove(0);
                    if first.0 == *tag && second.0 == *content {
                        match first.1 {
                            Payload::Atom(Atom::Str(kind)) => Ok((kind, second.1)),
                            _ => Err(DecodeError::Mismatch),
                        }
                    } else {
                        Err(DecodeError::Mismatch)
                    }
                } else {
                    Err(DecodeError::Mismatch)
                }
            },
        },
        Policy::Flattened { tag } => decode_flattened(tag, j),
    }
}

/// Finds the first field of an object carrying the given name.
fn find_key(fields: &Vec<(String, Payload)>, key: &String) -> (r: Option<usize>)
    ensures
        match r {
            Some(i) => i < fields@.len() && spec_find_key(obj_view(fields@), key@) == Some(
                i as int,
            ),
            None => spec_find_key(obj_view(fields@), key@) is None,
        },
{
    let mut i: usize = 0;
    while i < fields.len()
        invariant
            i <= fields.len(),
            forall|k: int| 0 <= k < i ==> obj_view(fields@)[k].0 != key@,
        decreases fields.len() - i,
    {
        proof {
            assert(obj_view(fields@)[i as int] == (fields@[i as int].0@, fields@[i as int].1@));
        }
        if fields[i].0 == *key {
            proof {
                lemma_find_key_at(obj_view(fields@), key@, i as int);
            }
            return Some(i);
        }
        i = i + 1;
    }
    proof {
        lemma_find_key(obj_view(fields@), key@);
        if spec_find_key(obj_view(fields@), key@) is Some {
            let w = spec_find_key(obj_view(fields@), key@).unwrap();
            assert(obj_view(fields@)[w].0 != key@);
        }
    }
    None
}

/// Decodes a value encoded with a flattened tag: finds the first field named
/// `tag`, takes its string value as the kind, and collects the remaining
/// fields, which must all be scalars, as the record payload.
fn decode_flattened(tag: &String, j: Json) -> (r: Result<(String, Payload), DecodeError>)
    ensures
        match r {
            Ok(kp) => spec_decode(PolicyV::Flattened { tag: tag@ }, j@) == Some((kp.0@, kp.1@)),
            Err(e) => spec_decode(PolicyV::Flattened { tag: tag@ }, j@) is None && e
                == DecodeError::Mismatch,
        },
{
    let ghost tv = tag@;
    match j {
        Json::Atom(_) => Err(DecodeError::Mismatch),
        Json::Obj(mut fields) => {
            let ghost fv = obj_view(fields@);
            let ti: usize = match find_key(&fields, tag) {
                Some(i) => i,
                None => {
                    return Err(DecodeError::Mismatch);
                },
            };
            let tagged = fields.remove(ti);
            let ghost rest = fv.remove(ti as int);
            proof {
                assert forall|k: int| 0 <= k < rest.len() implies obj_view(fields@)[k]
                    == rest[k] by {
                    if k < ti as int {
                        assert(fields@[k] == fields@.subrange(0, ti as int)[k]);
                    } else {
                        assert(fields@[k] == fields@.subrange(
                            ti as int,
                            fields@.len() as int,
                        )[k - ti]);
                    }
                }
                assert(obj_view(fields@) =~= rest);
            }
            proof {
                assert(fv[ti as int] == (tagged.0@, tagged.1@));
            }
            let kind: String = match tagged.1 {
                Payload::Atom(Atom::Str(k)) => k,
                Payload::Atom(Atom::Int(_)) => {
                    return Err(DecodeError::Mismatch);
                },
                Payload::Atom(Atom::Bool(_)) => {
                    return Err(DecodeError::Mismatch);
                },
                Payload::Record(_) => {
                    return Err(DecodeError::Mismatch);
                },
            };
            let mut rec: Vec<(String, Atom)> = Vec::new();
            let mut i: usize = 0;
            while i < fields.len()
                invariant
                    i <= fields.len(),
                    rec@.len() == i,
                    rest == obj_view(fields@),
                    j@ == JsonV::Obj(fv),
                    tv == tag@,
                    spec_find_key(fv, tv) == Some(ti as int),
                    0 <= ti < fv.len(),
                    fv[ti as int].1 == PayloadV::Atom(AtomV::Str(kind@)),
                    rest == fv.remove(ti as int),
                    forall|k: int| 0 <= k < i ==> rest[k].1 is Atom,
                    forall|k: int|
                        0 <= k < i ==> record_view(rec@)[k] == (rest[k].0, atom_of(rest[k].1)),
                decreases fields.len() - i,
            {
                let ghost pre = rec@;
                match &fields[i].1 {
                    Payload::Atom(a) => {
                        rec.push((fields[i].0.clone(), a.dup()));
                    },
                    Payload::Record(_) => {
                        proof {
                            assert(rest[i as int] == (fields@[i as int].0@, fields@[i as int].1@));
                            assert(rest[i as int].1 is Record);
                            assert(!all_atoms(rest));
                        }
                        return Err(DecodeError::Mismatch);
                    },
                }
                proof {
                    assert(rest[i as int] == (fields@[i as int].0@, fields@[i as int].1@));
                    assert(record_view(rec@)[i as int] == (
                        rest[i as int].0,
                        atom_of(rest[i as int].1),
                    ));
                    assert forall|k: int| 0 <= k < i as int implies record_view(rec@)[k] == (
                        rest[k].0,
                        atom_of(rest[k].1),
                    ) by {
                        assert(rec@[k] == pre[k]);
                        assert(record_view(pre)[k] == (rest[k].0, atom_of(rest[k].1)));
                    }
                }
                i = i + 1;
            }
            proof {
                assert(all_atoms(rest));
                assert(record_view(rec@).len() == rest.len());
                assert(unlift_fields(rest).len() == rest.len());
                assert forall|k: int| 0 <= k < rest.len() implies record_view(rec@)[k]
                    == unlift_fields(rest)[k] by {
                    assert(unlift_fields(rest)[k] == (rest[k].0, atom_of(rest[k].1)));
                }
                assert(record_view(rec@) =~= unlift_fields(rest));
            }
            Ok((kind, Payload::Record(rec)))
        },
    }
}

/// A field list is well formed as a JSON object when no field name repeats.
pub open spec fn keys_unique(fields: Seq<(Seq<char>, PayloadV)>) -> bool {
    forall|i: int, j: int| 0 <= i < j < fields.len() ==> fields[i].0 != fields[j].0
}

/// A payload is well formed when, if it is a record, none of its field
/// names repeats.
pub open spec fn payload_wf(payload: PayloadV) -> bool {
    match payload {
        PayloadV::Atom(_) => true,
        PayloadV::Record(fields) => forall|i: int, j: int|
            0 <= i < j < fields.len() ==> fields[i].0 != fields[j].0,
    }
}

/// Encoding a well-formed payload under a well-formed policy yields a valid
/// JSON value: if it is an object, no field name repeats. For a flattened
/// tag this additionally needs the tag's name to be free in the record.
pub proof fn lemma_encode_keys_unique(p: PolicyV, kind: Seq<char>, payload: PayloadV)
    requires
        policy_wf(p),
        payload_wf(payload),
        p matches PolicyV::Flattened { tag } ==> match payload {
            PayloadV::Record(fields) => forall|i: int|
                0 <= i < fields.len() ==> fields[i].0 != tag,
            PayloadV::Atom(_) => true,
        },
    ensures
        match spec_encode(p, kind, payload) {
            Some(j) => match j {
                JsonV::Obj(fields) => keys_unique(fields),
                JsonV::Atom(_) => true,
            },
            None => true,
        },
{
    match p {
        PolicyV::Untagged => {
            if payload is Record {
                let pf = payload->Record_0;
                assert forall|i: int| 0 <= i < pf.len() implies lift_fields(pf)[i].0
                    == pf[i].0 by {
                    assert(lift_fields(pf)[i] == (pf[i].0, PayloadV::Atom(pf[i].1)));
                }
            }
        },
        PolicyV::External => {
        },
        PolicyV::Internal { tag, content } => {
        },
        PolicyV::Flattened { tag } => {
            if payload is Record {
                let pf = payload->Record_0;
                let fields = seq![(tag, PayloadV::Atom(AtomV::Str(kind)))] + lift_fields(pf);
                assert(lift_fields(pf).len() == pf.len());
                assert forall|i: int| 1 <= i < fields.len() implies fields[i].0 == pf[i - 1].0 by {
                    assert(fields[i] == lift_fields(pf)[i - 1]);
                    assert(lift_fields(pf)[i - 1] == (pf[i - 1].0, PayloadV::Atom(pf[i - 1].1)));
                }
                assert(fields[0].0 == tag);
                assert(keys_unique(fields));
            }
        },
    }
}

/// Whether a decoder recovers (kind, payload) after encoding under `p`: the
/// policy must record the kind, its key names must not collide, and a
/// flattened tag needs a record payload free of the tag's own name.
pub open spec fn spec_round_trippable(p: PolicyV, payload: PayloadV) -> bool {
    policy_wf(p) && match p {
        PolicyV::Untagged => false,
        PolicyV::External => true,
        PolicyV::Internal { .. } => true,
        PolicyV::Flattened { tag } => match payload {
            PayloadV::Record(fields) => forall|i: int|
                0 <= i < fields.len() ==> fields[i].0 != tag,
            PayloadV::Atom(_) => false,
        },
    }
}

/// Round trip: under every policy that records the kind, encoding a
/// (kind, payload) pair and decoding the result yields the pair back.
pub proof fn lemma_round_trip(p: PolicyV, kind: Seq<char>, payload: PayloadV)
    requires
        spec_round_trippable(p, payload),
    ensures
        spec_encode(p, kind, payload) is Some,
        spec_decode(p, spec_encode(p, kind, payload).unwrap()) == Some((kind, payload)),
{
    match p {
        PolicyV::Untagged => {
        },
        PolicyV::External => {
            let fields = seq![(kind, payload)];
            assert(fields[0] == (kind, payload));
        },
        PolicyV::Internal { tag, content } => {
            let fields = seq![(tag, PayloadV::Atom(AtomV::Str(kind))), (content, payload)];
            assert(fields[0] == (tag, PayloadV::Atom(AtomV::Str(kind))));
            assert(fields[1] == (content, payload));
        },
        PolicyV::Flattened { tag } => {
            let pf = payload->Record_0;
            let fields = seq![(tag, PayloadV::Atom(AtomV::Str(kind)))] + lift_fields(pf);
            assert(lift_fields(pf).len() == pf.len());
            assert(fields[0] == (tag, PayloadV::Atom(AtomV::Str(kind))));
            lemma_find_key_at(fields, tag, 0);
            let rest = fields.remove(0);
            assert forall|k: int| 0 <= k < rest.len() implies rest[k] == lift_fields(pf)[k] by {
                assert(rest[k] == fields[k + 1]);
            }
            assert(rest =~= lift_fields(pf));
            assert forall|k: int| 0 <= k < rest.len() implies rest[k].1 is Atom by {
                assert(lift_fields(pf)[k] == (pf[k].0, PayloadV::Atom(pf[k].1)));
            }
            assert(all_atoms(rest));
            assert forall|k: int| 0 <= k < rest.len() implies unlift_fields(rest)[k] == pf[k] by {
                assert(unlift_fields(rest)[k] == (rest[k].0, atom_of(rest[k].1)));
                assert(lift_fields(pf)[k] == (pf[k].0, PayloadV::Atom(pf[k].1)));
            }
            assert(unlift_fields(rest) =~= pf);
        },
    }
}

} // verus!
