//! One closed set of example values served under every serialization policy
//! at once: untagged, externally tagged, internally tagged with a content
//! key, and flattened.

use vstd::prelude::*;
use crate::codec::Policy;
use crate::codec::PolicyV;
use crate::codec::decode;
use crate::codec::encode;
use crate::codec::spec_decode;
use crate::codec::spec_encode;
use crate::docs::DocSchema;
use crate::json::Atom;
use crate::json::AtomV;
use crate::json::Json;
use crate::json::JsonV;
use crate::json::Payload;
use crate::json::PayloadV;
use crate::json::record_view;
use crate::routes::RouteTable;

verus! {

/// Application state shared by the handlers. This example needs none.
#[derive(Debug, Clone, PartialEq, Eq, Structural)]
pub struct AppState {}

impl AppState {
    /// An empty state.
    pub fn new() -> (r: AppState)
        ensures
            r == (AppState {  }),
    {
        AppState {  }
    }
}

/// Example values under the default, externally tagged policy: a one-field
/// object whose field name is the variant's kind.
#[derive(Debug, Clone, PartialEq, Eq)]
pub enum TaggedEnum {
    Int(i64),
    Bool(bool),
    Str(String),
}

/// Mathematical model of a [`TaggedEnum`].
pub enum TaggedEnumV {
    Int(int),
    Bool(bool),
    Str(Seq<char>),
}

impl View for TaggedEnum {
    type V = TaggedEnumV;

    open spec fn view(&self) -> TaggedEnumV {
        match self {
            TaggedEnum::Int(i) => TaggedEnumV::Int(*i as int),
            TaggedEnum::Bool(b) => TaggedEnumV::Bool(*b),
            TaggedEnum::Str(s) => TaggedEnumV::Str(s@),
        }
    }
}

/// The kind name recorded for each [`TaggedEnum`] variant.
pub open spec fn tagged_enum_kind(v: TaggedEnumV) -> Seq<char> {
    match v {
        TaggedEnumV::Int(_) => "Int"@,
        TaggedEnumV::Bool(_) => "Bool"@,
        TaggedEnumV::Str(_) => "Str"@,
    }
}

/// The payload carried by each [`TaggedEnum`] variant.
pub open spec fn tagged_enum_payload(v: TaggedEnumV) -> PayloadV {
    match v {
        TaggedEnumV::Int(i) => PayloadV::Atom(AtomV::Int(i)),
        TaggedEnumV::Bool(b) => PayloadV::Atom(AtomV::Bool(b)),
        TaggedEnumV::Str(s) => PayloadV::Atom(AtomV::Str(s)),
    }
}

/// The encoding of a [`TaggedEnum`] value.
pub open spec fn tagged_enum_encoding(v: TaggedEnumV) -> JsonV {
    spec_encode(PolicyV::External, tagged_enum_kind(v), tagged_enum_payload(v)).unwrap()
}

/// The [`TaggedEnum`] value an encoded JSON value denotes, if any.
pub open spec fn tagged_enum_decoding(j: JsonV) -> Option<TaggedEnumV> {
    match spec_decode(PolicyV::External, j) {
        Some(kp) => match kp.1 {
            PayloadV::Atom(AtomV::Int(i)) => if kp.0 == "Int"@ {
                Some(TaggedEnumV::Int(i))
            } else {
                None
            },
            PayloadV::Atom(AtomV::Bool(b)) => if kp.0 == "Bool"@ {
                Some(TaggedEnumV::Bool(b))
            } else {
                None
            },
            PayloadV::Atom(AtomV::Str(s)) => if kp.0 == "Str"@ {
                Some(TaggedEnumV::Str(s))
            } else {
                None
            },
            PayloadV::Record(_) => None,
        },
        None => None,
    }
}

impl TaggedEnum {
    /// Encodes this value under the externally tagged policy.
    pub fn encode(&self) -> (r: Json)
        ensures
            r@ == tagged_enum_encoding(self@),
    {
        let (kind, payload) = match self {
            TaggedEnum::Int(i) => (String::from_str("Int"), Payload::Atom(Atom::Int(*i))),
            TaggedEnum::Bool(b) => (String::from_str("Bool"), Payload::Atom(Atom::Bool(*b))),
            TaggedEnum::Str(s) => (String::from_str("Str"), Payload::Atom(Atom::Str(s.clone()))),
        };
        match encode(&Policy::External, kind, payload) {
            Ok(j) => j,
            Err(_) => unreached(),
        }
    }

    /// Decodes an externally tagged value back, where kind and payload type
    /// agree with one of the variants.
    pub fn decode(j: Json) -> (r: Option<TaggedEnum>)
        ensures
            match r {
                Some(v) => tagged_enum_decoding(j@) == Some(v@),
                None => tagged_enum_decoding(j@) is None,
            },
    {
        let kp = match decode(&Policy::External, j) {
            Ok(kp) => kp,
            Err(_) => {
                return None;
            },
        };
        match kp.1 {
            Payload::Atom(Atom::Int(i)) => {
                if kp.0 == String::from_str("Int") {
                    Some(TaggedEnum::Int(i))
                } else {
                    None
                }
            },
            Payload::Atom(Atom::Bool(b)) => {
                if kp.0 == String::from_str("Bool") {
                    Some(TaggedEnum::Bool(b))
                } else {
                    None
                }
            },
            Payload::Atom(Atom::Str(s)) => {
                if kp.0 == String::from_str("Str") {
                    Some(TaggedEnum::Str(s))
                } else {
                    None
                }
            },
            Payload::Record(_) => None,
        }
    }
}

/// Round trip: decoding an encoded [`TaggedEnum`] yields the value back.
pub proof fn lemma_tagged_enum_round_trip(v: TaggedEnumV)
    ensures
        tagged_enum_decoding(tagged_enum_encoding(v)) == Some(v),
{
    crate::codec::lemma_round_trip(PolicyV::External, tagged_enum_kind(v), tagged_enum_payload(v));
}

/// Example values under the untagged policy: the bare payload, whose JSON
/// type stands in for the missing kind marker.
#[derive(Debug, Clone, PartialEq, Eq)]
pub enum UntaggedEnum {
    Int(i64),
    Bool(bool),
    Str(String),
}

/// Mathematical model of an [`UntaggedEnum`].
pub enum UntaggedEnumV {
    Int(int),
    Bool(bool),
    Str(Seq<char>),
}

impl View for UntaggedEnum {
    type V = UntaggedEnumV;

    open spec fn view(&self) -> UntaggedEnumV {
        match self {
            UntaggedEnum::Int(i) => UntaggedEnumV::Int(*i as int),
            UntaggedEnum::Bool(b) => UntaggedEnumV::Bool(*b),
            UntaggedEnum::Str(s) => UntaggedEnumV::Str(s@),
        }
    }
}

/// The kind name of each [`UntaggedEnum`] variant; it is not recorded in the
/// encoding.
pub open spec fn untagged_enum_kind(v: UntaggedEnumV) -> Seq<char> {
    match v {
        UntaggedEnumV::Int(_) => "Int"@,
        UntaggedEnumV::Bool(_) => "Bool"@,
        UntaggedEnumV::Str(_) => "Str"@,
    }
}

/// The payload carried by each [`UntaggedEnum`] variant.
pub open spec fn untagged_enum_payload(v: UntaggedEnumV) -> PayloadV {
    match v {
        UntaggedEnumV::Int(i) => PayloadV::Atom(AtomV::Int(i)),
        UntaggedEnumV::Bool(b) => PayloadV::Atom(AtomV::Bool(b)),
        UntaggedEnumV::Str(s) => PayloadV::Atom(AtomV::Str(s)),
    }
}

/// The encoding of an [`UntaggedEnum`] value: the bare scalar.
pub open spec fn untagged_enum_encoding(v: UntaggedEnumV) -> JsonV {
    spec_encode(PolicyV::Untagged, untagged_enum_kind(v), untagged_enum_payload(v)).unwrap()
}

/// The [`UntaggedEnum`] value an encoded JSON value denotes: the kind is
/// inferred from the JSON type itself.
pub open spec fn untagged_enum_decoding(j: JsonV) -> Option<UntaggedEnumV> {
    match j {
        JsonV::Atom(AtomV::Int(i)) => Some(UntaggedEnumV::Int(i)),
        JsonV::Atom(AtomV::Bool(b)) => Some(UntaggedEnumV::Bool(b)),
        JsonV::Atom(AtomV::Str(s)) => Some(UntaggedEnumV::Str(s)),
        JsonV::Obj(_) => None,
    }
}

impl UntaggedEnum {
    /// Encodes this value under the untagged policy.
    pub fn encode(&self) -> (r: Json)
        ensures
            r@ == untagged_enum_encoding(self@),
    {
        let (kind, payload) = match self {
            UntaggedEnum::Int(i) => (String::from_str("Int"), Payload::Atom(Atom::Int(*i))),
            UntaggedEnum::Bool(b) => (String::from_str("Bool"), Payload::Atom(Atom::Bool(*b))),
            UntaggedEnum::Str(s) => (String::from_str("Str"), Payload::Atom(Atom::Str(s.clone()))),
        };
        match encode(&Policy::Untagged, kind, payload) {
            Ok(j) => j,
            Err(_) => unreached(),
        }
    }

    /// Decodes an untagged value back, inferring the kind from the JSON type.
    pub fn decode(j: Json) -> (r: Option<UntaggedEnum>)
        ensures
            match r {
                Some(v) => untagged_enum_decoding(j@) == Some(v@),
                None => untagged_enum_decoding(j@) is None,
            },
    {
        match j {
            Json::Atom(Atom::Int(i)) => Some(UntaggedEnum::Int(i)),
            Json::Atom(Atom::Bool(b)) => Some(UntaggedEnum::Bool(b)),
            Json::Atom(Atom::Str(s)) => Some(UntaggedEnum::Str(s)),
            Json::Obj(_) => None,
        }
    }
}

/// Round trip: decoding an encoded [`UntaggedEnum`] yields the value back;
/// the JSON type of the payload recovers the kind for this closed set.
pub proof fn lemma_untagged_enum_round_trip(v: UntaggedEnumV)
    ensures
        untagged_enum_decoding(untagged_enum_encoding(v)) == Some(v),
{
}

/// Example values under the internally tagged policy with a content key:
/// an object with the kind under `"type"` and the payload under `"value"`.
/// The kind names are renamed independently of the variant names.
#[derive(Debug, Clone, PartialEq, Eq)]
pub enum DiscriminatorEnum {
    Int(i64),
    Bool(bool),
    Str(String),
}

/// Mathematical model of a [`DiscriminatorEnum`].
pub enum DiscriminatorEnumV {
    Int(int),
    Bool(bool),
    Str(Seq<char>),
}

impl View for DiscriminatorEnum {
    type V = DiscriminatorEnumV;

    open spec fn view(&self) -> DiscriminatorEnumV {
        match self {
            DiscriminatorEnum::Int(i) => DiscriminatorEnumV::Int(*i as int),
            DiscriminatorEnum::Bool(b) => DiscriminatorEnumV::Bool(*b),
            DiscriminatorEnum::Str(s) => DiscriminatorEnumV::Str(s@),
        }
    }
}

/// The renamed kind recorded for each [`DiscriminatorEnum`] variant.
pub open spec fn discriminator_kind(v: DiscriminatorEnumV) -> Seq<char> {
    match v {
        DiscriminatorEnumV::Int(_) => "number"@,
        DiscriminatorEnumV::Bool(_) => "Boolean"@,
        DiscriminatorEnumV::Str(_) => "String"@,
    }
}

/// The payload carried by each [`DiscriminatorEnum`] variant.
pub open spec fn discriminator_payload(v: DiscriminatorEnumV) -> PayloadV {
    match v {
        DiscriminatorEnumV::Int(i) => PayloadV::Atom(AtomV::Int(i)),
        DiscriminatorEnumV::Bool(b) => PayloadV::Atom(AtomV::Bool(b)),
        DiscriminatorEnumV::Str(s) => PayloadV::Atom(AtomV::Str(s)),
    }
}

/// The policy of this example: kind under `"type"`, payload under `"value"`.
pub open spec fn discriminator_policy() -> PolicyV {
    PolicyV::Internal { tag: "type"@, content: "value"@ }
}

/// The encoding of a [`DiscriminatorEnum`] value.
pub open spec fn discriminator_encoding(v: DiscriminatorEnumV) -> JsonV {
    spec_encode(discriminator_policy(), discriminator_kind(v), discriminator_payload(v)).unwrap()
}

/// The [`DiscriminatorEnum`] value an encoded JSON value denotes, if any.
pub open spec fn discriminator_decoding(j: JsonV) -> Option<DiscriminatorEnumV> {
    match spec_decode(discriminator_policy(), j) {
        Some(kp) => match kp.1 {
            PayloadV::Atom(AtomV::Int(i)) => if kp.0 == "number"@ {
                Some(DiscriminatorEnumV::Int(i))
            } else {
                None
            },
            PayloadV::Atom(AtomV::Bool(b)) => if kp.0 == "Boolean"@ {
                Some(DiscriminatorEnumV::Bool(b))
            } else {
                None
            },
            PayloadV::Atom(AtomV::Str(s)) => if kp.0 == "String"@ {
                Some(DiscriminatorEnumV::Str(s))
            } else {
                None
            },
            PayloadV::Record(_) => None,
        },
        None => None,
    }
}

/// The exec policy value of this example.
fn discriminator_policy_value() -> (r: Policy)
    ensures
        r@ == discriminator_policy(),
{
    Policy::Internal { tag: String::from_str("type"), content: String::from_str("value") }
}

impl DiscriminatorEnum {
    /// Encodes this value under the internally tagged policy with a content
    /// key.
    pub fn encode(&self) -> (r: Json)
        ensures
            r@ == discriminator_encoding(self@),
    {
        let (kind, payload) = match self {
            DiscriminatorEnum::Int(i) => (
                String::from_str("number"),
                Payload::Atom(Atom::Int(*i)),
            ),
            DiscriminatorEnum::Bool(b) => (
                String::from_str("Boolean"),
                Payload::Atom(Atom::Bool(*b)),
            ),
            DiscriminatorEnum::Str(s) => (
                String::from_str("String"),
                Payload::Atom(Atom::Str(s.clone())),
            ),
        };
        match encode(&discriminator_policy_value(), kind, payload) {
            Ok(j) => j,
            Err(_) => unreached(),
        }
    }

    /// Decodes an internally tagged value back, where kind and payload type
    /// agree with one of the variants.
    pub fn decode(j: Json) -> (r: Option<DiscriminatorEnum>)
        ensures
            match r {
                Some(v) => discriminator_decoding(j@) == Some(v@),
                None => discriminator_decoding(j@) is None,
            },
    {
        let kp = match decode(&discriminator_policy_value(), j) {
            Ok(kp) => kp,
            Err(_) => {
                return None;
            },
        };
        match kp.1 {
            Payload::Atom(Atom::Int(i)) => {
                if kp.0 == String::from_str("number") {
                    Some(DiscriminatorEnum::Int(i))
                } else {
                    None
                }
            },
            Payload::Atom(Atom::Bool(b)) => {
                if kp.0 == String::from_str("Boolean") {
                    Some(DiscriminatorEnum::Bool(b))
                } else {
                    None
                }
            },
            Payload::Atom(Atom::Str(s)) => {
                if kp.0 == String::from_str("String") {
                    Some(DiscriminatorEnum::Str(s))
                } else {
                    None
                }
            },
            Payload::Record(_) => None,
        }
    }
}

/// Round trip: decoding an encoded [`DiscriminatorEnum`] yields the value
/// back. The tag and content keys differ, so the policy is decodable.
pub proof fn lemma_discriminator_round_trip(v: DiscriminatorEnumV)
    ensures
        discriminator_decoding(discriminator_encoding(v)) == Some(v),
{
    reveal_strlit("type");
    reveal_strlit("value");
    assert("type"@.len() == 4);
    assert("value"@.len() == 5);
    assert("type"@ != "value"@);
    crate::codec::lemma_round_trip(
        discriminator_policy(),
        discriminator_kind(v),
        discriminator_payload(v),
    );
}

/// A record payload with one numeric field.
#[derive(Debug, Clone, PartialEq, Eq)]
pub struct FooStruct {
    pub value: i64,
}

impl View for FooStruct {
    type V = int;

    open spec fn view(&self) -> int {
        self.value as int
    }
}

/// A second record payload with one numeric field.
#[derive(Debug, Clone, PartialEq, Eq)]
pub struct BarStruct {
    pub value: i64,
}

impl View for BarStruct {
    type V = int;

    open spec fn view(&self) -> int {
        self.value as int
    }
}

/// Example values under the flattened policy: the record payload's own
/// fields plus the kind added under `"_tag"` at the same level.
#[derive(Debug, Clone, PartialEq, Eq)]
pub enum DiscriminatorAddTypeFieldEnum {
    Foo(FooStruct),
    Bar(BarStruct),
}

/// Mathematical model of a [`DiscriminatorAddTypeFieldEnum`].
pub enum DiscriminatorAddTypeFieldEnumV {
    Foo(int),
    Bar(int),
}

impl View for DiscriminatorAddTypeFieldEnum {
    type V = DiscriminatorAddTypeFieldEnumV;

    open spec fn view(&self) -> DiscriminatorAddTypeFieldEnumV {
        match self {
            DiscriminatorAddTypeFieldEnum::Foo(f) => DiscriminatorAddTypeFieldEnumV::Foo(f@),
            DiscriminatorAddTypeFieldEnum::Bar(b) => DiscriminatorAddTypeFieldEnumV::Bar(b@),
        }
    }
}

/// The kind recorded for each [`DiscriminatorAddTypeFieldEnum`] variant.
pub open spec fn add_type_field_kind(v: DiscriminatorAddTypeFieldEnumV) -> Seq<char> {
    match v {
        DiscriminatorAddTypeFieldEnumV::Foo(_) => "Foo"@,
        DiscriminatorAddTypeFieldEnumV::Bar(_) => "Bar"@,
    }
}

/// The record payload of each [`DiscriminatorAddTypeFieldEnum`] variant: one
/// field named `"value"`.
pub open spec fn add_type_field_payload(v: DiscriminatorAddTypeFieldEnumV) -> PayloadV {
    match v {
        DiscriminatorAddTypeFieldEnumV::Foo(i) => PayloadV::Record(seq![("value"@, AtomV::Int(i))]),
        DiscriminatorAddTypeFieldEnumV::Bar(i) => PayloadV::Record(seq![("value"@, AtomV::Int(i))]),
    }
}

/// The policy of this example: the kind is flattened in under `"_tag"`.
pub open spec fn add_type_field_policy() -> PolicyV {
    PolicyV::Flattened { tag: "_tag"@ }
}

/// The encoding of a [`DiscriminatorAddTypeFieldEnum`] value.
pub open spec fn add_type_field_encoding(v: DiscriminatorAddTypeFieldEnumV) -> JsonV {
    spec_encode(add_type_field_policy(), add_type_field_kind(v), add_type_field_payload(v)).unwrap()
}

/// The [`DiscriminatorAddTypeFieldEnum`] value an encoded JSON value
/// denotes, if any: the payload must be the one-field record and the kind
/// one of the two variant names.
pub open spec fn add_type_field_decoding(j: JsonV) -> Option<DiscriminatorAddTypeFieldEnumV> {
    match spec_decode(add_type_field_policy(), j) {
        Some(kp) => match kp.1 {
            PayloadV::Record(fields) => if fields =~= seq![("value"@, fields[0].1)]
                && fields[0].1 is Int {
                let i = match fields[0].1 {
                    AtomV::Int(i) => i,
                    _ => 0,
                };
                if kp.0 == "Foo"@ {
                    Some(DiscriminatorAddTypeFieldEnumV::Foo(i))
                } else if kp.0 == "Bar"@ {
                    Some(DiscriminatorAddTypeFieldEnumV::Bar(i))
                } else {
                    None
                }
            } else {
                None
            },
            PayloadV::Atom(_) => None,
        },
        None => None,
    }
}

/// The exec policy value of this example.
fn add_type_field_policy_value() -> (r: Policy)
    ensures
        r@ == add_type_field_policy(),
{
    Policy::Flattened { tag: String::from_str("_tag") }
}

impl DiscriminatorAddTypeFieldEnum {
    /// Encodes this value under the flattened policy.
    pub fn encode(&self) -> (r: Json)
        ensures
            r@ == add_type_field_encoding(self@),
    {
        let (kind, value) = match self {
            DiscriminatorAddTypeFieldEnum::Foo(f) => (String::from_str("Foo"), f.value),
            DiscriminatorAddTypeFieldEnum::Bar(b) => (String::from_str("Bar"), b.value),
        };
        let mut rec: Vec<(String, Atom)> = Vec::new();
        rec.push((String::from_str("value"), Atom::Int(value)));
        proof {
            assert(record_view(rec@) =~= seq![("value"@, AtomV::Int(value as int))]);
        }
        match encode(&add_type_field_policy_value(), kind, Payload::Record(rec)) {
            Ok(j) => j,
            Err(_) => unreached(),
        }
    }

    /// Decodes a flattened value back, where the payload is the one-field
    /// record and the kind one of the two variant names.
    pub fn decode(j: Json) -> (r: Option<DiscriminatorAddTypeFieldEnum>)
        ensures
            match r {
                Some(v) => add_type_field_decoding(j@) == Some(v@),
                None => add_type_field_decoding(j@) is None,
            },
    {
        let kp = match decode(&add_type_field_policy_value(), j) {
            Ok(kp) => kp,
            Err(_) => {
                return None;
            },
        };
        let rec = match kp.1 {
            Payload::Record(rec) => rec,
            Payload::Atom(_) => {
                return None;
            },
        };
        if rec.len() != 1 {
            proof {
                let fields = record_view(rec@);
                assert(fields.len() != 1);
            }
            return None;
        }
        let value: i64 = match &rec[0].1 {
            Atom::Int(i) => *i,
            _ => {
                proof {
                    assert(record_view(rec@)[0] == (rec@[0].0@, rec@[0].1@));
                }
                return None;
            },
        };
        proof {
            assert(record_view(rec@)[0] == (rec@[0].0@, rec@[0].1@));
        }
        if !(rec[0].0 == String::from_str("value")) {
            return None;
        }
        if kp.0 == String::from_str("Foo") {
            Some(DiscriminatorAddTypeFieldEnum::Foo(FooStruct { value }))
        } else if kp.0 == String::from_str("Bar") {
            Some(DiscriminatorAddTypeFieldEnum::Bar(BarStruct { value }))
        } else {
            None
        }
    }
}

/// Round trip: decoding an encoded [`DiscriminatorAddTypeFieldEnum`] yields
/// the value back. The record's one field is not named like the tag, so the
/// flattened policy is decodable.
pub proof fn lemma_add_type_field_round_trip(v: DiscriminatorAddTypeFieldEnumV)
    ensures
        add_type_field_decoding(add_type_field_encoding(v)) == Some(v),
{
    reveal_strlit("_tag");
    reveal_strlit("value");
    reveal_strlit("Foo");
    reveal_strlit("Bar");
    assert("value"@.len() == 5);
    assert("_tag"@.len() == 4);
    assert("value"@ != "_tag"@);
    crate::codec::lemma_round_trip(
        add_type_field_policy(),
        add_type_field_kind(v),
        add_type_field_payload(v),
    );
    assert("Foo"@ != "Bar"@) by {
        assert("Foo"@[0] == 'F');
        assert("Bar"@[0] == 'B');
    }
}

/// The response served at the enums endpoint: the same three scalar
/// example values under each scalar policy, and the two record example
/// values under the flattened policy.
#[derive(Debug, Clone, PartialEq, Eq)]
pub struct EnumResponse {
    pub untagged: Vec<UntaggedEnum>,
    pub tagged: Vec<TaggedEnum>,
    pub discriminator: Vec<DiscriminatorEnum>,
    pub discriminator_add_type_field: Vec<DiscriminatorAddTypeFieldEnum>,
}

/// Mathematical model of an [`EnumResponse`].
pub struct EnumResponseV {
    pub untagged: Seq<UntaggedEnumV>,
    pub tagged: Seq<TaggedEnumV>,
    pub discriminator: Seq<DiscriminatorEnumV>,
    pub discriminator_add_type_field: Seq<DiscriminatorAddTypeFieldEnumV>,
}

impl View for EnumResponse {
    type V = EnumResponseV;

    open spec fn view(&self) -> EnumResponseV {
        EnumResponseV {
            untagged: self.untagged@.map_values(|v: UntaggedEnum| v@),
            tagged: self.tagged@.map_values(|v: TaggedEnum| v@),
            discriminator: self.discriminator@.map_values(|v: DiscriminatorEnum| v@),
            discriminator_add_type_field: self.discriminator_add_type_field@.map_values(
                |v: DiscriminatorAddTypeFieldEnum| v@,
            ),
        }
    }
}

impl EnumResponse {
    /// Encodes the untagged values, in order.
    pub fn encode_untagged(&self) -> (r: Vec<Json>)
        ensures
            r@.len() == self@.untagged.len(),
            forall|i: int|
                0 <= i < r@.len() ==> r@[i]@ == untagged_enum_encoding(self@.untagged[i]),
    {
        let mut out: Vec<Json> = Vec::new();
        let mut i: usize = 0;
        while i < self.untagged.len()
            invariant
                i <= self.untagged.len(),
                out@.len() == i,
                forall|k: int|
                    0 <= k < i ==> out@[k]@ == untagged_enum_encoding(self@.untagged[k]),
            decreases self.untagged.len() - i,
        {
            out.push(self.untagged[i].encode());
            proof {
                assert(self@.untagged[i as int] == self.untagged@[i as int]@);
            }
            i = i + 1;
        }
        out
    }

    /// Encodes the externally tagged values, in order.
    pub fn encode_tagged(&self) -> (r: Vec<Json>)
        ensures
            r@.len() == self@.tagged.len(),
            forall|i: int| 0 <= i < r@.len() ==> r@[i]@ == tagged_enum_encoding(self@.tagged[i]),
    {
        let mut out: Vec<Json> = Vec::new();
        let mut i: usize = 0;
        while i < self.tagged.len()
            invariant
                i <= self.tagged.len(),
                out@.len() == i,
                forall|k: int| 0 <= k < i ==> out@[k]@ == tagged_enum_encoding(self@.tagged[k]),
            decreases self.tagged.len() - i,
        {
            out.push(self.tagged[i].encode());
            proof {
                assert(self@.tagged[i as int] == self.tagged@[i as int]@);
            }
            i = i + 1;
        }
        out
    }

    /// Encodes the internally tagged values, in order.
    pub fn encode_discriminator(&self) -> (r: Vec<Json>)
        ensures
            r@.len() == self@.discriminator.len(),
            forall|i: int|
                0 <= i < r@.len() ==> r@[i]@ == discriminator_encoding(self@.discriminator[i]),
    {
        let mut out: Vec<Json> = Vec::new();
        let mut i: usize = 0;
        while i < self.discriminator.len()
            invariant
                i <= self.discriminator.len(),
                out@.len() == i,
                forall|k: int|
                    0 <= k < i ==> out@[k]@ == discriminator_encoding(self@.discriminator[k]),
            decreases self.discriminator.len() - i,
        {
            out.push(self.discriminator[i].encode());
            proof {
                assert(self@.discriminator[i as int] == self.discriminator@[i as int]@);
            }
            i = i + 1;
        }
        out
    }

    /// Encodes the flattened values, in order.
    pub fn encode_add_type_field(&self) -> (r: Vec<Json>)
        ensures
            r@.len() == self@.discriminator_add_type_field.len(),
            forall|i: int|
                0 <= i < r@.len() ==> r@[i]@ == add_type_field_encoding(
                    self@.discriminator_add_type_field[i],
                ),
    {
        let mut out: Vec<Json> = Vec::new();
        let mut i: usize = 0;
        while i < self.discriminator_add_type_field.len()
            invariant
                i <= self.discriminator_add_type_field.len(),
                out@.len() == i,
                forall|k: int|
                    0 <= k < i ==> out@[k]@ == add_type_field_encoding(
                        self@.discriminator_add_type_field[k],
                    ),
            decreases self.discriminator_add_type_field.len() - i,
        {
            out.push(self.discriminator_add_type_field[i].encode());
            proof {
                assert(self@.discriminator_add_type_field[i as int]
                    == self.discriminator_add_type_field@[i as int]@);
            }
            i = i + 1;
        }
        out
    }
}

/// The fixed contents of the enums endpoint's response.
pub fn get_enums(_state: &AppState) -> (r: EnumResponse)
    ensures
        r@.untagged == seq![
            UntaggedEnumV::Int(123),
            UntaggedEnumV::Bool(false),
            UntaggedEnumV::Str("foo"@),
        ],
        r@.tagged == seq![
            TaggedEnumV::Int(123),
            TaggedEnumV::Bool(false),
            TaggedEnumV::Str("foo"@),
        ],
        r@.discriminator == seq![
            DiscriminatorEnumV::Int(123),
            DiscriminatorEnumV::Bool(false),
            DiscriminatorEnumV::Str("foo"@),
        ],
        r@.discriminator_add_type_field == seq![
            DiscriminatorAddTypeFieldEnumV::Foo(1),
            DiscriminatorAddTypeFieldEnumV::Bar(2),
        ],
{
    let mut untagged: Vec<UntaggedEnum> = Vec::new();
    untagged.push(UntaggedEnum::Int(123));
    untagged.push(UntaggedEnum::Bool(false));
    untagged.push(UntaggedEnum::Str(String::from_str("foo")));
    let mut tagged: Vec<TaggedEnum> = Vec::new();
    tagged.push(TaggedEnum::Int(123));
    tagged.push(TaggedEnum::Bool(false));
    tagged.push(TaggedEnum::Str(String::from_str("foo")));
    let mut discriminator: Vec<DiscriminatorEnum> = Vec::new();
    discriminator.push(DiscriminatorEnum::Int(123));
    discriminator.push(DiscriminatorEnum::Bool(false));
    discriminator.push(DiscriminatorEnum::Str(String::from_str("foo")));
    let mut discriminator_add_type_field: Vec<DiscriminatorAddTypeFieldEnum> = Vec::new();
    discriminator_add_type_field.push(DiscriminatorAddTypeFieldEnum::Foo(FooStruct { value: 1 }));
    discriminator_add_type_field.push(DiscriminatorAddTypeFieldEnum::Bar(BarStruct { value: 2 }));
    let r = EnumResponse { untagged, tagged, discriminator, discriminator_add_type_field };
    proof {
        assert(r@.untagged =~= seq![
            UntaggedEnumV::Int(123),
            UntaggedEnumV::Bool(false),
            UntaggedEnumV::Str("foo"@),
        ]);
        assert(r@.tagged =~= seq![
            TaggedEnumV::Int(123),
            TaggedEnumV::Bool(false),
            TaggedEnumV::Str("foo"@),
        ]);
        assert(r@.discriminator =~= seq![
            DiscriminatorEnumV::Int(123),
            DiscriminatorEnumV::Bool(false),
            DiscriminatorEnumV::Str("foo"@),
        ]);
        assert(r@.discriminator_add_type_field =~= seq![
            DiscriminatorAddTypeFieldEnumV::Foo(1),
            DiscriminatorAddTypeFieldEnumV::Bar(2),
        ]);
    }
    r
}

/// The API sub-table of this example: one enums endpoint.
pub fn api_router() -> (r: RouteTable)
    ensures
        r.paths() == seq!["/enums"@],
{
    let r = RouteTable::new().route(String::from_str("/enums"));
    proof {
        assert(Seq::<Seq<char>>::empty().push("/enums"@) =~= seq!["/enums"@]);
    }
    r
}

/// The dispatch table of this example: the root greeting, the documentation
/// UI and schema, and the API sub-table mounted under the API prefix.
pub fn router() -> (r: RouteTable)
    ensures
        r.paths() == seq!["/"@, "/swagger-ui"@, "/api-docs/openapi.json"@, "/api/enums"@],
        r.wf(),
{
    let api = api_router();
    let table = RouteTable::new().route(String::from_str("/")).route(
        String::from_str("/swagger-ui"),
    ).route(String::from_str("/api-docs/openapi.json")).nest(&String::from_str("/api"), api);
    proof {
        reveal_strlit("/");
        reveal_strlit("/swagger-ui");
        reveal_strlit("/api-docs/openapi.json");
        reveal_strlit("/api");
        reveal_strlit("/enums");
        reveal_strlit("/api/enums");
        assert("/enums"@.len() == 6);
        assert(crate::routes::spec_join("/api"@, "/enums"@) == "/api"@ + "/enums"@);
        assert("/api"@ + "/enums"@ =~= "/api/enums"@);
        assert(seq!["/enums"@].map_values(
            |p: Seq<char>| crate::routes::spec_join("/api"@, p),
        ) =~= seq!["/api/enums"@]);
        assert(table.paths() =~= seq![
            "/"@,
            "/swagger-ui"@,
            "/api-docs/openapi.json"@,
            "/api/enums"@,
        ]);
        assert("/"@.len() == 1);
        assert("/swagger-ui"@.len() == 11);
        assert("/api-docs/openapi.json"@.len() == 22);
        assert("/api/enums"@.len() == 10);
        assert(table.wf());
    }
    table
}

/// The documentation schema of this example, derived from the mounted API
/// routes: the enums endpoint, documented exactly once.
pub fn schema() -> (r: DocSchema)
    ensures
        r.title@ == "Rust Enums to JavaScript Simple Types API"@,
        r.description@ == "API demonstrating enums as JS simple types."@,
        r.paths_view() == seq!["/api/enums"@],
{
    let api = api_router();
    let mounted = RouteTable::new().nest(&String::from_str("/api"), api);
    proof {
        reveal_strlit("/api");
        reveal_strlit("/enums");
        reveal_strlit("/api/enums");
        assert("/enums"@.len() == 6);
        assert(crate::routes::spec_join("/api"@, "/enums"@) == "/api"@ + "/enums"@);
        assert("/api"@ + "/enums"@ =~= "/api/enums"@);
        assert(mounted.paths() =~= seq!["/api/enums"@]);
    }
    DocSchema::from_routes(
        String::from_str("Rust Enums to JavaScript Simple Types API"),
        String::from_str("API demonstrating enums as JS simple types."),
        &mounted,
    )
}

} // verus!
