//! Closed-set example values encoded as plain JSON simple types, served once
//! under the externally tagged policy and once untagged.

use vstd::prelude::*;
use crate::codec::Policy;
use crate::codec::PolicyV;
use crate::codec::decode;
use crate::codec::encode;
use crate::codec::spec_decode;
use crate::codec::spec_encode;
use crate::docs::DocSchema;
use crate::json::Atom;
use crate::json::AtomV;
use crate::json::Json;
use crate::json::JsonV;
use crate::json::Payload;
use crate::json::PayloadV;
use crate::routes::RouteTable;
use crate::routes::spec_join;

verus! {

/// Application state shared by the handlers. This example needs none.
#[derive(Debug, Clone, PartialEq, Eq, Structural)]
pub struct AppState {}

impl AppState {
    /// An empty state.
    pub fn new() -> (r: AppState)
        ensures
            r == (AppState {  }),
    {
        AppState {  }
    }
}

/// A value of the closed set under the default, externally tagged policy:
/// a one-field object whose field name is the kind.
#[derive(Debug, Clone, PartialEq, Eq)]
pub enum TaggedValue {
    Int(i64),
    Boolean(bool),
    Str(String),
}

/// Mathematical model of a [`TaggedValue`].
pub enum TaggedValueV {
    Int(int),
    Boolean(bool),
    Str(Seq<char>),
}

impl View for TaggedValue {
    type V = TaggedValueV;

    open spec fn view(&self) -> TaggedValueV {
        match self {
            TaggedValue::Int(i) => TaggedValueV::Int(*i as int),
            TaggedValue::Boolean(b) => TaggedValueV::Boolean(*b),
            TaggedValue::Str(s) => TaggedValueV::Str(s@),
        }
    }
}

/// The kind name recorded for each [`TaggedValue`] variant.
pub open spec fn tagged_value_kind(v: TaggedValueV) -> Seq<char> {
    match v {
        TaggedValueV::Int(_) => "Int"@,
        TaggedValueV::Boolean(_) => "Boolean"@,
        TaggedValueV::Str(_) => "String"@,
    }
}

/// The payload carried by each [`TaggedValue`] variant.
pub open spec fn tagged_value_payload(v: TaggedValueV) -> PayloadV {
    match v {
        TaggedValueV::Int(i) => PayloadV::Atom(AtomV::Int(i)),
        TaggedValueV::Boolean(b) => PayloadV::Atom(AtomV::Bool(b)),
        TaggedValueV::Str(s) => PayloadV::Atom(AtomV::Str(s)),
    }
}

/// The encoding of a [`TaggedValue`].
pub open spec fn tagged_value_encoding(v: TaggedValueV) -> JsonV {
    spec_encode(PolicyV::External, tagged_value_kind(v), tagged_value_payload(v)).unwrap()
}

/// The [`TaggedValue`] an encoded JSON value denotes, if any.
pub open spec fn tagged_value_decoding(j: JsonV) -> Option<TaggedValueV> {
    match spec_decode(PolicyV::External, j) {
        Some(kp) => match kp.1 {
            PayloadV::Atom(AtomV::Int(i)) => if kp.0 == "Int"@ {
                Some(TaggedValueV::Int(i))
            } else {
                None
            },
            PayloadV::Atom(AtomV::Bool(b)) => if kp.0 == "Boolean"@ {
                Some(TaggedValueV::Boolean(b))
            } else {
                None
            },
            PayloadV::Atom(AtomV::Str(s)) => if kp.0 == "String"@ {
                Some(TaggedValueV::Str(s))
            } else {
                None
            },
            PayloadV::Record(_) => None,
        },
        None => None,
    }
}

impl TaggedValue {
    /// Encodes this value under the externally tagged policy.
    pub fn encode(&self) -> (r: Json)
        ensures
            r@ == tagged_value_encoding(self@),
    {
        let (kind, payload) = match self {
            TaggedValue::Int(i) => (String::from_str("Int"), Payload::Atom(Atom::Int(*i))),
            TaggedValue::Boolean(b) => (String::from_str("Boolean"), Payload::Atom(
                Atom::Bool(*b),
            )),
            TaggedValue::Str(s) => (String::from_str("String"), Payload::Atom(
                Atom::Str(s.clone()),
            )),
        };
        match encode(&Policy::External, kind, payload) {
            Ok(j) => j,
            Err(_) => unreached(),
        }
    }

    /// Decodes an externally tagged value back, where kind and payload type
    /// agree with one of the variants.
    pub fn decode(j: Json) -> (r: Option<TaggedValue>)
        ensures
            match r {
                Some(v) => tagged_value_decoding(j@) == Some(v@),
                None => tagged_value_decoding(j@) is None,
            },
    {
        let kp = match decode(&Policy::External, j) {
            Ok(kp) => kp,
            Err(_) => {
                return None;
            },
        };
        match kp.1 {
            Payload::Atom(Atom::Int(i)) => {
                if kp.0 == String::from_str("Int") {
                    Some(TaggedValue::Int(i))
                } else {
                    None
                }
            },
            Payload::Atom(Atom::Bool(b)) => {
                if kp.0 == String::from_str("Boolean") {
                    Some(TaggedValue::Boolean(b))
                } else {
                    None
                }
            },
            Payload::Atom(Atom::Str(s)) => {
                if kp.0 == String::from_str("String") {
                    Some(TaggedValue::Str(s))
                } else {
                    None
                }
            },
            Payload::Record(_) => None,
        }
    }
}

/// Round trip: decoding an encoded [`TaggedValue`] yields the value back.
pub proof fn lemma_tagged_value_round_trip(v: TaggedValueV)
    ensures
        tagged_value_decoding(tagged_value_encoding(v)) == Some(v),
{
    crate::codec::lemma_round_trip(
        PolicyV::External,
        tagged_value_kind(v),
        tagged_value_payload(v),
    );
}

/// A value of the closed set under the untagged policy: the bare value,
/// whose JSON type stands in for the missing kind marker.
#[derive(Debug, Clone, PartialEq, Eq)]
pub enum UntaggedValue {
    Int(i64),
    Boolean(bool),
    Str(String),
}

/// Mathematical model of an [`UntaggedValue`].
pub enum UntaggedValueV {
    Int(int),
    Boolean(bool),
    Str(Seq<char>),
}

impl View for UntaggedValue {
    type V = UntaggedValueV;

    open spec fn view(&self) -> UntaggedValueV {
        match self {
            UntaggedValue::Int(i) => UntaggedValueV::Int(*i as int),
            UntaggedValue::Boolean(b) => UntaggedValueV::Boolean(*b),
            UntaggedValue::Str(s) => UntaggedValueV::Str(s@),
        }
    }
}

/// The kind name of each [`UntaggedValue`] variant; it is not recorded in
/// the encoding.
pub open spec fn untagged_value_kind(v: UntaggedValueV) -> Seq<char> {
    match v {
        UntaggedValueV::Int(_) => "Int"@,
        UntaggedValueV::Boolean(_) => "Boolean"@,
        UntaggedValueV::Str(_) => "String"@,
    }
}

/// The payload carried by each [`UntaggedValue`] variant.
pub open spec fn untagged_value_payload(v: UntaggedValueV) -> PayloadV {
    match v {
        UntaggedValueV::Int(i) => PayloadV::Atom(AtomV::Int(i)),
        UntaggedValueV::Boolean(b) => PayloadV::Atom(AtomV::Bool(b)),
        UntaggedValueV::Str(s) => PayloadV::Atom(AtomV::Str(s)),
    }
}

/// The encoding of an [`UntaggedValue`]: the bare scalar.
pub open spec fn untagged_value_encoding(v: UntaggedValueV) -> JsonV {
    spec_encode(PolicyV::Untagged, untagged_value_kind(v), untagged_value_payload(v)).unwrap()
}

/// The [`UntaggedValue`] an encoded JSON value denotes: the kind is
/// inferred from the JSON type itself.
pub open spec fn untagged_value_decoding(j: JsonV) -> Option<UntaggedValueV> {
    match j {
        JsonV::Atom(AtomV::Int(i)) => Some(UntaggedValueV::Int(i)),
        JsonV::Atom(AtomV::Bool(b)) => Some(UntaggedValueV::Boolean(b)),
        JsonV::Atom(AtomV::Str(s)) => Some(UntaggedValueV::Str(s)),
        JsonV::Obj(_) => None,
    }
}

impl UntaggedValue {
    /// Encodes this value under the untagged policy.
    pub fn encode(&self) -> (r: Json)
        ensures
            r@ == untagged_value_encoding(self@),
    {
        let (kind, payload) = match self {
            UntaggedValue::Int(i) => (String::from_str("Int"), Payload::Atom(Atom::Int(*i))),
            UntaggedValue::Boolean(b) => (String::from_str("Boolean"), Payload::Atom(
                Atom::Bool(*b),
            )),
            UntaggedValue::Str(s) => (String::from_str("String"), Payload::Atom(
                Atom::Str(s.clone()),
            )),
        };
        match encode(&Policy::Untagged, kind, payload) {
            Ok(j) => j,
            Err(_) => unreached(),
        }
    }

    /// Decodes an untagged value back, inferring the kind from the JSON
    /// type.
    pub fn decode(j: Json) -> (r: Option<UntaggedValue>)
        ensures
            match r {
                Some(v) => untagged_value_decoding(j@) == Some(v@),
                None => untagged_value_decoding(j@) is None,
            },
    {
        match j {
            Json::Atom(Atom::Int(i)) => Some(UntaggedValue::Int(i)),
            Json::Atom(Atom::Bool(b)) => Some(UntaggedValue::Boolean(b)),
            Json::Atom(Atom::Str(s)) => Some(UntaggedValue::Str(s)),
            Json::Obj(_) => None,
        }
    }
}

/// Round trip: decoding an encoded [`UntaggedValue`] yields the value back;
/// the JSON type of the payload recovers the kind for this closed set.
pub proof fn lemma_untagged_value_round_trip(v: UntaggedValueV)
    ensures
        untagged_value_decoding(untagged_value_encoding(v)) == Some(v),
{
}

/// The response of the externally tagged endpoint.
#[derive(Debug, Clone, PartialEq, Eq)]
pub struct EnumsTaggedResponse {
    pub values: Vec<TaggedValue>,
}

impl View for EnumsTaggedResponse {
    type V = Seq<TaggedValueV>;

    open spec fn view(&self) -> Seq<TaggedValueV> {
        self.values@.map_values(|v: TaggedValue| v@)
    }
}

impl EnumsTaggedResponse {
    /// Encodes every value of the response, in order, under the externally
    /// tagged policy.
    pub fn encode_values(&self) -> (r: Vec<Json>)
        ensures
            r@.len() == self@.len(),
            forall|i: int| 0 <= i < r@.len() ==> r@[i]@ == tagged_value_encoding(self@[i]),
    {
        let mut out: Vec<Json> = Vec::new();
        let mut i: usize = 0;
        while i < self.values.len()
            invariant
                i <= self.values.len(),
                out@.len() == i,
                forall|k: int| 0 <= k < i ==> out@[k]@ == tagged_value_encoding(self@[k]),
            decreases self.values.len() - i,
        {
            out.push(self.values[i].encode());
            proof {
                assert(self@[i as int] == self.values@[i as int]@);
            }
            i = i + 1;
        }
        out
    }
}

/// The response of the untagged endpoint.
#[derive(Debug, Clone, PartialEq, Eq)]
pub struct EnumsUntaggedResponse {
    pub values: Vec<UntaggedValue>,
}

impl View for EnumsUntaggedResponse {
    type V = Seq<UntaggedValueV>;

    open spec fn view(&self) -> Seq<UntaggedValueV> {
        self.values@.map_values(|v: UntaggedValue| v@)
    }
}

impl EnumsUntaggedResponse {
    /// Encodes every value of the response, in order, under the untagged
    /// policy.
    pub fn encode_values(&self) -> (r: Vec<Json>)
        ensures
            r@.len() == self@.len(),
            forall|i: int| 0 <= i < r@.len() ==> r@[i]@ == untagged_value_encoding(self@[i]),
    {
        let mut out: Vec<Json> = Vec::new();
        let mut i: usize = 0;
        while i < self.values.len()
            invariant
                i <= self.values.len(),
                out@.len() == i,
                forall|k: int| 0 <= k < i ==> out@[k]@ == untagged_value_encoding(self@[k]),
            decreases self.values.len() - i,
        {
            out.push(self.values[i].encode());
            proof {
                assert(self@[i as int] == self.values@[i as int]@);
            }
            i = i + 1;
        }
        out
    }
}

/// The fixed contents of the externally tagged endpoint's response.
pub fn get_enums_tagged(_state: &AppState) -> (r: EnumsTaggedResponse)
    ensures
        r@ == seq![TaggedValueV::Int(123), TaggedValueV::Boolean(true), TaggedValueV::Str(
            "Hello"@,
        )],
{
    let mut values: Vec<TaggedValue> = Vec::new();
    values.push(TaggedValue::Int(123));
    values.push(TaggedValue::Boolean(true));
    values.push(TaggedValue::Str(String::from_str("Hello")));
    let r = EnumsTaggedResponse { values };
    proof {
        assert(r@ =~= seq![TaggedValueV::Int(123), TaggedValueV::Boolean(true), TaggedValueV::Str(
            "Hello"@,
        )]);
    }
    r
}

/// The fixed contents of the untagged endpoint's response.
pub fn get_enums_untagged(_state: &AppState) -> (r: EnumsUntaggedResponse)
    ensures
        r@ == seq![UntaggedValueV::Int(123), UntaggedValueV::Boolean(true), UntaggedValueV::Str(
            "Hello"@,
        )],
{
    let mut values: Vec<UntaggedValue> = Vec::new();
    values.push(UntaggedValue::Int(123));
    values.push(UntaggedValue::Boolean(true));
    values.push(UntaggedValue::Str(String::from_str("Hello")));
    let r = EnumsUntaggedResponse { values };
    proof {
        assert(r@ =~= seq![UntaggedValueV::Int(123), UntaggedValueV::Boolean(
            true,
        ), UntaggedValueV::Str("Hello"@)]);
    }
    r
}

/// The API sub-table of this example: one endpoint per policy.
pub fn api_router() -> (r: RouteTable)
    ensures
        r.paths() == seq!["/enums-tagged"@, "/enums-untagged"@],
{
    let r = RouteTable::new().route(String::from_str("/enums-tagged")).route(
        String::from_str("/enums-untagged"),
    );
    proof {
        assert(r.paths() =~= seq!["/enums-tagged"@, "/enums-untagged"@]);
    }
    r
}

/// The API documentation of this example, derived from the mounted API
/// routes.
pub struct ApiDoc {}

impl ApiDoc {
    /// The documentation schema: both endpoints, documented exactly once.
    pub fn openapi() -> (r: DocSchema)
        ensures
            r.title@ == "Rust Enums to JavaScript simple types"@,
            r.description@ == "This API uses Rust enums"@,
            r.paths_view() == seq!["/api/enums-tagged"@, "/api/enums-untagged"@],
    {
        let api = api_router();
        let mounted = RouteTable::new().nest(&String::from_str("/api"), api);
        proof {
            reveal_strlit("/api");
            reveal_strlit("/enums-tagged");
            reveal_strlit("/enums-untagged");
            reveal_strlit("/api/enums-tagged");
            reveal_strlit("/api/enums-untagged");
            assert("/enums-tagged"@.len() == 13);
            assert("/enums-untagged"@.len() == 15);
            assert(spec_join("/api"@, "/enums-tagged"@) == "/api"@ + "/enums-tagged"@);
            assert(spec_join("/api"@, "/enums-untagged"@) == "/api"@ + "/enums-untagged"@);
            assert("/api"@ + "/enums-tagged"@ =~= "/api/enums-tagged"@);
            assert("/api"@ + "/enums-untagged"@ =~= "/api/enums-untagged"@);
            assert(mounted.paths() =~= seq!["/api/enums-tagged"@, "/api/enums-untagged"@]);
        }
        DocSchema::from_routes(
            String::from_str("Rust Enums to JavaScript simple types"),
            String::from_str("This API uses Rust enums"),
            &mounted,
        )
    }
}

/// The documentation schema of this example.
pub fn schema() -> (r: DocSchema)
    ensures
        r.title@ == "Rust Enums to JavaScript simple types"@,
        r.description@ == "This API uses Rust enums"@,
        r.paths_view() == seq!["/api/enums-tagged"@, "/api/enums-untagged"@],
{
    ApiDoc::openapi()
}

/// The dispatch table of this example.
pub fn router() -> (r: RouteTable)
    ensures
        r.paths() == seq![
            "/"@,
            "/swagger-ui"@,
            "/api-docs/openapi.json"@,
            "/api/enums-tagged"@,
            "/api/enums-untagged"@,
        ],
        r.wf(),
{
    let api = api_router();
    let table = RouteTable::new().route(String::from_str("/")).route(
        String::from_str("/swagger-ui"),
    ).route(String::from_str("/api-docs/openapi.json")).nest(&String::from_str("/api"), api);
    proof {
        reveal_strlit("/");
        reveal_strlit("/swagger-ui");
        reveal_strlit("/api-docs/openapi.json");
        reveal_strlit("/api");
        reveal_strlit("/enums-tagged");
        reveal_strlit("/enums-untagged");
        reveal_strlit("/api/enums-tagged");
        reveal_strlit("/api/enums-untagged");
        assert("/enums-tagged"@.len() == 13);
        assert("/enums-untagged"@.len() == 15);
        assert(spec_join("/api"@, "/enums-tagged"@) == "/api"@ + "/enums-tagged"@);
        assert(spec_join("/api"@, "/enums-untagged"@) == "/api"@ + "/enums-untagged"@);
        assert("/api"@ + "/enums-tagged"@ =~= "/api/enums-tagged"@);
        assert("/api"@ + "/enums-untagged"@ =~= "/api/enums-untagged"@);
        assert(table.paths() =~= seq![
            "/"@,
            "/swagger-ui"@,
            "/api-docs/openapi.json"@,
            "/api/enums-tagged"@,
            "/api/enums-untagged"@,
        ]);
        assert("/"@.len() == 1);
        assert("/swagger-ui"@.len() == 11);
        assert("/api-docs/openapi.json"@.len() == 22);
        assert("/api/enums-tagged"@.len() == 17);
        assert("/api/enums-untagged"@.len() == 19);
        assert(table.wf());
    }
    table
}

} // verus!
