use webapp::codec::DecodeError;
use webapp::codec::EncodeError;
use webapp::codec::Policy;
use webapp::codec::decode;
use webapp::codec::encode;
use webapp::enum_mapping::AppState;
use webapp::enum_mapping::BarStruct;
use webapp::enum_mapping::DiscriminatorAddTypeFieldEnum;
use webapp::enum_mapping::DiscriminatorEnum;
use webapp::enum_mapping::FooStruct;
use webapp::enum_mapping::TaggedEnum;
use webapp::enum_mapping::UntaggedEnum;
use webapp::enum_mapping::get_enums;
use webapp::enum_of_js_simple_types::AppState as JsAppState;
use webapp::enum_of_js_simple_types::TaggedValue;
use webapp::enum_of_js_simple_types::UntaggedValue;
use webapp::enum_of_js_simple_types::get_enums_tagged;
use webapp::enum_of_js_simple_types::get_enums_untagged;
use webapp::json::Atom;
use webapp::json::Json;
use webapp::json::Payload;
use webapp::json::payload_to_json;

fn s(v: &str) -> String {
    String::from(v)
}

#[test]
fn untagged_closed_set_is_bare_values() {
    let r = get_enums(&AppState::new());
    assert_eq!(
        r.encode_untagged(),
        vec![
            Json::Atom(Atom::Int(123)),
            Json::Atom(Atom::Bool(false)),
            Json::Atom(Atom::Str(s("foo"))),
        ]
    );
}

#[test]
fn enums_response_encodes_each_policy_array() {
    let r = get_enums(&AppState::new());
    assert_eq!(
        r.encode_tagged()[0],
        Json::Obj(vec![(s("Int"), Payload::Atom(Atom::Int(123)))])
    );
    assert_eq!(
        r.encode_discriminator()[2],
        Json::Obj(vec![
            (s("type"), Payload::Atom(Atom::Str(s("String")))),
            (s("value"), Payload::Atom(Atom::Str(s("foo")))),
        ])
    );
    assert_eq!(
        r.encode_add_type_field(),
        vec![
            Json::Obj(vec![
                (s("_tag"), Payload::Atom(Atom::Str(s("Foo")))),
                (s("value"), Payload::Atom(Atom::Int(1))),
            ]),
            Json::Obj(vec![
                (s("_tag"), Payload::Atom(Atom::Str(s("Bar")))),
                (s("value"), Payload::Atom(Atom::Int(2))),
            ]),
        ]
    );
}

#[test]
fn externally_tagged_int_is_single_key_object() {
    let j = TaggedEnum::Int(123).encode();
    assert_eq!(j, Json::Obj(vec![(s("Int"), Payload::Atom(Atom::Int(123)))]));
}

#[test]
fn externally_tagged_configured_kind_names() {
    let j = TaggedValue::Boolean(true).encode();
    assert_eq!(j, Json::Obj(vec![(s("Boolean"), Payload::Atom(Atom::Bool(true)))]));
    let j = TaggedValue::Str(s("Hello")).encode();
    assert_eq!(j, Json::Obj(vec![(s("String"), Payload::Atom(Atom::Str(s("Hello"))))]));
}

#[test]
fn internally_tagged_int_has_type_and_value() {
    let j = DiscriminatorEnum::Int(123).encode();
    assert_eq!(
        j,
        Json::Obj(vec![
            (s("type"), Payload::Atom(Atom::Str(s("number")))),
            (s("value"), Payload::Atom(Atom::Int(123))),
        ])
    );
}

#[test]
fn internally_tagged_renamed_kinds() {
    let j = DiscriminatorEnum::Bool(false).encode();
    assert_eq!(
        j,
        Json::Obj(vec![
            (s("type"), Payload::Atom(Atom::Str(s("Boolean")))),
            (s("value"), Payload::Atom(Atom::Bool(false))),
        ])
    );
    let j = DiscriminatorEnum::Str(s("foo")).encode();
    assert_eq!(
        j,
        Json::Obj(vec![
            (s("type"), Payload::Atom(Atom::Str(s("String")))),
            (s("value"), Payload::Atom(Atom::Str(s("foo")))),
        ])
    );
}

#[test]
fn flattened_foo_has_tag_and_fields() {
    let j = DiscriminatorAddTypeFieldEnum::Foo(FooStruct { value: 1 }).encode();
    assert_eq!(
        j,
        Json::Obj(vec![
            (s("_tag"), Payload::Atom(Atom::Str(s("Foo")))),
            (s("value"), Payload::Atom(Atom::Int(1))),
        ])
    );
    let j = DiscriminatorAddTypeFieldEnum::Bar(BarStruct { value: 2 }).encode();
    assert_eq!(
        j,
        Json::Obj(vec![
            (s("_tag"), Payload::Atom(Atom::Str(s("Bar")))),
            (s("value"), Payload::Atom(Atom::Int(2))),
        ])
    );
}

#[test]
fn round_trip_external_policy() {
    let encoded = encode(&Policy::External, s("Kind"), Payload::Atom(Atom::Int(7))).unwrap();
    let (kind, payload) = decode(&Policy::External, encoded).unwrap();
    assert_eq!(kind, s("Kind"));
    assert_eq!(payload, Payload::Atom(Atom::Int(7)));
}

#[test]
fn round_trip_internal_policy() {
    let policy = Policy::Internal { tag: s("type"), content: s("value") };
    let encoded = encode(&policy, s("Kind"), Payload::Atom(Atom::Str(s("x")))).unwrap();
    let (kind, payload) = decode(&policy, encoded).unwrap();
    assert_eq!(kind, s("Kind"));
    assert_eq!(payload, Payload::Atom(Atom::Str(s("x"))));
}

#[test]
fn round_trip_flattened_policy() {
    let policy = Policy::Flattened { tag: s("_tag") };
    let record = Payload::Record(vec![(s("value"), Atom::Int(5)), (s("ok"), Atom::Bool(true))]);
    let encoded = encode(&policy, s("Kind"), record.clone()).unwrap();
    let (kind, payload) = decode(&policy, encoded).unwrap();
    assert_eq!(kind, s("Kind"));
    assert_eq!(payload, record);
}

#[test]
fn round_trip_tagged_enum() {
    let v = TaggedEnum::Str(s("foo"));
    assert_eq!(TaggedEnum::decode(v.encode()), Some(TaggedEnum::Str(s("foo"))));
    let v = TaggedEnum::Bool(true);
    assert_eq!(TaggedEnum::decode(v.encode()), Some(TaggedEnum::Bool(true)));
}

#[test]
fn round_trip_untagged_enum() {
    let v = UntaggedEnum::Int(123);
    assert_eq!(UntaggedEnum::decode(v.encode()), Some(UntaggedEnum::Int(123)));
    let v = UntaggedEnum::Str(s("foo"));
    assert_eq!(UntaggedEnum::decode(v.encode()), Some(UntaggedEnum::Str(s("foo"))));
}

#[test]
fn round_trip_untagged_value() {
    let v = UntaggedValue::Boolean(true);
    assert_eq!(UntaggedValue::decode(v.encode()), Some(UntaggedValue::Boolean(true)));
}

#[test]
fn round_trip_tagged_value() {
    let v = TaggedValue::Int(123);
    assert_eq!(TaggedValue::decode(v.encode()), Some(TaggedValue::Int(123)));
}

#[test]
fn round_trip_discriminator_enum() {
    let v = DiscriminatorEnum::Int(123);
    assert_eq!(DiscriminatorEnum::decode(v.encode()), Some(DiscriminatorEnum::Int(123)));
    let v = DiscriminatorEnum::Str(s("foo"));
    assert_eq!(DiscriminatorEnum::decode(v.encode()), Some(DiscriminatorEnum::Str(s("foo"))));
}

#[test]
fn round_trip_add_type_field_enum() {
    let v = DiscriminatorAddTypeFieldEnum::Foo(FooStruct { value: 1 });
    assert_eq!(
        DiscriminatorAddTypeFieldEnum::decode(v.encode()),
        Some(DiscriminatorAddTypeFieldEnum::Foo(FooStruct { value: 1 }))
    );
    let v = DiscriminatorAddTypeFieldEnum::Bar(BarStruct { value: 2 });
    assert_eq!(
        DiscriminatorAddTypeFieldEnum::decode(v.encode()),
        Some(DiscriminatorAddTypeFieldEnum::Bar(BarStruct { value: 2 }))
    );
}

#[test]
fn flattening_a_scalar_is_rejected() {
    let policy = Policy::Flattened { tag: s("_tag") };
    let r = encode(&policy, s("Kind"), Payload::Atom(Atom::Int(1)));
    assert_eq!(r, Err(EncodeError::ScalarFlattened));
}

#[test]
fn untagged_policy_has_no_decoder() {
    let r = decode(&Policy::Untagged, Json::Atom(Atom::Int(1)));
    assert_eq!(r, Err(DecodeError::UntaggedPolicy));
}

#[test]
fn mismatched_shapes_are_rejected() {
    assert_eq!(
        decode(&Policy::External, Json::Atom(Atom::Int(1))),
        Err(DecodeError::Mismatch)
    );
    let two_fields = Json::Obj(vec![
        (s("a"), Payload::Atom(Atom::Int(1))),
        (s("b"), Payload::Atom(Atom::Int(2))),
    ]);
    assert_eq!(decode(&Policy::External, two_fields), Err(DecodeError::Mismatch));
    let policy = Policy::Internal { tag: s("type"), content: s("value") };
    let wrong_keys = Json::Obj(vec![
        (s("kind"), Payload::Atom(Atom::Str(s("K")))),
        (s("value"), Payload::Atom(Atom::Int(2))),
    ]);
    assert_eq!(decode(&policy, wrong_keys), Err(DecodeError::Mismatch));
    let policy = Policy::Flattened { tag: s("_tag") };
    let no_tag = Json::Obj(vec![(s("value"), Payload::Atom(Atom::Int(2)))]);
    assert_eq!(decode(&policy, no_tag), Err(DecodeError::Mismatch));
}

#[test]
fn unknown_kind_decodes_to_none() {
    let j = Json::Obj(vec![(s("Nope"), Payload::Atom(Atom::Int(1)))]);
    assert_eq!(TaggedEnum::decode(j), None);
}

#[test]
fn tagged_endpoint_contents() {
    let r = get_enums_tagged(&JsAppState::new());
    assert_eq!(
        r.values,
        vec![
            TaggedValue::Int(123),
            TaggedValue::Boolean(true),
            TaggedValue::Str(s("Hello")),
        ]
    );
}

#[test]
fn untagged_endpoint_contents() {
    let r = get_enums_untagged(&JsAppState::new());
    assert_eq!(
        r.encode_values(),
        vec![
            Json::Atom(Atom::Int(123)),
            Json::Atom(Atom::Bool(true)),
            Json::Atom(Atom::Str(s("Hello"))),
        ]
    );
}

#[test]
fn tagged_endpoint_encodes_values() {
    let r = get_enums_tagged(&JsAppState::new());
    assert_eq!(
        r.encode_values(),
        vec![
            Json::Obj(vec![(s("Int"), Payload::Atom(Atom::Int(123)))]),
            Json::Obj(vec![(s("Boolean"), Payload::Atom(Atom::Bool(true)))]),
            Json::Obj(vec![(s("String"), Payload::Atom(Atom::Str(s("Hello"))))]),
        ]
    );
}

#[test]
fn record_payload_stands_alone_as_object() {
    let p = Payload::Record(vec![(s("value"), Atom::Int(1))]);
    assert_eq!(
        payload_to_json(p),
        Json::Obj(vec![(s("value"), Payload::Atom(Atom::Int(1)))])
    );
    assert_eq!(payload_to_json(Payload::Atom(Atom::Bool(true))), Json::Atom(Atom::Bool(true)));
}

#[test]
fn enums_endpoint_serves_all_policies() {
    let r = get_enums(&AppState::new());
    assert_eq!(r.untagged.len(), 3);
    assert_eq!(r.tagged.len(), 3);
    assert_eq!(r.discriminator.len(), 3);
    assert_eq!(
        r.discriminator_add_type_field,
        vec![
            DiscriminatorAddTypeFieldEnum::Foo(FooStruct { value: 1 }),
            DiscriminatorAddTypeFieldEnum::Bar(BarStruct { value: 2 }),
        ]
    );
}
