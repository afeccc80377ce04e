use conforming::form_field::{
    FieldValue, FormField, SerializerTag, TypeCapability, ValueKind, lookup, serialize_value,
};
use conforming::helpers::{
    Date, DateTime, Time, date_ser, datetime_ser, time_ser, to_string_serialize,
};
use conforming::schema::{
    FieldDeclaration, FormSchema, ResolveError, ResolveErrorKind, build_populated, build_template,
    resolve,
};
use conforming::{FormBuilder, FormSerializeError};

fn base_decl(name: &str) -> FieldDeclaration {
    FieldDeclaration {
        name: name.to_string(),
        ty: None,
        input_type: None,
        id: None,
        label: None,
        required: None,
        extra_attrs: None,
        serializer: None,
        skip: false,
        no_label: false,
        flatten: None,
    }
}

fn schema_of(fields: Vec<conforming::schema::FieldDescriptor>) -> FormSchema {
    FormSchema { fields, form_attrs: None, button_attrs: None }
}

#[test]
fn test_name() {
    let html = FormBuilder::new("POST".to_string())
        .with_action("/".to_string())
        .with_submit("go".to_string())
        .with_form_attrs(vec![("a".to_string(), Some("b".to_string()))])
        .with_button_attrs(vec![("c".to_string(), None)])
        .with_input(
            "string".to_string(),
            "name".to_string(),
            Some("name".to_string()),
            None,
            false,
            vec![],
            None,
        )
        .with_input(
            "email".to_string(),
            "email".to_string(),
            Some("email".to_string()),
            None,
            false,
            vec![],
            Some("something@example.com".to_string()),
        )
        .build();

    assert_eq!(
        html,
        r#"<form action="/" method="POST" a="b"><input name="name" type="string" id="name"><input name="email" type="email" id="email" value="something@example.com"><button type="submit" c>go</button></form>"#
    )
}

#[test]
fn template_scenario_exact_bytes() {
    let mut name = base_decl("name");
    name.ty = Some(ValueKind::Text);
    name.id = Some("user_name".to_string());
    name.no_label = true;
    let mut email = base_decl("email");
    email.ty = Some(ValueKind::Optional(Box::new(ValueKind::Text)));
    email.input_type = Some("email".to_string());
    email.no_label = true;

    let fields = resolve(&vec![name, email]).unwrap();
    let html = build_template(&schema_of(fields)).build();
    assert_eq!(
        html,
        r#"<form action="" method="POST"><input name="name" type="text" id="user_name" required><input name="email" type="email"><button type="submit">Send</button></form>"#
    );
}

#[test]
fn flatten_scenario_splices_in_place() {
    let mut password = base_decl("password");
    password.ty = Some(ValueKind::Text);
    password.input_type = Some("password".to_string());
    let mut confirmation = base_decl("password_confirmation");
    confirmation.ty = Some(ValueKind::Text);
    confirmation.input_type = Some("password".to_string());
    confirmation.label = Some("repeat password".to_string());
    let nested = resolve(&vec![password, confirmation]).unwrap();

    let mut username = base_decl("username");
    username.ty = Some(ValueKind::Text);
    let mut flat = base_decl("credentials");
    flat.flatten = Some(nested);

    let fields = resolve(&vec![username, flat]).unwrap();
    let html = build_template(&schema_of(fields)).build();
    assert_eq!(
        html,
        r#"<form action="" method="POST"><label>username<input name="username" type="text" required></label><label>password<input name="password" type="password" required></label><label>repeat password<input name="password_confirmation" type="password" required></label><button type="submit">Send</button></form>"#
    );
}

#[test]
fn serialization_failure_names_the_field() {
    let mut avatar = base_decl("avatar");
    avatar.input_type = Some("file".to_string());
    avatar.required = Some(false);
    avatar.serializer = Some(SerializerTag::Identity);
    let fields = resolve(&vec![avatar]).unwrap();
    let schema = schema_of(fields);

    let r = build_populated(&schema, &vec![FieldValue::Number(1)]);
    match r {
        Ok(_) => panic!("population must fail"),
        Err(FormSerializeError::FieldSerializationError(name)) => {
            assert_eq!(name, "avatar");
        },
    }
}

#[test]
fn serialization_short_circuits_at_first_failure() {
    let mut a = base_decl("a");
    a.ty = Some(ValueKind::Number);
    let mut b = base_decl("b");
    b.ty = Some(ValueKind::Day);
    let mut c = base_decl("c");
    c.ty = Some(ValueKind::Day);
    let fields = resolve(&vec![a, b, c]).unwrap();
    let schema = schema_of(fields);

    let bad = Date { year: 2023, month: 2, day: 30 };
    let values = vec![
        FieldValue::Number(7),
        FieldValue::Day(bad),
        FieldValue::Day(bad),
    ];
    let r = build_populated(&schema, &values);
    match r {
        Ok(_) => panic!("population must fail"),
        Err(e) => assert_eq!(e.field_name().as_str(), "b"),
    }
}

#[test]
fn populated_form_carries_values() {
    let mut user = base_decl("user");
    user.ty = Some(ValueKind::Text);
    user.no_label = true;
    let mut age = base_decl("age");
    age.ty = Some(ValueKind::Number);
    age.no_label = true;
    let fields = resolve(&vec![user, age]).unwrap();
    let schema = schema_of(fields);

    let html = build_populated(
        &schema,
        &vec![FieldValue::Text("ernesto".to_string()), FieldValue::Number(-3)],
    )
    .unwrap()
    .build();
    assert_eq!(
        html,
        r#"<form action="" method="POST"><input name="user" type="text" required value="ernesto"><input name="age" type="number" required value="-3"><button type="submit">Send</button></form>"#
    );
}

#[test]
fn skipped_field_never_appears() {
    let mut shown = base_decl("shown");
    shown.ty = Some(ValueKind::Text);
    shown.no_label = true;
    let mut hidden = base_decl("hidden");
    hidden.ty = Some(ValueKind::Text);
    hidden.id = Some("secret".to_string());
    hidden.skip = true;

    let fields = resolve(&vec![shown, hidden]).unwrap();
    assert_eq!(fields.len(), 1);
    let schema = schema_of(fields);

    let template = build_template(&schema).build();
    assert!(!template.contains("hidden"));
    assert!(!template.contains("secret"));

    let populated = build_populated(&schema, &vec![FieldValue::Text("x".to_string())])
        .unwrap()
        .build();
    assert!(!populated.contains("hidden"));
    assert!(!populated.contains("secret"));
}

#[test]
fn label_defaults_to_field_name() {
    let mut name = base_decl("name");
    name.ty = Some(ValueKind::Text);
    name.id = Some("user_name".to_string());
    let fields = resolve(&vec![name]).unwrap();
    let html = build_template(&schema_of(fields)).build();
    assert_eq!(
        html,
        r#"<form action="" method="POST"><label for="user_name">name<input name="name" type="text" id="user_name" required></label><button type="submit">Send</button></form>"#
    );
}

#[test]
fn rendering_is_deterministic() {
    let mut name = base_decl("name");
    name.ty = Some(ValueKind::Text);
    let decls = vec![name];
    let first = build_template(&schema_of(resolve(&decls).unwrap())).build();
    let second = build_template(&schema_of(resolve(&decls).unwrap())).build();
    assert_eq!(first, second);
}

#[test]
fn required_defaults_follow_optionality() {
    let mut plain = base_decl("plain");
    plain.ty = Some(ValueKind::Text);
    let mut optional = base_decl("optional");
    optional.ty = Some(ValueKind::Optional(Box::new(ValueKind::Text)));
    let fields = resolve(&vec![plain, optional]).unwrap();
    assert!(fields[0].required);
    assert!(!fields[1].required);
}

#[test]
fn unregistered_type_is_a_resolution_error() {
    let mut custom = base_decl("custom");
    custom.input_type = Some("color".to_string());
    let r = resolve(&vec![custom]);
    match r {
        Ok(_) => panic!("resolution must fail"),
        Err(e) => {
            assert_eq!(e.kind(), ResolveErrorKind::Unregistered);
            assert_eq!(e.field_name().as_str(), "custom");
            assert!(matches!(e, ResolveError::UnregisteredTypeError(_)));
        },
    }
}

#[test]
fn skip_with_flatten_is_a_resolution_error() {
    let mut broken = base_decl("broken");
    broken.skip = true;
    broken.flatten = Some(vec![]);
    let r = resolve(&vec![broken]);
    match r {
        Ok(_) => panic!("resolution must fail"),
        Err(e) => {
            assert_eq!(e.kind(), ResolveErrorKind::Annotation);
            assert_eq!(e.field_name().as_str(), "broken");
            assert!(matches!(e, ResolveError::AnnotationError(_)));
        },
    }
}

#[test]
fn mismatched_serializer_is_a_resolution_error() {
    let mut wrong = base_decl("wrong");
    wrong.ty = Some(ValueKind::Text);
    wrong.serializer = Some(SerializerTag::Decimal);
    let r = resolve(&vec![wrong]);
    match r {
        Ok(_) => panic!("resolution must fail"),
        Err(e) => {
            assert_eq!(e.kind(), ResolveErrorKind::Annotation);
            assert_eq!(e.field_name().as_str(), "wrong");
        },
    }
}

#[test]
fn resolution_reports_the_first_faulty_declaration() {
    let mut fine = base_decl("fine");
    fine.ty = Some(ValueKind::Text);
    let first_bad = base_decl("first_bad");
    let second_bad = base_decl("second_bad");
    let r = resolve(&vec![fine, first_bad, second_bad]);
    match r {
        Ok(_) => panic!("resolution must fail"),
        Err(e) => assert_eq!(e.field_name().as_str(), "first_bad"),
    }
}

#[test]
fn registry_capabilities() {
    let text: TypeCapability = lookup(&ValueKind::Text);
    assert_eq!(text.input_type, "text");
    assert!(text.required);
    assert_eq!(text.serializer, SerializerTag::Identity);

    let number = lookup(&ValueKind::Number);
    assert_eq!(number.input_type, "number");
    assert_eq!(number.serializer, SerializerTag::Decimal);

    let flag = lookup(&ValueKind::Flag);
    assert_eq!(flag.input_type, "text");

    let day = lookup(&ValueKind::Day);
    assert_eq!(day.input_type, "date");

    let clock = lookup(&ValueKind::Clock);
    assert_eq!(clock.input_type, "time");

    let moment = lookup(&ValueKind::Moment);
    assert_eq!(moment.input_type, "datetime-local");

    let opt_number = lookup(&ValueKind::Optional(Box::new(ValueKind::Number)));
    assert_eq!(opt_number.input_type, "number");
    assert!(!opt_number.required);
    assert_eq!(opt_number.serializer, SerializerTag::Decimal);
}

#[test]
fn value_kinds_of_field_types() {
    assert!(matches!(<String as FormField>::value_kind(), ValueKind::Text));
    assert!(matches!(<u64 as FormField>::value_kind(), ValueKind::Number));
    assert!(matches!(<i32 as FormField>::value_kind(), ValueKind::Number));
    assert!(matches!(<bool as FormField>::value_kind(), ValueKind::Flag));
    assert!(matches!(<Date as FormField>::value_kind(), ValueKind::Day));
    assert!(matches!(
        <Option<u8> as FormField>::value_kind(),
        ValueKind::Optional(_)
    ));
}

#[test]
fn serializers_produce_exact_text() {
    let ok = |s: &str| Ok::<String, ()>(s.to_string());

    assert_eq!(
        serialize_value(&SerializerTag::Identity, &FieldValue::Text("abc".to_string())),
        ok("abc")
    );
    assert_eq!(
        serialize_value(&SerializerTag::Decimal, &FieldValue::Number(-42)),
        ok("-42")
    );
    assert_eq!(
        serialize_value(&SerializerTag::Decimal, &FieldValue::Number(0)),
        ok("0")
    );
    assert_eq!(
        serialize_value(&SerializerTag::Decimal, &FieldValue::Unsigned(18446744073709551615)),
        ok("18446744073709551615")
    );
    assert_eq!(
        serialize_value(&SerializerTag::FlagText, &FieldValue::Flag(true)),
        ok("true")
    );
    assert_eq!(
        serialize_value(&SerializerTag::FlagText, &FieldValue::Flag(false)),
        ok("false")
    );
    assert_eq!(
        serialize_value(&SerializerTag::Identity, &FieldValue::Nothing),
        ok("null")
    );
    assert_eq!(
        serialize_value(&SerializerTag::Identity, &FieldValue::Flag(true)),
        Err(())
    );
}

#[test]
fn date_and_time_serializers_pad_their_layout() {
    let d = Date { year: 987, month: 6, day: 5 };
    assert_eq!(date_ser(&d), Ok("0987-06-05".to_string()));

    let t = Time { hour: 7, minute: 5 };
    assert_eq!(time_ser(&t), Ok("07:05".to_string()));

    let dt = DateTime { date: Date { year: 2020, month: 12, day: 31 }, time: Time { hour: 23, minute: 59 } };
    assert_eq!(datetime_ser(&dt), Ok("2020-12-31T23:59".to_string()));

    let leap = Date { year: 2024, month: 2, day: 29 };
    assert_eq!(
        serialize_value(&SerializerTag::DateYmd, &FieldValue::Day(leap)),
        Ok("2024-02-29".to_string())
    );
    let not_leap = Date { year: 2023, month: 2, day: 29 };
    assert_eq!(
        serialize_value(&SerializerTag::DateYmd, &FieldValue::Day(not_leap)),
        Err(())
    );
}

#[test]
fn to_string_serialize_never_fails() {
    assert_eq!(to_string_serialize(&42u32), Ok("42".to_string()));
    assert_eq!(to_string_serialize("plain"), Ok("plain".to_string()));
}

#[test]
fn extra_attributes_keep_insertion_order() {
    let mut styled = base_decl("styled");
    styled.ty = Some(ValueKind::Text);
    styled.no_label = true;
    styled.extra_attrs = Some(vec![
        ("style".to_string(), Some("background: red".to_string())),
        ("autofocus".to_string(), None),
    ]);
    let fields = resolve(&vec![styled]).unwrap();
    let html = build_template(&FormSchema {
        fields,
        form_attrs: Some(vec![("a".to_string(), Some("b".to_string()))]),
        button_attrs: Some(vec![("c".to_string(), None)]),
    })
    .build();
    assert_eq!(
        html,
        r#"<form action="" method="POST" a="b"><input name="styled" type="text" required style="background: red" autofocus><button type="submit" c>Send</button></form>"#
    );
}

#[test]
fn empty_schema_renders_bare_form() {
    let fields = resolve(&vec![]).unwrap();
    let html = build_template(&schema_of(fields)).build();
    assert_eq!(
        html,
        r#"<form action="" method="POST"><button type="submit">Send</button></form>"#
    );
}

#[test]
fn duplicate_names_after_flatten_both_render() {
    let mut inner = base_decl("password");
    inner.ty = Some(ValueKind::Text);
    inner.no_label = true;
    let nested = resolve(&vec![inner]).unwrap();

    let mut own = base_decl("password");
    own.ty = Some(ValueKind::Text);
    own.no_label = true;
    let mut flat = base_decl("extra");
    flat.flatten = Some(nested);

    let fields = resolve(&vec![own, flat]).unwrap();
    let html = build_template(&schema_of(fields)).build();
    assert_eq!(
        html,
        r#"<form action="" method="POST"><input name="password" type="text" required><input name="password" type="text" required><button type="submit">Send</button></form>"#
    );
}

#[test]
fn builder_overrides_method_action_and_submit() {
    let mut name = base_decl("name");
    name.ty = Some(ValueKind::Text);
    name.no_label = true;
    let fields = resolve(&vec![name]).unwrap();
    let html = build_template(&schema_of(fields))
        .with_method("GET".to_string())
        .with_action("/signup".to_string())
        .with_submit("Go".to_string())
        .build();
    assert_eq!(
        html,
        r#"<form action="/signup" method="GET"><input name="name" type="text" required><button type="submit">Go</button></form>"#
    );
}

#[test]
fn absent_optional_value_serializes_as_null() {
    let mut email = base_decl("email");
    email.ty = Some(ValueKind::Optional(Box::new(ValueKind::Text)));
    email.no_label = true;
    let fields = resolve(&vec![email]).unwrap();
    let html = build_populated(&schema_of(fields), &vec![FieldValue::Nothing])
        .unwrap()
        .build();
    assert_eq!(
        html,
        r#"<form action="" method="POST"><input name="email" type="text" value="null"><button type="submit">Send</button></form>"#
    );
}

#[test]
fn invalid_times_fail_to_serialize() {
    let late = Time { hour: 24, minute: 0 };
    assert_eq!(
        serialize_value(&SerializerTag::TimeHm, &FieldValue::Clock(late)),
        Err(())
    );
    let fine = Time { hour: 0, minute: 0 };
    assert_eq!(
        serialize_value(&SerializerTag::TimeHm, &FieldValue::Clock(fine)),
        Ok("00:00".to_string())
    );
}
