use struct2swagger::normalize;
use struct2swagger::Json;
use struct2swagger::SwaggerObject;

fn value(text: &str) -> serde_json::Value {
    serde_json::from_str(text).unwrap()
}

fn parsed(doc: &SwaggerObject) -> serde_json::Value {
    serde_json::from_str(&doc.to_json_string()).unwrap()
}

#[test]
fn end_to_end_scenario() {
    let mut doc = SwaggerObject::new("T", "1.0", vec![], "", None);
    let r = doc.add_route(
        false,
        "x",
        "GET",
        "/items/{id}".to_string(),
        None,
        None,
        vec![(
            200u16,
            ("ok", "String", Json::Obj(vec![("type".to_string(), Json::Str("string".to_string()))])),
        )],
    );
    assert!(r.is_ok());
    let values = parsed(&doc);
    assert_eq!(
        values["paths"]["/items/{id}"]["get"]["parameters"],
        value(
            r#"[{"name":"id","in":"path","description":"use id parameter","required":true,"schema":{"type":"string"}}]"#
        )
    );
    assert_eq!(
        values["paths"]["/items/{id}"]["get"]["responses"]["200"],
        value(
            r#"{"description":"ok","content":{"application/json":{"schema":{"type":"string"}}}}"#
        )
    );
}

#[test]
fn one_parameter_per_segment() {
    let mut doc = SwaggerObject::new("T", "1.0", vec![], "", None);
    let r = doc.add_route(
        false,
        "x",
        "GET",
        "/a/{first}/b/{second}".to_string(),
        None,
        None,
        vec![(200u16, ("ok", "String", Json::Str("unused".to_string())))],
    );
    assert!(r.is_ok());
    let values = parsed(&doc);
    let params = &values["paths"]["/a/{first}/b/{second}"]["get"]["parameters"];
    assert_eq!(params.as_array().unwrap().len(), 2);
    assert_eq!(params[0]["name"], value("\"first\""));
    assert_eq!(params[1]["name"], value("\"second\""));
    assert_eq!(params[0]["in"], value("\"path\""));
    assert_eq!(params[1]["required"], value("true"));
    assert_eq!(params[1]["schema"], value(r#"{"type":"string"}"#));
}

#[test]
fn reregistering_overwrites() {
    let mut doc = SwaggerObject::new("T", "1.0", vec![], "", None);
    let raw = Json::Obj(vec![("type".to_string(), Json::Str("string".to_string()))]);
    let r1 = doc.add_route(
        false,
        "x",
        "GET",
        "/a".to_string(),
        None,
        None,
        vec![(200u16, ("first", "String", raw.duplicate()))],
    );
    let r2 = doc.add_route(
        false,
        "x",
        "GET",
        "/a".to_string(),
        None,
        None,
        vec![(200u16, ("second", "String", raw))],
    );
    assert!(r1.is_ok() && r2.is_ok());
    let values = parsed(&doc);
    assert_eq!(values["paths"].as_object().unwrap().len(), 1);
    assert_eq!(
        values["paths"]["/a"]["get"]["responses"]["200"]["description"],
        value("\"second\"")
    );
}

#[test]
fn two_methods_share_one_path_item() {
    let mut doc = SwaggerObject::new("T", "1.0", vec![], "", None);
    let raw = Json::Obj(vec![("type".to_string(), Json::Str("string".to_string()))]);
    let r1 = doc.add_route(
        false,
        "x",
        "GET",
        "/a".to_string(),
        None,
        None,
        vec![(200u16, ("ok", "String", raw.duplicate()))],
    );
    let r2 = doc.add_route(
        false,
        "x",
        "POST",
        "/a".to_string(),
        None,
        None,
        vec![(200u16, ("ok", "String", raw))],
    );
    assert!(r1.is_ok() && r2.is_ok());
    let values = parsed(&doc);
    let item = &values["paths"]["/a"];
    assert!(item.get("get").is_some());
    assert!(item.get("post").is_some());
    assert!(item.get("put").is_none());
    assert!(item.get("patch").is_none());
    assert!(item.get("delete").is_none());
}

#[test]
fn security_flag_controls_requirements() {
    let mut doc = SwaggerObject::new("T", "1.0", vec![], "", None);
    let raw = Json::Obj(vec![("type".to_string(), Json::Str("string".to_string()))]);
    let r1 = doc.add_route(
        true,
        "x",
        "GET",
        "/secure".to_string(),
        None,
        None,
        vec![(200u16, ("ok", "String", raw.duplicate()))],
    );
    let r2 = doc.add_route(
        false,
        "x",
        "GET",
        "/open".to_string(),
        None,
        None,
        vec![(200u16, ("ok", "String", raw))],
    );
    assert!(r1.is_ok() && r2.is_ok());
    let values = parsed(&doc);
    assert_eq!(
        values["paths"]["/secure"]["get"]["security"],
        value(r#"[{"bearerAuth":[]}]"#)
    );
    assert!(values["paths"]["/open"]["get"].get("security").is_none());
}

#[test]
fn unsupported_method_is_rejected() {
    let mut doc = SwaggerObject::new("T", "1.0", vec![], "", None);
    let r = doc.add_route(
        false,
        "x",
        "OPTIONS",
        "/a".to_string(),
        None,
        None,
        vec![(200u16, ("ok", "String", Json::Null))],
    );
    assert!(r.is_err());
    assert!(r.err().unwrap().message().contains("unsupported HTTP method"));
    let values = parsed(&doc);
    assert_eq!(values["paths"], value("{}"));
}

#[test]
fn round_trip_preserves_responses() {
    let mut doc = SwaggerObject::new("T", "1.0", vec!["http://localhost".to_string()], "d", None);
    let raw = Json::Obj(vec![("type".to_string(), Json::Str("string".to_string()))]);
    let r = doc.add_route(
        false,
        "x",
        "GET",
        "/a/{id}".to_string(),
        None,
        None,
        vec![
            (200u16, ("ok", "Thing", raw.duplicate())),
            (404u16, ("missing", "String", raw)),
        ],
    );
    assert!(r.is_ok());
    let text = doc.to_json_string();
    let values: serde_json::Value = serde_json::from_str(&text).unwrap();
    for code in ["200", "404"].iter() {
        let schema =
            &values["paths"]["/a/{id}"]["get"]["responses"][*code]["content"]["application/json"]["schema"];
        assert!(schema.is_object());
    }
    assert_eq!(values["servers"], value(r#"[{"url":"http://localhost"}]"#));
}

#[test]
fn duplicate_status_codes_consolidate() {
    let mut doc = SwaggerObject::new("T", "1.0", vec![], "", None);
    let raw = Json::Obj(vec![("type".to_string(), Json::Str("string".to_string()))]);
    let r = doc.add_route(
        false,
        "x",
        "GET",
        "/a".to_string(),
        None,
        None,
        vec![
            (200u16, ("first", "String", raw.duplicate())),
            (200u16, ("second", "String", raw)),
        ],
    );
    assert!(r.is_ok());
    let values = parsed(&doc);
    let responses = &values["paths"]["/a"]["get"]["responses"];
    assert_eq!(responses.as_object().unwrap().len(), 1);
    assert_eq!(responses["200"]["description"], value("\"second\""));
}

#[test]
fn normalizer_rewrites_references() {
    let raw = Json::Obj(vec![(
        "$ref".to_string(),
        Json::Str("#/definitions/Foo".to_string()),
    )]);
    let out = normalize(&raw);
    assert_eq!(
        value(&out.to_text()),
        value(r##"{"$ref":"#/components/schemas/Foo"}"##)
    );
}

#[test]
fn normalizer_flattens_null_union() {
    let raw = Json::Obj(vec![(
        "type".to_string(),
        Json::Arr(vec![
            Json::Str("string".to_string()),
            Json::Str("null".to_string()),
        ]),
    )]);
    let out = normalize(&raw);
    assert_eq!(
        value(&out.to_text()),
        value(r#"{"type":"string","nullable":true}"#)
    );
}

#[test]
fn normalizer_collapses_singleton_type() {
    let raw = Json::Obj(vec![(
        "type".to_string(),
        Json::Arr(vec![Json::Str("object".to_string())]),
    )]);
    let out = normalize(&raw);
    assert_eq!(value(&out.to_text()), value(r#"{"type":"object"}"#));
}

#[test]
fn normalizer_replaces_network_address_types() {
    let raw = Json::Obj(vec![(
        "addr".to_string(),
        Json::Obj(vec![(
            "$ref".to_string(),
            Json::Str("#/definitions/Ipv6Net".to_string()),
        )]),
    )]);
    let out = normalize(&raw);
    assert_eq!(
        value(&out.to_text()),
        value(r#"{"addr":{"type":"string"}}"#)
    );
}

#[test]
fn normalizer_is_idempotent_on_example() {
    let raw = Json::Obj(vec![
        (
            "type".to_string(),
            Json::Arr(vec![
                Json::Str("string".to_string()),
                Json::Str("null".to_string()),
            ]),
        ),
        (
            "$ref".to_string(),
            Json::Str("#/definitions/Foo".to_string()),
        ),
    ]);
    let once = normalize(&raw);
    let twice = normalize(&once);
    assert_eq!(once.to_text(), twice.to_text());
}

#[test]
fn registry_keeps_last_schema_per_title() {
    let first = Json::Obj(vec![
        ("title".to_string(), Json::Str("T".to_string())),
        ("type".to_string(), Json::Str("integer".to_string())),
    ]);
    let second = Json::Obj(vec![
        ("title".to_string(), Json::Str("T".to_string())),
        ("type".to_string(), Json::Str("string".to_string())),
    ]);
    let doc = SwaggerObject::new("T", "1.0", vec![], "", Some(vec![first, second]));
    let values = parsed(&doc);
    assert_eq!(
        values["components"]["schemas"]["T"],
        value(r#"{"title":"T","type":"string"}"#)
    );
}

#[test]
fn json_text_escapes_and_numbers() {
    let j = Json::Arr(vec![
        Json::Str("a\"b\\c\nd".to_string()),
        Json::Int(-42),
        Json::Int(0),
        Json::Bool(true),
        Json::Null,
    ]);
    assert_eq!(j.to_text(), "[\"a\\\"b\\\\c\\nd\",-42,0,true,null]");
    assert_eq!(Json::Int(i64::MIN).to_text(), "-9223372036854775808");
    assert_eq!(Json::Int(i64::MAX).to_text(), "9223372036854775807");
    let parsed_back: serde_json::Value = serde_json::from_str(&j.to_text()).unwrap();
    assert_eq!(parsed_back[0], value("\"a\\\"b\\\\c\\nd\""));
}

#[test]
fn bearer_scheme_is_always_registered() {
    let doc = SwaggerObject::new("T", "1.0", vec![], "", None);
    let values = parsed(&doc);
    assert_eq!(
        values["components"]["securitySchemes"]["bearerAuth"],
        value(
            r#"{"type":"http","description":"Bearer Authentication See RFC 6750","scheme":"bearer","bearerFormat":"JWT"}"#
        )
    );
    assert!(values.get("security").is_none());
}
