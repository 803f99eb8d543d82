use struct2swagger::Json;
use struct2swagger::RequestBodyObject;
use struct2swagger::SwaggerObject;

const TITLE: &str = "the title";
const VERSION: &str = "1.0.1";
const DESCRIPTION: &str = "the description";

fn simple_struct_schema() -> Json {
    Json::Obj(vec![
        ("title".to_string(), Json::Str("SimpleStruct".to_string())),
        ("type".to_string(), Json::Str("object".to_string())),
    ])
}

fn empty_body() -> RequestBodyObject {
    RequestBodyObject { description: None, content: vec![], required: None }
}

fn parsed(doc: &SwaggerObject) -> serde_json::Value {
    serde_json::from_str(&doc.to_json_string()).unwrap()
}

fn value(text: &str) -> serde_json::Value {
    serde_json::from_str(text).unwrap()
}

#[test]
fn with_response() {
    let mut swagger_object = SwaggerObject::new(TITLE, VERSION, vec![], DESCRIPTION, None);
    let r = swagger_object.add_route(
        false,
        "tag",
        "GET",
        "/".to_string(),
        None,
        None,
        vec![(200u16, (DESCRIPTION, "SimpleStruct", simple_struct_schema()))],
    );
    assert!(r.is_ok());
    let values = parsed(&swagger_object);
    assert_eq!(values["openapi"], value("\"3.0.0\""));
    assert_eq!(values["info"]["title"], value("\"the title\""));
    assert_eq!(values["info"]["version"], value("\"1.0.1\""));
    assert_eq!(
        values["paths"]["/"]["get"]["responses"]["200"],
        value(
            r##"{"description":"the description","content":{"application/json":{"schema":{"$ref":"#/components/schemas/SimpleStruct"}}}}"##
        )
    );
    assert_eq!(values["components"]["schemas"], value("{}"));
}

#[test]
fn with_body() {
    let mut swagger_object = SwaggerObject::new(TITLE, VERSION, vec![], DESCRIPTION, None);
    let r = swagger_object.add_route(
        false,
        "tag",
        "POST",
        "/".to_string(),
        None,
        Some(("SimpleStruct", empty_body())),
        vec![(200u16, (DESCRIPTION, "SimpleStruct", simple_struct_schema()))],
    );
    assert!(r.is_ok());
    let values = parsed(&swagger_object);
    assert_eq!(
        values["paths"]["/"]["post"]["requestBody"],
        value(
            r##"{"content":{"application/json":{"schema":{"$ref":"#/components/schemas/SimpleStruct"}}},"required":true}"##
        )
    );
    assert_eq!(
        values["paths"]["/"]["post"]["responses"]["200"]["content"]["application/json"]["schema"],
        value(r##"{"$ref":"#/components/schemas/SimpleStruct"}"##)
    );
}

#[test]
fn with_query_string() {
    let mut swagger_object = SwaggerObject::new(TITLE, VERSION, vec![], DESCRIPTION, None);
    let r = swagger_object.add_route(
        false,
        "tag",
        "GET",
        "/".to_string(),
        None,
        None,
        vec![(200u16, (DESCRIPTION, "SimpleStruct", simple_struct_schema()))],
    );
    assert!(r.is_ok());
    let values = parsed(&swagger_object);
    // a plain path declares no path parameters, and the reserved explicit
    // parameter list stays unused
    assert!(values["paths"]["/"]["get"].get("parameters").is_none());
    assert_eq!(
        values["paths"]["/"]["get"]["responses"]["200"]["description"],
        value("\"the description\"")
    );
}

#[test]
fn many_methods() {
    let mut swagger_object = SwaggerObject::new(TITLE, VERSION, vec![], DESCRIPTION, None);
    let methods = ["GET", "POST", "PATCH", "DELETE", "PUT"];
    for m in methods.iter() {
        let body = if *m == "GET" || *m == "DELETE" {
            None
        } else {
            Some(("SimpleStruct", empty_body()))
        };
        let r = swagger_object.add_route(
            false,
            "tag",
            m,
            "/".to_string(),
            None,
            body,
            vec![(200u16, (DESCRIPTION, "SimpleStruct", simple_struct_schema()))],
        );
        assert!(r.is_ok());
    }
    let values = parsed(&swagger_object);
    let item = &values["paths"]["/"];
    assert!(item.get("get").is_some());
    assert!(item.get("post").is_some());
    assert!(item.get("patch").is_some());
    assert!(item.get("delete").is_some());
    assert!(item.get("put").is_some());
    assert!(item.get("options").is_none());
    assert!(item.get("head").is_none());
    assert!(item.get("trace").is_none());
    assert_eq!(
        item["post"]["requestBody"]["content"]["application/json"]["schema"],
        value(r##"{"$ref":"#/components/schemas/SimpleStruct"}"##)
    );
    assert!(item["get"].get("requestBody").is_none());
}

#[test]
fn with_enum_body() {
    let schema = Json::Obj(vec![
        ("title".to_string(), Json::Str("SimpleEnum".to_string())),
        (
            "anyOf".to_string(),
            Json::Arr(vec![
                Json::Obj(vec![("type".to_string(), Json::Str("string".to_string()))]),
                Json::Obj(vec![("type".to_string(), Json::Str("null".to_string()))]),
            ]),
        ),
    ]);
    let mut swagger_object =
        SwaggerObject::new(TITLE, VERSION, vec![], DESCRIPTION, Some(vec![schema]));
    let r = swagger_object.add_route(
        false,
        "tag",
        "POST",
        "/".to_string(),
        None,
        Some(("SimpleEnum", empty_body())),
        vec![(200u16, (DESCRIPTION, "SimpleEnum", simple_struct_schema()))],
    );
    assert!(r.is_ok());
    let values = parsed(&swagger_object);
    assert_eq!(
        values["components"]["schemas"]["SimpleEnum"],
        value(
            r#"{"title":"SimpleEnum","anyOf":[{"type":"string"}],"nullable":true}"#
        )
    );
    assert_eq!(
        values["paths"]["/"]["post"]["requestBody"]["content"]["application/json"]["schema"],
        value(r##"{"$ref":"#/components/schemas/SimpleEnum"}"##)
    );
}
