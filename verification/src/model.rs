//! The OpenAPI document model.
//!
//! Each type mirrors one object of the OpenAPI 3.0 document structure. Its
//! `DeepView` is the JSON value it serializes to, with optional fields
//! omitted when absent, and `to_json` builds exactly that value.

use vstd::prelude::*;

use crate::json::Json;
use crate::json::JsonV;
use crate::text::dec_digits;
use crate::text::u64_dec_string;

verus! {

broadcast use crate::json::lemma_vec_json_view, crate::json::lemma_vec_members_view;

pub type HttpStatusCode = u16;

pub type SchemaObject = Json;

pub type PathsObject = Vec<(String, PathItemObject)>;

pub type CallbackObject = Vec<(String, PathItemObject)>;

pub type SecurityRequirementObject = Vec<(String, Json)>;

/// One object member.
pub open spec fn m_one(k: Seq<char>, v: JsonV) -> Seq<(Seq<char>, JsonV)> {
    seq![(k, v)]
}

/// One object member, present only when the value is.
pub open spec fn m_opt(k: Seq<char>, v: Option<JsonV>) -> Seq<(Seq<char>, JsonV)> {
    match v {
        Some(x) => seq![(k, x)],
        None => Seq::empty(),
    }
}

/// An optional string value as an optional JSON string.
pub open spec fn opt_str(v: Option<String>) -> Option<JsonV> {
    match v {
        Some(s) => Some(JsonV::Str(s@)),
        None => None,
    }
}

/// An optional boolean value as an optional JSON boolean.
pub open spec fn opt_bool(v: Option<bool>) -> Option<JsonV> {
    match v {
        Some(b) => Some(JsonV::Bool(b)),
        None => None,
    }
}

/// Optional members as an optional JSON object.
pub open spec fn opt_obj(v: Option<Seq<(Seq<char>, JsonV)>>) -> Option<JsonV> {
    match v {
        Some(ms) => Some(JsonV::Obj(ms)),
        None => None,
    }
}

/// Optional elements as an optional JSON array.
pub open spec fn opt_arr(v: Option<Seq<JsonV>>) -> Option<JsonV> {
    match v {
        Some(es) => Some(JsonV::Arr(es)),
        None => None,
    }
}

/// Texts as JSON strings.
pub open spec fn str_elems(s: Seq<Seq<char>>) -> Seq<JsonV> {
    s.map_values(|t: Seq<char>| JsonV::Str(t))
}

/// Member lists as JSON objects.
pub open spec fn obj_elems(s: Seq<Seq<(Seq<char>, JsonV)>>) -> Seq<JsonV> {
    s.map_values(|m: Seq<(Seq<char>, JsonV)>| JsonV::Obj(m))
}

/// Text-valued members as JSON-string-valued members.
pub open spec fn map_str_members(s: Seq<(Seq<char>, Seq<char>)>) -> Seq<(Seq<char>, JsonV)> {
    s.map_values(|p: (Seq<char>, Seq<char>)| (p.0, JsonV::Str(p.1)))
}

/// Optional texts as an optional JSON array of strings.
pub open spec fn opt_arr_str(v: Option<Seq<Seq<char>>>) -> Option<JsonV> {
    match v {
        Some(es) => Some(JsonV::Arr(str_elems(es))),
        None => None,
    }
}

/// Optional member lists as an optional JSON array of objects.
pub open spec fn opt_arr_obj(v: Option<Seq<Seq<(Seq<char>, JsonV)>>>) -> Option<JsonV> {
    match v {
        Some(es) => Some(JsonV::Arr(obj_elems(es))),
        None => None,
    }
}

/// Optional text-valued members as an optional JSON object.
pub open spec fn opt_obj_str(v: Option<Seq<(Seq<char>, Seq<char>)>>) -> Option<JsonV> {
    match v {
        Some(ms) => Some(JsonV::Obj(map_str_members(ms))),
        None => None,
    }
}

/// The status-code members of a response map, codes written in decimal.
pub open spec fn resp_code_members(s: Seq<(u16, JsonV)>) -> Seq<(Seq<char>, JsonV)> {
    s.map_values(|p: (u16, JsonV)| (dec_digits(p.0 as nat), p.1))
}

fn push_m(ms: &mut Vec<(String, Json)>, k: &str, v: Json)
    ensures
        final(ms).deep_view() == old(ms).deep_view().push((k@, v.deep_view())),
{
    let ghost prev = ms.deep_view();
    ms.push((k.to_owned(), v));
    proof {
        assert(ms.deep_view() =~= prev.push((k@, v.deep_view())));
    }
}

fn push_kv(ms: &mut Vec<(String, Json)>, k: String, v: Json)
    ensures
        final(ms).deep_view() == old(ms).deep_view().push((k@, v.deep_view())),
{
    let ghost prev = ms.deep_view();
    ms.push((k, v));
    proof {
        assert(ms.deep_view() =~= prev.push((ms@.last().0@, ms@.last().1.deep_view())));
    }
}


/// The OpenAPI version this model emits.
pub enum SwaggerVersion {
    V300,
}

impl DeepView for SwaggerVersion {
    type V = JsonV;

    open spec fn deep_view(&self) -> JsonV {
        JsonV::Str("3.0.0"@)
    }
}

impl SwaggerVersion {
    /// Builds the JSON value this version serializes to.
    pub fn to_json(&self) -> (r: Json)
        ensures
            r.deep_view() == self.deep_view(),
    {
        Json::Str("3.0.0".to_owned())
    }
}

/// Where a parameter lives.
pub enum ParameterIn {
    Query,
    Header,
    Path,
    Cookie,
}

impl DeepView for ParameterIn {
    type V = JsonV;

    open spec fn deep_view(&self) -> JsonV {
        match self {
            ParameterIn::Query => JsonV::Str("query"@),
            ParameterIn::Header => JsonV::Str("header"@),
            ParameterIn::Path => JsonV::Str("path"@),
            ParameterIn::Cookie => JsonV::Str("cookie"@),
        }
    }
}

impl ParameterIn {
    /// Builds the JSON value this location serializes to.
    pub fn to_json(&self) -> (r: Json)
        ensures
            r.deep_view() == self.deep_view(),
    {
        match self {
            ParameterIn::Query => Json::Str("query".to_owned()),
            ParameterIn::Header => Json::Str("header".to_owned()),
            ParameterIn::Path => Json::Str("path".to_owned()),
            ParameterIn::Cookie => Json::Str("cookie".to_owned()),
        }
    }
}

/// A free-form JSON value or a runtime expression.
pub enum AnyOrExpression {
    Any(Json),
    Expression(String),
}

impl DeepView for AnyOrExpression {
    type V = JsonV;

    open spec fn deep_view(&self) -> JsonV {
        match self {
            AnyOrExpression::Any(j) => j.deep_view(),
            AnyOrExpression::Expression(s) => JsonV::Str(s@),
        }
    }
}

impl AnyOrExpression {
    /// Builds the JSON value this entry serializes to.
    pub fn to_json(&self) -> (r: Json)
        ensures
            r.deep_view() == self.deep_view(),
    {
        match self {
            AnyOrExpression::Any(j) => j.duplicate(),
            AnyOrExpression::Expression(s) => Json::Str(s.clone()),
        }
    }
}


/// One `ContactObject` of the document.
pub struct ContactObject {
    pub name: Option<String>,
    pub url: Option<String>,
    pub email: Option<String>,
}

/// One `LicenseObject` of the document.
pub struct LicenseObject {
    pub name: String,
    pub url: Option<String>,
}

/// One `ServerVariableObject` of the document.
pub struct ServerVariableObject {
    pub enum_values: Option<Vec<String>>,
    pub default_value: String,
    pub description: Option<String>,
}

/// One `ServerObject` of the document.
pub struct ServerObject {
    pub url: String,
    pub description: Option<String>,
    pub variables: Option<Vec<(String, ServerVariableObject)>>,
}

/// One `InfoObject` of the document.
pub struct InfoObject {
    pub title: String,
    pub description: Option<String>,
    pub terms_of_service: Option<String>,
    pub contact: Option<ContactObject>,
    pub license: Option<LicenseObject>,
    pub version: String,
}

/// One `ExternalDocumentationObject` of the document.
pub struct ExternalDocumentationObject {
    pub description: Option<String>,
    pub url: String,
}

/// One `ParameterObject` of the document.
pub struct ParameterObject {
    pub name: String,
    pub where_in: ParameterIn,
    pub description: Option<String>,
    pub required: Option<bool>,
    pub deprecated: Option<bool>,
    pub allow_empty_value: Option<bool>,
    pub schema: Option<SchemaObjectOrReferenceObject>,
}

/// One `RequestBodyObject` of the document.
pub struct RequestBodyObject {
    pub description: Option<String>,
    pub content: Vec<(String, MediaTypeObject)>,
    pub required: Option<bool>,
}

/// One `MediaTypeObject` of the document.
pub struct MediaTypeObject {
    pub schema: Option<SchemaObjectOrReferenceObject>,
    pub example: Option<Json>,
    pub examples: Option<Vec<(String, ExampleObjectOrReferenceObject)>>,
    pub encoding: Option<Vec<(String, EncodingObject)>>,
}

/// One `EncodingObject` of the document.
pub struct EncodingObject {
    pub content_type: Option<String>,
    pub headers: Option<Vec<(String, HeaderObjectOrReferenceObject)>>,
    pub style: Option<String>,
    pub explode: Option<bool>,
    pub allow_reserved: Option<bool>,
}

/// One `ResponseObject` of the document.
pub struct ResponseObject {
    pub description: String,
    pub headers: Option<Vec<(String, HeaderObjectOrReferenceObject)>>,
    pub content: Option<Vec<(String, MediaTypeObject)>>,
    pub links: Option<Vec<(String, LinkObjectOrReferenceObject)>>,
}

/// One `ExampleObject` of the document.
pub struct ExampleObject {
    pub summary: Option<String>,
    pub description: Option<String>,
    pub value: Option<Json>,
    pub external_value: Option<String>,
}

/// One `LinkObject` of the document.
pub struct LinkObject {
    pub operation_ref: Option<String>,
    pub operation_id: Option<String>,
    pub parameters: Option<Vec<(String, AnyOrExpression)>>,
    pub request_body: Option<AnyOrExpression>,
    pub description: Option<String>,
    pub server: Option<ServerObject>,
}

/// One `HeaderObject` of the document.
pub struct HeaderObject {
    pub description: Option<String>,
    pub required: Option<bool>,
    pub deprecated: Option<bool>,
    pub allow_empty_value: Option<bool>,
}

/// One `TagObject` of the document.
pub struct TagObject {
    pub name: String,
    pub description: Option<String>,
    pub external_docs: Option<ExternalDocumentationObject>,
}

/// One `ReferenceObject` of the document.
pub struct ReferenceObject {
    pub ref_path: String,
}

/// One `DiscriminatorObject` of the document.
pub struct DiscriminatorObject {
    pub property_name: String,
    pub mapping: Option<Vec<(String, String)>>,
}

/// One `XMLObject` of the document.
pub struct XMLObject {
    pub name: Option<String>,
    pub namespace: Option<String>,
    pub prefix: Option<String>,
    pub attribute: Option<bool>,
    pub wrapped: Option<bool>,
}

/// One `SecuritySchemeObject` of the document.
pub struct SecuritySchemeObject {
    pub scheme_type: String,
    pub description: Option<String>,
    pub name: Option<String>,
    pub in_location: Option<ParameterIn>,
    pub scheme: String,
    pub bearer_format: Option<String>,
    pub flows: Option<OAuthFlowsObject>,
    pub open_id_connect_url: Option<String>,
}

/// One `OAuthFlowsObject` of the document.
pub struct OAuthFlowsObject {
    pub implicit: Option<OAuthFlowObject>,
    pub password: Option<OAuthFlowObject>,
    pub client_credentials: Option<OAuthFlowObject>,
    pub authorization_code: Option<OAuthFlowObject>,
}

/// One `OAuthFlowObject` of the document.
pub struct OAuthFlowObject {
    pub authorization_url: String,
    pub token_url: String,
    pub refresh_url: Option<String>,
    pub scopes: Vec<(String, String)>,
}

/// One `PathItemObject` of the document.
pub struct PathItemObject {
    pub ref_path: Option<String>,
    pub summary: Option<String>,
    pub description: Option<String>,
    pub get: Option<OperationObject>,
    pub put: Option<OperationObject>,
    pub post: Option<OperationObject>,
    pub delete: Option<OperationObject>,
    pub options: Option<OperationObject>,
    pub head: Option<OperationObject>,
    pub patch: Option<OperationObject>,
    pub trace: Option<OperationObject>,
    pub servers: Option<Vec<ServerObject>>,
    pub parameters: Option<Vec<ParameterObjectOrReferenceObject>>,
}

/// One `OperationObject` of the document.
pub struct OperationObject {
    pub tags: Option<Vec<String>>,
    pub summary: Option<String>,
    pub description: Option<String>,
    pub external_docs: Option<ExternalDocumentationObject>,
    pub operation_id: Option<String>,
    pub parameters: Option<Vec<Json>>,
    pub request_body: Option<RequestBodyObjectOrReferenceObject>,
    pub responses: ResponsesObject,
    pub callbacks: Option<Vec<(String, Json)>>,
    pub deprecated: Option<bool>,
    pub security: Option<Vec<SecurityRequirementObject>>,
    pub servers: Option<Vec<ServerObject>>,
}

/// One `ComponentsObject` of the document.
pub struct ComponentsObject {
    pub schemas: Option<Vec<(String, Json)>>,
    pub responses: Option<Vec<(String, ResponseObjectOrReferenceObject)>>,
    pub parameters: Option<Vec<(String, ParameterObjectOrReferenceObject)>>,
    pub examples: Option<Vec<(String, ExampleObjectOrReferenceObject)>>,
    pub request_bodies: Option<Vec<(String, RequestBodyObjectOrReferenceObject)>>,
    pub headers: Option<Vec<(String, HeaderObjectOrReferenceObject)>>,
    pub security_schemes: Option<Vec<(String, SecuritySchemeObjectOrReferenceObject)>>,
    pub links: Option<Vec<(String, LinkObjectOrReferenceObject)>>,
    pub callbacks: Option<Vec<(String, CallbackObjectOrReferenceObject)>>,
}

/// One `SwaggerObject` of the document.
pub struct SwaggerObject {
    pub openapi: SwaggerVersion,
    pub info: InfoObject,
    pub servers: Option<Vec<ServerObject>>,
    pub paths: Vec<(String, PathItemObject)>,
    pub components: ComponentsObject,
    pub security: Option<Vec<(String, Json)>>,
    pub tags: Option<Vec<TagObject>>,
    pub external_docs: Option<ExternalDocumentationObject>,
}

/// Either an inline `SchemaObject` or a reference to one.
pub enum SchemaObjectOrReferenceObject {
    SchemaObject(Box<SchemaObject>),
    ReferenceObject(ReferenceObject),
}

/// Either an inline `ResponseObject` or a reference to one.
pub enum ResponseObjectOrReferenceObject {
    ResponseObject(Box<ResponseObject>),
    ReferenceObject(ReferenceObject),
}

/// Either an inline `ParameterObject` or a reference to one.
pub enum ParameterObjectOrReferenceObject {
    ParameterObject(Box<ParameterObject>),
    ReferenceObject(ReferenceObject),
}

/// Either an inline `ExampleObject` or a reference to one.
pub enum ExampleObjectOrReferenceObject {
    ExampleObject(Box<ExampleObject>),
    ReferenceObject(ReferenceObject),
}

/// Either an inline `RequestBodyObject` or a reference to one.
pub enum RequestBodyObjectOrReferenceObject {
    RequestBodyObject(Box<RequestBodyObject>),
    ReferenceObject(ReferenceObject),
}

/// Either an inline `HeaderObject` or a reference to one.
pub enum HeaderObjectOrReferenceObject {
    HeaderObject(Box<HeaderObject>),
    ReferenceObject(ReferenceObject),
}

/// Either an inline `SecuritySchemeObject` or a reference to one.
pub enum SecuritySchemeObjectOrReferenceObject {
    SecuritySchemeObject(Box<SecuritySchemeObject>),
    ReferenceObject(ReferenceObject),
}

/// Either an inline `LinkObject` or a reference to one.
pub enum LinkObjectOrReferenceObject {
    LinkObject(Box<LinkObject>),
    ReferenceObject(ReferenceObject),
}

/// Either an inline `CallbackObject` or a reference to one.
pub enum CallbackObjectOrReferenceObject {
    CallbackObject(Box<CallbackObject>),
    ReferenceObject(ReferenceObject),
}

/// The per-status-code responses of one operation.
pub struct ResponsesObject {
    pub default: Option<ResponseObjectOrReferenceObject>,
    pub responses_per_http_status_codes: Option<Vec<(HttpStatusCode, ResponseObjectOrReferenceObject)>>,
}

impl DeepView for ResponsesObject {
    type V = JsonV;

    open spec fn deep_view(&self) -> JsonV {
        JsonV::Obj(
            resp_code_members(
                match self.responses_per_http_status_codes {
                    Some(v) => v.deep_view(),
                    None => Seq::empty(),
                },
            ) + m_opt(
                "default"@,
                match self.default {
                    Some(d) => Some(d.deep_view()),
                    None => None,
                },
            ),
        )
    }
}

impl ResponsesObject {
    /// Builds the JSON value this response map serializes to: status codes
    /// as decimal strings, then the `default` entry if present.
    pub fn to_json(&self) -> (r: Json)
        ensures
            r.deep_view() == self.deep_view(),
    {
        let mut ms: Vec<(String, Json)> = Vec::new();
        let ghost codes = match &self.responses_per_http_status_codes {
            Some(v) => v.deep_view(),
            None => Seq::empty(),
        };
        if let Some(v) = &self.responses_per_http_status_codes {
            let mut i: usize = 0;
            while i < v.len()
                invariant
                    0 <= i <= v@.len(),
                    codes == v.deep_view(),
                    ms.deep_view() =~= resp_code_members(codes.take(i as int)),
                decreases v@.len() - i,
            {
                push_kv(&mut ms, u64_dec_string(v[i].0 as u64), v[i].1.to_json());
                proof {
                    assert(codes.take(i + 1) =~= codes.take(i as int).push(codes[i as int]));
                    assert(resp_code_members(codes.take(i + 1)) =~= resp_code_members(
                        codes.take(i as int),
                    ).push((dec_digits(codes[i as int].0 as nat), codes[i as int].1)));
                }
                i = i + 1;
            }
            proof {
                assert(codes.take(v@.len() as int) =~= codes);
            }
        }
        proof {
            assert(ms.deep_view() =~= resp_code_members(codes));
        }
        if let Some(d) = &self.default {
            push_m(&mut ms, "default", d.to_json());
        }
        let ghost want = resp_code_members(codes) + m_opt(
            "default"@,
            match &self.default {
                Some(d) => Some(d.deep_view()),
                None => None,
            },
        );
        proof {
            crate::json::lemma_vec_members_view(ms);
            assert(ms.deep_view() =~= want);
        }
        let r = Json::Obj(ms);
        proof {
            assert(r.deep_view() =~= self.deep_view());
        }
        r
    }
}

fn map_json_server_variable(v: &Vec<(String, ServerVariableObject)>) -> (r: Json)
    ensures
        r.deep_view() == JsonV::Obj(v.deep_view()),
{
    let ghost target = v.deep_view();
    let mut ms: Vec<(String, Json)> = Vec::new();
    let mut i: usize = 0;
    while i < v.len()
        invariant
            0 <= i <= v@.len(),
            target == v.deep_view(),
            target.len() == v@.len(),
            ms.deep_view() =~= target.take(i as int),
        decreases v@.len() - i,
    {
        push_kv(&mut ms, v[i].0.clone(), v[i].1.to_json());
        proof {
            assert(target.take(i + 1) =~= target.take(i as int).push(target[i as int]));
        }
        i = i + 1;
    }
    proof {
        assert(target.take(v@.len() as int) =~= target);
    }
    proof {
        crate::json::lemma_vec_members_view(ms);
    }
    let r = Json::Obj(ms);
    proof {
        assert(r.deep_view() =~= JsonV::Obj(target));
    }
    r
}

fn map_json_media_type(v: &Vec<(String, MediaTypeObject)>) -> (r: Json)
    ensures
        r.deep_view() == JsonV::Obj(v.deep_view()),
{
    let ghost target = v.deep_view();
    let mut ms: Vec<(String, Json)> = Vec::new();
    let mut i: usize = 0;
    while i < v.len()
        invariant
            0 <= i <= v@.len(),
            target == v.deep_view(),
            target.len() == v@.len(),
            ms.deep_view() =~= target.take(i as int),
        decreases v@.len() - i,
    {
        push_kv(&mut ms, v[i].0.clone(), v[i].1.to_json());
        proof {
            assert(target.take(i + 1) =~= target.take(i as int).push(target[i as int]));
        }
        i = i + 1;
    }
    proof {
        assert(target.take(v@.len() as int) =~= target);
    }
    proof {
        crate::json::lemma_vec_members_view(ms);
    }
    let r = Json::Obj(ms);
    proof {
        assert(r.deep_view() =~= JsonV::Obj(target));
    }
    r
}

fn map_json_example_or(v: &Vec<(String, ExampleObjectOrReferenceObject)>) -> (r: Json)
    ensures
        r.deep_view() == JsonV::Obj(v.deep_view()),
{
    let ghost target = v.deep_view();
    let mut ms: Vec<(String, Json)> = Vec::new();
    let mut i: usize = 0;
    while i < v.len()
        invariant
            0 <= i <= v@.len(),
            target == v.deep_view(),
            target.len() == v@.len(),
            ms.deep_view() =~= target.take(i as int),
        decreases v@.len() - i,
    {
        push_kv(&mut ms, v[i].0.clone(), v[i].1.to_json());
        proof {
            assert(target.take(i + 1) =~= target.take(i as int).push(target[i as int]));
        }
        i = i + 1;
    }
    proof {
        assert(target.take(v@.len() as int) =~= target);
    }
    proof {
        crate::json::lemma_vec_members_view(ms);
    }
    let r = Json::Obj(ms);
    proof {
        assert(r.deep_view() =~= JsonV::Obj(target));
    }
    r
}

fn map_json_encoding(v: &Vec<(String, EncodingObject)>) -> (r: Json)
    ensures
        r.deep_view() == JsonV::Obj(v.deep_view()),
{
    let ghost target = v.deep_view();
    let mut ms: Vec<(String, Json)> = Vec::new();
    let mut i: usize = 0;
    while i < v.len()
        invariant
            0 <= i <= v@.len(),
            target == v.deep_view(),
            target.len() == v@.len(),
            ms.deep_view() =~= target.take(i as int),
        decreases v@.len() - i,
    {
        push_kv(&mut ms, v[i].0.clone(), v[i].1.to_json());
        proof {
            assert(target.take(i + 1) =~= target.take(i as int).push(target[i as int]));
        }
        i = i + 1;
    }
    proof {
        assert(target.take(v@.len() as int) =~= target);
    }
    proof {
        crate::json::lemma_vec_members_view(ms);
    }
    let r = Json::Obj(ms);
    proof {
        assert(r.deep_view() =~= JsonV::Obj(target));
    }
    r
}

fn map_json_header_or(v: &Vec<(String, HeaderObjectOrReferenceObject)>) -> (r: Json)
    ensures
        r.deep_view() == JsonV::Obj(v.deep_view()),
{
    let ghost target = v.deep_view();
    let mut ms: Vec<(String, Json)> = Vec::new();
    let mut i: usize = 0;
    while i < v.len()
        invariant
            0 <= i <= v@.len(),
            target == v.deep_view(),
            target.len() == v@.len(),
            ms.deep_view() =~= target.take(i as int),
        decreases v@.len() - i,
    {
        push_kv(&mut ms, v[i].0.clone(), v[i].1.to_json());
        proof {
            assert(target.take(i + 1) =~= target.take(i as int).push(target[i as int]));
        }
        i = i + 1;
    }
    proof {
        assert(target.take(v@.len() as int) =~= target);
    }
    proof {
        crate::json::lemma_vec_members_view(ms);
    }
    let r = Json::Obj(ms);
    proof {
        assert(r.deep_view() =~= JsonV::Obj(target));
    }
    r
}

fn map_json_link_or(v: &Vec<(String, LinkObjectOrReferenceObject)>) -> (r: Json)
    ensures
        r.deep_view() == JsonV::Obj(v.deep_view()),
{
    let ghost target = v.deep_view();
    let mut ms: Vec<(String, Json)> = Vec::new();
    let mut i: usize = 0;
    while i < v.len()
        invariant
            0 <= i <= v@.len(),
            target == v.deep_view(),
            target.len() == v@.len(),
            ms.deep_view() =~= target.take(i as int),
        decreases v@.len() - i,
    {
        push_kv(&mut ms, v[i].0.clone(), v[i].1.to_json());
        proof {
            assert(target.take(i + 1) =~= target.take(i as int).push(target[i as int]));
        }
        i = i + 1;
    }
    proof {
        assert(target.take(v@.len() as int) =~= target);
    }
    proof {
        crate::json::lemma_vec_members_view(ms);
    }
    let r = Json::Obj(ms);
    proof {
        assert(r.deep_view() =~= JsonV::Obj(target));
    }
    r
}

fn map_json_response_or(v: &Vec<(String, ResponseObjectOrReferenceObject)>) -> (r: Json)
    ensures
        r.deep_view() == JsonV::Obj(v.deep_view()),
{
    let ghost target = v.deep_view();
    let mut ms: Vec<(String, Json)> = Vec::new();
    let mut i: usize = 0;
    while i < v.len()
        invariant
            0 <= i <= v@.len(),
            target == v.deep_view(),
            target.len() == v@.len(),
            ms.deep_view() =~= target.take(i as int),
        decreases v@.len() - i,
    {
        push_kv(&mut ms, v[i].0.clone(), v[i].1.to_json());
        proof {
            assert(target.take(i + 1) =~= target.take(i as int).push(target[i as int]));
        }
        i = i + 1;
    }
    proof {
        assert(target.take(v@.len() as int) =~= target);
    }
    proof {
        crate::json::lemma_vec_members_view(ms);
    }
    let r = Json::Obj(ms);
    proof {
        assert(r.deep_view() =~= JsonV::Obj(target));
    }
    r
}

fn map_json_parameter_or(v: &Vec<(String, ParameterObjectOrReferenceObject)>) -> (r: Json)
    ensures
        r.deep_view() == JsonV::Obj(v.deep_view()),
{
    let ghost target = v.deep_view();
    let mut ms: Vec<(String, Json)> = Vec::new();
    let mut i: usize = 0;
    while i < v.len()
        invariant
            0 <= i <= v@.len(),
            target == v.deep_view(),
            target.len() == v@.len(),
            ms.deep_view() =~= target.take(i as int),
        decreases v@.len() - i,
    {
        push_kv(&mut ms, v[i].0.clone(), v[i].1.to_json());
        proof {
            assert(target.take(i + 1) =~= target.take(i as int).push(target[i as int]));
        }
        i = i + 1;
    }
    proof {
        assert(target.take(v@.len() as int) =~= target);
    }
    proof {
        crate::json::lemma_vec_members_view(ms);
    }
    let r = Json::Obj(ms);
    proof {
        assert(r.deep_view() =~= JsonV::Obj(target));
    }
    r
}

fn map_json_request_body_or(v: &Vec<(String, RequestBodyObjectOrReferenceObject)>) -> (r: Json)
    ensures
        r.deep_view() == JsonV::Obj(v.deep_view()),
{
    let ghost target = v.deep_view();
    let mut ms: Vec<(String, Json)> = Vec::new();
    let mut i: usize = 0;
    while i < v.len()
        invariant
            0 <= i <= v@.len(),
            target == v.deep_view(),
            target.len() == v@.len(),
            ms.deep_view() =~= target.take(i as int),
        decreases v@.len() - i,
    {
        push_kv(&mut ms, v[i].0.clone(), v[i].1.to_json());
        proof {
            assert(target.take(i + 1) =~= target.take(i as int).push(target[i as int]));
        }
        i = i + 1;
    }
    proof {
        assert(target.take(v@.len() as int) =~= target);
    }
    proof {
        crate::json::lemma_vec_members_view(ms);
    }
    let r = Json::Obj(ms);
    proof {
        assert(r.deep_view() =~= JsonV::Obj(target));
    }
    r
}

fn map_json_security_scheme_or(v: &Vec<(String, SecuritySchemeObjectOrReferenceObject)>) -> (r: Json)
    ensures
        r.deep_view() == JsonV::Obj(v.deep_view()),
{
    let ghost target = v.deep_view();
    let mut ms: Vec<(String, Json)> = Vec::new();
    let mut i: usize = 0;
    while i < v.len()
        invariant
            0 <= i <= v@.len(),
            target == v.deep_view(),
            target.len() == v@.len(),
            ms.deep_view() =~= target.take(i as int),
        decreases v@.len() - i,
    {
        push_kv(&mut ms, v[i].0.clone(), v[i].1.to_json());
        proof {
            assert(target.take(i + 1) =~= target.take(i as int).push(target[i as int]));
        }
        i = i + 1;
    }
    proof {
        assert(target.take(v@.len() as int) =~= target);
    }
    proof {
        crate::json::lemma_vec_members_view(ms);
    }
    let r = Json::Obj(ms);
    proof {
        assert(r.deep_view() =~= JsonV::Obj(target));
    }
    r
}

fn map_json_callback_or(v: &Vec<(String, CallbackObjectOrReferenceObject)>) -> (r: Json)
    ensures
        r.deep_view() == JsonV::Obj(v.deep_view()),
{
    let ghost target = v.deep_view();
    let mut ms: Vec<(String, Json)> = Vec::new();
    let mut i: usize = 0;
    while i < v.len()
        invariant
            0 <= i <= v@.len(),
            target == v.deep_view(),
            target.len() == v@.len(),
            ms.deep_view() =~= target.take(i as int),
        decreases v@.len() - i,
    {
        push_kv(&mut ms, v[i].0.clone(), v[i].1.to_json());
        proof {
            assert(target.take(i + 1) =~= target.take(i as int).push(target[i as int]));
        }
        i = i + 1;
    }
    proof {
        assert(target.take(v@.len() as int) =~= target);
    }
    proof {
        crate::json::lemma_vec_members_view(ms);
    }
    let r = Json::Obj(ms);
    proof {
        assert(r.deep_view() =~= JsonV::Obj(target));
    }
    r
}

fn map_json_any_or_expression(v: &Vec<(String, AnyOrExpression)>) -> (r: Json)
    ensures
        r.deep_view() == JsonV::Obj(v.deep_view()),
{
    let ghost target = v.deep_view();
    let mut ms: Vec<(String, Json)> = Vec::new();
    let mut i: usize = 0;
    while i < v.len()
        invariant
            0 <= i <= v@.len(),
            target == v.deep_view(),
            target.len() == v@.len(),
            ms.deep_view() =~= target.take(i as int),
        decreases v@.len() - i,
    {
        push_kv(&mut ms, v[i].0.clone(), v[i].1.to_json());
        proof {
            assert(target.take(i + 1) =~= target.take(i as int).push(target[i as int]));
        }
        i = i + 1;
    }
    proof {
        assert(target.take(v@.len() as int) =~= target);
    }
    proof {
        crate::json::lemma_vec_members_view(ms);
    }
    let r = Json::Obj(ms);
    proof {
        assert(r.deep_view() =~= JsonV::Obj(target));
    }
    r
}

fn map_json_path_item(v: &Vec<(String, PathItemObject)>) -> (r: Json)
    ensures
        r.deep_view() == JsonV::Obj(v.deep_view()),
{
    let ghost target = v.deep_view();
    let mut ms: Vec<(String, Json)> = Vec::new();
    let mut i: usize = 0;
    while i < v.len()
        invariant
            0 <= i <= v@.len(),
            target == v.deep_view(),
            target.len() == v@.len(),
            ms.deep_view() =~= target.take(i as int),
        decreases v@.len() - i,
    {
        push_kv(&mut ms, v[i].0.clone(), v[i].1.to_json());
        proof {
            assert(target.take(i + 1) =~= target.take(i as int).push(target[i as int]));
        }
        i = i + 1;
    }
    proof {
        assert(target.take(v@.len() as int) =~= target);
    }
    proof {
        crate::json::lemma_vec_members_view(ms);
    }
    let r = Json::Obj(ms);
    proof {
        assert(r.deep_view() =~= JsonV::Obj(target));
    }
    r
}

fn map_json_json(v: &Vec<(String, Json)>) -> (r: Json)
    ensures
        r.deep_view() == JsonV::Obj(v.deep_view()),
{
    let ghost target = v.deep_view();
    let mut ms: Vec<(String, Json)> = Vec::new();
    let mut i: usize = 0;
    while i < v.len()
        invariant
            0 <= i <= v@.len(),
            target == v.deep_view(),
            target.len() == v@.len(),
            ms.deep_view() =~= target.take(i as int),
        decreases v@.len() - i,
    {
        push_kv(&mut ms, v[i].0.clone(), v[i].1.duplicate());
        proof {
            assert(target.take(i + 1) =~= target.take(i as int).push(target[i as int]));
        }
        i = i + 1;
    }
    proof {
        assert(target.take(v@.len() as int) =~= target);
    }
    proof {
        crate::json::lemma_vec_members_view(ms);
    }
    let r = Json::Obj(ms);
    proof {
        assert(r.deep_view() =~= JsonV::Obj(target));
    }
    r
}

fn map_json_str(v: &Vec<(String, String)>) -> (r: Json)
    ensures
        r.deep_view() == JsonV::Obj(map_str_members(v.deep_view())),
{
    let ghost target = map_str_members(v.deep_view());
    let mut ms: Vec<(String, Json)> = Vec::new();
    let mut i: usize = 0;
    while i < v.len()
        invariant
            0 <= i <= v@.len(),
            target == map_str_members(v.deep_view()),
            target.len() == v@.len(),
            ms.deep_view() =~= target.take(i as int),
        decreases v@.len() - i,
    {
        push_kv(&mut ms, v[i].0.clone(), Json::Str(v[i].1.clone()));
        proof {
            assert(target.take(i + 1) =~= target.take(i as int).push(target[i as int]));
        }
        i = i + 1;
    }
    proof {
        assert(target.take(v@.len() as int) =~= target);
    }
    proof {
        crate::json::lemma_vec_members_view(ms);
    }
    let r = Json::Obj(ms);
    proof {
        assert(r.deep_view() =~= JsonV::Obj(target));
    }
    r
}

fn arr_json_server(v: &Vec<ServerObject>) -> (r: Json)
    ensures
        r.deep_view() == JsonV::Arr(v.deep_view()),
{
    let ghost target = v.deep_view();
    let mut out: Vec<Json> = Vec::new();
    let mut i: usize = 0;
    while i < v.len()
        invariant
            0 <= i <= v@.len(),
            target == v.deep_view(),
            target.len() == v@.len(),
            out.deep_view() =~= target.take(i as int),
        decreases v@.len() - i,
    {
        let ghost prev = out.deep_view();
        let e = v[i].to_json();
        out.push(e);
        proof {
            assert(out.deep_view() =~= prev.push(out@.last().deep_view()));
            assert(target.take(i + 1) =~= target.take(i as int).push(target[i as int]));
        }
        i = i + 1;
    }
    proof {
        assert(target.take(v@.len() as int) =~= target);
    }
    proof {
        crate::json::lemma_vec_json_view(out);
    }
    let r = Json::Arr(out);
    proof {
        assert(r.deep_view() =~= JsonV::Arr(target));
    }
    r
}

fn arr_json_parameter_or(v: &Vec<ParameterObjectOrReferenceObject>) -> (r: Json)
    ensures
        r.deep_view() == JsonV::Arr(v.deep_view()),
{
    let ghost target = v.deep_view();
    let mut out: Vec<Json> = Vec::new();
    let mut i: usize = 0;
    while i < v.len()
        invariant
            0 <= i <= v@.len(),
            target == v.deep_view(),
            target.len() == v@.len(),
            out.deep_view() =~= target.take(i as int),
        decreases v@.len() - i,
    {
        let ghost prev = out.deep_view();
        let e = v[i].to_json();
        out.push(e);
        proof {
            assert(out.deep_view() =~= prev.push(out@.last().deep_view()));
            assert(target.take(i + 1) =~= target.take(i as int).push(target[i as int]));
        }
        i = i + 1;
    }
    proof {
        assert(target.take(v@.len() as int) =~= target);
    }
    proof {
        crate::json::lemma_vec_json_view(out);
    }
    let r = Json::Arr(out);
    proof {
        assert(r.deep_view() =~= JsonV::Arr(target));
    }
    r
}

fn arr_json_tag(v: &Vec<TagObject>) -> (r: Json)
    ensures
        r.deep_view() == JsonV::Arr(v.deep_view()),
{
    let ghost target = v.deep_view();
    let mut out: Vec<Json> = Vec::new();
    let mut i: usize = 0;
    while i < v.len()
        invariant
            0 <= i <= v@.len(),
            target == v.deep_view(),
            target.len() == v@.len(),
            out.deep_view() =~= target.take(i as int),
        decreases v@.len() - i,
    {
        let ghost prev = out.deep_view();
        let e = v[i].to_json();
        out.push(e);
        proof {
            assert(out.deep_view() =~= prev.push(out@.last().deep_view()));
            assert(target.take(i + 1) =~= target.take(i as int).push(target[i as int]));
        }
        i = i + 1;
    }
    proof {
        assert(target.take(v@.len() as int) =~= target);
    }
    proof {
        crate::json::lemma_vec_json_view(out);
    }
    let r = Json::Arr(out);
    proof {
        assert(r.deep_view() =~= JsonV::Arr(target));
    }
    r
}

fn arr_json_str(v: &Vec<String>) -> (r: Json)
    ensures
        r.deep_view() == JsonV::Arr(str_elems(v.deep_view())),
{
    let ghost target = str_elems(v.deep_view());
    let mut out: Vec<Json> = Vec::new();
    let mut i: usize = 0;
    while i < v.len()
        invariant
            0 <= i <= v@.len(),
            target == str_elems(v.deep_view()),
            target.len() == v@.len(),
            out.deep_view() =~= target.take(i as int),
        decreases v@.len() - i,
    {
        let ghost prev = out.deep_view();
        let e = Json::Str(v[i].clone());
        out.push(e);
        proof {
            assert(out.deep_view() =~= prev.push(out@.last().deep_view()));
            assert(target.take(i + 1) =~= target.take(i as int).push(target[i as int]));
        }
        i = i + 1;
    }
    proof {
        assert(target.take(v@.len() as int) =~= target);
    }
    proof {
        crate::json::lemma_vec_json_view(out);
    }
    let r = Json::Arr(out);
    proof {
        assert(r.deep_view() =~= JsonV::Arr(target));
    }
    r
}

fn arr_json_json(v: &Vec<Json>) -> (r: Json)
    ensures
        r.deep_view() == JsonV::Arr(v.deep_view()),
{
    let ghost target = v.deep_view();
    let mut out: Vec<Json> = Vec::new();
    let mut i: usize = 0;
    while i < v.len()
        invariant
            0 <= i <= v@.len(),
            target == v.deep_view(),
            target.len() == v@.len(),
            out.deep_view() =~= target.take(i as int),
        decreases v@.len() - i,
    {
        let ghost prev = out.deep_view();
        let e = v[i].duplicate();
        out.push(e);
        proof {
            assert(out.deep_view() =~= prev.push(out@.last().deep_view()));
            assert(target.take(i + 1) =~= target.take(i as int).push(target[i as int]));
        }
        i = i + 1;
    }
    proof {
        assert(target.take(v@.len() as int) =~= target);
    }
    proof {
        crate::json::lemma_vec_json_view(out);
    }
    let r = Json::Arr(out);
    proof {
        assert(r.deep_view() =~= JsonV::Arr(target));
    }
    r
}

fn arr_json_sec(v: &Vec<SecurityRequirementObject>) -> (r: Json)
    ensures
        r.deep_view() == JsonV::Arr(obj_elems(v.deep_view())),
{
    let ghost target = obj_elems(v.deep_view());
    let mut out: Vec<Json> = Vec::new();
    let mut i: usize = 0;
    while i < v.len()
        invariant
            0 <= i <= v@.len(),
            target == obj_elems(v.deep_view()),
            target.len() == v@.len(),
            out.deep_view() =~= target.take(i as int),
        decreases v@.len() - i,
    {
        let ghost prev = out.deep_view();
        let e = map_json_json(&v[i]);
        out.push(e);
        proof {
            assert(out.deep_view() =~= prev.push(out@.last().deep_view()));
            assert(target.take(i + 1) =~= target.take(i as int).push(target[i as int]));
        }
        i = i + 1;
    }
    proof {
        assert(target.take(v@.len() as int) =~= target);
    }
    proof {
        crate::json::lemma_vec_json_view(out);
    }
    let r = Json::Arr(out);
    proof {
        assert(r.deep_view() =~= JsonV::Arr(target));
    }
    r
}

impl DeepView for SchemaObjectOrReferenceObject {
    type V = JsonV;

    open spec fn deep_view(&self) -> JsonV {
        match self {
            SchemaObjectOrReferenceObject::SchemaObject(x) => x.deep_view(),
            SchemaObjectOrReferenceObject::ReferenceObject(x) => x.deep_view(),
        }
    }
}

impl SchemaObjectOrReferenceObject {
    /// Builds the JSON value this entry serializes to.
    pub fn to_json(&self) -> (r: Json)
        ensures
            r.deep_view() == self.deep_view(),
    {
        match self {
            SchemaObjectOrReferenceObject::SchemaObject(x) => x.duplicate(),
            SchemaObjectOrReferenceObject::ReferenceObject(x) => x.to_json(),
        }
    }
}

impl DeepView for ResponseObjectOrReferenceObject {
    type V = JsonV;

    open spec fn deep_view(&self) -> JsonV {
        match self {
            ResponseObjectOrReferenceObject::ResponseObject(x) => x.deep_view(),
            ResponseObjectOrReferenceObject::ReferenceObject(x) => x.deep_view(),
        }
    }
}

impl ResponseObjectOrReferenceObject {
    /// Builds the JSON value this entry serializes to.
    pub fn to_json(&self) -> (r: Json)
        ensures
            r.deep_view() == self.deep_view(),
    {
        match self {
            ResponseObjectOrReferenceObject::ResponseObject(x) => x.to_json(),
            ResponseObjectOrReferenceObject::ReferenceObject(x) => x.to_json(),
        }
    }
}

impl DeepView for ParameterObjectOrReferenceObject {
    type V = JsonV;

    open spec fn deep_view(&self) -> JsonV {
        match self {
            ParameterObjectOrReferenceObject::ParameterObject(x) => x.deep_view(),
            ParameterObjectOrReferenceObject::ReferenceObject(x) => x.deep_view(),
        }
    }
}

impl ParameterObjectOrReferenceObject {
    /// Builds the JSON value this entry serializes to.
    pub fn to_json(&self) -> (r: Json)
        ensures
            r.deep_view() == self.deep_view(),
    {
        match self {
            ParameterObjectOrReferenceObject::ParameterObject(x) => x.to_json(),
            ParameterObjectOrReferenceObject::ReferenceObject(x) => x.to_json(),
        }
    }
}

impl DeepView for ExampleObjectOrReferenceObject {
    type V = JsonV;

    open spec fn deep_view(&self) -> JsonV {
        match self {
            ExampleObjectOrReferenceObject::ExampleObject(x) => x.deep_view(),
            ExampleObjectOrReferenceObject::ReferenceObject(x) => x.deep_view(),
        }
    }
}

impl ExampleObjectOrReferenceObject {
    /// Builds the JSON value this entry serializes to.
    pub fn to_json(&self) -> (r: Json)
        ensures
            r.deep_view() == self.deep_view(),
    {
        match self {
            ExampleObjectOrReferenceObject::ExampleObject(x) => x.to_json(),
            ExampleObjectOrReferenceObject::ReferenceObject(x) => x.to_json(),
        }
    }
}

impl DeepView for RequestBodyObjectOrReferenceObject {
    type V = JsonV;

    open spec fn deep_view(&self) -> JsonV {
        match self {
            RequestBodyObjectOrReferenceObject::RequestBodyObject(x) => x.deep_view(),
            RequestBodyObjectOrReferenceObject::ReferenceObject(x) => x.deep_view(),
        }
    }
}

impl RequestBodyObjectOrReferenceObject {
    /// Builds the JSON value this entry serializes to.
    pub fn to_json(&self) -> (r: Json)
        ensures
            r.deep_view() == self.deep_view(),
    {
        match self {
            RequestBodyObjectOrReferenceObject::RequestBodyObject(x) => x.to_json(),
            RequestBodyObjectOrReferenceObject::ReferenceObject(x) => x.to_json(),
        }
    }
}

impl DeepView for HeaderObjectOrReferenceObject {
    type V = JsonV;

    open spec fn deep_view(&self) -> JsonV {
        match self {
            HeaderObjectOrReferenceObject::HeaderObject(x) => x.deep_view(),
            HeaderObjectOrReferenceObject::ReferenceObject(x) => x.deep_view(),
        }
    }
}

impl HeaderObjectOrReferenceObject {
    /// Builds the JSON value this entry serializes to.
    pub fn to_json(&self) -> (r: Json)
        ensures
            r.deep_view() == self.deep_view(),
    {
        match self {
            HeaderObjectOrReferenceObject::HeaderObject(x) => x.to_json(),
            HeaderObjectOrReferenceObject::ReferenceObject(x) => x.to_json(),
        }
    }
}

impl DeepView for SecuritySchemeObjectOrReferenceObject {
    type V = JsonV;

    open spec fn deep_view(&self) -> JsonV {
        match self {
            SecuritySchemeObjectOrReferenceObject::SecuritySchemeObject(x) => x.deep_view(),
            SecuritySchemeObjectOrReferenceObject::ReferenceObject(x) => x.deep_view(),
        }
    }
}

impl SecuritySchemeObjectOrReferenceObject {
    /// Builds the JSON value this entry serializes to.
    pub fn to_json(&self) -> (r: Json)
        ensures
            r.deep_view() == self.deep_view(),
    {
        match self {
            SecuritySchemeObjectOrReferenceObject::SecuritySchemeObject(x) => x.to_json(),
            SecuritySchemeObjectOrReferenceObject::ReferenceObject(x) => x.to_json(),
        }
    }
}

impl DeepView for LinkObjectOrReferenceObject {
    type V = JsonV;

    open spec fn deep_view(&self) -> JsonV {
        match self {
            LinkObjectOrReferenceObject::LinkObject(x) => x.deep_view(),
            LinkObjectOrReferenceObject::ReferenceObject(x) => x.deep_view(),
        }
    }
}

impl LinkObjectOrReferenceObject {
    /// Builds the JSON value this entry serializes to.
    pub fn to_json(&self) -> (r: Json)
        ensures
            r.deep_view() == self.deep_view(),
    {
        match self {
            LinkObjectOrReferenceObject::LinkObject(x) => x.to_json(),
            LinkObjectOrReferenceObject::ReferenceObject(x) => x.to_json(),
        }
    }
}

impl DeepView for CallbackObjectOrReferenceObject {
    type V = JsonV;

    open spec fn deep_view(&self) -> JsonV {
        match self {
            CallbackObjectOrReferenceObject::CallbackObject(x) => JsonV::Obj(x.deep_view()),
            CallbackObjectOrReferenceObject::ReferenceObject(x) => x.deep_view(),
        }
    }
}

impl CallbackObjectOrReferenceObject {
    /// Builds the JSON value this entry serializes to.
    pub fn to_json(&self) -> (r: Json)
        ensures
            r.deep_view() == self.deep_view(),
    {
        match self {
            CallbackObjectOrReferenceObject::CallbackObject(x) => map_json_path_item(&**x),
            CallbackObjectOrReferenceObject::ReferenceObject(x) => x.to_json(),
        }
    }
}

impl DeepView for ContactObject {
    type V = JsonV;

    open spec fn deep_view(&self) -> JsonV {
        JsonV::Obj(m_opt("name"@, opt_str(self.name)) + m_opt("url"@, opt_str(self.url)) + m_opt("email"@, opt_str(self.email)))
    }
}

impl ContactObject {
    /// Builds the JSON value this object serializes to.
    pub fn to_json(&self) -> (r: Json)
        ensures
            r.deep_view() == self.deep_view(),
    {
        let mut ms: Vec<(String, Json)> = Vec::new();
        let ghost acc0 = Seq::<(Seq<char>, JsonV)>::empty();
        if let Some(x) = &self.name {
            push_m(&mut ms, "name", Json::Str(x.clone()));
        }
        let ghost acc1 = acc0 + m_opt("name"@, opt_str(self.name));
        proof {
            assert(ms.deep_view() =~= acc1);
        }
        if let Some(x) = &self.url {
            push_m(&mut ms, "url", Json::Str(x.clone()));
        }
        let ghost acc2 = acc1 + m_opt("url"@, opt_str(self.url));
        proof {
            assert(ms.deep_view() =~= acc2);
        }
        if let Some(x) = &self.email {
            push_m(&mut ms, "email", Json::Str(x.clone()));
        }
        let ghost acc3 = acc2 + m_opt("email"@, opt_str(self.email));
        proof {
            assert(ms.deep_view() =~= acc3);
        }
        proof {
            crate::json::lemma_vec_members_view(ms);
        }
        let r = Json::Obj(ms);
        proof {
            assert(r.deep_view() =~= self.deep_view());
        }
        r
    }
}

impl DeepView for LicenseObject {
    type V = JsonV;

    open spec fn deep_view(&self) -> JsonV {
        JsonV::Obj(m_one("name"@, JsonV::Str(self.name@)) + m_opt("url"@, opt_str(self.url)))
    }
}

impl LicenseObject {
    /// Builds the JSON value this object serializes to.
    pub fn to_json(&self) -> (r: Json)
        ensures
            r.deep_view() == self.deep_view(),
    {
        let mut ms: Vec<(String, Json)> = Vec::new();
        let ghost acc0 = Seq::<(Seq<char>, JsonV)>::empty();
        push_m(&mut ms, "name", Json::Str(self.name.clone()));
        let ghost acc1 = acc0 + m_one("name"@, JsonV::Str(self.name@));
        proof {
            assert(ms.deep_view() =~= acc1);
        }
        if let Some(x) = &self.url {
            push_m(&mut ms, "url", Json::Str(x.clone()));
        }
        let ghost acc2 = acc1 + m_opt("url"@, opt_str(self.url));
        proof {
            assert(ms.deep_view() =~= acc2);
        }
        proof {
            crate::json::lemma_vec_members_view(ms);
        }
        let r = Json::Obj(ms);
        proof {
            assert(r.deep_view() =~= self.deep_view());
        }
        r
    }
}

impl DeepView for ServerVariableObject {
    type V = JsonV;

    open spec fn deep_view(&self) -> JsonV {
        JsonV::Obj(m_opt("enum"@, opt_arr_str(self.enum_values.deep_view())) + m_one("default"@, JsonV::Str(self.default_value@)) + m_opt("description"@, opt_str(self.description)))
    }
}

impl ServerVariableObject {
    /// Builds the JSON value this object serializes to.
    pub fn to_json(&self) -> (r: Json)
        ensures
            r.deep_view() == self.deep_view(),
    {
        let mut ms: Vec<(String, Json)> = Vec::new();
        let ghost acc0 = Seq::<(Seq<char>, JsonV)>::empty();
        if let Some(x) = &self.enum_values {
            push_m(&mut ms, "enum", arr_json_str(x));
        }
        let ghost acc1 = acc0 + m_opt("enum"@, opt_arr_str(self.enum_values.deep_view()));
        proof {
            assert(ms.deep_view() =~= acc1);
        }
        push_m(&mut ms, "default", Json::Str(self.default_value.clone()));
        let ghost acc2 = acc1 + m_one("default"@, JsonV::Str(self.default_value@));
        proof {
            assert(ms.deep_view() =~= acc2);
        }
        if let Some(x) = &self.description {
            push_m(&mut ms, "description", Json::Str(x.clone()));
        }
        let ghost acc3 = acc2 + m_opt("description"@, opt_str(self.description));
        proof {
            assert(ms.deep_view() =~= acc3);
        }
        proof {
            crate::json::lemma_vec_members_view(ms);
        }
        let r = Json::Obj(ms);
        proof {
            assert(r.deep_view() =~= self.deep_view());
        }
        r
    }
}

impl DeepView for ServerObject {
    type V = JsonV;

    open spec fn deep_view(&self) -> JsonV {
        JsonV::Obj(m_one("url"@, JsonV::Str(self.url@)) + m_opt("description"@, opt_str(self.description)) + m_opt("variables"@, opt_obj(self.variables.deep_view())))
    }
}

impl ServerObject {
    /// Builds the JSON value this object serializes to.
    pub fn to_json(&self) -> (r: Json)
        ensures
            r.deep_view() == self.deep_view(),
    {
        let mut ms: Vec<(String, Json)> = Vec::new();
        let ghost acc0 = Seq::<(Seq<char>, JsonV)>::empty();
        push_m(&mut ms, "url", Json::Str(self.url.clone()));
        let ghost acc1 = acc0 + m_one("url"@, JsonV::Str(self.url@));
        proof {
            assert(ms.deep_view() =~= acc1);
        }
        if let Some(x) = &self.description {
            push_m(&mut ms, "description", Json::Str(x.clone()));
        }
        let ghost acc2 = acc1 + m_opt("description"@, opt_str(self.description));
        proof {
            assert(ms.deep_view() =~= acc2);
        }
        if let Some(x) = &self.variables {
            push_m(&mut ms, "variables", map_json_server_variable(x));
        }
        let ghost acc3 = acc2 + m_opt("variables"@, opt_obj(self.variables.deep_view()));
        proof {
            assert(ms.deep_view() =~= acc3);
        }
        proof {
            crate::json::lemma_vec_members_view(ms);
        }
        let r = Json::Obj(ms);
        proof {
            assert(r.deep_view() =~= self.deep_view());
        }
        r
    }
}

impl DeepView for InfoObject {
    type V = JsonV;

    open spec fn deep_view(&self) -> JsonV {
        JsonV::Obj(m_one("title"@, JsonV::Str(self.title@)) + m_opt("description"@, opt_str(self.description)) + m_opt("termsOfService"@, opt_str(self.terms_of_service)) + m_opt("contact"@, self.contact.deep_view()) + m_opt("license"@, self.license.deep_view()) + m_one("version"@, JsonV::Str(self.version@)))
    }
}

impl InfoObject {
    /// Builds the JSON value this object serializes to.
    pub fn to_json(&self) -> (r: Json)
        ensures
            r.deep_view() == self.deep_view(),
    {
        let mut ms: Vec<(String, Json)> = Vec::new();
        let ghost acc0 = Seq::<(Seq<char>, JsonV)>::empty();
        push_m(&mut ms, "title", Json::Str(self.title.clone()));
        let ghost acc1 = acc0 + m_one("title"@, JsonV::Str(self.title@));
        proof {
            assert(ms.deep_view() =~= acc1);
        }
        if let Some(x) = &self.description {
            push_m(&mut ms, "description", Json::Str(x.clone()));
        }
        let ghost acc2 = acc1 + m_opt("description"@, opt_str(self.description));
        proof {
            assert(ms.deep_view() =~= acc2);
        }
        if let Some(x) = &self.terms_of_service {
            push_m(&mut ms, "termsOfService", Json::Str(x.clone()));
        }
        let ghost acc3 = acc2 + m_opt("termsOfService"@, opt_str(self.terms_of_service));
        proof {
            assert(ms.deep_view() =~= acc3);
        }
        if let Some(x) = &self.contact {
            push_m(&mut ms, "contact", x.to_json());
        }
        let ghost acc4 = acc3 + m_opt("contact"@, self.contact.deep_view());
        proof {
            assert(ms.deep_view() =~= acc4);
        }
        if let Some(x) = &self.license {
            push_m(&mut ms, "license", x.to_json());
        }
        let ghost acc5 = acc4 + m_opt("license"@, self.license.deep_view());
        proof {
            assert(ms.deep_view() =~= acc5);
        }
        push_m(&mut ms, "version", Json::Str(self.version.clone()));
        let ghost acc6 = acc5 + m_one("version"@, JsonV::Str(self.version@));
        proof {
            assert(ms.deep_view() =~= acc6);
        }
        proof {
            crate::json::lemma_vec_members_view(ms);
        }
        let r = Json::Obj(ms);
        proof {
            assert(r.deep_view() =~= self.deep_view());
        }
        r
    }
}

impl DeepView for ExternalDocumentationObject {
    type V = JsonV;

    open spec fn deep_view(&self) -> JsonV {
        JsonV::Obj(m_opt("description"@, opt_str(self.description)) + m_one("url"@, JsonV::Str(self.url@)))
    }
}

impl ExternalDocumentationObject {
    /// Builds the JSON value this object serializes to.
    pub fn to_json(&self) -> (r: Json)
        ensures
            r.deep_view() == self.deep_view(),
    {
        let mut ms: Vec<(String, Json)> = Vec::new();
        let ghost acc0 = Seq::<(Seq<char>, JsonV)>::empty();
        if let Some(x) = &self.description {
            push_m(&mut ms, "description", Json::Str(x.clone()));
        }
        let ghost acc1 = acc0 + m_opt("description"@, opt_str(self.description));
        proof {
            assert(ms.deep_view() =~= acc1);
        }
        push_m(&mut ms, "url", Json::Str(self.url.clone()));
        let ghost acc2 = acc1 + m_one("url"@, JsonV::Str(self.url@));
        proof {
            assert(ms.deep_view() =~= acc2);
        }
        proof {
            crate::json::lemma_vec_members_view(ms);
        }
        let r = Json::Obj(ms);
        proof {
            assert(r.deep_view() =~= self.deep_view());
        }
        r
    }
}

impl DeepView for ParameterObject {
    type V = JsonV;

    open spec fn deep_view(&self) -> JsonV {
        JsonV::Obj(m_one("name"@, JsonV::Str(self.name@)) + m_one("in"@, self.where_in.deep_view()) + m_opt("description"@, opt_str(self.description)) + m_opt("required"@, opt_bool(self.required)) + m_opt("deprecated"@, opt_bool(self.deprecated)) + m_opt("allowEmptyValue"@, opt_bool(self.allow_empty_value)) + m_opt("schema"@, self.schema.deep_view()))
    }
}

impl ParameterObject {
    /// Builds the JSON value this object serializes to.
    pub fn to_json(&self) -> (r: Json)
        ensures
            r.deep_view() == self.deep_view(),
    {
        let mut ms: Vec<(String, Json)> = Vec::new();
        let ghost acc0 = Seq::<(Seq<char>, JsonV)>::empty();
        push_m(&mut ms, "name", Json::Str(self.name.clone()));
        let ghost acc1 = acc0 + m_one("name"@, JsonV::Str(self.name@));
        proof {
            assert(ms.deep_view() =~= acc1);
        }
        push_m(&mut ms, "in", self.where_in.to_json());
        let ghost acc2 = acc1 + m_one("in"@, self.where_in.deep_view());
        proof {
            assert(ms.deep_view() =~= acc2);
        }
        if let Some(x) = &self.description {
            push_m(&mut ms, "description", Json::Str(x.clone()));
        }
        let ghost acc3 = acc2 + m_opt("description"@, opt_str(self.description));
        proof {
            assert(ms.deep_view() =~= acc3);
        }
        if let Some(b) = &self.required {
            push_m(&mut ms, "required", Json::Bool(*b));
        }
        let ghost acc4 = acc3 + m_opt("required"@, opt_bool(self.required));
        proof {
            assert(ms.deep_view() =~= acc4);
        }
        if let Some(b) = &self.deprecated {
            push_m(&mut ms, "deprecated", Json::Bool(*b));
        }
        let ghost acc5 = acc4 + m_opt("deprecated"@, opt_bool(self.deprecated));
        proof {
            assert(ms.deep_view() =~= acc5);
        }
        if let Some(b) = &self.allow_empty_value {
            push_m(&mut ms, "allowEmptyValue", Json::Bool(*b));
        }
        let ghost acc6 = acc5 + m_opt("allowEmptyValue"@, opt_bool(self.allow_empty_value));
        proof {
            assert(ms.deep_view() =~= acc6);
        }
        if let Some(x) = &self.schema {
            push_m(&mut ms, "schema", x.to_json());
        }
        let ghost acc7 = acc6 + m_opt("schema"@, self.schema.deep_view());
        proof {
            assert(ms.deep_view() =~= acc7);
        }
        proof {
            crate::json::lemma_vec_members_view(ms);
        }
        let r = Json::Obj(ms);
        proof {
            assert(r.deep_view() =~= self.deep_view());
        }
        r
    }
}

impl DeepView for RequestBodyObject {
    type V = JsonV;

    open spec fn deep_view(&self) -> JsonV {
        JsonV::Obj(m_opt("description"@, opt_str(self.description)) + m_one("content"@, JsonV::Obj(self.content.deep_view())) + m_opt("required"@, opt_bool(self.required)))
    }
}

impl RequestBodyObject {
    /// Builds the JSON value this object serializes to.
    pub fn to_json(&self) -> (r: Json)
        ensures
            r.deep_view() == self.deep_view(),
    {
        let mut ms: Vec<(String, Json)> = Vec::new();
        let ghost acc0 = Seq::<(Seq<char>, JsonV)>::empty();
        if let Some(x) = &self.description {
            push_m(&mut ms, "description", Json::Str(x.clone()));
        }
        let ghost acc1 = acc0 + m_opt("description"@, opt_str(self.description));
        proof {
            assert(ms.deep_view() =~= acc1);
        }
        push_m(&mut ms, "content", map_json_media_type(&self.content));
        let ghost acc2 = acc1 + m_one("content"@, JsonV::Obj(self.content.deep_view()));
        proof {
            assert(ms.deep_view() =~= acc2);
        }
        if let Some(b) = &self.required {
            push_m(&mut ms, "required", Json::Bool(*b));
        }
        let ghost acc3 = acc2 + m_opt("required"@, opt_bool(self.required));
        proof {
            assert(ms.deep_view() =~= acc3);
        }
        proof {
            crate::json::lemma_vec_members_view(ms);
        }
        let r = Json::Obj(ms);
        proof {
            assert(r.deep_view() =~= self.deep_view());
        }
        r
    }
}

impl DeepView for MediaTypeObject {
    type V = JsonV;

    open spec fn deep_view(&self) -> JsonV {
        JsonV::Obj(m_opt("schema"@, self.schema.deep_view()) + m_opt("example"@, self.example.deep_view()) + m_opt("examples"@, opt_obj(self.examples.deep_view())) + m_opt("encoding"@, opt_obj(self.encoding.deep_view())))
    }
}

impl MediaTypeObject {
    /// Builds the JSON value this object serializes to.
    pub fn to_json(&self) -> (r: Json)
        ensures
            r.deep_view() == self.deep_view(),
    {
        let mut ms: Vec<(String, Json)> = Vec::new();
        let ghost acc0 = Seq::<(Seq<char>, JsonV)>::empty();
        if let Some(x) = &self.schema {
            push_m(&mut ms, "schema", x.to_json());
        }
        let ghost acc1 = acc0 + m_opt("schema"@, self.schema.deep_view());
        proof {
            assert(ms.deep_view() =~= acc1);
        }
        if let Some(x) = &self.example {
            push_m(&mut ms, "example", x.duplicate());
        }
        let ghost acc2 = acc1 + m_opt("example"@, self.example.deep_view());
        proof {
            assert(ms.deep_view() =~= acc2);
        }
        if let Some(x) = &self.examples {
            push_m(&mut ms, "examples", map_json_example_or(x));
        }
        let ghost acc3 = acc2 + m_opt("examples"@, opt_obj(self.examples.deep_view()));
        proof {
            assert(ms.deep_view() =~= acc3);
        }
        if let Some(x) = &self.encoding {
            push_m(&mut ms, "encoding", map_json_encoding(x));
        }
        let ghost acc4 = acc3 + m_opt("encoding"@, opt_obj(self.encoding.deep_view()));
        proof {
            assert(ms.deep_view() =~= acc4);
        }
        proof {
            crate::json::lemma_vec_members_view(ms);
        }
        let r = Json::Obj(ms);
        proof {
            assert(r.deep_view() =~= self.deep_view());
        }
        r
    }
}

impl DeepView for EncodingObject {
    type V = JsonV;

    open spec fn deep_view(&self) -> JsonV {
        JsonV::Obj(m_opt("contentType"@, opt_str(self.content_type)) + m_opt("headers"@, opt_obj(self.headers.deep_view())) + m_opt("style"@, opt_str(self.style)) + m_opt("explode"@, opt_bool(self.explode)) + m_opt("allowReserved"@, opt_bool(self.allow_reserved)))
    }
}

impl EncodingObject {
    /// Builds the JSON value this object serializes to.
    pub fn to_json(&self) -> (r: Json)
        ensures
            r.deep_view() == self.deep_view(),
    {
        let mut ms: Vec<(String, Json)> = Vec::new();
        let ghost acc0 = Seq::<(Seq<char>, JsonV)>::empty();
        if let Some(x) = &self.content_type {
            push_m(&mut ms, "contentType", Json::Str(x.clone()));
        }
        let ghost acc1 = acc0 + m_opt("contentType"@, opt_str(self.content_type));
        proof {
            assert(ms.deep_view() =~= acc1);
        }
        if let Some(x) = &self.headers {
            push_m(&mut ms, "headers", map_json_header_or(x));
        }
        let ghost acc2 = acc1 + m_opt("headers"@, opt_obj(self.headers.deep_view()));
        proof {
            assert(ms.deep_view() =~= acc2);
        }
        if let Some(x) = &self.style {
            push_m(&mut ms, "style", Json::Str(x.clone()));
        }
        let ghost acc3 = acc2 + m_opt("style"@, opt_str(self.style));
        proof {
            assert(ms.deep_view() =~= acc3);
        }
        if let Some(b) = &self.explode {
            push_m(&mut ms, "explode", Json::Bool(*b));
        }
        let ghost acc4 = acc3 + m_opt("explode"@, opt_bool(self.explode));
        proof {
            assert(ms.deep_view() =~= acc4);
        }
        if let Some(b) = &self.allow_reserved {
            push_m(&mut ms, "allowReserved", Json::Bool(*b));
        }
        let ghost acc5 = acc4 + m_opt("allowReserved"@, opt_bool(self.allow_reserved));
        proof {
            assert(ms.deep_view() =~= acc5);
        }
        proof {
            crate::json::lemma_vec_members_view(ms);
        }
        let r = Json::Obj(ms);
        proof {
            assert(r.deep_view() =~= self.deep_view());
        }
        r
    }
}

impl DeepView for ResponseObject {
    type V = JsonV;

    open spec fn deep_view(&self) -> JsonV {
        JsonV::Obj(m_one("description"@, JsonV::Str(self.description@)) + m_opt("headers"@, opt_obj(self.headers.deep_view())) + m_opt("content"@, opt_obj(self.content.deep_view())) + m_opt("links"@, opt_obj(self.links.deep_view())))
    }
}

impl ResponseObject {
    /// Builds the JSON value this object serializes to.
    pub fn to_json(&self) -> (r: Json)
        ensures
            r.deep_view() == self.deep_view(),
    {
        let mut ms: Vec<(String, Json)> = Vec::new();
        let ghost acc0 = Seq::<(Seq<char>, JsonV)>::empty();
        push_m(&mut ms, "description", Json::Str(self.description.clone()));
        let ghost acc1 = acc0 + m_one("description"@, JsonV::Str(self.description@));
        proof {
            assert(ms.deep_view() =~= acc1);
        }
        if let Some(x) = &self.headers {
            push_m(&mut ms, "headers", map_json_header_or(x));
        }
        let ghost acc2 = acc1 + m_opt("headers"@, opt_obj(self.headers.deep_view()));
        proof {
            assert(ms.deep_view() =~= acc2);
        }
        if let Some(x) = &self.content {
            push_m(&mut ms, "content", map_json_media_type(x));
        }
        let ghost acc3 = acc2 + m_opt("content"@, opt_obj(self.content.deep_view()));
        proof {
            assert(ms.deep_view() =~= acc3);
        }
        if let Some(x) = &self.links {
            push_m(&mut ms, "links", map_json_link_or(x));
        }
        let ghost acc4 = acc3 + m_opt("links"@, opt_obj(self.links.deep_view()));
        proof {
            assert(ms.deep_view() =~= acc4);
        }
        proof {
            crate::json::lemma_vec_members_view(ms);
        }
        let r = Json::Obj(ms);
        proof {
            assert(r.deep_view() =~= self.deep_view());
        }
        r
    }
}

impl DeepView for ExampleObject {
    type V = JsonV;

    open spec fn deep_view(&self) -> JsonV {
        JsonV::Obj(m_opt("summary"@, opt_str(self.summary)) + m_opt("description"@, opt_str(self.description)) + m_opt("value"@, self.value.deep_view()) + m_opt("externalValue"@, opt_str(self.external_value)))
    }
}

impl ExampleObject {
    /// Builds the JSON value this object serializes to.
    pub fn to_json(&self) -> (r: Json)
        ensures
            r.deep_view() == self.deep_view(),
    {
        let mut ms: Vec<(String, Json)> = Vec::new();
        let ghost acc0 = Seq::<(Seq<char>, JsonV)>::empty();
        if let Some(x) = &self.summary {
            push_m(&mut ms, "summary", Json::Str(x.clone()));
        }
        let ghost acc1 = acc0 + m_opt("summary"@, opt_str(self.summary));
        proof {
            assert(ms.deep_view() =~= acc1);
        }
        if let Some(x) = &self.description {
            push_m(&mut ms, "description", Json::Str(x.clone()));
        }
        let ghost acc2 = acc1 + m_opt("description"@, opt_str(self.description));
        proof {
            assert(ms.deep_view() =~= acc2);
        }
        if let Some(x) = &self.value {
            push_m(&mut ms, "value", x.duplicate());
        }
        let ghost acc3 = acc2 + m_opt("value"@, self.value.deep_view());
        proof {
            assert(ms.deep_view() =~= acc3);
        }
        if let Some(x) = &self.external_value {
            push_m(&mut ms, "externalValue", Json::Str(x.clone()));
        }
        let ghost acc4 = acc3 + m_opt("externalValue"@, opt_str(self.external_value));
        proof {
            assert(ms.deep_view() =~= acc4);
        }
        proof {
            crate::json::lemma_vec_members_view(ms);
        }
        let r = Json::Obj(ms);
        proof {
            assert(r.deep_view() =~= self.deep_view());
        }
        r
    }
}

impl DeepView for LinkObject {
    type V = JsonV;

    open spec fn deep_view(&self) -> JsonV {
        JsonV::Obj(m_opt("operationRef"@, opt_str(self.operation_ref)) + m_opt("operationId"@, opt_str(self.operation_id)) + m_opt("parameters"@, opt_obj(self.parameters.deep_view())) + m_opt("requestBody"@, self.request_body.deep_view()) + m_opt("description"@, opt_str(self.description)) + m_opt("server"@, self.server.deep_view()))
    }
}

impl LinkObject {
    /// Builds the JSON value this object serializes to.
    pub fn to_json(&self) -> (r: Json)
        ensures
            r.deep_view() == self.deep_view(),
    {
        let mut ms: Vec<(String, Json)> = Vec::new();
        let ghost acc0 = Seq::<(Seq<char>, JsonV)>::empty();
        if let Some(x) = &self.operation_ref {
            push_m(&mut ms, "operationRef", Json::Str(x.clone()));
        }
        let ghost acc1 = acc0 + m_opt("operationRef"@, opt_str(self.operation_ref));
        proof {
            assert(ms.deep_view() =~= acc1);
        }
        if let Some(x) = &self.operation_id {
            push_m(&mut ms, "operationId", Json::Str(x.clone()));
        }
        let ghost acc2 = acc1 + m_opt("operationId"@, opt_str(self.operation_id));
        proof {
            assert(ms.deep_view() =~= acc2);
        }
        if let Some(x) = &self.parameters {
            push_m(&mut ms, "parameters", map_json_any_or_expression(x));
        }
        let ghost acc3 = acc2 + m_opt("parameters"@, opt_obj(self.parameters.deep_view()));
        proof {
            assert(ms.deep_view() =~= acc3);
        }
        if let Some(x) = &self.request_body {
            push_m(&mut ms, "requestBody", x.to_json());
        }
        let ghost acc4 = acc3 + m_opt("requestBody"@, self.request_body.deep_view());
        proof {
            assert(ms.deep_view() =~= acc4);
        }
        if let Some(x) = &self.description {
            push_m(&mut ms, "description", Json::Str(x.clone()));
        }
        let ghost acc5 = acc4 + m_opt("description"@, opt_str(self.description));
        proof {
            assert(ms.deep_view() =~= acc5);
        }
        if let Some(x) = &self.server {
            push_m(&mut ms, "server", x.to_json());
        }
        let ghost acc6 = acc5 + m_opt("server"@, self.server.deep_view());
        proof {
            assert(ms.deep_view() =~= acc6);
        }
        proof {
            crate::json::lemma_vec_members_view(ms);
        }
        let r = Json::Obj(ms);
        proof {
            assert(r.deep_view() =~= self.deep_view());
        }
        r
    }
}

impl DeepView for HeaderObject {
    type V = JsonV;

    open spec fn deep_view(&self) -> JsonV {
        JsonV::Obj(m_opt("description"@, opt_str(self.description)) + m_opt("required"@, opt_bool(self.required)) + m_opt("deprecated"@, opt_bool(self.deprecated)) + m_opt("allowEmptyValue"@, opt_bool(self.allow_empty_value)))
    }
}

impl HeaderObject {
    /// Builds the JSON value this object serializes to.
    pub fn to_json(&self) -> (r: Json)
        ensures
            r.deep_view() == self.deep_view(),
    {
        let mut ms: Vec<(String, Json)> = Vec::new();
        let ghost acc0 = Seq::<(Seq<char>, JsonV)>::empty();
        if let Some(x) = &self.description {
            push_m(&mut ms, "description", Json::Str(x.clone()));
        }
        let ghost acc1 = acc0 + m_opt("description"@, opt_str(self.description));
        proof {
            assert(ms.deep_view() =~= acc1);
        }
        if let Some(b) = &self.required {
            push_m(&mut ms, "required", Json::Bool(*b));
        }
        let ghost acc2 = acc1 + m_opt("required"@, opt_bool(self.required));
        proof {
            assert(ms.deep_view() =~= acc2);
        }
        if let Some(b) = &self.deprecated {
            push_m(&mut ms, "deprecated", Json::Bool(*b));
        }
        let ghost acc3 = acc2 + m_opt("deprecated"@, opt_bool(self.deprecated));
        proof {
            assert(ms.deep_view() =~= acc3);
        }
        if let Some(b) = &self.allow_empty_value {
            push_m(&mut ms, "allowEmptyValue", Json::Bool(*b));
        }
        let ghost acc4 = acc3 + m_opt("allowEmptyValue"@, opt_bool(self.allow_empty_value));
        proof {
            assert(ms.deep_view() =~= acc4);
        }
        proof {
            crate::json::lemma_vec_members_view(ms);
        }
        let r = Json::Obj(ms);
        proof {
            assert(r.deep_view() =~= self.deep_view());
        }
        r
    }
}

impl DeepView for TagObject {
    type V = JsonV;

    open spec fn deep_view(&self) -> JsonV {
        JsonV::Obj(m_one("name"@, JsonV::Str(self.name@)) + m_opt("description"@, opt_str(self.description)) + m_opt("externalDocs"@, self.external_docs.deep_view()))
    }
}

impl TagObject {
    /// Builds the JSON value this object serializes to.
    pub fn to_json(&self) -> (r: Json)
        ensures
            r.deep_view() == self.deep_view(),
    {
        let mut ms: Vec<(String, Json)> = Vec::new();
        let ghost acc0 = Seq::<(Seq<char>, JsonV)>::empty();
        push_m(&mut ms, "name", Json::Str(self.name.clone()));
        let ghost acc1 = acc0 + m_one("name"@, JsonV::Str(self.name@));
        proof {
            assert(ms.deep_view() =~= acc1);
        }
        if let Some(x) = &self.description {
            push_m(&mut ms, "description", Json::Str(x.clone()));
        }
        let ghost acc2 = acc1 + m_opt("description"@, opt_str(self.description));
        proof {
            assert(ms.deep_view() =~= acc2);
        }
        if let Some(x) = &self.external_docs {
            push_m(&mut ms, "externalDocs", x.to_json());
        }
        let ghost acc3 = acc2 + m_opt("externalDocs"@, self.external_docs.deep_view());
        proof {
            assert(ms.deep_view() =~= acc3);
        }
        proof {
            crate::json::lemma_vec_members_view(ms);
        }
        let r = Json::Obj(ms);
        proof {
            assert(r.deep_view() =~= self.deep_view());
        }
        r
    }
}

impl DeepView for ReferenceObject {
    type V = JsonV;

    open spec fn deep_view(&self) -> JsonV {
        JsonV::Obj(m_one("ref"@, JsonV::Str(self.ref_path@)))
    }
}

impl ReferenceObject {
    /// Builds the JSON value this object serializes to.
    pub fn to_json(&self) -> (r: Json)
        ensures
            r.deep_view() == self.deep_view(),
    {
        let mut ms: Vec<(String, Json)> = Vec::new();
        let ghost acc0 = Seq::<(Seq<char>, JsonV)>::empty();
        push_m(&mut ms, "ref", Json::Str(self.ref_path.clone()));
        let ghost acc1 = acc0 + m_one("ref"@, JsonV::Str(self.ref_path@));
        proof {
            assert(ms.deep_view() =~= acc1);
        }
        proof {
            crate::json::lemma_vec_members_view(ms);
        }
        let r = Json::Obj(ms);
        proof {
            assert(r.deep_view() =~= self.deep_view());
        }
        r
    }
}

impl DeepView for DiscriminatorObject {
    type V = JsonV;

    open spec fn deep_view(&self) -> JsonV {
        JsonV::Obj(m_one("propertyName"@, JsonV::Str(self.property_name@)) + m_opt("mapping"@, opt_obj_str(self.mapping.deep_view())))
    }
}

impl DiscriminatorObject {
    /// Builds the JSON value this object serializes to.
    pub fn to_json(&self) -> (r: Json)
        ensures
            r.deep_view() == self.deep_view(),
    {
        let mut ms: Vec<(String, Json)> = Vec::new();
        let ghost acc0 = Seq::<(Seq<char>, JsonV)>::empty();
        push_m(&mut ms, "propertyName", Json::Str(self.property_name.clone()));
        let ghost acc1 = acc0 + m_one("propertyName"@, JsonV::Str(self.property_name@));
        proof {
            assert(ms.deep_view() =~= acc1);
        }
        if let Some(x) = &self.mapping {
            push_m(&mut ms, "mapping", map_json_str(x));
        }
        let ghost acc2 = acc1 + m_opt("mapping"@, opt_obj_str(self.mapping.deep_view()));
        proof {
            assert(ms.deep_view() =~= acc2);
        }
        proof {
            crate::json::lemma_vec_members_view(ms);
        }
        let r = Json::Obj(ms);
        proof {
            assert(r.deep_view() =~= self.deep_view());
        }
        r
    }
}

impl DeepView for XMLObject {
    type V = JsonV;

    open spec fn deep_view(&self) -> JsonV {
        JsonV::Obj(m_opt("name"@, opt_str(self.name)) + m_opt("namespace"@, opt_str(self.namespace)) + m_opt("prefix"@, opt_str(self.prefix)) + m_opt("attribute"@, opt_bool(self.attribute)) + m_opt("wrapped"@, opt_bool(self.wrapped)))
    }
}

impl XMLObject {
    /// Builds the JSON value this object serializes to.
    pub fn to_json(&self) -> (r: Json)
        ensures
            r.deep_view() == self.deep_view(),
    {
        let mut ms: Vec<(String, Json)> = Vec::new();
        let ghost acc0 = Seq::<(Seq<char>, JsonV)>::empty();
        if let Some(x) = &self.name {
            push_m(&mut ms, "name", Json::Str(x.clone()));
        }
        let ghost acc1 = acc0 + m_opt("name"@, opt_str(self.name));
        proof {
            assert(ms.deep_view() =~= acc1);
        }
        if let Some(x) = &self.namespace {
            push_m(&mut ms, "namespace", Json::Str(x.clone()));
        }
        let ghost acc2 = acc1 + m_opt("namespace"@, opt_str(self.namespace));
        proof {
            assert(ms.deep_view() =~= acc2);
        }
        if let Some(x) = &self.prefix {
            push_m(&mut ms, "prefix", Json::Str(x.clone()));
        }
        let ghost acc3 = acc2 + m_opt("prefix"@, opt_str(self.prefix));
        proof {
            assert(ms.deep_view() =~= acc3);
        }
        if let Some(b) = &self.attribute {
            push_m(&mut ms, "attribute", Json::Bool(*b));
        }
        let ghost acc4 = acc3 + m_opt("attribute"@, opt_bool(self.attribute));
        proof {
            assert(ms.deep_view() =~= acc4);
        }
        if let Some(b) = &self.wrapped {
            push_m(&mut ms, "wrapped", Json::Bool(*b));
        }
        let ghost acc5 = acc4 + m_opt("wrapped"@, opt_bool(self.wrapped));
        proof {
            assert(ms.deep_view() =~= acc5);
        }
        proof {
            crate::json::lemma_vec_members_view(ms);
        }
        let r = Json::Obj(ms);
        proof {
            assert(r.deep_view() =~= self.deep_view());
        }
        r
    }
}

impl DeepView for SecuritySchemeObject {
    type V = JsonV;

    open spec fn deep_view(&self) -> JsonV {
        JsonV::Obj(m_one("type"@, JsonV::Str(self.scheme_type@)) + m_opt("description"@, opt_str(self.description)) + m_opt("name"@, opt_str(self.name)) + m_opt("in"@, self.in_location.deep_view()) + m_one("scheme"@, JsonV::Str(self.scheme@)) + m_opt("bearerFormat"@, opt_str(self.bearer_format)) + m_opt("flows"@, self.flows.deep_view()) + m_opt("openIdConnectUrl"@, opt_str(self.open_id_connect_url)))
    }
}

impl SecuritySchemeObject {
    /// Builds the JSON value this object serializes to.
    pub fn to_json(&self) -> (r: Json)
        ensures
            r.deep_view() == self.deep_view(),
    {
        let mut ms: Vec<(String, Json)> = Vec::new();
        let ghost acc0 = Seq::<(Seq<char>, JsonV)>::empty();
        push_m(&mut ms, "type", Json::Str(self.scheme_type.clone()));
        let ghost acc1 = acc0 + m_one("type"@, JsonV::Str(self.scheme_type@));
        proof {
            assert(ms.deep_view() =~= acc1);
        }
        if let Some(x) = &self.description {
            push_m(&mut ms, "description", Json::Str(x.clone()));
        }
        let ghost acc2 = acc1 + m_opt("description"@, opt_str(self.description));
        proof {
            assert(ms.deep_view() =~= acc2);
        }
        if let Some(x) = &self.name {
            push_m(&mut ms, "name", Json::Str(x.clone()));
        }
        let ghost acc3 = acc2 + m_opt("name"@, opt_str(self.name));
        proof {
            assert(ms.deep_view() =~= acc3);
        }
        if let Some(x) = &self.in_location {
            push_m(&mut ms, "in", x.to_json());
        }
        let ghost acc4 = acc3 + m_opt("in"@, self.in_location.deep_view());
        proof {
            assert(ms.deep_view() =~= acc4);
        }
        push_m(&mut ms, "scheme", Json::Str(self.scheme.clone()));
        let ghost acc5 = acc4 + m_one("scheme"@, JsonV::Str(self.scheme@));
        proof {
            assert(ms.deep_view() =~= acc5);
        }
        if let Some(x) = &self.bearer_format {
            push_m(&mut ms, "bearerFormat", Json::Str(x.clone()));
        }
        let ghost acc6 = acc5 + m_opt("bearerFormat"@, opt_str(self.bearer_format));
        proof {
            assert(ms.deep_view() =~= acc6);
        }
        if let Some(x) = &self.flows {
            push_m(&mut ms, "flows", x.to_json());
        }
        let ghost acc7 = acc6 + m_opt("flows"@, self.flows.deep_view());
        proof {
            assert(ms.deep_view() =~= acc7);
        }
        if let Some(x) = &self.open_id_connect_url {
            push_m(&mut ms, "openIdConnectUrl", Json::Str(x.clone()));
        }
        let ghost acc8 = acc7 + m_opt("openIdConnectUrl"@, opt_str(self.open_id_connect_url));
        proof {
            assert(ms.deep_view() =~= acc8);
        }
        proof {
            crate::json::lemma_vec_members_view(ms);
        }
        let r = Json::Obj(ms);
        proof {
            assert(r.deep_view() =~= self.deep_view());
        }
        r
    }
}

impl DeepView for OAuthFlowsObject {
    type V = JsonV;

    open spec fn deep_view(&self) -> JsonV {
        JsonV::Obj(m_opt("implicit"@, self.implicit.deep_view()) + m_opt("password"@, self.password.deep_view()) + m_opt("clientCredentials"@, self.client_credentials.deep_view()) + m_opt("authorizationCode"@, self.authorization_code.deep_view()))
    }
}

impl OAuthFlowsObject {
    /// Builds the JSON value this object serializes to.
    pub fn to_json(&self) -> (r: Json)
        ensures
            r.deep_view() == self.deep_view(),
    {
        let mut ms: Vec<(String, Json)> = Vec::new();
        let ghost acc0 = Seq::<(Seq<char>, JsonV)>::empty();
        if let Some(x) = &self.implicit {
            push_m(&mut ms, "implicit", x.to_json());
        }
        let ghost acc1 = acc0 + m_opt("implicit"@, self.implicit.deep_view());
        proof {
            assert(ms.deep_view() =~= acc1);
        }
        if let Some(x) = &self.password {
            push_m(&mut ms, "password", x.to_json());
        }
        let ghost acc2 = acc1 + m_opt("password"@, self.password.deep_view());
        proof {
            assert(ms.deep_view() =~= acc2);
        }
        if let Some(x) = &self.client_credentials {
            push_m(&mut ms, "clientCredentials", x.to_json());
        }
        let ghost acc3 = acc2 + m_opt("clientCredentials"@, self.client_credentials.deep_view());
        proof {
            assert(ms.deep_view() =~= acc3);
        }
        if let Some(x) = &self.authorization_code {
            push_m(&mut ms, "authorizationCode", x.to_json());
        }
        let ghost acc4 = acc3 + m_opt("authorizationCode"@, self.authorization_code.deep_view());
        proof {
            assert(ms.deep_view() =~= acc4);
        }
        proof {
            crate::json::lemma_vec_members_view(ms);
        }
        let r = Json::Obj(ms);
        proof {
            assert(r.deep_view() =~= self.deep_view());
        }
        r
    }
}

impl DeepView for OAuthFlowObject {
    type V = JsonV;

    open spec fn deep_view(&self) -> JsonV {
        JsonV::Obj(m_one("authorizationUrl"@, JsonV::Str(self.authorization_url@)) + m_one("tokenUrl"@, JsonV::Str(self.token_url@)) + m_opt("refreshUrl"@, opt_str(self.refresh_url)) + m_one("scopes"@, JsonV::Obj(map_str_members(self.scopes.deep_view()))))
    }
}

impl OAuthFlowObject {
    /// Builds the JSON value this object serializes to.
    pub fn to_json(&self) -> (r: Json)
        ensures
            r.deep_view() == self.deep_view(),
    {
        let mut ms: Vec<(String, Json)> = Vec::new();
        let ghost acc0 = Seq::<(Seq<char>, JsonV)>::empty();
        push_m(&mut ms, "authorizationUrl", Json::Str(self.authorization_url.clone()));
        let ghost acc1 = acc0 + m_one("authorizationUrl"@, JsonV::Str(self.authorization_url@));
        proof {
            assert(ms.deep_view() =~= acc1);
        }
        push_m(&mut ms, "tokenUrl", Json::Str(self.token_url.clone()));
        let ghost acc2 = acc1 + m_one("tokenUrl"@, JsonV::Str(self.token_url@));
        proof {
            assert(ms.deep_view() =~= acc2);
        }
        if let Some(x) = &self.refresh_url {
            push_m(&mut ms, "refreshUrl", Json::Str(x.clone()));
        }
        let ghost acc3 = acc2 + m_opt("refreshUrl"@, opt_str(self.refresh_url));
        proof {
            assert(ms.deep_view() =~= acc3);
        }
        push_m(&mut ms, "scopes", map_json_str(&self.scopes));
        let ghost acc4 = acc3 + m_one("scopes"@, JsonV::Obj(map_str_members(self.scopes.deep_view())));
        proof {
            assert(ms.deep_view() =~= acc4);
        }
        proof {
            crate::json::lemma_vec_members_view(ms);
        }
        let r = Json::Obj(ms);
        proof {
            assert(r.deep_view() =~= self.deep_view());
        }
        r
    }
}

impl DeepView for PathItemObject {
    type V = JsonV;

    open spec fn deep_view(&self) -> JsonV {
        JsonV::Obj(m_opt("ref"@, opt_str(self.ref_path)) + m_opt("summary"@, opt_str(self.summary)) + m_opt("description"@, opt_str(self.description)) + m_opt("get"@, self.get.deep_view()) + m_opt("put"@, self.put.deep_view()) + m_opt("post"@, self.post.deep_view()) + m_opt("delete"@, self.delete.deep_view()) + m_opt("options"@, self.options.deep_view()) + m_opt("head"@, self.head.deep_view()) + m_opt("patch"@, self.patch.deep_view()) + m_opt("trace"@, self.trace.deep_view()) + m_opt("servers"@, opt_arr(self.servers.deep_view())) + m_opt("parameters"@, opt_arr(self.parameters.deep_view())))
    }
}

impl PathItemObject {
    #[verifier::rlimit(100)]
    #[verifier::spinoff_prover]
    fn members_head(&self) -> (ms: Vec<(String, Json)>)
        ensures
            ms.deep_view() == m_opt("ref"@, opt_str(self.ref_path)) + m_opt("summary"@, opt_str(self.summary)) + m_opt("description"@, opt_str(self.description)) + m_opt("get"@, self.get.deep_view()) + m_opt("put"@, self.put.deep_view()) + m_opt("post"@, self.post.deep_view()) + m_opt("delete"@, self.delete.deep_view()),
    {
        let mut ms: Vec<(String, Json)> = Vec::new();
        let ghost acc0 = Seq::<(Seq<char>, JsonV)>::empty();
        if let Some(x) = &self.ref_path {
            push_m(&mut ms, "ref", Json::Str(x.clone()));
        }
        let ghost acc1 = acc0 + m_opt("ref"@, opt_str(self.ref_path));
        proof {
            assert(ms.deep_view() =~= acc1);
        }
        if let Some(x) = &self.summary {
            push_m(&mut ms, "summary", Json::Str(x.clone()));
        }
        let ghost acc2 = acc1 + m_opt("summary"@, opt_str(self.summary));
        proof {
            assert(ms.deep_view() =~= acc2);
        }
        if let Some(x) = &self.description {
            push_m(&mut ms, "description", Json::Str(x.clone()));
        }
        let ghost acc3 = acc2 + m_opt("description"@, opt_str(self.description));
        proof {
            assert(ms.deep_view() =~= acc3);
        }
        if let Some(x) = &self.get {
            push_m(&mut ms, "get", x.to_json());
        }
        let ghost acc4 = acc3 + m_opt("get"@, self.get.deep_view());
        proof {
            assert(ms.deep_view() =~= acc4);
        }
        if let Some(x) = &self.put {
            push_m(&mut ms, "put", x.to_json());
        }
        let ghost acc5 = acc4 + m_opt("put"@, self.put.deep_view());
        proof {
            assert(ms.deep_view() =~= acc5);
        }
        if let Some(x) = &self.post {
            push_m(&mut ms, "post", x.to_json());
        }
        let ghost acc6 = acc5 + m_opt("post"@, self.post.deep_view());
        proof {
            assert(ms.deep_view() =~= acc6);
        }
        if let Some(x) = &self.delete {
            push_m(&mut ms, "delete", x.to_json());
        }
        let ghost acc7 = acc6 + m_opt("delete"@, self.delete.deep_view());
        proof {
            assert(ms.deep_view() =~= acc7);
        }
        ms
    }

    /// Builds the JSON value this object serializes to.
    #[verifier::rlimit(100)]
    #[verifier::spinoff_prover]
    pub fn to_json(&self) -> (r: Json)
        ensures
            r.deep_view() == self.deep_view(),
    {
        let mut ms = self.members_head();
        let ghost acc7 = m_opt("ref"@, opt_str(self.ref_path)) + m_opt("summary"@, opt_str(self.summary)) + m_opt("description"@, opt_str(self.description)) + m_opt("get"@, self.get.deep_view()) + m_opt("put"@, self.put.deep_view()) + m_opt("post"@, self.post.deep_view()) + m_opt("delete"@, self.delete.deep_view());
        if let Some(x) = &self.options {
            push_m(&mut ms, "options", x.to_json());
        }
        let ghost acc8 = acc7 + m_opt("options"@, self.options.deep_view());
        proof {
            assert(ms.deep_view() =~= acc8);
        }
        if let Some(x) = &self.head {
            push_m(&mut ms, "head", x.to_json());
        }
        let ghost acc9 = acc8 + m_opt("head"@, self.head.deep_view());
        proof {
            assert(ms.deep_view() =~= acc9);
        }
        if let Some(x) = &self.patch {
            push_m(&mut ms, "patch", x.to_json());
        }
        let ghost acc10 = acc9 + m_opt("patch"@, self.patch.deep_view());
        proof {
            assert(ms.deep_view() =~= acc10);
        }
        if let Some(x) = &self.trace {
            push_m(&mut ms, "trace", x.to_json());
        }
        let ghost acc11 = acc10 + m_opt("trace"@, self.trace.deep_view());
        proof {
            assert(ms.deep_view() =~= acc11);
        }
        if let Some(x) = &self.servers {
            push_m(&mut ms, "servers", arr_json_server(x));
        }
        let ghost acc12 = acc11 + m_opt("servers"@, opt_arr(self.servers.deep_view()));
        proof {
            assert(ms.deep_view() =~= acc12);
        }
        if let Some(x) = &self.parameters {
            push_m(&mut ms, "parameters", arr_json_parameter_or(x));
        }
        let ghost acc13 = acc12 + m_opt("parameters"@, opt_arr(self.parameters.deep_view()));
        proof {
            assert(ms.deep_view() =~= acc13);
        }
        proof {
            crate::json::lemma_vec_members_view(ms);
        }
        let r = Json::Obj(ms);
        proof {
            assert(r.deep_view() =~= self.deep_view());
        }
        r
    }
}

impl DeepView for OperationObject {
    type V = JsonV;

    open spec fn deep_view(&self) -> JsonV {
        JsonV::Obj(m_opt("tags"@, opt_arr_str(self.tags.deep_view())) + m_opt("summary"@, opt_str(self.summary)) + m_opt("description"@, opt_str(self.description)) + m_opt("externalDocs"@, self.external_docs.deep_view()) + m_opt("operationId"@, opt_str(self.operation_id)) + m_opt("parameters"@, opt_arr(self.parameters.deep_view())) + m_opt("requestBody"@, self.request_body.deep_view()) + m_one("responses"@, self.responses.deep_view()) + m_opt("callbacks"@, opt_obj(self.callbacks.deep_view())) + m_opt("deprecated"@, opt_bool(self.deprecated)) + m_opt("security"@, opt_arr_obj(self.security.deep_view())) + m_opt("servers"@, opt_arr(self.servers.deep_view())))
    }
}

impl OperationObject {
    #[verifier::rlimit(100)]
    #[verifier::spinoff_prover]
    fn members_head(&self) -> (ms: Vec<(String, Json)>)
        ensures
            ms.deep_view() == m_opt("tags"@, opt_arr_str(self.tags.deep_view())) + m_opt("summary"@, opt_str(self.summary)) + m_opt("description"@, opt_str(self.description)) + m_opt("externalDocs"@, self.external_docs.deep_view()) + m_opt("operationId"@, opt_str(self.operation_id)) + m_opt("parameters"@, opt_arr(self.parameters.deep_view())),
    {
        let mut ms: Vec<(String, Json)> = Vec::new();
        let ghost acc0 = Seq::<(Seq<char>, JsonV)>::empty();
        if let Some(x) = &self.tags {
            push_m(&mut ms, "tags", arr_json_str(x));
        }
        let ghost acc1 = acc0 + m_opt("tags"@, opt_arr_str(self.tags.deep_view()));
        proof {
            assert(ms.deep_view() =~= acc1);
        }
        if let Some(x) = &self.summary {
            push_m(&mut ms, "summary", Json::Str(x.clone()));
        }
        let ghost acc2 = acc1 + m_opt("summary"@, opt_str(self.summary));
        proof {
            assert(ms.deep_view() =~= acc2);
        }
        if let Some(x) = &self.description {
            push_m(&mut ms, "description", Json::Str(x.clone()));
        }
        let ghost acc3 = acc2 + m_opt("description"@, opt_str(self.description));
        proof {
            assert(ms.deep_view() =~= acc3);
        }
        if let Some(x) = &self.external_docs {
            push_m(&mut ms, "externalDocs", x.to_json());
        }
        let ghost acc4 = acc3 + m_opt("externalDocs"@, self.external_docs.deep_view());
        proof {
            assert(ms.deep_view() =~= acc4);
        }
        if let Some(x) = &self.operation_id {
            push_m(&mut ms, "operationId", Json::Str(x.clone()));
        }
        let ghost acc5 = acc4 + m_opt("operationId"@, opt_str(self.operation_id));
        proof {
            assert(ms.deep_view() =~= acc5);
        }
        if let Some(x) = &self.parameters {
            push_m(&mut ms, "parameters", arr_json_json(x));
        }
        let ghost acc6 = acc5 + m_opt("parameters"@, opt_arr(self.parameters.deep_view()));
        proof {
            assert(ms.deep_view() =~= acc6);
        }
        ms
    }

    /// Builds the JSON value this object serializes to.
    #[verifier::rlimit(100)]
    #[verifier::spinoff_prover]
    pub fn to_json(&self) -> (r: Json)
        ensures
            r.deep_view() == self.deep_view(),
    {
        let mut ms = self.members_head();
        let ghost acc6 = m_opt("tags"@, opt_arr_str(self.tags.deep_view())) + m_opt("summary"@, opt_str(self.summary)) + m_opt("description"@, opt_str(self.description)) + m_opt("externalDocs"@, self.external_docs.deep_view()) + m_opt("operationId"@, opt_str(self.operation_id)) + m_opt("parameters"@, opt_arr(self.parameters.deep_view()));
        if let Some(x) = &self.request_body {
            push_m(&mut ms, "requestBody", x.to_json());
        }
        let ghost acc7 = acc6 + m_opt("requestBody"@, self.request_body.deep_view());
        proof {
            assert(ms.deep_view() =~= acc7);
        }
        push_m(&mut ms, "responses", self.responses.to_json());
        let ghost acc8 = acc7 + m_one("responses"@, self.responses.deep_view());
        proof {
            assert(ms.deep_view() =~= acc8);
        }
        if let Some(x) = &self.callbacks {
            push_m(&mut ms, "callbacks", map_json_json(x));
        }
        let ghost acc9 = acc8 + m_opt("callbacks"@, opt_obj(self.callbacks.deep_view()));
        proof {
            assert(ms.deep_view() =~= acc9);
        }
        if let Some(b) = &self.deprecated {
            push_m(&mut ms, "deprecated", Json::Bool(*b));
        }
        let ghost acc10 = acc9 + m_opt("deprecated"@, opt_bool(self.deprecated));
        proof {
            assert(ms.deep_view() =~= acc10);
        }
        if let Some(x) = &self.security {
            push_m(&mut ms, "security", arr_json_sec(x));
        }
        let ghost acc11 = acc10 + m_opt("security"@, opt_arr_obj(self.security.deep_view()));
        proof {
            assert(ms.deep_view() =~= acc11);
        }
        if let Some(x) = &self.servers {
            push_m(&mut ms, "servers", arr_json_server(x));
        }
        let ghost acc12 = acc11 + m_opt("servers"@, opt_arr(self.servers.deep_view()));
        proof {
            assert(ms.deep_view() =~= acc12);
        }
        proof {
            crate::json::lemma_vec_members_view(ms);
        }
        let r = Json::Obj(ms);
        proof {
            assert(r.deep_view() =~= self.deep_view());
        }
        r
    }
}

impl DeepView for ComponentsObject {
    type V = JsonV;

    open spec fn deep_view(&self) -> JsonV {
        JsonV::Obj(m_opt("schemas"@, opt_obj(self.schemas.deep_view())) + m_opt("responses"@, opt_obj(self.responses.deep_view())) + m_opt("parameters"@, opt_obj(self.parameters.deep_view())) + m_opt("examples"@, opt_obj(self.examples.deep_view())) + m_opt("requestBodies"@, opt_obj(self.request_bodies.deep_view())) + m_opt("headers"@, opt_obj(self.headers.deep_view())) + m_opt("securitySchemes"@, opt_obj(self.security_schemes.deep_view())) + m_opt("links"@, opt_obj(self.links.deep_view())) + m_opt("callbacks"@, opt_obj(self.callbacks.deep_view())))
    }
}

impl ComponentsObject {
    #[verifier::rlimit(100)]
    #[verifier::spinoff_prover]
    fn members_head(&self) -> (ms: Vec<(String, Json)>)
        ensures
            ms.deep_view() == m_opt("schemas"@, opt_obj(self.schemas.deep_view())) + m_opt("responses"@, opt_obj(self.responses.deep_view())) + m_opt("parameters"@, opt_obj(self.parameters.deep_view())) + m_opt("examples"@, opt_obj(self.examples.deep_view())) + m_opt("requestBodies"@, opt_obj(self.request_bodies.deep_view())),
    {
        let mut ms: Vec<(String, Json)> = Vec::new();
        let ghost acc0 = Seq::<(Seq<char>, JsonV)>::empty();
        if let Some(x) = &self.schemas {
            push_m(&mut ms, "schemas", map_json_json(x));
        }
        let ghost acc1 = acc0 + m_opt("schemas"@, opt_obj(self.schemas.deep_view()));
        proof {
            assert(ms.deep_view() =~= acc1);
        }
        if let Some(x) = &self.responses {
            push_m(&mut ms, "responses", map_json_response_or(x));
        }
        let ghost acc2 = acc1 + m_opt("responses"@, opt_obj(self.responses.deep_view()));
        proof {
            assert(ms.deep_view() =~= acc2);
        }
        if let Some(x) = &self.parameters {
            push_m(&mut ms, "parameters", map_json_parameter_or(x));
        }
        let ghost acc3 = acc2 + m_opt("parameters"@, opt_obj(self.parameters.deep_view()));
        proof {
            assert(ms.deep_view() =~= acc3);
        }
        if let Some(x) = &self.examples {
            push_m(&mut ms, "examples", map_json_example_or(x));
        }
        let ghost acc4 = acc3 + m_opt("examples"@, opt_obj(self.examples.deep_view()));
        proof {
            assert(ms.deep_view() =~= acc4);
        }
        if let Some(x) = &self.request_bodies {
            push_m(&mut ms, "requestBodies", map_json_request_body_or(x));
        }
        let ghost acc5 = acc4 + m_opt("requestBodies"@, opt_obj(self.request_bodies.deep_view()));
        proof {
            assert(ms.deep_view() =~= acc5);
        }
        ms
    }

    /// Builds the JSON value this object serializes to.
    #[verifier::rlimit(100)]
    #[verifier::spinoff_prover]
    pub fn to_json(&self) -> (r: Json)
        ensures
            r.deep_view() == self.deep_view(),
    {
        let mut ms = self.members_head();
        let ghost acc5 = m_opt("schemas"@, opt_obj(self.schemas.deep_view())) + m_opt("responses"@, opt_obj(self.responses.deep_view())) + m_opt("parameters"@, opt_obj(self.parameters.deep_view())) + m_opt("examples"@, opt_obj(self.examples.deep_view())) + m_opt("requestBodies"@, opt_obj(self.request_bodies.deep_view()));
        if let Some(x) = &self.headers {
            push_m(&mut ms, "headers", map_json_header_or(x));
        }
        let ghost acc6 = acc5 + m_opt("headers"@, opt_obj(self.headers.deep_view()));
        proof {
            assert(ms.deep_view() =~= acc6);
        }
        if let Some(x) = &self.security_schemes {
            push_m(&mut ms, "securitySchemes", map_json_security_scheme_or(x));
        }
        let ghost acc7 = acc6 + m_opt("securitySchemes"@, opt_obj(self.security_schemes.deep_view()));
        proof {
            assert(ms.deep_view() =~= acc7);
        }
        if let Some(x) = &self.links {
            push_m(&mut ms, "links", map_json_link_or(x));
        }
        let ghost acc8 = acc7 + m_opt("links"@, opt_obj(self.links.deep_view()));
        proof {
            assert(ms.deep_view() =~= acc8);
        }
        if let Some(x) = &self.callbacks {
            push_m(&mut ms, "callbacks", map_json_callback_or(x));
        }
        let ghost acc9 = acc8 + m_opt("callbacks"@, opt_obj(self.callbacks.deep_view()));
        proof {
            assert(ms.deep_view() =~= acc9);
        }
        proof {
            crate::json::lemma_vec_members_view(ms);
        }
        let r = Json::Obj(ms);
        proof {
            assert(r.deep_view() =~= self.deep_view());
        }
        r
    }
}

impl DeepView for SwaggerObject {
    type V = JsonV;

    open spec fn deep_view(&self) -> JsonV {
        JsonV::Obj(m_one("openapi"@, self.openapi.deep_view()) + m_one("info"@, self.info.deep_view()) + m_opt("servers"@, opt_arr(self.servers.deep_view())) + m_one("paths"@, JsonV::Obj(self.paths.deep_view())) + m_one("components"@, self.components.deep_view()) + m_opt("security"@, opt_obj(self.security.deep_view())) + m_opt("tags"@, opt_arr(self.tags.deep_view())) + m_opt("externalDocs"@, self.external_docs.deep_view()))
    }
}

impl SwaggerObject {
    #[verifier::rlimit(100)]
    #[verifier::spinoff_prover]
    fn members_head(&self) -> (ms: Vec<(String, Json)>)
        ensures
            ms.deep_view() == m_one("openapi"@, self.openapi.deep_view()) + m_one("info"@, self.info.deep_view()) + m_opt("servers"@, opt_arr(self.servers.deep_view())) + m_one("paths"@, JsonV::Obj(self.paths.deep_view())),
    {
        let mut ms: Vec<(String, Json)> = Vec::new();
        let ghost acc0 = Seq::<(Seq<char>, JsonV)>::empty();
        push_m(&mut ms, "openapi", self.openapi.to_json());
        let ghost acc1 = acc0 + m_one("openapi"@, self.openapi.deep_view());
        proof {
            assert(ms.deep_view() =~= acc1);
        }
        push_m(&mut ms, "info", self.info.to_json());
        let ghost acc2 = acc1 + m_one("info"@, self.info.deep_view());
        proof {
            assert(ms.deep_view() =~= acc2);
        }
        if let Some(x) = &self.servers {
            push_m(&mut ms, "servers", arr_json_server(x));
        }
        let ghost acc3 = acc2 + m_opt("servers"@, opt_arr(self.servers.deep_view()));
        proof {
            assert(ms.deep_view() =~= acc3);
        }
        push_m(&mut ms, "paths", map_json_path_item(&self.paths));
        let ghost acc4 = acc3 + m_one("paths"@, JsonV::Obj(self.paths.deep_view()));
        proof {
            assert(ms.deep_view() =~= acc4);
        }
        ms
    }

    /// Builds the JSON value this object serializes to.
    #[verifier::rlimit(100)]
    #[verifier::spinoff_prover]
    pub fn to_json(&self) -> (r: Json)
        ensures
            r.deep_view() == self.deep_view(),
    {
        let mut ms = self.members_head();
        let ghost acc4 = m_one("openapi"@, self.openapi.deep_view()) + m_one("info"@, self.info.deep_view()) + m_opt("servers"@, opt_arr(self.servers.deep_view())) + m_one("paths"@, JsonV::Obj(self.paths.deep_view()));
        push_m(&mut ms, "components", self.components.to_json());
        let ghost acc5 = acc4 + m_one("components"@, self.components.deep_view());
        proof {
            assert(ms.deep_view() =~= acc5);
        }
        if let Some(x) = &self.security {
            push_m(&mut ms, "security", map_json_json(x));
        }
        let ghost acc6 = acc5 + m_opt("security"@, opt_obj(self.security.deep_view()));
        proof {
            assert(ms.deep_view() =~= acc6);
        }
        if let Some(x) = &self.tags {
            push_m(&mut ms, "tags", arr_json_tag(x));
        }
        let ghost acc7 = acc6 + m_opt("tags"@, opt_arr(self.tags.deep_view()));
        proof {
            assert(ms.deep_view() =~= acc7);
        }
        if let Some(x) = &self.external_docs {
            push_m(&mut ms, "externalDocs", x.to_json());
        }
        let ghost acc8 = acc7 + m_opt("externalDocs"@, self.external_docs.deep_view());
        proof {
            assert(ms.deep_view() =~= acc8);
        }
        proof {
            crate::json::lemma_vec_members_view(ms);
        }
        let r = Json::Obj(ms);
        proof {
            assert(r.deep_view() =~= self.deep_view());
        }
        r
    }
}

} // verus!
