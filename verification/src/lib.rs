//! Incremental assembly of an OpenAPI 3.0.0 document.
//!
//! A document is created once, with its info block, servers and a schema
//! registry built by normalizing caller-supplied type descriptions, and then
//! grown route by route: each registration merges one operation into the
//! path map, infers path parameters from `{name}` segments, and references
//! the registry (or embeds an inline schema) for request and response
//! bodies. The finished document renders to JSON text whose exact character
//! sequence is pinned by the serialization contracts.

use vstd::prelude::*;

mod json;
mod model;
mod normalize;
mod routes;
mod text;

pub use json::Json;
pub use json::JsonV;
pub use model::AnyOrExpression;
pub use model::CallbackObject;
pub use model::ComponentsObject;
pub use model::ContactObject;
pub use model::DiscriminatorObject;
pub use model::EncodingObject;
pub use model::ExampleObject;
pub use model::ExampleObjectOrReferenceObject;
pub use model::ExternalDocumentationObject;
pub use model::HeaderObject;
pub use model::HeaderObjectOrReferenceObject;
pub use model::HttpStatusCode;
pub use model::InfoObject;
pub use model::LicenseObject;
pub use model::LinkObject;
pub use model::LinkObjectOrReferenceObject;
pub use model::MediaTypeObject;
pub use model::OAuthFlowObject;
pub use model::OAuthFlowsObject;
pub use model::OperationObject;
pub use model::ParameterIn;
pub use model::ParameterObject;
pub use model::ParameterObjectOrReferenceObject;
pub use model::PathItemObject;
pub use model::PathsObject;
pub use model::ReferenceObject;
pub use model::RequestBodyObject;
pub use model::RequestBodyObjectOrReferenceObject;
pub use model::ResponseObject;
pub use model::ResponseObjectOrReferenceObject;
pub use model::ResponsesObject;
pub use model::SchemaObject;
pub use model::SchemaObjectOrReferenceObject;
pub use model::SecurityRequirementObject;
pub use model::SecuritySchemeObject;
pub use model::SecuritySchemeObjectOrReferenceObject;
pub use model::ServerObject;
pub use model::ServerVariableObject;
pub use model::SwaggerObject;
pub use model::SwaggerVersion;
pub use model::TagObject;
pub use model::XMLObject;
pub use normalize::lemma_normalize_idempotent;
pub use normalize::norm;
pub use routes::is_supported_method;
pub use routes::lemma_methods_accumulate;
pub use routes::lemma_parameter_descriptor;
pub use routes::lemma_path_parameter_inference;
pub use routes::lemma_registered_responses_present;
pub use routes::lemma_reregister_overwrites;
pub use routes::lemma_schema_reference;
pub use routes::lemma_security_flag;
pub use routes::param_json;
pub use routes::path_params_json;
pub use routes::registry_of;
pub use routes::responses_entries;
pub use routes::route_added;
pub use routes::schema_for_title;
pub use routes::title_of;
pub use routes::UnsupportedMethodError;
pub use normalize::normalize;
pub use text::json_text;

verus! {

/// The contract of a schema introspector: a structural JSON description of
/// one type.
pub trait JsonSchemaDefinition {
    fn get_json_schema_definition() -> Json;
}

/// The contract of a query-string introspector: the query parameters one
/// type contributes.
pub trait QueryDefinition {
    fn get_query_definitions() -> Vec<ParameterObject>;
}

} // verus!
