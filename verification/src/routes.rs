//! Document construction and route registration.
//!
//! [`SwaggerObject::new`] builds a document with its schema registry;
//! [`SwaggerObject::add_route`] merges one operation into the path map,
//! inferring path parameters from `{name}` segments and choosing between a
//! registry reference and an inline schema for each body.

use vstd::prelude::*;

use crate::json::str_is;
use crate::json::Json;
use crate::json::JsonV;
use crate::model::ComponentsObject;
use crate::model::HttpStatusCode;
use crate::model::InfoObject;
use crate::model::MediaTypeObject;
use crate::model::OperationObject;
use crate::model::ParameterObject;
use crate::model::ParameterIn;
use crate::model::ParameterObjectOrReferenceObject;
use crate::model::PathItemObject;
use crate::model::RequestBodyObject;
use crate::model::RequestBodyObjectOrReferenceObject;
use crate::model::ResponseObject;
use crate::model::ResponseObjectOrReferenceObject;
use crate::model::ResponsesObject;
use crate::model::SchemaObjectOrReferenceObject;
use crate::model::SecuritySchemeObject;
use crate::model::SecuritySchemeObjectOrReferenceObject;
use crate::model::ServerObject;
use crate::model::SwaggerObject;
use crate::model::SwaggerVersion;
use crate::normalize::norm;
use crate::normalize::normalize;
use crate::normalize::schemas_prefix;
use crate::normalize::string_schema;

verus! {

broadcast use vstd::std_specs::vec::axiom_vec_index_decreases;

/// The HTTP methods a route may use.
pub open spec fn is_supported_method(m: Seq<char>) -> bool {
    ||| m == "GET"@
    ||| m == "POST"@
    ||| m == "PUT"@
    ||| m == "PATCH"@
    ||| m == "DELETE"@
}

/// The registration of an unsupported HTTP method, a caller error.
pub struct UnsupportedMethodError {}

impl UnsupportedMethodError {
    /// A description of the error.
    pub fn message(&self) -> String {
        "unsupported HTTP method; supported are GET, POST, PUT, PATCH and DELETE".to_owned()
    }
}

// --- path templates -------------------------------------------------------

/// The position of the first `/` in `s`, or its length.
pub open spec fn first_sep(s: Seq<char>) -> int
    decreases s.len(),
{
    if s.len() == 0 {
        0
    } else if s[0] == '/' {
        0
    } else {
        1 + first_sep(s.subrange(1, s.len() as int))
    }
}

/// The segments of a path template, split on `/`.
pub open spec fn split_slash(s: Seq<char>) -> Seq<Seq<char>>
    decreases s.len(),
{
    let i = first_sep(s);
    if 0 <= i < s.len() {
        seq![s.subrange(0, i)] + split_slash(s.subrange(i + 1, s.len() as int))
    } else {
        seq![s]
    }
}

/// A parameter marker character, trimmed off a `{name}` segment.
pub open spec fn is_mark(c: char) -> bool {
    c == ':' || c == '{' || c == '}'
}

/// `s` without leading parameter markers.
pub open spec fn trim_start_marks(s: Seq<char>) -> Seq<char>
    decreases s.len(),
{
    if s.len() > 0 && is_mark(s[0]) {
        trim_start_marks(s.subrange(1, s.len() as int))
    } else {
        s
    }
}

/// `s` without trailing parameter markers.
pub open spec fn trim_end_marks(s: Seq<char>) -> Seq<char>
    decreases s.len(),
{
    if s.len() > 0 && is_mark(s.last()) {
        trim_end_marks(s.drop_last())
    } else {
        s
    }
}

/// `s` without parameter markers on either end.
pub open spec fn trim_marks(s: Seq<char>) -> Seq<char> {
    trim_end_marks(trim_start_marks(s))
}

/// Whether a segment declares a path parameter.
pub open spec fn has_brace(s: Seq<char>) -> bool {
    exists|i: int| 0 <= i < s.len() && s[i] == '{'
}

/// The descriptor of one inferred path parameter.
pub open spec fn param_json(name: Seq<char>) -> JsonV {
    JsonV::Obj(
        seq![
            ("name"@, JsonV::Str(name)),
            ("in"@, JsonV::Str("path"@)),
            ("description"@, JsonV::Str("use "@ + name + " parameter"@)),
            ("required"@, JsonV::Bool(true)),
            ("schema"@, string_schema()),
        ],
    )
}

/// The descriptors of all `{name}` segments, in path order.
pub open spec fn params_of(segs: Seq<Seq<char>>) -> Seq<JsonV>
    decreases segs.len(),
{
    if segs.len() == 0 {
        Seq::empty()
    } else {
        (if has_brace(segs[0]) {
            seq![param_json(trim_marks(segs[0]))]
        } else {
            Seq::empty()
        }) + params_of(segs.subrange(1, segs.len() as int))
    }
}

/// The inferred parameter list of a path template: absent when the template
/// has no `{name}` segment.
pub open spec fn path_params_json(path: Seq<char>) -> Option<Seq<JsonV>> {
    let ps = params_of(split_slash(path));
    if ps.len() == 0 {
        None
    } else {
        Some(ps)
    }
}

// --- body schemas ---------------------------------------------------------

/// The schema emitted for a response of type `title`: the raw schema inline
/// for the literal title `String`, a registry reference otherwise.
pub open spec fn schema_for_title(title: Seq<char>, raw: JsonV) -> JsonV {
    if title == "String"@ {
        raw
    } else {
        JsonV::Obj(seq![("$ref"@, JsonV::Str(schemas_prefix() + title))])
    }
}

/// The schema emitted for a request body of type `title`.
pub open spec fn rb_schema(title: Seq<char>) -> JsonV {
    if title == "String"@ {
        string_schema()
    } else {
        JsonV::Obj(seq![("$ref"@, JsonV::Str(schemas_prefix() + title))])
    }
}

/// The JSON of one response entry.
pub open spec fn response_json(desc: Seq<char>, title: Seq<char>, raw: JsonV) -> JsonV {
    JsonV::Obj(
        seq![
            ("description"@, JsonV::Str(desc)),
            (
                "content"@,
                JsonV::Obj(
                    seq![
                        (
                            "application/json"@,
                            JsonV::Obj(seq![("schema"@, schema_for_title(title, raw))]),
                        ),
                    ],
                ),
            ),
        ],
    )
}

/// The JSON of a request body entry: description kept, content forced to
/// `application/json`, required set.
pub open spec fn request_body_json(title: Seq<char>, desc: Option<String>) -> JsonV {
    JsonV::Obj(
        crate::model::m_opt("description"@, crate::model::opt_str(desc)) + seq![
            (
                "content"@,
                JsonV::Obj(
                    seq![
                        ("application/json"@, JsonV::Obj(seq![("schema"@, rb_schema(title))])),
                    ],
                ),
            ),
            ("required"@, JsonV::Bool(true)),
        ],
    )
}

// --- response consolidation -----------------------------------------------

/// Replaces the value under status code `c`, or appends the pair.
pub open spec fn upsert_code(m: Seq<(u16, JsonV)>, c: u16, v: JsonV) -> Seq<(u16, JsonV)> {
    if exists|i: int| 0 <= i < m.len() && m[i].0 == c {
        Seq::new(
            m.len(),
            |i: int|
                if m[i].0 == c {
                    (c, v)
                } else {
                    m[i]
                },
        )
    } else {
        m.push((c, v))
    }
}

/// The consolidated status-code map of a response list: later entries with
/// the same code overwrite earlier ones.
pub open spec fn responses_entries(rs: Seq<(u16, (Seq<char>, Seq<char>, JsonV))>) -> Seq<
    (u16, JsonV),
>
    decreases rs.len(),
{
    if rs.len() == 0 {
        Seq::empty()
    } else {
        upsert_code(
            responses_entries(rs.drop_last()),
            rs.last().0,
            response_json(rs.last().1.0, rs.last().1.1, rs.last().1.2),
        )
    }
}

// --- the registered operation ----------------------------------------------

/// Whether `orb` is the request body entry that registration of `rb` builds.
pub open spec fn rb_matches(
    orb: Option<RequestBodyObjectOrReferenceObject>,
    rb: Option<(Seq<char>, Option<String>)>,
) -> bool {
    match rb {
        None => orb is None,
        Some((title, desc)) => orb matches Some(
            RequestBodyObjectOrReferenceObject::RequestBodyObject(b),
        ) && b.deep_view() == request_body_json(title, desc),
    }
}

/// Whether `sec` is the security list the `secure` flag asks for.
pub open spec fn security_matches(
    sec: Option<Vec<crate::model::SecurityRequirementObject>>,
    secure: bool,
) -> bool {
    if secure {
        sec matches Some(v) && v.deep_view() == seq![
            seq![("bearerAuth"@, JsonV::Arr(Seq::<JsonV>::empty()))],
        ]
    } else {
        sec is None
    }
}

/// Whether `op` is exactly the operation one `add_route` call registers.
pub open spec fn is_route_operation(
    op: OperationObject,
    secure: bool,
    tag: Seq<char>,
    path: Seq<char>,
    rb: Option<(Seq<char>, Option<String>)>,
    resp: Seq<(u16, (Seq<char>, Seq<char>, JsonV))>,
) -> bool {
    &&& op.tags matches Some(ts) && ts.deep_view() == seq![tag]
    &&& op.summary is None
    &&& op.description is None
    &&& op.external_docs is None
    &&& op.operation_id is None
    &&& op.parameters.deep_view() == path_params_json(path)
    &&& rb_matches(op.request_body, rb)
    &&& op.responses.default is None
    &&& op.responses.responses_per_http_status_codes matches Some(v) && v.deep_view()
        == responses_entries(resp)
    &&& op.callbacks is None
    &&& op.deprecated is None
    &&& security_matches(op.security, secure)
    &&& op.servers is None
}

/// The operation a path item holds for method `m`.
pub open spec fn method_op(it: PathItemObject, m: Seq<char>) -> Option<OperationObject> {
    if m == "GET"@ {
        it.get
    } else if m == "PUT"@ {
        it.put
    } else if m == "POST"@ {
        it.post
    } else if m == "DELETE"@ {
        it.delete
    } else if m == "PATCH"@ {
        it.patch
    } else {
        None
    }
}

/// The fields registration never touches agree between `o` and `n`.
pub open spec fn non_method_preserved(o: PathItemObject, n: PathItemObject) -> bool {
    &&& n.ref_path == o.ref_path
    &&& n.summary == o.summary
    &&& n.description == o.description
    &&& n.options == o.options
    &&& n.head == o.head
    &&& n.trace == o.trace
    &&& n.servers == o.servers
    &&& n.parameters == o.parameters
}

/// The method slots other than `m` agree between `o` and `n`.
pub open spec fn others_preserved(o: PathItemObject, n: PathItemObject, m: Seq<char>) -> bool {
    &&& m != "GET"@ ==> n.get == o.get
    &&& m != "PUT"@ ==> n.put == o.put
    &&& m != "POST"@ ==> n.post == o.post
    &&& m != "DELETE"@ ==> n.delete == o.delete
    &&& m != "PATCH"@ ==> n.patch == o.patch
}

/// A path item fresh from this registration: only the slot for `m` is set.
pub open spec fn fresh_item_ok(
    n: PathItemObject,
    m: Seq<char>,
    secure: bool,
    tag: Seq<char>,
    path: Seq<char>,
    rb: Option<(Seq<char>, Option<String>)>,
    resp: Seq<(u16, (Seq<char>, Seq<char>, JsonV))>,
) -> bool {
    &&& n.ref_path is None
    &&& n.summary is None
    &&& n.description is None
    &&& n.options is None
    &&& n.head is None
    &&& n.trace is None
    &&& n.servers is None
    &&& n.parameters is None
    &&& m != "GET"@ ==> n.get is None
    &&& m != "PUT"@ ==> n.put is None
    &&& m != "POST"@ ==> n.post is None
    &&& m != "DELETE"@ ==> n.delete is None
    &&& m != "PATCH"@ ==> n.patch is None
    &&& method_op(n, m) matches Some(op) && is_route_operation(op, secure, tag, path, rb, resp)
}

/// A pre-existing path item after this registration: only the slot for `m`
/// changed, to the new operation.
pub open spec fn updated_item_ok(
    o: PathItemObject,
    n: PathItemObject,
    m: Seq<char>,
    secure: bool,
    tag: Seq<char>,
    path: Seq<char>,
    rb: Option<(Seq<char>, Option<String>)>,
    resp: Seq<(u16, (Seq<char>, Seq<char>, JsonV))>,
) -> bool {
    &&& non_method_preserved(o, n)
    &&& others_preserved(o, n, m)
    &&& method_op(n, m) matches Some(op) && is_route_operation(op, secure, tag, path, rb, resp)
}

/// The position of the first entry for path `p`, or `-1`.
pub open spec fn path_index(ps: Seq<(String, PathItemObject)>, p: Seq<char>) -> int
    decreases ps.len(),
{
    if ps.len() == 0 {
        -1
    } else if ps[0].0@ == p {
        0
    } else {
        let r = path_index(ps.subrange(1, ps.len() as int), p);
        if r < 0 {
            -1
        } else {
            r + 1
        }
    }
}

/// What one successful registration does to the path map: a fresh item is
/// appended for a new path, and for a known path exactly the method slot of
/// its item changes.
pub open spec fn route_added(
    ps_old: Seq<(String, PathItemObject)>,
    ps_new: Seq<(String, PathItemObject)>,
    m: Seq<char>,
    path: Seq<char>,
    secure: bool,
    tag: Seq<char>,
    rb: Option<(Seq<char>, Option<String>)>,
    resp: Seq<(u16, (Seq<char>, Seq<char>, JsonV))>,
) -> bool {
    let i = path_index(ps_old, path);
    if i < 0 {
        &&& ps_new.len() == ps_old.len() + 1
        &&& ps_new.subrange(0, ps_old.len() as int) == ps_old
        &&& ps_new.last().0@ == path
        &&& fresh_item_ok(ps_new.last().1, m, secure, tag, path, rb, resp)
    } else {
        &&& ps_new.len() == ps_old.len()
        &&& forall|t: int| 0 <= t < ps_old.len() && t != i ==> ps_new[t] == ps_old[t]
        &&& ps_new[i].0 == ps_old[i].0
        &&& updated_item_ok(ps_old[i].1, ps_new[i].1, m, secure, tag, path, rb, resp)
    }
}

// --- the schema registry ----------------------------------------------------

/// The first value under key `k`.
pub open spec fn lookup(ms: Seq<(Seq<char>, JsonV)>, k: Seq<char>) -> Option<JsonV>
    decreases ms.len(),
{
    if ms.len() == 0 {
        None
    } else if ms[0].0 == k {
        Some(ms[0].1)
    } else {
        lookup(ms.subrange(1, ms.len() as int), k)
    }
}

/// The registry key of a raw schema: its `title` member, when that is a
/// string.
pub open spec fn title_of(j: JsonV) -> Option<Seq<char>> {
    match j {
        JsonV::Obj(ms) => match lookup(ms, "title"@) {
            Some(JsonV::Str(s)) => Some(s),
            _ => None,
        },
        _ => None,
    }
}

/// Replaces the value under key `k`, or appends the pair.
pub open spec fn upsert_key(m: Seq<(Seq<char>, JsonV)>, k: Seq<char>, v: JsonV) -> Seq<
    (Seq<char>, JsonV),
> {
    if exists|i: int| 0 <= i < m.len() && m[i].0 == k {
        Seq::new(
            m.len(),
            |i: int|
                if m[i].0 == k {
                    (k, v)
                } else {
                    m[i]
                },
        )
    } else {
        m.push((k, v))
    }
}

/// The schema registry built from raw schemas: each is normalized and stored
/// under its title, later titles overwriting earlier ones.
pub open spec fn registry_of(ss: Seq<JsonV>) -> Seq<(Seq<char>, JsonV)>
    decreases ss.len(),
{
    if ss.len() == 0 {
        Seq::empty()
    } else {
        match title_of(ss.last()) {
            Some(t) => upsert_key(registry_of(ss.drop_last()), t, norm(ss.last())),
            None => registry_of(ss.drop_last()),
        }
    }
}

// --- exec helpers -----------------------------------------------------------

fn s_eq(s: &str, lit: &str) -> (r: bool)
    ensures
        r == (s@ == lit@),
{
    let o = s.to_owned();
    str_is(&o, lit)
}

proof fn lemma_first_sep_at(u: Seq<char>, k: int)
    requires
        0 <= k <= u.len(),
        forall|t: int| 0 <= t < k ==> u[t] != '/',
        k == u.len() || u[k] == '/',
    ensures
        first_sep(u) == k,
    decreases k,
{
    if k == 0 {
    } else {
        let rest = u.subrange(1, u.len() as int);
        assert forall|t: int| 0 <= t < k - 1 implies rest[t] != '/' by {
            assert(rest[t] == u[t + 1]);
        }
        if k < u.len() {
            assert(rest[k - 1] == u[k]);
        }
        lemma_first_sep_at(rest, k - 1);
    }
}

proof fn lemma_split_at(s: Seq<char>, a: int, b: int)
    requires
        0 <= a <= b <= s.len(),
        forall|t: int| a <= t < b ==> s[t] != '/',
        b == s.len() || s[b] == '/',
    ensures
        split_slash(s.skip(a)) == seq![s.subrange(a, b)] + (if b < s.len() {
            split_slash(s.skip(b + 1))
        } else {
            Seq::<Seq<char>>::empty()
        }),
{
    let u = s.skip(a);
    assert forall|t: int| 0 <= t < b - a implies u[t] != '/' by {
        assert(u[t] == s[a + t]);
    }
    if b < s.len() {
        assert(u[b - a] == s[b]);
    }
    lemma_first_sep_at(u, b - a);
    if b < s.len() {
        assert(u.subrange(0, b - a) =~= s.subrange(a, b));
        assert(u.subrange(b - a + 1, u.len() as int) =~= s.skip(b + 1));
        assert(split_slash(s.skip(a)) =~= seq![s.subrange(a, b)] + split_slash(s.skip(b + 1)));
    } else {
        assert(u =~= s.subrange(a, b));
        assert(split_slash(s.skip(a)) =~= seq![s.subrange(a, b)]
            + Seq::<Seq<char>>::empty());
    }
}

proof fn lemma_params_push(segs: Seq<Seq<char>>, x: Seq<char>)
    ensures
        params_of(segs.push(x)) == params_of(segs) + (if has_brace(x) {
            seq![param_json(trim_marks(x))]
        } else {
            Seq::<JsonV>::empty()
        }),
    decreases segs.len(),
{
    if segs.len() == 0 {
        assert(segs.push(x)[0] == x);
        assert(segs.push(x).subrange(1, 1) =~= Seq::<Seq<char>>::empty());
        assert(params_of(segs.push(x).subrange(1, 1)) =~= Seq::<JsonV>::empty());
        assert(params_of(segs.push(x)) =~= params_of(segs) + (if has_brace(x) {
            seq![param_json(trim_marks(x))]
        } else {
            Seq::<JsonV>::empty()
        }));
    } else {
        assert(segs.push(x)[0] == segs[0]);
        let rest = segs.subrange(1, segs.len() as int);
        assert(segs.push(x).subrange(1, segs.len() as int + 1) =~= rest.push(x));
        lemma_params_push(rest, x);
        assert(params_of(segs.push(x)) =~= params_of(segs) + (if has_brace(x) {
            seq![param_json(trim_marks(x))]
        } else {
            Seq::<JsonV>::empty()
        }));
    }
}

/// Whether a path segment declares a parameter.
fn has_brace_exec(s: &str) -> (r: bool)
    ensures
        r == has_brace(s@),
{
    let n: usize = s.unicode_len();
    let mut i: usize = 0;
    while i < n
        invariant
            n == s@.len(),
            0 <= i <= n,
            forall|t: int| 0 <= t < i ==> s@[t] != '{',
        decreases n - i,
    {
        if s.get_char(i) == '{' {
            return true;
        }
        i = i + 1;
    }
    false
}

fn is_mark_at(s: &str, i: usize) -> (r: bool)
    requires
        i < s@.len(),
    ensures
        r == is_mark(s@[i as int]),
{
    let c = s.get_char(i);
    c == ':' || c == '{' || c == '}'
}

/// Strips the parameter markers off a segment, as [`trim_marks`] says.
fn trim_marks_exec(s: &str) -> (r: String)
    ensures
        r@ == trim_marks(s@),
{
    let n: usize = s.unicode_len();
    let mut a: usize = 0;
    proof {
        assert(s@.skip(0) =~= s@);
    }
    while a < n && is_mark_at(s, a)
        invariant
            n == s@.len(),
            0 <= a <= n,
            trim_start_marks(s@) == trim_start_marks(s@.skip(a as int)),
        decreases n - a,
    {
        proof {
            assert(s@.skip(a as int)[0] == s@[a as int]);
            assert(s@.skip(a as int).subrange(1, s@.skip(a as int).len() as int) =~= s@.skip(
                a + 1,
            ));
        }
        a = a + 1;
    }
    proof {
        assert(trim_start_marks(s@.skip(a as int)) == s@.skip(a as int));
    }
    let mut b: usize = n;
    while b > a && is_mark_at(s, b - 1)
        invariant
            n == s@.len(),
            a <= b <= n,
            trim_start_marks(s@) == s@.skip(a as int),
            trim_end_marks(s@.skip(a as int)) == trim_end_marks(s@.subrange(a as int, b as int)),
        decreases b,
    {
        proof {
            let cur = s@.subrange(a as int, b as int);
            assert(cur.last() == s@[b - 1]);
            assert(cur.drop_last() =~= s@.subrange(a as int, b - 1));
        }
        b = b - 1;
    }
    proof {
        assert(trim_end_marks(s@.subrange(a as int, b as int)) == s@.subrange(a as int, b as int));
    }
    s.substring_char(a, b).to_owned()
}

/// The inline `{"type":"string"}` schema.
fn string_schema_exec() -> (r: Json)
    ensures
        r.deep_view() == string_schema(),
{
    let mut ms: Vec<(String, Json)> = Vec::new();
    ms.push(("type".to_owned(), Json::Str("string".to_owned())));
    proof {
        crate::json::lemma_vec_members_view(ms);
        assert(ms.deep_view() =~= seq![("type"@, JsonV::Str("string"@))]);
    }
    Json::Obj(ms)
}

/// The `$ref` schema pointing at the registry entry for `title`.
fn ref_schema_exec(title: &str) -> (r: Json)
    ensures
        r.deep_view() == JsonV::Obj(seq![("$ref"@, JsonV::Str(schemas_prefix() + title@))]),
{
    proof {
        reveal_strlit("#/components/schemas/");
    }
    let mut target = "#/components/schemas/".to_owned();
    target.append(title);
    let mut ms: Vec<(String, Json)> = Vec::new();
    ms.push(("$ref".to_owned(), Json::Str(target)));
    proof {
        crate::json::lemma_vec_members_view(ms);
        assert(ms.deep_view() =~= seq![("$ref"@, JsonV::Str(schemas_prefix() + title@))]);
    }
    Json::Obj(ms)
}

/// One inferred path parameter descriptor.
fn make_param(name: String) -> (r: Json)
    ensures
        r.deep_view() == param_json(name@),
{
    proof {
        reveal_strlit("use ");
        reveal_strlit(" parameter");
    }
    let mut desc = "use ".to_owned();
    desc.append(name.as_str());
    desc.append(" parameter");
    let p = ParameterObject {
        name,
        where_in: ParameterIn::Path,
        description: Some(desc),
        required: Some(true),
        deprecated: None,
        allow_empty_value: None,
        schema: Some(SchemaObjectOrReferenceObject::SchemaObject(Box::new(string_schema_exec()))),
    };
    let r = p.to_json();
    proof {
        assert(p.schema->0.deep_view() == string_schema());
        assert(p.description->0@ == "use "@ + p.name@ + " parameter"@);
        let lhs = crate::model::m_one("name"@, JsonV::Str(p.name@)) + crate::model::m_one(
            "in"@,
            p.where_in.deep_view(),
        ) + crate::model::m_opt("description"@, crate::model::opt_str(p.description))
            + crate::model::m_opt("required"@, crate::model::opt_bool(p.required))
            + crate::model::m_opt("deprecated"@, crate::model::opt_bool(p.deprecated))
            + crate::model::m_opt("allowEmptyValue"@, crate::model::opt_bool(p.allow_empty_value))
            + crate::model::m_opt("schema"@, p.schema.deep_view());
        assert(p.deep_view() == JsonV::Obj(lhs));
        assert(lhs =~~= seq![
            ("name"@, JsonV::Str(p.name@)),
            ("in"@, JsonV::Str("path"@)),
            ("description"@, JsonV::Str("use "@ + p.name@ + " parameter"@)),
            ("required"@, JsonV::Bool(true)),
            ("schema"@, string_schema()),
        ]);
        assert(r.deep_view() == param_json(p.name@));
    }
    r
}

/// The inferred path parameters of a path template, or nothing when the
/// template declares none.
#[verifier::loop_isolation(false)]
fn path_parameters(path: &str) -> (r: Option<Vec<Json>>)
    requires
        path@.len() < usize::MAX,
    ensures
        r.deep_view() == path_params_json(path@),
{
    broadcast use crate::json::lemma_vec_json_view;

    let n: usize = path.unicode_len();
    let mut out: Vec<Json> = Vec::new();
    let mut start: usize = 0;
    let ghost mut processed: Seq<Seq<char>> = Seq::empty();
    proof {
        assert(path@.skip(0) =~= path@);
    }
    while start <= n
        invariant
            n == path@.len(),
            0 <= start <= n + 1,
            split_slash(path@) =~= processed + (if start <= n {
                split_slash(path@.skip(start as int))
            } else {
                Seq::<Seq<char>>::empty()
            }),
            out.deep_view() =~= params_of(processed),
        decreases n + 1 - start,
    {
        let mut b: usize = start;
        while b < n && path.get_char(b) != '/'
            invariant
                start <= b <= n,
                forall|t: int| start <= t < b ==> path@[t] != '/',
            decreases n - b,
        {
            b = b + 1;
        }
        let seg = path.substring_char(start, b);
        if has_brace_exec(seg) {
            let trimmed = trim_marks_exec(seg);
            let p = make_param(trimmed);
            out.push(p);
        }
        proof {
            lemma_split_at(path@, start as int, b as int);
            lemma_params_push(processed, path@.subrange(start as int, b as int));
            processed = processed.push(path@.subrange(start as int, b as int));
            assert(out.deep_view() =~= params_of(processed));
        }
        start = b + 1;
    }
    if out.len() == 0 {
        proof {
            assert(params_of(split_slash(path@)) =~= out.deep_view());
        }
        None
    } else {
        proof {
            assert(params_of(split_slash(path@)) =~= out.deep_view());
        }
        Some(out)
    }
}

/// One media-type map holding only `application/json` with the given schema.
fn json_content(schema: Json) -> (r: Vec<(String, MediaTypeObject)>)
    ensures
        r.deep_view() == seq![
            ("application/json"@, JsonV::Obj(seq![("schema"@, schema.deep_view())])),
        ],
{
    let mto = MediaTypeObject {
        schema: Some(SchemaObjectOrReferenceObject::SchemaObject(Box::new(schema))),
        example: None,
        examples: None,
        encoding: None,
    };
    let mut content: Vec<(String, MediaTypeObject)> = Vec::new();
    content.push(("application/json".to_owned(), mto));
    proof {
        assert(content.deep_view() =~~= seq![
            ("application/json"@, JsonV::Obj(seq![("schema"@, content@[0].1.schema->0.deep_view())])),
        ]);
    }
    content
}

/// The consolidated response map of one registration.
#[verifier::loop_isolation(false)]
fn build_responses(responses: &Vec<(HttpStatusCode, (&str, &str, Json))>) -> (r: Vec<
    (HttpStatusCode, ResponseObjectOrReferenceObject),
>)
    ensures
        r.deep_view() == responses_entries(responses.deep_view()),
{
    let ghost rsv = responses.deep_view();
    let mut out: Vec<(HttpStatusCode, ResponseObjectOrReferenceObject)> = Vec::new();
    let mut i: usize = 0;
    while i < responses.len()
        invariant
            0 <= i <= responses@.len(),
            rsv.len() == responses@.len(),
            out.deep_view() =~= responses_entries(rsv.take(i as int)),
            forall|a: int, b: int| 0 <= a < b < out@.len() ==> out@[a].0 != out@[b].0,
        decreases responses@.len() - i,
    {
        let code = responses[i].0;
        let desc = responses[i].1.0;
        let title = responses[i].1.1;
        let schema = if s_eq(title, "String") {
            responses[i].1.2.duplicate()
        } else {
            ref_schema_exec(title)
        };
        proof {
            assert(schema.deep_view() == schema_for_title(rsv[i as int].1.1, rsv[i as int].1.2));
        }
        let content = json_content(schema);
        let resp = ResponseObject {
            description: desc.to_owned(),
            headers: None,
            content: Some(content),
            links: None,
        };
        let ghost respg = resp;
        let ror = ResponseObjectOrReferenceObject::ResponseObject(Box::new(resp));
        proof {
            let rv = rsv[i as int];
            let lhs = crate::model::m_one("description"@, JsonV::Str(respg.description@))
                + crate::model::m_opt("headers"@, crate::model::opt_obj(respg.headers.deep_view()))
                + crate::model::m_opt("content"@, crate::model::opt_obj(respg.content.deep_view()))
                + crate::model::m_opt("links"@, crate::model::opt_obj(respg.links.deep_view()));
            assert(ror.deep_view() == JsonV::Obj(lhs));
            assert(respg.content->0.deep_view() =~= seq![
                (
                    "application/json"@,
                    JsonV::Obj(seq![("schema"@, schema_for_title(rv.1.1, rv.1.2))]),
                ),
            ]);
            assert(lhs =~~= seq![
                ("description"@, JsonV::Str(rv.1.0)),
                (
                    "content"@,
                    JsonV::Obj(
                        seq![
                            (
                                "application/json"@,
                                JsonV::Obj(seq![("schema"@, schema_for_title(rv.1.1, rv.1.2))]),
                            ),
                        ],
                    ),
                ),
            ]);
            assert(ror.deep_view() == response_json(rv.1.0, rv.1.1, rv.1.2));
        }
        let mut j: usize = 0;
        while j < out.len() && out[j].0 != code
            invariant
                0 <= j <= out@.len(),
                forall|t: int| 0 <= t < j ==> out@[t].0 != code,
            decreases out@.len() - j,
        {
            j = j + 1;
        }
        let ghost pre = out.deep_view();
        let ghost prevec = out@;
        let ghost rj = response_json(rsv[i as int].1.0, rsv[i as int].1.1, rsv[i as int].1.2);
        if j < out.len() {
            let _ = out.remove(j);
            out.insert(j, (code, ror));
            proof {
                assert(out@ =~= prevec.update(j as int, (code, ror)));
                assert(exists|t: int| 0 <= t < pre.len() && pre[t].0 == code) by {
                    assert(pre[j as int].0 == code);
                }
                assert forall|t: int| 0 <= t < pre.len() implies out.deep_view()[t] == upsert_code(
                    pre,
                    code,
                    rj,
                )[t] by {
                    if t != j {
                        assert(out@[t] == prevec[t]);
                        assert(pre[t].0 != code);
                    }
                }
                assert(out.deep_view() =~= upsert_code(pre, code, rj));
            }
        } else {
            out.push((code, ror));
            proof {
                assert(!exists|t: int| 0 <= t < pre.len() && pre[t].0 == code) by {
                    if exists|t: int| 0 <= t < pre.len() && pre[t].0 == code {
                        let t = choose|t: int| 0 <= t < pre.len() && pre[t].0 == code;
                        assert(prevec[t].0 == code);
                    }
                }
                assert(out.deep_view() =~= upsert_code(pre, code, rj));
            }
        }
        proof {
            assert(rsv.take(i + 1).drop_last() =~= rsv.take(i as int));
            assert(rsv.take(i + 1).last() == rsv[i as int]);
            assert(out.deep_view() =~= responses_entries(rsv.take(i + 1)));
        }
        i = i + 1;
    }
    proof {
        assert(rsv.take(rsv.len() as int) =~= rsv);
    }
    out
}

/// The request body entry of one registration, content forced to
/// `application/json` and `required` set.
fn build_request_body(rb: Option<(&str, RequestBodyObject)>) -> (r: Option<
    RequestBodyObjectOrReferenceObject,
>)
    ensures
        rb_matches(
            r,
            match rb {
                Some(p) => Some((p.0@, p.1.description)),
                None => None,
            },
        ),
{
    match rb {
        Some((title, mut rq)) => {
            let schema = if s_eq(title, "String") {
                string_schema_exec()
            } else {
                ref_schema_exec(title)
            };
            proof {
                assert(schema.deep_view() == rb_schema(title@));
            }
            let content = json_content(schema);
            let ghost desc = rq.description;
            rq.content = content;
            rq.required = Some(true);
            let ghost rqg = rq;
            let b = Box::new(rq);
            proof {
                let lhs = crate::model::m_opt(
                    "description"@,
                    crate::model::opt_str(rqg.description),
                ) + crate::model::m_one("content"@, JsonV::Obj(rqg.content.deep_view()))
                    + crate::model::m_opt("required"@, crate::model::opt_bool(rqg.required));
                assert(b.deep_view() == JsonV::Obj(lhs));
                assert(rqg.content.deep_view() =~= seq![
                    ("application/json"@, JsonV::Obj(seq![("schema"@, rb_schema(title@))])),
                ]);
                assert(lhs =~~= crate::model::m_opt("description"@, crate::model::opt_str(desc))
                    + seq![
                    (
                        "content"@,
                        JsonV::Obj(
                            seq![
                                (
                                    "application/json"@,
                                    JsonV::Obj(seq![("schema"@, rb_schema(title@))]),
                                ),
                            ],
                        ),
                    ),
                    ("required"@, JsonV::Bool(true)),
                ]);
                assert(b.deep_view() == request_body_json(title@, desc));
            }
            Some(RequestBodyObjectOrReferenceObject::RequestBodyObject(b))
        },
        None => None,
    }
}

fn str_ne(a: &String, b: &String) -> (r: bool)
    ensures
        r == (a@ != b@),
{
    !(*a == *b)
}

proof fn lemma_lookup_at(ms: Seq<(Seq<char>, JsonV)>, k: Seq<char>, i: int)
    requires
        0 <= i <= ms.len(),
        forall|t: int| 0 <= t < i ==> ms[t].0 != k,
    ensures
        i == ms.len() ==> lookup(ms, k) is None,
        i < ms.len() && ms[i].0 == k ==> lookup(ms, k) == Some(ms[i].1),
    decreases ms.len(),
{
    if ms.len() > 0 {
        let rest = ms.subrange(1, ms.len() as int);
        if ms[0].0 == k {
        } else {
            assert forall|t: int| 0 <= t < i - 1 implies rest[t].0 != k by {
                assert(rest[t] == ms[t + 1]);
            }
            if i >= 1 {
                if i < ms.len() {
                    assert(rest[i - 1] == ms[i as int]);
                }
                lemma_lookup_at(rest, k, i - 1);
            }
        }
    }
}

proof fn lemma_path_index_at(ps: Seq<(String, PathItemObject)>, p: Seq<char>, i: int)
    requires
        0 <= i <= ps.len(),
        forall|t: int| 0 <= t < i ==> ps[t].0@ != p,
        i == ps.len() || ps[i].0@ == p,
    ensures
        i == ps.len() ==> path_index(ps, p) == -1,
        i < ps.len() ==> path_index(ps, p) == i,
    decreases ps.len(),
{
    if ps.len() > 0 {
        let rest = ps.subrange(1, ps.len() as int);
        if ps[0].0@ == p {
        } else {
            assert forall|t: int| 0 <= t < i - 1 implies rest[t].0@ != p by {
                assert(rest[t] == ps[t + 1]);
            }
            if i < ps.len() {
                assert(rest[i - 1] == ps[i as int]);
            }
            lemma_path_index_at(rest, p, i - 1);
        }
    }
}

/// The `title` member of a raw schema, when it is a string.
#[verifier::loop_isolation(false)]
fn schema_title(j: &Json) -> (r: Option<String>)
    ensures
        match r {
            Some(s) => title_of(j.deep_view()) == Some(s@),
            None => title_of(j.deep_view()) is None,
        },
{
    broadcast use crate::json::lemma_obj_view;

    match j {
        Json::Obj(m) => {
            let ghost ms = crate::json::obj_view(m@);
            let mut i: usize = 0;
            while i < m.len() && str_ne(&m[i].0, &"title".to_owned())
                invariant
                    0 <= i <= m@.len(),
                    forall|t: int| 0 <= t < i ==> (#[trigger] m@[t]).0@ != "title"@,
                decreases m@.len() - i,
            {
                i = i + 1;
            }
            proof {
                assert forall|t: int| 0 <= t < i implies (#[trigger] ms[t]).0 != "title"@ by {
                    assert(ms[t] == (m@[t].0@, m@[t].1.deep_view()));
                }
                lemma_lookup_at(ms, "title"@, i as int);
            }
            if i < m.len() {
                match &m[i].1 {
                    Json::Str(s) => Some(s.clone()),
                    _ => None,
                }
            } else {
                None
            }
        },
        _ => None,
    }
}

/// Stores `v` under key `k`, replacing an earlier entry for `k`.
#[verifier::loop_isolation(false)]
fn upsert_entry(reg: &mut Vec<(String, Json)>, k: String, v: Json)
    requires
        forall|a: int, b: int|
            0 <= a < b < old(reg)@.len() ==> (#[trigger] old(reg)@[a]).0@ != (#[trigger] old(reg)@[b]).0@,
    ensures
        final(reg).deep_view() == upsert_key(old(reg).deep_view(), k@, v.deep_view()),
        forall|a: int, b: int|
            0 <= a < b < final(reg)@.len() ==> (#[trigger] final(reg)@[a]).0@ != (#[trigger] final(reg)@[b]).0@,
{
    let ghost pre = reg.deep_view();
    let ghost prevec = reg@;
    let mut j: usize = 0;
    while j < reg.len() && str_ne(&reg[j].0, &k)
        invariant
            0 <= j <= reg@.len(),
            reg@ == prevec,
            forall|t: int| 0 <= t < j ==> (#[trigger] prevec[t]).0@ != k@,
        decreases reg@.len() - j,
    {
        j = j + 1;
    }
    if j < reg.len() {
        let _ = reg.remove(j);
        reg.insert(j, (k, v));
        proof {
            assert(reg@ =~= prevec.update(j as int, (prevec[j as int].0, v)).update(
                j as int,
                reg@[j as int],
            ));
            assert(exists|t: int| 0 <= t < pre.len() && (#[trigger] pre[t]).0 == k@) by {
                assert(pre[j as int].0 == k@);
            }
            assert forall|t: int| 0 <= t < pre.len() implies reg.deep_view()[t] == upsert_key(
                pre,
                k@,
                v.deep_view(),
            )[t] by {
                if t != j {
                    assert(reg@[t] == prevec[t]);
                    assert(pre[t].0 != k@);
                }
            }
            assert(reg.deep_view() =~= upsert_key(pre, k@, v.deep_view()));
        }
    } else {
        reg.push((k, v));
        proof {
            assert(!exists|t: int| 0 <= t < pre.len() && (#[trigger] pre[t]).0 == k@) by {
                if exists|t: int| 0 <= t < pre.len() && (#[trigger] pre[t]).0 == k@ {
                    let t = choose|t: int| 0 <= t < pre.len() && (#[trigger] pre[t]).0 == k@;
                    assert(prevec[t].0@ == k@);
                }
            }
            assert(reg.deep_view() =~= upsert_key(pre, k@, v.deep_view()));
        }
    }
}

/// Builds the schema registry: each raw schema normalized and stored under
/// its title, later titles overwriting earlier ones.
#[verifier::loop_isolation(false)]
fn build_registry(ss: &Vec<Json>) -> (r: Vec<(String, Json)>)
    ensures
        r.deep_view() == registry_of(ss.deep_view()),
{
    let ghost ssv = ss.deep_view();
    let mut reg: Vec<(String, Json)> = Vec::new();
    let mut i: usize = 0;
    while i < ss.len()
        invariant
            0 <= i <= ss@.len(),
            ssv.len() == ss@.len(),
            reg.deep_view() == registry_of(ssv.take(i as int)),
            forall|a: int, b: int|
                0 <= a < b < reg@.len() ==> (#[trigger] reg@[a]).0@ != (#[trigger] reg@[b]).0@,
        decreases ss@.len() - i,
    {
        let title = schema_title(&ss[i]);
        match title {
            Some(t) => {
                let nv = normalize(&ss[i]);
                upsert_entry(&mut reg, t, nv);
            },
            None => {},
        }
        proof {
            assert(ssv.take(i + 1).drop_last() =~= ssv.take(i as int));
            assert(ssv.take(i + 1).last() == ssv[i as int]);
            assert(reg.deep_view() == registry_of(ssv.take(i + 1)));
        }
        i = i + 1;
    }
    proof {
        assert(ssv.take(ssv.len() as int) =~= ssv);
    }
    reg
}

impl SwaggerObject {
    /// Builds an empty document: the given info and servers, an empty path
    /// map, the schema registry built from `schemas`, and the `bearerAuth`
    /// security scheme.
    pub fn new(
        title: &str,
        version: &str,
        servers: Vec<String>,
        description: &str,
        schemas: Option<Vec<Json>>,
    ) -> (r: SwaggerObject)
        ensures
            r.openapi == SwaggerVersion::V300,
            r.info.title@ == title@,
            r.info.version@ == version@,
            r.info.description matches Some(d) && d@ == description@,
            r.info.terms_of_service is None,
            r.info.contact is None,
            r.info.license is None,
            r.servers matches Some(sv) && sv@.len() == servers@.len() && (forall|i: int|
                0 <= i < servers@.len() ==> (#[trigger] sv@[i]).url@ == servers@[i]@
                    && sv@[i].description is None && sv@[i].variables is None),
            r.paths@.len() == 0,
            r.components.schemas matches Some(reg) && reg.deep_view() == registry_of(
                match schemas {
                    Some(ss) => ss.deep_view(),
                    None => Seq::empty(),
                },
            ),
            r.components.security_schemes matches Some(au) && au@.len() == 1 && au@[0].0@
                == "bearerAuth"@ && (au@[0].1 matches
            SecuritySchemeObjectOrReferenceObject::SecuritySchemeObject(b) && b.scheme_type@
                == "http"@ && b.scheme@ == "bearer"@ && (b.description matches Some(d) && d@
                == "Bearer Authentication See RFC 6750"@) && (b.bearer_format matches Some(f) && f@
                == "JWT"@) && b.name is None && b.in_location is None && b.flows is None
                && b.open_id_connect_url is None),
            r.components.responses is None,
            r.components.parameters is None,
            r.components.examples is None,
            r.components.request_bodies is None,
            r.components.headers is None,
            r.components.links is None,
            r.components.callbacks is None,
            r.security is None,
            r.tags is None,
            r.external_docs is None,
    {
        let reg: Vec<(String, Json)> = match &schemas {
            Some(ss) => build_registry(ss),
            None => Vec::new(),
        };
        proof {
            if schemas is None {
                assert(reg.deep_view() =~= registry_of(Seq::empty()));
            }
        }
        let mut new_servers: Vec<ServerObject> = Vec::new();
        let mut i: usize = 0;
        while i < servers.len()
            invariant
                0 <= i <= servers@.len(),
                new_servers@.len() == i,
                forall|t: int|
                    0 <= t < i ==> (#[trigger] new_servers@[t]).url@ == servers@[t]@
                        && new_servers@[t].description is None && new_servers@[t].variables
                        is None,
            decreases servers@.len() - i,
        {
            new_servers.push(
                ServerObject { url: servers[i].clone(), description: None, variables: None },
            );
            i = i + 1;
        }
        let mut auth: Vec<(String, SecuritySchemeObjectOrReferenceObject)> = Vec::new();
        auth.push(
            (
                "bearerAuth".to_owned(),
                SecuritySchemeObjectOrReferenceObject::SecuritySchemeObject(
                    Box::new(
                        SecuritySchemeObject {
                            scheme_type: "http".to_owned(),
                            description: Some("Bearer Authentication See RFC 6750".to_owned()),
                            name: None,
                            in_location: None,
                            scheme: "bearer".to_owned(),
                            bearer_format: Some("JWT".to_owned()),
                            flows: None,
                            open_id_connect_url: None,
                        },
                    ),
                ),
            ),
        );
        SwaggerObject {
            openapi: SwaggerVersion::V300,
            info: InfoObject {
                title: title.to_owned(),
                description: Some(description.to_owned()),
                terms_of_service: None,
                contact: None,
                license: None,
                version: version.to_owned(),
            },
            servers: Some(new_servers),
            paths: Vec::new(),
            components: ComponentsObject {
                schemas: Some(reg),
                responses: None,
                parameters: None,
                examples: None,
                request_bodies: None,
                headers: None,
                security_schemes: Some(auth),
                links: None,
                callbacks: None,
            },
            security: None,
            tags: None,
            external_docs: None,
        }
    }

    /// Registers one route: merges an operation for `method` into the path
    /// item of `path`, inferring path parameters and consolidating the
    /// responses by status code. An unsupported method is rejected and the
    /// document left untouched. The explicit `parameters` argument is
    /// reserved for query parameters and not used by the inference.
    #[verifier::loop_isolation(false)]
    pub fn add_route(
        &mut self,
        secure: bool,
        tag: &str,
        method: &str,
        path: String,
        parameters: Option<Vec<ParameterObjectOrReferenceObject>>,
        request_body: Option<(&str, RequestBodyObject)>,
        responses: Vec<(HttpStatusCode, (&str, &str, Json))>,
    ) -> (r: Result<(), UnsupportedMethodError>)
        requires
            path@.len() < usize::MAX,
        ensures
            r is Ok <==> is_supported_method(method@),
            r is Err ==> *final(self) == *old(self),
            r is Ok ==> {
                &&& final(self).openapi == old(self).openapi
                &&& final(self).info == old(self).info
                &&& final(self).servers == old(self).servers
                &&& final(self).components == old(self).components
                &&& final(self).security == old(self).security
                &&& final(self).tags == old(self).tags
                &&& final(self).external_docs == old(self).external_docs
                &&& route_added(
                    old(self).paths@,
                    final(self).paths@,
                    method@,
                    path@,
                    secure,
                    tag@,
                    match request_body {
                        Some(p) => Some((p.0@, p.1.description)),
                        None => None,
                    },
                    responses.deep_view(),
                )
            },
    {
        proof {
            reveal_strlit("GET");
            reveal_strlit("POST");
            reveal_strlit("PUT");
            reveal_strlit("PATCH");
            reveal_strlit("DELETE");
            assert("GET"@.len() == 3 && "POST"@.len() == 4 && "PUT"@.len() == 3 && "PATCH"@.len()
                == 5 && "DELETE"@.len() == 6);
            assert("GET"@[0] == 'G' && "PUT"@[0] == 'P');
            assert("GET"@ != "POST"@ && "GET"@ != "PUT"@ && "GET"@ != "PATCH"@ && "GET"@
                != "DELETE"@);
            assert("POST"@ != "PUT"@ && "POST"@ != "PATCH"@ && "POST"@ != "DELETE"@);
            assert("PUT"@ != "PATCH"@ && "PUT"@ != "DELETE"@);
            assert("PATCH"@ != "DELETE"@);
        }
        let is_get = s_eq(method, "GET");
        let is_post = s_eq(method, "POST");
        let is_put = s_eq(method, "PUT");
        let is_patch = s_eq(method, "PATCH");
        let is_delete = s_eq(method, "DELETE");
        if !(is_get || is_post || is_put || is_patch || is_delete) {
            return Err(UnsupportedMethodError {});
        }
        let ghost rbv: Option<(Seq<char>, Option<String>)> = match &request_body {
            Some(p) => Some((p.0@, p.1.description)),
            None => None,
        };
        let params = path_parameters(path.as_str());
        let resp_map = build_responses(&responses);
        let rb = build_request_body(request_body);
        let mut tag_list: Vec<String> = Vec::new();
        tag_list.push(tag.to_owned());
        let security: Option<Vec<crate::model::SecurityRequirementObject>> = if secure {
            let mut inner: Vec<(String, Json)> = Vec::new();
            inner.push(("bearerAuth".to_owned(), Json::Arr(Vec::new())));
            let mut outer: Vec<crate::model::SecurityRequirementObject> = Vec::new();
            outer.push(inner);
            proof {
                assert(outer.deep_view() =~~= seq![
                    seq![("bearerAuth"@, JsonV::Arr(Seq::<JsonV>::empty()))],
                ]);
            }
            Some(outer)
        } else {
            None
        };
        let op = OperationObject {
            tags: Some(tag_list),
            summary: None,
            description: None,
            external_docs: None,
            operation_id: None,
            parameters: params,
            request_body: rb,
            responses: ResponsesObject {
                default: None,
                responses_per_http_status_codes: Some(resp_map),
            },
            callbacks: None,
            deprecated: None,
            security,
            servers: None,
        };
        proof {
            assert(op.tags->0.deep_view() =~= seq![tag@]);
            assert(is_route_operation(op, secure, tag@, path@, rbv, responses.deep_view()));
        }
        let ghost ps0 = self.paths@;
        let mut idx: usize = 0;
        while idx < self.paths.len() && str_ne(&self.paths[idx].0, &path)
            invariant
                0 <= idx <= self.paths@.len(),
                self.paths@ == ps0,
                forall|t: int| 0 <= t < idx ==> (#[trigger] ps0[t]).0@ != path@,
            decreases self.paths@.len() - idx,
        {
            idx = idx + 1;
        }
        proof {
            lemma_path_index_at(ps0, path@, idx as int);
        }
        if idx == self.paths.len() {
            let mut item = PathItemObject {
                ref_path: None,
                summary: None,
                description: None,
                get: None,
                put: None,
                post: None,
                delete: None,
                options: None,
                head: None,
                patch: None,
                trace: None,
                servers: None,
                parameters: None,
            };
            if is_get {
                item.get = Some(op);
            } else if is_post {
                item.post = Some(op);
            } else if is_put {
                item.put = Some(op);
            } else if is_patch {
                item.patch = Some(op);
            } else {
                item.delete = Some(op);
            }
            self.paths.push((path, item));
            proof {
                assert(self.paths@.subrange(0, ps0.len() as int) =~= ps0);
                assert(fresh_item_ok(
                    self.paths@.last().1,
                    method@,
                    secure,
                    tag@,
                    path@,
                    rbv,
                    responses.deep_view(),
                ));
            }
        } else {
            let entry = self.paths.remove(idx);
            let key = entry.0;
            let mut item = entry.1;
            if is_get {
                item.get = Some(op);
            } else if is_post {
                item.post = Some(op);
            } else if is_put {
                item.put = Some(op);
            } else if is_patch {
                item.patch = Some(op);
            } else {
                item.delete = Some(op);
            }
            self.paths.insert(idx, (key, item));
            proof {
                assert forall|t: int| 0 <= t < ps0.len() && t != idx implies self.paths@[t] == ps0[t]
                    by {}
                assert(self.paths@[idx as int].0 == ps0[idx as int].0);
                assert(updated_item_ok(
                    ps0[idx as int].1,
                    self.paths@[idx as int].1,
                    method@,
                    secure,
                    tag@,
                    path@,
                    rbv,
                    responses.deep_view(),
                ));
            }
        }
        Ok(())
    }

    /// The JSON text of this document.
    pub fn to_json_string(&self) -> (r: String)
        ensures
            r@ == crate::text::json_text(self.deep_view()),
    {
        self.to_json().to_text()
    }
}

// --- stated laws ------------------------------------------------------------

/// The names of the `{name}` segments, trimmed, in path order.
pub open spec fn braced_names(segs: Seq<Seq<char>>) -> Seq<Seq<char>>
    decreases segs.len(),
{
    if segs.len() == 0 {
        Seq::empty()
    } else {
        (if has_brace(segs[0]) {
            seq![trim_marks(segs[0])]
        } else {
            Seq::empty()
        }) + braced_names(segs.subrange(1, segs.len() as int))
    }
}

/// Path-parameter inference yields exactly one descriptor per `{name}`
/// segment, in left-to-right order, each carrying that segment's trimmed
/// name.
pub proof fn lemma_path_parameter_inference(segs: Seq<Seq<char>>)
    ensures
        params_of(segs).len() == braced_names(segs).len(),
        forall|i: int|
            0 <= i < params_of(segs).len() ==> params_of(segs)[i] == param_json(
                #[trigger] braced_names(segs)[i],
            ),
    decreases segs.len(),
{
    if segs.len() > 0 {
        let rest = segs.subrange(1, segs.len() as int);
        lemma_path_parameter_inference(rest);
        assert forall|i: int| 0 <= i < params_of(segs).len() implies params_of(segs)[i]
            == param_json(#[trigger] braced_names(segs)[i]) by {
            if has_brace(segs[0]) {
                if i > 0 {
                    assert(params_of(segs)[i] == params_of(rest)[i - 1]);
                    assert(braced_names(segs)[i] == braced_names(rest)[i - 1]);
                }
            } else {
                assert(params_of(segs)[i] == params_of(rest)[i]);
                assert(braced_names(segs)[i] == braced_names(rest)[i]);
            }
        }
    }
}

/// Each inferred descriptor is a path parameter: located in the path,
/// required, with a plain string schema and the derived description.
pub proof fn lemma_parameter_descriptor(name: Seq<char>)
    ensures
        param_json(name) == JsonV::Obj(
            seq![
                ("name"@, JsonV::Str(name)),
                ("in"@, JsonV::Str("path"@)),
                ("description"@, JsonV::Str("use "@ + name + " parameter"@)),
                ("required"@, JsonV::Bool(true)),
                ("schema"@, JsonV::Obj(seq![("type"@, JsonV::Str("string"@))])),
            ],
        ),
{
    assert(param_json(name) =~~= JsonV::Obj(
        seq![
            ("name"@, JsonV::Str(name)),
            ("in"@, JsonV::Str("path"@)),
            ("description"@, JsonV::Str("use "@ + name + " parameter"@)),
            ("required"@, JsonV::Bool(true)),
            ("schema"@, JsonV::Obj(seq![("type"@, JsonV::Str("string"@))])),
        ],
    ));
}

/// A body of a non-`String` type is emitted as a registry reference and one
/// of the literal `String` type inline.
pub proof fn lemma_schema_reference(title: Seq<char>, raw: JsonV)
    ensures
        title == "String"@ ==> schema_for_title(title, raw) == raw,
        title != "String"@ ==> schema_for_title(title, raw) == JsonV::Obj(
            seq![("$ref"@, JsonV::Str(schemas_prefix() + title))],
        ),
        title == "String"@ ==> rb_schema(title) == string_schema(),
        title != "String"@ ==> rb_schema(title) == JsonV::Obj(
            seq![("$ref"@, JsonV::Str(schemas_prefix() + title))],
        ),
{
}

/// Registering the same path and method twice leaves exactly the second
/// operation in that slot, everything else as before both calls.
pub proof fn lemma_reregister_overwrites(
    a: PathItemObject,
    b: PathItemObject,
    c: PathItemObject,
    m: Seq<char>,
    secure1: bool,
    tag1: Seq<char>,
    path1: Seq<char>,
    rb1: Option<(Seq<char>, Option<String>)>,
    resp1: Seq<(u16, (Seq<char>, Seq<char>, JsonV))>,
    secure2: bool,
    tag2: Seq<char>,
    path2: Seq<char>,
    rb2: Option<(Seq<char>, Option<String>)>,
    resp2: Seq<(u16, (Seq<char>, Seq<char>, JsonV))>,
)
    requires
        updated_item_ok(a, b, m, secure1, tag1, path1, rb1, resp1),
        updated_item_ok(b, c, m, secure2, tag2, path2, rb2, resp2),
    ensures
        method_op(c, m) matches Some(op) && is_route_operation(
            op,
            secure2,
            tag2,
            path2,
            rb2,
            resp2,
        ),
        non_method_preserved(a, c),
        others_preserved(a, c, m),
{
}

/// Registering two methods on one path keeps both operations and leaves the
/// other method slots as they were.
pub proof fn lemma_methods_accumulate(
    a: PathItemObject,
    b: PathItemObject,
    c: PathItemObject,
    secure1: bool,
    tag1: Seq<char>,
    path1: Seq<char>,
    rb1: Option<(Seq<char>, Option<String>)>,
    resp1: Seq<(u16, (Seq<char>, Seq<char>, JsonV))>,
    secure2: bool,
    tag2: Seq<char>,
    path2: Seq<char>,
    rb2: Option<(Seq<char>, Option<String>)>,
    resp2: Seq<(u16, (Seq<char>, Seq<char>, JsonV))>,
)
    requires
        updated_item_ok(a, b, "GET"@, secure1, tag1, path1, rb1, resp1),
        updated_item_ok(b, c, "POST"@, secure2, tag2, path2, rb2, resp2),
    ensures
        c.get matches Some(op) && is_route_operation(op, secure1, tag1, path1, rb1, resp1),
        c.post matches Some(op) && is_route_operation(op, secure2, tag2, path2, rb2, resp2),
        c.put == a.put,
        c.patch == a.patch,
        c.delete == a.delete,
{
    reveal_strlit("GET");
    reveal_strlit("POST");
    reveal_strlit("PUT");
    reveal_strlit("PATCH");
    reveal_strlit("DELETE");
    assert("GET"@.len() == 3 && "POST"@.len() == 4 && "PUT"@.len() == 3 && "PATCH"@.len() == 5
        && "DELETE"@.len() == 6);
    assert("GET"@[0] == 'G' && "PUT"@[0] == 'P');
    assert("POST"@ != "GET"@ && "POST"@ != "PUT"@ && "POST"@ != "PATCH"@ && "POST"@
        != "DELETE"@);
    assert("GET"@ != "PUT"@ && "GET"@ != "PATCH"@ && "GET"@ != "DELETE"@);
}

/// A secure route carries exactly the `bearerAuth` requirement; an insecure
/// one carries none.
pub proof fn lemma_security_flag(
    op: OperationObject,
    secure: bool,
    tag: Seq<char>,
    path: Seq<char>,
    rb: Option<(Seq<char>, Option<String>)>,
    resp: Seq<(u16, (Seq<char>, Seq<char>, JsonV))>,
)
    requires
        is_route_operation(op, secure, tag, path, rb, resp),
    ensures
        secure ==> (op.security matches Some(v) && v.deep_view() == seq![
            seq![("bearerAuth"@, JsonV::Arr(Seq::<JsonV>::empty()))],
        ]),
        !secure ==> op.security is None,
{
}

/// Whether the consolidated map holds an entry for status code `c`.
pub open spec fn has_code(m: Seq<(u16, JsonV)>, c: u16) -> bool {
    exists|k: int| 0 <= k < m.len() && m[k].0 == c
}

proof fn lemma_upsert_code_shape(m: Seq<(u16, JsonV)>, c: u16, v: JsonV)
    ensures
        has_code(upsert_code(m, c, v), c),
        forall|t: int| 0 <= t < m.len() ==> has_code(upsert_code(m, c, v), (#[trigger] m[t]).0),
        forall|k: int|
            0 <= k < upsert_code(m, c, v).len() ==> (#[trigger] upsert_code(m, c, v)[k]) == (c, v)
                || (exists|t: int| 0 <= t < m.len() && upsert_code(m, c, v)[k] == #[trigger] m[t]),
{
    let u = upsert_code(m, c, v);
    if exists|i: int| 0 <= i < m.len() && m[i].0 == c {
        let i = choose|i: int| 0 <= i < m.len() && m[i].0 == c;
        assert(u[i].0 == c);
        assert forall|t: int| 0 <= t < m.len() implies has_code(u, (#[trigger] m[t]).0) by {
            if m[t].0 == c {
                assert(u[i].0 == m[t].0);
            } else {
                assert(u[t] == m[t]);
            }
        }
    } else {
        assert(u[m.len() as int].0 == c);
        assert forall|t: int| 0 <= t < m.len() implies has_code(u, (#[trigger] m[t]).0) by {
            assert(u[t] == m[t]);
        }
    }
}

/// Every registered response leaves an entry under its status code, and
/// every entry of the consolidated map is the response of one registration,
/// a JSON object carrying the description and the
/// `content`/`application/json`/`schema` chain of [`response_json`].
pub proof fn lemma_registered_responses_present(rs: Seq<(u16, (Seq<char>, Seq<char>, JsonV))>)
    ensures
        forall|j: int|
            0 <= j < rs.len() ==> has_code(responses_entries(rs), (#[trigger] rs[j]).0),
        forall|k: int|
            0 <= k < responses_entries(rs).len() ==> exists|j: int|
                0 <= j < rs.len() && (#[trigger] responses_entries(rs)[k]) == (
                rs[j].0,
                response_json(rs[j].1.0, rs[j].1.1, rs[j].1.2),
                ),
    decreases rs.len(),
{
    if rs.len() > 0 {
        let prev = rs.drop_last();
        let c = rs.last().0;
        let v = response_json(rs.last().1.0, rs.last().1.1, rs.last().1.2);
        lemma_registered_responses_present(prev);
        lemma_upsert_code_shape(responses_entries(prev), c, v);
        assert forall|j: int| 0 <= j < rs.len() implies has_code(
            responses_entries(rs),
            (#[trigger] rs[j]).0,
        ) by {
            if j < rs.len() - 1 {
                assert(prev[j] == rs[j]);
                assert(has_code(responses_entries(prev), rs[j].0));
                let k = choose|k: int|
                    0 <= k < responses_entries(prev).len() && responses_entries(prev)[k].0
                        == rs[j].0;
                assert(has_code(responses_entries(rs), responses_entries(prev)[k].0));
            }
        }
        assert forall|k: int| 0 <= k < responses_entries(rs).len() implies exists|j: int|
            0 <= j < rs.len() && (#[trigger] responses_entries(rs)[k]) == (
            rs[j].0,
            response_json(rs[j].1.0, rs[j].1.1, rs[j].1.2),
            ) by {
            if responses_entries(rs)[k] == (c, v) {
                assert(rs[rs.len() - 1] == rs.last());
            } else {
                let t = choose|t: int|
                    0 <= t < responses_entries(prev).len() && responses_entries(rs)[k]
                        == #[trigger] responses_entries(prev)[t];
                let j = choose|j: int|
                    0 <= j < prev.len() && (#[trigger] responses_entries(prev)[t]) == (
                    prev[j].0,
                    response_json(prev[j].1.0, prev[j].1.1, prev[j].1.2),
                    );
                assert(prev[j] == rs[j]);
            }
        }
    }
}

} // verus!
