//! The schema normalizer.
//!
//! A raw schema description, as an introspector produces it, is rewritten
//! into an OpenAPI-3.0-safe fragment by structural transformation of the
//! JSON tree:
//!
//! 1. every `$ref` string is re-based from `#/definitions/` to
//!    `#/components/schemas/`;
//! 2. a `type` array with trailing `"null"` entries, and an `anyOf` array
//!    with trailing `{"type":"null"}` entries, lose those entries and the
//!    surrounding object gains `"nullable": true` (OpenAPI 3.0 has no null
//!    union type);
//! 3. a `type` array left with a single primitive name collapses to the
//!    bare name;
//! 4. a reference to one of the well-known network-address types is
//!    replaced by a plain string schema.
//!
//! The transformation is idempotent: see [`lemma_normalize_idempotent`].

use vstd::prelude::*;

use crate::json::arr_view;
use crate::json::lemma_arr_view;
use crate::json::lemma_obj_view;
use crate::json::obj_view;
use crate::json::str_is;
use crate::json::Json;
use crate::json::JsonV;

verus! {

broadcast use vstd::std_specs::vec::axiom_vec_index_decreases;

/// The reference base used by the schema introspector.
pub open spec fn def_prefix() -> Seq<char> {
    "#/definitions/"@
}

/// The reference base used by the component schema registry.
pub open spec fn schemas_prefix() -> Seq<char> {
    "#/components/schemas/"@
}

/// Re-bases one reference string.
pub open spec fn rewrite_ref_text(s: Seq<char>) -> Seq<char> {
    if def_prefix().is_prefix_of(s) {
        schemas_prefix() + s.skip(def_prefix().len() as int)
    } else {
        s
    }
}

/// Re-bases a `$ref` member value; anything but a string is untouched.
pub open spec fn ref_rule(v: JsonV) -> JsonV {
    match v {
        JsonV::Str(s) => JsonV::Str(rewrite_ref_text(s)),
        _ => v,
    }
}

/// The JSON string `"null"`.
pub open spec fn is_null_str(v: JsonV) -> bool {
    v == JsonV::Str("null"@)
}

/// The JSON object `{"type":"null"}`.
pub open spec fn is_null_type_obj(v: JsonV) -> bool {
    v == JsonV::Obj(seq![("type"@, JsonV::Str("null"@))])
}

/// Drops trailing `"null"` entries from a type union, keeping at least one
/// entry.
pub open spec fn strip_null_strs(es: Seq<JsonV>) -> Seq<JsonV>
    decreases es.len(),
{
    if es.len() >= 2 && is_null_str(es.last()) {
        strip_null_strs(es.drop_last())
    } else {
        es
    }
}

/// Drops trailing `{"type":"null"}` entries from an `anyOf` list, keeping
/// at least one entry.
pub open spec fn strip_null_objs(es: Seq<JsonV>) -> Seq<JsonV>
    decreases es.len(),
{
    if es.len() >= 2 && is_null_type_obj(es.last()) {
        strip_null_objs(es.drop_last())
    } else {
        es
    }
}

/// One of the primitive and structural type names a singleton type array
/// collapses for.
pub open spec fn prim_name(s: Seq<char>) -> bool {
    ||| s == "array"@
    ||| s == "object"@
    ||| s == "string"@
    ||| s == "boolean"@
    ||| s == "integer"@
    ||| s == "number"@
}

/// Collapses a one-element type array of a primitive name to the bare name.
pub open spec fn collapse_singleton(v: JsonV) -> JsonV {
    match v {
        JsonV::Arr(es) => {
            if es.len() == 1 && (es[0] matches JsonV::Str(s) && prim_name(s)) {
                es[0]
            } else {
                v
            }
        },
        _ => v,
    }
}

/// What happens to the value of a `type` member; the flag says whether a
/// null entry was dropped.
pub open spec fn type_rule(v: JsonV) -> (JsonV, bool) {
    match v {
        JsonV::Arr(es) => {
            let stripped = strip_null_strs(es);
            (collapse_singleton(JsonV::Arr(stripped)), stripped.len() != es.len())
        },
        _ => (v, false),
    }
}

/// What happens to the value of an `anyOf` member.
pub open spec fn anyof_rule(v: JsonV) -> (JsonV, bool) {
    match v {
        JsonV::Arr(es) => {
            let stripped = strip_null_objs(es);
            (JsonV::Arr(stripped), stripped.len() != es.len())
        },
        _ => (v, false),
    }
}

/// The key-directed rewrite of one object member whose value is already
/// normalized.
pub open spec fn member_rule(k: Seq<char>, v: JsonV) -> (JsonV, bool) {
    if k == "$ref"@ {
        (ref_rule(v), false)
    } else if k == "type"@ {
        type_rule(v)
    } else if k == "anyOf"@ {
        anyof_rule(v)
    } else {
        (v, false)
    }
}

/// All members of an object, values normalized recursively and then passed
/// through the member rule.
pub open spec fn norm_members(ms: Seq<(Seq<char>, JsonV)>) -> Seq<(Seq<char>, JsonV)>
    decreases ms,
{
    if ms.len() == 0 {
        Seq::empty()
    } else {
        seq![(ms[0].0, member_rule(ms[0].0, norm(ms[0].1)).0)] + norm_members(
            ms.subrange(1, ms.len() as int),
        )
    }
}

/// Whether any member of an object dropped a null union entry.
pub open spec fn members_dropped(ms: Seq<(Seq<char>, JsonV)>) -> bool
    decreases ms,
{
    if ms.len() == 0 {
        false
    } else {
        member_rule(ms[0].0, norm(ms[0].1)).1 || members_dropped(ms.subrange(1, ms.len() as int))
    }
}

/// Whether some member carries the key `k`.
pub open spec fn has_key(ms: Seq<(Seq<char>, JsonV)>, k: Seq<char>) -> bool {
    exists|i: int| 0 <= i < ms.len() && ms[i].0 == k
}

/// Records `"nullable": true`, overwriting an existing `nullable` member or
/// appending one.
pub open spec fn set_nullable(ms: Seq<(Seq<char>, JsonV)>) -> Seq<(Seq<char>, JsonV)> {
    if has_key(ms, "nullable"@) {
        Seq::new(
            ms.len(),
            |i: int|
                if ms[i].0 == "nullable"@ {
                    (ms[i].0, JsonV::Bool(true))
                } else {
                    ms[i]
                },
        )
    } else {
        ms.push(("nullable"@, JsonV::Bool(true)))
    }
}

/// A reference to the IPv6 network-address type.
pub open spec fn ipv6_pattern() -> JsonV {
    JsonV::Obj(seq![("$ref"@, JsonV::Str("#/components/schemas/Ipv6Net"@))])
}

/// A reference to the generic network-address type.
pub open spec fn ipnet_pattern() -> JsonV {
    JsonV::Obj(seq![("$ref"@, JsonV::Str("#/components/schemas/IpNet"@))])
}

/// The plain string schema `{"type":"string"}`.
pub open spec fn string_schema() -> JsonV {
    JsonV::Obj(seq![("type"@, JsonV::Str("string"@))])
}

/// Replaces a whole-object reference to a network-address type by a plain
/// string schema.
pub open spec fn ip_fix(v: JsonV) -> JsonV {
    if v == ipv6_pattern() || v == ipnet_pattern() {
        string_schema()
    } else {
        v
    }
}

/// The normalized form of a JSON fragment.
pub open spec fn norm(j: JsonV) -> JsonV
    decreases j,
{
    match j {
        JsonV::Arr(es) => JsonV::Arr(norm_list(es)),
        JsonV::Obj(ms) => {
            let ms1 = norm_members(ms);
            let ms2 = if members_dropped(ms) {
                set_nullable(ms1)
            } else {
                ms1
            };
            ip_fix(JsonV::Obj(ms2))
        },
        _ => j,
    }
}

/// The element-wise normalized form of an array.
pub open spec fn norm_list(es: Seq<JsonV>) -> Seq<JsonV>
    decreases es,
{
    if es.len() == 0 {
        Seq::empty()
    } else {
        seq![norm(es[0])] + norm_list(es.subrange(1, es.len() as int))
    }
}

/// A member the member rule leaves alone.
pub open spec fn member_normal(k: Seq<char>, v: JsonV) -> bool {
    member_rule(k, v) == (v, false)
}

/// A fragment the normalizer leaves alone.
pub open spec fn is_normal(j: JsonV) -> bool
    decreases j,
{
    match j {
        JsonV::Arr(es) => list_normal(es),
        JsonV::Obj(ms) => {
            &&& members_normal(ms)
            &&& JsonV::Obj(ms) != ipv6_pattern()
            &&& JsonV::Obj(ms) != ipnet_pattern()
        },
        _ => true,
    }
}

/// Every element of the list is normal.
pub open spec fn list_normal(es: Seq<JsonV>) -> bool
    decreases es,
{
    if es.len() == 0 {
        true
    } else {
        is_normal(es[0]) && list_normal(es.subrange(1, es.len() as int))
    }
}

/// Every member value is normal and the member rule leaves it alone.
pub open spec fn members_normal(ms: Seq<(Seq<char>, JsonV)>) -> bool
    decreases ms,
{
    if ms.len() == 0 {
        true
    } else {
        is_normal(ms[0].1) && member_normal(ms[0].0, ms[0].1) && members_normal(
            ms.subrange(1, ms.len() as int),
        )
    }
}

proof fn lemma_norm_list(es: Seq<JsonV>)
    ensures
        norm_list(es).len() == es.len(),
        forall|i: int|
            #![trigger norm_list(es)[i]]
            #![trigger norm(es[i])]
            0 <= i < es.len() ==> norm_list(es)[i] == norm(es[i]),
    decreases es.len(),
{
    if es.len() > 0 {
        let rest = es.subrange(1, es.len() as int);
        lemma_norm_list(rest);
        assert forall|i: int|
            #![trigger norm_list(es)[i]]
            #![trigger norm(es[i])]
            0 <= i < es.len() implies norm_list(es)[i] == norm(es[i]) by {
            if i > 0 {
                assert(rest[i - 1] == es[i]);
            }
        }
    }
}

proof fn lemma_norm_members(ms: Seq<(Seq<char>, JsonV)>)
    ensures
        norm_members(ms).len() == ms.len(),
        forall|i: int|
            #![trigger norm_members(ms)[i]]
            #![trigger ms[i].1]
            0 <= i < ms.len() ==> norm_members(ms)[i] == (
                ms[i].0,
                member_rule(ms[i].0, norm(ms[i].1)).0,
            ),
    decreases ms.len(),
{
    if ms.len() > 0 {
        let rest = ms.subrange(1, ms.len() as int);
        lemma_norm_members(rest);
        assert forall|i: int|
            #![trigger norm_members(ms)[i]]
            #![trigger ms[i].1]
            0 <= i < ms.len() implies norm_members(ms)[i] == (
            ms[i].0,
            member_rule(ms[i].0, norm(ms[i].1)).0,
        ) by {
            if i > 0 {
                assert(rest[i - 1] == ms[i]);
            }
        }
    }
}

proof fn lemma_members_dropped(ms: Seq<(Seq<char>, JsonV)>)
    ensures
        members_dropped(ms) <==> exists|i: int|
            0 <= i < ms.len() && member_rule((#[trigger] ms[i]).0, norm(ms[i].1)).1,
    decreases ms.len(),
{
    if ms.len() > 0 {
        let rest = ms.subrange(1, ms.len() as int);
        lemma_members_dropped(rest);
        if member_rule(ms[0].0, norm(ms[0].1)).1 {
            assert(0 <= 0 < ms.len() && member_rule(ms[0].0, norm(ms[0].1)).1);
        } else if members_dropped(rest) {
            let i = choose|i: int|
                0 <= i < rest.len() && member_rule((#[trigger] rest[i]).0, norm(rest[i].1)).1;
            assert(ms[i + 1] == rest[i]);
        } else {
            assert forall|i: int|
                0 <= i < ms.len() implies !member_rule(
                (#[trigger] ms[i]).0,
                norm(ms[i].1),
            ).1 by {
                if i > 0 {
                    assert(rest[i - 1] == ms[i]);
                }
            }
        }
    }
}

proof fn lemma_list_normal(es: Seq<JsonV>)
    ensures
        list_normal(es) <==> (forall|i: int| 0 <= i < es.len() ==> is_normal(#[trigger] es[i])),
    decreases es.len(),
{
    if es.len() > 0 {
        let rest = es.subrange(1, es.len() as int);
        lemma_list_normal(rest);
        if list_normal(es) {
            assert forall|i: int| 0 <= i < es.len() implies is_normal(#[trigger] es[i]) by {
                if i > 0 {
                    assert(rest[i - 1] == es[i]);
                }
            }
        } else {
            if is_normal(es[0]) {
                assert(!list_normal(rest));
                let i = choose|i: int| 0 <= i < rest.len() && !is_normal(#[trigger] rest[i]);
                assert(es[i + 1] == rest[i]);
            }
        }
    }
}

proof fn lemma_members_normal(ms: Seq<(Seq<char>, JsonV)>)
    ensures
        members_normal(ms) <==> (forall|i: int|
            0 <= i < ms.len() ==> is_normal((#[trigger] ms[i]).1) && member_normal(
                ms[i].0,
                ms[i].1,
            )),
    decreases ms.len(),
{
    if ms.len() > 0 {
        let rest = ms.subrange(1, ms.len() as int);
        lemma_members_normal(rest);
        if members_normal(ms) {
            assert forall|i: int| 0 <= i < ms.len() implies is_normal((#[trigger] ms[i]).1)
                && member_normal(ms[i].0, ms[i].1) by {
                if i > 0 {
                    assert(rest[i - 1] == ms[i]);
                }
            }
        } else {
            if is_normal(ms[0].1) && member_normal(ms[0].0, ms[0].1) {
                assert(!members_normal(rest));
                let i = choose|i: int|
                    0 <= i < rest.len() && !(is_normal((#[trigger] rest[i]).1) && member_normal(
                        rest[i].0,
                        rest[i].1,
                    ));
                assert(ms[i + 1] == rest[i]);
            }
        }
    }
}

proof fn lemma_strip_null_strs(es: Seq<JsonV>)
    ensures
        strip_null_strs(es).len() <= es.len(),
        es.len() > 0 ==> strip_null_strs(es).len() >= 1,
        strip_null_strs(es) == es.subrange(0, strip_null_strs(es).len() as int),
        !(strip_null_strs(es).len() >= 2 && is_null_str(strip_null_strs(es).last())),
    decreases es.len(),
{
    if es.len() >= 2 && is_null_str(es.last()) {
        lemma_strip_null_strs(es.drop_last());
        assert(es.drop_last().subrange(0, strip_null_strs(es).len() as int) =~= es.subrange(
            0,
            strip_null_strs(es).len() as int,
        ));
    } else {
        assert(es.subrange(0, es.len() as int) =~= es);
    }
}

proof fn lemma_strip_null_objs(es: Seq<JsonV>)
    ensures
        strip_null_objs(es).len() <= es.len(),
        es.len() > 0 ==> strip_null_objs(es).len() >= 1,
        strip_null_objs(es) == es.subrange(0, strip_null_objs(es).len() as int),
        !(strip_null_objs(es).len() >= 2 && is_null_type_obj(strip_null_objs(es).last())),
    decreases es.len(),
{
    if es.len() >= 2 && is_null_type_obj(es.last()) {
        lemma_strip_null_objs(es.drop_last());
        assert(es.drop_last().subrange(0, strip_null_objs(es).len() as int) =~= es.subrange(
            0,
            strip_null_objs(es).len() as int,
        ));
    } else {
        assert(es.subrange(0, es.len() as int) =~= es);
    }
}

proof fn lemma_key_literals()
    ensures
        "nullable"@ != "$ref"@,
        "nullable"@ != "type"@,
        "nullable"@ != "anyOf"@,
        "type"@ != "$ref"@,
        "type"@ != "anyOf"@,
        "$ref"@ != "anyOf"@,
{
    reveal_strlit("nullable");
    reveal_strlit("$ref");
    reveal_strlit("type");
    reveal_strlit("anyOf");
    assert("nullable"@.len() == 8);
    assert("$ref"@.len() == 4);
    assert("type"@.len() == 4);
    assert("anyOf"@.len() == 5);
    assert("$ref"@[0] == '$' && "type"@[0] == 't');
}

proof fn lemma_rewrite_stable(s: Seq<char>)
    ensures
        rewrite_ref_text(rewrite_ref_text(s)) == rewrite_ref_text(s),
{
    reveal_strlit("#/definitions/");
    reveal_strlit("#/components/schemas/");
    if def_prefix().is_prefix_of(s) {
        let r = schemas_prefix() + s.skip(def_prefix().len() as int);
        assert(r.len() >= 21);
        assert(r[2] == 'c');
        assert(def_prefix()[2] == 'd');
        if def_prefix().is_prefix_of(r) {
            assert(r.subrange(0, 14) == def_prefix());
            assert(r.subrange(0, 14)[2] == r[2]);
            assert(false);
        }
    }
}

proof fn lemma_string_schema_normal()
    ensures
        is_normal(string_schema()),
{
    lemma_key_literals();
    reveal_strlit("type");
    reveal_strlit("$ref");
    reveal_strlit("anyOf");
    let ms = seq![("type"@, JsonV::Str("string"@))];
    assert(ms.subrange(1, 1) =~= Seq::<(Seq<char>, JsonV)>::empty());
    assert(members_normal(ms.subrange(1, 1)));
    assert(member_rule("type"@, JsonV::Str("string"@)) == (
        JsonV::Str("string"@),
        false,
    ));
    assert(is_normal(JsonV::Str("string"@)));
    assert(member_normal("type"@, JsonV::Str("string"@)));
    assert(ms[0] == ("type"@, JsonV::Str("string"@)));
    assert(members_normal(ms));
    assert(string_schema() != ipv6_pattern()) by {
        assert(seq![("type"@, JsonV::Str("string"@))][0].0 == "type"@);
        assert(seq![("$ref"@, JsonV::Str("#/components/schemas/Ipv6Net"@))][0].0 == "$ref"@);
        assert("type"@[0] == 't' && "$ref"@[0] == '$');
    }
    assert(string_schema() != ipnet_pattern()) by {
        assert(seq![("$ref"@, JsonV::Str("#/components/schemas/IpNet"@))][0].0 == "$ref"@);
        assert("type"@[0] == 't' && "$ref"@[0] == '$');
    }
}

proof fn lemma_member_rule_stable(k: Seq<char>, v: JsonV)
    requires
        is_normal(v),
    ensures
        is_normal(member_rule(k, v).0),
        member_normal(k, member_rule(k, v).0),
{
    lemma_key_literals();
    if k == "$ref"@ {
        match v {
            JsonV::Str(s) => {
                lemma_rewrite_stable(s);
            },
            _ => {},
        }
    } else if k == "type"@ {
        match v {
            JsonV::Arr(es) => {
                let stripped = strip_null_strs(es);
                lemma_strip_null_strs(es);
                lemma_list_normal(es);
                lemma_list_normal(stripped);
                assert forall|i: int| 0 <= i < stripped.len() implies is_normal(
                    #[trigger] stripped[i],
                ) by {
                    assert(stripped[i] == es[i]);
                }
                let v1 = collapse_singleton(JsonV::Arr(stripped));
                match v1 {
                    JsonV::Str(_) => {},
                    JsonV::Arr(es1) => {
                        assert(es1 == stripped);
                        assert(strip_null_strs(es1) == es1);
                        assert(collapse_singleton(JsonV::Arr(es1)) == v1);
                        assert(type_rule(v1) == (v1, false));
                    },
                    _ => {},
                }
            },
            _ => {},
        }
    } else if k == "anyOf"@ {
        match v {
            JsonV::Arr(es) => {
                let stripped = strip_null_objs(es);
                lemma_strip_null_objs(es);
                lemma_list_normal(es);
                lemma_list_normal(stripped);
                assert forall|i: int| 0 <= i < stripped.len() implies is_normal(
                    #[trigger] stripped[i],
                ) by {
                    assert(stripped[i] == es[i]);
                }
                assert(strip_null_objs(stripped) == stripped);
                assert(anyof_rule(JsonV::Arr(stripped)) == (JsonV::Arr(stripped), false));
            },
            _ => {},
        }
    } else {
    }
}

/// Every normalized fragment is normal: a second pass finds nothing to do.
proof fn lemma_norm_is_normal(j: JsonV)
    ensures
        is_normal(norm(j)),
    decreases j,
{
    match j {
        JsonV::Arr(es) => {
            lemma_norm_list(es);
            lemma_list_normal(norm_list(es));
            assert forall|i: int| 0 <= i < norm_list(es).len() implies is_normal(
                #[trigger] norm_list(es)[i],
            ) by {
                lemma_norm_is_normal(es[i]);
            }
        },
        JsonV::Obj(ms) => {
            lemma_key_literals();
            let ms1 = norm_members(ms);
            lemma_norm_members(ms);
            assert forall|i: int| 0 <= i < ms1.len() implies is_normal((#[trigger] ms1[i]).1)
                && member_normal(ms1[i].0, ms1[i].1) by {
                lemma_norm_is_normal(ms[i].1);
                lemma_member_rule_stable(ms[i].0, norm(ms[i].1));
            }
            let ms2 = if members_dropped(ms) {
                set_nullable(ms1)
            } else {
                ms1
            };
            assert forall|i: int| 0 <= i < ms2.len() implies is_normal((#[trigger] ms2[i]).1)
                && member_normal(ms2[i].0, ms2[i].1) by {
                if i < ms1.len() {
                    assert(ms2[i] == ms1[i] || ms2[i] == (ms1[i].0, JsonV::Bool(true)));
                } else {
                    assert(ms2[i] == ("nullable"@, JsonV::Bool(true)));
                }
            }
            lemma_members_normal(ms2);
            let node = JsonV::Obj(ms2);
            if node == ipv6_pattern() || node == ipnet_pattern() {
                lemma_string_schema_normal();
            } else {
                assert(norm(j) == node);
            }
        },
        _ => {},
    }
}

/// A normal fragment is a fixpoint of the normalizer.
proof fn lemma_normal_fixpoint(j: JsonV)
    requires
        is_normal(j),
    ensures
        norm(j) == j,
    decreases j,
{
    match j {
        JsonV::Arr(es) => {
            lemma_norm_list(es);
            lemma_list_normal(es);
            assert forall|i: int| 0 <= i < es.len() implies norm_list(es)[i] == #[trigger] es[i] by {
                lemma_normal_fixpoint(es[i]);
            }
            assert(norm_list(es) =~= es);
        },
        JsonV::Obj(ms) => {
            let ms1 = norm_members(ms);
            lemma_norm_members(ms);
            lemma_members_normal(ms);
            assert forall|i: int| 0 <= i < ms.len() implies ms1[i] == #[trigger] ms[i] by {
                lemma_normal_fixpoint(ms[i].1);
                assert(member_rule(ms[i].0, ms[i].1) == (ms[i].1, false));
            }
            assert(ms1 =~= ms);
            lemma_members_dropped(ms);
            assert(!members_dropped(ms)) by {
                if members_dropped(ms) {
                    let i = choose|i: int|
                        0 <= i < ms.len() && member_rule((#[trigger] ms[i]).0, norm(ms[i].1)).1;
                    lemma_normal_fixpoint(ms[i].1);
                    assert(member_rule(ms[i].0, ms[i].1) == (ms[i].1, false));
                }
            }
            assert(norm(j) == ip_fix(JsonV::Obj(ms)));
        },
        _ => {},
    }
}

/// The normalizer is idempotent: normalizing an already-normalized fragment
/// changes nothing.
pub proof fn lemma_normalize_idempotent(j: JsonV)
    ensures
        norm(norm(j)) == norm(j),
{
    lemma_norm_is_normal(j);
    lemma_normal_fixpoint(norm(j));
}

proof fn lemma_arr_view_drop_last(s: Seq<Json>)
    requires
        s.len() > 0,
    ensures
        arr_view(s.drop_last()) == arr_view(s).drop_last(),
{
    lemma_arr_view(s);
    lemma_arr_view(s.drop_last());
    assert(arr_view(s.drop_last()) =~= arr_view(s).drop_last());
}

/// Whether `s` begins with the introspector's reference base.
fn has_def_prefix(s: &String) -> (r: bool)
    ensures
        r == def_prefix().is_prefix_of(s@),
{
    proof {
        reveal_strlit("#/definitions/");
    }
    let p: &str = "#/definitions/";
    let plen: usize = p.unicode_len();
    let slen: usize = s.as_str().unicode_len();
    if slen < plen {
        return false;
    }
    let mut i: usize = 0;
    while i < plen
        invariant
            plen == def_prefix().len(),
            slen == s@.len(),
            plen <= slen,
            0 <= i <= plen,
            p@ == def_prefix(),
            forall|t: int| 0 <= t < i ==> s@[t] == def_prefix()[t],
        decreases plen - i,
    {
        if s.as_str().get_char(i) != p.get_char(i) {
            proof {
                assert(s@.subrange(0, plen as int)[i as int] != def_prefix()[i as int]);
            }
            return false;
        }
        i = i + 1;
    }
    proof {
        assert(s@.subrange(0, plen as int) =~= def_prefix());
    }
    true
}

/// Re-bases one reference string, as [`rewrite_ref_text`] says.
fn rewrite_ref_exec(s: &String) -> (r: String)
    ensures
        r@ == rewrite_ref_text(s@),
{
    proof {
        reveal_strlit("#/definitions/");
        reveal_strlit("#/components/schemas/");
    }
    if has_def_prefix(s) {
        let mut t = "#/components/schemas/".to_owned();
        let slen: usize = s.as_str().unicode_len();
        t.append(s.as_str().substring_char(14, slen));
        proof {
            assert(t@ =~= schemas_prefix() + s@.skip(def_prefix().len() as int));
        }
        t
    } else {
        s.clone()
    }
}

/// Whether this value is the JSON string `"null"`.
fn is_null_str_exec(j: &Json) -> (r: bool)
    ensures
        r == is_null_str(j.deep_view()),
{
    match j {
        Json::Str(s) => str_is(s, "null"),
        _ => false,
    }
}

/// Whether this value is exactly the object `{"type":"null"}`.
fn is_null_type_obj_exec(j: &Json) -> (r: bool)
    ensures
        r == is_null_type_obj(j.deep_view()),
{
    broadcast use lemma_obj_view;

    match j {
        Json::Obj(m) => {
            if m.len() != 1 {
                proof {
                    assert(obj_view(m@).len() != 1);
                }
                false
            } else {
                let key_ok = str_is(&m[0].0, "type");
                let val_ok = is_null_str_exec(&m[0].1);
                proof {
                    let pat = seq![("type"@, JsonV::Str("null"@))];
                    assert(pat[0] == ("type"@, JsonV::Str("null"@)));
                    assert(obj_view(m@)[0] == (m@[0].0@, m@[0].1.deep_view()));
                    if key_ok && val_ok {
                        assert(obj_view(m@) =~= pat);
                    } else {
                        if j.deep_view() == JsonV::Obj(pat) {
                            assert(obj_view(m@) == pat);
                            assert(false);
                        }
                    }
                }
                key_ok && val_ok
            }
        },
        _ => false,
    }
}

/// Whether this value is a JSON string naming a primitive type.
fn is_prim_str(j: &Json) -> (r: bool)
    ensures
        r == (j.deep_view() matches JsonV::Str(s) && prim_name(s)),
{
    match j {
        Json::Str(s) => {
            let r = str_is(s, "array") || str_is(s, "object") || str_is(s, "string") || str_is(
                s,
                "boolean",
            ) || str_is(s, "integer") || str_is(s, "number");
            r
        },
        _ => false,
    }
}

/// Applies the `type` member rule, as [`type_rule`] says.
#[verifier::loop_isolation(false)]
fn type_rule_exec(v: Json) -> (r: (Json, bool))
    ensures
        (r.0.deep_view(), r.1) == type_rule(v.deep_view()),
{
    broadcast use lemma_arr_view;

    match v {
        Json::Arr(mut es) => {
            let ghost orig = arr_view(es@);
            let n0: usize = es.len();
            while es.len() >= 2 && is_null_str_exec(&es[es.len() - 1])
                invariant
                    strip_null_strs(orig) == strip_null_strs(arr_view(es@)),
                    es@.len() <= n0,
                decreases es@.len(),
            {
                proof {
                    assert(arr_view(es@).last() == es@.last().deep_view());
                    lemma_arr_view_drop_last(es@);
                }
                es.pop();
            }
            proof {
                assert(strip_null_strs(arr_view(es@)) == arr_view(es@));
                assert(arr_view(es@) == strip_null_strs(orig));
                lemma_strip_null_strs(orig);
            }
            let dropped = es.len() < n0;
            if es.len() == 1 && is_prim_str(&es[0]) {
                match es.pop() {
                    Some(e) => (e, dropped),
                    None => {
                        proof {
                            assert(false);
                        }
                        (Json::Null, dropped)
                    },
                }
            } else {
                proof {
                    assert(collapse_singleton(JsonV::Arr(arr_view(es@))) == JsonV::Arr(
                        arr_view(es@),
                    ));
                }
                (Json::Arr(es), dropped)
            }
        },
        other => (other, false),
    }
}

/// Applies the `anyOf` member rule, as [`anyof_rule`] says.
#[verifier::loop_isolation(false)]
fn anyof_rule_exec(v: Json) -> (r: (Json, bool))
    ensures
        (r.0.deep_view(), r.1) == anyof_rule(v.deep_view()),
{
    broadcast use lemma_arr_view;

    match v {
        Json::Arr(mut es) => {
            let ghost orig = arr_view(es@);
            let n0: usize = es.len();
            while es.len() >= 2 && is_null_type_obj_exec(&es[es.len() - 1])
                invariant
                    strip_null_objs(orig) == strip_null_objs(arr_view(es@)),
                    es@.len() <= n0,
                decreases es@.len(),
            {
                proof {
                    assert(arr_view(es@).last() == es@.last().deep_view());
                    lemma_arr_view_drop_last(es@);
                }
                es.pop();
            }
            proof {
                assert(strip_null_objs(arr_view(es@)) == arr_view(es@));
                lemma_strip_null_objs(orig);
            }
            let dropped = es.len() < n0;
            (Json::Arr(es), dropped)
        },
        other => (other, false),
    }
}

/// Applies the key-directed member rule, as [`member_rule`] says.
fn member_rule_exec(k: &String, v: Json) -> (r: (Json, bool))
    ensures
        (r.0.deep_view(), r.1) == member_rule(k@, v.deep_view()),
{
    if str_is(k, "$ref") {
        match v {
            Json::Str(s) => (Json::Str(rewrite_ref_exec(&s)), false),
            other => (other, false),
        }
    } else if str_is(k, "type") {
        type_rule_exec(v)
    } else if str_is(k, "anyOf") {
        anyof_rule_exec(v)
    } else {
        (v, false)
    }
}

/// Records `"nullable": true` on an object's member list, as
/// [`set_nullable`] says.
#[verifier::loop_isolation(false)]
fn set_nullable_exec(ms: &mut Vec<(String, Json)>)
    ensures
        obj_view(final(ms)@) == set_nullable(obj_view(old(ms)@)),
{
    broadcast use lemma_obj_view;

    let ghost orig = ms@;
    let mut found = false;
    let mut i: usize = 0;
    while i < ms.len()
        invariant
            ms@.len() == orig.len(),
            0 <= i <= orig.len(),
            forall|t: int| i <= t < orig.len() ==> ms@[t] == orig[t],
            forall|t: int|
                0 <= t < i ==> ms@[t] == (if orig[t].0@ == "nullable"@ {
                    ((#[trigger] orig[t]).0, Json::Bool(true))
                } else {
                    orig[t]
                }),
            found <==> exists|t: int| 0 <= t < i && (#[trigger] orig[t]).0@ == "nullable"@,
        decreases orig.len() - i,
    {
        if str_is(&ms[i].0, "nullable") {
            let ghost before = ms@;
            let prior = ms.remove(i);
            ms.insert(i, (prior.0, Json::Bool(true)));
            found = true;
            proof {
                assert(prior == orig[i as int]);
                assert(orig[i as int].0@ == "nullable"@);
                assert(ms@ =~= before.update(i as int, (prior.0, Json::Bool(true))));
            }
        }
        i = i + 1;
    }
    if !found {
        proof {
            assert(ms@ =~= orig);
        }
        ms.push(("nullable".to_owned(), Json::Bool(true)));
        proof {
            assert(!has_key(obj_view(orig), "nullable"@)) by {
                if has_key(obj_view(orig), "nullable"@) {
                    let t = choose|t: int|
                        0 <= t < obj_view(orig).len() && obj_view(orig)[t].0 == "nullable"@;
                    assert(orig[t].0@ == "nullable"@);
                }
            }
            assert(ms@[orig.len() as int].1.deep_view() == JsonV::Bool(true));
            assert(obj_view(ms@) =~= set_nullable(obj_view(orig)));
        }
    } else {
        proof {
            assert(has_key(obj_view(orig), "nullable"@)) by {
                let t = choose|t: int| 0 <= t < orig.len() && (#[trigger] orig[t]).0@ == "nullable"@;
                assert(obj_view(orig)[t].0 == "nullable"@);
            }
            assert forall|t: int| 0 <= t < orig.len() implies obj_view(ms@)[t] == set_nullable(
                obj_view(orig),
            )[t] by {
                assert(ms@[t].1.deep_view() == (if orig[t].0@ == "nullable"@ {
                    JsonV::Bool(true)
                } else {
                    orig[t].1.deep_view()
                }));
            }
            assert(obj_view(ms@) =~= set_nullable(obj_view(orig)));
        }
    }
}

/// Replaces a whole-object network-address reference, as [`ip_fix`] says.
fn ip_fix_exec(j: Json) -> (r: Json)
    ensures
        r.deep_view() == ip_fix(j.deep_view()),
{
    broadcast use lemma_obj_view;

    let ghost pat6 = seq![("$ref"@, JsonV::Str("#/components/schemas/Ipv6Net"@))];
    let ghost patn = seq![("$ref"@, JsonV::Str("#/components/schemas/IpNet"@))];
    let is_pattern: bool = match &j {
        Json::Obj(m) => {
            proof {
                assert(pat6[0] == ("$ref"@, JsonV::Str("#/components/schemas/Ipv6Net"@)));
                assert(patn[0] == ("$ref"@, JsonV::Str("#/components/schemas/IpNet"@)));
            }
            if m.len() != 1 {
                proof {
                    assert(obj_view(m@).len() != 1);
                }
                false
            } else {
                let key_ok = str_is(&m[0].0, "$ref");
                let val_ok: bool = match &m[0].1 {
                    Json::Str(s) => {
                        let r = str_is(s, "#/components/schemas/Ipv6Net") || str_is(
                            s,
                            "#/components/schemas/IpNet",
                        );
                        r
                    },
                    _ => false,
                };
                proof {
                    assert(obj_view(m@)[0] == (m@[0].0@, m@[0].1.deep_view()));
                    if key_ok && val_ok {
                        if m@[0].1.deep_view() == JsonV::Str(
                            "#/components/schemas/Ipv6Net"@,
                        ) {
                            assert(obj_view(m@) =~= pat6);
                        } else {
                            assert(obj_view(m@) =~= patn);
                        }
                    } else {
                        if j.deep_view() == ipv6_pattern() {
                            assert(obj_view(m@) == pat6);
                            assert(false);
                        }
                        if j.deep_view() == ipnet_pattern() {
                            assert(obj_view(m@) == patn);
                            assert(false);
                        }
                    }
                }
                key_ok && val_ok
            }
        },
        _ => false,
    };
    if is_pattern {
        let out: Vec<(String, Json)> = vec![("type".to_owned(), Json::Str("string".to_owned()))];
        proof {
            assert(obj_view(out@) =~= seq![("type"@, JsonV::Str("string"@))]);
        }
        Json::Obj(out)
    } else {
        j
    }
}

/// Normalizes a schema fragment: the result is exactly [`norm`] of the
/// input.
#[verifier::loop_isolation(false)]
pub fn normalize(j: &Json) -> (r: Json)
    ensures
        r.deep_view() == norm(j.deep_view()),
    decreases j,
{
    broadcast use lemma_arr_view, lemma_obj_view;

    match j {
        Json::Null => Json::Null,
        Json::Bool(b) => Json::Bool(*b),
        Json::Int(n) => Json::Int(*n),
        Json::Str(s) => Json::Str(s.clone()),
        Json::Arr(v) => {
            let ghost es = arr_view(v@);
            let mut out: Vec<Json> = Vec::new();
            let mut k: usize = 0;
            while k < v.len()
                invariant
                    out@.len() == k,
                    0 <= k <= v@.len(),
                    forall|t: int| 0 <= t < k ==> (#[trigger] out@[t]).deep_view() == norm(es[t]),
                decreases v@.len() - k,
            {
                proof {
                    assert(*j == Json::Arr(*v));
                    assert(decreases_to!(*j => j->Arr_0));
                    assert(decreases_to!(*v => v@[k as int]));
                }
                let nv = normalize(&v[k]);
                out.push(nv);
                k = k + 1;
            }
            proof {
                lemma_norm_list(es);
                assert(arr_view(out@) =~= norm_list(es));
            }
            Json::Arr(out)
        },
        Json::Obj(m) => {
            let ghost ms = obj_view(m@);
            let mut out: Vec<(String, Json)> = Vec::new();
            let mut dropped = false;
            let mut k: usize = 0;
            while k < m.len()
                invariant
                    out@.len() == k,
                    0 <= k <= m@.len(),
                    forall|t: int|
                        0 <= t < k ==> (#[trigger] out@[t]).0@ == ms[t].0 && out@[t].1.deep_view()
                            == member_rule(ms[t].0, norm(ms[t].1)).0,
                    dropped <==> exists|t: int|
                        0 <= t < k && member_rule((#[trigger] ms[t]).0, norm(ms[t].1)).1,
                decreases m@.len() - k,
            {
                proof {
                    assert(*j == Json::Obj(*m));
                    assert(decreases_to!(*j => j->Obj_0));
                    assert(decreases_to!(*m => m@[k as int]));
                    assert(decreases_to!(m@[k as int] => m@[k as int].1));
                }
                let key = m[k].0.clone();
                let nv = normalize(&m[k].1);
                let (v2, d) = member_rule_exec(&key, nv);
                out.push((key, v2));
                if d {
                    dropped = true;
                }
                k = k + 1;
            }
            proof {
                lemma_norm_members(ms);
                assert(obj_view(out@) =~= norm_members(ms));
                lemma_members_dropped(ms);
            }
            if dropped {
                set_nullable_exec(&mut out);
            }
            ip_fix_exec(Json::Obj(out))
        },
    }
}

} // verus!
