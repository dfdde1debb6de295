//! Washing of image backend configurations.
//!
//! A mount command's config may carry credentials. Before a descriptor is
//! stored in the registry, the nested path `device.backend.type` decides
//! which fields are erased from `device.backend.config`: for an `"oss"`
//! backend the access keys, for a `"registry"` backend the auth fields.

use vstd::prelude::*;

use crate::json::{view_json_fields, JsonSpecValue, JsonValue};

verus! {

/// The value under `key` in an ordered field list: the first occurrence
/// counts.
pub open spec fn spec_assoc_get(
    f: Seq<(Seq<char>, JsonSpecValue)>,
    key: Seq<char>,
) -> Option<JsonSpecValue>
    decreases f.len(),
{
    if f.len() == 0 {
        None
    } else if f[0].0 == key {
        Some(f[0].1)
    } else {
        spec_assoc_get(f.drop_first(), key)
    }
}

/// The value under `key` in an object; `None` for non-objects and absent
/// keys.
pub open spec fn spec_obj_get(j: JsonSpecValue, key: Seq<char>) -> Option<JsonSpecValue> {
    match j {
        JsonSpecValue::Obj(f) => spec_assoc_get(f, key),
        _ => None,
    }
}

/// Skipping a prefix without a matching key does not change a lookup.
pub proof fn lemma_assoc_get_skip(f: Seq<(Seq<char>, JsonSpecValue)>, key: Seq<char>, i: int)
    requires
        0 <= i <= f.len(),
        forall|k: int| 0 <= k < i ==> f[k].0 != key,
    ensures
        spec_assoc_get(f, key) == spec_assoc_get(f.skip(i), key),
    decreases i,
{
    if i > 0 {
        lemma_assoc_get_skip(f.drop_first(), key, i - 1);
        assert(f.drop_first().skip(i - 1) =~= f.skip(i));
    } else {
        assert(f.skip(0) =~= f);
    }
}

/// A lookup that fails means no field bears the key; one that succeeds
/// returns the value at the first index bearing it.
pub proof fn lemma_assoc_get_first(f: Seq<(Seq<char>, JsonSpecValue)>, key: Seq<char>)
    ensures
        spec_assoc_get(f, key) is None ==> forall|k: int| 0 <= k < f.len() ==> f[k].0 != key,
        spec_assoc_get(f, key) is Some ==> exists|i: int|
            0 <= i < f.len() && f[i].0 == key && f[i].1 == spec_assoc_get(f, key)->Some_0
                && (forall|k: int| 0 <= k < i ==> f[k].0 != key),
    decreases f.len(),
{
    if f.len() > 0 && f[0].0 != key {
        let d = f.drop_first();
        lemma_assoc_get_first(d, key);
        assert(forall|k: int| 0 <= k < d.len() ==> #[trigger] d[k] == f[k + 1]);
        if spec_assoc_get(f, key) is None {
            assert forall|k: int| 0 <= k < f.len() implies f[k].0 != key by {
                if k >= 1 {
                    assert(d[k - 1] == f[k]);
                }
            }
        } else {
            let i = choose|i: int|
                0 <= i < d.len() && d[i].0 == key && d[i].1 == spec_assoc_get(d, key)->Some_0 && (
                forall|k: int| 0 <= k < i ==> d[k].0 != key);
            assert(f[i + 1] == d[i]);
            assert forall|k: int| 0 <= k < i + 1 implies f[k].0 != key by {
                if k >= 1 {
                    assert(d[k - 1] == f[k]);
                }
            }
            assert(0 <= i + 1 < f.len() && f[i + 1].0 == key && f[i + 1].1 == spec_assoc_get(
                f,
                key,
            )->Some_0 && (forall|k: int| 0 <= k < i + 1 ==> f[k].0 != key));
        }
    }
}

/// Fields whose key stands in `keys` are erased; the others keep their order.
pub open spec fn spec_strip_fields(
    f: Seq<(Seq<char>, JsonSpecValue)>,
    keys: Seq<Seq<char>>,
) -> Seq<(Seq<char>, JsonSpecValue)>
    decreases f.len(),
{
    if f.len() == 0 {
        Seq::empty()
    } else {
        let rest = spec_strip_fields(f.drop_last(), keys);
        if keys.contains(f.last().0) {
            rest
        } else {
            rest.push(f.last())
        }
    }
}

/// Erases the keys in `keys` from an object; non-objects pass unchanged.
pub open spec fn spec_strip_config(c: JsonSpecValue, keys: Seq<Seq<char>>) -> JsonSpecValue {
    match c {
        JsonSpecValue::Obj(f) => JsonSpecValue::Obj(spec_strip_fields(f, keys)),
        _ => c,
    }
}

/// Rewrites the value under `config` in a backend object's field list.
pub open spec fn spec_map_backend_fields(
    f: Seq<(Seq<char>, JsonSpecValue)>,
    keys: Seq<Seq<char>>,
) -> Seq<(Seq<char>, JsonSpecValue)>
    decreases f.len(),
{
    if f.len() == 0 {
        Seq::empty()
    } else {
        let e = f.last();
        spec_map_backend_fields(f.drop_last(), keys).push(
            if e.0 == "config"@ {
                (e.0, spec_strip_config(e.1, keys))
            } else {
                e
            },
        )
    }
}

/// Rewrites `config` inside a `backend` object; non-objects pass unchanged.
pub open spec fn spec_strip_backend(b: JsonSpecValue, keys: Seq<Seq<char>>) -> JsonSpecValue {
    match b {
        JsonSpecValue::Obj(f) => JsonSpecValue::Obj(spec_map_backend_fields(f, keys)),
        _ => b,
    }
}

/// Rewrites the value under `backend` in a device object's field list.
pub open spec fn spec_map_device_fields(
    f: Seq<(Seq<char>, JsonSpecValue)>,
    keys: Seq<Seq<char>>,
) -> Seq<(Seq<char>, JsonSpecValue)>
    decreases f.len(),
{
    if f.len() == 0 {
        Seq::empty()
    } else {
        let e = f.last();
        spec_map_device_fields(f.drop_last(), keys).push(
            if e.0 == "backend"@ {
                (e.0, spec_strip_backend(e.1, keys))
            } else {
                e
            },
        )
    }
}

/// Rewrites `backend` inside a `device` object; non-objects pass unchanged.
pub open spec fn spec_strip_device(d: JsonSpecValue, keys: Seq<Seq<char>>) -> JsonSpecValue {
    match d {
        JsonSpecValue::Obj(f) => JsonSpecValue::Obj(spec_map_device_fields(f, keys)),
        _ => d,
    }
}

/// Rewrites the value under `device` in a config's top-level field list.
pub open spec fn spec_map_top_fields(
    f: Seq<(Seq<char>, JsonSpecValue)>,
    keys: Seq<Seq<char>>,
) -> Seq<(Seq<char>, JsonSpecValue)>
    decreases f.len(),
{
    if f.len() == 0 {
        Seq::empty()
    } else {
        let e = f.last();
        spec_map_top_fields(f.drop_last(), keys).push(
            if e.0 == "device"@ {
                (e.0, spec_strip_device(e.1, keys))
            } else {
                e
            },
        )
    }
}

/// Rewrites `device` inside a whole config; non-objects pass unchanged.
pub open spec fn spec_strip_top(j: JsonSpecValue, keys: Seq<Seq<char>>) -> JsonSpecValue {
    match j {
        JsonSpecValue::Obj(f) => JsonSpecValue::Obj(spec_map_top_fields(f, keys)),
        _ => j,
    }
}

/// The value at the nested path `device.backend.type`.
pub open spec fn spec_backend_type(j: JsonSpecValue) -> Option<JsonSpecValue> {
    match spec_obj_get(j, "device"@) {
        Some(d) => match spec_obj_get(d, "backend"@) {
            Some(b) => spec_obj_get(b, "type"@),
            None => None,
        },
        None => None,
    }
}

/// The keys that the backend type condemns: the access keys for `"oss"`,
/// the auth fields for `"registry"`, nothing otherwise.
pub open spec fn spec_sanitize_keys(j: JsonSpecValue) -> Seq<Seq<char>> {
    if spec_backend_type(j) == Some(JsonSpecValue::Str("oss"@)) {
        seq!["access_key_id"@, "access_key_secret"@]
    } else if spec_backend_type(j) == Some(JsonSpecValue::Str("registry"@)) {
        seq!["auth"@, "registry_token"@]
    } else {
        Seq::empty()
    }
}

/// The washed form of an image backend config: the condemned keys erased
/// from `device.backend.config`, everything else untouched.
pub open spec fn spec_sanitize(j: JsonSpecValue) -> JsonSpecValue {
    spec_strip_top(j, spec_sanitize_keys(j))
}

/// Rewriting `config` values keeps length, keys and the other fields.
proof fn lemma_map_backend_fields_elem(f: Seq<(Seq<char>, JsonSpecValue)>, keys: Seq<Seq<char>>)
    ensures
        spec_map_backend_fields(f, keys).len() == f.len(),
        forall|i: int|
            0 <= i < f.len() ==> spec_map_backend_fields(f, keys)[i] == (if f[i].0 == "config"@ {
                (f[i].0, spec_strip_config(f[i].1, keys))
            } else {
                f[i]
            }),
    decreases f.len(),
{
    if f.len() > 0 {
        lemma_map_backend_fields_elem(f.drop_last(), keys);
    }
}

/// Rewriting `backend` values keeps length, keys and the other fields.
proof fn lemma_map_device_fields_elem(f: Seq<(Seq<char>, JsonSpecValue)>, keys: Seq<Seq<char>>)
    ensures
        spec_map_device_fields(f, keys).len() == f.len(),
        forall|i: int|
            0 <= i < f.len() ==> spec_map_device_fields(f, keys)[i] == (if f[i].0 == "backend"@ {
                (f[i].0, spec_strip_backend(f[i].1, keys))
            } else {
                f[i]
            }),
    decreases f.len(),
{
    if f.len() > 0 {
        lemma_map_device_fields_elem(f.drop_last(), keys);
    }
}

/// Rewriting `device` values keeps length, keys and the other fields.
proof fn lemma_map_top_fields_elem(f: Seq<(Seq<char>, JsonSpecValue)>, keys: Seq<Seq<char>>)
    ensures
        spec_map_top_fields(f, keys).len() == f.len(),
        forall|i: int|
            0 <= i < f.len() ==> spec_map_top_fields(f, keys)[i] == (if f[i].0 == "device"@ {
                (f[i].0, spec_strip_device(f[i].1, keys))
            } else {
                f[i]
            }),
    decreases f.len(),
{
    if f.len() > 0 {
        lemma_map_top_fields_elem(f.drop_last(), keys);
    }
}

/// No field of a stripped list bears a condemned key.
proof fn lemma_strip_fields_keys(f: Seq<(Seq<char>, JsonSpecValue)>, keys: Seq<Seq<char>>)
    ensures
        forall|i: int|
            0 <= i < spec_strip_fields(f, keys).len() ==> !keys.contains(
                #[trigger] spec_strip_fields(f, keys)[i].0,
            ),
    decreases f.len(),
{
    if f.len() > 0 {
        lemma_strip_fields_keys(f.drop_last(), keys);
        let rest = spec_strip_fields(f.drop_last(), keys);
        let s = spec_strip_fields(f, keys);
        assert forall|i: int| 0 <= i < s.len() implies !keys.contains(#[trigger] s[i].0) by {
            if keys.contains(f.last().0) {
                assert(s == rest);
            } else {
                assert(s == rest.push(f.last()));
                if i < rest.len() {
                    assert(s[i] == rest[i]);
                } else {
                    assert(s[i] == f.last());
                }
            }
        }
    }
}

/// Looking a condemned key up in a stripped list fails.
pub proof fn lemma_strip_fields_removes(
    f: Seq<(Seq<char>, JsonSpecValue)>,
    keys: Seq<Seq<char>>,
    key: Seq<char>,
)
    requires
        keys.contains(key),
    ensures
        spec_assoc_get(spec_strip_fields(f, keys), key) is None,
{
    lemma_strip_fields_keys(f, keys);
    let s = spec_strip_fields(f, keys);
    lemma_assoc_get_first(s, key);
    if spec_assoc_get(s, key) is Some {
        let i = choose|i: int| 0 <= i < s.len() && #[trigger] s[i].0 == key;
        assert(!keys.contains(s[i].0));
    }
}

/// After washing, whatever stands at `device.backend.config` holds none of
/// the keys that the config's backend type condemns: for an `"oss"` backend
/// neither access key, for a `"registry"` backend neither auth field.
pub proof fn lemma_sanitize_no_secrets(j: JsonSpecValue, key: Seq<char>)
    requires
        spec_sanitize_keys(j).contains(key),
    ensures
        match spec_obj_get(spec_sanitize(j), "device"@) {
            Some(d) => match spec_obj_get(d, "backend"@) {
                Some(b) => match spec_obj_get(b, "config"@) {
                    Some(c) => spec_obj_get(c, key) is None,
                    None => true,
                },
                None => true,
            },
            None => true,
        },
{
    let keys = spec_sanitize_keys(j);
    let s = spec_sanitize(j);
    if j is Obj {
        let f = j->Obj_0;
        lemma_map_top_fields_elem(f, keys);
        let mf = spec_map_top_fields(f, keys);
        lemma_assoc_get_first(mf, "device"@);
        if spec_assoc_get(mf, "device"@) is Some {
            let i = choose|i: int|
                0 <= i < mf.len() && mf[i].0 == "device"@ && mf[i].1 == spec_assoc_get(
                    mf,
                    "device"@,
                )->Some_0 && (forall|k: int| 0 <= k < i ==> mf[k].0 != "device"@);
            let d = mf[i].1;
            assert(d == spec_strip_device(f[i].1, keys));
            if d is Obj {
                let g = d->Obj_0;
                assert(g == spec_map_device_fields(f[i].1->Obj_0, keys));
                lemma_map_device_fields_elem(f[i].1->Obj_0, keys);
                lemma_assoc_get_first(g, "backend"@);
                if spec_assoc_get(g, "backend"@) is Some {
                    let i2 = choose|i2: int|
                        0 <= i2 < g.len() && g[i2].0 == "backend"@ && g[i2].1 == spec_assoc_get(
                            g,
                            "backend"@,
                        )->Some_0 && (forall|k: int| 0 <= k < i2 ==> g[k].0 != "backend"@);
                    let b = g[i2].1;
                    assert(b == spec_strip_backend(f[i].1->Obj_0[i2].1, keys));
                    if b is Obj {
                        let h = b->Obj_0;
                        assert(h == spec_map_backend_fields(
                            f[i].1->Obj_0[i2].1->Obj_0,
                            keys,
                        ));
                        lemma_map_backend_fields_elem(f[i].1->Obj_0[i2].1->Obj_0, keys);
                        lemma_assoc_get_first(h, "config"@);
                        if spec_assoc_get(h, "config"@) is Some {
                            let i3 = choose|i3: int|
                                0 <= i3 < h.len() && h[i3].0 == "config"@ && h[i3].1
                                    == spec_assoc_get(h, "config"@)->Some_0;
                            let c = h[i3].1;
                            assert(c == spec_strip_config(
                                f[i].1->Obj_0[i2].1->Obj_0[i3].1,
                                keys,
                            ));
                            if c is Obj {
                                lemma_strip_fields_removes(
                                    f[i].1->Obj_0[i2].1->Obj_0[i3].1->Obj_0,
                                    keys,
                                    key,
                                );
                            }
                        }
                    }
                }
            }
        }
    }
}

/// An `"oss"` config condemns both access keys.
pub proof fn lemma_sanitize_keys_oss(j: JsonSpecValue)
    requires
        spec_backend_type(j) == Some(JsonSpecValue::Str("oss"@)),
    ensures
        spec_sanitize_keys(j).contains("access_key_id"@),
        spec_sanitize_keys(j).contains("access_key_secret"@),
{
    assert(spec_sanitize_keys(j)[0] == "access_key_id"@);
    assert(spec_sanitize_keys(j)[1] == "access_key_secret"@);
}

/// A `"registry"` config condemns the auth fields.
pub proof fn lemma_sanitize_keys_registry(j: JsonSpecValue)
    requires
        spec_backend_type(j) == Some(JsonSpecValue::Str("registry"@)),
    ensures
        spec_sanitize_keys(j).contains("auth"@),
        spec_sanitize_keys(j).contains("registry_token"@),
{
    reveal_strlit("oss");
    reveal_strlit("registry");
    assert("oss"@.len() == 3);
    assert("registry"@.len() == 8);
    assert(spec_sanitize_keys(j)[0] == "auth"@);
    assert(spec_sanitize_keys(j)[1] == "registry_token"@);
}

/// Looks a key up in an object's fields; `None` for non-objects and absent
/// keys.
pub fn obj_get<'a>(j: &'a JsonValue, key: &String) -> (r: Option<&'a JsonValue>)
    ensures
        match r {
            Some(v) => spec_obj_get(j@, key@) == Some(v@),
            None => spec_obj_get(j@, key@) is None,
        },
{
    match j {
        JsonValue::Obj(fields) => {
            let ghost vf = view_json_fields(fields@);
            proof {
                crate::json::lemma_view_json_fields(fields@);
            }
            let n = fields.len();
            let mut i: usize = 0;
            while i < n
                invariant
                    *j is Obj,
                    *fields == j->Obj_0,
                    vf == view_json_fields(fields@),
                    vf.len() == fields@.len(),
                    forall|k: int|
                        0 <= k < fields@.len() ==> vf[k] == (fields@[k].0@, crate::json::view_json(
                            fields@[k].1,
                        )),
                    n == fields@.len(),
                    i <= n,
                    forall|k: int| 0 <= k < i ==> vf[k].0 != key@,
                decreases n - i,
            {
                if fields[i].0 == *key {
                    proof {
                        lemma_assoc_get_skip(vf, key@, i as int);
                        assert(vf.skip(i as int)[0] == vf[i as int]);
                    }
                    return Some(&fields[i].1);
                }
                i = i + 1;
            }
            proof {
                lemma_assoc_get_skip(vf, key@, n as int);
                assert(vf.skip(n as int) =~= Seq::<(Seq<char>, JsonSpecValue)>::empty());
            }
            None
        },
        _ => None,
    }
}

/// Whether a key stands in the condemned list.
fn keys_contain(keys: &Vec<String>, k: &String) -> (b: bool)
    ensures
        b == keys.deep_view().contains(k@),
{
    let mut i: usize = 0;
    while i < keys.len()
        invariant
            i <= keys@.len(),
            forall|j: int| 0 <= j < i ==> keys.deep_view()[j] != k@,
        decreases keys@.len() - i,
    {
        if keys[i] == *k {
            proof {
                assert(keys.deep_view()[i as int] == k@);
            }
            return true;
        }
        i = i + 1;
    }
    false
}

/// Erases the condemned keys from an object's field list.
fn strip_fields(f: &Vec<(String, JsonValue)>, keys: &Vec<String>) -> (r: Vec<(String, JsonValue)>)
    ensures
        view_json_fields(r@) == spec_strip_fields(view_json_fields(f@), keys.deep_view()),
{
    let ghost vf = view_json_fields(f@);
    proof {
        crate::json::lemma_view_json_fields(f@);
    }
    let mut out: Vec<(String, JsonValue)> = Vec::new();
    let mut i: usize = 0;
    while i < f.len()
        invariant
            vf == view_json_fields(f@),
            vf.len() == f@.len(),
            forall|k: int|
                0 <= k < f@.len() ==> vf[k] == (f@[k].0@, crate::json::view_json(f@[k].1)),
            i <= f@.len(),
            view_json_fields(out@) == spec_strip_fields(vf.take(i as int), keys.deep_view()),
        decreases f@.len() - i,
    {
        proof {
            assert(vf.take(i + 1).drop_last() =~= vf.take(i as int));
            assert(vf.take(i + 1).last() == vf[i as int]);
        }
        let entry = &f[i];
        if !keys_contain(keys, &entry.0) {
            let ghost out_before = out@;
            out.push((entry.0.clone(), entry.1.clone()));
            proof {
                assert(out@.drop_last() =~= out_before);
                assert(view_json_fields(out@) == view_json_fields(out_before).push(
                    vf[i as int],
                ));
            }
        }
        i = i + 1;
    }
    proof {
        assert(vf.take(f@.len() as int) =~= vf);
    }
    out
}

/// Erases the condemned keys from a config value.
fn strip_config(c: &JsonValue, keys: &Vec<String>) -> (r: JsonValue)
    ensures
        r@ == spec_strip_config(c@, keys.deep_view()),
{
    match c {
        JsonValue::Obj(f) => JsonValue::Obj(strip_fields(f, keys)),
        _ => c.clone(),
    }
}

/// Rewrites the value under `config` in a backend object's field list.
fn map_backend_fields(f: &Vec<(String, JsonValue)>, keys: &Vec<String>) -> (r: Vec<
    (String, JsonValue),
>)
    ensures
        view_json_fields(r@) == spec_map_backend_fields(view_json_fields(f@), keys.deep_view()),
{
    let ghost vf = view_json_fields(f@);
    proof {
        crate::json::lemma_view_json_fields(f@);
    }
    let target = String::from_str("config");
    let mut out: Vec<(String, JsonValue)> = Vec::new();
    let mut i: usize = 0;
    while i < f.len()
        invariant
            vf == view_json_fields(f@),
            vf.len() == f@.len(),
            forall|k: int|
                0 <= k < f@.len() ==> vf[k] == (f@[k].0@, crate::json::view_json(f@[k].1)),
            i <= f@.len(),
            target@ == "config"@,
            view_json_fields(out@) == spec_map_backend_fields(vf.take(i as int), keys.deep_view()),
        decreases f@.len() - i,
    {
        proof {
            assert(vf.take(i + 1).drop_last() =~= vf.take(i as int));
            assert(vf.take(i + 1).last() == vf[i as int]);
        }
        let entry = &f[i];
        let ghost out_before = out@;
        if entry.0 == target {
            out.push((entry.0.clone(), strip_config(&entry.1, keys)));
        } else {
            out.push((entry.0.clone(), entry.1.clone()));
        }
        proof {
            assert(out@.drop_last() =~= out_before);
        }
        i = i + 1;
    }
    proof {
        assert(vf.take(f@.len() as int) =~= vf);
    }
    out
}

/// Rewrites `config` inside a backend value.
fn strip_backend(b: &JsonValue, keys: &Vec<String>) -> (r: JsonValue)
    ensures
        r@ == spec_strip_backend(b@, keys.deep_view()),
{
    match b {
        JsonValue::Obj(f) => JsonValue::Obj(map_backend_fields(f, keys)),
        _ => b.clone(),
    }
}

/// Rewrites the value under `backend` in a device object's field list.
fn map_device_fields(f: &Vec<(String, JsonValue)>, keys: &Vec<String>) -> (r: Vec<
    (String, JsonValue),
>)
    ensures
        view_json_fields(r@) == spec_map_device_fields(view_json_fields(f@), keys.deep_view()),
{
    let ghost vf = view_json_fields(f@);
    proof {
        crate::json::lemma_view_json_fields(f@);
    }
    let target = String::from_str("backend");
    let mut out: Vec<(String, JsonValue)> = Vec::new();
    let mut i: usize = 0;
    while i < f.len()
        invariant
            vf == view_json_fields(f@),
            vf.len() == f@.len(),
            forall|k: int|
                0 <= k < f@.len() ==> vf[k] == (f@[k].0@, crate::json::view_json(f@[k].1)),
            i <= f@.len(),
            target@ == "backend"@,
            view_json_fields(out@) == spec_map_device_fields(vf.take(i as int), keys.deep_view()),
        decreases f@.len() - i,
    {
        proof {
            assert(vf.take(i + 1).drop_last() =~= vf.take(i as int));
            assert(vf.take(i + 1).last() == vf[i as int]);
        }
        let entry = &f[i];
        let ghost out_before = out@;
        if entry.0 == target {
            out.push((entry.0.clone(), strip_backend(&entry.1, keys)));
        } else {
            out.push((entry.0.clone(), entry.1.clone()));
        }
        proof {
            assert(out@.drop_last() =~= out_before);
        }
        i = i + 1;
    }
    proof {
        assert(vf.take(f@.len() as int) =~= vf);
    }
    out
}

/// Rewrites `backend` inside a device value.
fn strip_device(d: &JsonValue, keys: &Vec<String>) -> (r: JsonValue)
    ensures
        r@ == spec_strip_device(d@, keys.deep_view()),
{
    match d {
        JsonValue::Obj(f) => JsonValue::Obj(map_device_fields(f, keys)),
        _ => d.clone(),
    }
}

/// Rewrites the value under `device` in a config's top-level field list.
fn map_top_fields(f: &Vec<(String, JsonValue)>, keys: &Vec<String>) -> (r: Vec<
    (String, JsonValue),
>)
    ensures
        view_json_fields(r@) == spec_map_top_fields(view_json_fields(f@), keys.deep_view()),
{
    let ghost vf = view_json_fields(f@);
    proof {
        crate::json::lemma_view_json_fields(f@);
    }
    let target = String::from_str("device");
    let mut out: Vec<(String, JsonValue)> = Vec::new();
    let mut i: usize = 0;
    while i < f.len()
        invariant
            vf == view_json_fields(f@),
            vf.len() == f@.len(),
            forall|k: int|
                0 <= k < f@.len() ==> vf[k] == (f@[k].0@, crate::json::view_json(f@[k].1)),
            i <= f@.len(),
            target@ == "device"@,
            view_json_fields(out@) == spec_map_top_fields(vf.take(i as int), keys.deep_view()),
        decreases f@.len() - i,
    {
        proof {
            assert(vf.take(i + 1).drop_last() =~= vf.take(i as int));
            assert(vf.take(i + 1).last() == vf[i as int]);
        }
        let entry = &f[i];
        let ghost out_before = out@;
        if entry.0 == target {
            out.push((entry.0.clone(), strip_device(&entry.1, keys)));
        } else {
            out.push((entry.0.clone(), entry.1.clone()));
        }
        proof {
            assert(out@.drop_last() =~= out_before);
        }
        i = i + 1;
    }
    proof {
        assert(vf.take(f@.len() as int) =~= vf);
    }
    out
}

/// The value at the nested path `device.backend.type`.
fn backend_type<'a>(j: &'a JsonValue) -> (r: Option<&'a JsonValue>)
    ensures
        match r {
            Some(v) => spec_backend_type(j@) == Some(v@),
            None => spec_backend_type(j@) is None,
        },
{
    let dkey = String::from_str("device");
    let bkey = String::from_str("backend");
    let tkey = String::from_str("type");
    match obj_get(j, &dkey) {
        Some(d) => match obj_get(d, &bkey) {
            Some(b) => obj_get(b, &tkey),
            None => None,
        },
        None => None,
    }
}

/// Washes an image backend config: erases the credential fields that the
/// config's `device.backend.type` condemns, as `spec_sanitize` says.
pub fn sanitize_image_config(cfg: &JsonValue) -> (r: JsonValue)
    ensures
        r@ == spec_sanitize(cfg@),
{
    let mut oss = false;
    let mut registry = false;
    match backend_type(cfg) {
        Some(v) => match v {
            JsonValue::Str(s) => {
                if *s == String::from_str("oss") {
                    oss = true;
                } else if *s == String::from_str("registry") {
                    registry = true;
                }
            },
            _ => {},
        },
        None => {},
    }
    let mut keys: Vec<String> = Vec::new();
    if oss {
        keys.push(String::from_str("access_key_id"));
        keys.push(String::from_str("access_key_secret"));
    } else if registry {
        keys.push(String::from_str("auth"));
        keys.push(String::from_str("registry_token"));
    }
    proof {
        assert(keys.deep_view() =~= spec_sanitize_keys(cfg@));
    }
    match cfg {
        JsonValue::Obj(f) => JsonValue::Obj(map_top_fields(f, &keys)),
        _ => cfg.clone(),
    }
}

} // verus!
