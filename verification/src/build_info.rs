//! The typed model of the external tool's JSON dependency report and its
//! decoder, encoder and name lookup.
//!
//! Field names and shapes follow the tool's build-info schema exactly: a
//! top-level object with environment info, user info, the dependency list,
//! settings and options.  A document that is not well-formed JSON, or that
//! misses a required field, decodes to nothing; only the `description` of a
//! dependency is optional.

use vstd::prelude::*;
use crate::json::{
    JsonValue, Json, json_view, json_view_list, json_view_obj, json_lookup, json_lookup_exec,
    lemma_json_view_list, lemma_json_view_obj, lemma_lookup_cons, is_str_list, str_list_of, is_str_map, str_map_of,
    is_str_list_map, str_list_map_of, is_str_map_map, str_map_map_of, parse_json, json_of,
};
use crate::strutil::str_eq;

verus! {

/// One resolved dependency of the report: its identity, roots, path lists
/// and flag lists, each list in the report's order.
#[derive(Debug, PartialEq)]
pub struct DependencyInfo {
    pub name: String,
    pub version: String,
    pub description: Option<String>,
    pub rootpath: String,
    pub sysroot: String,
    pub include_paths: Vec<String>,
    pub lib_paths: Vec<String>,
    pub bin_paths: Vec<String>,
    pub build_paths: Vec<String>,
    pub res_paths: Vec<String>,
    pub libs: Vec<String>,
    pub system_libs: Vec<String>,
    pub defines: Vec<String>,
    pub cflags: Vec<String>,
    pub cxxflags: Vec<String>,
    pub sharedlinkflags: Vec<String>,
    pub exelinkflags: Vec<String>,
    pub frameworks: Vec<String>,
    pub framework_paths: Vec<String>,
    pub cppflags: Vec<String>,
}

/// The mathematical value of a [`DependencyInfo`].
#[verifier::ext_equal]
pub ghost struct DependencyInfoView {
    pub name: Seq<char>,
    pub version: Seq<char>,
    pub description: Option<Seq<char>>,
    pub rootpath: Seq<char>,
    pub sysroot: Seq<char>,
    pub include_paths: Seq<Seq<char>>,
    pub lib_paths: Seq<Seq<char>>,
    pub bin_paths: Seq<Seq<char>>,
    pub build_paths: Seq<Seq<char>>,
    pub res_paths: Seq<Seq<char>>,
    pub libs: Seq<Seq<char>>,
    pub system_libs: Seq<Seq<char>>,
    pub defines: Seq<Seq<char>>,
    pub cflags: Seq<Seq<char>>,
    pub cxxflags: Seq<Seq<char>>,
    pub sharedlinkflags: Seq<Seq<char>>,
    pub exelinkflags: Seq<Seq<char>>,
    pub frameworks: Seq<Seq<char>>,
    pub framework_paths: Seq<Seq<char>>,
    pub cppflags: Seq<Seq<char>>,
}

impl View for DependencyInfo {
    type V = DependencyInfoView;

    open spec fn view(&self) -> DependencyInfoView {
        DependencyInfoView {
            name: self.name@,
            version: self.version@,
            description: self.description.deep_view(),
            rootpath: self.rootpath@,
            sysroot: self.sysroot@,
            include_paths: self.include_paths.deep_view(),
            lib_paths: self.lib_paths.deep_view(),
            bin_paths: self.bin_paths.deep_view(),
            build_paths: self.build_paths.deep_view(),
            res_paths: self.res_paths.deep_view(),
            libs: self.libs.deep_view(),
            system_libs: self.system_libs.deep_view(),
            defines: self.defines.deep_view(),
            cflags: self.cflags.deep_view(),
            cxxflags: self.cxxflags.deep_view(),
            sharedlinkflags: self.sharedlinkflags.deep_view(),
            exelinkflags: self.exelinkflags.deep_view(),
            frameworks: self.frameworks.deep_view(),
            framework_paths: self.framework_paths.deep_view(),
            cppflags: self.cppflags.deep_view(),
        }
    }
}

impl DeepView for DependencyInfo {
    type V = DependencyInfoView;

    open spec fn deep_view(&self) -> DependencyInfoView {
        self.view()
    }
}

/// The whole dependency report: environment info, user info, the ordered
/// dependency list, settings and options.
#[derive(Debug, PartialEq)]
pub struct ConanBuildInfo {
    pub deps_env_info: Vec<(String, Vec<String>)>,
    pub deps_user_info: Vec<(String, Vec<(String, String)>)>,
    pub dependencies: Vec<DependencyInfo>,
    pub settings: Vec<(String, String)>,
    pub options: Vec<(String, Vec<(String, String)>)>,
}

/// The mathematical value of a [`ConanBuildInfo`].
#[verifier::ext_equal]
pub ghost struct ConanBuildInfoView {
    pub deps_env_info: Seq<(Seq<char>, Seq<Seq<char>>)>,
    pub deps_user_info: Seq<(Seq<char>, Seq<(Seq<char>, Seq<char>)>)>,
    pub dependencies: Seq<DependencyInfoView>,
    pub settings: Seq<(Seq<char>, Seq<char>)>,
    pub options: Seq<(Seq<char>, Seq<(Seq<char>, Seq<char>)>)>,
}

impl View for ConanBuildInfo {
    type V = ConanBuildInfoView;

    open spec fn view(&self) -> ConanBuildInfoView {
        ConanBuildInfoView {
            deps_env_info: self.deps_env_info.deep_view(),
            deps_user_info: self.deps_user_info.deep_view(),
            dependencies: self.dependencies.deep_view(),
            settings: self.settings.deep_view(),
            options: self.options.deep_view(),
        }
    }
}

impl DeepView for ConanBuildInfo {
    type V = ConanBuildInfoView;

    open spec fn deep_view(&self) -> ConanBuildInfoView {
        self.view()
    }
}

/// The entries under `k` hold a string.
pub open spec fn has_str(e: Seq<(Seq<char>, Json)>, k: Seq<char>) -> bool {
    json_lookup(e, k) matches Some(Json::Str(_))
}

/// The string under `k`.
pub open spec fn str_at(e: Seq<(Seq<char>, Json)>, k: Seq<char>) -> Seq<char> {
    json_lookup(e, k)->0->Str_0
}

/// The entry under `k` holds a string array.
pub open spec fn has_list(e: Seq<(Seq<char>, Json)>, k: Seq<char>) -> bool {
    match json_lookup(e, k) {
        Some(v) => is_str_list(v),
        None => false,
    }
}

/// The string array under `k`.
pub open spec fn list_at(e: Seq<(Seq<char>, Json)>, k: Seq<char>) -> Seq<Seq<char>> {
    str_list_of(json_lookup(e, k)->0)
}

/// The entry under `k` holds a string-valued object.
pub open spec fn has_map(e: Seq<(Seq<char>, Json)>, k: Seq<char>) -> bool {
    match json_lookup(e, k) {
        Some(v) => is_str_map(v),
        None => false,
    }
}

/// The string map under `k`.
pub open spec fn map_at(e: Seq<(Seq<char>, Json)>, k: Seq<char>) -> Seq<(Seq<char>, Seq<char>)> {
    str_map_of(json_lookup(e, k)->0)
}

/// The entry under `k` holds an object of string arrays.
pub open spec fn has_list_map(e: Seq<(Seq<char>, Json)>, k: Seq<char>) -> bool {
    match json_lookup(e, k) {
        Some(v) => is_str_list_map(v),
        None => false,
    }
}

/// The map of string arrays under `k`.
pub open spec fn list_map_at(e: Seq<(Seq<char>, Json)>, k: Seq<char>) -> Seq<
    (Seq<char>, Seq<Seq<char>>),
> {
    str_list_map_of(json_lookup(e, k)->0)
}

/// The entry under `k` holds an object of string maps.
pub open spec fn has_map_map(e: Seq<(Seq<char>, Json)>, k: Seq<char>) -> bool {
    match json_lookup(e, k) {
        Some(v) => is_str_map_map(v),
        None => false,
    }
}

/// The map of string maps under `k`.
pub open spec fn map_map_at(e: Seq<(Seq<char>, Json)>, k: Seq<char>) -> Seq<
    (Seq<char>, Seq<(Seq<char>, Seq<char>)>),
> {
    str_map_map_of(json_lookup(e, k)->0)
}

/// The optional `description` entry is absent or holds a string.
pub open spec fn desc_ok(e: Seq<(Seq<char>, Json)>) -> bool {
    match json_lookup(e, "description"@) {
        None => true,
        Some(v) => v is Str,
    }
}

/// The optional description, when one is present.
pub open spec fn desc_at(e: Seq<(Seq<char>, Json)>) -> Option<Seq<char>> {
    match json_lookup(e, "description"@) {
        None => None,
        Some(v) => Some(v->Str_0),
    }
}

/// The JSON value is a well-shaped dependency record of the schema.
pub open spec fn spec_dep_ok(v: Json) -> bool {
    &&& v is Obj
    &&& has_str(v->Obj_0, "name"@)
    &&& has_str(v->Obj_0, "version"@)
    &&& desc_ok(v->Obj_0)
    &&& has_str(v->Obj_0, "rootpath"@)
    &&& has_str(v->Obj_0, "sysroot"@)
    &&& has_list(v->Obj_0, "include_paths"@)
    &&& has_list(v->Obj_0, "lib_paths"@)
    &&& has_list(v->Obj_0, "bin_paths"@)
    &&& has_list(v->Obj_0, "build_paths"@)
    &&& has_list(v->Obj_0, "res_paths"@)
    &&& has_list(v->Obj_0, "libs"@)
    &&& has_list(v->Obj_0, "system_libs"@)
    &&& has_list(v->Obj_0, "defines"@)
    &&& has_list(v->Obj_0, "cflags"@)
    &&& has_list(v->Obj_0, "cxxflags"@)
    &&& has_list(v->Obj_0, "sharedlinkflags"@)
    &&& has_list(v->Obj_0, "exelinkflags"@)
    &&& has_list(v->Obj_0, "frameworks"@)
    &&& has_list(v->Obj_0, "framework_paths"@)
    &&& has_list(v->Obj_0, "cppflags"@)
}

/// The dependency record a well-shaped JSON value decodes to.
pub open spec fn spec_dep_of(v: Json) -> DependencyInfoView {
    DependencyInfoView {
        name: str_at(v->Obj_0, "name"@),
        version: str_at(v->Obj_0, "version"@),
        description: desc_at(v->Obj_0),
        rootpath: str_at(v->Obj_0, "rootpath"@),
        sysroot: str_at(v->Obj_0, "sysroot"@),
        include_paths: list_at(v->Obj_0, "include_paths"@),
        lib_paths: list_at(v->Obj_0, "lib_paths"@),
        bin_paths: list_at(v->Obj_0, "bin_paths"@),
        build_paths: list_at(v->Obj_0, "build_paths"@),
        res_paths: list_at(v->Obj_0, "res_paths"@),
        libs: list_at(v->Obj_0, "libs"@),
        system_libs: list_at(v->Obj_0, "system_libs"@),
        defines: list_at(v->Obj_0, "defines"@),
        cflags: list_at(v->Obj_0, "cflags"@),
        cxxflags: list_at(v->Obj_0, "cxxflags"@),
        sharedlinkflags: list_at(v->Obj_0, "sharedlinkflags"@),
        exelinkflags: list_at(v->Obj_0, "exelinkflags"@),
        frameworks: list_at(v->Obj_0, "frameworks"@),
        framework_paths: list_at(v->Obj_0, "framework_paths"@),
        cppflags: list_at(v->Obj_0, "cppflags"@),
    }
}

/// The JSON value is a well-shaped dependency report of the schema.
pub open spec fn spec_build_info_ok(v: Json) -> bool {
    &&& v is Obj
    &&& has_list_map(v->Obj_0, "deps_env_info"@)
    &&& has_map_map(v->Obj_0, "deps_user_info"@)
    &&& (match json_lookup(v->Obj_0, "dependencies"@) {
        Some(d) => d is Arr && forall|i: int|
            0 <= i < d->Arr_0.len() ==> spec_dep_ok(#[trigger] d->Arr_0[i]),
        None => false,
    })
    &&& has_map(v->Obj_0, "settings"@)
    &&& has_map_map(v->Obj_0, "options"@)
}

/// The dependency report a well-shaped JSON value decodes to.
pub open spec fn spec_build_info_of(v: Json) -> ConanBuildInfoView {
    let d = json_lookup(v->Obj_0, "dependencies"@)->0;
    ConanBuildInfoView {
        deps_env_info: list_map_at(v->Obj_0, "deps_env_info"@),
        deps_user_info: map_map_at(v->Obj_0, "deps_user_info"@),
        dependencies: Seq::new(d->Arr_0.len(), |i: int| spec_dep_of(d->Arr_0[i])),
        settings: map_at(v->Obj_0, "settings"@),
        options: map_map_at(v->Obj_0, "options"@),
    }
}

/// What a JSON value decodes to under the build-info schema: the report for
/// a well-shaped value, nothing for any other.
pub open spec fn spec_decode_build_info(v: Json) -> Option<ConanBuildInfoView> {
    if spec_build_info_ok(v) {
        Some(spec_build_info_of(v))
    } else {
        None
    }
}

/// The string content of a JSON value, when it is a string.
fn decode_str(v: &JsonValue) -> (r: Option<String>)
    ensures
        match r {
            Some(s) => v@ == Json::Str(s@),
            None => !(v@ is Str),
        },
{
    match v {
        JsonValue::Str(s) => Some(s.clone()),
        _ => None,
    }
}

/// The strings of a JSON value, when it is an array of strings.
fn decode_str_list(v: &JsonValue) -> (r: Option<Vec<String>>)
    ensures
        match r {
            Some(l) => is_str_list(v@) && l.deep_view() == str_list_of(v@),
            None => !is_str_list(v@),
        },
{
    match v {
        JsonValue::Arr(a) => {
            proof {
                lemma_json_view_list(a@);
            }
            let ghost jv = json_view_list(a@);
            let n = a.len();
            let mut out: Vec<String> = Vec::new();
            let mut i: usize = 0;
            while i < n
                invariant
                    n == a@.len(),
                    i <= n,
                    jv == json_view_list(a@),
                    jv.len() == n,
                    forall|q: int| 0 <= q < n ==> jv[q] == json_view(#[trigger] a@[q]),
                    v@ == Json::Arr(jv),
                    out@.len() == i,
                    forall|q: int| 0 <= q < i ==> #[trigger] jv[q] is Str,
                    forall|q: int| 0 <= q < i ==> #[trigger] out.deep_view()[q] == jv[q]->Str_0,
                decreases n - i,
            {
                match &a[i] {
                    JsonValue::Str(s) => {
                        let ghost pre = out.deep_view();
                        out.push(s.clone());
                        proof {
                            assert(out.deep_view() =~= pre.push(s@));
                        }
                    },
                    _ => {
                        proof {
                            assert(!(jv[i as int] is Str));
                        }
                        return None;
                    },
                }
                i += 1;
            }
            proof {
                assert(is_str_list(v@));
                assert(out.deep_view() =~= str_list_of(v@));
            }
            Some(out)
        },
        _ => None,
    }
}

/// The key/string pairs of a JSON value, when it is an object of strings.
fn decode_str_map(v: &JsonValue) -> (r: Option<Vec<(String, String)>>)
    ensures
        match r {
            Some(m) => is_str_map(v@) && m.deep_view() == str_map_of(v@),
            None => !is_str_map(v@),
        },
{
    match v {
        JsonValue::Obj(e) => {
            proof {
                lemma_json_view_obj(e@);
            }
            let ghost jv = json_view_obj(e@);
            let n = e.len();
            let mut out: Vec<(String, String)> = Vec::new();
            let mut i: usize = 0;
            while i < n
                invariant
                    n == e@.len(),
                    i <= n,
                    jv == json_view_obj(e@),
                    jv.len() == n,
                    forall|q: int|
                        0 <= q < n ==> jv[q] == ((#[trigger] e@[q]).0@, json_view(e@[q].1)),
                    v@ == Json::Obj(jv),
                    out@.len() == i,
                    forall|q: int| 0 <= q < i ==> (#[trigger] jv[q]).1 is Str,
                    forall|q: int|
                        0 <= q < i ==> #[trigger] out.deep_view()[q] == (jv[q].0, jv[q].1->Str_0),
                decreases n - i,
            {
                match &e[i].1 {
                    JsonValue::Str(s) => {
                        let ghost pre = out.deep_view();
                        out.push((e[i].0.clone(), s.clone()));
                        proof {
                            assert(out.deep_view() =~= pre.push((e@[i as int].0@, s@)));
                        }
                    },
                    _ => {
                        proof {
                            assert(!(jv[i as int].1 is Str));
                        }
                        return None;
                    },
                }
                i += 1;
            }
            proof {
                assert(is_str_map(v@));
                assert(out.deep_view() =~= str_map_of(v@));
            }
            Some(out)
        },
        _ => None,
    }
}

/// The key/list pairs of a JSON value, when it is an object of string
/// arrays.
fn decode_str_list_map(v: &JsonValue) -> (r: Option<Vec<(String, Vec<String>)>>)
    ensures
        match r {
            Some(m) => is_str_list_map(v@) && m.deep_view() == str_list_map_of(v@),
            None => !is_str_list_map(v@),
        },
{
    match v {
        JsonValue::Obj(e) => {
            proof {
                lemma_json_view_obj(e@);
            }
            let ghost jv = json_view_obj(e@);
            let n = e.len();
            let mut out: Vec<(String, Vec<String>)> = Vec::new();
            let mut i: usize = 0;
            while i < n
                invariant
                    n == e@.len(),
                    i <= n,
                    jv == json_view_obj(e@),
                    jv.len() == n,
                    forall|q: int|
                        0 <= q < n ==> jv[q] == ((#[trigger] e@[q]).0@, json_view(e@[q].1)),
                    v@ == Json::Obj(jv),
                    out@.len() == i,
                    forall|q: int| 0 <= q < i ==> is_str_list((#[trigger] jv[q]).1),
                    forall|q: int|
                        0 <= q < i ==> #[trigger] out.deep_view()[q] == (
                        jv[q].0,
                        str_list_of(jv[q].1),
                        ),
                decreases n - i,
            {
                match decode_str_list(&e[i].1) {
                    Some(l) => {
                        let ghost pre = out.deep_view();
                        let ghost ldv = l.deep_view();
                        out.push((e[i].0.clone(), l));
                        proof {
                            assert(out.deep_view() =~= pre.push((e@[i as int].0@, ldv)));
                        }
                    },
                    None => {
                        proof {
                            assert(v@->Obj_0 == jv);
                            assert(!is_str_list((v@->Obj_0[i as int]).1));
                            assert(!is_str_list_map(v@));
                        }
                        return None;
                    },
                }
                i += 1;
            }
            proof {
                assert(is_str_list_map(v@));
                assert(out.deep_view() =~= str_list_map_of(v@));
            }
            Some(out)
        },
        _ => None,
    }
}

/// The key/map pairs of a JSON value, when it is an object of string maps.
fn decode_str_map_map(v: &JsonValue) -> (r: Option<Vec<(String, Vec<(String, String)>)>>)
    ensures
        match r {
            Some(m) => is_str_map_map(v@) && m.deep_view() == str_map_map_of(v@),
            None => !is_str_map_map(v@),
        },
{
    match v {
        JsonValue::Obj(e) => {
            proof {
                lemma_json_view_obj(e@);
            }
            let ghost jv = json_view_obj(e@);
            let n = e.len();
            let mut out: Vec<(String, Vec<(String, String)>)> = Vec::new();
            let mut i: usize = 0;
            while i < n
                invariant
                    n == e@.len(),
                    i <= n,
                    jv == json_view_obj(e@),
                    jv.len() == n,
                    forall|q: int|
                        0 <= q < n ==> jv[q] == ((#[trigger] e@[q]).0@, json_view(e@[q].1)),
                    v@ == Json::Obj(jv),
                    out@.len() == i,
                    forall|q: int| 0 <= q < i ==> is_str_map((#[trigger] jv[q]).1),
                    forall|q: int|
                        0 <= q < i ==> #[trigger] out.deep_view()[q] == (
                        jv[q].0,
                        str_map_of(jv[q].1),
                        ),
                decreases n - i,
            {
                match decode_str_map(&e[i].1) {
                    Some(m) => {
                        let ghost pre = out.deep_view();
                        let ghost mdv = m.deep_view();
                        out.push((e[i].0.clone(), m));
                        proof {
                            assert(out.deep_view() =~= pre.push((e@[i as int].0@, mdv)));
                        }
                    },
                    None => {
                        proof {
                            assert(v@->Obj_0 == jv);
                            assert(!is_str_map((v@->Obj_0[i as int]).1));
                            assert(!is_str_map_map(v@));
                        }
                        return None;
                    },
                }
                i += 1;
            }
            proof {
                assert(is_str_map_map(v@));
                assert(out.deep_view() =~= str_map_map_of(v@));
            }
            Some(out)
        },
        _ => None,
    }
}

/// The string under `key` among an object's entries, when there is one.
fn get_string(entries: &Vec<(String, JsonValue)>, key: &str) -> (r: Option<String>)
    ensures
        match r {
            Some(s) => has_str(json_view_obj(entries@), key@) && s@ == str_at(
                json_view_obj(entries@),
                key@,
            ),
            None => !has_str(json_view_obj(entries@), key@),
        },
{
    match json_lookup_exec(entries, key) {
        Some(v) => decode_str(v),
        None => None,
    }
}

/// The string array under `key` among an object's entries, when there is
/// one.
fn get_string_list(entries: &Vec<(String, JsonValue)>, key: &str) -> (r: Option<Vec<String>>)
    ensures
        match r {
            Some(l) => has_list(json_view_obj(entries@), key@) && l.deep_view() == list_at(
                json_view_obj(entries@),
                key@,
            ),
            None => !has_list(json_view_obj(entries@), key@),
        },
{
    match json_lookup_exec(entries, key) {
        Some(v) => decode_str_list(v),
        None => None,
    }
}

/// Decodes one dependency record of the schema.
fn decode_dependency(v: &JsonValue) -> (r: Option<DependencyInfo>)
    ensures
        match r {
            Some(d) => spec_dep_ok(v@) && d@ == spec_dep_of(v@),
            None => !spec_dep_ok(v@),
        },
{
    match v {
        JsonValue::Obj(entries) => {
            let name = match get_string(entries, "name") {
                Some(s) => s,
                None => {
                    return None;
                },
            };
            let version = match get_string(entries, "version") {
                Some(s) => s,
                None => {
                    return None;
                },
            };
            let description = match json_lookup_exec(entries, "description") {
                None => None,
                Some(x) => match decode_str(x) {
                    Some(s) => Some(s),
                    None => {
                        return None;
                    },
                },
            };
            let rootpath = match get_string(entries, "rootpath") {
                Some(s) => s,
                None => {
                    return None;
                },
            };
            let sysroot = match get_string(entries, "sysroot") {
                Some(s) => s,
                None => {
                    return None;
                },
            };
            let include_paths = match get_string_list(entries, "include_paths") {
                Some(l) => l,
                None => {
                    return None;
                },
            };
            let lib_paths = match get_string_list(entries, "lib_paths") {
                Some(l) => l,
                None => {
                    return None;
                },
            };
            let bin_paths = match get_string_list(entries, "bin_paths") {
                Some(l) => l,
                None => {
                    return None;
                },
            };
            let build_paths = match get_string_list(entries, "build_paths") {
                Some(l) => l,
                None => {
                    return None;
                },
            };
            let res_paths = match get_string_list(entries, "res_paths") {
                Some(l) => l,
                None => {
                    return None;
                },
            };
            let libs = match get_string_list(entries, "libs") {
                Some(l) => l,
                None => {
                    return None;
                },
            };
            let system_libs = match get_string_list(entries, "system_libs") {
                Some(l) => l,
                None => {
                    return None;
                },
            };
            let defines = match get_string_list(entries, "defines") {
                Some(l) => l,
                None => {
                    return None;
                },
            };
            let cflags = match get_string_list(entries, "cflags") {
                Some(l) => l,
                None => {
                    return None;
                },
            };
            let cxxflags = match get_string_list(entries, "cxxflags") {
                Some(l) => l,
                None => {
                    return None;
                },
            };
            let sharedlinkflags = match get_string_list(entries, "sharedlinkflags") {
                Some(l) => l,
                None => {
                    return None;
                },
            };
            let exelinkflags = match get_string_list(entries, "exelinkflags") {
                Some(l) => l,
                None => {
                    return None;
                },
            };
            let frameworks = match get_string_list(entries, "frameworks") {
                Some(l) => l,
                None => {
                    return None;
                },
            };
            let framework_paths = match get_string_list(entries, "framework_paths") {
                Some(l) => l,
                None => {
                    return None;
                },
            };
            let cppflags = match get_string_list(entries, "cppflags") {
                Some(l) => l,
                None => {
                    return None;
                },
            };
            let d = DependencyInfo {
                name,
                version,
                description,
                rootpath,
                sysroot,
                include_paths,
                lib_paths,
                bin_paths,
                build_paths,
                res_paths,
                libs,
                system_libs,
                defines,
                cflags,
                cxxflags,
                sharedlinkflags,
                exelinkflags,
                frameworks,
                framework_paths,
                cppflags,
            };
            proof {
                assert(d@ =~= spec_dep_of(v@));
            }
            Some(d)
        },
        _ => None,
    }
}

impl ConanBuildInfo {
    /// Decodes the report from a JSON document's text.  The result is
    /// absent exactly when the text is not well-formed JSON or the document
    /// is not a well-shaped report.
    pub fn create_from_json(json_content: &str) -> (r: Option<ConanBuildInfo>)
        ensures
            match json_of(json_content@) {
                None => r is None,
                Some(doc) => match r {
                    Some(b) => spec_decode_build_info(doc) == Some(b@),
                    None => spec_decode_build_info(doc) is None,
                },
            },
    {
        match parse_json(json_content) {
            Some(v) => decode_build_info(&v),
            None => None,
        }
    }

    /// Decodes the report from a JSON value in the schema's shape.
    pub fn from_json_value(v: &JsonValue) -> (r: Option<ConanBuildInfo>)
        ensures
            match r {
                Some(b) => spec_decode_build_info(v@) == Some(b@),
                None => spec_decode_build_info(v@) is None,
            },
    {
        decode_build_info(v)
    }

    /// The first dependency with the given name, in the report's order;
    /// the match is exact and case-sensitive, and absence means no
    /// dependency has the name.
    pub fn find_dependency<'a>(&'a self, name: &str) -> (r: Option<&'a DependencyInfo>)
        ensures
            match r {
                Some(d) => spec_find_dependency(self.dependencies.deep_view(), name@) == Some(d@),
                None => spec_find_dependency(self.dependencies.deep_view(), name@) is None,
            },
    {
        let ghost dv = self.dependencies.deep_view();
        proof {
            assert(dv.subrange(0, dv.len() as int) =~= dv);
        }
        let n = self.dependencies.len();
        let mut i: usize = 0;
        while i < n
            invariant
                n == self.dependencies@.len(),
                i <= n,
                dv == self.dependencies.deep_view(),
                dv.len() == n,
                spec_find_dependency(dv, name@) == spec_find_dependency(
                    dv.subrange(i as int, n as int),
                    name@,
                ),
            decreases n - i,
        {
            let ghost rem = dv.subrange(i as int, n as int);
            proof {
                assert(rem[0] == dv[i as int]);
                assert(rem.drop_first() =~= dv.subrange(i as int + 1, n as int));
            }
            if str_eq(self.dependencies[i].name.as_str(), name) {
                return Some(&self.dependencies[i]);
            }
            i += 1;
        }
        proof {
            assert(dv.subrange(n as int, n as int).len() == 0);
        }
        None
    }
}

/// The first dependency record with the given name, in list order.
pub open spec fn spec_find_dependency(deps: Seq<DependencyInfoView>, name: Seq<char>) -> Option<
    DependencyInfoView,
>
    decreases deps.len(),
{
    if deps.len() == 0 {
        None
    } else if deps[0].name == name {
        Some(deps[0])
    } else {
        spec_find_dependency(deps.drop_first(), name)
    }
}

/// Decodes the whole report from a JSON value.
fn decode_build_info(v: &JsonValue) -> (r: Option<ConanBuildInfo>)
    ensures
        match r {
            Some(b) => spec_decode_build_info(v@) == Some(b@),
            None => spec_decode_build_info(v@) is None,
        },
{
    match v {
        JsonValue::Obj(entries) => {
            let ghost e = json_view_obj(entries@);
            let deps_env_info = match json_lookup_exec(entries, "deps_env_info") {
                Some(x) => match decode_str_list_map(x) {
                    Some(m) => m,
                    None => {
                        return None;
                    },
                },
                None => {
                    return None;
                },
            };
            let deps_user_info = match json_lookup_exec(entries, "deps_user_info") {
                Some(x) => match decode_str_map_map(x) {
                    Some(m) => m,
                    None => {
                        return None;
                    },
                },
                None => {
                    return None;
                },
            };
            let deps_json = match json_lookup_exec(entries, "dependencies") {
                Some(x) => x,
                None => {
                    return None;
                },
            };
            let dependencies = match deps_json {
                JsonValue::Arr(a) => {
                    proof {
                        lemma_json_view_list(a@);
                    }
                    let ghost jv = json_view_list(a@);
                    proof {
                        assert(deps_json@ == Json::Arr(jv));
                    }
                    let dn = a.len();
                    let mut out: Vec<DependencyInfo> = Vec::new();
                    let mut i: usize = 0;
                    while i < dn
                        invariant
                            dn == a@.len(),
                            i <= dn,
                            jv == json_view_list(a@),
                            jv.len() == dn,
                            deps_json@ == Json::Arr(jv),
                            v@ == Json::Obj(e),
                            json_lookup(e, "dependencies"@) == Some(deps_json@),
                            forall|q: int| 0 <= q < dn ==> jv[q] == json_view(#[trigger] a@[q]),
                            out@.len() == i,
                            forall|q: int| 0 <= q < i ==> spec_dep_ok(#[trigger] jv[q]),
                            forall|q: int|
                                0 <= q < i ==> #[trigger] out.deep_view()[q] == spec_dep_of(jv[q]),
                        decreases dn - i,
                    {
                        match decode_dependency(&a[i]) {
                            Some(d) => {
                                let ghost pre = out.deep_view();
                                let ghost ddv = d@;
                                out.push(d);
                                proof {
                                    assert(out.deep_view() =~= pre.push(ddv));
                                }
                            },
                            None => {
                                proof {
                                    assert(v@ == Json::Obj(e));
                                    assert(json_lookup(v@->Obj_0, "dependencies"@) == Some(
                                        deps_json@,
                                    ));
                                    assert(!spec_dep_ok(deps_json@->Arr_0[i as int]));
                                    assert(!spec_build_info_ok(v@));
                                }
                                return None;
                            },
                        }
                        i += 1;
                    }
                    out
                },
                _ => {
                    return None;
                },
            };
            let settings = match json_lookup_exec(entries, "settings") {
                Some(x) => match decode_str_map(x) {
                    Some(m) => m,
                    None => {
                        return None;
                    },
                },
                None => {
                    return None;
                },
            };
            let options = match json_lookup_exec(entries, "options") {
                Some(x) => match decode_str_map_map(x) {
                    Some(m) => m,
                    None => {
                        return None;
                    },
                },
                None => {
                    return None;
                },
            };
            let b = ConanBuildInfo { deps_env_info, deps_user_info, dependencies, settings, options };
            proof {
                assert(spec_build_info_ok(v@));
                assert(b@ =~= spec_build_info_of(v@));
            }
            Some(b)
        },
        _ => None,
    }
}

/// A string list in the schema's JSON shape.
pub open spec fn enc_str_list(l: Seq<Seq<char>>) -> Json {
    Json::Arr(Seq::new(l.len(), |i: int| Json::Str(l[i])))
}

/// A string map in the schema's JSON shape.
pub open spec fn enc_str_map(m: Seq<(Seq<char>, Seq<char>)>) -> Json {
    Json::Obj(Seq::new(m.len(), |i: int| (m[i].0, Json::Str(m[i].1))))
}

/// A map of string lists in the schema's JSON shape.
pub open spec fn enc_str_list_map(m: Seq<(Seq<char>, Seq<Seq<char>>)>) -> Json {
    Json::Obj(Seq::new(m.len(), |i: int| (m[i].0, enc_str_list(m[i].1))))
}

/// A map of string maps in the schema's JSON shape.
pub open spec fn enc_str_map_map(m: Seq<(Seq<char>, Seq<(Seq<char>, Seq<char>)>)>) -> Json {
    Json::Obj(Seq::new(m.len(), |i: int| (m[i].0, enc_str_map(m[i].1))))
}

/// A dependency record in the schema's JSON shape; an absent description
/// is omitted rather than written as null.
pub open spec fn spec_encode_dep(d: DependencyInfoView) -> Json {
    Json::Obj(
        seq![
            ("name"@, Json::Str(d.name)),
            ("version"@, Json::Str(d.version)),
            ("rootpath"@, Json::Str(d.rootpath)),
            ("sysroot"@, Json::Str(d.sysroot)),
            ("include_paths"@, enc_str_list(d.include_paths)),
            ("lib_paths"@, enc_str_list(d.lib_paths)),
            ("bin_paths"@, enc_str_list(d.bin_paths)),
            ("build_paths"@, enc_str_list(d.build_paths)),
            ("res_paths"@, enc_str_list(d.res_paths)),
            ("libs"@, enc_str_list(d.libs)),
            ("system_libs"@, enc_str_list(d.system_libs)),
            ("defines"@, enc_str_list(d.defines)),
            ("cflags"@, enc_str_list(d.cflags)),
            ("cxxflags"@, enc_str_list(d.cxxflags)),
            ("sharedlinkflags"@, enc_str_list(d.sharedlinkflags)),
            ("exelinkflags"@, enc_str_list(d.exelinkflags)),
            ("frameworks"@, enc_str_list(d.frameworks)),
            ("framework_paths"@, enc_str_list(d.framework_paths)),
            ("cppflags"@, enc_str_list(d.cppflags)),
        ] + (match d.description {
            Some(x) => seq![("description"@, Json::Str(x))],
            None => Seq::empty(),
        }),
    )
}

/// A whole report in the schema's JSON shape.
pub open spec fn spec_encode_build_info(b: ConanBuildInfoView) -> Json {
    Json::Obj(
        seq![
            ("deps_env_info"@, enc_str_list_map(b.deps_env_info)),
            ("deps_user_info"@, enc_str_map_map(b.deps_user_info)),
            (
                "dependencies"@,
                Json::Arr(
                    Seq::new(b.dependencies.len(), |i: int| spec_encode_dep(b.dependencies[i])),
                ),
            ),
            ("settings"@, enc_str_map(b.settings)),
            ("options"@, enc_str_map_map(b.options)),
        ],
    )
}

/// Builds the JSON shape of a string list.
fn encode_str_list(l: &Vec<String>) -> (r: JsonValue)
    ensures
        r@ == enc_str_list(l.deep_view()),
{
    let n = l.len();
    let mut out: Vec<JsonValue> = Vec::new();
    let mut i: usize = 0;
    while i < n
        invariant
            n == l@.len(),
            i <= n,
            out@.len() == i,
            forall|q: int|
                0 <= q < i ==> json_view(#[trigger] out@[q]) == Json::Str(l.deep_view()[q]),
        decreases n - i,
    {
        out.push(JsonValue::Str(l[i].clone()));
        i += 1;
    }
    proof {
        lemma_json_view_list(out@);
        assert forall|q: int| 0 <= q < out@.len() implies json_view_list(out@)[q] == enc_str_list(
            l.deep_view(),
        )->Arr_0[q] by {
            assert(json_view(out@[q]) == Json::Str(l.deep_view()[q]));
        }
        assert(json_view_list(out@) =~= enc_str_list(l.deep_view())->Arr_0);
    }
    JsonValue::Arr(out)
}

/// Builds the JSON shape of a string map.
fn encode_str_map(m: &Vec<(String, String)>) -> (r: JsonValue)
    ensures
        r@ == enc_str_map(m.deep_view()),
{
    let n = m.len();
    let mut out: Vec<(String, JsonValue)> = Vec::new();
    let mut i: usize = 0;
    while i < n
        invariant
            n == m@.len(),
            i <= n,
            out@.len() == i,
            forall|q: int|
                0 <= q < i ==> ((#[trigger] out@[q]).0@, json_view(out@[q].1)) == (
                m.deep_view()[q].0,
                Json::Str(m.deep_view()[q].1),
                ),
        decreases n - i,
    {
        out.push((m[i].0.clone(), JsonValue::Str(m[i].1.clone())));
        i += 1;
    }
    proof {
        lemma_json_view_obj(out@);
        assert forall|q: int| 0 <= q < out@.len() implies json_view_obj(out@)[q] == enc_str_map(
            m.deep_view(),
        )->Obj_0[q] by {
            assert(json_view_obj(out@)[q] == ((out@[q]).0@, json_view(out@[q].1)));
        }
        assert(json_view_obj(out@) =~= enc_str_map(m.deep_view())->Obj_0);
    }
    JsonValue::Obj(out)
}

/// Builds the JSON shape of a map of string lists.
fn encode_str_list_map(m: &Vec<(String, Vec<String>)>) -> (r: JsonValue)
    ensures
        r@ == enc_str_list_map(m.deep_view()),
{
    let n = m.len();
    let mut out: Vec<(String, JsonValue)> = Vec::new();
    let mut i: usize = 0;
    while i < n
        invariant
            n == m@.len(),
            i <= n,
            out@.len() == i,
            forall|q: int|
                0 <= q < i ==> ((#[trigger] out@[q]).0@, json_view(out@[q].1)) == (
                m.deep_view()[q].0,
                enc_str_list(m.deep_view()[q].1),
                ),
        decreases n - i,
    {
        let lv = encode_str_list(&m[i].1);
        out.push((m[i].0.clone(), lv));
        i += 1;
    }
    proof {
        lemma_json_view_obj(out@);
        assert forall|q: int| 0 <= q < out@.len() implies json_view_obj(out@)[q] == enc_str_list_map(
            m.deep_view(),
        )->Obj_0[q] by {
            assert(json_view_obj(out@)[q] == ((out@[q]).0@, json_view(out@[q].1)));
        }
        assert(json_view_obj(out@) =~= enc_str_list_map(m.deep_view())->Obj_0);
    }
    JsonValue::Obj(out)
}

/// Builds the JSON shape of a map of string maps.
fn encode_str_map_map(m: &Vec<(String, Vec<(String, String)>)>) -> (r: JsonValue)
    ensures
        r@ == enc_str_map_map(m.deep_view()),
{
    let n = m.len();
    let mut out: Vec<(String, JsonValue)> = Vec::new();
    let mut i: usize = 0;
    while i < n
        invariant
            n == m@.len(),
            i <= n,
            out@.len() == i,
            forall|q: int|
                0 <= q < i ==> ((#[trigger] out@[q]).0@, json_view(out@[q].1)) == (
                m.deep_view()[q].0,
                enc_str_map(m.deep_view()[q].1),
                ),
        decreases n - i,
    {
        let mv = encode_str_map(&m[i].1);
        out.push((m[i].0.clone(), mv));
        i += 1;
    }
    proof {
        lemma_json_view_obj(out@);
        assert forall|q: int| 0 <= q < out@.len() implies json_view_obj(out@)[q] == enc_str_map_map(
            m.deep_view(),
        )->Obj_0[q] by {
            assert(json_view_obj(out@)[q] == ((out@[q]).0@, json_view(out@[q].1)));
        }
        assert(json_view_obj(out@) =~= enc_str_map_map(m.deep_view())->Obj_0);
    }
    JsonValue::Obj(out)
}

impl DependencyInfo {
    /// This record in the schema's JSON shape.
    pub fn to_json(&self) -> (r: JsonValue)
        ensures
            r@ == spec_encode_dep(self@),
    {
        let mut out: Vec<(String, JsonValue)> = Vec::new();
        out.push((String::from_str("name"), JsonValue::Str(self.name.clone())));
        out.push((String::from_str("version"), JsonValue::Str(self.version.clone())));
        out.push((String::from_str("rootpath"), JsonValue::Str(self.rootpath.clone())));
        out.push((String::from_str("sysroot"), JsonValue::Str(self.sysroot.clone())));
        out.push((String::from_str("include_paths"), encode_str_list(&self.include_paths)));
        out.push((String::from_str("lib_paths"), encode_str_list(&self.lib_paths)));
        out.push((String::from_str("bin_paths"), encode_str_list(&self.bin_paths)));
        out.push((String::from_str("build_paths"), encode_str_list(&self.build_paths)));
        out.push((String::from_str("res_paths"), encode_str_list(&self.res_paths)));
        out.push((String::from_str("libs"), encode_str_list(&self.libs)));
        out.push((String::from_str("system_libs"), encode_str_list(&self.system_libs)));
        out.push((String::from_str("defines"), encode_str_list(&self.defines)));
        out.push((String::from_str("cflags"), encode_str_list(&self.cflags)));
        out.push((String::from_str("cxxflags"), encode_str_list(&self.cxxflags)));
        out.push((String::from_str("sharedlinkflags"), encode_str_list(&self.sharedlinkflags)));
        out.push((String::from_str("exelinkflags"), encode_str_list(&self.exelinkflags)));
        out.push((String::from_str("frameworks"), encode_str_list(&self.frameworks)));
        out.push((String::from_str("framework_paths"), encode_str_list(&self.framework_paths)));
        out.push((String::from_str("cppflags"), encode_str_list(&self.cppflags)));
        if let Some(d) = &self.description {
            out.push((String::from_str("description"), JsonValue::Str(d.clone())));
        }
        proof {
            lemma_json_view_obj(out@);
            assert forall|q: int| 0 <= q < out@.len() implies json_view_obj(out@)[q]
                == spec_encode_dep(self@)->Obj_0[q] by {
                assert(json_view_obj(out@)[q] == ((out@[q]).0@, json_view(out@[q].1)));
            }
            assert(json_view_obj(out@) =~= spec_encode_dep(self@)->Obj_0);
        }
        JsonValue::Obj(out)
    }
}

impl ConanBuildInfo {
    /// This report in the schema's JSON shape.
    pub fn to_json(&self) -> (r: JsonValue)
        ensures
            r@ == spec_encode_build_info(self@),
    {
        let mut deps: Vec<JsonValue> = Vec::new();
        let dn = self.dependencies.len();
        let mut i: usize = 0;
        while i < dn
            invariant
                dn == self.dependencies@.len(),
                i <= dn,
                deps@.len() == i,
                forall|q: int|
                    0 <= q < i ==> json_view(#[trigger] deps@[q]) == spec_encode_dep(
                        self.dependencies.deep_view()[q],
                    ),
            decreases dn - i,
        {
            let dj = self.dependencies[i].to_json();
            deps.push(dj);
            i += 1;
        }
        let mut out: Vec<(String, JsonValue)> = Vec::new();
        out.push((String::from_str("deps_env_info"), encode_str_list_map(&self.deps_env_info)));
        out.push((String::from_str("deps_user_info"), encode_str_map_map(&self.deps_user_info)));
        proof {
            lemma_json_view_list(deps@);
            assert forall|q: int| 0 <= q < deps@.len() implies json_view_list(deps@)[q] == Seq::new(
                self.dependencies.deep_view().len(),
                |t: int| spec_encode_dep(self.dependencies.deep_view()[t]),
            )[q] by {
                assert(json_view(deps@[q]) == spec_encode_dep(self.dependencies.deep_view()[q]));
            }
            assert(json_view_list(deps@) =~= Seq::new(
                self.dependencies.deep_view().len(),
                |q: int| spec_encode_dep(self.dependencies.deep_view()[q]),
            ));
        }
        out.push((String::from_str("dependencies"), JsonValue::Arr(deps)));
        out.push((String::from_str("settings"), encode_str_map(&self.settings)));
        out.push((String::from_str("options"), encode_str_map_map(&self.options)));
        proof {
            lemma_json_view_obj(out@);
            assert forall|q: int| 0 <= q < out@.len() implies json_view_obj(out@)[q]
                == spec_encode_build_info(self@)->Obj_0[q] by {
                assert(json_view_obj(out@)[q] == ((out@[q]).0@, json_view(out@[q].1)));
            }
            assert(json_view_obj(out@) =~= spec_encode_build_info(self@)->Obj_0);
        }
        JsonValue::Obj(out)
    }
}

/// Encoding a string list and reading it back yields the same list.
pub proof fn lemma_str_list_round_trip(l: Seq<Seq<char>>)
    ensures
        is_str_list(enc_str_list(l)),
        str_list_of(enc_str_list(l)) == l,
{
    assert(str_list_of(enc_str_list(l)) =~= l);
}

/// Encoding a string map and reading it back yields the same entries.
pub proof fn lemma_str_map_round_trip(m: Seq<(Seq<char>, Seq<char>)>)
    ensures
        is_str_map(enc_str_map(m)),
        str_map_of(enc_str_map(m)) == m,
{
    assert(str_map_of(enc_str_map(m)) =~= m);
}

/// Encoding a map of string lists and reading it back yields the same
/// entries.
pub proof fn lemma_str_list_map_round_trip(m: Seq<(Seq<char>, Seq<Seq<char>>)>)
    ensures
        is_str_list_map(enc_str_list_map(m)),
        str_list_map_of(enc_str_list_map(m)) == m,
{
    assert forall|i: int| 0 <= i < m.len() implies is_str_list(
        (#[trigger] enc_str_list_map(m)->Obj_0[i]).1,
    ) by {
        lemma_str_list_round_trip(m[i].1);
    }
    assert forall|i: int| 0 <= i < m.len() implies str_list_map_of(enc_str_list_map(m))[i]
        == m[i] by {
        lemma_str_list_round_trip(m[i].1);
    }
    assert(str_list_map_of(enc_str_list_map(m)) =~= m);
}

/// Encoding a map of string maps and reading it back yields the same
/// entries.
pub proof fn lemma_str_map_map_round_trip(m: Seq<(Seq<char>, Seq<(Seq<char>, Seq<char>)>)>)
    ensures
        is_str_map_map(enc_str_map_map(m)),
        str_map_map_of(enc_str_map_map(m)) == m,
{
    assert forall|i: int| 0 <= i < m.len() implies is_str_map(
        (#[trigger] enc_str_map_map(m)->Obj_0[i]).1,
    ) by {
        lemma_str_map_round_trip(m[i].1);
    }
    assert forall|i: int| 0 <= i < m.len() implies str_map_map_of(enc_str_map_map(m))[i] == m[i] by {
        lemma_str_map_round_trip(m[i].1);
    }
    assert(str_map_map_of(enc_str_map_map(m)) =~= m);
}

/// Encoding a dependency record to the schema's JSON shape and decoding it
/// back yields the same record.
#[verifier::rlimit(100)]
pub proof fn lemma_dep_round_trip(d: DependencyInfoView)
    ensures
        spec_dep_ok(spec_encode_dep(d)),
        spec_dep_of(spec_encode_dep(d)) == d,
{
    reveal_strlit("name");
    reveal_strlit("version");
    reveal_strlit("rootpath");
    reveal_strlit("sysroot");
    reveal_strlit("include_paths");
    reveal_strlit("lib_paths");
    reveal_strlit("bin_paths");
    reveal_strlit("build_paths");
    reveal_strlit("res_paths");
    reveal_strlit("libs");
    reveal_strlit("system_libs");
    reveal_strlit("defines");
    reveal_strlit("cflags");
    reveal_strlit("cxxflags");
    reveal_strlit("sharedlinkflags");
    reveal_strlit("exelinkflags");
    reveal_strlit("frameworks");
    reveal_strlit("framework_paths");
    reveal_strlit("cppflags");
    reveal_strlit("description");
    assert("name"@.len() == 4);
    assert("name"@[0] == 'n');
    assert("version"@.len() == 7);
    assert("version"@[0] == 'v');
    assert("rootpath"@.len() == 8);
    assert("rootpath"@[0] == 'r');
    assert("sysroot"@.len() == 7);
    assert("sysroot"@[0] == 's');
    assert("include_paths"@.len() == 13);
    assert("include_paths"@[0] == 'i');
    assert("lib_paths"@.len() == 9);
    assert("lib_paths"@[0] == 'l');
    assert("bin_paths"@.len() == 9);
    assert("bin_paths"@[0] == 'b');
    assert("build_paths"@.len() == 11);
    assert("build_paths"@[0] == 'b');
    assert("res_paths"@.len() == 9);
    assert("res_paths"@[0] == 'r');
    assert("libs"@.len() == 4);
    assert("libs"@[0] == 'l');
    assert("system_libs"@.len() == 11);
    assert("system_libs"@[0] == 's');
    assert("defines"@.len() == 7);
    assert("defines"@[0] == 'd');
    assert("cflags"@.len() == 6);
    assert("cflags"@[0] == 'c');
    assert("cxxflags"@.len() == 8);
    assert("cxxflags"@[0] == 'c');
    assert("sharedlinkflags"@.len() == 15);
    assert("sharedlinkflags"@[0] == 's');
    assert("exelinkflags"@.len() == 12);
    assert("exelinkflags"@[0] == 'e');
    assert("frameworks"@.len() == 10);
    assert("frameworks"@[0] == 'f');
    assert("framework_paths"@.len() == 15);
    assert("framework_paths"@[0] == 'f');
    assert("cppflags"@.len() == 8);
    assert("cppflags"@[0] == 'c');
    assert("description"@.len() == 11);
    assert("description"@[0] == 'd');
    assert("cxxflags"@[1] == 'x');
    assert("cppflags"@[1] == 'p');
    let v = spec_encode_dep(d);
    let e = v->Obj_0;
    lemma_str_list_round_trip(d.include_paths);
    lemma_str_list_round_trip(d.lib_paths);
    lemma_str_list_round_trip(d.bin_paths);
    lemma_str_list_round_trip(d.build_paths);
    lemma_str_list_round_trip(d.res_paths);
    lemma_str_list_round_trip(d.libs);
    lemma_str_list_round_trip(d.system_libs);
    lemma_str_list_round_trip(d.defines);
    lemma_str_list_round_trip(d.cflags);
    lemma_str_list_round_trip(d.cxxflags);
    lemma_str_list_round_trip(d.sharedlinkflags);
    lemma_str_list_round_trip(d.exelinkflags);
    lemma_str_list_round_trip(d.frameworks);
    lemma_str_list_round_trip(d.framework_paths);
    lemma_str_list_round_trip(d.cppflags);
    let e19 = match d.description {
        Some(x) => seq![("description"@, Json::Str(x))],
        None => Seq::<(Seq<char>, Json)>::empty(),
    };
    let e18 = seq![("cppflags"@, enc_str_list(d.cppflags))] + e19;
    let e17 = seq![("framework_paths"@, enc_str_list(d.framework_paths))] + e18;
    let e16 = seq![("frameworks"@, enc_str_list(d.frameworks))] + e17;
    let e15 = seq![("exelinkflags"@, enc_str_list(d.exelinkflags))] + e16;
    let e14 = seq![("sharedlinkflags"@, enc_str_list(d.sharedlinkflags))] + e15;
    let e13 = seq![("cxxflags"@, enc_str_list(d.cxxflags))] + e14;
    let e12 = seq![("cflags"@, enc_str_list(d.cflags))] + e13;
    let e11 = seq![("defines"@, enc_str_list(d.defines))] + e12;
    let e10 = seq![("system_libs"@, enc_str_list(d.system_libs))] + e11;
    let e9 = seq![("libs"@, enc_str_list(d.libs))] + e10;
    let e8 = seq![("res_paths"@, enc_str_list(d.res_paths))] + e9;
    let e7 = seq![("build_paths"@, enc_str_list(d.build_paths))] + e8;
    let e6 = seq![("bin_paths"@, enc_str_list(d.bin_paths))] + e7;
    let e5 = seq![("lib_paths"@, enc_str_list(d.lib_paths))] + e6;
    let e4 = seq![("include_paths"@, enc_str_list(d.include_paths))] + e5;
    let e3 = seq![("sysroot"@, Json::Str(d.sysroot))] + e4;
    let e2 = seq![("rootpath"@, Json::Str(d.rootpath))] + e3;
    let e1 = seq![("version"@, Json::Str(d.version))] + e2;
    let e0 = seq![("name"@, Json::Str(d.name))] + e1;
    assert(e =~= e0);
    assert forall|k: Seq<char>| #[trigger] json_lookup(e0, k) == (if "name"@ == k {
        Some(Json::Str(d.name))
    } else {
        json_lookup(e1, k)
    }) by {
        lemma_lookup_cons("name"@, Json::Str(d.name), e1, k);
    }
    assert forall|k: Seq<char>| #[trigger] json_lookup(e1, k) == (if "version"@ == k {
        Some(Json::Str(d.version))
    } else {
        json_lookup(e2, k)
    }) by {
        lemma_lookup_cons("version"@, Json::Str(d.version), e2, k);
    }
    assert forall|k: Seq<char>| #[trigger] json_lookup(e2, k) == (if "rootpath"@ == k {
        Some(Json::Str(d.rootpath))
    } else {
        json_lookup(e3, k)
    }) by {
        lemma_lookup_cons("rootpath"@, Json::Str(d.rootpath), e3, k);
    }
    assert forall|k: Seq<char>| #[trigger] json_lookup(e3, k) == (if "sysroot"@ == k {
        Some(Json::Str(d.sysroot))
    } else {
        json_lookup(e4, k)
    }) by {
        lemma_lookup_cons("sysroot"@, Json::Str(d.sysroot), e4, k);
    }
    assert forall|k: Seq<char>| #[trigger] json_lookup(e4, k) == (if "include_paths"@ == k {
        Some(enc_str_list(d.include_paths))
    } else {
        json_lookup(e5, k)
    }) by {
        lemma_lookup_cons("include_paths"@, enc_str_list(d.include_paths), e5, k);
    }
    assert forall|k: Seq<char>| #[trigger] json_lookup(e5, k) == (if "lib_paths"@ == k {
        Some(enc_str_list(d.lib_paths))
    } else {
        json_lookup(e6, k)
    }) by {
        lemma_lookup_cons("lib_paths"@, enc_str_list(d.lib_paths), e6, k);
    }
    assert forall|k: Seq<char>| #[trigger] json_lookup(e6, k) == (if "bin_paths"@ == k {
        Some(enc_str_list(d.bin_paths))
    } else {
        json_lookup(e7, k)
    }) by {
        lemma_lookup_cons("bin_paths"@, enc_str_list(d.bin_paths), e7, k);
    }
    assert forall|k: Seq<char>| #[trigger] json_lookup(e7, k) == (if "build_paths"@ == k {
        Some(enc_str_list(d.build_paths))
    } else {
        json_lookup(e8, k)
    }) by {
        lemma_lookup_cons("build_paths"@, enc_str_list(d.build_paths), e8, k);
    }
    assert forall|k: Seq<char>| #[trigger] json_lookup(e8, k) == (if "res_paths"@ == k {
        Some(enc_str_list(d.res_paths))
    } else {
        json_lookup(e9, k)
    }) by {
        lemma_lookup_cons("res_paths"@, enc_str_list(d.res_paths), e9, k);
    }
    assert forall|k: Seq<char>| #[trigger] json_lookup(e9, k) == (if "libs"@ == k {
        Some(enc_str_list(d.libs))
    } else {
        json_lookup(e10, k)
    }) by {
        lemma_lookup_cons("libs"@, enc_str_list(d.libs), e10, k);
    }
    assert forall|k: Seq<char>| #[trigger] json_lookup(e10, k) == (if "system_libs"@ == k {
        Some(enc_str_list(d.system_libs))
    } else {
        json_lookup(e11, k)
    }) by {
        lemma_lookup_cons("system_libs"@, enc_str_list(d.system_libs), e11, k);
    }
    assert forall|k: Seq<char>| #[trigger] json_lookup(e11, k) == (if "defines"@ == k {
        Some(enc_str_list(d.defines))
    } else {
        json_lookup(e12, k)
    }) by {
        lemma_lookup_cons("defines"@, enc_str_list(d.defines), e12, k);
    }
    assert forall|k: Seq<char>| #[trigger] json_lookup(e12, k) == (if "cflags"@ == k {
        Some(enc_str_list(d.cflags))
    } else {
        json_lookup(e13, k)
    }) by {
        lemma_lookup_cons("cflags"@, enc_str_list(d.cflags), e13, k);
    }
    assert forall|k: Seq<char>| #[trigger] json_lookup(e13, k) == (if "cxxflags"@ == k {
        Some(enc_str_list(d.cxxflags))
    } else {
        json_lookup(e14, k)
    }) by {
        lemma_lookup_cons("cxxflags"@, enc_str_list(d.cxxflags), e14, k);
    }
    assert forall|k: Seq<char>| #[trigger] json_lookup(e14, k) == (if "sharedlinkflags"@ == k {
        Some(enc_str_list(d.sharedlinkflags))
    } else {
        json_lookup(e15, k)
    }) by {
        lemma_lookup_cons("sharedlinkflags"@, enc_str_list(d.sharedlinkflags), e15, k);
    }
    assert forall|k: Seq<char>| #[trigger] json_lookup(e15, k) == (if "exelinkflags"@ == k {
        Some(enc_str_list(d.exelinkflags))
    } else {
        json_lookup(e16, k)
    }) by {
        lemma_lookup_cons("exelinkflags"@, enc_str_list(d.exelinkflags), e16, k);
    }
    assert forall|k: Seq<char>| #[trigger] json_lookup(e16, k) == (if "frameworks"@ == k {
        Some(enc_str_list(d.frameworks))
    } else {
        json_lookup(e17, k)
    }) by {
        lemma_lookup_cons("frameworks"@, enc_str_list(d.frameworks), e17, k);
    }
    assert forall|k: Seq<char>| #[trigger] json_lookup(e17, k) == (if "framework_paths"@ == k {
        Some(enc_str_list(d.framework_paths))
    } else {
        json_lookup(e18, k)
    }) by {
        lemma_lookup_cons("framework_paths"@, enc_str_list(d.framework_paths), e18, k);
    }
    assert forall|k: Seq<char>| #[trigger] json_lookup(e18, k) == (if "cppflags"@ == k {
        Some(enc_str_list(d.cppflags))
    } else {
        json_lookup(e19, k)
    }) by {
        lemma_lookup_cons("cppflags"@, enc_str_list(d.cppflags), e19, k);
    }
    assert(json_lookup(e19, "description"@) == (match d.description {
        Some(x) => Some(Json::Str(x)),
        None => None,
    }));
    assert(json_lookup(e, "name"@) == Some(Json::Str(d.name)));
    assert(json_lookup(e, "version"@) == Some(Json::Str(d.version)));
    assert(json_lookup(e, "rootpath"@) == Some(Json::Str(d.rootpath)));
    assert(json_lookup(e, "sysroot"@) == Some(Json::Str(d.sysroot)));
    assert(json_lookup(e, "include_paths"@) == Some(enc_str_list(d.include_paths)));
    assert(json_lookup(e, "lib_paths"@) == Some(enc_str_list(d.lib_paths)));
    assert(json_lookup(e, "bin_paths"@) == Some(enc_str_list(d.bin_paths)));
    assert(json_lookup(e, "build_paths"@) == Some(enc_str_list(d.build_paths)));
    assert(json_lookup(e, "res_paths"@) == Some(enc_str_list(d.res_paths)));
    assert(json_lookup(e, "libs"@) == Some(enc_str_list(d.libs)));
    assert(json_lookup(e, "system_libs"@) == Some(enc_str_list(d.system_libs)));
    assert(json_lookup(e, "defines"@) == Some(enc_str_list(d.defines)));
    assert(json_lookup(e, "cflags"@) == Some(enc_str_list(d.cflags)));
    assert(json_lookup(e, "cxxflags"@) == Some(enc_str_list(d.cxxflags)));
    assert(json_lookup(e, "sharedlinkflags"@) == Some(enc_str_list(d.sharedlinkflags)));
    assert(json_lookup(e, "exelinkflags"@) == Some(enc_str_list(d.exelinkflags)));
    assert(json_lookup(e, "frameworks"@) == Some(enc_str_list(d.frameworks)));
    assert(json_lookup(e, "framework_paths"@) == Some(enc_str_list(d.framework_paths)));
    assert(json_lookup(e, "cppflags"@) == Some(enc_str_list(d.cppflags)));
    assert(json_lookup(e, "description"@) == (match d.description {
        Some(x) => Some(Json::Str(x)),
        None => None,
    }));
    assert(spec_dep_of(v) =~= d);
}

/// Encoding a whole report to the schema's JSON shape and decoding it back
/// yields an equal report: the decoder is a left inverse of the encoder.
#[verifier::rlimit(100)]
pub proof fn lemma_build_info_round_trip(b: ConanBuildInfoView)
    ensures
        spec_decode_build_info(spec_encode_build_info(b)) == Some(b),
{
    reveal_strlit("deps_env_info");
    reveal_strlit("deps_user_info");
    reveal_strlit("dependencies");
    reveal_strlit("settings");
    reveal_strlit("options");
    assert("deps_env_info"@.len() == 13);
    assert("deps_user_info"@.len() == 14);
    assert("dependencies"@.len() == 12);
    assert("settings"@.len() == 8);
    assert("options"@.len() == 7);
    let v = spec_encode_build_info(b);
    let e = v->Obj_0;
    let darr = Json::Arr(Seq::new(b.dependencies.len(), |i: int| spec_encode_dep(b.dependencies[i])));
    lemma_str_list_map_round_trip(b.deps_env_info);
    lemma_str_map_map_round_trip(b.deps_user_info);
    lemma_str_map_round_trip(b.settings);
    lemma_str_map_map_round_trip(b.options);
    let e5 = Seq::<(Seq<char>, Json)>::empty();
    let e4 = seq![("options"@, enc_str_map_map(b.options))] + e5;
    let e3 = seq![("settings"@, enc_str_map(b.settings))] + e4;
    let e2 = seq![("dependencies"@, darr)] + e3;
    let e1 = seq![("deps_user_info"@, enc_str_map_map(b.deps_user_info))] + e2;
    let e0 = seq![("deps_env_info"@, enc_str_list_map(b.deps_env_info))] + e1;
    assert(e =~= e0);
    assert forall|k: Seq<char>| #[trigger] json_lookup(e0, k) == (if "deps_env_info"@ == k {
        Some(enc_str_list_map(b.deps_env_info))
    } else {
        json_lookup(e1, k)
    }) by {
        lemma_lookup_cons("deps_env_info"@, enc_str_list_map(b.deps_env_info), e1, k);
    }
    assert forall|k: Seq<char>| #[trigger] json_lookup(e1, k) == (if "deps_user_info"@ == k {
        Some(enc_str_map_map(b.deps_user_info))
    } else {
        json_lookup(e2, k)
    }) by {
        lemma_lookup_cons("deps_user_info"@, enc_str_map_map(b.deps_user_info), e2, k);
    }
    assert forall|k: Seq<char>| #[trigger] json_lookup(e2, k) == (if "dependencies"@ == k {
        Some(darr)
    } else {
        json_lookup(e3, k)
    }) by {
        lemma_lookup_cons("dependencies"@, darr, e3, k);
    }
    assert forall|k: Seq<char>| #[trigger] json_lookup(e3, k) == (if "settings"@ == k {
        Some(enc_str_map(b.settings))
    } else {
        json_lookup(e4, k)
    }) by {
        lemma_lookup_cons("settings"@, enc_str_map(b.settings), e4, k);
    }
    assert forall|k: Seq<char>| #[trigger] json_lookup(e4, k) == (if "options"@ == k {
        Some(enc_str_map_map(b.options))
    } else {
        json_lookup(e5, k)
    }) by {
        lemma_lookup_cons("options"@, enc_str_map_map(b.options), e5, k);
    }
    assert(json_lookup(e, "deps_env_info"@) == Some(enc_str_list_map(b.deps_env_info)));
    assert(json_lookup(e, "deps_user_info"@) == Some(enc_str_map_map(b.deps_user_info)));
    assert(json_lookup(e, "dependencies"@) == Some(darr));
    assert(json_lookup(e, "settings"@) == Some(enc_str_map(b.settings)));
    assert(json_lookup(e, "options"@) == Some(enc_str_map_map(b.options)));
    assert forall|i: int| 0 <= i < darr->Arr_0.len() implies spec_dep_ok(
        #[trigger] darr->Arr_0[i],
    ) by {
        lemma_dep_round_trip(b.dependencies[i]);
    }
    assert(spec_build_info_ok(v));
    assert forall|i: int| 0 <= i < b.dependencies.len() implies Seq::new(
        darr->Arr_0.len(),
        |q: int| spec_dep_of(darr->Arr_0[q]),
    )[i] == b.dependencies[i] by {
        lemma_dep_round_trip(b.dependencies[i]);
    }
    assert(spec_build_info_of(v) =~= b);
}

} // verus!
