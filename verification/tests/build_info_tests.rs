use conan::build_info::{ConanBuildInfo, DependencyInfo};
use conan::json::JsonValue;

fn full_document() -> String {
    let mut doc = String::new();
    doc.push_str("{");
    doc.push_str("\"deps_env_info\": {\"PATH\": [\"/opt/zlib/bin\", \"/opt/bzip2/bin\"]},");
    doc.push_str("\"deps_user_info\": {\"zlib\": {\"note\": \"hello\"}},");
    doc.push_str("\"dependencies\": [");
    doc.push_str("{");
    doc.push_str("\"name\": \"zlib\", \"version\": \"1.2.11\", \"description\": \"compression\",");
    doc.push_str("\"rootpath\": \"/opt/zlib\", \"sysroot\": \"\",");
    doc.push_str("\"include_paths\": [\"/opt/zlib/include\"], \"lib_paths\": [\"/opt/zlib/lib\"],");
    doc.push_str("\"bin_paths\": [], \"build_paths\": [], \"res_paths\": [],");
    doc.push_str("\"libs\": [\"z\"], \"system_libs\": [\"m\"], \"defines\": [\"HAVE_Z\"],");
    doc.push_str("\"cflags\": [], \"cxxflags\": [], \"sharedlinkflags\": [], \"exelinkflags\": [],");
    doc.push_str("\"frameworks\": [], \"framework_paths\": [], \"cppflags\": []");
    doc.push_str("},");
    doc.push_str("{");
    doc.push_str("\"name\": \"bzip2\", \"version\": \"1.0.8\",");
    doc.push_str("\"rootpath\": \"/opt/bzip2\", \"sysroot\": \"\",");
    doc.push_str("\"include_paths\": [], \"lib_paths\": [],");
    doc.push_str("\"bin_paths\": [], \"build_paths\": [], \"res_paths\": [],");
    doc.push_str("\"libs\": [\"bz2\"], \"system_libs\": [], \"defines\": [],");
    doc.push_str("\"cflags\": [], \"cxxflags\": [], \"sharedlinkflags\": [], \"exelinkflags\": [],");
    doc.push_str("\"frameworks\": [], \"framework_paths\": [], \"cppflags\": []");
    doc.push_str("}");
    doc.push_str("],");
    doc.push_str("\"settings\": {\"os\": \"Linux\", \"arch\": \"x86_64\"},");
    doc.push_str("\"options\": {\"zlib\": {\"shared\": \"False\"}}");
    doc.push_str("}");
    doc
}

#[test]
fn decodes_a_full_document() {
    let info = ConanBuildInfo::create_from_json(&full_document()).unwrap();
    assert_eq!(info.deps_env_info.len(), 1);
    assert_eq!(info.deps_env_info[0].0, "PATH");
    assert_eq!(
        info.deps_env_info[0].1,
        vec!["/opt/zlib/bin".to_string(), "/opt/bzip2/bin".to_string()]
    );
    assert_eq!(info.deps_user_info.len(), 1);
    assert_eq!(info.deps_user_info[0].1[0], ("note".to_string(), "hello".to_string()));
    assert_eq!(info.dependencies.len(), 2);
    let zlib = &info.dependencies[0];
    assert_eq!(zlib.name, "zlib");
    assert_eq!(zlib.version, "1.2.11");
    assert_eq!(zlib.description, Some("compression".to_string()));
    assert_eq!(zlib.rootpath, "/opt/zlib");
    assert_eq!(zlib.include_paths, vec!["/opt/zlib/include".to_string()]);
    assert_eq!(zlib.libs, vec!["z".to_string()]);
    assert_eq!(zlib.system_libs, vec!["m".to_string()]);
    assert_eq!(zlib.defines, vec!["HAVE_Z".to_string()]);
    let bzip2 = &info.dependencies[1];
    assert_eq!(bzip2.name, "bzip2");
    assert_eq!(bzip2.description, None);
    assert_eq!(info.settings.len(), 2);
    assert_eq!(info.settings[0], ("arch".to_string(), "x86_64".to_string()));
    assert_eq!(info.settings[1], ("os".to_string(), "Linux".to_string()));
    assert_eq!(info.options[0].0, "zlib");
    assert_eq!(info.options[0].1[0], ("shared".to_string(), "False".to_string()));
}

#[test]
fn find_dependency_returns_first_exact_match() {
    let info = ConanBuildInfo::create_from_json(&full_document()).unwrap();
    let zlib = info.find_dependency("zlib").unwrap();
    assert_eq!(zlib.version, "1.2.11");
    let bzip2 = info.find_dependency("bzip2").unwrap();
    assert_eq!(bzip2.version, "1.0.8");
}

#[test]
fn find_dependency_absent_name_is_none() {
    let info = ConanBuildInfo::create_from_json(&full_document()).unwrap();
    assert!(info.find_dependency("openssl").is_none());
    assert!(info.find_dependency("Zlib").is_none());
}

#[test]
fn malformed_json_fails_to_decode() {
    assert!(ConanBuildInfo::create_from_json("{not json").is_none());
    assert!(ConanBuildInfo::create_from_json("").is_none());
}

#[test]
fn missing_required_field_fails_to_decode() {
    let document = full_document().replace("\"settings\"", "\"settingz\"");
    assert!(ConanBuildInfo::create_from_json(&document).is_none());
}

#[test]
fn wrongly_typed_field_fails_to_decode() {
    let document = full_document().replace(
        "\"version\": \"1.2.11\"",
        "\"version\": 1.211",
    );
    assert!(ConanBuildInfo::create_from_json(&document).is_none());
}

#[test]
fn non_object_document_fails_to_decode() {
    assert!(ConanBuildInfo::create_from_json("[1, 2, 3]").is_none());
    assert!(ConanBuildInfo::create_from_json("\"text\"").is_none());
}

fn sample_dependency(name: &str, description: Option<&str>) -> DependencyInfo {
    DependencyInfo {
        name: name.to_string(),
        version: "1.0".to_string(),
        description: description.map(str::to_string),
        rootpath: format!("/opt/{}", name),
        sysroot: String::new(),
        include_paths: vec![format!("/opt/{}/include", name)],
        lib_paths: vec![format!("/opt/{}/lib", name)],
        bin_paths: vec![],
        build_paths: vec![],
        res_paths: vec![],
        libs: vec![name.to_string()],
        system_libs: vec![],
        defines: vec!["NDEBUG".to_string()],
        cflags: vec!["-fPIC".to_string()],
        cxxflags: vec![],
        sharedlinkflags: vec![],
        exelinkflags: vec![],
        frameworks: vec![],
        framework_paths: vec![],
        cppflags: vec![],
    }
}

#[test]
fn build_info_round_trips_through_json_shape() {
    let info = ConanBuildInfo {
        deps_env_info: vec![("PATH".to_string(), vec!["/a".to_string(), "/b".to_string()])],
        deps_user_info: vec![(
            "zlib".to_string(),
            vec![("note".to_string(), "hi".to_string())],
        )],
        dependencies: vec![
            sample_dependency("zlib", Some("compression")),
            sample_dependency("bzip2", None),
        ],
        settings: vec![("os".to_string(), "Linux".to_string())],
        options: vec![("zlib".to_string(), vec![("shared".to_string(), "True".to_string())])],
    };
    let encoded = info.to_json();
    let decoded = ConanBuildInfo::from_json_value(&encoded).unwrap();
    assert_eq!(decoded, info);
}

#[test]
fn dependency_round_trips_with_and_without_description() {
    let with_desc = ConanBuildInfo {
        deps_env_info: vec![],
        deps_user_info: vec![],
        dependencies: vec![sample_dependency("a", Some("x"))],
        settings: vec![],
        options: vec![],
    };
    let decoded = ConanBuildInfo::from_json_value(&with_desc.to_json()).unwrap();
    assert_eq!(decoded.dependencies[0].description, Some("x".to_string()));
    let without_desc = ConanBuildInfo {
        deps_env_info: vec![],
        deps_user_info: vec![],
        dependencies: vec![sample_dependency("a", None)],
        settings: vec![],
        options: vec![],
    };
    let decoded = ConanBuildInfo::from_json_value(&without_desc.to_json()).unwrap();
    assert_eq!(decoded.dependencies[0].description, None);
}

#[test]
fn null_and_numbers_are_not_schema_values() {
    let doc = "{\"deps_env_info\": null, \"deps_user_info\": {}, \"dependencies\": [], \
               \"settings\": {}, \"options\": {}}";
    assert!(ConanBuildInfo::create_from_json(doc).is_none());
    let direct = JsonValue::Other;
    assert!(ConanBuildInfo::from_json_value(&direct).is_none());
}

#[test]
fn empty_schema_document_decodes_to_empty_report() {
    let doc = "{\"deps_env_info\": {}, \"deps_user_info\": {}, \"dependencies\": [], \
               \"settings\": {}, \"options\": {}}";
    let info = ConanBuildInfo::create_from_json(doc).unwrap();
    assert_eq!(info.deps_env_info.len(), 0);
    assert_eq!(info.dependencies.len(), 0);
    assert_eq!(info.settings.len(), 0);
}
