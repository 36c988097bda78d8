use conan::install::{BuildConfiguration, Generator, InstallArguments, InstallArgumentsBuilder,
    InstallTarget};

fn pairs(entries: &[(&str, &str)]) -> Vec<(String, String)> {
    let mut out: Vec<(String, String)> = Vec::new();
    for (k, v) in entries {
        out.push((k.to_string(), v.to_string()));
    }
    out
}

#[test]
fn test_install_arguments() {
    let mut builder = InstallArgumentsBuilder::new(
        InstallTarget::ConanFile { path: "conanfile.txt".into(), reference: None },
        "build".into(),
    );
    builder.envs(pairs(&[("SomeEnv", "SomeValue"), ("SomeEnv2", "SomeValue2")]));
    builder.envs_build(pairs(&[
        ("SomeBuildEnv", "SomeBuildValue"),
        ("SomeBuildEnv2", "SomeBuildValue2"),
    ]));
    builder.generators(vec![Generator::custom("json")]);
    builder.options(pairs(&[("SomeOpt", "SomeValue"), ("SomeOpt2", "SomeValue2")]));
    builder.options_build(pairs(&[
        ("SomeBuildOpt", "SomeBuildValue"),
        ("SomeBuildOpt2", "SomeBuildValue2"),
    ]));
    builder.settings(pairs(&[("SomeSetting", "SomeValue"), ("SomeSetting2", "SomeValue2")]));
    builder.settings_build(pairs(&[
        ("SomeBuildSetting", "SomeBuildValue"),
        ("SomeBuildSetting2", "SomeBuildValue2"),
    ]));
    builder.profile("android".into());
    builder.profile_build("gcc".into());
    let arguments = builder.build();
    println!("{:?}", arguments);
    println!("{:?}", arguments.to_commandline_arguments());
}

fn base_config(target: InstallTarget, folder: &str) -> InstallArguments {
    InstallArgumentsBuilder::new(target, folder.to_string()).build()
}

#[test]
fn minimal_package_arguments() {
    let config = base_config(
        InstallTarget::Package { reference: "zlib/1.2.11@_/_".to_string() },
        "build",
    );
    let args = config.to_commandline_arguments();
    assert_eq!(
        args,
        vec![
            "install".to_string(),
            "zlib/1.2.11@_/_".to_string(),
            "-if".to_string(),
            "build".to_string(),
            "--build".to_string(),
        ]
    );
}

#[test]
fn conanfile_with_reference_emits_both_tokens() {
    let config = base_config(
        InstallTarget::ConanFile {
            path: "conanfile.txt".to_string(),
            reference: Some("pkg/1.0@user/channel".to_string()),
        },
        "out",
    );
    let args = config.to_commandline_arguments();
    assert_eq!(args[0], "install");
    assert_eq!(args[1], "conanfile.txt");
    assert_eq!(args[2], "pkg/1.0@user/channel");
    assert_eq!(args[3], "-if");
    assert_eq!(args[4], "out");
}

#[test]
fn generators_stay_contiguous_and_in_order() {
    let mut builder = InstallArgumentsBuilder::new(
        InstallTarget::Package { reference: "a/1".to_string() },
        "f".to_string(),
    );
    builder.generators(vec![
        Generator::custom("g1"),
        Generator::custom("g2"),
        Generator::custom("g3"),
    ]);
    builder.build_configurations(vec![]);
    let args = builder.build().to_commandline_arguments();
    assert_eq!(
        args,
        vec!["install", "a/1", "-g", "g1", "-g", "g2", "-g", "g3", "-if", "f"]
            .into_iter()
            .map(str::to_string)
            .collect::<Vec<String>>()
    );
}

#[test]
fn build_all_emits_bare_flag() {
    let mut builder = InstallArgumentsBuilder::new(
        InstallTarget::Package { reference: "a/1".to_string() },
        "f".to_string(),
    );
    builder.build_configurations(vec![BuildConfiguration::All]);
    let args = builder.build().to_commandline_arguments();
    assert_eq!(args, vec!["install", "a/1", "-if", "f", "--build"]
        .into_iter().map(str::to_string).collect::<Vec<String>>());
}

#[test]
fn build_missing_emits_value_token() {
    let mut builder = InstallArgumentsBuilder::new(
        InstallTarget::Package { reference: "a/1".to_string() },
        "f".to_string(),
    );
    builder.build_configurations(vec![BuildConfiguration::Missing]);
    let args = builder.build().to_commandline_arguments();
    assert_eq!(args, vec!["install", "a/1", "-if", "f", "--build", "missing"]
        .into_iter().map(str::to_string).collect::<Vec<String>>());
}

#[test]
fn build_missing_then_outdated_emits_two_directives() {
    let mut builder = InstallArgumentsBuilder::new(
        InstallTarget::Package { reference: "a/1".to_string() },
        "f".to_string(),
    );
    builder.build_configurations(vec![
        BuildConfiguration::Missing,
        BuildConfiguration::Outdated,
    ]);
    let args = builder.build().to_commandline_arguments();
    assert_eq!(
        args,
        vec!["install", "a/1", "-if", "f", "--build", "missing", "--build", "outdated"]
            .into_iter().map(str::to_string).collect::<Vec<String>>()
    );
}

#[test]
fn build_variants_emit_their_value_tokens() {
    let mut builder = InstallArgumentsBuilder::new(
        InstallTarget::Package { reference: "a/1".to_string() },
        "f".to_string(),
    );
    builder.build_configurations(vec![
        BuildConfiguration::Never,
        BuildConfiguration::Cascade,
        BuildConfiguration::Package { pattern: "zlib*".to_string() },
    ]);
    let args = builder.build().to_commandline_arguments();
    assert_eq!(
        args,
        vec!["install", "a/1", "-if", "f", "--build", "never", "--build", "cascade", "--build",
            "zlib*"]
            .into_iter().map(str::to_string).collect::<Vec<String>>()
    );
}

#[test]
fn each_map_key_appears_exactly_once() {
    let mut builder = InstallArgumentsBuilder::new(
        InstallTarget::Package { reference: "a/1".to_string() },
        "f".to_string(),
    );
    builder.build_configurations(vec![]);
    builder.envs(pairs(&[("E1", "v1"), ("E2", "v2")]));
    builder.envs_build(pairs(&[("BE", "bv")]));
    builder.options(pairs(&[("O", "ov")]));
    builder.options_build(pairs(&[("BO", "bov")]));
    builder.settings(pairs(&[("S", "sv")]));
    builder.settings_build(pairs(&[("BS", "bsv")]));
    let args = builder.build().to_commandline_arguments();
    for formatted in ["E1=v1", "E2=v2", "BE=bv", "O=ov", "BO=bov", "S=sv", "BS=bsv"] {
        let count = args.iter().filter(|a| a.as_str() == formatted).count();
        assert_eq!(count, 1, "{} should appear exactly once", formatted);
    }
    assert_eq!(
        args,
        vec!["install", "a/1", "-if", "f", "-e", "E1=v1", "-e", "E2=v2", "-e:b", "BE=bv", "-o",
            "O=ov", "-o:b", "BO=bov", "-s", "S=sv", "-s:b", "BS=bsv"]
            .into_iter().map(str::to_string).collect::<Vec<String>>()
    );
}

#[test]
fn full_configuration_emits_wire_order() {
    let mut builder = InstallArgumentsBuilder::new(
        InstallTarget::ConanFile { path: "conanfile.txt".to_string(), reference: None },
        "build".to_string(),
    );
    builder.generators(vec![Generator::custom("json")]);
    builder.no_imports(true);
    builder.build_configurations(vec![BuildConfiguration::Missing]);
    builder.envs(pairs(&[("E", "1")]));
    builder.envs_build(pairs(&[("EB", "2")]));
    builder.options(pairs(&[("O", "3")]));
    builder.options_build(pairs(&[("OB", "4")]));
    builder.profile("android".to_string());
    builder.profile_build("gcc".to_string());
    builder.remote("myremote".to_string());
    builder.settings(pairs(&[("S", "5")]));
    builder.settings_build(pairs(&[("SB", "6")]));
    builder.check_update(true);
    let args = builder.build().to_commandline_arguments();
    assert_eq!(
        args,
        vec!["install", "conanfile.txt", "-g", "json", "-if", "build", "--no-imports", "--build",
            "missing", "-e", "E=1", "-e:b", "EB=2", "-o", "O=3", "-o:b", "OB=4", "-pr", "android",
            "-pr:b", "gcc", "-r", "myremote", "-s", "S=5", "-s:b", "SB=6", "--update"]
            .into_iter().map(str::to_string).collect::<Vec<String>>()
    );
}

#[test]
fn builder_defaults_are_all_policy_and_empty_maps() {
    let config = base_config(InstallTarget::Package { reference: "p/1".to_string() }, "dir");
    assert_eq!(config.generators.len(), 0);
    assert!(!config.no_imports);
    assert_eq!(config.build_configurations.len(), 1);
    assert!(matches!(config.build_configurations[0], BuildConfiguration::All));
    assert_eq!(config.envs.len(), 0);
    assert_eq!(config.envs_build.len(), 0);
    assert_eq!(config.options.len(), 0);
    assert_eq!(config.options_build.len(), 0);
    assert!(config.profile.is_none());
    assert!(config.profile_build.is_none());
    assert!(config.remote.is_none());
    assert_eq!(config.settings.len(), 0);
    assert_eq!(config.settings_build.len(), 0);
    assert!(!config.check_update);
}
