use conan::Remote;
use conan::cargo::{cargo_arch_to_conan_arch, cargo_os_to_conan_os,
    cargo_profile_to_conan_build_type, settings_from_cargo_tokens};
use conan::output::{parse_remote_list_output, parse_version_output};
use conan::remote_add_arguments;
use conan::remote_remove_arguments;

#[test]
fn version_is_extracted_from_banner() {
    assert_eq!(parse_version_output("Conan version 1.34.0\n"), Some("1.34.0".to_string()));
}

#[test]
fn version_absent_when_no_match() {
    assert_eq!(parse_version_output("something else entirely"), None);
    assert_eq!(parse_version_output(""), None);
    assert_eq!(parse_version_output("Conan version x.y"), None);
}

#[test]
fn version_tolerates_surrounding_text() {
    assert_eq!(
        parse_version_output("banner line\nConan version 2.0.17 (something)\ntrailer"),
        Some("2.0.17".to_string())
    );
}

#[test]
fn version_takes_first_match() {
    assert_eq!(
        parse_version_output("Conan version 1.2.3 and Conan version 4.5.6"),
        Some("1.2.3".to_string())
    );
}

#[test]
fn remote_line_parses_to_one_record() {
    let remotes = parse_remote_list_output("conan-center https://center.conan.io True\n").unwrap();
    assert_eq!(remotes.len(), 1);
    assert_eq!(remotes[0].name, "conan-center");
    assert_eq!(remotes[0].url, "https://center.conan.io");
    assert_eq!(remotes[0].verify_ssl, Some(true));
}

#[test]
fn remote_false_literal_maps_to_false() {
    let remotes = parse_remote_list_output("mine https://example.com/repo False\n").unwrap();
    assert_eq!(remotes.len(), 1);
    assert_eq!(remotes[0].verify_ssl, Some(false));
}

#[test]
fn remote_lines_keep_their_order() {
    let remotes =
        parse_remote_list_output("first https://a True\nsecond https://b False\n").unwrap();
    assert_eq!(remotes.len(), 2);
    assert_eq!(remotes[0].name, "first");
    assert_eq!(remotes[1].name, "second");
}

#[test]
fn one_malformed_line_discards_everything() {
    assert_eq!(
        parse_remote_list_output("conan-center https://center.conan.io True\nbroken https://x\n"),
        None
    );
}

#[test]
fn remote_bad_boolean_fails() {
    assert_eq!(parse_remote_list_output("a https://b true\n"), None);
    assert_eq!(parse_remote_list_output("a https://b True extra\n"), None);
}

#[test]
fn empty_listing_is_no_remotes() {
    assert_eq!(parse_remote_list_output(""), Some(vec![]));
}

#[test]
fn os_tokens_are_translated() {
    assert_eq!(cargo_os_to_conan_os("windows"), "Windows");
    assert_eq!(cargo_os_to_conan_os("linux"), "Linux");
    assert_eq!(cargo_os_to_conan_os("macos"), "Macos");
    assert_eq!(cargo_os_to_conan_os("android"), "Android");
    assert_eq!(cargo_os_to_conan_os("ios"), "iOS");
    assert_eq!(cargo_os_to_conan_os("freebsd"), "FreeBSD");
}

#[test]
fn unknown_os_token_passes_through() {
    assert_eq!(cargo_os_to_conan_os("unknown_os"), "unknown_os");
}

#[test]
fn arch_tokens_are_translated() {
    assert_eq!(cargo_arch_to_conan_arch("powerpc"), "ppc32");
    assert_eq!(cargo_arch_to_conan_arch("powerpc64"), "ppc64");
    assert_eq!(cargo_arch_to_conan_arch("arm"), "armv7");
    assert_eq!(cargo_arch_to_conan_arch("aarch64"), "armv8");
    assert_eq!(cargo_arch_to_conan_arch("x86_64"), "x86_64");
}

#[test]
fn profile_names_are_translated() {
    assert_eq!(cargo_profile_to_conan_build_type("debug"), "Debug");
    assert_eq!(cargo_profile_to_conan_build_type("release"), "Release");
    assert_eq!(cargo_profile_to_conan_build_type("bench"), "bench");
}

#[test]
fn detected_settings_cover_present_tokens() {
    let settings = settings_from_cargo_tokens(Some("linux"), Some("aarch64"), Some("release"));
    assert_eq!(
        settings,
        vec![
            ("os".to_string(), "Linux".to_string()),
            ("arch".to_string(), "armv8".to_string()),
            ("build_type".to_string(), "Release".to_string()),
        ]
    );
    let none = settings_from_cargo_tokens(None, None, None);
    assert_eq!(none.len(), 0);
    let only_os = settings_from_cargo_tokens(Some("windows"), None, None);
    assert_eq!(only_os, vec![("os".to_string(), "Windows".to_string())]);
}

#[test]
fn remote_add_arguments_cover_all_options() {
    let mut remote = Remote::new("mine".to_string(), "https://example.com".to_string());
    assert_eq!(
        remote_add_arguments(&remote, None, false),
        vec!["remote", "add", "mine", "https://example.com"]
            .into_iter().map(str::to_string).collect::<Vec<String>>()
    );
    remote.verify_ssl = Some(true);
    assert_eq!(
        remote_add_arguments(&remote, Some(1234), true),
        vec!["remote", "add", "-i", "1234", "--force", "mine", "https://example.com", "True"]
            .into_iter().map(str::to_string).collect::<Vec<String>>()
    );
    remote.verify_ssl = Some(false);
    assert_eq!(
        remote_add_arguments(&remote, Some(0), false),
        vec!["remote", "add", "-i", "0", "mine", "https://example.com", "False"]
            .into_iter().map(str::to_string).collect::<Vec<String>>()
    );
}

#[test]
fn remote_remove_arguments_name_the_remote() {
    assert_eq!(
        remote_remove_arguments("mine"),
        vec!["remote", "remove", "mine"]
            .into_iter().map(str::to_string).collect::<Vec<String>>()
    );
}
