//! Integration layer between a build system and the Conan C/C++ package
//! manager's command-line tool.
//!
//! The library compiles a structured installation configuration into the
//! exact argument vector the tool expects, parses the tool's textual and
//! JSON output into typed records, and translates platform-naming
//! vocabulary between the build system and the tool.  Process spawning and
//! output capture are left to the caller; everything here is a pure
//! transformation with a verified contract.

use vstd::prelude::*;

pub mod build_info;
pub mod cargo;
pub mod install;
pub mod json;
pub mod output;
pub mod strutil;

verus! {

/// The Conan executable itself is opaque to this library: it is located and
/// spawned by the caller.  `std::path::PathBuf` carries its location; the
/// library never inspects it.
#[verifier::external_type_specification]
#[verifier::external_body]
pub struct ExPathBuf(std::path::PathBuf);

/// A handle to the external package-manager executable.
pub struct Conan {
    pub path: std::path::PathBuf,
}

impl Conan {
    pub fn new(conan_path: std::path::PathBuf) -> (r: Conan)
        ensures
            r.path == conan_path,
    {
        Conan { path: conan_path }
    }
}

/// A configured package-repository endpoint: name, URL, and an optional
/// tri-state SSL-verification flag.
#[derive(Debug, PartialEq)]
pub struct Remote {
    pub name: String,
    pub url: String,
    pub verify_ssl: Option<bool>,
}

/// The mathematical value of a [`Remote`].
pub ghost struct RemoteView {
    pub name: Seq<char>,
    pub url: Seq<char>,
    pub verify_ssl: Option<bool>,
}

impl View for Remote {
    type V = RemoteView;

    open spec fn view(&self) -> RemoteView {
        RemoteView { name: self.name@, url: self.url@, verify_ssl: self.verify_ssl }
    }
}

impl DeepView for Remote {
    type V = RemoteView;

    open spec fn deep_view(&self) -> RemoteView {
        self.view()
    }
}

impl Remote {
    /// A remote with the given name and URL and the SSL flag left unset.
    pub fn new(name: String, url: String) -> (r: Remote)
        ensures
            r@ == (RemoteView { name: name@, url: url@, verify_ssl: None }),
    {
        Remote { name, url, verify_ssl: None }
    }
}

/// The arguments of the tool's `remote add` operation: the subcommand, the
/// insertion index and force flag when asked for, the remote's name and
/// URL, and its SSL policy when one is set.
pub open spec fn spec_remote_add_args(r: RemoteView, index: Option<u32>, force: bool) -> Seq<
    Seq<char>,
> {
    seq!["remote"@, "add"@] + (match index {
        Some(i) => seq!["-i"@, strutil::spec_decimal(i as nat)],
        None => Seq::empty(),
    }) + (if force {
        seq!["--force"@]
    } else {
        Seq::empty()
    }) + seq![r.name, r.url] + (match r.verify_ssl {
        Some(true) => seq!["True"@],
        Some(false) => seq!["False"@],
        None => Seq::empty(),
    })
}

/// Builds the argument vector that registers a remote with the tool.
pub fn remote_add_arguments(remote: &Remote, index: Option<u32>, force: bool) -> (r: Vec<String>)
    ensures
        r.deep_view() == spec_remote_add_args(remote@, index, force),
{
    let mut result: Vec<String> = Vec::new();
    result.push(String::from_str("remote"));
    result.push(String::from_str("add"));
    if let Some(i) = index {
        result.push(String::from_str("-i"));
        result.push(strutil::u32_decimal(i));
    }
    if force {
        result.push(String::from_str("--force"));
    }
    result.push(remote.name.clone());
    result.push(remote.url.clone());
    match remote.verify_ssl {
        Some(true) => {
            result.push(String::from_str("True"));
        },
        Some(false) => {
            result.push(String::from_str("False"));
        },
        None => {},
    }
    proof {
        assert(result.deep_view() =~= spec_remote_add_args(remote@, index, force));
    }
    result
}

/// Builds the argument vector that removes a remote from the tool.
pub fn remote_remove_arguments(remote_name: &str) -> (r: Vec<String>)
    ensures
        r.deep_view() =~= seq!["remote"@, "remove"@, remote_name@],
{
    let mut result: Vec<String> = Vec::new();
    result.push(String::from_str("remote"));
    result.push(String::from_str("remove"));
    result.push(String::from_str(remote_name));
    proof {
        assert(result.deep_view() =~= seq!["remote"@, "remove"@, remote_name@]);
    }
    result
}

} // verus!
