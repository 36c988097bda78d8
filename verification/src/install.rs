//! The configuration model for an installation request and the compiler
//! that turns it into the external tool's argument vector.
//!
//! The emission order is a wire contract: target, generators, install
//! folder, no-imports flag, build policies, environment maps, option maps,
//! profiles, remote, setting maps, update flag.  [`spec_install_args`]
//! states that order exactly and `to_commandline_arguments` is proved to
//! produce it.

use vstd::prelude::*;

verus! {

/// What an installation installs: a recipe file (with an optional
/// reference) or a package reference.
#[derive(Debug)]
pub enum InstallTarget {
    ConanFile { path: String, reference: Option<String> },
    Package { reference: String },
}

/// A name token for one of the tool's output-format generators.  The fixed
/// well-known names and caller-supplied custom tokens are both just names;
/// order in a configuration is significant and preserved into the output.
#[derive(Debug)]
pub struct Generator(&'static str);

impl Generator {
    /// The name token this generator emits after `-g`.
    pub closed spec fn spec_name(self) -> Seq<char> {
        self.0@
    }

    /// A generator under a caller-supplied name.
    pub fn custom(name: &'static str) -> (r: Generator)
        ensures
            r.spec_name() == name@,
    {
        Generator(name)
    }
}

/// A directive controlling which dependencies are built from source.  Each
/// entry of a configuration independently produces one `--build` directive.
#[derive(Debug)]
pub enum BuildConfiguration {
    All,
    Never,
    Missing,
    Cascade,
    Outdated,
    Package { pattern: String },
}

/// A complete description of one installation request.  Map-valued fields
/// are ordered key/value lists; a well-formed configuration has distinct
/// keys within each map (see [`distinct_keys`]).
#[derive(Debug)]
pub struct InstallArguments {
    pub install_target: InstallTarget,
    pub generators: Vec<Generator>,
    pub install_folder: String,
    pub no_imports: bool,
    pub build_configurations: Vec<BuildConfiguration>,
    pub envs: Vec<(String, String)>,
    pub envs_build: Vec<(String, String)>,
    pub options: Vec<(String, String)>,
    pub options_build: Vec<(String, String)>,
    pub profile: Option<String>,
    pub profile_build: Option<String>,
    pub remote: Option<String>,
    pub settings: Vec<(String, String)>,
    pub settings_build: Vec<(String, String)>,
    pub check_update: bool,
}

/// The tokens naming the install target: the recipe path followed by its
/// reference if one is present, or the bare package reference.
pub open spec fn target_tokens(t: InstallTarget) -> Seq<Seq<char>> {
    match t {
        InstallTarget::ConanFile { path, reference } => match reference {
            Some(r) => seq![path@, r@],
            None => seq![path@],
        },
        InstallTarget::Package { reference } => seq![reference@],
    }
}

/// `-g <name>` for each generator, in configuration order.
pub open spec fn generator_tokens(gens: Seq<Generator>) -> Seq<Seq<char>> {
    Seq::new(2 * gens.len(), |i: int| if i % 2 == 0 { "-g"@ } else { gens[i / 2].spec_name() })
}

/// `key=value`, the form in which one map entry is rendered.
pub open spec fn kv_text(e: (Seq<char>, Seq<char>)) -> Seq<char> {
    e.0 + "="@ + e.1
}

/// `<flag> key=value` for each entry of a map, in entry order.
pub open spec fn kv_tokens(flag: Seq<char>, m: Seq<(Seq<char>, Seq<char>)>) -> Seq<Seq<char>> {
    Seq::new(2 * m.len(), |i: int| if i % 2 == 0 { flag } else { kv_text(m[i / 2]) })
}

/// The tokens of one build policy: `--build` alone for `All`, `--build`
/// followed by a value token for every other variant.
pub open spec fn build_entry_tokens(b: BuildConfiguration) -> Seq<Seq<char>> {
    match b {
        BuildConfiguration::All => seq!["--build"@],
        BuildConfiguration::Never => seq!["--build"@, "never"@],
        BuildConfiguration::Missing => seq!["--build"@, "missing"@],
        BuildConfiguration::Cascade => seq!["--build"@, "cascade"@],
        BuildConfiguration::Outdated => seq!["--build"@, "outdated"@],
        BuildConfiguration::Package { pattern } => seq!["--build"@, pattern@],
    }
}

/// The concatenated build-policy directives, in configuration order.
pub open spec fn build_tokens(bs: Seq<BuildConfiguration>) -> Seq<Seq<char>>
    decreases bs.len(),
{
    if bs.len() == 0 {
        Seq::empty()
    } else {
        build_tokens(bs.drop_last()) + build_entry_tokens(bs.last())
    }
}

/// `<flag> <value>` when the optional value is present, nothing otherwise.
pub open spec fn option_tokens(flag: Seq<char>, v: Option<String>) -> Seq<Seq<char>> {
    match v {
        Some(s) => seq![flag, s@],
        None => Seq::empty(),
    }
}

/// A bare flag when the switch is on, nothing otherwise.
pub open spec fn flag_tokens(on: bool, flag: Seq<char>) -> Seq<Seq<char>> {
    if on {
        seq![flag]
    } else {
        Seq::empty()
    }
}

/// The exact argument vector for an installation request, in the emission
/// order the external tool's `install` operation expects.
pub open spec fn spec_install_args(c: InstallArguments) -> Seq<Seq<char>> {
    seq!["install"@] + target_tokens(c.install_target) + generator_tokens(c.generators@) + seq![
        "-if"@,
        c.install_folder@,
    ] + flag_tokens(c.no_imports, "--no-imports"@) + build_tokens(c.build_configurations@)
        + kv_tokens("-e"@, c.envs.deep_view()) + kv_tokens("-e:b"@, c.envs_build.deep_view())
        + kv_tokens("-o"@, c.options.deep_view()) + kv_tokens(
        "-o:b"@,
        c.options_build.deep_view(),
    ) + option_tokens("-pr"@, c.profile) + option_tokens("-pr:b"@, c.profile_build)
        + option_tokens("-r"@, c.remote) + kv_tokens("-s"@, c.settings.deep_view()) + kv_tokens(
        "-s:b"@,
        c.settings_build.deep_view(),
    ) + flag_tokens(c.check_update, "--update"@)
}

/// No two entries of the map share a key.
pub open spec fn distinct_keys(m: Seq<(Seq<char>, Seq<char>)>) -> bool {
    forall|i: int, j: int| 0 <= i < j < m.len() ==> m[i].0 != m[j].0
}

/// Appends `<flag> key=value` for every entry of `m`, in entry order.
fn push_kv_tokens(result: &mut Vec<String>, flag: &str, m: &Vec<(String, String)>)
    ensures
        final(result).deep_view() == old(result).deep_view() + kv_tokens(flag@, m.deep_view()),
{
    let ghost base = result.deep_view();
    let n = m.len();
    let mut j: usize = 0;
    while j < n
        invariant
            n == m@.len(),
            j <= n,
            result.deep_view() =~~= base + kv_tokens(flag@, m.deep_view().take(j as int)),
        decreases n - j,
    {
        let ghost pre = result.deep_view();
        result.push(String::from_str(flag));
        let text = m[j].0.clone().concat("=").concat(m[j].1.as_str());
        proof {
            assert(text@ == kv_text(m.deep_view()[j as int]));
        }
        result.push(text);
        proof {
            let dv = m.deep_view();
            assert(result.deep_view() =~= pre.push(flag@).push(kv_text(dv[j as int])));
            assert(kv_tokens(flag@, dv.take(j as int + 1)) =~= kv_tokens(
                flag@,
                dv.take(j as int),
            ).push(flag@).push(kv_text(dv[j as int])));
            assert(base + kv_tokens(flag@, dv.take(j as int + 1)) =~= (base + kv_tokens(
                flag@,
                dv.take(j as int),
            )).push(flag@).push(kv_text(dv[j as int])));
        }
        j += 1;
    }
    proof {
        assert(m.deep_view().take(n as int) =~= m.deep_view());
    }
}

impl InstallArguments {
    /// Compiles the configuration into the argument vector of the external
    /// tool's `install` operation, exactly as [`spec_install_args`] states.
    pub fn to_commandline_arguments(&self) -> (r: Vec<String>)
        ensures
            r.deep_view() == spec_install_args(*self),
    {
        let mut result: Vec<String> = Vec::new();
        result.push(String::from_str("install"));
        proof {
            assert(result.deep_view() =~~= seq!["install"@]);
        }

        match &self.install_target {
            InstallTarget::ConanFile { path, reference } => {
                result.push(path.clone());
                if let Some(reference) = reference {
                    result.push(reference.clone());
                }
            },
            InstallTarget::Package { reference } => {
                result.push(reference.clone());
            },
        }
        let ghost done = seq!["install"@] + target_tokens(self.install_target);
        proof {
            assert(result.deep_view() =~~= done);
        }

        let gn = self.generators.len();
        let mut j: usize = 0;
        while j < gn
            invariant
                gn == self.generators@.len(),
                j <= gn,
                result.deep_view() =~~= done + generator_tokens(self.generators@.take(j as int)),
            decreases gn - j,
        {
            let ghost pre = result.deep_view();
            result.push(String::from_str("-g"));
            result.push(String::from_str(self.generators[j].0));
            proof {
                let gs = self.generators@;
                assert(result.deep_view() =~= pre.push("-g"@).push(gs[j as int].spec_name()));
                assert(generator_tokens(gs.take(j as int + 1)) =~= generator_tokens(
                    gs.take(j as int),
                ).push("-g"@).push(gs[j as int].spec_name()));
                assert(done + generator_tokens(gs.take(j as int + 1)) =~= (done + generator_tokens(
                    gs.take(j as int),
                )).push("-g"@).push(gs[j as int].spec_name()));
            }
            j += 1;
        }
        proof {
            assert(self.generators@.take(gn as int) =~= self.generators@);
        }
        let ghost done = done + generator_tokens(self.generators@);

        result.push(String::from_str("-if"));
        result.push(self.install_folder.clone());
        let ghost done = done + seq!["-if"@, self.install_folder@];
        proof {
            assert(result.deep_view() =~~= done);
        }

        if self.no_imports {
            result.push(String::from_str("--no-imports"));
        }
        let ghost done = done + flag_tokens(self.no_imports, "--no-imports"@);
        proof {
            assert(result.deep_view() =~~= done);
        }

        let bn = self.build_configurations.len();
        let mut j: usize = 0;
        while j < bn
            invariant
                bn == self.build_configurations@.len(),
                j <= bn,
                result.deep_view() =~~= done + build_tokens(
                    self.build_configurations@.take(j as int),
                ),
            decreases bn - j,
        {
            let ghost pre = result.deep_view();
            result.push(String::from_str("--build"));
            match &self.build_configurations[j] {
                BuildConfiguration::All => {},
                BuildConfiguration::Never => {
                    result.push(String::from_str("never"));
                },
                BuildConfiguration::Missing => {
                    result.push(String::from_str("missing"));
                },
                BuildConfiguration::Cascade => {
                    result.push(String::from_str("cascade"));
                },
                BuildConfiguration::Outdated => {
                    result.push(String::from_str("outdated"));
                },
                BuildConfiguration::Package { pattern } => {
                    result.push(pattern.clone());
                },
            }
            proof {
                let b = self.build_configurations@[j as int];
                assert(result.deep_view() =~= pre + build_entry_tokens(b));
                let prefix = self.build_configurations@.take(j as int);
                let cur = self.build_configurations@.take(j as int + 1);
                assert(cur.drop_last() =~= prefix);
                assert(cur.last() == b);
                assert(build_tokens(cur) == build_tokens(prefix) + build_entry_tokens(b));
                assert(done + build_tokens(cur) =~= (done + build_tokens(prefix))
                    + build_entry_tokens(b));
            }
            j += 1;
        }
        proof {
            assert(self.build_configurations@.take(bn as int) =~= self.build_configurations@);
        }
        let ghost done = done + build_tokens(self.build_configurations@);

        push_kv_tokens(&mut result, "-e", &self.envs);
        push_kv_tokens(&mut result, "-e:b", &self.envs_build);
        push_kv_tokens(&mut result, "-o", &self.options);
        push_kv_tokens(&mut result, "-o:b", &self.options_build);
        let ghost done = done + kv_tokens("-e"@, self.envs.deep_view()) + kv_tokens(
            "-e:b"@,
            self.envs_build.deep_view(),
        ) + kv_tokens("-o"@, self.options.deep_view()) + kv_tokens(
            "-o:b"@,
            self.options_build.deep_view(),
        );

        if let Some(profile) = &self.profile {
            result.push(String::from_str("-pr"));
            result.push(profile.clone());
        }
        let ghost done = done + option_tokens("-pr"@, self.profile);
        proof {
            assert(result.deep_view() =~~= done);
        }

        if let Some(profile_build) = &self.profile_build {
            result.push(String::from_str("-pr:b"));
            result.push(profile_build.clone());
        }
        let ghost done = done + option_tokens("-pr:b"@, self.profile_build);
        proof {
            assert(result.deep_view() =~~= done);
        }

        if let Some(remote) = &self.remote {
            result.push(String::from_str("-r"));
            result.push(remote.clone());
        }
        let ghost done = done + option_tokens("-r"@, self.remote);
        proof {
            assert(result.deep_view() =~~= done);
        }

        push_kv_tokens(&mut result, "-s", &self.settings);
        push_kv_tokens(&mut result, "-s:b", &self.settings_build);
        let ghost done = done + kv_tokens("-s"@, self.settings.deep_view()) + kv_tokens(
            "-s:b"@,
            self.settings_build.deep_view(),
        );

        if self.check_update {
            result.push(String::from_str("--update"));
        }
        proof {
            assert(result.deep_view() =~~= done + flag_tokens(self.check_update, "--update"@));
        }

        result
    }
}

/// The index in the argument vector at which the generator section starts.
pub open spec fn generator_section_start(c: InstallArguments) -> int {
    1 + target_tokens(c.install_target).len() as int
}

/// The index at which the host-environment (`-e`) section starts.
pub open spec fn env_section_start(c: InstallArguments) -> int {
    generator_section_start(c) + 2 * c.generators@.len() as int + 2 + flag_tokens(
        c.no_imports,
        "--no-imports"@,
    ).len() as int + build_tokens(c.build_configurations@).len() as int
}

/// The index at which the build-environment (`-e:b`) section starts.
pub open spec fn env_build_section_start(c: InstallArguments) -> int {
    env_section_start(c) + 2 * c.envs@.len() as int
}

/// The index at which the host-option (`-o`) section starts.
pub open spec fn option_section_start(c: InstallArguments) -> int {
    env_build_section_start(c) + 2 * c.envs_build@.len() as int
}

/// The index at which the build-option (`-o:b`) section starts.
pub open spec fn option_build_section_start(c: InstallArguments) -> int {
    option_section_start(c) + 2 * c.options@.len() as int
}

/// The index at which the host-setting (`-s`) section starts.
pub open spec fn setting_section_start(c: InstallArguments) -> int {
    option_build_section_start(c) + 2 * c.options_build@.len() as int + option_tokens(
        "-pr"@,
        c.profile,
    ).len() as int + option_tokens("-pr:b"@, c.profile_build).len() as int + option_tokens(
        "-r"@,
        c.remote,
    ).len() as int
}

/// The index at which the build-setting (`-s:b`) section starts.
pub open spec fn setting_build_section_start(c: InstallArguments) -> int {
    setting_section_start(c) + 2 * c.settings@.len() as int
}

/// A token of the middle part of a three-way concatenation, read at its
/// offset in the whole.
proof fn lemma_index_mid(
    pre: Seq<Seq<char>>,
    mid: Seq<Seq<char>>,
    post: Seq<Seq<char>>,
    i: int,
)
    requires
        0 <= i < mid.len(),
    ensures
        (pre + mid + post)[pre.len() + i] == mid[i],
{
    assert((pre + mid)[pre.len() + i] == mid[i]);
}

/// The compiler is deterministic with respect to the generator list:
/// generators appear as contiguous `-g <name>` pairs, in exactly the order
/// the configuration lists them.
#[verifier::rlimit(100)]
pub proof fn lemma_generators_in_order(c: InstallArguments)
    ensures
        forall|i: int|
            0 <= i < c.generators@.len() ==> {
                &&& spec_install_args(c)[generator_section_start(c) + 2 * i] == "-g"@
                &&& spec_install_args(c)[generator_section_start(c) + 2 * i + 1]
                    == c.generators@[i].spec_name()
            },
{
    let g = generator_tokens(c.generators@);
    let pre = seq!["install"@] + target_tokens(c.install_target);
    let post = seq!["-if"@, c.install_folder@] + flag_tokens(c.no_imports, "--no-imports"@)
        + build_tokens(c.build_configurations@) + kv_tokens("-e"@, c.envs.deep_view()) + kv_tokens(
        "-e:b"@,
        c.envs_build.deep_view(),
    ) + kv_tokens("-o"@, c.options.deep_view()) + kv_tokens("-o:b"@, c.options_build.deep_view())
        + option_tokens("-pr"@, c.profile) + option_tokens("-pr:b"@, c.profile_build)
        + option_tokens("-r"@, c.remote) + kv_tokens("-s"@, c.settings.deep_view()) + kv_tokens(
        "-s:b"@,
        c.settings_build.deep_view(),
    ) + flag_tokens(c.check_update, "--update"@);
    assert(spec_install_args(c) =~= pre + g + post);
    assert(pre.len() == generator_section_start(c));
    assert forall|i: int| 0 <= i < c.generators@.len() implies {
        &&& spec_install_args(c)[generator_section_start(c) + 2 * i] == "-g"@
        &&& spec_install_args(c)[generator_section_start(c) + 2 * i + 1]
            == c.generators@[i].spec_name()
    } by {
        assert(g[2 * i] == "-g"@);
        assert(g[2 * i + 1] == c.generators@[i].spec_name());
        lemma_index_mid(pre, g, post, 2 * i);
        lemma_index_mid(pre, g, post, 2 * i + 1);
    }
}

/// Each build policy independently produces one directive: `All` emits the
/// bare `--build` flag, every other policy emits `--build` and one value
/// token, and a list of policies emits the concatenation of its entries'
/// directives in list order.
pub proof fn lemma_build_directive_shapes()
    ensures
        build_entry_tokens(BuildConfiguration::All) == seq!["--build"@],
        build_entry_tokens(BuildConfiguration::Never) == seq!["--build"@, "never"@],
        build_entry_tokens(BuildConfiguration::Missing) == seq!["--build"@, "missing"@],
        build_entry_tokens(BuildConfiguration::Cascade) == seq!["--build"@, "cascade"@],
        build_entry_tokens(BuildConfiguration::Outdated) == seq!["--build"@, "outdated"@],
        forall|p: String|
            build_entry_tokens(BuildConfiguration::Package { pattern: p }) == seq![
                "--build"@,
                p@,
            ],
        forall|bs: Seq<BuildConfiguration>, b: BuildConfiguration|
            #[trigger] build_tokens(bs.push(b)) == build_tokens(bs) + build_entry_tokens(b),
{
    assert forall|bs: Seq<BuildConfiguration>, b: BuildConfiguration| #[trigger] build_tokens(
        bs.push(b),
    ) == build_tokens(bs) + build_entry_tokens(b) by {
        assert(bs.push(b).drop_last() =~= bs);
        assert(bs.push(b).last() == b);
    }
}

/// In a map with distinct keys, the entry holding a given key is the only
/// one with that key, and it is rendered exactly once: as the value token
/// `key=value` right after its flag token.
pub proof fn lemma_each_key_once(flag: Seq<char>, m: Seq<(Seq<char>, Seq<char>)>, i: int)
    requires
        distinct_keys(m),
        0 <= i < m.len(),
    ensures
        forall|j: int| 0 <= j < m.len() && m[j].0 == m[i].0 ==> j == i,
        kv_tokens(flag, m)[2 * i] == flag,
        kv_tokens(flag, m)[2 * i + 1] == m[i].0 + "="@ + m[i].1,
{
    assert forall|j: int| 0 <= j < m.len() && m[j].0 == m[i].0 implies j == i by {
        if j < i {
            assert(m[j].0 != m[i].0);
        } else if i < j {
            assert(m[i].0 != m[j].0);
        }
    }
    assert(kv_tokens(flag, m)[2 * i] == flag);
    assert(kv_tokens(flag, m)[2 * i + 1] == kv_text(m[i]));
}

/// Every map-valued field of the configuration is emitted as one contiguous
/// section of the argument vector, at its fixed offset: the argument tokens
/// there are exactly the map's `kv_tokens`.
#[verifier::rlimit(100)]
pub proof fn lemma_map_sections_in_place(c: InstallArguments)
    ensures
        forall|i: int|
            0 <= i < 2 * c.envs@.len() ==> spec_install_args(c)[env_section_start(c) + i]
                == kv_tokens("-e"@, c.envs.deep_view())[i],
        forall|i: int|
            0 <= i < 2 * c.envs_build@.len() ==> spec_install_args(c)[env_build_section_start(c)
                + i] == kv_tokens("-e:b"@, c.envs_build.deep_view())[i],
        forall|i: int|
            0 <= i < 2 * c.options@.len() ==> spec_install_args(c)[option_section_start(c) + i]
                == kv_tokens("-o"@, c.options.deep_view())[i],
        forall|i: int|
            0 <= i < 2 * c.options_build@.len() ==> spec_install_args(c)[option_build_section_start(
                c,
            ) + i] == kv_tokens("-o:b"@, c.options_build.deep_view())[i],
        forall|i: int|
            0 <= i < 2 * c.settings@.len() ==> spec_install_args(c)[setting_section_start(c) + i]
                == kv_tokens("-s"@, c.settings.deep_view())[i],
        forall|i: int|
            0 <= i < 2 * c.settings_build@.len() ==> spec_install_args(c)[setting_build_section_start(
                c,
            ) + i] == kv_tokens("-s:b"@, c.settings_build.deep_view())[i],
{
    let s0 = seq!["install"@] + target_tokens(c.install_target) + generator_tokens(c.generators@)
        + seq!["-if"@, c.install_folder@] + flag_tokens(c.no_imports, "--no-imports"@)
        + build_tokens(c.build_configurations@);
    let e = kv_tokens("-e"@, c.envs.deep_view());
    let eb = kv_tokens("-e:b"@, c.envs_build.deep_view());
    let o = kv_tokens("-o"@, c.options.deep_view());
    let ob = kv_tokens("-o:b"@, c.options_build.deep_view());
    let profs = option_tokens("-pr"@, c.profile) + option_tokens("-pr:b"@, c.profile_build)
        + option_tokens("-r"@, c.remote);
    let s = kv_tokens("-s"@, c.settings.deep_view());
    let sb = kv_tokens("-s:b"@, c.settings_build.deep_view());
    let upd = flag_tokens(c.check_update, "--update"@);

    assert(spec_install_args(c) =~= s0 + e + eb + o + ob + profs + s + sb + upd);
    assert(s0.len() == env_section_start(c));
    assert((s0 + e).len() == env_build_section_start(c));
    assert((s0 + e + eb).len() == option_section_start(c));
    assert((s0 + e + eb + o).len() == option_build_section_start(c));
    assert((s0 + e + eb + o + ob + profs).len() == setting_section_start(c));
    assert((s0 + e + eb + o + ob + profs + s).len() == setting_build_section_start(c));
    let whole = s0 + e + eb + o + ob + profs + s + sb + upd;
    assert forall|i: int| 0 <= i < 2 * c.envs@.len() implies whole[env_section_start(c) + i]
        == e[i] by {
        assert((s0 + e)[s0.len() + i] == e[i]);
    }
    assert forall|i: int| 0 <= i < 2 * c.envs_build@.len() implies whole[env_build_section_start(c)
        + i] == eb[i] by {
        assert((s0 + e + eb)[(s0 + e).len() + i] == eb[i]);
    }
    assert forall|i: int| 0 <= i < 2 * c.options@.len() implies whole[option_section_start(c) + i]
        == o[i] by {
        assert((s0 + e + eb + o)[(s0 + e + eb).len() + i] == o[i]);
    }
    assert forall|i: int| 0 <= i < 2 * c.options_build@.len() implies whole[
        option_build_section_start(c) + i] == ob[i] by {
        assert((s0 + e + eb + o + ob)[(s0 + e + eb + o).len() + i] == ob[i]);
    }
    assert forall|i: int| 0 <= i < 2 * c.settings@.len() implies whole[setting_section_start(c)
        + i] == s[i] by {
        assert((s0 + e + eb + o + ob + profs + s)[(s0 + e + eb + o + ob + profs).len() + i]
            == s[i]);
    }
    assert forall|i: int| 0 <= i < 2 * c.settings_build@.len() implies whole[
        setting_build_section_start(c) + i] == sb[i] by {
        assert((s0 + e + eb + o + ob + profs + s + sb)[(s0 + e + eb + o + ob + profs + s).len()
            + i] == sb[i]);
    }
}

/// Step-wise construction of an [`InstallArguments`] record.  Every field
/// other than the target and the install folder starts at its default; each
/// setter replaces exactly one field.
pub struct InstallArgumentsBuilder {
    install_target: InstallTarget,
    generators: Vec<Generator>,
    install_folder: String,
    no_imports: bool,
    build_configurations: Vec<BuildConfiguration>,
    envs: Vec<(String, String)>,
    envs_build: Vec<(String, String)>,
    options: Vec<(String, String)>,
    options_build: Vec<(String, String)>,
    profile: Option<String>,
    profile_build: Option<String>,
    remote: Option<String>,
    settings: Vec<(String, String)>,
    settings_build: Vec<(String, String)>,
    check_update: bool,
}

impl InstallArgumentsBuilder {
    /// The configuration [`build`](Self::build) would currently produce.
    pub closed spec fn spec_current(self) -> InstallArguments {
        InstallArguments {
            install_target: self.install_target,
            generators: self.generators,
            install_folder: self.install_folder,
            no_imports: self.no_imports,
            build_configurations: self.build_configurations,
            envs: self.envs,
            envs_build: self.envs_build,
            options: self.options,
            options_build: self.options_build,
            profile: self.profile,
            profile_build: self.profile_build,
            remote: self.remote,
            settings: self.settings,
            settings_build: self.settings_build,
            check_update: self.check_update,
        }
    }

    /// A builder whose defaults are: no generators, imports allowed, the
    /// build policy `All`, empty maps, no profiles, no remote, no update.
    pub fn new(install_target: InstallTarget, install_folder: String) -> (r:
        InstallArgumentsBuilder)
        ensures
            r.spec_current().install_target == install_target,
            r.spec_current().generators@ =~= Seq::<Generator>::empty(),
            r.spec_current().install_folder == install_folder,
            r.spec_current().no_imports == false,
            r.spec_current().build_configurations@ =~= seq![BuildConfiguration::All],
            r.spec_current().envs@ =~= Seq::<(String, String)>::empty(),
            r.spec_current().envs_build@ =~= Seq::<(String, String)>::empty(),
            r.spec_current().options@ =~= Seq::<(String, String)>::empty(),
            r.spec_current().options_build@ =~= Seq::<(String, String)>::empty(),
            r.spec_current().profile is None,
            r.spec_current().profile_build is None,
            r.spec_current().remote is None,
            r.spec_current().settings@ =~= Seq::<(String, String)>::empty(),
            r.spec_current().settings_build@ =~= Seq::<(String, String)>::empty(),
            r.spec_current().check_update == false,
    {
        let mut build_configurations: Vec<BuildConfiguration> = Vec::new();
        build_configurations.push(BuildConfiguration::All);
        InstallArgumentsBuilder {
            install_target,
            generators: Vec::new(),
            install_folder,
            no_imports: false,
            build_configurations,
            envs: Vec::new(),
            envs_build: Vec::new(),
            options: Vec::new(),
            options_build: Vec::new(),
            profile: None,
            profile_build: None,
            remote: None,
            settings: Vec::new(),
            settings_build: Vec::new(),
            check_update: false,
        }
    }

    pub fn generators(&mut self, value: Vec<Generator>)
        ensures
            final(self).spec_current() == (InstallArguments {
                generators: value,
                ..old(self).spec_current()
            }),
    {
        self.generators = value;
    }

    pub fn no_imports(&mut self, value: bool)
        ensures
            final(self).spec_current() == (InstallArguments {
                no_imports: value,
                ..old(self).spec_current()
            }),
    {
        self.no_imports = value;
    }

    pub fn build_configurations(&mut self, value: Vec<BuildConfiguration>)
        ensures
            final(self).spec_current() == (InstallArguments {
                build_configurations: value,
                ..old(self).spec_current()
            }),
    {
        self.build_configurations = value;
    }

    pub fn envs(&mut self, value: Vec<(String, String)>)
        ensures
            final(self).spec_current() == (InstallArguments {
                envs: value,
                ..old(self).spec_current()
            }),
    {
        self.envs = value;
    }

    pub fn envs_build(&mut self, value: Vec<(String, String)>)
        ensures
            final(self).spec_current() == (InstallArguments {
                envs_build: value,
                ..old(self).spec_current()
            }),
    {
        self.envs_build = value;
    }

    pub fn options(&mut self, value: Vec<(String, String)>)
        ensures
            final(self).spec_current() == (InstallArguments {
                options: value,
                ..old(self).spec_current()
            }),
    {
        self.options = value;
    }

    pub fn options_build(&mut self, value: Vec<(String, String)>)
        ensures
            final(self).spec_current() == (InstallArguments {
                options_build: value,
                ..old(self).spec_current()
            }),
    {
        self.options_build = value;
    }

    pub fn profile(&mut self, value: String)
        ensures
            final(self).spec_current() == (InstallArguments {
                profile: Some(value),
                ..old(self).spec_current()
            }),
    {
        self.profile = Some(value);
    }

    pub fn profile_build(&mut self, value: String)
        ensures
            final(self).spec_current() == (InstallArguments {
                profile_build: Some(value),
                ..old(self).spec_current()
            }),
    {
        self.profile_build = Some(value);
    }

    pub fn remote(&mut self, value: String)
        ensures
            final(self).spec_current() == (InstallArguments {
                remote: Some(value),
                ..old(self).spec_current()
            }),
    {
        self.remote = Some(value);
    }

    pub fn settings(&mut self, value: Vec<(String, String)>)
        ensures
            final(self).spec_current() == (InstallArguments {
                settings: value,
                ..old(self).spec_current()
            }),
    {
        self.settings = value;
    }

    pub fn settings_build(&mut self, value: Vec<(String, String)>)
        ensures
            final(self).spec_current() == (InstallArguments {
                settings_build: value,
                ..old(self).spec_current()
            }),
    {
        self.settings_build = value;
    }

    pub fn check_update(&mut self, value: bool)
        ensures
            final(self).spec_current() == (InstallArguments {
                check_update: value,
                ..old(self).spec_current()
            }),
    {
        self.check_update = value;
    }

    /// The finished, immutable configuration record.
    pub fn build(self) -> (r: InstallArguments)
        ensures
            r == self.spec_current(),
    {
        InstallArguments {
            install_target: self.install_target,
            generators: self.generators,
            install_folder: self.install_folder,
            no_imports: self.no_imports,
            build_configurations: self.build_configurations,
            envs: self.envs,
            envs_build: self.envs_build,
            options: self.options,
            options_build: self.options_build,
            profile: self.profile,
            profile_build: self.profile_build,
            remote: self.remote,
            settings: self.settings,
            settings_build: self.settings_build,
            check_update: self.check_update,
        }
    }
}

} // verus!
