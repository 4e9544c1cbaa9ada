//! The build command: the argument list handed to the build tool, the
//! extraction run over its output stream, and the staging plan that
//! copies built libraries into the per-platform build directory.

use vstd::prelude::*;
use crate::dedup::{dedup_first, dedup_names};
use crate::events::event_of;
use crate::extract::{
    artifacts_of_event, spec_ext_of, BuiltPlugin, Extractor, PluginModel,
};
use crate::platform::PlatformDetail;

verus! {

/// The characters of an optional string.
pub open spec fn opt_chars(o: Option<String>) -> Option<Seq<char>> {
    match o {
        Some(s) => Some(s@),
        None => None,
    }
}

/// A failure of the external build toolchain; fatal for the whole run.
#[derive(Clone, Copy, Debug, PartialEq, Eq, Structural)]
pub enum ExtractError {
    /// The build tool exited with a nonzero status: nothing it reported
    /// can be trusted, no artifact set is returned.
    BuildToolFailed,
    /// No explicit target was given and the toolchain's self-report
    /// named no host triple.
    HostTripleUnresolved,
}

/// The `--package` arguments for a crate list.
pub open spec fn pkg_args(names: Seq<Seq<char>>) -> Seq<Seq<char>>
    decreases names.len(),
{
    if names.len() == 0 {
        Seq::<Seq<char>>::empty()
    } else {
        pkg_args(names.drop_last()) + seq!["--package"@, names.last()]
    }
}

/// The flag list of an optional extra-flags field.
pub open spec fn flags_chars(o: Option<Vec<String>>) -> Seq<Seq<char>> {
    match o {
        Some(f) => f.deep_view(),
        None => Seq::<Seq<char>>::empty(),
    }
}

/// The full argument list handed to the build tool.
pub open spec fn spec_cargo_args(
    release: bool,
    all: bool,
    crate_names: Seq<Seq<char>>,
    target: Option<Seq<char>>,
    flags: Seq<Seq<char>>,
) -> Seq<Seq<char>> {
    seq!["build"@, "--message-format=json-render-diagnostics"@] + (if release {
        seq!["--release"@]
    } else {
        Seq::<Seq<char>>::empty()
    }) + (if all {
        seq!["--workspace"@]
    } else {
        Seq::<Seq<char>>::empty()
    }) + pkg_args(crate_names) + (match target {
        Some(t) => seq!["--target"@, t],
        None => Seq::<Seq<char>>::empty(),
    }) + flags
}

/// The target the artifacts are tagged with: the explicit one when
/// given, else the host's native triple.
pub open spec fn spec_resolved_target(
    explicit: Option<Seq<char>>,
    host: Option<Seq<char>>,
) -> Option<Seq<char>> {
    match explicit {
        Some(t) => Some(t),
        None => host,
    }
}

/// The artifacts a whole event stream yields, line by line.
pub open spec fn extract_from_lines(lines: Seq<Seq<char>>, target: Seq<char>) -> Seq<PluginModel>
    decreases lines.len(),
{
    if lines.len() == 0 {
        Seq::<PluginModel>::empty()
    } else {
        extract_from_lines(lines.drop_last(), target) + artifacts_of_event(
            event_of(lines.last()),
            target,
        )
    }
}

/// Options of one build-tool invocation.
#[derive(Clone, Debug)]
pub struct BaseCargoBuildCommand {
    /// Build for production.
    pub release: bool,
    /// Build these crates only.
    pub crate_name: Vec<String>,
    /// Build all crates in the workspace.
    pub all: bool,
    /// Explicit target triple.
    pub target: Option<String>,
    /// Extra flags passed through to the build tool.
    pub cargo_flags: Option<Vec<String>>,
}

impl BaseCargoBuildCommand {
    /// The argument list for the build-tool invocation these options
    /// describe.
    pub fn cargo_args(&self) -> (r: Vec<String>)
        ensures
            r.deep_view() == spec_cargo_args(
                self.release,
                self.all,
                self.crate_name.deep_view(),
                opt_chars(self.target),
                flags_chars(self.cargo_flags),
            ),
    {
        let mut args: Vec<String> = Vec::new();
        args.push(String::from_str("build"));
        args.push(String::from_str("--message-format=json-render-diagnostics"));
        if self.release {
            args.push(String::from_str("--release"));
        }
        if self.all {
            args.push(String::from_str("--workspace"));
        }
        let ghost prefix = seq!["build"@, "--message-format=json-render-diagnostics"@] + (
        if self.release {
            seq!["--release"@]
        } else {
            Seq::<Seq<char>>::empty()
        }) + (if self.all {
            seq!["--workspace"@]
        } else {
            Seq::<Seq<char>>::empty()
        });
        proof {
            assert(args.deep_view() =~= prefix);
        }
        let n = self.crate_name.len();
        let mut i: usize = 0;
        while i < n
            invariant
                0 <= i <= n,
                n == self.crate_name.len(),
                args.deep_view() == prefix + pkg_args(self.crate_name.deep_view().take(i as int)),
            decreases n - i,
        {
            let ghost pre = args.deep_view();
            args.push(String::from_str("--package"));
            args.push(self.crate_name[i].clone());
            proof {
                let cn = self.crate_name.deep_view();
                assert(args.deep_view() =~= pre + seq!["--package"@, cn[i as int]]);
                assert(cn.take(i + 1).drop_last() =~= cn.take(i as int));
                assert(cn.take(i + 1).last() == cn[i as int]);
                assert(args.deep_view() =~= prefix + pkg_args(cn.take(i + 1)));
            }
            i = i + 1;
        }
        proof {
            let cn = self.crate_name.deep_view();
            assert(cn.take(n as int) =~= cn);
        }
        let ghost mid = args.deep_view();
        match &self.target {
            Some(t) => {
                args.push(String::from_str("--target"));
                args.push(t.clone());
                proof {
                    assert(args.deep_view() =~= mid + seq!["--target"@, t@]);
                }
            },
            None => {
                proof {
                    assert(args.deep_view() =~= mid + Seq::<Seq<char>>::empty());
                }
            },
        }
        let ghost mid2 = args.deep_view();
        match &self.cargo_flags {
            Some(flags) => {
                let m = flags.len();
                let mut j: usize = 0;
                while j < m
                    invariant
                        0 <= j <= m,
                        m == flags.len(),
                        args.deep_view() == mid2 + flags.deep_view().take(j as int),
                    decreases m - j,
                {
                    let ghost pre = args.deep_view();
                    args.push(flags[j].clone());
                    proof {
                        let fv = flags.deep_view();
                        assert(args.deep_view() =~= pre.push(fv[j as int]));
                        assert(fv.take(j + 1) =~= fv.take(j as int).push(fv[j as int]));
                    }
                    j = j + 1;
                }
                proof {
                    assert(flags.deep_view().take(m as int) =~= flags.deep_view());
                }
            },
            None => {
                proof {
                    assert(args.deep_view() =~= mid2 + Seq::<Seq<char>>::empty());
                }
            },
        }
        proof {
            assert(args.deep_view() =~= spec_cargo_args(
                self.release,
                self.all,
                self.crate_name.deep_view(),
                opt_chars(self.target),
                flags_chars(self.cargo_flags),
            ));
        }
        args
    }

    /// One extraction run over the finished event stream: resolves the
    /// target (explicit, else host), records every deliverable the
    /// stream reports, and returns the set only when the build tool
    /// exited cleanly — a nonzero exit discards everything and fails
    /// with `BuildToolFailed`, however many artifacts were seen.
    pub fn run(self, host_triple: Option<String>, lines: Vec<String>, build_ok: bool) -> (r:
        Result<Vec<BuiltPlugin>, ExtractError>)
        ensures
            match spec_resolved_target(opt_chars(self.target), opt_chars(host_triple)) {
                None => r == Err::<Vec<BuiltPlugin>, ExtractError>(
                    ExtractError::HostTripleUnresolved,
                ),
                Some(t) => if build_ok {
                    r matches Ok(v) && v.deep_view() == extract_from_lines(lines.deep_view(), t)
                } else {
                    r == Err::<Vec<BuiltPlugin>, ExtractError>(ExtractError::BuildToolFailed)
                },
            },
    {
        let target = match self.target {
            Some(t) => t,
            None => match host_triple {
                Some(h) => h,
                None => {
                    return Err(ExtractError::HostTripleUnresolved);
                },
            },
        };
        let ghost tg = target@;
        let mut ex = Extractor::new(target);
        let n = lines.len();
        let mut i: usize = 0;
        while i < n
            invariant
                0 <= i <= n,
                n == lines.len(),
                ex.target@ == tg,
                ex.artifacts.deep_view() == extract_from_lines(
                    lines.deep_view().take(i as int),
                    tg,
                ),
            decreases n - i,
        {
            let _disposition = ex.process_line(lines[i].as_str());
            proof {
                let lv = lines.deep_view();
                assert(lv.take(i + 1).drop_last() =~= lv.take(i as int));
                assert(lv.take(i + 1).last() == lv[i as int]);
                assert(lv[i as int] == lines@[i as int]@);
            }
            i = i + 1;
        }
        if !build_ok {
            return Err(ExtractError::BuildToolFailed);
        }
        proof {
            assert(lines.deep_view().take(n as int) =~= lines.deep_view());
        }
        Ok(ex.artifacts)
    }
}

/// The build command: a build-tool invocation, optionally followed by
/// packaging of what it produced.
#[derive(Clone, Debug)]
pub struct BuildCommand {
    pub cargo: BaseCargoBuildCommand,
    /// Also assemble a package for each built crate.
    pub package: bool,
}

/// The staged name of one built library in the build directory:
/// `<crate>.<canonical platform id>.<extension of the built file>`.
pub open spec fn staged_filename(
    crate_name: Seq<char>,
    token: Seq<char>,
    ext: Seq<char>,
) -> Seq<char> {
    crate_name + "."@ + token + "."@ + ext
}

/// The extension of a path, empty when there is none.
pub open spec fn ext_or_empty(f: Seq<char>) -> Seq<char> {
    match spec_ext_of(f) {
        Some(e) => e,
        None => Seq::<char>::empty(),
    }
}

/// For each built library, the source path and the staged file name it
/// is copied to in the build directory. Every built dynamic library
/// carries an extension; a path without one is not a valid input.
pub fn stage_plan(libs: &Vec<BuiltPlugin>, platform: &PlatformDetail) -> (r: Vec<(String, String)>)
    requires
        forall|i: int|
            0 <= i < libs@.len() ==> (#[trigger] spec_ext_of(
                libs.deep_view()[i].cdylib_path,
            )) is Some,
    ensures
        r@.len() == libs@.len(),
        forall|i: int|
            0 <= i < r@.len() ==> {
                &&& (#[trigger] r.deep_view()[i]).0 == libs.deep_view()[i].cdylib_path
                &&& r.deep_view()[i].1 == staged_filename(
                    libs.deep_view()[i].crate_name,
                    platform@.token,
                    ext_or_empty(libs.deep_view()[i].cdylib_path),
                )
            },
{
    let n = libs.len();
    let mut r: Vec<(String, String)> = Vec::new();
    let mut i: usize = 0;
    while i < n
        invariant
            0 <= i <= n,
            n == libs.len(),
            r@.len() == i,
            forall|k: int|
                0 <= k < libs@.len() ==> (#[trigger] spec_ext_of(
                    libs.deep_view()[k].cdylib_path,
                )) is Some,
            forall|k: int|
                0 <= k < i ==> {
                    &&& (#[trigger] r.deep_view()[k]).0 == libs.deep_view()[k].cdylib_path
                    &&& r.deep_view()[k].1 == staged_filename(
                        libs.deep_view()[k].crate_name,
                        platform@.token,
                        ext_or_empty(libs.deep_view()[k].cdylib_path),
                    )
                },
        decreases n - i,
    {
        let lib = &libs[i];
        let ext = match crate::extract::extension_of(lib.cdylib_path.as_str()) {
            Some(e) => e,
            None => {
                proof {
                    assert(spec_ext_of(libs.deep_view()[i as int].cdylib_path) is Some);
                }
                unreached()
            },
        };
        let mut dest = lib.crate_name.clone();
        dest.append(".");
        dest.append(platform.platform_arch_abi.as_str());
        dest.append(".");
        dest.append(ext.as_str());
        let ghost pre = r.deep_view();
        let ghost dv = dest@;
        r.push((lib.cdylib_path.clone(), dest));
        proof {
            assert(r.deep_view() =~= pre.push((libs.deep_view()[i as int].cdylib_path, dv)));
            assert(dv == staged_filename(
                libs.deep_view()[i as int].crate_name,
                platform@.token,
                ext_or_empty(libs.deep_view()[i as int].cdylib_path),
            ));
        }
        i = i + 1;
    }
    r
}

/// The crate names of a built set, first occurrence of each, in order.
pub fn crate_names_of(libs: &Vec<BuiltPlugin>) -> (r: Vec<String>)
    ensures
        r.deep_view() == dedup_first(plugin_names(libs.deep_view())),
{
    let n = libs.len();
    let mut names: Vec<String> = Vec::new();
    let mut i: usize = 0;
    while i < n
        invariant
            0 <= i <= n,
            n == libs.len(),
            names.deep_view() == plugin_names(libs.deep_view()).take(i as int),
        decreases n - i,
    {
        let ghost pre = names.deep_view();
        names.push(libs[i].crate_name.clone());
        proof {
            let pn = plugin_names(libs.deep_view());
            assert(names.deep_view() =~= pre.push(pn[i as int]));
            assert(pn.take(i + 1) =~= pn.take(i as int).push(pn[i as int]));
        }
        i = i + 1;
    }
    proof {
        assert(plugin_names(libs.deep_view()).take(n as int) =~= plugin_names(libs.deep_view()));
    }
    dedup_names(&names)
}

/// The crate names of a plugin list, element by element.
pub open spec fn plugin_names(libs: Seq<PluginModel>) -> Seq<Seq<char>> {
    libs.map(|i: int, p: PluginModel| p.crate_name)
}

} // verus!
