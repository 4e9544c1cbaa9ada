//! Package assembly for one (crate, platform) unit: the planned paths,
//! the fixed step order, and the typed failure each step can raise.
//! The steps that touch the filesystem are carried out by the caller,
//! which reports each outcome back and is told what to do next.

use vstd::prelude::*;
use crate::manifest::{
    derive_platform_manifest, derived_description, derived_name, field_chars, parse_source,
    spec_first_missing, ManifestMissingField, PlatformManifest, RawManifest,
};
use crate::platform::{cdylib_ext_spec, NodePlatform, PlatformDetail, PlatformModel};

verus! {

/// A failure scoped to one packaging unit; sibling units are not
/// affected by it.
#[derive(Clone, Debug, PartialEq, Eq)]
pub enum PackagingError {
    /// The package directory could not be created.
    DirectoryCreateFailed { path: String, cause: String },
    /// The expected built binary is not there: the build step for this
    /// crate and platform never ran, or its output lies elsewhere.
    BuiltBinaryMissing { path: String },
    /// The built binary could not be copied into the package.
    BinaryCopyFailed { from: String, to: String, cause: String },
    /// The crate carries no source manifest in its directory.
    SourceManifestNotFound { crate_name: String, dir: String },
    /// The source manifest could not be read or decoded.
    ManifestUnreadable { path: String, cause: String },
    /// The source manifest misses a mandatory field.
    ManifestInvalid(ManifestMissingField),
    /// The derived manifest could not be written.
    ManifestWriteFailed { path: String, cause: String },
}

/// `dir`/`name`, with the uniform separator.
pub open spec fn joined(dir: Seq<char>, name: Seq<char>) -> Seq<char> {
    dir + "/"@ + name
}

/// The package directory's name: `<crate>-<canonical platform id>`.
pub open spec fn spec_package_dir_name(crate_name: Seq<char>, token: Seq<char>) -> Seq<char> {
    crate_name + "-"@ + token
}

/// The staged binary's name in the build directory:
/// `<crate>.<canonical platform id><native extension>`.
pub open spec fn spec_built_bin_name(
    crate_name: Seq<char>,
    token: Seq<char>,
    platform: NodePlatform,
) -> Seq<char> {
    crate_name + "."@ + token + cdylib_ext_spec(platform)
}

/// The canonical entry filename inside a package: `lib` followed by
/// the platform's native extension.
pub open spec fn spec_entry_filename(platform: NodePlatform) -> Seq<char> {
    "lib"@ + cdylib_ext_spec(platform)
}

/// The paths one unit works with, fixed before any step runs.
#[derive(Clone, Debug, PartialEq, Eq)]
pub struct AssemblePlan {
    /// The package directory to create and fill.
    pub package_dir: String,
    /// Where the staged built binary is expected.
    pub built_bin_path: String,
    /// The canonical entry filename inside the package.
    pub entry_filename: String,
    /// Where the binary is copied to.
    pub bin_dest: String,
    /// Where the derived manifest is written.
    pub manifest_dest: String,
}

/// What a correct plan for the unit holds, path by path.
pub open spec fn plan_matches(
    p: AssemblePlan,
    pkgs_dir: Seq<char>,
    build_dir: Seq<char>,
    crate_name: Seq<char>,
    m: PlatformModel,
) -> bool {
    &&& p.package_dir@ == joined(pkgs_dir, spec_package_dir_name(crate_name, m.token))
    &&& p.built_bin_path@ == joined(build_dir, spec_built_bin_name(crate_name, m.token, m.platform))
    &&& p.entry_filename@ == spec_entry_filename(m.platform)
    &&& p.bin_dest@ == joined(p.package_dir@, spec_entry_filename(m.platform))
    &&& p.manifest_dest@ == joined(p.package_dir@, "package.json"@)
}

/// Fixes the paths of one (crate, platform) unit.
pub fn plan_assemble(
    pkgs_dir: &str,
    build_dir: &str,
    crate_name: &str,
    platform: &PlatformDetail,
) -> (r: AssemblePlan)
    ensures
        plan_matches(r, pkgs_dir@, build_dir@, crate_name@, platform@),
{
    let mut package_dir = String::from_str(pkgs_dir);
    package_dir.append("/");
    package_dir.append(crate_name);
    package_dir.append("-");
    package_dir.append(platform.platform_arch_abi.as_str());

    let ext = platform.platform.cdylib_ext();

    let mut built_bin_path = String::from_str(build_dir);
    built_bin_path.append("/");
    built_bin_path.append(crate_name);
    built_bin_path.append(".");
    built_bin_path.append(platform.platform_arch_abi.as_str());
    built_bin_path.append(ext);

    let mut entry_filename = String::from_str("lib");
    entry_filename.append(ext);

    let mut bin_dest = package_dir.clone();
    bin_dest.append("/");
    bin_dest.append(entry_filename.as_str());

    let mut manifest_dest = package_dir.clone();
    manifest_dest.append("/");
    manifest_dest.append("package.json");

    proof {
        assert(package_dir@ =~= joined(
            pkgs_dir@,
            spec_package_dir_name(crate_name@, platform@.token),
        ));
        assert(built_bin_path@ =~= joined(
            build_dir@,
            spec_built_bin_name(crate_name@, platform@.token, platform@.platform),
        ));
        assert(entry_filename@ =~= spec_entry_filename(platform@.platform));
        assert(bin_dest@ =~= joined(package_dir@, spec_entry_filename(platform@.platform)));
        assert(manifest_dest@ =~= joined(package_dir@, "package.json"@));
    }
    AssemblePlan { package_dir, built_bin_path, entry_filename, bin_dest, manifest_dest }
}

/// One filesystem step the caller is asked to carry out.
#[derive(Clone, Debug, PartialEq, Eq)]
pub enum AssembleAction {
    /// Create this directory and its parents.
    CreateDir { path: String },
    /// Report whether this path is a file.
    ProbeFile { path: String },
    /// Copy a file, overwriting its destination.
    CopyFile { from: String, to: String },
    /// Resolve the crate's source directory.
    LocateManifestDir { crate_name: String },
    /// Read and decode the source manifest at this path.
    ReadManifest { path: String },
    /// Write this manifest at this path.
    WriteManifest { path: String, manifest: PlatformManifest },
}

/// The caller's report on the step it was asked to carry out.
#[derive(Debug)]
pub enum AssembleEvent {
    DirCreated { error: Option<String> },
    FileProbed { present: bool },
    FileCopied { error: Option<String> },
    ManifestDirLocated { dir: Option<String> },
    ManifestRead { result: Result<RawManifest, String> },
    ManifestWritten { error: Option<String> },
}

/// What the unit does next: another step, or its final outcome.
#[derive(Clone, Debug, PartialEq, Eq)]
pub enum AssembleDirective {
    Next(AssembleAction),
    Done { package_dir: String },
    Fail(PackagingError),
}

/// Where in the fixed step order one unit stands.
#[derive(Clone, Debug)]
pub enum AssemblePhase {
    CreatingDir,
    ProbingBinary,
    CopyingBinary,
    LocatingManifest,
    ProbingManifest { dir: String },
    ReadingManifest { dir: String },
    WritingManifest,
    Finished,
}

/// Whether an event answers the step the phase is waiting on.
pub open spec fn event_answers(phase: AssemblePhase, e: AssembleEvent) -> bool {
    match (phase, e) {
        (AssemblePhase::CreatingDir, AssembleEvent::DirCreated { .. }) => true,
        (AssemblePhase::ProbingBinary, AssembleEvent::FileProbed { .. }) => true,
        (AssemblePhase::CopyingBinary, AssembleEvent::FileCopied { .. }) => true,
        (AssemblePhase::LocatingManifest, AssembleEvent::ManifestDirLocated { .. }) => true,
        (AssemblePhase::ProbingManifest { .. }, AssembleEvent::FileProbed { .. }) => true,
        (AssemblePhase::ReadingManifest { .. }, AssembleEvent::ManifestRead { .. }) => true,
        (AssemblePhase::WritingManifest, AssembleEvent::ManifestWritten { .. }) => true,
        _ => false,
    }
}

/// One packaging unit in flight.
pub struct AssembleTask {
    pub crate_name: String,
    pub platform: PlatformDetail,
    pub plan: AssemblePlan,
    pub phase: AssemblePhase,
}

impl AssembleTask {
    /// Begins one unit: fixes its plan and asks for its directory.
    pub fn start(
        pkgs_dir: &str,
        build_dir: &str,
        crate_name: &str,
        platform: PlatformDetail,
    ) -> (r: (AssembleTask, AssembleAction))
        ensures
            r.0.crate_name@ == crate_name@,
            r.0.platform == platform,
            plan_matches(r.0.plan, pkgs_dir@, build_dir@, crate_name@, platform@),
            r.0.phase is CreatingDir,
            r.1 matches AssembleAction::CreateDir { path } && path@ == r.0.plan.package_dir@,
    {
        let plan = plan_assemble(pkgs_dir, build_dir, crate_name, &platform);
        let action = AssembleAction::CreateDir { path: plan.package_dir.clone() };
        let task = AssembleTask {
            crate_name: String::from_str(crate_name),
            platform,
            plan,
            phase: AssemblePhase::CreatingDir,
        };
        (task, action)
    }

    /// Takes the report on the step just carried out and decides the
    /// next one, per the fixed order: create the directory, check the
    /// built binary is there, copy it in, locate and check the source
    /// manifest, read it, derive and write the platform manifest. The
    /// first failure aborts the unit with its typed error; after full
    /// success the unit reports its directory.
    pub fn step(&mut self, event: AssembleEvent) -> (r: AssembleDirective)
        requires
            event_answers(old(self).phase, event),
        ensures
            final(self).crate_name == old(self).crate_name,
            final(self).platform == old(self).platform,
            final(self).plan == old(self).plan,
            match (old(self).phase, event) {
                (AssemblePhase::CreatingDir, AssembleEvent::DirCreated { error }) => match error {
                    None => {
                        &&& r matches AssembleDirective::Next(AssembleAction::ProbeFile { path })
                            && path@ == old(self).plan.built_bin_path@
                        &&& final(self).phase is ProbingBinary
                    },
                    Some(c) => {
                        &&& r matches AssembleDirective::Fail(
                            PackagingError::DirectoryCreateFailed { path, cause },
                        ) && path@ == old(self).plan.package_dir@ && cause@ == c@
                        &&& final(self).phase is Finished
                    },
                },
                (AssemblePhase::ProbingBinary, AssembleEvent::FileProbed { present }) => if present {
                    &&& r matches AssembleDirective::Next(AssembleAction::CopyFile { from, to })
                        && from@ == old(self).plan.built_bin_path@ && to@ == old(
                        self,
                    ).plan.bin_dest@
                    &&& final(self).phase is CopyingBinary
                } else {
                    &&& r matches AssembleDirective::Fail(PackagingError::BuiltBinaryMissing { path })
                        && path@ == old(self).plan.built_bin_path@
                    &&& final(self).phase is Finished
                },
                (AssemblePhase::CopyingBinary, AssembleEvent::FileCopied { error }) => match error {
                    None => {
                        &&& r matches AssembleDirective::Next(
                            AssembleAction::LocateManifestDir { crate_name },
                        ) && crate_name@ == old(self).crate_name@
                        &&& final(self).phase is LocatingManifest
                    },
                    Some(c) => {
                        &&& r matches AssembleDirective::Fail(
                            PackagingError::BinaryCopyFailed { from, to, cause },
                        ) && from@ == old(self).plan.built_bin_path@ && to@ == old(
                            self,
                        ).plan.bin_dest@ && cause@ == c@
                        &&& final(self).phase is Finished
                    },
                },
                (
                    AssemblePhase::LocatingManifest,
                    AssembleEvent::ManifestDirLocated { dir },
                ) => match dir {
                    Some(d) => {
                        &&& r matches AssembleDirective::Next(AssembleAction::ProbeFile { path })
                            && path@ == joined(d@, "package.json"@)
                        &&& final(self).phase matches AssemblePhase::ProbingManifest { dir: pd }
                            && pd@ == d@
                    },
                    None => {
                        &&& r matches AssembleDirective::Fail(
                            PackagingError::SourceManifestNotFound { crate_name, dir },
                        ) && crate_name@ == old(self).crate_name@ && dir@.len() == 0
                        &&& final(self).phase is Finished
                    },
                },
                (
                    AssemblePhase::ProbingManifest { dir },
                    AssembleEvent::FileProbed { present },
                ) => if present {
                    &&& r matches AssembleDirective::Next(AssembleAction::ReadManifest { path })
                        && path@ == joined(dir@, "package.json"@)
                    &&& final(self).phase matches AssemblePhase::ReadingManifest { dir: rd } && rd@
                        == dir@
                } else {
                    &&& r matches AssembleDirective::Fail(
                        PackagingError::SourceManifestNotFound { crate_name, dir: ed },
                    ) && crate_name@ == old(self).crate_name@ && ed@ == dir@
                    &&& final(self).phase is Finished
                },
                (
                    AssemblePhase::ReadingManifest { dir },
                    AssembleEvent::ManifestRead { result },
                ) => match result {
                    Err(c) => {
                        &&& r matches AssembleDirective::Fail(
                            PackagingError::ManifestUnreadable { path, cause },
                        ) && path@ == joined(dir@, "package.json"@) && cause@ == c@
                        &&& final(self).phase is Finished
                    },
                    Ok(raw) => match spec_first_missing(raw) {
                        Some(f) => {
                            &&& r matches AssembleDirective::Fail(
                                PackagingError::ManifestInvalid(mf),
                            ) && mf == ManifestMissingField(f)
                            &&& final(self).phase is Finished
                        },
                        None => {
                            &&& r matches AssembleDirective::Next(
                                AssembleAction::WriteManifest { path, manifest },
                            ) && path@ == old(self).plan.manifest_dest@ && manifest_is_derived(
                                manifest,
                                raw,
                                old(self).platform@,
                                old(self).plan.entry_filename@,
                            )
                            &&& final(self).phase is WritingManifest
                        },
                    },
                },
                (
                    AssemblePhase::WritingManifest,
                    AssembleEvent::ManifestWritten { error },
                ) => match error {
                    None => {
                        &&& r matches AssembleDirective::Done { package_dir } && package_dir@
                            == old(self).plan.package_dir@
                        &&& final(self).phase is Finished
                    },
                    Some(c) => {
                        &&& r matches AssembleDirective::Fail(
                            PackagingError::ManifestWriteFailed { path, cause },
                        ) && path@ == old(self).plan.manifest_dest@ && cause@ == c@
                        &&& final(self).phase is Finished
                    },
                },
                _ => true,
            },
    {
        let (new_phase, directive) = match (&self.phase, event) {
            (AssemblePhase::CreatingDir, AssembleEvent::DirCreated { error }) => match error {
                None => (
                    AssemblePhase::ProbingBinary,
                    AssembleDirective::Next(
                        AssembleAction::ProbeFile { path: self.plan.built_bin_path.clone() },
                    ),
                ),
                Some(c) => (
                    AssemblePhase::Finished,
                    AssembleDirective::Fail(
                        PackagingError::DirectoryCreateFailed {
                            path: self.plan.package_dir.clone(),
                            cause: c,
                        },
                    ),
                ),
            },
            (AssemblePhase::ProbingBinary, AssembleEvent::FileProbed { present }) => if present {
                (
                    AssemblePhase::CopyingBinary,
                    AssembleDirective::Next(
                        AssembleAction::CopyFile {
                            from: self.plan.built_bin_path.clone(),
                            to: self.plan.bin_dest.clone(),
                        },
                    ),
                )
            } else {
                (
                    AssemblePhase::Finished,
                    AssembleDirective::Fail(
                        PackagingError::BuiltBinaryMissing {
                            path: self.plan.built_bin_path.clone(),
                        },
                    ),
                )
            },
            (AssemblePhase::CopyingBinary, AssembleEvent::FileCopied { error }) => match error {
                None => (
                    AssemblePhase::LocatingManifest,
                    AssembleDirective::Next(
                        AssembleAction::LocateManifestDir { crate_name: self.crate_name.clone() },
                    ),
                ),
                Some(c) => (
                    AssemblePhase::Finished,
                    AssembleDirective::Fail(
                        PackagingError::BinaryCopyFailed {
                            from: self.plan.built_bin_path.clone(),
                            to: self.plan.bin_dest.clone(),
                            cause: c,
                        },
                    ),
                ),
            },
            (AssemblePhase::LocatingManifest, AssembleEvent::ManifestDirLocated { dir }) => match dir {
                Some(d) => {
                    let mut path = d.clone();
                    path.append("/");
                    path.append("package.json");
                    (
                        AssemblePhase::ProbingManifest { dir: d },
                        AssembleDirective::Next(AssembleAction::ProbeFile { path }),
                    )
                },
                None => (
                    AssemblePhase::Finished,
                    AssembleDirective::Fail(
                        PackagingError::SourceManifestNotFound {
                            crate_name: self.crate_name.clone(),
                            dir: String::new(),
                        },
                    ),
                ),
            },
            (AssemblePhase::ProbingManifest { dir }, AssembleEvent::FileProbed { present }) => if present {
                let mut path = dir.clone();
                path.append("/");
                path.append("package.json");
                (
                    AssemblePhase::ReadingManifest { dir: dir.clone() },
                    AssembleDirective::Next(AssembleAction::ReadManifest { path }),
                )
            } else {
                (
                    AssemblePhase::Finished,
                    AssembleDirective::Fail(
                        PackagingError::SourceManifestNotFound {
                            crate_name: self.crate_name.clone(),
                            dir: dir.clone(),
                        },
                    ),
                )
            },
            (AssemblePhase::ReadingManifest { dir }, AssembleEvent::ManifestRead { result }) => match result {
                Err(c) => {
                    let mut path = dir.clone();
                    path.append("/");
                    path.append("package.json");
                    (
                        AssemblePhase::Finished,
                        AssembleDirective::Fail(
                            PackagingError::ManifestUnreadable { path, cause: c },
                        ),
                    )
                },
                Ok(raw) => match parse_source(raw) {
                    Err(missing) => (
                        AssemblePhase::Finished,
                        AssembleDirective::Fail(PackagingError::ManifestInvalid(missing)),
                    ),
                    Ok(sm) => {
                        let manifest = derive_platform_manifest(
                            sm,
                            &self.platform,
                            self.plan.entry_filename.as_str(),
                        );
                        (
                            AssemblePhase::WritingManifest,
                            AssembleDirective::Next(
                                AssembleAction::WriteManifest {
                                    path: self.plan.manifest_dest.clone(),
                                    manifest,
                                },
                            ),
                        )
                    },
                },
            },
            (AssemblePhase::WritingManifest, AssembleEvent::ManifestWritten { error }) => match error {
                None => (
                    AssemblePhase::Finished,
                    AssembleDirective::Done { package_dir: self.plan.package_dir.clone() },
                ),
                Some(c) => (
                    AssemblePhase::Finished,
                    AssembleDirective::Fail(
                        PackagingError::ManifestWriteFailed {
                            path: self.plan.manifest_dest.clone(),
                            cause: c,
                        },
                    ),
                ),
            },
            _ => unreached(),
        };
        self.phase = new_phase;
        directive
    }
}

/// What the manifest handed to the write step holds: exactly the
/// derivation of the validated source manifest for this unit.
pub open spec fn manifest_is_derived(
    r: PlatformManifest,
    raw: RawManifest,
    m: PlatformModel,
    entry: Seq<char>,
) -> bool {
    &&& r.name@ == derived_name(field_chars(raw.name), m.token)
    &&& r.description@ == derived_description(field_chars(raw.name), m.token)
    &&& r.os@ == seq![m.platform]
    &&& r.cpu@ == seq![m.arch]
    &&& r.files.deep_view() == seq![entry]
    &&& r.main@ == entry
    &&& r.version@ == field_chars(raw.version)
    &&& r.license@ == field_chars(raw.license)
    &&& r.keywords == raw.keywords
    &&& r.author == raw.author
    &&& r.homepage == raw.homepage
    &&& r.publish_config == raw.publish_config
    &&& r.repository == raw.repository
    &&& r.bugs == raw.bugs
}

/// Re-running a unit plans the same paths: the plan is a function of
/// the unit's inputs alone.
pub proof fn lemma_plan_deterministic(
    a: AssemblePlan,
    b: AssemblePlan,
    pkgs_dir: Seq<char>,
    build_dir: Seq<char>,
    crate_name: Seq<char>,
    m: PlatformModel,
)
    requires
        plan_matches(a, pkgs_dir, build_dir, crate_name, m),
        plan_matches(b, pkgs_dir, build_dir, crate_name, m),
    ensures
        a.package_dir@ == b.package_dir@,
        a.built_bin_path@ == b.built_bin_path@,
        a.entry_filename@ == b.entry_filename@,
        a.bin_dest@ == b.bin_dest@,
        a.manifest_dest@ == b.manifest_dest@,
{
}

/// Re-deriving the manifest of a unit from the same source writes the
/// same content, field by field: the derivation is a function of the
/// source manifest, the platform and the entry filename alone.
pub proof fn lemma_manifest_deterministic(
    a: PlatformManifest,
    b: PlatformManifest,
    raw: RawManifest,
    m: PlatformModel,
    entry: Seq<char>,
)
    requires
        manifest_is_derived(a, raw, m, entry),
        manifest_is_derived(b, raw, m, entry),
    ensures
        a.name@ == b.name@,
        a.description@ == b.description@,
        a.os@ == b.os@,
        a.cpu@ == b.cpu@,
        a.files.deep_view() == b.files.deep_view(),
        a.main@ == b.main@,
        a.version@ == b.version@,
        a.license@ == b.license@,
        a.keywords.deep_view() == b.keywords.deep_view(),
        a.author@ == b.author@,
        a.homepage@ == b.homepage@,
        a.publish_config.deep_view() == b.publish_config.deep_view(),
        a.repository.deep_view() == b.repository.deep_view(),
        a.bugs.deep_view() == b.bugs.deep_view(),
{
}

} // verus!
