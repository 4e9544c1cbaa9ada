//! Source-manifest validation and derivation of the platform-bound
//! manifest written into each package directory.

use vstd::prelude::*;
use crate::platform::{NodeArch, NodePlatform, PlatformDetail};

verus! {

/// A mandatory manifest field, in the order the fields are checked.
#[derive(Clone, Copy, Debug, PartialEq, Eq, Structural)]
pub enum ManifestField {
    Name,
    Version,
    License,
}

/// A source manifest lacking a mandatory field, or holding it empty.
#[derive(Clone, Copy, Debug, PartialEq, Eq, Structural)]
pub struct ManifestMissingField(pub ManifestField);

/// A source manifest as read from disk, before validation: mandatory
/// fields may still be absent, optional ones carry their defaults.
#[derive(Clone, Debug, PartialEq, Eq)]
pub struct RawManifest {
    pub name: Option<String>,
    pub version: Option<String>,
    pub license: Option<String>,
    pub keywords: Vec<String>,
    pub author: String,
    pub homepage: String,
    pub publish_config: Vec<(String, String)>,
    pub repository: Vec<(String, String)>,
    pub bugs: Vec<(String, String)>,
}

/// A validated source manifest: `name`, `version` and `license` are
/// present and non-empty.
#[derive(Clone, Debug, PartialEq, Eq)]
pub struct SourceManifest {
    pub name: String,
    pub version: String,
    pub license: String,
    pub keywords: Vec<String>,
    pub author: String,
    pub homepage: String,
    pub publish_config: Vec<(String, String)>,
    pub repository: Vec<(String, String)>,
    pub bugs: Vec<(String, String)>,
}

/// Whether an optional field is present and non-empty.
pub open spec fn field_present(f: Option<String>) -> bool {
    match f {
        Some(s) => s@.len() > 0,
        None => false,
    }
}

/// The characters of an optional field, empty when absent.
pub open spec fn field_chars(f: Option<String>) -> Seq<char> {
    match f {
        Some(s) => s@,
        None => Seq::<char>::empty(),
    }
}

/// The first mandatory field that a raw manifest misses, checked in
/// the order name, version, license.
pub open spec fn spec_first_missing(raw: RawManifest) -> Option<ManifestField> {
    if !field_present(raw.name) {
        Some(ManifestField::Name)
    } else if !field_present(raw.version) {
        Some(ManifestField::Version)
    } else if !field_present(raw.license) {
        Some(ManifestField::License)
    } else {
        None
    }
}

/// Well-formedness of a validated manifest: the mandatory fields are
/// non-empty.
pub open spec fn wf_source(m: SourceManifest) -> bool {
    &&& m.name@.len() > 0
    &&& m.version@.len() > 0
    &&& m.license@.len() > 0
}

/// Validates a raw manifest: fails with the first missing mandatory
/// field (name, then version, then license), otherwise carries every
/// field over unchanged.
pub fn parse_source(raw: RawManifest) -> (r: Result<SourceManifest, ManifestMissingField>)
    ensures
        match spec_first_missing(raw) {
            Some(f) => r == Err::<SourceManifest, ManifestMissingField>(ManifestMissingField(f)),
            None => r matches Ok(m) && {
                &&& wf_source(m)
                &&& m.name@ == field_chars(raw.name)
                &&& m.version@ == field_chars(raw.version)
                &&& m.license@ == field_chars(raw.license)
                &&& m.keywords == raw.keywords
                &&& m.author == raw.author
                &&& m.homepage == raw.homepage
                &&& m.publish_config == raw.publish_config
                &&& m.repository == raw.repository
                &&& m.bugs == raw.bugs
            },
        },
{
    let RawManifest {
        name,
        version,
        license,
        keywords,
        author,
        homepage,
        publish_config,
        repository,
        bugs,
    } = raw;
    let name = match name {
        Some(s) => {
            if s.as_str().is_empty() {
                return Err(ManifestMissingField(ManifestField::Name));
            }
            s
        },
        None => {
            return Err(ManifestMissingField(ManifestField::Name));
        },
    };
    let version = match version {
        Some(s) => {
            if s.as_str().is_empty() {
                return Err(ManifestMissingField(ManifestField::Version));
            }
            s
        },
        None => {
            return Err(ManifestMissingField(ManifestField::Version));
        },
    };
    let license = match license {
        Some(s) => {
            if s.as_str().is_empty() {
                return Err(ManifestMissingField(ManifestField::License));
            }
            s
        },
        None => {
            return Err(ManifestMissingField(ManifestField::License));
        },
    };
    Ok(
        SourceManifest {
            name,
            version,
            license,
            keywords,
            author,
            homepage,
            publish_config,
            repository,
            bugs,
        },
    )
}

/// The manifest written into one platform package: derived naming and
/// platform markers, everything else passed through from the source.
#[derive(Clone, Debug, PartialEq, Eq)]
pub struct PlatformManifest {
    pub name: String,
    pub description: String,
    pub os: Vec<NodePlatform>,
    pub cpu: Vec<NodeArch>,
    pub files: Vec<String>,
    pub main: String,
    pub version: String,
    pub license: String,
    pub keywords: Vec<String>,
    pub author: String,
    pub homepage: String,
    pub publish_config: Vec<(String, String)>,
    pub repository: Vec<(String, String)>,
    pub bugs: Vec<(String, String)>,
}

/// The derived package name: `<source name>-<canonical platform id>`.
pub open spec fn derived_name(source_name: Seq<char>, token: Seq<char>) -> Seq<char> {
    source_name + "-"@ + token
}

/// The derived description naming the owning package and the platform.
pub open spec fn derived_description(source_name: Seq<char>, token: Seq<char>) -> Seq<char> {
    "This package is part of "@ + source_name + ". This package will be installed only for '"@
        + token + "'."@
}

/// Derives the platform-bound manifest for one (source, platform) pair:
/// renamed, redescribed, marked with the platform's os and cpu, with the
/// entry library as both the single file and the main entry point, and
/// all remaining fields passed through verbatim. Total: no failure path.
pub fn derive_platform_manifest(
    source: SourceManifest,
    platform: &PlatformDetail,
    entry_filename: &str,
) -> (r: PlatformManifest)
    ensures
        r.name@ == derived_name(source.name@, platform@.token),
        r.description@ == derived_description(source.name@, platform@.token),
        r.os@ == seq![platform.platform],
        r.cpu@ == seq![platform.arch],
        r.files.deep_view() == seq![entry_filename@],
        r.main@ == entry_filename@,
        r.version == source.version,
        r.license == source.license,
        r.keywords == source.keywords,
        r.author == source.author,
        r.homepage == source.homepage,
        r.publish_config == source.publish_config,
        r.repository == source.repository,
        r.bugs == source.bugs,
{
    let mut name = source.name.clone();
    name.append("-");
    name.append(platform.platform_arch_abi.as_str());

    let mut description = String::from_str("This package is part of ");
    description.append(source.name.as_str());
    description.append(". This package will be installed only for '");
    description.append(platform.platform_arch_abi.as_str());
    description.append("'.");

    let mut os: Vec<NodePlatform> = Vec::new();
    os.push(platform.platform);
    let mut cpu: Vec<NodeArch> = Vec::new();
    cpu.push(platform.arch);

    let entry = String::from_str(entry_filename);
    let mut files: Vec<String> = Vec::new();
    files.push(entry.clone());

    proof {
        assert(os@ =~= seq![platform.platform]);
        assert(cpu@ =~= seq![platform.arch]);
        assert(files.deep_view() =~= seq![entry_filename@]);
    }

    PlatformManifest {
        name,
        description,
        os,
        cpu,
        files,
        main: entry,
        version: source.version,
        license: source.license,
        keywords: source.keywords,
        author: source.author,
        homepage: source.homepage,
        publish_config: source.publish_config,
        repository: source.repository,
        bugs: source.bugs,
    }
}

} // verus!
