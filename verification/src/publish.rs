//! Publication planning: which staged platform packages a directory
//! holds, per crate, and the optional-dependency entries to patch into
//! a crate's own manifest before its platform packages are published.

use vstd::prelude::*;
use crate::text::{find_char_from, first_at, lemma_first_at_bounds, str_eq, vec_contains_str};

verus! {

/// Publishes each crate's staged platform packages and patches its
/// manifest to name them as optional dependencies.
#[derive(Clone, Debug)]
pub struct PublishDepsCommand {
    /// Crates to publish for; empty means every crate in the workspace.
    pub crates: Vec<String>,
    /// Where the staged packages lie; empty means the working directory.
    pub artifacts_dir: String,
    /// Registry access level passed through to the client.
    pub access: Option<String>,
}

/// Common options of the publishing commands.
#[derive(Clone, Debug)]
pub struct BasePublishCommand {
    /// Crates to publish; empty means every crate.
    pub crates: Vec<String>,
    /// Registry access level passed through to the client.
    pub access: Option<String>,
}

/// Whether a crate takes part in a run: every crate does when no
/// filter was given, else exactly the named ones.
pub fn crate_enabled(enabled: &Vec<String>, name: &str) -> (r: bool)
    ensures
        r == (enabled.deep_view().len() == 0 || enabled.deep_view().contains(name@)),
{
    enabled.len() == 0 || vec_contains_str(enabled, name)
}

/// Whether a file name is a staged platform package,
/// `<crate>.<platform>.swc-pkg.tgz`.
pub open spec fn is_pkg_file(s: Seq<char>) -> bool {
    s.len() >= 12 && s.skip(s.len() - 12) == ".swc-pkg.tgz"@
}

/// Whether a name has exactly four dot-separated segments; every staged
/// package is named that way.
pub open spec fn four_dot_segments(s: Seq<char>) -> bool {
    let d1 = first_at(s, 0, '.');
    let d2 = first_at(s, d1 + 1, '.');
    let d3 = first_at(s, d2 + 1, '.');
    let d4 = first_at(s, d3 + 1, '.');
    d3 < s.len() && d4 == s.len()
}

/// The crate segment of a staged package's name.
pub open spec fn pkg_crate_of(s: Seq<char>) -> Seq<char> {
    s.take(first_at(s, 0, '.'))
}

/// The platform segment of a staged package's name.
pub open spec fn pkg_platform_of(s: Seq<char>) -> Seq<char> {
    let d1 = first_at(s, 0, '.');
    s.subrange(d1 + 1, first_at(s, d1 + 1, '.'))
}

/// Whether a file name is a staged platform package.
pub fn is_pkg_filename(name: &str) -> (r: bool)
    ensures
        r == is_pkg_file(name@),
{
    let n = name.unicode_len();
    if n < 12 {
        return false;
    }
    let suffix = name.substring_char(n - 12, n);
    proof {
        assert(suffix@ =~= name@.skip(name@.len() - 12));
    }
    str_eq(suffix, ".swc-pkg.tgz")
}

/// The crate and platform segments of a staged package's name.
pub fn pkg_file_parts(name: &str) -> (r: (String, String))
    requires
        four_dot_segments(name@),
    ensures
        r.0@ == pkg_crate_of(name@),
        r.1@ == pkg_platform_of(name@),
{
    let n = name.unicode_len();
    let d1 = find_char_from(name, 0, '.');
    proof {
        lemma_first_at_bounds(name@, 0, '.');
        if d1 == n {
            assert(first_at(name@, d1 + 1, '.') == n);
            assert(first_at(name@, n + 1, '.') == n);
            assert(false);
        }
    }
    let d2 = find_char_from(name, d1 + 1, '.');
    proof {
        lemma_first_at_bounds(name@, d1 + 1 as int, '.');
    }
    let crate_name = String::from_str(name.substring_char(0, d1));
    let platform = String::from_str(name.substring_char(d1 + 1, d2));
    proof {
        assert(crate_name@ =~= pkg_crate_of(name@));
        assert(platform@ =~= pkg_platform_of(name@));
    }
    (crate_name, platform)
}

/// The platform segments of the staged packages of one crate, in the
/// order the names were listed.
pub open spec fn platforms_for(names: Seq<Seq<char>>, crate_name: Seq<char>) -> Seq<Seq<char>>
    decreases names.len(),
{
    if names.len() == 0 {
        Seq::<Seq<char>>::empty()
    } else {
        let rest = platforms_for(names.drop_last(), crate_name);
        let nm = names.last();
        if is_pkg_file(nm) && pkg_crate_of(nm) == crate_name {
            rest.push(pkg_platform_of(nm))
        } else {
            rest
        }
    }
}

/// The crate segments of the staged packages in a listing, in order,
/// with repeats kept.
pub open spec fn pkg_crate_names(names: Seq<Seq<char>>) -> Seq<Seq<char>>
    decreases names.len(),
{
    if names.len() == 0 {
        Seq::<Seq<char>>::empty()
    } else {
        let rest = pkg_crate_names(names.drop_last());
        let nm = names.last();
        if is_pkg_file(nm) {
            rest.push(pkg_crate_of(nm))
        } else {
            rest
        }
    }
}

/// The platforms for which one crate has a staged package, from a
/// directory listing. Every staged package is named
/// `<crate>.<platform>.swc-pkg.tgz`; a listing with a staged package
/// named otherwise is not a valid input.
pub fn pkg_platforms_for(names: &Vec<String>, crate_name: &str) -> (r: Vec<String>)
    requires
        forall|i: int|
            0 <= i < names@.len() ==> is_pkg_file(#[trigger] names.deep_view()[i])
                ==> four_dot_segments(names.deep_view()[i]),
    ensures
        r.deep_view() == platforms_for(names.deep_view(), crate_name@),
{
    let n = names.len();
    let mut r: Vec<String> = Vec::new();
    proof {
        assert(names.deep_view().take(0) =~= Seq::<Seq<char>>::empty());
        assert(r.deep_view() =~= Seq::<Seq<char>>::empty());
    }
    let mut i: usize = 0;
    while i < n
        invariant
            0 <= i <= n,
            n == names.len(),
            forall|k: int|
                0 <= k < names@.len() ==> is_pkg_file(#[trigger] names.deep_view()[k])
                    ==> four_dot_segments(names.deep_view()[k]),
            r.deep_view() == platforms_for(names.deep_view().take(i as int), crate_name@),
        decreases n - i,
    {
        let ghost nv = names.deep_view();
        let ghost pre = r.deep_view();
        let nm = &names[i];
        if is_pkg_filename(nm.as_str()) {
            proof {
                assert(nv[i as int] == names@[i as int]@);
                assert(is_pkg_file(nv[i as int]));
                assert(four_dot_segments(nm@));
            }
            let (c, p) = pkg_file_parts(nm.as_str());
            if str_eq(c.as_str(), crate_name) {
                r.push(p);
                proof {
                    assert(r.deep_view() =~= pre.push(pkg_platform_of(nv[i as int])));
                }
            }
        }
        proof {
            assert(nv.take(i + 1).drop_last() =~= nv.take(i as int));
            assert(nv.take(i + 1).last() == nv[i as int]);
            assert(nv[i as int] == names@[i as int]@);
        }
        i = i + 1;
    }
    proof {
        assert(names.deep_view().take(n as int) =~= names.deep_view());
    }
    r
}

/// The crates that have a staged package in a directory listing, first
/// occurrence of each, in order.
pub fn pkg_crates(names: &Vec<String>) -> (r: Vec<String>)
    requires
        forall|i: int|
            0 <= i < names@.len() ==> is_pkg_file(#[trigger] names.deep_view()[i])
                ==> four_dot_segments(names.deep_view()[i]),
    ensures
        r.deep_view() == crate::dedup::dedup_first(pkg_crate_names(names.deep_view())),
{
    let n = names.len();
    let mut all: Vec<String> = Vec::new();
    proof {
        assert(names.deep_view().take(0) =~= Seq::<Seq<char>>::empty());
        assert(all.deep_view() =~= Seq::<Seq<char>>::empty());
    }
    let mut i: usize = 0;
    while i < n
        invariant
            0 <= i <= n,
            n == names.len(),
            forall|k: int|
                0 <= k < names@.len() ==> is_pkg_file(#[trigger] names.deep_view()[k])
                    ==> four_dot_segments(names.deep_view()[k]),
            all.deep_view() == pkg_crate_names(names.deep_view().take(i as int)),
        decreases n - i,
    {
        let ghost nv = names.deep_view();
        let ghost pre = all.deep_view();
        let nm = &names[i];
        if is_pkg_filename(nm.as_str()) {
            proof {
                assert(nv[i as int] == names@[i as int]@);
                assert(is_pkg_file(nv[i as int]));
                assert(four_dot_segments(nm@));
            }
            let (c, _platform) = pkg_file_parts(nm.as_str());
            all.push(c);
            proof {
                assert(all.deep_view() =~= pre.push(pkg_crate_of(nv[i as int])));
            }
        }
        proof {
            assert(nv.take(i + 1).drop_last() =~= nv.take(i as int));
            assert(nv.take(i + 1).last() == nv[i as int]);
            assert(nv[i as int] == names@[i as int]@);
        }
        i = i + 1;
    }
    proof {
        assert(names.deep_view().take(n as int) =~= names.deep_view());
    }
    crate::dedup::dedup_names(&all)
}

/// The keys of a dependency-entry list.
pub open spec fn dep_keys(l: Seq<(Seq<char>, Seq<char>)>) -> Seq<Seq<char>> {
    l.map(|i: int, p: (Seq<char>, Seq<char>)| p.0)
}

/// The optional-dependency entries to add for one crate: one entry
/// `(<name>-<platform>, <version>)` per platform whose key stands
/// neither in the manifest already nor earlier in the additions.
pub open spec fn dep_additions(
    name: Seq<char>,
    version: Seq<char>,
    platforms: Seq<Seq<char>>,
    existing: Seq<Seq<char>>,
) -> Seq<(Seq<char>, Seq<char>)>
    decreases platforms.len(),
{
    if platforms.len() == 0 {
        Seq::<(Seq<char>, Seq<char>)>::empty()
    } else {
        let rest = dep_additions(name, version, platforms.drop_last(), existing);
        let dep = name + "-"@ + platforms.last();
        if existing.contains(dep) || dep_keys(rest).contains(dep) {
            rest
        } else {
            rest.push((dep, version))
        }
    }
}

/// Plans the optional-dependency entries for one crate's manifest: one
/// per staged platform, named `<package name>-<platform>` at the
/// package's own version, skipping keys already present.
pub fn optional_dep_additions(
    pkg_name: &str,
    pkg_version: &str,
    platforms: &Vec<String>,
    existing: &Vec<String>,
) -> (r: Vec<(String, String)>)
    ensures
        r.deep_view() == dep_additions(
            pkg_name@,
            pkg_version@,
            platforms.deep_view(),
            existing.deep_view(),
        ),
{
    let n = platforms.len();
    let mut r: Vec<(String, String)> = Vec::new();
    let mut added: Vec<String> = Vec::new();
    proof {
        assert(platforms.deep_view().take(0) =~= Seq::<Seq<char>>::empty());
        assert(r.deep_view() =~= Seq::<(Seq<char>, Seq<char>)>::empty());
        assert(added.deep_view() =~= dep_keys(r.deep_view()));
    }
    let mut i: usize = 0;
    while i < n
        invariant
            0 <= i <= n,
            n == platforms.len(),
            r.deep_view() == dep_additions(
                pkg_name@,
                pkg_version@,
                platforms.deep_view().take(i as int),
                existing.deep_view(),
            ),
            added.deep_view() == dep_keys(r.deep_view()),
        decreases n - i,
    {
        let ghost pv = platforms.deep_view();
        let ghost pre = r.deep_view();
        let ghost prek = added.deep_view();
        let mut dep = String::from_str(pkg_name);
        dep.append("-");
        dep.append(platforms[i].as_str());
        proof {
            assert(dep@ =~= pkg_name@ + "-"@ + pv[i as int]);
        }
        if !vec_contains_str(existing, dep.as_str()) && !vec_contains_str(&added, dep.as_str()) {
            let ghost dv = dep@;
            added.push(dep.clone());
            r.push((dep, String::from_str(pkg_version)));
            proof {
                assert(r.deep_view() =~= pre.push((dv, pkg_version@)));
                assert(added.deep_view() =~= prek.push(dv));
                assert(added.deep_view() =~= dep_keys(r.deep_view()));
            }
        }
        proof {
            assert(pv.take(i + 1).drop_last() =~= pv.take(i as int));
            assert(pv.take(i + 1).last() == pv[i as int]);
            assert(pv[i as int] == platforms@[i as int]@);
        }
        i = i + 1;
    }
    proof {
        assert(platforms.deep_view().take(n as int) =~= platforms.deep_view());
    }
    r
}

/// The file name under which one crate's package for one platform is
/// staged and published: `<crate>.<platform>.swc-pkg.tgz`.
pub fn platform_pkg_filename(crate_name: &str, platform_token: &str) -> (r: String)
    ensures
        r@ == crate_name@ + "."@ + platform_token@ + ".swc-pkg.tgz"@,
{
    let mut r = String::from_str(crate_name);
    r.append(".");
    r.append(platform_token);
    r.append(".swc-pkg.tgz");
    r
}

} // verus!
