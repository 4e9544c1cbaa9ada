//! Artifact extraction: the policy that turns the build tool's event
//! stream into the de-duplicated set of built dynamic-library artifacts.

use vstd::prelude::*;
use crate::events::{parse_event_line, event_of, BuildEvent, EventModel};
use crate::text::{last_at, rfind_char, str_eq, vec_contains_str};

verus! {

/// Mathematical form of one built dynamic library.
#[verifier::ext_equal]
pub struct PluginModel {
    pub crate_name: Seq<char>,
    pub target: Seq<char>,
    pub cdylib_path: Seq<char>,
}

/// One compiled dynamic library reported by the build tool, tagged with
/// its owning crate and the target triple it was built for.
#[derive(Clone, Debug, PartialEq, Eq, PartialOrd, Ord, Hash)]
pub struct BuiltPlugin {
    pub crate_name: String,
    pub target: String,
    pub cdylib_path: String,
}

impl View for BuiltPlugin {
    type V = PluginModel;

    open spec fn view(&self) -> PluginModel {
        PluginModel {
            crate_name: self.crate_name@,
            target: self.target@,
            cdylib_path: self.cdylib_path@,
        }
    }
}

impl DeepView for BuiltPlugin {
    type V = PluginModel;

    open spec fn deep_view(&self) -> PluginModel {
        self@
    }
}

/// The extension of a path: the suffix after the last dot, when that
/// dot lies inside the last path component and does not lead it.
pub open spec fn spec_ext_of(f: Seq<char>) -> Option<Seq<char>> {
    let sep = if last_at(f, '/') >= last_at(f, '\\') {
        last_at(f, '/')
    } else {
        last_at(f, '\\')
    };
    let d = last_at(f, '.');
    if d > sep + 1 {
        Some(f.subrange(d + 1, f.len() as int))
    } else {
        None
    }
}

/// Whether a path carries the link-only archive extension.
pub open spec fn spec_has_rlib_ext(f: Seq<char>) -> bool {
    spec_ext_of(f) == Some("rlib"@)
}

/// The extension of a path, when it has one.
pub fn extension_of(f: &str) -> (r: Option<String>)
    ensures
        match r {
            Some(e) => spec_ext_of(f@) == Some(e@),
            None => spec_ext_of(f@) is None,
        },
{
    let n = f.unicode_len();
    let slash = rfind_char(f, '/');
    let bslash = rfind_char(f, '\\');
    let d = match rfind_char(f, '.') {
        Some(d) => d,
        None => {
            return None;
        },
    };
    let past_slash = match slash {
        Some(i) => d > i + 1,
        None => d > 0,
    };
    let past_bslash = match bslash {
        Some(i) => d > i + 1,
        None => d > 0,
    };
    if !(past_slash && past_bslash) {
        return None;
    }
    Some(String::from_str(f.substring_char(d + 1, n)))
}

/// Whether a path carries the link-only archive extension.
pub fn has_rlib_extension(f: &str) -> (r: bool)
    ensures
        r == spec_has_rlib_ext(f@),
{
    match extension_of(f) {
        Some(e) => str_eq(e.as_str(), "rlib"),
        None => false,
    }
}

/// An artifact the build tool reports as already up to date and that is
/// a plain library, a procedural macro, or the internal build-script
/// binary: it was not rebuilt this run and is no packaging deliverable.
pub open spec fn spec_skip_artifact(
    kinds: Seq<Seq<char>>,
    target_name: Seq<char>,
    fresh: bool,
) -> bool {
    fresh && kinds.len() == 1 && (kinds[0] == "lib"@ || kinds[0] == "proc-macro"@ || target_name
        == "build-script-build"@)
}

/// The artifacts recorded from one artifact event's file list: every
/// file that is not a link-only archive, in the listed order.
pub open spec fn kept_artifacts(
    filenames: Seq<Seq<char>>,
    crate_name: Seq<char>,
    target: Seq<char>,
) -> Seq<PluginModel>
    decreases filenames.len(),
{
    if filenames.len() == 0 {
        Seq::<PluginModel>::empty()
    } else {
        let rest = kept_artifacts(filenames.drop_last(), crate_name, target);
        if spec_has_rlib_ext(filenames.last()) {
            rest
        } else {
            rest.push(PluginModel { crate_name, target, cdylib_path: filenames.last() })
        }
    }
}

/// The artifacts one event contributes: nothing unless it is an
/// artifact event whose kind set contains `cdylib` and that is not
/// skipped as fresh.
pub open spec fn artifacts_of_event(e: EventModel, target: Seq<char>) -> Seq<PluginModel> {
    match e {
        EventModel::Artifact { kinds, target_name, fresh, filenames } => {
            if spec_skip_artifact(kinds, target_name, fresh) {
                Seq::<PluginModel>::empty()
            } else if kinds.contains("cdylib"@) {
                kept_artifacts(filenames, target_name, target)
            } else {
                Seq::<PluginModel>::empty()
            }
        },
        _ => Seq::<PluginModel>::empty(),
    }
}

/// How one event was handled, for the caller's log.
#[derive(Clone, Copy, Debug, PartialEq, Eq, Structural)]
pub enum EventDisposition {
    /// A compiler diagnostic, to forward to the log.
    Diagnostic,
    /// An artifact event whose deliverable files were recorded.
    Recorded,
    /// An artifact event skipped as already up to date.
    SkippedFresh,
    /// An artifact event of a shape the pipeline does not handle.
    Unhandled,
    /// An event that carries nothing for the pipeline.
    Ignored,
    /// The terminal event, with the build tool's own verdict.
    Finished { success: bool },
}

/// The disposition every event gets.
pub open spec fn spec_disposition(e: EventModel) -> EventDisposition {
    match e {
        EventModel::Diagnostic => EventDisposition::Diagnostic,
        EventModel::Artifact { kinds, target_name, fresh, filenames } => {
            if spec_skip_artifact(kinds, target_name, fresh) {
                EventDisposition::SkippedFresh
            } else if kinds.contains("cdylib"@) {
                EventDisposition::Recorded
            } else {
                EventDisposition::Unhandled
            }
        },
        EventModel::ScriptRan => EventDisposition::Ignored,
        EventModel::Finished { success } => EventDisposition::Finished { success },
        EventModel::Other => EventDisposition::Ignored,
    }
}

/// Streaming state of one extraction run: the resolved target triple
/// and the artifacts recorded so far.
pub struct Extractor {
    pub target: String,
    pub artifacts: Vec<BuiltPlugin>,
}

impl Extractor {
    /// Fresh state for one run, tagged with the resolved target triple.
    pub fn new(target: String) -> (r: Extractor)
        ensures
            r.target@ == target@,
            r.artifacts.deep_view() == Seq::<PluginModel>::empty(),
    {
        let r = Extractor { target, artifacts: Vec::new() };
        proof {
            assert(r.artifacts.deep_view() =~= Seq::<PluginModel>::empty());
        }
        r
    }

    /// Applies the artifact-candidate policy to one event: appends
    /// exactly the event's deliverable files to the record and reports
    /// how the event was handled.
    pub fn process_event(&mut self, event: BuildEvent) -> (r: EventDisposition)
        ensures
            final(self).target == old(self).target,
            final(self).artifacts.deep_view() == old(self).artifacts.deep_view()
                + artifacts_of_event(event@, old(self).target@),
            r == spec_disposition(event@),
    {
        match event {
            BuildEvent::Diagnostic => {
                proof {
                    assert(final(self).artifacts.deep_view() =~= old(self).artifacts.deep_view()
                        + artifacts_of_event(event@, old(self).target@));
                }
                EventDisposition::Diagnostic
            },
            BuildEvent::Artifact { kinds, target_name, fresh, filenames } => {
                let ghost ev = EventModel::Artifact {
                    kinds: kinds.deep_view(),
                    target_name: target_name@,
                    fresh,
                    filenames: filenames.deep_view(),
                };
                let skip = fresh && kinds.len() == 1 && (str_eq(kinds[0].as_str(), "lib")
                    || str_eq(kinds[0].as_str(), "proc-macro")
                    || str_eq(target_name.as_str(), "build-script-build"));
                proof {
                    assert(kinds.deep_view().len() == kinds@.len());
                    if kinds.len() == 1 {
                        assert(kinds.deep_view()[0] == kinds@[0]@);
                    }
                    assert(skip == spec_skip_artifact(kinds.deep_view(), target_name@, fresh));
                }
                if skip {
                    proof {
                        assert(final(self).artifacts.deep_view() =~= old(
                            self,
                        ).artifacts.deep_view() + artifacts_of_event(ev, old(self).target@));
                    }
                    EventDisposition::SkippedFresh
                } else if vec_contains_str(&kinds, "cdylib") {
                    let ghost base = self.artifacts.deep_view();
                    let n = filenames.len();
                    let mut i: usize = 0;
                    while i < n
                        invariant
                            0 <= i <= n,
                            n == filenames.len(),
                            self.target == old(self).target,
                            self.artifacts.deep_view() == base + kept_artifacts(
                                filenames.deep_view().take(i as int),
                                target_name@,
                                old(self).target@,
                            ),
                        decreases n - i,
                    {
                        let ghost pre = self.artifacts.deep_view();
                        if !has_rlib_extension(filenames[i].as_str()) {
                            let plugin = BuiltPlugin {
                                crate_name: target_name.clone(),
                                target: self.target.clone(),
                                cdylib_path: filenames[i].clone(),
                            };
                            self.artifacts.push(plugin);
                            proof {
                                assert(self.artifacts.deep_view() =~= pre.push(
                                    PluginModel {
                                        crate_name: target_name@,
                                        target: old(self).target@,
                                        cdylib_path: filenames.deep_view()[i as int],
                                    },
                                ));
                            }
                        }
                        proof {
                            let fl = filenames.deep_view();
                            assert(fl.take(i + 1).drop_last() =~= fl.take(i as int));
                            assert(fl.take(i + 1).last() == fl[i as int]);
                            assert(fl[i as int] == filenames@[i as int]@);
                        }
                        i = i + 1;
                    }
                    proof {
                        assert(filenames.deep_view().take(n as int) =~= filenames.deep_view());
                        assert(self.artifacts.deep_view() =~= old(self).artifacts.deep_view()
                            + artifacts_of_event(ev, old(self).target@));
                    }
                    EventDisposition::Recorded
                } else {
                    proof {
                        assert(final(self).artifacts.deep_view() =~= old(
                            self,
                        ).artifacts.deep_view() + artifacts_of_event(ev, old(self).target@));
                    }
                    EventDisposition::Unhandled
                }
            },
            BuildEvent::ScriptRan => {
                proof {
                    assert(final(self).artifacts.deep_view() =~= old(self).artifacts.deep_view()
                        + artifacts_of_event(event@, old(self).target@));
                }
                EventDisposition::Ignored
            },
            BuildEvent::Finished { success } => {
                proof {
                    assert(final(self).artifacts.deep_view() =~= old(self).artifacts.deep_view()
                        + artifacts_of_event(event@, old(self).target@));
                }
                EventDisposition::Finished { success }
            },
            BuildEvent::Other => {
                proof {
                    assert(final(self).artifacts.deep_view() =~= old(self).artifacts.deep_view()
                        + artifacts_of_event(event@, old(self).target@));
                }
                EventDisposition::Ignored
            },
        }
    }

    /// Parses one line of the stream and applies the policy to it.
    pub fn process_line(&mut self, line: &str) -> (r: EventDisposition)
        ensures
            final(self).target == old(self).target,
            final(self).artifacts.deep_view() == old(self).artifacts.deep_view()
                + artifacts_of_event(event_of(line@), old(self).target@),
            r == spec_disposition(event_of(line@)),
    {
        let event = parse_event_line(line);
        self.process_event(event)
    }
}

} // verus!
