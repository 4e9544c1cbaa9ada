//! The build tool's event stream: one structured record per line, with
//! a trusted parse of each line into the library's own event type.

use vstd::prelude::*;

verus! {

/// Mathematical form of one build-tool event.
#[verifier::ext_equal]
pub enum EventModel {
    /// A compiler diagnostic, forwarded to the log and not stored.
    Diagnostic,
    /// A candidate build output.
    Artifact { kinds: Seq<Seq<char>>, target_name: Seq<char>, fresh: bool, filenames: Seq<Seq<char>> },
    /// A build script ran; carries nothing the pipeline uses.
    ScriptRan,
    /// The terminal record of the stream.
    Finished { success: bool },
    /// A record of a kind this pipeline does not know; never an error.
    Other,
}

/// One event of the build tool's output stream.
#[derive(Clone, Debug)]
pub enum BuildEvent {
    Diagnostic,
    Artifact { kinds: Vec<String>, target_name: String, fresh: bool, filenames: Vec<String> },
    ScriptRan,
    Finished { success: bool },
    Other,
}

impl View for BuildEvent {
    type V = EventModel;

    open spec fn view(&self) -> EventModel {
        match self {
            BuildEvent::Diagnostic => EventModel::Diagnostic,
            BuildEvent::Artifact { kinds, target_name, fresh, filenames } => EventModel::Artifact {
                kinds: kinds.deep_view(),
                target_name: target_name@,
                fresh: *fresh,
                filenames: filenames.deep_view(),
            },
            BuildEvent::ScriptRan => EventModel::ScriptRan,
            BuildEvent::Finished { success } => EventModel::Finished { success: *success },
            BuildEvent::Other => EventModel::Other,
        }
    }
}

/// The event one line of the stream parses to: a function of the line's
/// characters alone. A line that is no known record is `Other`.
pub uninterp spec fn event_of(line: Seq<char>) -> EventModel;

/// Relies on serde_json::from_str deserializing cargo_metadata::Message:
/// the parse is a pure function of the line; the record's discriminant
/// field selects the variant, and an unknown or malformed line fails to
/// deserialize, which this pipeline treats as an unrecognized record.
#[verifier::external_body]
pub(crate) fn parse_event_line(line: &str) -> (r: BuildEvent)
    ensures
        r@ == event_of(line@),
{
    match serde_json::from_str::<cargo_metadata::Message>(line) {
        Ok(cargo_metadata::Message::CompilerArtifact(a)) => BuildEvent::Artifact {
            kinds: a.target.kind,
            target_name: a.target.name,
            fresh: a.fresh,
            filenames: a.filenames.into_iter().map(|p| p.into_string()).collect(),
        },
        Ok(cargo_metadata::Message::CompilerMessage(_)) => BuildEvent::Diagnostic,
        Ok(cargo_metadata::Message::BuildScriptExecuted(_)) => BuildEvent::ScriptRan,
        Ok(cargo_metadata::Message::BuildFinished(f)) => BuildEvent::Finished {
            success: f.success,
        },
        Ok(_) => BuildEvent::Other,
        Err(_) => BuildEvent::Other,
    }
}

} // verus!
