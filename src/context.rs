//! What a stage receives and returns.
use pulldown_cmark::Event;
use serde_yaml::Mapping;
use std::path::PathBuf;
use vstd::prelude::*;

verus! {

/// The events of one document, in reading order.
pub type MarkdownEvents<'a> = Vec<Event<'a>>;

/// What a stage tells the driver once it has run.
#[derive(Clone, Copy, Debug, PartialEq, Eq, Structural)]
pub enum PostprocessorResult {
    /// Hand the document to the next stage.
    Continue,
    /// Run no further stage and leave the document out of the export.
    StopAndSkipNote,
}

/// `std::path::PathBuf`: a filesystem path, carried through untouched.
#[verifier::external_type_specification]
#[verifier::external_body]
pub struct ExPathBuf(std::path::PathBuf);

/// Per-document data handed from stage to stage.
pub struct Context {
    /// Where the exporter writes the document.
    pub destination: PathBuf,
    /// The document's frontmatter, as a YAML mapping.
    pub frontmatter: Mapping,
}

/// A stage of the pipeline: it takes a document's context and events and
/// hands back both, possibly rewritten, with the signal for the driver.
///
/// Configuration that a stage needs lives in the implementing value, fixed
/// when the stage is built, so that every stage has this one method.
pub trait Postprocessor {
    /// What [`Postprocessor::apply`] returns on a context and a stream.
    spec fn outcome<'a>(&self, context: Context, events: Seq<Event<'a>>) -> (
        Context,
        Seq<Event<'a>>,
        PostprocessorResult,
    );

    /// Runs the stage on one document.
    fn apply<'a>(&self, context: Context, events: MarkdownEvents<'a>) -> (r: (
        Context,
        MarkdownEvents<'a>,
        PostprocessorResult,
    ))
        ensures
            (r.0, r.1@, r.2) == self.outcome(context, events@),
    ;
}

} // verus!
