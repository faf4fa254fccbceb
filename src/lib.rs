//! Postprocessing stages for a Markdown export pipeline.
//!
//! A stage takes a document's [`Context`] and its event stream, and hands
//! both back together with a [`PostprocessorResult`] that tells the driver
//! whether to go on with the next stage or to leave the document out.

mod events;
pub mod frontmatter;

pub mod context;
pub mod pipeline;
pub mod postprocessors;

pub use context::{Context, MarkdownEvents, Postprocessor, PostprocessorResult};
pub use pipeline::run_postprocessors;
pub use postprocessors::{
    create_yaml_includer, softbreaks_to_hardbreaks, BuiltinPostprocessor, SoftbreaksToHardbreaks,
    YamlIncluder,
};
