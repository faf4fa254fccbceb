//! The stages that come with the library.
use crate::context::{Context, MarkdownEvents, Postprocessor, PostprocessorResult};
use crate::pipeline::run_chain;
use crate::frontmatter::{frontmatter_get, string_entries};
use pulldown_cmark::Event;
use serde_yaml::{Mapping, Value};
use vstd::prelude::*;

verus! {

/// A soft line break becomes a hard one; every other event stays as it is.
pub open spec fn hard_break_of<'a>(event: Event<'a>) -> Event<'a> {
    match event {
        Event::SoftBreak => Event::HardBreak,
        _ => event,
    }
}

/// The stream with each soft line break replaced by a hard one.
pub open spec fn normalized<'a>(events: Seq<Event<'a>>) -> Seq<Event<'a>> {
    events.map_values(|e: Event<'a>| hard_break_of(e))
}

/// Normalizing line breaks twice gives the same stream as normalizing once:
/// a hard break is left as it is.
pub proof fn lemma_normalize_idempotent<'a>(events: Seq<Event<'a>>)
    ensures
        normalized(normalized(events)) == normalized(events),
{
    assert(normalized(normalized(events)) =~= normalized(events));
}

/// Normalizing keeps the stream's length and order: the event at each
/// position is the one that stood there, or a soft break that became hard.
pub proof fn lemma_normalize_changes_only_soft_breaks<'a>(events: Seq<Event<'a>>)
    ensures
        normalized(events).len() == events.len(),
        forall|i: int|
            0 <= i < events.len() ==> {
                ||| normalized(events)[i] == events[i]
                ||| (events[i] == Event::<'a>::SoftBreak && normalized(events)[i]
                    == Event::<'a>::HardBreak)
            },
{
}

/// Converts all soft line breaks to hard line breaks, which mimics a
/// "strict line breaks" rendering. The context is handed back as it came,
/// and the driver is told to go on.
pub fn softbreaks_to_hardbreaks<'a>(
    context: Context,
    events: MarkdownEvents<'a>,
) -> (r: (Context, MarkdownEvents<'a>, PostprocessorResult))
    ensures
        r.0 == context,
        r.1@ == normalized(events@),
        r.2 == PostprocessorResult::Continue,
{
    let mut events = events;
    let ghost original = events@;
    let mut i: usize = 0;
    while i < events.len()
        invariant
            i <= events.len(),
            events@.len() == original.len(),
            forall|j: int| 0 <= j < i ==> events@[j] == hard_break_of(original[j]),
            forall|j: int| i <= j < events@.len() ==> events@[j] == original[j],
        decreases events.len() - i,
    {
        let is_soft = match &events[i] {
            Event::SoftBreak => true,
            _ => false,
        };
        if is_soft {
            events.set(i, Event::HardBreak);
        }
        i += 1;
    }
    assert(events@ =~= normalized(original));
    (context, events, PostprocessorResult::Continue)
}

/// The stage form of [`softbreaks_to_hardbreaks`].
#[derive(Clone, Copy, Debug)]
pub struct SoftbreaksToHardbreaks;

impl Postprocessor for SoftbreaksToHardbreaks {
    open spec fn outcome<'a>(&self, context: Context, events: Seq<Event<'a>>) -> (
        Context,
        Seq<Event<'a>>,
        PostprocessorResult,
    ) {
        (context, normalized(events), PostprocessorResult::Continue)
    }

    fn apply<'a>(&self, context: Context, events: MarkdownEvents<'a>) -> (r: (
        Context,
        MarkdownEvents<'a>,
        PostprocessorResult,
    )) {
        softbreaks_to_hardbreaks(context, events)
    }
}

/// The signal for a document whose frontmatter is `frontmatter`, when the
/// flag that admits it is named `key`: only the boolean `true` admits it.
pub open spec fn inclusion_signal(frontmatter: Mapping, key: Seq<char>) -> PostprocessorResult {
    if string_entries(frontmatter).contains_key(key) && string_entries(frontmatter)[key]
        == Value::Bool(true) {
        PostprocessorResult::Continue
    } else {
        PostprocessorResult::StopAndSkipNote
    }
}

/// Decides on the frontmatter entry found under the inclusion key: the
/// boolean `true` lets the document through; a missing entry, `false`, or a
/// value of any other type leaves it out.
pub fn inclusion_signal_for(entry: Option<&Value>) -> (r: PostprocessorResult)
    ensures
        r == (if entry == Some(&Value::Bool(true)) {
            PostprocessorResult::Continue
        } else {
            PostprocessorResult::StopAndSkipNote
        }),
{
    match entry {
        Some(Value::Bool(true)) => PostprocessorResult::Continue,
        _ => PostprocessorResult::StopAndSkipNote,
    }
}

/// A stage that lets a document through only when its frontmatter holds
/// `true` under a key chosen when the stage is built.
#[derive(Clone, Debug)]
pub struct YamlIncluder {
    key: String,
}

impl YamlIncluder {
    /// The frontmatter key that the stage reads.
    pub closed spec fn inclusion_key(&self) -> Seq<char> {
        self.key@
    }
}

impl Postprocessor for YamlIncluder {
    open spec fn outcome<'a>(&self, context: Context, events: Seq<Event<'a>>) -> (
        Context,
        Seq<Event<'a>>,
        PostprocessorResult,
    ) {
        (context, events, inclusion_signal(context.frontmatter, self.inclusion_key()))
    }

    fn apply<'a>(&self, context: Context, events: MarkdownEvents<'a>) -> (r: (
        Context,
        MarkdownEvents<'a>,
        PostprocessorResult,
    )) {
        let action = inclusion_signal_for(frontmatter_get(&context.frontmatter, self.key.as_str()));
        (context, events, action)
    }
}

/// Builds the stage that admits a document only when its frontmatter maps
/// `yaml_inclusion_key` to the boolean `true`.
pub fn create_yaml_includer(yaml_inclusion_key: &str) -> (r: YamlIncluder)
    ensures
        r.inclusion_key() == yaml_inclusion_key@,
{
    YamlIncluder { key: yaml_inclusion_key.to_owned() }
}

/// One of the stages above, so that a stage list can mix them.
#[derive(Clone, Debug)]
pub enum BuiltinPostprocessor {
    /// See [`softbreaks_to_hardbreaks`].
    SoftbreaksToHardbreaks,
    /// See [`create_yaml_includer`].
    YamlIncluder(YamlIncluder),
}

impl Postprocessor for BuiltinPostprocessor {
    open spec fn outcome<'a>(&self, context: Context, events: Seq<Event<'a>>) -> (
        Context,
        Seq<Event<'a>>,
        PostprocessorResult,
    ) {
        match self {
            BuiltinPostprocessor::SoftbreaksToHardbreaks => SoftbreaksToHardbreaks.outcome(
                context,
                events,
            ),
            BuiltinPostprocessor::YamlIncluder(stage) => stage.outcome(context, events),
        }
    }

    fn apply<'a>(&self, context: Context, events: MarkdownEvents<'a>) -> (r: (
        Context,
        MarkdownEvents<'a>,
        PostprocessorResult,
    )) {
        match self {
            BuiltinPostprocessor::SoftbreaksToHardbreaks => softbreaks_to_hardbreaks(
                context,
                events,
            ),
            BuiltinPostprocessor::YamlIncluder(stage) => stage.apply(context, events),
        }
    }
}

/// A chain that normalizes line breaks and then applies an includer keeps
/// the context, turns every soft break into a hard one, and lets the
/// document through, when its frontmatter holds `true` under the key.
pub proof fn lemma_normalize_then_include<'a>(
    includer: YamlIncluder,
    context: Context,
    events: Seq<Event<'a>>,
)
    requires
        inclusion_signal(context.frontmatter, includer.inclusion_key())
            == PostprocessorResult::Continue,
    ensures
        run_chain(
            seq![
                BuiltinPostprocessor::SoftbreaksToHardbreaks,
                BuiltinPostprocessor::YamlIncluder(includer),
            ],
            context,
            events,
        ) == (context, normalized(events), PostprocessorResult::Continue),
{
    let stages = seq![
        BuiltinPostprocessor::SoftbreaksToHardbreaks,
        BuiltinPostprocessor::YamlIncluder(includer),
    ];
    assert(stages.drop_first().drop_first() =~= Seq::<BuiltinPostprocessor>::empty());
    reveal_with_fuel(run_chain, 3);
}

} // verus!
