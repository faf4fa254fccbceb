use postprocessors::postprocessors::inclusion_signal_for;
use postprocessors::{
    create_yaml_includer, run_postprocessors, softbreaks_to_hardbreaks, BuiltinPostprocessor,
    Context, MarkdownEvents, Postprocessor, PostprocessorResult,
};
use pulldown_cmark::{CowStr, Event, Tag};
use serde_yaml::{Mapping, Value};
use std::path::PathBuf;

fn context_with(entries: Vec<(&str, Value)>) -> Context {
    let mut frontmatter = Mapping::new();
    for (key, value) in entries {
        frontmatter.insert(Value::String(key.to_string()), value);
    }
    Context {
        destination: PathBuf::from("export/note.md"),
        frontmatter,
    }
}

fn sample_events() -> MarkdownEvents<'static> {
    vec![
        Event::Start(Tag::Paragraph),
        Event::Text(CowStr::Borrowed("first line")),
        Event::SoftBreak,
        Event::Text(CowStr::Borrowed("second line")),
        Event::HardBreak,
        Event::Text(CowStr::Borrowed("third line")),
        Event::End(Tag::Paragraph),
    ]
}

#[test]
fn softbreaks_become_hardbreaks() {
    let (context, events, signal) = softbreaks_to_hardbreaks(context_with(vec![]), sample_events());
    assert_eq!(signal, PostprocessorResult::Continue);
    assert_eq!(context.destination, PathBuf::from("export/note.md"));
    assert_eq!(
        events,
        vec![
            Event::Start(Tag::Paragraph),
            Event::Text(CowStr::Borrowed("first line")),
            Event::HardBreak,
            Event::Text(CowStr::Borrowed("second line")),
            Event::HardBreak,
            Event::Text(CowStr::Borrowed("third line")),
            Event::End(Tag::Paragraph),
        ]
    );
}

#[test]
fn softbreaks_on_empty_stream() {
    let (_, events, signal) = softbreaks_to_hardbreaks(context_with(vec![]), vec![]);
    assert!(events.is_empty());
    assert_eq!(signal, PostprocessorResult::Continue);
}

#[test]
fn normalizing_twice_equals_once() {
    let (context, once, _) = softbreaks_to_hardbreaks(context_with(vec![]), sample_events());
    let (_, twice, _) = softbreaks_to_hardbreaks(context, once.clone());
    assert_eq!(twice, once);
}

#[test]
fn normalizing_keeps_length_and_order() {
    let input = sample_events();
    let (_, output, _) = softbreaks_to_hardbreaks(context_with(vec![]), input.clone());
    assert_eq!(output.len(), input.len());
    for (before, after) in input.iter().zip(output.iter()) {
        match before {
            Event::SoftBreak => assert_eq!(*after, Event::HardBreak),
            _ => assert_eq!(after, before),
        }
    }
}

fn includer_signal(entries: Vec<(&str, Value)>) -> PostprocessorResult {
    let stage = create_yaml_includer("publish");
    let (_, events, signal) = stage.apply(context_with(entries), sample_events());
    assert_eq!(events, sample_events());
    signal
}

#[test]
fn includer_continues_on_true() {
    assert_eq!(
        includer_signal(vec![("publish", Value::Bool(true))]),
        PostprocessorResult::Continue
    );
}

#[test]
fn includer_skips_on_false() {
    assert_eq!(
        includer_signal(vec![("publish", Value::Bool(false))]),
        PostprocessorResult::StopAndSkipNote
    );
}

#[test]
fn includer_skips_when_key_absent() {
    assert_eq!(includer_signal(vec![]), PostprocessorResult::StopAndSkipNote);
    assert_eq!(
        includer_signal(vec![("draft", Value::Bool(true))]),
        PostprocessorResult::StopAndSkipNote
    );
}

#[test]
fn includer_skips_on_wrong_type() {
    assert_eq!(
        includer_signal(vec![("publish", Value::String("yes".to_string()))]),
        PostprocessorResult::StopAndSkipNote
    );
    assert_eq!(
        includer_signal(vec![("publish", Value::String("true".to_string()))]),
        PostprocessorResult::StopAndSkipNote
    );
    assert_eq!(
        includer_signal(vec![("publish", Value::Null)]),
        PostprocessorResult::StopAndSkipNote
    );
}

#[test]
fn includer_keeps_context() {
    let stage = create_yaml_includer("publish");
    let (context, _, _) = stage.apply(
        context_with(vec![("publish", Value::Bool(true)), ("title", Value::Null)]),
        vec![],
    );
    assert_eq!(context.destination, PathBuf::from("export/note.md"));
    assert_eq!(context.frontmatter.len(), 2);
    assert_eq!(context.frontmatter.get("publish"), Some(&Value::Bool(true)));
}

#[test]
fn inclusion_signal_for_entries() {
    assert_eq!(
        inclusion_signal_for(Some(&Value::Bool(true))),
        PostprocessorResult::Continue
    );
    assert_eq!(
        inclusion_signal_for(Some(&Value::Bool(false))),
        PostprocessorResult::StopAndSkipNote
    );
    assert_eq!(inclusion_signal_for(None), PostprocessorResult::StopAndSkipNote);
    assert_eq!(
        inclusion_signal_for(Some(&Value::String("yes".to_string()))),
        PostprocessorResult::StopAndSkipNote
    );
}

#[test]
fn chain_stops_at_first_skip() {
    // The first stage lets the document through, the second stops it; the
    // third would turn the soft break into a hard one if it ran.
    let stages = vec![
        BuiltinPostprocessor::YamlIncluder(create_yaml_includer("publish")),
        BuiltinPostprocessor::YamlIncluder(create_yaml_includer("draft")),
        BuiltinPostprocessor::SoftbreaksToHardbreaks,
    ];
    let (_, events, signal) = run_postprocessors(
        &stages,
        context_with(vec![("publish", Value::Bool(true)), ("draft", Value::Bool(false))]),
        vec![Event::SoftBreak],
    );
    assert_eq!(signal, PostprocessorResult::StopAndSkipNote);
    assert_eq!(events, vec![Event::SoftBreak]);
}

#[test]
fn empty_chain_continues() {
    let stages: Vec<BuiltinPostprocessor> = vec![];
    let (context, events, signal) =
        run_postprocessors(&stages, context_with(vec![]), sample_events());
    assert_eq!(signal, PostprocessorResult::Continue);
    assert_eq!(events, sample_events());
    assert_eq!(context.destination, PathBuf::from("export/note.md"));
}

#[test]
fn chain_normalizes_then_includes() {
    let stages = vec![
        BuiltinPostprocessor::SoftbreaksToHardbreaks,
        BuiltinPostprocessor::YamlIncluder(create_yaml_includer("publish")),
    ];
    let events = vec![
        Event::Text(CowStr::Borrowed("one")),
        Event::SoftBreak,
        Event::Text(CowStr::Borrowed("two")),
    ];
    let (_, events, signal) = run_postprocessors(
        &stages,
        context_with(vec![("publish", Value::Bool(true))]),
        events,
    );
    assert_eq!(signal, PostprocessorResult::Continue);
    assert_eq!(
        events,
        vec![
            Event::Text(CowStr::Borrowed("one")),
            Event::HardBreak,
            Event::Text(CowStr::Borrowed("two")),
        ]
    );
}

#[test]
fn chain_skip_keeps_last_output() {
    let stages = vec![
        BuiltinPostprocessor::SoftbreaksToHardbreaks,
        BuiltinPostprocessor::YamlIncluder(create_yaml_includer("publish")),
        BuiltinPostprocessor::YamlIncluder(create_yaml_includer("never")),
    ];
    let (_, events, signal) = run_postprocessors(
        &stages,
        context_with(vec![("publish", Value::Bool(false))]),
        vec![Event::SoftBreak],
    );
    assert_eq!(signal, PostprocessorResult::StopAndSkipNote);
    assert_eq!(events, vec![Event::HardBreak]);
}

#[test]
fn chains_on_two_documents_are_independent() {
    let stages = vec![
        BuiltinPostprocessor::YamlIncluder(create_yaml_includer("publish")),
        BuiltinPostprocessor::SoftbreaksToHardbreaks,
    ];
    let (_, published, first) = run_postprocessors(
        &stages,
        context_with(vec![("publish", Value::Bool(true))]),
        vec![Event::SoftBreak],
    );
    let (_, skipped, second) = run_postprocessors(
        &stages,
        context_with(vec![("publish", Value::Bool(false))]),
        vec![Event::SoftBreak],
    );
    let (_, again, third) = run_postprocessors(
        &stages,
        context_with(vec![("publish", Value::Bool(true))]),
        vec![Event::SoftBreak],
    );
    assert_eq!(first, PostprocessorResult::Continue);
    assert_eq!(published, vec![Event::HardBreak]);
    assert_eq!(second, PostprocessorResult::StopAndSkipNote);
    assert_eq!(skipped, vec![Event::SoftBreak]);
    assert_eq!(third, first);
    assert_eq!(again, published);
}
