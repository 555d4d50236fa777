//! The Markdown events that the renderer reads, and the parser that yields them.

use pulldown_cmark::{Event, Options, Parser, Tag, TagEnd};
use vstd::prelude::*;

verus! {

/// One step of a parsed Markdown document, reduced to what the renderer reads.
#[derive(Clone, Debug, PartialEq, Eq)]
pub enum MdEvent {
    /// A heading of the given level (1 to 6) opens.
    HeadingStart(u8),
    /// A heading closes.
    HeadingEnd,
    /// Strong emphasis opens.
    StrongStart,
    /// Strong emphasis closes.
    StrongEnd,
    /// Emphasis opens.
    EmphasisStart,
    /// Emphasis closes.
    EmphasisEnd,
    /// A list item opens.
    ItemStart,
    /// A list item closes.
    ItemEnd,
    /// A task-list checkbox; `true` when checked.
    TaskMarker(bool),
    /// Literal text.
    Text(String),
    /// An inline code span.
    Code(String),
    /// A line break inside a paragraph, soft or hard.
    LineBreak,
    /// Anything else; the renderer skips it.
    Other,
}

/// The mathematical value of an [`MdEvent`]: the same cases over sequences of characters.
pub enum EventModel {
    HeadingStart(u8),
    HeadingEnd,
    StrongStart,
    StrongEnd,
    EmphasisStart,
    EmphasisEnd,
    ItemStart,
    ItemEnd,
    TaskMarker(bool),
    Text(Seq<char>),
    Code(Seq<char>),
    LineBreak,
    Other,
}

impl View for MdEvent {
    type V = EventModel;

    open spec fn view(&self) -> EventModel {
        match self {
            MdEvent::HeadingStart(level) => EventModel::HeadingStart(*level),
            MdEvent::HeadingEnd => EventModel::HeadingEnd,
            MdEvent::StrongStart => EventModel::StrongStart,
            MdEvent::StrongEnd => EventModel::StrongEnd,
            MdEvent::EmphasisStart => EventModel::EmphasisStart,
            MdEvent::EmphasisEnd => EventModel::EmphasisEnd,
            MdEvent::ItemStart => EventModel::ItemStart,
            MdEvent::ItemEnd => EventModel::ItemEnd,
            MdEvent::TaskMarker(checked) => EventModel::TaskMarker(*checked),
            MdEvent::Text(text) => EventModel::Text(text@),
            MdEvent::Code(code) => EventModel::Code(code@),
            MdEvent::LineBreak => EventModel::LineBreak,
            MdEvent::Other => EventModel::Other,
        }
    }
}

/// The models of a sequence of events, in order.
pub open spec fn event_models(events: Seq<MdEvent>) -> Seq<EventModel> {
    events.map_values(|event: MdEvent| event@)
}

/// `pulldown_cmark::Parser`, the iterator over the events of a document. What one has
/// yet to yield is visible only through `pending_events`.
#[verifier::external_type_specification]
#[verifier::external_body]
#[verifier::reject_recursive_types(F)]
pub struct ExParser<'input, F>(pulldown_cmark::Parser<'input, F>);

/// `pulldown_cmark::DefaultBrokenLinkCallback`, the callback type of a parser made by
/// `Parser::new_ext`; declared because the parser's type names it.
#[verifier::external_type_specification]
#[verifier::external_body]
pub struct ExDefaultBrokenLinkCallback(pulldown_cmark::DefaultBrokenLinkCallback);

/// The events that a parser has yet to yield, in order, each as far as the renderer
/// reads it: the variant, a heading's level, a checkbox's state, and the characters of a
/// text or a code span.
pub uninterp spec fn pending_events(parser: Parser<'_>) -> Seq<EventModel>;

/// The events that the Markdown parser yields for `body` when strikethrough and task lists
/// are the only extensions switched on.
pub uninterp spec fn markdown_events(body: Seq<char>) -> Seq<EventModel>;

/// Makes a parser with `pulldown_cmark::Parser::new_ext`, with the strikethrough and
/// task-list extensions. The parser reads nothing but its two arguments, so the events
/// that it will yield are a function of `body`; that function is `markdown_events`, and
/// nothing more is claimed of it.
#[verifier::external_body]
fn new_parser<'a>(body: &'a str) -> (parser: Parser<'a>)
    ensures
        pending_events(parser) == markdown_events(body@),
{
    let mut options = Options::empty();
    options.insert(Options::ENABLE_STRIKETHROUGH);
    options.insert(Options::ENABLE_TASKLISTS);
    Parser::new_ext(body, options)
}

/// Takes the next event with the parser's `Iterator::next`, tells the variants of
/// `pulldown_cmark::Event` apart and moves out the fields that the renderer reads. The
/// parser yields its pending events one by one from the front, and nothing once they are
/// used up.
#[verifier::external_body]
fn next_event(parser: &mut Parser<'_>) -> (next: Option<MdEvent>)
    ensures
        match next {
            Some(event) => pending_events(*old(parser)).len() > 0 && event@ == pending_events(
                *old(parser),
            )[0] && pending_events(*final(parser)) == pending_events(*old(parser)).drop_first(),
            None => pending_events(*old(parser)).len() == 0 && pending_events(*final(parser)).len()
                == 0,
        },
{
    Some(match parser.next()? {
        Event::Start(Tag::Heading { level, .. }) => MdEvent::HeadingStart(level as u8),
        Event::End(TagEnd::Heading(_)) => MdEvent::HeadingEnd,
        Event::Start(Tag::Strong) => MdEvent::StrongStart,
        Event::End(TagEnd::Strong) => MdEvent::StrongEnd,
        Event::Start(Tag::Emphasis) => MdEvent::EmphasisStart,
        Event::End(TagEnd::Emphasis) => MdEvent::EmphasisEnd,
        Event::Start(Tag::Item) => MdEvent::ItemStart,
        Event::End(TagEnd::Item) => MdEvent::ItemEnd,
        Event::TaskListMarker(checked) => MdEvent::TaskMarker(checked),
        Event::Text(text) => MdEvent::Text(text.into_string()),
        Event::Code(code) => MdEvent::Code(code.into_string()),
        Event::SoftBreak | Event::HardBreak => MdEvent::LineBreak,
        _ => MdEvent::Other,
    })
}

/// Parses `body` as Markdown, with strikethrough and task lists switched on and nothing
/// else, into the events that the renderer reads.
pub fn parse_events(body: &str) -> (events: Vec<MdEvent>)
    ensures
        event_models(events@) == markdown_events(body@),
{
    let mut parser = new_parser(body);
    let mut events: Vec<MdEvent> = Vec::new();
    loop
        invariant
            event_models(events@) + pending_events(parser) == markdown_events(body@),
        ensures
            event_models(events@) == markdown_events(body@),
        decreases pending_events(parser).len(),
    {
        let ghost before = pending_events(parser);
        match next_event(&mut parser) {
            Some(event) => {
                assert(before == seq![event@] + pending_events(parser));
                assert(event_models(events@.push(event)) == event_models(events@) + seq![event@]);
                events.push(event);
            },
            None => {
                assert(before == Seq::<EventModel>::empty());
                break;
            },
        }
    }
    events
}

} // verus!
