//! The renderer: a note's text and a few style parameters in, inline markup out.
//!
//! The markup is the attributed-span dialect that the display layer parses: `<span>` with
//! the attributes `font_weight`, `size`, `color`, `font_family`, `background`, `foreground`
//! and `rise`, and the shorthand tags `<b>` and `<i>`.

use crate::config::{style_of, Config};
use crate::document::{body_of, split_title, title_of};
use crate::escape::{
    escaped, escaped_text_is_inert, is_bare_markup, push_escaped_text, reference_at,
};
use crate::events::{event_models, markdown_events, parse_events, EventModel, MdEvent};
use crate::text::{decimal, join, joined, push_decimal, texts};
use vstd::prelude::*;

verus! {

/// The two ways of writing headings and emphasis.
#[derive(Clone, Copy, Debug, PartialEq, Eq)]
pub enum Preset {
    /// For a task list: three heading sizes in the accent colour, each heading followed
    /// by a blank line, and italics for emphasis.
    Tasks,
    /// For a note whose first line is its title: two heading sizes, smaller, without
    /// colour, and emphasis left unmarked.
    Note,
}

impl Default for Preset {
    /// The preset used where none is asked for: `Note`.
    fn default() -> (preset: Preset)
        ensures
            preset == Preset::Note,
    {
        Preset::Note
    }
}

/// What the renderer takes from the configuration.
#[derive(Clone, Debug, PartialEq, Eq)]
pub struct StyleParams {
    /// Size of the title, in points.
    pub title_size: u32,
    /// Colour of the title and, in the `Tasks` preset, of headings.
    pub accent_color: String,
    /// Font families for code spans, most wanted first.
    pub font_family: Vec<String>,
    /// How headings and emphasis are written.
    pub preset: Preset,
}

/// The mathematical value of a [`StyleParams`].
pub struct StyleModel {
    pub title_size: u32,
    pub accent_color: Seq<char>,
    pub font_family: Seq<Seq<char>>,
    pub preset: Preset,
}

impl View for StyleParams {
    type V = StyleModel;

    open spec fn view(&self) -> StyleModel {
        StyleModel {
            title_size: self.title_size,
            accent_color: self.accent_color@,
            font_family: texts(self.font_family@),
            preset: self.preset,
        }
    }
}

/// The size word of a heading of the given level.
pub open spec fn heading_size(preset: Preset, level: u8) -> Seq<char> {
    match preset {
        Preset::Tasks => if level == 1 {
            "xx-large"@
        } else if level == 2 {
            "x-large"@
        } else {
            "large"@
        },
        Preset::Note => if level == 1 {
            "x-large"@
        } else {
            "large"@
        },
    }
}

/// The tag that opens a heading of the given level.
pub open spec fn heading_open(style: StyleModel, level: u8) -> Seq<char> {
    match style.preset {
        Preset::Tasks => "<span font_weight='bold' size='"@ + heading_size(style.preset, level)
            + "' color='"@ + style.accent_color + "'>"@,
        Preset::Note => "<span font_weight='bold' size='"@ + heading_size(style.preset, level)
            + "'>"@,
    }
}

/// The tag that closes a heading, with the line feeds after it.
pub open spec fn heading_close(preset: Preset) -> Seq<char> {
    match preset {
        Preset::Tasks => "</span>\n\n"@,
        Preset::Note => "</span>\n"@,
    }
}

/// A checkbox: bold brackets around a green `x` when checked, around a space when not,
/// and a space after them.
pub open spec fn task_marker(checked: bool) -> Seq<char> {
    if checked {
        "<b>[<span color='#a6e3a1'>x</span>]</b> "@
    } else {
        "<b>[ ]</b> "@
    }
}

/// An inline code span: the escaped code between two spaces, in the configured fonts,
/// light on dark and slightly lowered.
pub open spec fn code_span(style: StyleModel, code: Seq<char>) -> Seq<char> {
    "<span font_family='"@ + joined(style.font_family, ", "@)
        + "' background='#313244' foreground='#f5e0dc' rise='-1000'> "@ + escaped(code)
        + " </span>"@
}

/// What one event adds to the markup.
pub open spec fn event_markup(style: StyleModel, event: EventModel) -> Seq<char> {
    match event {
        EventModel::HeadingStart(level) => heading_open(style, level),
        EventModel::HeadingEnd => heading_close(style.preset),
        EventModel::StrongStart => "<b>"@,
        EventModel::StrongEnd => "</b>"@,
        EventModel::EmphasisStart => match style.preset {
            Preset::Tasks => "<i>"@,
            Preset::Note => Seq::empty(),
        },
        EventModel::EmphasisEnd => match style.preset {
            Preset::Tasks => "</i>"@,
            Preset::Note => Seq::empty(),
        },
        EventModel::ItemStart => " \u{2022} "@,
        EventModel::ItemEnd => "\n"@,
        EventModel::TaskMarker(checked) => task_marker(checked),
        EventModel::Text(text) => escaped(text),
        EventModel::Code(code) => code_span(style, code),
        EventModel::LineBreak => "\n"@,
        EventModel::Other => Seq::empty(),
    }
}

/// What a sequence of events becomes: the markup of each, in order.
pub open spec fn events_markup(style: StyleModel, events: Seq<EventModel>) -> Seq<char>
    decreases events.len(),
{
    if events.len() == 0 {
        Seq::empty()
    } else {
        events_markup(style, events.drop_last()) + event_markup(style, events.last())
    }
}

/// The title: escaped, bold, in the accent colour and the title size, and a blank line
/// after it.
pub open spec fn title_span(style: StyleModel, title: Seq<char>) -> Seq<char> {
    "<span font_weight='bold' size='"@ + decimal(style.title_size as nat) + "pt' color='"@
        + style.accent_color + "'>"@ + escaped(title) + "</span>\n\n"@
}

/// The events of a body: none for an empty body, and what the parser yields for any
/// other.
pub open spec fn body_events(body: Seq<char>) -> Seq<EventModel> {
    if body.len() == 0 {
        Seq::empty()
    } else {
        markdown_events(body)
    }
}

/// A titled body as markup: the title span, then the markup of the body's events.
pub open spec fn markup_of(style: StyleModel, title: Seq<char>, body: Seq<char>) -> Seq<char> {
    title_span(style, title) + events_markup(style, body_events(body))
}

/// A document as markup: its first line as the title, the rest as the body.
pub open spec fn rendered(doc: Seq<char>, style: StyleModel) -> Seq<char> {
    markup_of(style, title_of(doc), body_of(doc))
}

fn heading_size_word(preset: Preset, level: u8) -> (word: &'static str)
    ensures
        word@ == heading_size(preset, level),
{
    match preset {
        Preset::Tasks => if level == 1 {
            "xx-large"
        } else if level == 2 {
            "x-large"
        } else {
            "large"
        },
        Preset::Note => if level == 1 {
            "x-large"
        } else {
            "large"
        },
    }
}

/// Appends to `out` what `event` adds to the markup.
pub fn push_event(out: &mut String, style: &StyleParams, event: &MdEvent)
    ensures
        final(out)@ == old(out)@ + event_markup(style@, event@),
{
    match event {
        MdEvent::HeadingStart(level) => {
            out.append("<span font_weight='bold' size='");
            out.append(heading_size_word(style.preset, *level));
            match style.preset {
                Preset::Tasks => {
                    out.append("' color='");
                    out.append(style.accent_color.as_str());
                    out.append("'>");
                },
                Preset::Note => {
                    out.append("'>");
                },
            }
            assert(out@ == old(out)@ + heading_open(style@, *level));
        },
        MdEvent::HeadingEnd => {
            match style.preset {
                Preset::Tasks => out.append("</span>\n\n"),
                Preset::Note => out.append("</span>\n"),
            }
        },
        MdEvent::StrongStart => out.append("<b>"),
        MdEvent::StrongEnd => out.append("</b>"),
        MdEvent::EmphasisStart => {
            match style.preset {
                Preset::Tasks => out.append("<i>"),
                Preset::Note => {
                    assert(out@ == old(out)@ + Seq::<char>::empty());
                },
            }
        },
        MdEvent::EmphasisEnd => {
            match style.preset {
                Preset::Tasks => out.append("</i>"),
                Preset::Note => {
                    assert(out@ == old(out)@ + Seq::<char>::empty());
                },
            }
        },
        MdEvent::ItemStart => out.append(" \u{2022} "),
        MdEvent::ItemEnd => out.append("\n"),
        MdEvent::TaskMarker(checked) => {
            if *checked {
                out.append("<b>[<span color='#a6e3a1'>x</span>]</b> ");
            } else {
                out.append("<b>[ ]</b> ");
            }
        },
        MdEvent::Text(text) => push_escaped_text(out, text.as_str()),
        MdEvent::Code(code) => {
            let fonts = join(&style.font_family, ", ");
            out.append("<span font_family='");
            out.append(fonts.as_str());
            out.append("' background='#313244' foreground='#f5e0dc' rise='-1000'> ");
            push_escaped_text(out, code.as_str());
            out.append(" </span>");
            assert(out@ == old(out)@ + code_span(style@, code@));
        },
        MdEvent::LineBreak => out.append("\n"),
        MdEvent::Other => {
            assert(out@ == old(out)@ + Seq::<char>::empty());
        },
    }
}

/// Appends to `out` the markup of `events`, in order.
pub fn push_events(out: &mut String, style: &StyleParams, events: &Vec<MdEvent>)
    ensures
        final(out)@ == old(out)@ + events_markup(style@, event_models(events@)),
{
    let mut i: usize = 0;
    while i < events.len()
        invariant
            i <= events.len(),
            out@ == old(out)@ + events_markup(style@, event_models(events@).take(i as int)),
        decreases events.len() - i,
    {
        proof {
            let now = event_models(events@).take(i + 1);
            assert(now.drop_last() == event_models(events@).take(i as int));
            assert(now.last() == events[i as int]@);
        }
        push_event(out, style, &events[i]);
        i += 1;
    }
    assert(event_models(events@).take(events.len() as int) == event_models(events@));
}

/// The markup of `events`, in order.
pub fn render_events(events: &Vec<MdEvent>, style: &StyleParams) -> (out: String)
    ensures
        out@ == events_markup(style@, event_models(events@)),
{
    let mut out = String::new();
    push_events(&mut out, style, events);
    out
}

/// Appends the title span for `title` to `out`.
pub fn push_title(out: &mut String, style: &StyleParams, title: &str)
    ensures
        final(out)@ == old(out)@ + title_span(style@, title@),
{
    out.append("<span font_weight='bold' size='");
    push_decimal(out, style.title_size);
    out.append("pt' color='");
    out.append(style.accent_color.as_str());
    out.append("'>");
    push_escaped_text(out, title);
    out.append("</span>\n\n");
    assert(out@ == old(out)@ + title_span(style@, title@));
}

/// The events of `body`; an empty body is not handed to the parser.
pub fn parse_body(body: &str) -> (events: Vec<MdEvent>)
    ensures
        event_models(events@) == body_events(body@),
{
    if body.is_empty() {
        let events: Vec<MdEvent> = Vec::new();
        assert(event_models(events@) == Seq::<EventModel>::empty());
        events
    } else {
        parse_events(body)
    }
}

/// Renders a title and a Markdown body: the title span, then the body's events as markup.
pub fn render_titled(title: &str, body: &str, style: &StyleParams) -> (out: String)
    ensures
        out@ == markup_of(style@, title@, body@),
{
    let events = parse_body(body);
    let mut out = String::new();
    push_title(&mut out, style, title);
    push_events(&mut out, style, &events);
    out
}

/// Renders a document: its first line is the title, the rest is the Markdown body. The
/// result depends on the two arguments alone.
pub fn render(document: &str, style: &StyleParams) -> (out: String)
    ensures
        out@ == rendered(document@, style@),
{
    let (title, body) = split_title(document);
    render_titled(title.as_str(), body.as_str(), style)
}

/// Renders the note `content` as markup with the style that `config` gives, in the `Note`
/// preset.
pub fn to_pango(content: &str, config: &Config) -> (out: String)
    ensures
        out@ == rendered(content@, style_of(config@, Preset::Note)),
{
    let style = config.style(Preset::Note);
    render(content, &style)
}

/// A document without a body renders as its title span and nothing else.
pub proof fn empty_body_renders_title_alone(doc: Seq<char>, style: StyleModel)
    requires
        body_of(doc).len() == 0,
    ensures
        rendered(doc, style) == title_span(style, title_of(doc)),
{
}

/// A task item renders as the bullet, the checkbox, the escaped text of the task and a
/// line feed.
pub proof fn task_item_markup(style: StyleModel, checked: bool, text: Seq<char>)
    ensures
        events_markup(
            style,
            seq![
                EventModel::ItemStart,
                EventModel::TaskMarker(checked),
                EventModel::Text(text),
                EventModel::ItemEnd,
            ],
        ) == " \u{2022} "@ + task_marker(checked) + escaped(text) + "\n"@,
{
    let e4 = seq![
        EventModel::ItemStart,
        EventModel::TaskMarker(checked),
        EventModel::Text(text),
        EventModel::ItemEnd,
    ];
    let e3 = seq![EventModel::ItemStart, EventModel::TaskMarker(checked), EventModel::Text(text)];
    let e2 = seq![EventModel::ItemStart, EventModel::TaskMarker(checked)];
    let e1 = seq![EventModel::ItemStart];
    assert(e4.drop_last() == e3);
    assert(e3.drop_last() == e2);
    assert(e2.drop_last() == e1);
    assert(e1.drop_last() == Seq::<EventModel>::empty());
    assert(events_markup(style, Seq::<EventModel>::empty()) == Seq::<char>::empty());
    assert(events_markup(style, e1) == " \u{2022} "@);
    assert(events_markup(style, e2) == " \u{2022} "@ + task_marker(checked));
    assert(events_markup(style, e3) == " \u{2022} "@ + task_marker(checked) + escaped(text));
}

/// Text never turns into markup: what a text event adds is the escaped text, which holds
/// none of `<`, `>`, `'` and `"`, and `&` only where a reference starts.
pub proof fn text_stays_text(style: StyleModel, text: Seq<char>)
    ensures
        event_markup(style, EventModel::Text(text)) == escaped(text),
        forall|i: int|
            0 <= i < escaped(text).len() ==> !is_bare_markup(#[trigger] escaped(text)[i]),
        forall|i: int|
            0 <= i < escaped(text).len() && #[trigger] escaped(text)[i] == '&' ==> reference_at(
                escaped(text),
                i,
            ),
{
    escaped_text_is_inert(text);
}

/// Two renderings of the same document in the same style are the same text.
pub proof fn render_is_a_function(doc_a: Seq<char>, style_a: StyleModel, doc_b: Seq<char>, style_b: StyleModel)
    requires
        doc_a == doc_b,
        style_a == style_b,
    ensures
        rendered(doc_a, style_a) == rendered(doc_b, style_b),
{
}

} // verus!
