//! Message previews: the flat event list that the timeline renders for a
//! Markdown message body, and the HTML sent along with a message.
//!
//! Parsing the Markdown itself is the job of `pulldown_cmark`; this module
//! turns its event stream into [`PreviewEvent`]s, keeping only what the
//! preview shows and, when asked, dropping the first block quote (the reply
//! fallback that Matrix clients put in front of a reply's body).
use pulldown_cmark::Event::{Code, End, HardBreak, SoftBreak, Start, Text};
use pulldown_cmark::{Options, Parser, Tag, TagEnd};
use vstd::prelude::*;

verus! {

/// One element of a rendered message preview.
#[derive(Clone, Debug, PartialEq)]
pub enum PreviewEvent {
    StartHeading,
    EndBlock,
    Text(String),
    Code(String),
    Break,
    StartLink(String),
    EndLink,
}

/// The abstract value of a [`PreviewEvent`].
pub enum PreviewEventView {
    StartHeading,
    EndBlock,
    Text(Seq<char>),
    Code(Seq<char>),
    Break,
    StartLink(Seq<char>),
    EndLink,
}

impl View for PreviewEvent {
    type V = PreviewEventView;

    open spec fn view(&self) -> PreviewEventView {
        match self {
            PreviewEvent::StartHeading => PreviewEventView::StartHeading,
            PreviewEvent::EndBlock => PreviewEventView::EndBlock,
            PreviewEvent::Text(t) => PreviewEventView::Text(t@),
            PreviewEvent::Code(c) => PreviewEventView::Code(c@),
            PreviewEvent::Break => PreviewEventView::Break,
            PreviewEvent::StartLink(u) => PreviewEventView::StartLink(u@),
            PreviewEvent::EndLink => PreviewEventView::EndLink,
        }
    }
}

/// The events of the CommonMark parser that the preview looks at; every other
/// event of the parser is [`MarkdownEvent::Other`].
pub enum MarkdownEvent {
    StartBlockQuote,
    EndBlockQuote,
    StartHeading,
    EndHeading,
    EndParagraph,
    StartLink(String),
    EndLink,
    Text(String),
    Code(String),
    SoftBreak,
    HardBreak,
    Other,
}

/// The abstract value of a [`MarkdownEvent`].
pub enum MarkdownEventView {
    StartBlockQuote,
    EndBlockQuote,
    StartHeading,
    EndHeading,
    EndParagraph,
    StartLink(Seq<char>),
    EndLink,
    Text(Seq<char>),
    Code(Seq<char>),
    SoftBreak,
    HardBreak,
    Other,
}

impl View for MarkdownEvent {
    type V = MarkdownEventView;

    open spec fn view(&self) -> MarkdownEventView {
        match self {
            MarkdownEvent::StartBlockQuote => MarkdownEventView::StartBlockQuote,
            MarkdownEvent::EndBlockQuote => MarkdownEventView::EndBlockQuote,
            MarkdownEvent::StartHeading => MarkdownEventView::StartHeading,
            MarkdownEvent::EndHeading => MarkdownEventView::EndHeading,
            MarkdownEvent::EndParagraph => MarkdownEventView::EndParagraph,
            MarkdownEvent::StartLink(u) => MarkdownEventView::StartLink(u@),
            MarkdownEvent::EndLink => MarkdownEventView::EndLink,
            MarkdownEvent::Text(t) => MarkdownEventView::Text(t@),
            MarkdownEvent::Code(c) => MarkdownEventView::Code(c@),
            MarkdownEvent::SoftBreak => MarkdownEventView::SoftBreak,
            MarkdownEvent::HardBreak => MarkdownEventView::HardBreak,
            MarkdownEvent::Other => MarkdownEventView::Other,
        }
    }
}

/// The abstract values of a list of parser events.
pub open spec fn markdown_views(events: Seq<MarkdownEvent>) -> Seq<MarkdownEventView> {
    events.map_values(|e: MarkdownEvent| e@)
}

/// The abstract values of a list of preview events.
pub open spec fn preview_views(events: Seq<PreviewEvent>) -> Seq<PreviewEventView> {
    events.map_values(|e: PreviewEvent| e@)
}

/// What `pulldown_cmark` parses `text` into, with strikethrough and task lists
/// enabled, each event reduced to a [`MarkdownEventView`].
pub uninterp spec fn cmark_events(text: Seq<char>) -> Seq<MarkdownEventView>;

/// Runs `pulldown_cmark::Parser::new_ext` over `text` (strikethrough and task
/// lists enabled) and reduces each event it yields to a [`MarkdownEvent`].
/// Trusted: the result is the named parse [`cmark_events`] of `text`.
#[verifier::external_body]
fn cmark_parse(text: &str) -> (events: Vec<MarkdownEvent>)
    ensures
        markdown_views(events@) == cmark_events(text@),
{
    let options = Options::ENABLE_STRIKETHROUGH | Options::ENABLE_TASKLISTS;
    Parser::new_ext(text, options).map(|event| match event {
        Start(Tag::BlockQuote(_)) => MarkdownEvent::StartBlockQuote,
        End(TagEnd::BlockQuote(_)) => MarkdownEvent::EndBlockQuote,
        Start(Tag::Heading { .. }) => MarkdownEvent::StartHeading,
        End(TagEnd::Heading(_)) => MarkdownEvent::EndHeading,
        End(TagEnd::Paragraph) => MarkdownEvent::EndParagraph,
        Start(Tag::Link { dest_url, .. }) => MarkdownEvent::StartLink(dest_url.to_string()),
        End(TagEnd::Link) => MarkdownEvent::EndLink,
        Text(t) => MarkdownEvent::Text(t.to_string()),
        Code(c) => MarkdownEvent::Code(c.to_string()),
        SoftBreak => MarkdownEvent::SoftBreak,
        HardBreak => MarkdownEvent::HardBreak,
        _ => MarkdownEvent::Other,
    }).collect()
}

/// How deep inside block quotes the walk is, and whether no top-level block
/// quote has ended yet.
pub struct QuoteState {
    pub depth: nat,
    pub first: bool,
}

/// The quote state after one more parser event.
pub open spec fn next_quote_state(st: QuoteState, e: MarkdownEventView) -> QuoteState {
    match e {
        MarkdownEventView::StartBlockQuote => QuoteState { depth: st.depth + 1, first: st.first },
        MarkdownEventView::EndBlockQuote => if st.depth == 0 {
            st
        } else if st.depth == 1 {
            QuoteState { depth: 0, first: false }
        } else {
            QuoteState { depth: (st.depth - 1) as nat, first: st.first }
        },
        _ => st,
    }
}

/// The quote state after a list of parser events, starting outside any quote.
pub open spec fn quote_state_after(events: Seq<MarkdownEventView>) -> QuoteState
    decreases events.len(),
{
    if events.len() == 0 {
        QuoteState { depth: 0, first: true }
    } else {
        next_quote_state(quote_state_after(events.drop_last()), events.last())
    }
}

/// The preview element a parser event stands for, if it stands for one.
pub open spec fn preview_of_event(e: MarkdownEventView) -> Option<PreviewEventView> {
    match e {
        MarkdownEventView::StartHeading => Some(PreviewEventView::StartHeading),
        MarkdownEventView::StartLink(u) => Some(PreviewEventView::StartLink(u)),
        MarkdownEventView::EndLink => Some(PreviewEventView::EndLink),
        MarkdownEventView::EndParagraph => Some(PreviewEventView::EndBlock),
        MarkdownEventView::EndHeading => Some(PreviewEventView::EndBlock),
        MarkdownEventView::Text(t) => Some(PreviewEventView::Text(t)),
        MarkdownEventView::Code(c) => Some(PreviewEventView::Code(c)),
        MarkdownEventView::SoftBreak => Some(PreviewEventView::Break),
        MarkdownEventView::HardBreak => Some(PreviewEventView::Break),
        _ => None,
    }
}

/// Block-quote markers produce nothing.
pub open spec fn is_quote_marker(e: MarkdownEventView) -> bool {
    e is StartBlockQuote || e is EndBlockQuote
}

/// What one parser event adds to the preview, given the quote state before it:
/// nothing for quote markers and for anything inside the first top-level
/// block quote when that quote is skipped.
pub open spec fn emitted(
    st: QuoteState,
    e: MarkdownEventView,
    skip_first_blockquote: bool,
) -> Option<PreviewEventView> {
    if is_quote_marker(e) {
        None
    } else if st.depth > 0 && skip_first_blockquote && st.first {
        None
    } else {
        preview_of_event(e)
    }
}

/// The preview of a list of parser events.
pub open spec fn preview_of(
    events: Seq<MarkdownEventView>,
    skip_first_blockquote: bool,
) -> Seq<PreviewEventView>
    decreases events.len(),
{
    if events.len() == 0 {
        Seq::empty()
    } else {
        let before = preview_of(events.drop_last(), skip_first_blockquote);
        match emitted(
            quote_state_after(events.drop_last()),
            events.last(),
            skip_first_blockquote,
        ) {
            Some(p) => before.push(p),
            None => before,
        }
    }
}

/// The preview of a list of events when nothing is skipped: each event's own
/// preview element, in order.
pub open spec fn plain_preview(events: Seq<MarkdownEventView>) -> Seq<PreviewEventView>
    decreases events.len(),
{
    if events.len() == 0 {
        Seq::empty()
    } else {
        match preview_of_event(events.last()) {
            Some(p) => plain_preview(events.drop_last()).push(p),
            None => plain_preview(events.drop_last()),
        }
    }
}

/// Without skipping, block quotes are transparent: the preview is every
/// event's own preview element, in order, whatever the quoting.
pub proof fn lemma_preview_without_skip(events: Seq<MarkdownEventView>)
    ensures
        preview_of(events, false) == plain_preview(events),
    decreases events.len(),
{
    if events.len() > 0 {
        lemma_preview_without_skip(events.drop_last());
    }
}

/// Text with no block quote at all previews the same whether or not the
/// first block quote is skipped.
pub proof fn lemma_skip_needs_a_quote(events: Seq<MarkdownEventView>)
    requires
        forall|i: int| 0 <= i < events.len() ==> !(#[trigger] events[i] is StartBlockQuote),
    ensures
        preview_of(events, true) == preview_of(events, false),
        quote_state_after(events).depth == 0,
    decreases events.len(),
{
    if events.len() > 0 {
        let init = events.drop_last();
        assert forall|i: int| 0 <= i < init.len() implies !(#[trigger] init[i] is StartBlockQuote) by {
            assert(init[i] == events[i]);
        }
        lemma_skip_needs_a_quote(init);
    }
}

/// The parser events that lie outside the first top-level block quote (the
/// quote's markers included), in order.
pub open spec fn outside_first_quote(events: Seq<MarkdownEventView>) -> Seq<MarkdownEventView>
    decreases events.len(),
{
    if events.len() == 0 {
        Seq::empty()
    } else {
        let init = outside_first_quote(events.drop_last());
        let st = quote_state_after(events.drop_last());
        if st.depth > 0 && st.first {
            init
        } else {
            init.push(events.last())
        }
    }
}

/// Whether `sub` is `s` with some of its elements left out, the rest in order.
pub open spec fn is_subsequence<A>(sub: Seq<A>, s: Seq<A>) -> bool
    decreases s.len(),
{
    if sub.len() == 0 {
        true
    } else if s.len() == 0 {
        false
    } else if sub.last() == s.last() {
        is_subsequence(sub.drop_last(), s.drop_last())
    } else {
        is_subsequence(sub, s.drop_last())
    }
}

proof fn lemma_plain_preview_push(events: Seq<MarkdownEventView>, e: MarkdownEventView)
    ensures
        plain_preview(events.push(e)) == match preview_of_event(e) {
            Some(p) => plain_preview(events).push(p),
            None => plain_preview(events),
        },
{
    assert(events.push(e).drop_last() =~= events);
}

proof fn lemma_subsequence_push_right<A>(sub: Seq<A>, s: Seq<A>, x: A)
    requires
        is_subsequence(sub, s),
    ensures
        is_subsequence(sub, s.push(x)),
    decreases s.len(), 1int,
{
    assert(s.push(x).drop_last() =~= s);
    if sub.len() > 0 && sub.last() == x {
        lemma_subsequence_drop_last(sub, s);
    }
}

proof fn lemma_subsequence_drop_last<A>(sub: Seq<A>, s: Seq<A>)
    requires
        sub.len() > 0,
        is_subsequence(sub, s),
    ensures
        is_subsequence(sub.drop_last(), s),
    decreases s.len(), 0int,
{
    if s.len() > 0 {
        if sub.last() == s.last() {
            lemma_subsequence_push_right(sub.drop_last(), s.drop_last(), s.last());
            assert(s.drop_last().push(s.last()) =~= s);
        } else {
            lemma_subsequence_drop_last(sub, s.drop_last());
            lemma_subsequence_push_right(sub.drop_last(), s.drop_last(), s.last());
            assert(s.drop_last().push(s.last()) =~= s);
        }
    }
}

proof fn lemma_plain_preview_subsequence(sub: Seq<MarkdownEventView>, s: Seq<MarkdownEventView>)
    requires
        is_subsequence(sub, s),
    ensures
        is_subsequence(plain_preview(sub), plain_preview(s)),
    decreases s.len(),
{
    if sub.len() == 0 {
        assert(plain_preview(sub) =~= Seq::<PreviewEventView>::empty());
    } else if s.len() > 0 {
        if sub.last() == s.last() {
            lemma_plain_preview_subsequence(sub.drop_last(), s.drop_last());
            match preview_of_event(s.last()) {
                Some(p) => {
                    let a = plain_preview(sub.drop_last());
                    let b = plain_preview(s.drop_last());
                    assert(a.push(p).drop_last() =~= a);
                    assert(b.push(p).drop_last() =~= b);
                },
                None => {},
            }
        } else {
            lemma_plain_preview_subsequence(sub, s.drop_last());
            match preview_of_event(s.last()) {
                Some(p) => {
                    lemma_subsequence_push_right(plain_preview(sub), plain_preview(s.drop_last()), p);
                },
                None => {},
            }
        }
    }
}

proof fn lemma_outside_first_quote_subsequence(events: Seq<MarkdownEventView>)
    ensures
        is_subsequence(outside_first_quote(events), events),
    decreases events.len(),
{
    if events.len() > 0 {
        let init = events.drop_last();
        lemma_outside_first_quote_subsequence(init);
        let st = quote_state_after(init);
        if st.depth > 0 && st.first {
            lemma_subsequence_push_right(outside_first_quote(init), init, events.last());
            assert(init.push(events.last()) =~= events);
        } else {
            let o = outside_first_quote(init);
            assert(o.push(events.last()).drop_last() =~= o);
        }
    }
}

/// Skipping the first block quote leaves out exactly the events inside the
/// first top-level block quote (nested quotes included): the preview with
/// skipping is the plain preview of the other events, and it is a
/// subsequence of the preview without skipping.
pub proof fn lemma_skip_drops_first_quote(events: Seq<MarkdownEventView>)
    ensures
        preview_of(events, true) == plain_preview(outside_first_quote(events)),
        preview_of(events, false) == plain_preview(events),
        is_subsequence(preview_of(events, true), preview_of(events, false)),
    decreases events.len(),
{
    lemma_preview_without_skip(events);
    lemma_skip_equals_outside(events);
    lemma_outside_first_quote_subsequence(events);
    lemma_plain_preview_subsequence(outside_first_quote(events), events);
}

proof fn lemma_skip_equals_outside(events: Seq<MarkdownEventView>)
    ensures
        preview_of(events, true) == plain_preview(outside_first_quote(events)),
    decreases events.len(),
{
    if events.len() > 0 {
        let init = events.drop_last();
        lemma_skip_equals_outside(init);
        let st = quote_state_after(init);
        if !(st.depth > 0 && st.first) {
            lemma_plain_preview_push(outside_first_quote(init), events.last());
        }
    }
}

/// The preview element for a parser event, if it has one.
fn preview_event_for(e: &MarkdownEvent) -> (p: Option<PreviewEvent>)
    ensures
        match p {
            Some(q) => preview_of_event(e@) == Some(q@),
            None => preview_of_event(e@) is None,
        },
{
    match e {
        MarkdownEvent::StartHeading => Some(PreviewEvent::StartHeading),
        MarkdownEvent::StartLink(u) => Some(PreviewEvent::StartLink(u.clone())),
        MarkdownEvent::EndLink => Some(PreviewEvent::EndLink),
        MarkdownEvent::EndParagraph => Some(PreviewEvent::EndBlock),
        MarkdownEvent::EndHeading => Some(PreviewEvent::EndBlock),
        MarkdownEvent::Text(t) => Some(PreviewEvent::Text(t.clone())),
        MarkdownEvent::Code(c) => Some(PreviewEvent::Code(c.clone())),
        MarkdownEvent::SoftBreak => Some(PreviewEvent::Break),
        MarkdownEvent::HardBreak => Some(PreviewEvent::Break),
        _ => None,
    }
}

/// The preview of a list of parser events; with `skip_first_blockquote` the
/// contents of the first top-level block quote are left out.
pub fn preview_events(events: &Vec<MarkdownEvent>, skip_first_blockquote: bool) -> (preview: Vec<
    PreviewEvent,
>)
    ensures
        preview_views(preview@) == preview_of(markdown_views(events@), skip_first_blockquote),
{
    let ghost evs = markdown_views(events@);
    let mut preview: Vec<PreviewEvent> = Vec::new();
    let mut depth: usize = 0;
    let mut first = true;
    let mut i: usize = 0;
    while i < events.len()
        invariant
            i <= events.len(),
            evs == markdown_views(events@),
            depth <= i,
            quote_state_after(evs.take(i as int)) == (QuoteState { depth: depth as nat, first }),
            preview_views(preview@) == preview_of(evs.take(i as int), skip_first_blockquote),
        decreases events.len() - i,
    {
        let ghost prefix = evs.take(i as int);
        let ghost next = evs.take(i as int + 1);
        assert(next.drop_last() =~= prefix);
        assert(next.last() == events@[i as int]@);
        let ghost before = preview@;
        match &events[i] {
            MarkdownEvent::StartBlockQuote => {
                depth = depth + 1;
            },
            MarkdownEvent::EndBlockQuote => {
                if depth > 0 {
                    depth = depth - 1;
                    if depth == 0 {
                        first = false;
                    }
                }
            },
            other => {
                if !(depth > 0 && skip_first_blockquote && first) {
                    if let Some(p) = preview_event_for(other) {
                        preview.push(p);
                        assert(preview_views(preview@) =~= preview_views(before).push(p@));
                    }
                }
            },
        }
        i = i + 1;
    }
    assert(evs.take(events.len() as int) =~= evs);
    preview
}

/// The preview of a Markdown message body: the body is parsed by
/// `pulldown_cmark` and its events reduced to what the preview shows; with
/// `skip_first_blockquote` the first top-level block quote (a reply
/// fallback) is left out.
pub fn parse_markdown(text: &str, skip_first_blockquote: bool) -> (preview: Vec<PreviewEvent>)
    ensures
        preview_views(preview@) == preview_of(cmark_events(text@), skip_first_blockquote),
{
    let events = cmark_parse(text);
    preview_events(&events, skip_first_blockquote)
}

} // verus!
