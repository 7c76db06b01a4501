use constellations::matrix::markdown_to_html;
use constellations::preview::{parse_markdown, preview_events, MarkdownEvent, PreviewEvent};

#[test]
fn test_parse_markdown_paragraph() {
    let text = "This is a simple paragraph.";
    let events = parse_markdown(text, false);
    assert_eq!(
        events,
        vec![
            PreviewEvent::Text("This is a simple paragraph.".to_string()),
            PreviewEvent::EndBlock
        ]
    );
}

#[test]
fn test_parse_markdown_heading() {
    let text = "# Heading 1\nSome text.";
    let events = parse_markdown(text, false);
    assert_eq!(
        events,
        vec![
            PreviewEvent::StartHeading,
            PreviewEvent::Text("Heading 1".to_string()),
            PreviewEvent::EndBlock,
            PreviewEvent::Text("Some text.".to_string()),
            PreviewEvent::EndBlock,
        ]
    );
}

#[test]
fn test_parse_markdown_code() {
    let text = "Here is `some code` inline.";
    let events = parse_markdown(text, false);
    assert_eq!(
        events,
        vec![
            PreviewEvent::Text("Here is ".to_string()),
            PreviewEvent::Code("some code".to_string()),
            PreviewEvent::Text(" inline.".to_string()),
            PreviewEvent::EndBlock,
        ]
    );
}

#[test]
fn test_parse_markdown_breaks() {
    let text = "Line 1\nLine 2  \nLine 3";
    let events = parse_markdown(text, false);
    assert_eq!(
        events,
        vec![
            PreviewEvent::Text("Line 1".to_string()),
            PreviewEvent::Break,
            PreviewEvent::Text("Line 2".to_string()),
            PreviewEvent::Break,
            PreviewEvent::Text("Line 3".to_string()),
            PreviewEvent::EndBlock,
        ]
    );
}

#[test]
fn test_parse_markdown_ignored_formatting() {
    let text = "Some **bold** and *italic* text.";
    let events = parse_markdown(text, false);
    assert_eq!(
        events,
        vec![
            PreviewEvent::Text("Some ".to_string()),
            PreviewEvent::Text("bold".to_string()),
            PreviewEvent::Text(" and ".to_string()),
            PreviewEvent::Text("italic".to_string()),
            PreviewEvent::Text(" text.".to_string()),
            PreviewEvent::EndBlock,
        ]
    );
}

#[test]
fn test_parse_markdown_skip_fallback() {
    let text = "> <@alice:example.com> Hello\n\nHi!";
    let events = parse_markdown(text, true);
    assert_eq!(
        events,
        vec![PreviewEvent::Text("Hi!".to_string()), PreviewEvent::EndBlock]
    );
}

#[test]
fn test_parse_markdown_no_skip_normal_blockquote() {
    let text = "> This is a quote\n\nAnd this is text.";
    let events = parse_markdown(text, false);
    assert_eq!(
        events,
        vec![
            PreviewEvent::Text("This is a quote".to_string()),
            PreviewEvent::EndBlock,
            PreviewEvent::Text("And this is text.".to_string()),
            PreviewEvent::EndBlock,
        ]
    );
}

#[test]
fn parse_markdown_link_keeps_destination() {
    let events = parse_markdown("see [here](https://example.org)", false);
    assert_eq!(
        events,
        vec![
            PreviewEvent::Text("see ".to_string()),
            PreviewEvent::StartLink("https://example.org".to_string()),
            PreviewEvent::Text("here".to_string()),
            PreviewEvent::EndLink,
            PreviewEvent::EndBlock,
        ]
    );
}

#[test]
fn skipping_without_a_quote_changes_nothing() {
    let text = "plain *text*\n\nsecond";
    assert_eq!(parse_markdown(text, true), parse_markdown(text, false));
}

#[test]
fn only_the_first_quote_is_skipped() {
    let events = vec![
        MarkdownEvent::StartBlockQuote,
        MarkdownEvent::Text("fallback".to_string()),
        MarkdownEvent::EndParagraph,
        MarkdownEvent::EndBlockQuote,
        MarkdownEvent::StartBlockQuote,
        MarkdownEvent::Text("kept".to_string()),
        MarkdownEvent::SoftBreak,
        MarkdownEvent::EndBlockQuote,
        MarkdownEvent::Other,
        MarkdownEvent::HardBreak,
    ];
    assert_eq!(
        preview_events(&events, true),
        vec![PreviewEvent::Text("kept".to_string()), PreviewEvent::Break, PreviewEvent::Break]
    );
    assert_eq!(
        preview_events(&events, false),
        vec![
            PreviewEvent::Text("fallback".to_string()),
            PreviewEvent::EndBlock,
            PreviewEvent::Text("kept".to_string()),
            PreviewEvent::Break,
            PreviewEvent::Break,
        ]
    );
}

#[test]
fn nested_quote_is_skipped_whole() {
    let events = vec![
        MarkdownEvent::StartBlockQuote,
        MarkdownEvent::StartBlockQuote,
        MarkdownEvent::Text("inner".to_string()),
        MarkdownEvent::EndBlockQuote,
        MarkdownEvent::Text("outer".to_string()),
        MarkdownEvent::EndBlockQuote,
        MarkdownEvent::Code("x".to_string()),
    ];
    assert_eq!(preview_events(&events, true), vec![PreviewEvent::Code("x".to_string())]);
}

#[test]
fn markdown_to_html_renders_emphasis() {
    assert_eq!(markdown_to_html("Hello **world**"), "<p>Hello <strong>world</strong></p>\n");
    assert_eq!(markdown_to_html("~~gone~~"), "<p><del>gone</del></p>\n");
}
