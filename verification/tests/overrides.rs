use glfm_markdown::emit::{
    Emission, LinkData, ListData, ListStyle, NodeData, ParentKind, Sourcepos, TaskData, TextData,
    render_image, render_link, render_list, render_node, render_task_item, render_text,
};
use glfm_markdown::placeholder::{contains_placeholder, find_placeholders};
use glfm_markdown::hrefs::url_is_dangerous;
use glfm_markdown::{RenderOptions, RenderUserData};

fn opts() -> RenderOptions {
    RenderOptions {
        alerts: false,
        autolink: false,
        description_lists: false,
        escape: false,
        escaped_char_spans: false,
        figure_with_caption: false,
        footnotes: false,
        full_info_string: false,
        gemojis: false,
        gfm_quirks: false,
        github_pre_lang: false,
        greentext: false,
        hardbreaks: false,
        header_ids: None,
        ignore_empty_links: false,
        ignore_setext: false,
        math_code: false,
        math_dollars: false,
        multiline_block_quotes: false,
        relaxed_autolinks: false,
        relaxed_tasklist_character: false,
        sourcepos: false,
        smart: false,
        spoiler: false,
        strikethrough: false,
        subscript: false,
        superscript: false,
        table: false,
        tagfilter: false,
        tasklist: false,
        tasklist_classes: false,
        underline: false,
        unsafe_: false,
        wikilinks_title_after_pipe: false,
        wikilinks_title_before_pipe: false,
        default_html: false,
        inapplicable_tasks: false,
        placeholder_detection: false,
        debug: false,
    }
}

fn no_pos() -> Sourcepos {
    Sourcepos { start_line: 0, start_col: 0, end_line: 0, end_col: 0 }
}

fn custom_bytes(e: Emission) -> Vec<u8> {
    match e {
        Emission::Custom { bytes, .. } => bytes,
        Emission::Delegate => panic!("expected a custom emission"),
    }
}

fn is_delegate(e: Emission) -> bool {
    matches!(e, Emission::Delegate)
}

// ----- the placeholder matcher -----

#[test]
fn matcher_finds_brace_form() {
    assert_eq!(find_placeholders(b"%{name}"), vec![(0, 7)]);
    assert_eq!(find_placeholders(b"value: %{foo}!"), vec![(7, 13)]);
}

#[test]
fn matcher_finds_encoded_form() {
    assert_eq!(find_placeholders(b"%7Bname%7D"), vec![(0, 10)]);
    assert_eq!(find_placeholders(b"x%7Ba_b%7Dy"), vec![(1, 10)]);
}

#[test]
fn matcher_rejects_empty_name() {
    assert_eq!(find_placeholders(b"%{}"), Vec::<(usize, usize)>::new());
    assert!(!contains_placeholder(b"%7B%7D"));
}

#[test]
fn matcher_accepts_thirty_word_characters() {
    let name = "a".repeat(30);
    let text = format!("%{{{}}}", name);
    assert_eq!(find_placeholders(text.as_bytes()), vec![(0, 33)]);
}

#[test]
fn matcher_rejects_thirty_one_word_characters() {
    let name = "a".repeat(31);
    let text = format!("%{{{}}}", name);
    assert!(!contains_placeholder(text.as_bytes()));
}

#[test]
fn matcher_rejects_non_word_names() {
    assert!(!contains_placeholder(b"%{a b}"));
    assert!(!contains_placeholder(b"%{a-b}"));
    assert!(contains_placeholder(b"%{a_b}"));
    assert!(contains_placeholder(b"%{A9}"));
}

#[test]
fn matcher_finds_several_matches_in_order() {
    assert_eq!(find_placeholders(b"x%{a}y%{b}z"), vec![(1, 5), (6, 10)]);
}

// ----- the text override -----

#[test]
fn text_without_placeholder_delegates() {
    let mut o = opts();
    o.placeholder_detection = true;
    let t = TextData { literal: b"plain text".to_vec() };
    assert!(is_delegate(render_text(&o, &t, ParentKind::Other, true)));
}

#[test]
fn text_with_detection_off_delegates() {
    let o = opts();
    let t = TextData { literal: b"value: %{foo}".to_vec() };
    assert!(is_delegate(render_text(&o, &t, ParentKind::Other, true)));
}

#[test]
fn text_wraps_placeholder_in_span() {
    let mut o = opts();
    o.placeholder_detection = true;
    let t = TextData { literal: b"value: %{foo}".to_vec() };
    let b = custom_bytes(render_text(&o, &t, ParentKind::Other, true));
    assert_eq!(b, b"value: <span data-placeholder>%{foo}</span>".to_vec());
}

#[test]
fn text_escapes_around_and_keeps_token_verbatim() {
    let mut o = opts();
    o.placeholder_detection = true;
    let t = TextData { literal: b"a<b %{x} c&d \"e\"".to_vec() };
    let b = custom_bytes(render_text(&o, &t, ParentKind::Other, true));
    assert_eq!(
        b,
        b"a&lt;b <span data-placeholder>%{x}</span> c&amp;d &quot;e&quot;".to_vec()
    );
}

#[test]
fn text_inside_link_or_image_delegates() {
    let mut o = opts();
    o.placeholder_detection = true;
    let t = TextData { literal: b"%{foo}".to_vec() };
    assert!(is_delegate(render_text(&o, &t, ParentKind::Link, true)));
    assert!(is_delegate(render_text(&o, &t, ParentKind::Image, true)));
}

#[test]
fn text_leaving_visit_emits_nothing() {
    let mut o = opts();
    o.placeholder_detection = true;
    let t = TextData { literal: b"%{foo}".to_vec() };
    let b = custom_bytes(render_text(&o, &t, ParentKind::Other, false));
    assert!(b.is_empty());
}

// ----- the link override -----

#[test]
fn link_with_placeholder_target_gets_annotated() {
    let mut o = opts();
    o.placeholder_detection = true;
    let l = LinkData { url: b"%{x}".to_vec(), title: Vec::new() };
    let b = custom_bytes(render_link(&o, &l, ParentKind::Other, &no_pos(), None, true));
    assert_eq!(b, b"<a href=\"%25%7Bx%7D\" data-placeholder>".to_vec());
    let c = custom_bytes(render_link(&o, &l, ParentKind::Other, &no_pos(), None, false));
    assert_eq!(c, b"</a>".to_vec());
}

#[test]
fn link_without_detection_delegates() {
    let o = opts();
    let l = LinkData { url: b"%{x}".to_vec(), title: Vec::new() };
    assert!(is_delegate(render_link(&o, &l, ParentKind::Other, &no_pos(), None, true)));
    assert!(is_delegate(render_link(&o, &l, ParentKind::Other, &no_pos(), None, false)));
}

#[test]
fn link_uses_rewritten_url_when_rewriter_is_configured() {
    let mut o = opts();
    o.placeholder_detection = true;
    let l = LinkData { url: b"%{x}".to_vec(), title: Vec::new() };
    let rewritten = b"https://cdn.example/%{x}".to_vec();
    let b = custom_bytes(render_link(&o, &l, ParentKind::Other, &no_pos(), Some(&rewritten), true));
    assert_eq!(
        b,
        b"<a href=\"https://cdn.example/%25%7Bx%7D\" data-placeholder>".to_vec()
    );
}

#[test]
fn link_title_is_escaped_and_closed() {
    let mut o = opts();
    o.placeholder_detection = true;
    let l = LinkData { url: b"%{x}".to_vec(), title: b"a\"b".to_vec() };
    let b = custom_bytes(render_link(&o, &l, ParentKind::Other, &no_pos(), None, true));
    assert_eq!(
        b,
        b"<a href=\"%25%7Bx%7D\" title=\"a&quot;b\" data-placeholder>".to_vec()
    );
}

#[test]
fn nested_autolink_is_suppressed() {
    let mut o = opts();
    o.placeholder_detection = true;
    o.relaxed_autolinks = true;
    let l = LinkData { url: b"%{x}".to_vec(), title: Vec::new() };
    let b = custom_bytes(render_link(&o, &l, ParentKind::Link, &no_pos(), None, true));
    assert!(b.is_empty());
    let c = custom_bytes(render_link(&o, &l, ParentKind::Link, &no_pos(), None, false));
    assert!(c.is_empty());
}

#[test]
fn link_sourcepos_attribute() {
    let mut o = opts();
    o.placeholder_detection = true;
    o.sourcepos = true;
    let l = LinkData { url: b"%{x}".to_vec(), title: Vec::new() };
    let sp = Sourcepos { start_line: 3, start_col: 1, end_line: 3, end_col: 18 };
    let b = custom_bytes(render_link(&o, &l, ParentKind::Other, &sp, None, true));
    assert_eq!(
        b,
        b"<a data-sourcepos=\"3:1-3:18\" href=\"%25%7Bx%7D\" data-placeholder>".to_vec()
    );
}

// ----- unsafe URLs -----

#[test]
fn dangerous_url_predicate_matches_formatter() {
    assert!(url_is_dangerous(b"javascript:alert(1)"));
    assert!(url_is_dangerous(b"JavaScript:alert(1)"));
    assert!(url_is_dangerous(b"vbscript:x"));
    assert!(url_is_dangerous(b"file:///etc/hosts"));
    assert!(url_is_dangerous(b"data:text/html;base64,AA"));
    assert!(!url_is_dangerous(b"data:image/png;base64,AA"));
    assert!(!url_is_dangerous(b"https://example.com/"));
    // the wrapper answers exactly as the formatter's own predicate
    assert_eq!(
        url_is_dangerous(b"DATA:IMAGE/WEBP;x"),
        comrak::html::dangerous_url("DATA:IMAGE/WEBP;x")
    );
}

#[test]
fn dangerous_url_gets_empty_href_when_unsafe_is_off() {
    let mut o = opts();
    o.placeholder_detection = true;
    let l = LinkData { url: b"javascript:%{x}".to_vec(), title: Vec::new() };
    let b = custom_bytes(render_link(&o, &l, ParentKind::Other, &no_pos(), None, true));
    assert_eq!(b, b"<a href=\"\" data-placeholder>".to_vec());
}

#[test]
fn dangerous_url_keeps_value_when_unsafe_is_on() {
    let mut o = opts();
    o.placeholder_detection = true;
    o.unsafe_ = true;
    let l = LinkData { url: b"javascript:%{x}".to_vec(), title: Vec::new() };
    let b = custom_bytes(render_link(&o, &l, ParentKind::Other, &no_pos(), None, true));
    assert_eq!(b, b"<a href=\"javascript:%25%7Bx%7D\" data-placeholder>".to_vec());
}

#[test]
fn dangerous_url_gets_empty_src_when_unsafe_is_off() {
    let mut o = opts();
    o.placeholder_detection = true;
    let l = LinkData { url: b"data:text/html,%{x}".to_vec(), title: Vec::new() };
    let b = custom_bytes(render_image(&o, &l, &no_pos(), None, true));
    assert_eq!(b, b"<img src=\"\" data-placeholder alt=\"".to_vec());
}

// ----- the image override -----

#[test]
fn image_with_placeholder_source_gets_annotated() {
    let mut o = opts();
    o.placeholder_detection = true;
    let l = LinkData { url: b"%{img}".to_vec(), title: Vec::new() };
    let e = render_image(&o, &l, &no_pos(), None, true);
    match e {
        Emission::Custom { cr, ref bytes, plain_children } => {
            assert!(!cr);
            assert!(plain_children);
            assert_eq!(bytes, &b"<img src=\"%25%7Bimg%7D\" data-placeholder alt=\"".to_vec());
        },
        Emission::Delegate => panic!("expected a custom emission"),
    }
    let c = custom_bytes(render_image(&o, &l, &no_pos(), None, false));
    assert_eq!(c, b"\" />".to_vec());
}

#[test]
fn image_title_closes_alt_attribute() {
    let mut o = opts();
    o.placeholder_detection = true;
    let l = LinkData { url: b"%{img}".to_vec(), title: b"cap".to_vec() };
    let c = custom_bytes(render_image(&o, &l, &no_pos(), None, false));
    assert_eq!(c, b"\" title=\"cap\" />".to_vec());
}

#[test]
fn image_in_figure_mode_wraps_and_captions() {
    let mut o = opts();
    o.placeholder_detection = true;
    o.figure_with_caption = true;
    let l = LinkData { url: b"%{img}".to_vec(), title: b"cap".to_vec() };
    let b = custom_bytes(render_image(&o, &l, &no_pos(), None, true));
    assert_eq!(b, b"<figure><img src=\"%25%7Bimg%7D\" data-placeholder alt=\"".to_vec());
    let c = custom_bytes(render_image(&o, &l, &no_pos(), None, false));
    assert_eq!(c, b"\" title=\"cap\" /><figcaption>cap</figcaption></figure>".to_vec());
}

#[test]
fn image_without_placeholder_delegates() {
    let mut o = opts();
    o.placeholder_detection = true;
    let l = LinkData { url: b"https://example.com/a.png".to_vec(), title: Vec::new() };
    assert!(is_delegate(render_image(&o, &l, &no_pos(), None, true)));
}

// ----- the list override -----

#[test]
fn ordered_task_list_with_start_index() {
    let mut o = opts();
    o.tasklist_classes = true;
    let l = ListData { style: ListStyle::Ordered, is_task_list: true, start: 5 };
    let e = render_list(&o, &l, &no_pos(), true);
    match e {
        Emission::Custom { cr, ref bytes, .. } => {
            assert!(cr);
            assert_eq!(bytes, &b"<ol class=\"task-list\" start=\"5\">\n".to_vec());
        },
        Emission::Delegate => panic!("expected a custom emission"),
    }
}

#[test]
fn ordered_list_starting_at_one_has_no_start_attribute() {
    let mut o = opts();
    o.tasklist_classes = true;
    let l = ListData { style: ListStyle::Ordered, is_task_list: true, start: 1 };
    let b = custom_bytes(render_list(&o, &l, &no_pos(), true));
    assert_eq!(b, b"<ol class=\"task-list\">\n".to_vec());
}

#[test]
fn bullet_task_list_gets_renamed_class() {
    let mut o = opts();
    o.tasklist_classes = true;
    let l = ListData { style: ListStyle::Bullet, is_task_list: true, start: 0 };
    let b = custom_bytes(render_list(&o, &l, &no_pos(), true));
    assert_eq!(b, b"<ul class=\"task-list\">\n".to_vec());
}

#[test]
fn plain_bullet_list_gets_no_class() {
    let mut o = opts();
    o.tasklist_classes = true;
    let l = ListData { style: ListStyle::Bullet, is_task_list: false, start: 0 };
    let b = custom_bytes(render_list(&o, &l, &no_pos(), true));
    assert_eq!(b, b"<ul>\n".to_vec());
}

#[test]
fn list_delegates_without_tasklist_classes_and_on_leaving() {
    let o = opts();
    let l = ListData { style: ListStyle::Bullet, is_task_list: true, start: 0 };
    assert!(is_delegate(render_list(&o, &l, &no_pos(), true)));
    let mut o2 = opts();
    o2.tasklist_classes = true;
    assert!(is_delegate(render_list(&o2, &l, &no_pos(), false)));
}

// ----- the task-item override -----

#[test]
fn inapplicable_task_renders_disabled_checkbox() {
    let mut o = opts();
    o.inapplicable_tasks = true;
    let t = TaskData { symbol: Some('~') };
    let e = render_task_item(&o, &t, &no_pos(), true);
    match e {
        Emission::Custom { cr, ref bytes, .. } => {
            assert!(cr);
            assert_eq!(
                bytes,
                &b"<li class=\"inapplicable\"><input type=\"checkbox\" data-inapplicable disabled=\"\"> "
                    .to_vec()
            );
        },
        Emission::Delegate => panic!("expected a custom emission"),
    }
    let c = custom_bytes(render_task_item(&o, &t, &no_pos(), false));
    assert_eq!(c, b"</li>\n".to_vec());
}

#[test]
fn inapplicable_task_with_tasklist_classes() {
    let mut o = opts();
    o.inapplicable_tasks = true;
    o.tasklist_classes = true;
    let t = TaskData { symbol: Some('~') };
    let b = custom_bytes(render_task_item(&o, &t, &no_pos(), true));
    assert_eq!(
        b,
        b"<li class=\"inapplicable task-list-item\"><input type=\"checkbox\" class=\"task-list-item-checkbox\" data-inapplicable disabled=\"\"> "
            .to_vec()
    );
}

#[test]
fn inapplicable_task_delegates_when_detection_is_off() {
    let o = opts();
    let t = TaskData { symbol: Some('~') };
    assert!(is_delegate(render_task_item(&o, &t, &no_pos(), true)));
    assert!(is_delegate(render_task_item(&o, &t, &no_pos(), false)));
}

#[test]
fn checked_and_absent_symbols_delegate() {
    let mut o = opts();
    o.inapplicable_tasks = true;
    assert!(is_delegate(render_task_item(&o, &TaskData { symbol: Some('x') }, &no_pos(), true)));
    assert!(is_delegate(render_task_item(&o, &TaskData { symbol: Some('X') }, &no_pos(), true)));
    assert!(is_delegate(render_task_item(&o, &TaskData { symbol: None }, &no_pos(), true)));
}

#[test]
fn custom_symbol_renders_bracketed_text() {
    let mut o = opts();
    o.inapplicable_tasks = true;
    let t = TaskData { symbol: Some('?') };
    let b = custom_bytes(render_task_item(&o, &t, &no_pos(), true));
    assert_eq!(b, b"<li>[?] ".to_vec());
}

#[test]
fn custom_symbol_is_escaped() {
    let mut o = opts();
    o.inapplicable_tasks = true;
    o.tasklist_classes = true;
    let t = TaskData { symbol: Some('<') };
    let b = custom_bytes(render_task_item(&o, &t, &no_pos(), true));
    assert_eq!(b, b"<li class=\"task-list-item\">[&lt;] ".to_vec());
}

// ----- dispatch -----

#[test]
fn default_html_bypasses_every_override() {
    let mut o = opts();
    o.placeholder_detection = true;
    o.inapplicable_tasks = true;
    o.tasklist_classes = true;
    o.default_html = true;
    let text = NodeData::Text(TextData { literal: b"%{foo}".to_vec() });
    let task = NodeData::TaskItem(TaskData { symbol: Some('~') });
    assert!(is_delegate(render_node(&o, &text, ParentKind::Other, &no_pos(), None, true)));
    assert!(is_delegate(render_node(&o, &task, ParentKind::Other, &no_pos(), None, true)));
}

#[test]
fn dispatch_routes_each_kind_to_its_override() {
    let mut o = opts();
    o.placeholder_detection = true;
    let text = NodeData::Text(TextData { literal: b"%{foo}".to_vec() });
    let b = custom_bytes(render_node(&o, &text, ParentKind::Other, &no_pos(), None, true));
    assert_eq!(b, b"<span data-placeholder>%{foo}</span>".to_vec());
    let link = NodeData::Link(LinkData { url: b"%{x}".to_vec(), title: Vec::new() });
    let c = custom_bytes(render_node(&o, &link, ParentKind::Other, &no_pos(), None, true));
    assert_eq!(c, b"<a href=\"%25%7Bx%7D\" data-placeholder>".to_vec());
}

#[test]
fn rendering_twice_is_byte_identical() {
    let mut o = opts();
    o.placeholder_detection = true;
    let text = NodeData::Text(TextData { literal: b"value: %{foo}".to_vec() });
    let b1 = custom_bytes(render_node(&o, &text, ParentKind::Other, &no_pos(), None, true));
    let b2 = custom_bytes(render_node(&o, &text, ParentKind::Other, &no_pos(), None, true));
    assert_eq!(b1, b2);
}

// ----- the user-data record -----

#[test]
fn user_data_copies_the_override_toggles() {
    let mut o = opts();
    o.placeholder_detection = true;
    o.debug = true;
    let u = RenderUserData::from_options(&o);
    assert!(u.placeholder_detection);
    assert!(u.debug);
    assert!(!u.default_html);
    assert!(!u.inapplicable_tasks);
}

// ----- the attribute escaper, held against the formatter's own -----

#[test]
fn href_escaping_matches_the_formatter() {
    for url in ["%{x}", "https://cdn.example/%{x}", "a b'c&d", "%7Bq%7D", "caf\u{e9}/x"] {
        let mut expected = String::new();
        comrak::html::escape_href(&mut expected, url, false).unwrap();
        let mut o = opts();
        o.placeholder_detection = true;
        let l = LinkData { url: format!("%{{p}}{}", url).into_bytes(), title: Vec::new() };
        let b = custom_bytes(render_link(&o, &l, ParentKind::Other, &no_pos(), None, true));
        let mut full = String::new();
        comrak::html::escape_href(&mut full, &format!("%{{p}}{}", url), false).unwrap();
        let rendered = String::from_utf8(b).unwrap();
        assert_eq!(rendered, format!("<a href=\"{}\" data-placeholder>", full));
    }
}

// ----- the text escaper, held against the formatter's own -----

#[test]
fn html_escaping_matches_the_formatter() {
    let head = "a<b&c\"d>e ";
    let tail = " f<g";
    let mut head_esc = String::new();
    comrak::html::escape(&mut head_esc, head).unwrap();
    let mut tail_esc = String::new();
    comrak::html::escape(&mut tail_esc, tail).unwrap();
    let mut o = opts();
    o.placeholder_detection = true;
    let t = TextData { literal: format!("{}%{{v}}{}", head, tail).into_bytes() };
    let b = custom_bytes(render_text(&o, &t, ParentKind::Other, true));
    assert_eq!(
        String::from_utf8(b).unwrap(),
        format!("{}<span data-placeholder>%{{v}}</span>{}", head_esc, tail_esc)
    );
}

#[test]
fn non_ascii_task_symbol_is_encoded() {
    let mut o = opts();
    o.inapplicable_tasks = true;
    let t = TaskData { symbol: Some('\u{2192}') };
    let b = custom_bytes(render_task_item(&o, &t, &no_pos(), true));
    assert_eq!(String::from_utf8(b).unwrap(), "<li>[\u{2192}] ");
}

#[test]
fn large_start_index_is_written_in_decimal() {
    let mut o = opts();
    o.tasklist_classes = true;
    let l = ListData { style: ListStyle::Ordered, is_task_list: false, start: 12345 };
    let b = custom_bytes(render_list(&o, &l, &no_pos(), true));
    assert_eq!(b, b"<ol start=\"12345\">\n".to_vec());
}

#[test]
fn encoded_placeholder_in_url_is_detected() {
    let mut o = opts();
    o.placeholder_detection = true;
    let l = LinkData { url: b"%7Bvar%7D".to_vec(), title: Vec::new() };
    let b = custom_bytes(render_link(&o, &l, ParentKind::Other, &no_pos(), None, true));
    assert_eq!(b, b"<a href=\"%7Bvar%7D\" data-placeholder>".to_vec());
}
