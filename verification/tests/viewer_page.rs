use rusty_constants::reply::{Body, Reply};
use rusty_constants::view_csv_content;
use rusty_constants::viewer::{
    render_page, tabulate, ViewerAction, ViewerEvent, PAGE_HEAD, PAGE_MIDDLE, PAGE_TAIL,
};

fn page_of(action: ViewerAction) -> String {
    match action {
        ViewerAction::Respond(Reply { status: 200, body: Body::Page(page) }) => page,
        other => panic!("not a page: {:?}", other),
    }
}

fn shown(page: &str) -> &str {
    let start = page.find("<pre>").unwrap() + "<pre>".len();
    let end = page.rfind("</pre>").unwrap();
    &page[start..end]
}

#[test]
fn request_is_followed_by_a_probe() {
    assert_eq!(view_csv_content("data/constants.csv", ViewerEvent::Requested), ViewerAction::Probe);
}

#[test]
fn present_dataset_is_read() {
    assert_eq!(view_csv_content("data/constants.csv", ViewerEvent::Found), ViewerAction::Load);
}

#[test]
fn missing_dataset_is_created_then_read() {
    assert_eq!(view_csv_content("data/constants.csv", ViewerEvent::Missing), ViewerAction::Create);
    assert_eq!(view_csv_content("data/constants.csv", ViewerEvent::Created), ViewerAction::Load);
}

#[test]
fn created_dataset_is_shown_as_an_empty_page() {
    let action = view_csv_content("data/constants.csv", ViewerEvent::Loaded(String::new()));
    let page = page_of(action);
    assert!(page.contains("<pre></pre>"));
    assert_eq!(shown(&page), "");
    assert_eq!(page, format!("{}data/constants.csv{}{}", PAGE_HEAD, PAGE_MIDDLE, PAGE_TAIL));
}

#[test]
fn failure_to_create_is_a_service_error() {
    assert_eq!(
        view_csv_content("p.csv", ViewerEvent::CreateFailed("Permission denied (os error 13)".to_string())),
        ViewerAction::Respond(Reply {
            status: 500,
            body: Body::Text(
                "Error ensuring CSV file exists: Permission denied (os error 13)".to_string()
            ),
        })
    );
}

#[test]
fn failure_to_read_is_a_service_error() {
    assert_eq!(
        view_csv_content("p.csv", ViewerEvent::LoadFailed("stream did not contain valid UTF-8".to_string())),
        ViewerAction::Respond(Reply {
            status: 500,
            body: Body::Text(
                "Could not read CSV file. Error: stream did not contain valid UTF-8".to_string()
            ),
        })
    );
}

#[test]
fn page_shows_rows_with_tabs() {
    let page = page_of(view_csv_content(
        "data/constants.csv",
        ViewerEvent::Loaded("name,value,unit\nc,299792458,m/s\n".to_string()),
    ));
    assert_eq!(shown(&page), "name\tvalue\tunit\nc\t299792458\tm/s");
    assert!(page.starts_with("<!DOCTYPE html>\n<html lang=\"en\">\n<head>\n"));
    assert!(page.contains("<p>Displaying content from: <code>data/constants.csv</code></p>\n        <pre>"));
    assert!(page.ends_with("</pre>\n    </div>\n</body>\n</html>"));
}

#[test]
fn page_escapes_what_the_dataset_holds() {
    let page = page_of(view_csv_content(
        "d.csv",
        ViewerEvent::Loaded("<script>alert(1)</script>,a & b,x > y".to_string()),
    ));
    assert_eq!(shown(&page), "&lt;script&gt;alert(1)&lt;/script&gt;\ta &amp; b\tx &gt; y");
    assert!(!shown(&page).contains('<'));
    assert!(!shown(&page).contains('>'));
}

#[test]
fn escaping_leaves_quotes_and_other_text() {
    let page = render_page("d.csv", "\"q\",'s',é/ü");
    assert_eq!(shown(&page), "\"q\"\t's'\té/ü");
}

#[test]
fn already_escaped_text_is_escaped_again() {
    let page = render_page("d.csv", "&amp;");
    assert_eq!(shown(&page), "&amp;amp;");
}

#[test]
fn render_page_is_head_path_middle_rows_tail() {
    assert_eq!(
        render_page("some/where.csv", "a,b\r\n1,<2>\r\n"),
        format!("{}some/where.csv{}a\tb\n1\t&lt;2&gt;{}", PAGE_HEAD, PAGE_MIDDLE, PAGE_TAIL)
    );
}

#[test]
fn page_frame_is_as_documented() {
    assert!(PAGE_HEAD.starts_with("<!DOCTYPE html>\n<html lang=\"en\">"));
    assert!(PAGE_HEAD.contains("<title>View CSV File</title>"));
    assert!(PAGE_HEAD.contains("        pre {\n            background-color: #fff;"));
    assert!(PAGE_HEAD.ends_with("        <h1>CSV File Content</h1>\n        <p>Displaying content from: <code>"));
    assert_eq!(PAGE_HEAD.len(), 1101);
    assert_eq!(PAGE_MIDDLE, "</code></p>\n        <pre>");
    assert_eq!(PAGE_TAIL, "</pre>\n    </div>\n</body>\n</html>");
}

#[test]
fn tabulate_turns_commas_into_tabs() {
    assert_eq!(tabulate(""), "");
    assert_eq!(tabulate("a"), "a");
    assert_eq!(tabulate("a,b,c"), "a\tb\tc");
    assert_eq!(tabulate(",,"), "\t\t");
    assert_eq!(tabulate("a,b\nc,d"), "a\tb\nc\td");
}

#[test]
fn tabulate_drops_the_last_line_ending() {
    assert_eq!(tabulate("a,b\n"), "a\tb");
    assert_eq!(tabulate("a,b\r\n"), "a\tb");
    assert_eq!(tabulate("a,b\n\n"), "a\tb\n");
    assert_eq!(tabulate("\n"), "");
}

#[test]
fn tabulate_turns_crlf_into_lf() {
    assert_eq!(tabulate("a,b\r\nc,d\r\n"), "a\tb\nc\td");
    assert_eq!(tabulate("a\rb,c\r"), "a\rb\tc\r");
}

#[test]
fn tabulate_agrees_with_lines_split_join() {
    for text in ["", "\n", "a,b", "a,b\n", "a,b\r\nc\r\n", ",\n,\n", "x\r", "a,,b\n\nc", "é,ü\n"] {
        let expected = text
            .lines()
            .map(|line| line.split(',').collect::<Vec<&str>>().join("\t"))
            .collect::<Vec<String>>()
            .join("\n");
        assert_eq!(tabulate(text), expected, "{:?}", text);
    }
}

#[test]
fn escaping_agrees_with_html_escape() {
    for text in ["", "plain", "<", ">", "&", "a<b>c&d", "&&<<>>", "é<ü", "\"'/"] {
        let page = render_page("p", text);
        assert_eq!(shown(&page), html_escape::encode_text(text));
    }
}
