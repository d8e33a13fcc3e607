//! The dataset viewer: the raw dataset as a page that a browser shows as
//! text.
//!
//! The viewer reads nothing itself. Its caller looks for the dataset, creates
//! it, reads it, and reports each outcome as a [`ViewerEvent`];
//! [`view_csv_content`] says what to do next, and in the end what to answer.

use crate::reply::{service_error, Body, BodyView, Reply, ReplyView, STATUS_OK, STATUS_SERVICE_ERROR};
use crate::text::{join, joined, lines, pieces, split, split_lines};
use vstd::prelude::*;

verus! {

/// The page up to the place of the dataset's path.
pub const PAGE_HEAD: &'static str = r#"<!DOCTYPE html>
<html lang="en">
<head>
    <meta charset="UTF-8">
    <meta name="viewport" content="width=device-width, initial-scale=1.0">
    <title>View CSV File</title>
    <style>
        body { font-family: Arial, sans-serif; margin: 20px; background-color: #f4f4f4; color: #333; }
        h1 { color: #333; }
        p { margin-bottom: 15px; }
        code { background-color: #eee; padding: 2px 4px; border-radius: 3px; }
        pre {
            background-color: #fff;
            border: 1px solid #ccc;
            padding: 15px;
            border-radius: 4px;
            white-space: pre-wrap; /* Allows wrapping of long lines */
            word-wrap: break-word; /* Breaks long words if necessary */
            font-family: monospace;
            font-size: 0.9rem;
            box-shadow: 0 0 10px rgba(0,0,0,0.05);
        }
        .container { background-color: white; padding: 20px; border-radius: 5px; box-shadow: 0 0 10px rgba(0,0,0,0.1); }
    </style>
</head>
<body>
    <div class="container">
        <h1>CSV File Content</h1>
        <p>Displaying content from: <code>"#;

/// The page between the dataset's path and the dataset's rows: it ends with
/// the opening `<pre>`.
pub const PAGE_MIDDLE: &'static str = r#"</code></p>
        <pre>"#;

/// The page behind the dataset's rows: it begins with the closing `</pre>`.
pub const PAGE_TAIL: &'static str = r#"</pre>
    </div>
</body>
</html>"#;

/// What stands for one character in HTML text: an entity for `&`, `<` and
/// `>`, the character itself for any other.
pub open spec fn escaped_char(c: char) -> Seq<char> {
    if c == '&' {
        seq!['&', 'a', 'm', 'p', ';']
    } else if c == '<' {
        seq!['&', 'l', 't', ';']
    } else if c == '>' {
        seq!['&', 'g', 't', ';']
    } else {
        seq![c]
    }
}

/// The text with each of its characters escaped for HTML text.
pub open spec fn escaped(s: Seq<char>) -> Seq<char>
    decreases s.len(),
{
    if s.len() == 0 {
        Seq::<char>::empty()
    } else {
        escaped(s.drop_last()) + escaped_char(s.last())
    }
}

/// One line of the dataset as a row: its fields, which commas part, with a
/// tab between each two.
pub open spec fn row(line: Seq<char>) -> Seq<char> {
    joined(pieces(line, ','), '\t')
}

/// The dataset as rows: one row for each line, a line feed between each two.
pub open spec fn tabulated(content: Seq<char>) -> Seq<char> {
    joined(lines(content).map_values(|line: Seq<char>| row(line)), '\n')
}

/// The page that shows the dataset at `path` with the given content.
pub open spec fn page(path: Seq<char>, content: Seq<char>) -> Seq<char> {
    PAGE_HEAD@ + path + PAGE_MIDDLE@ + escaped(tabulated(content)) + PAGE_TAIL@
}

/// Calls `html_escape::encode_text`, which replaces every `&` by `&amp;`,
/// every `<` by `&lt;` and every `>` by `&gt;`, and keeps all other
/// characters as they are, in their order.
#[verifier::external_body]
fn escape_text(text: &str) -> (r: String)
    ensures
        r@ == escaped(text@),
{
    html_escape::encode_text(text).into_owned()
}

/// Escaped text holds no angle bracket: nothing in it opens or closes a tag.
pub proof fn lemma_escaped_holds_no_tag(s: Seq<char>)
    ensures
        forall|i: int| 0 <= i < escaped(s).len() ==> escaped(s)[i] != '<' && escaped(s)[i] != '>',
    decreases s.len(),
{
    if s.len() > 0 {
        lemma_escaped_holds_no_tag(s.drop_last());
        let front = escaped(s.drop_last());
        let back = escaped_char(s.last());
        assert forall|i: int| 0 <= i < escaped(s).len() implies escaped(s)[i] != '<' && escaped(
            s,
        )[i] != '>' by {
            if i < front.len() {
                assert(escaped(s)[i] == front[i]);
            } else {
                assert(escaped(s)[i] == back[i - front.len()]);
            }
        }
    }
}

/// Turns the dataset into rows: in each line a tab takes the place of each
/// comma, and the lines are put together with line feeds.
pub fn tabulate(content: &str) -> (r: String)
    ensures
        r@ == tabulated(content@),
{
    let found = split_lines(content);
    let mut rows: Vec<String> = Vec::new();
    let mut i: usize = 0;
    while i < found.len()
        invariant
            i <= found.len(),
            rows.deep_view() == found.deep_view().map_values(|line: Seq<char>| row(line)).take(
                i as int,
            ),
        decreases found.len() - i,
    {
        let ghost before = rows.deep_view();
        let ghost all = found.deep_view().map_values(|line: Seq<char>| row(line));
        let fields = split(found[i].as_str(), ',');
        rows.push(join(&fields, '\t'));
        assert(rows.deep_view() == before.push(rows@.last()@));
        assert(all.take(i + 1) == all.take(i as int).push(all[i as int]));
        i = i + 1;
    }
    proof {
        let all = found.deep_view().map_values(|line: Seq<char>| row(line));
        assert(all.take(found.len() as int) == all);
    }
    join(&rows, '\n')
}

/// Writes the page that shows the dataset at `path` with the given content.
pub fn render_page(path: &str, content: &str) -> (r: String)
    ensures
        r@ == page(path@, content@),
{
    let rows = tabulate(content);
    let safe = escape_text(rows.as_str());
    let mut out = String::from_str(PAGE_HEAD);
    out.append(path);
    out.append(PAGE_MIDDLE);
    out.append(safe.as_str());
    out.append(PAGE_TAIL);
    out
}

/// What the caller reports to the viewer.
#[derive(Debug, Clone, PartialEq, Eq)]
pub enum ViewerEvent {
    /// A request for the page came in.
    Requested,
    /// The dataset exists.
    Found,
    /// There is no dataset at the path.
    Missing,
    /// An empty dataset was created at the path.
    Created,
    /// The dataset could not be created; the text says why.
    CreateFailed(String),
    /// The dataset was read; the text is its content.
    Loaded(String),
    /// The dataset could not be read; the text says why.
    LoadFailed(String),
}

/// What the viewer asks of its caller.
#[derive(Debug, Clone, PartialEq, Eq)]
pub enum ViewerAction {
    /// Find out whether the dataset exists.
    Probe,
    /// Create an empty dataset.
    Create,
    /// Read the dataset.
    Load,
    /// Send this answer; the request is done.
    Respond(Reply),
}

/// An event as plain values.
pub enum ViewerEventView {
    Requested,
    Found,
    Missing,
    Created,
    CreateFailed(Seq<char>),
    Loaded(Seq<char>),
    LoadFailed(Seq<char>),
}

/// An action as plain values.
pub enum ViewerActionView {
    Probe,
    Create,
    Load,
    Respond(ReplyView),
}

impl View for ViewerEvent {
    type V = ViewerEventView;

    open spec fn view(&self) -> ViewerEventView {
        match self {
            ViewerEvent::Requested => ViewerEventView::Requested,
            ViewerEvent::Found => ViewerEventView::Found,
            ViewerEvent::Missing => ViewerEventView::Missing,
            ViewerEvent::Created => ViewerEventView::Created,
            ViewerEvent::CreateFailed(why) => ViewerEventView::CreateFailed(why@),
            ViewerEvent::Loaded(content) => ViewerEventView::Loaded(content@),
            ViewerEvent::LoadFailed(why) => ViewerEventView::LoadFailed(why@),
        }
    }
}

impl View for ViewerAction {
    type V = ViewerActionView;

    open spec fn view(&self) -> ViewerActionView {
        match self {
            ViewerAction::Probe => ViewerActionView::Probe,
            ViewerAction::Create => ViewerActionView::Create,
            ViewerAction::Load => ViewerActionView::Load,
            ViewerAction::Respond(reply) => ViewerActionView::Respond(reply@),
        }
    }
}

/// What follows an event. A dataset that is missing is created and then read
/// like one that was there. A dataset that cannot be created or read is
/// reported as a failure of the service, with the cause; one that was read
/// is shown.
pub open spec fn viewer_step(path: Seq<char>, event: ViewerEventView) -> ViewerActionView {
    match event {
        ViewerEventView::Requested => ViewerActionView::Probe,
        ViewerEventView::Found => ViewerActionView::Load,
        ViewerEventView::Missing => ViewerActionView::Create,
        ViewerEventView::Created => ViewerActionView::Load,
        ViewerEventView::CreateFailed(why) => ViewerActionView::Respond(
            service_error("Error ensuring CSV file exists: "@ + why),
        ),
        ViewerEventView::Loaded(content) => ViewerActionView::Respond(
            ReplyView { status: 200, body: BodyView::Page(page(path, content)) },
        ),
        ViewerEventView::LoadFailed(why) => ViewerActionView::Respond(
            service_error("Could not read CSV file. Error: "@ + why),
        ),
    }
}

/// Says what the viewer does next for the dataset at `path`, given what
/// happened last.
pub fn view_csv_content(path: &str, event: ViewerEvent) -> (action: ViewerAction)
    ensures
        action@ == viewer_step(path@, event@),
{
    match event {
        ViewerEvent::Requested => ViewerAction::Probe,
        ViewerEvent::Found => ViewerAction::Load,
        ViewerEvent::Missing => ViewerAction::Create,
        ViewerEvent::Created => ViewerAction::Load,
        ViewerEvent::CreateFailed(why) => {
            let mut text = String::from_str("Error ensuring CSV file exists: ");
            text.append(why.as_str());
            ViewerAction::Respond(Reply { status: STATUS_SERVICE_ERROR, body: Body::Text(text) })
        },
        ViewerEvent::Loaded(content) => {
            let body = render_page(path, content.as_str());
            ViewerAction::Respond(Reply { status: STATUS_OK, body: Body::Page(body) })
        },
        ViewerEvent::LoadFailed(why) => {
            let mut text = String::from_str("Could not read CSV file. Error: ");
            text.append(why.as_str());
            ViewerAction::Respond(Reply { status: STATUS_SERVICE_ERROR, body: Body::Text(text) })
        },
    }
}

/// A dataset that is missing is no failure: it is created, then read, and
/// what was created empty is shown as a page with nothing between `<pre>`
/// and `</pre>`.
pub proof fn lemma_missing_dataset_is_shown_empty(path: Seq<char>)
    ensures
        viewer_step(path, ViewerEventView::Missing) == ViewerActionView::Create,
        viewer_step(path, ViewerEventView::Created) == ViewerActionView::Load,
        viewer_step(path, ViewerEventView::Loaded(Seq::<char>::empty()))
            == ViewerActionView::Respond(
            ReplyView {
                status: 200,
                body: BodyView::Page(PAGE_HEAD@ + path + PAGE_MIDDLE@ + PAGE_TAIL@),
            },
        ),
{
    let nothing = Seq::<char>::empty();
    assert(pieces(nothing, '\n') == seq![nothing]);
    assert(seq![nothing].drop_last() == Seq::<Seq<char>>::empty());
    assert(lines(nothing) == Seq::<Seq<char>>::empty());
    assert(lines(nothing).map_values(|line: Seq<char>| row(line)) == Seq::<Seq<char>>::empty());
    assert(tabulated(nothing) == nothing);
    assert(escaped(nothing) == nothing);
    assert(PAGE_HEAD@ + path + PAGE_MIDDLE@ + nothing + PAGE_TAIL@ == PAGE_HEAD@ + path
        + PAGE_MIDDLE@ + PAGE_TAIL@);
}

} // verus!
