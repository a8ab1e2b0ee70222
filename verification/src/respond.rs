//! Routing and responding: what a request path stands for on the
//! filesystem, and the response that is owed for it.
//!
//! The filesystem is never touched here. The caller looks up what
//! [`lookup_path`](crate::url::lookup_path) names and hands over what it
//! found; [`route`] says what to fetch, and [`respond`] turns what was
//! fetched into the response.

use vstd::prelude::*;
use crate::clock::Timestamp;
use crate::listing::{DirEntry, EntryView, entry_views, listing_text, render_listing};
use crate::text::{
    decimal_text, lemma_middle_occurs, occurs_in, push_decimal, uppercase, uppercase_text,
};
use crate::url::{decode, decoded, index_path, index_text, lookup_path, lookup_text};

verus! {

/// What the filesystem holds at a path.
#[derive(Debug, Clone, Copy, PartialEq, Eq)]
pub enum EntryKind {
    /// Nothing, or nothing that could be looked at.
    Missing,
    /// A regular file.
    File,
    /// A directory.
    Directory,
    /// Something else: a socket, a device, a link that leads nowhere.
    Other,
}

/// What is to be served for a request.
#[derive(Debug, PartialEq, Eq)]
pub enum Outcome {
    /// The file at this path.
    ServeFile(String),
    /// A listing of the directory at this path.
    ServeListing(String),
    /// The index file at this path, in place of a listing of its directory.
    ServeIndex(String),
    /// The page that says that nothing was found.
    NotFound,
}

/// What an `Outcome` holds, as the contracts speak of it.
pub enum OutcomeView {
    ServeFile(Seq<char>),
    ServeListing(Seq<char>),
    ServeIndex(Seq<char>),
    NotFound,
}

impl View for Outcome {
    type V = OutcomeView;

    open spec fn view(&self) -> OutcomeView {
        match self {
            Outcome::ServeFile(path) => OutcomeView::ServeFile(path@),
            Outcome::ServeListing(path) => OutcomeView::ServeListing(path@),
            Outcome::ServeIndex(path) => OutcomeView::ServeIndex(path@),
            Outcome::NotFound => OutcomeView::NotFound,
        }
    }
}

/// The outcome for a request path, given what stands at the path it names
/// and whether its directory holds the index file. A file is served; a
/// directory is answered by its index file where it has one and by a
/// listing where it has none; everything else is not found.
pub open spec fn routed(url: Seq<char>, index: Seq<char>, target: EntryKind, index_present: bool)
    -> OutcomeView {
    match target {
        EntryKind::File => OutcomeView::ServeFile(lookup_text(url)),
        EntryKind::Directory => if index_present {
            OutcomeView::ServeIndex(index_text(url, index))
        } else {
            OutcomeView::ServeListing(lookup_text(url))
        },
        EntryKind::Missing => OutcomeView::NotFound,
        EntryKind::Other => OutcomeView::NotFound,
    }
}

/// Routes a request. `target` is what stands at `lookup_path(url)`, and
/// `index_present` says whether a file stands at `index_path(url, index)`;
/// it is looked at for a directory only.
pub fn route(url: &str, index: &str, target: EntryKind, index_present: bool) -> (outcome: Outcome)
    ensures
        outcome@ == routed(url@, index@, target, index_present),
{
    match target {
        EntryKind::File => Outcome::ServeFile(lookup_path(url)),
        EntryKind::Directory => if index_present {
            Outcome::ServeIndex(index_path(url, index))
        } else {
            Outcome::ServeListing(lookup_path(url))
        },
        EntryKind::Missing => Outcome::NotFound,
        EntryKind::Other => Outcome::NotFound,
    }
}

/// One header line of a response.
#[derive(Debug, PartialEq, Eq)]
pub struct Header {
    pub field: String,
    pub value: String,
}

impl View for Header {
    type V = (Seq<char>, Seq<char>);

    open spec fn view(&self) -> (Seq<char>, Seq<char>) {
        (self.field@, self.value@)
    }
}

/// The views of a sequence of headers.
pub open spec fn header_views(headers: Seq<Header>) -> Seq<(Seq<char>, Seq<char>)> {
    headers.map_values(|h: Header| h@)
}

/// What a response carries.
#[derive(Debug, PartialEq, Eq)]
pub enum Body {
    /// This text.
    Text(String),
    /// The bytes of the file that was opened at this path.
    File(String),
}

/// What a `Body` holds, as the contracts speak of it.
pub enum BodyView {
    Text(Seq<char>),
    File(Seq<char>),
}

impl View for Body {
    type V = BodyView;

    open spec fn view(&self) -> BodyView {
        match self {
            Body::Text(text) => BodyView::Text(text@),
            Body::File(path) => BodyView::File(path@),
        }
    }
}

/// A response, ready to be sent.
#[derive(Debug, PartialEq, Eq)]
pub struct Response {
    pub status: u16,
    /// The headers that the response sets itself; the rest is left to
    /// whatever sends it.
    pub headers: Vec<Header>,
    pub body: Body,
}

/// What a `Response` holds, as the contracts speak of it.
pub struct ResponseView {
    pub status: nat,
    pub headers: Seq<(Seq<char>, Seq<char>)>,
    pub body: BodyView,
}

impl View for Response {
    type V = ResponseView;

    open spec fn view(&self) -> ResponseView {
        ResponseView {
            status: self.status as nat,
            headers: header_views(self.headers@),
            body: self.body@,
        }
    }
}

/// The header that marks a body as an HTML page.
pub open spec fn html_header() -> (Seq<char>, Seq<char>) {
    ("Content-Type"@, "text/html"@)
}

/// The page that says that `url` was not found. The request path stands
/// in it as it was given.
pub open spec fn not_found_text(url: Seq<char>) -> Seq<char> {
    "<!DOCTYPE html>\n<html>\n<head>\n<title>404 Not Found</title>\n</head>\n<body>\n<h1>Not found - "@
        + url + "</h1>\n</body>\n</html>"@
}

/// The response to a request for which nothing was found.
pub open spec fn not_found_response(url: Seq<char>) -> ResponseView {
    ResponseView {
        status: 404,
        headers: seq![html_header()],
        body: BodyView::Text(not_found_text(url)),
    }
}

/// The response that carries the file at `path`.
pub open spec fn file_response(path: Seq<char>) -> ResponseView {
    ResponseView { status: 200, headers: Seq::empty(), body: BodyView::File(path) }
}

/// The response that carries the listing for `url`.
pub open spec fn listing_response(url: Seq<char>, entries: Seq<EntryView>, stamp: Seq<char>)
    -> ResponseView {
    ResponseView {
        status: 200,
        headers: seq![html_header()],
        body: BodyView::Text(listing_text(url, entries, stamp)),
    }
}

/// What the caller fetched for an outcome.
#[derive(Debug, PartialEq, Eq)]
pub enum Fetched {
    /// Nothing: there was nothing to fetch, or fetching failed.
    Nothing,
    /// The file was opened.
    Opened,
    /// The directory was read, and these are its entries.
    Entries(Vec<DirEntry>),
}

/// What a `Fetched` holds, as the contracts speak of it.
pub enum FetchedView {
    Nothing,
    Opened,
    Entries(Seq<EntryView>),
}

impl View for Fetched {
    type V = FetchedView;

    open spec fn view(&self) -> FetchedView {
        match self {
            Fetched::Nothing => FetchedView::Nothing,
            Fetched::Opened => FetchedView::Opened,
            Fetched::Entries(entries) => FetchedView::Entries(entry_views(entries@)),
        }
    }
}

/// The response that is owed for `url`, given the outcome of routing and
/// what was fetched for it. A file that was opened is sent; a directory
/// that was read is listed, with `stamp` as the time of making; whatever
/// else happened, the request is answered as not found.
pub open spec fn response_for(
    url: Seq<char>,
    outcome: OutcomeView,
    fetched: FetchedView,
    stamp: Seq<char>,
) -> ResponseView {
    match (outcome, fetched) {
        (OutcomeView::ServeFile(path), FetchedView::Opened) => file_response(path),
        (OutcomeView::ServeIndex(path), FetchedView::Opened) => file_response(path),
        (OutcomeView::ServeListing(_), FetchedView::Entries(entries)) => listing_response(
            url,
            entries,
            stamp,
        ),
        _ => not_found_response(url),
    }
}

/// The header that marks a body as an HTML page.
fn content_type_html() -> (header: Header)
    ensures
        header@ == html_header(),
{
    Header { field: "Content-Type".to_owned(), value: "text/html".to_owned() }
}

/// A response with status `status` that carries `page` as HTML.
fn html_response(status: u16, page: String) -> (response: Response)
    ensures
        response@ == (ResponseView {
            status: status as nat,
            headers: seq![html_header()],
            body: BodyView::Text(page@),
        }),
{
    let mut headers: Vec<Header> = Vec::new();
    headers.push(content_type_html());
    assert(header_views(headers@) =~= seq![html_header()]);
    Response { status, headers, body: Body::Text(page) }
}

/// The page that says that `url` was not found.
pub fn not_found_page(url: &str) -> (page: String)
    ensures
        page@ == not_found_text(url@),
{
    let mut page =
        "<!DOCTYPE html>\n<html>\n<head>\n<title>404 Not Found</title>\n</head>\n<body>\n<h1>Not found - ".to_owned();
    page.append(url);
    page.append("</h1>\n</body>\n</html>");
    page
}

/// Responds that nothing was found for `url`.
pub fn respond_404(url: &str) -> (response: Response)
    ensures
        response@ == not_found_response(url@),
{
    html_response(404, not_found_page(url))
}

/// Responds with the file at `path` if it was opened, and with not found
/// if it was not.
pub fn respond_file(url: &str, path: &str, opened: bool) -> (response: Response)
    ensures
        response@ == if opened {
            file_response(path@)
        } else {
            not_found_response(url@)
        },
{
    if opened {
        let headers: Vec<Header> = Vec::new();
        assert(header_views(headers@) =~= Seq::<(Seq<char>, Seq<char>)>::empty());
        Response { status: 200, headers, body: Body::File(path.to_owned()) }
    } else {
        respond_404(url)
    }
}

/// Responds with the listing of a directory if it was read, and with not
/// found if it was not. `stamp` is the time of making as it is written.
pub fn respond_listing(url: &str, entries: Option<&Vec<DirEntry>>, stamp: &str) -> (response:
    Response)
    ensures
        response@ == match entries {
            Some(read) => listing_response(url@, entry_views(read@), stamp@),
            None => not_found_response(url@),
        },
{
    match entries {
        Some(read) => html_response(200, render_listing(url, read, stamp)),
        None => respond_404(url),
    }
}

/// The response that is owed for a directory. Where the directory holds
/// the index file and that file was opened, the index file is sent with
/// status 200, and no listing is made. Where it holds none and its entries
/// were read, they are listed. Whatever else happened, the request is
/// answered as not found.
pub open spec fn directory_response(
    url: Seq<char>,
    index: Seq<char>,
    index_present: bool,
    fetched: FetchedView,
    stamp: Seq<char>,
) -> ResponseView {
    match fetched {
        FetchedView::Opened => if index_present {
            file_response(index_text(url, index))
        } else {
            not_found_response(url)
        },
        FetchedView::Entries(entries) => if index_present {
            not_found_response(url)
        } else {
            listing_response(url, entries, stamp)
        },
        FetchedView::Nothing => not_found_response(url),
    }
}

/// Responds to a request for a directory. `index_present` says whether
/// the directory holds the index file, `fetched` what was fetched for it:
/// the index file where there is one, the entries where there is none.
pub fn respond_dir(url: &str, index: &str, index_present: bool, fetched: &Fetched, stamp: &str) -> (response:
    Response)
    ensures
        response@ == directory_response(url@, index@, index_present, fetched@, stamp@),
        response@ == response_for(
            url@,
            routed(url@, index@, EntryKind::Directory, index_present),
            fetched@,
            stamp@,
        ),
{
    let outcome = route(url, index, EntryKind::Directory, index_present);
    respond_at(url, &outcome, fetched, stamp)
}

/// Makes the response for `url` from the outcome of routing and what was
/// fetched for it, with `stamp` as the time of making of a listing.
pub fn respond_at(url: &str, outcome: &Outcome, fetched: &Fetched, stamp: &str) -> (response:
    Response)
    ensures
        response@ == response_for(url@, outcome@, fetched@, stamp@),
{
    match outcome {
        Outcome::ServeFile(path) => match fetched {
            Fetched::Opened => respond_file(url, path.as_str(), true),
            _ => respond_404(url),
        },
        Outcome::ServeIndex(path) => match fetched {
            Fetched::Opened => respond_file(url, path.as_str(), true),
            _ => respond_404(url),
        },
        Outcome::ServeListing(_) => match fetched {
            Fetched::Entries(entries) => respond_listing(url, Some(entries), stamp),
            _ => respond_404(url),
        },
        Outcome::NotFound => respond_404(url),
    }
}

/// Makes the response for `url` from the outcome of routing and what was
/// fetched for it. The time of making of a listing is a moment of the
/// calendar, read from the clock; it is written as long as the year of
/// the calendar fits in 32 bits.
pub fn respond(url: &str, outcome: &Outcome, fetched: &Fetched) -> (response: Response)
    ensures
        exists|now: Timestamp|
            now.on_calendar() && response@ == response_for(
                url@,
                outcome@,
                fetched@,
                #[trigger] now.stamp(),
            ),
{
    let now = Timestamp::now();
    let stamp = now.to_stamp();
    respond_at(url, outcome, fetched, stamp.as_str())
}

/// The line that records a request and its answer: the method as it is
/// shown, the decoded request path in quotes, and the status.
pub open spec fn log_text(shown_method: Seq<char>, url: Seq<char>, status: nat) -> Seq<char> {
    shown_method + " '"@ + decoded(url) + "' => "@ + decimal_text(status)
}

/// Writes the line that records a request and its answer, with the
/// method as it is to be shown.
pub fn log_entry(shown_method: &str, url: &str, status: u16) -> (line: String)
    ensures
        line@ == log_text(shown_method@, url@, status as nat),
{
    let mut line = shown_method.to_owned();
    line.append(" '");
    let path = decode(url);
    line.append(path.as_str());
    line.append("' => ");
    push_decimal(&mut line, status as u64);
    line
}

/// Writes the line that records a request and its answer. The method is
/// shown in uppercase.
pub fn log_line(method: &str, url: &str, status: u16) -> (line: String)
    ensures
        line@ == log_text(uppercase_text(method@), url@, status as nat),
{
    let shown = uppercase(method);
    log_entry(shown.as_str(), url, status)
}

/// A request for a regular file that can be opened is answered with
/// status 200 and that file as the body: the file that stands at the
/// decoded request path.
pub proof fn lemma_file_is_served(
    url: Seq<char>,
    index: Seq<char>,
    index_present: bool,
    stamp: Seq<char>,
)
    ensures
        response_for(
            url,
            routed(url, index, EntryKind::File, index_present),
            FetchedView::Opened,
            stamp,
        ) == (ResponseView {
            status: 200,
            headers: Seq::empty(),
            body: BodyView::File(lookup_text(url)),
        }),
{
}

/// A request for what does not exist, or is neither file nor directory,
/// is answered with status 404 and an HTML page in which the request path
/// stands as it was given.
pub proof fn lemma_missing_is_not_found(
    url: Seq<char>,
    index: Seq<char>,
    target: EntryKind,
    index_present: bool,
    fetched: FetchedView,
    stamp: Seq<char>,
)
    requires
        target is Missing || target is Other,
    ensures
        response_for(url, routed(url, index, target, index_present), fetched, stamp)
            == not_found_response(url),
        not_found_response(url).status == 404,
        not_found_response(url).body == BodyView::Text(not_found_text(url)),
        occurs_in(not_found_text(url), url),
{
    lemma_middle_occurs(
        "<!DOCTYPE html>\n<html>\n<head>\n<title>404 Not Found</title>\n</head>\n<body>\n<h1>Not found - "@,
        url,
        "</h1>\n</body>\n</html>"@,
    );
}

/// A request for a directory that holds the index file is answered with
/// status 200 and the index file as the body, and not with a listing.
pub proof fn lemma_index_is_served(url: Seq<char>, index: Seq<char>, stamp: Seq<char>)
    ensures
        directory_response(url, index, true, FetchedView::Opened, stamp).status == 200,
        directory_response(url, index, true, FetchedView::Opened, stamp).body == BodyView::File(
            index_text(url, index),
        ),
        directory_response(url, index, true, FetchedView::Opened, stamp) == response_for(
            url,
            routed(url, index, EntryKind::Directory, true),
            FetchedView::Opened,
            stamp,
        ),
        response_for(
            url,
            routed(url, index, EntryKind::Directory, true),
            FetchedView::Opened,
            stamp,
        ) == (ResponseView {
            status: 200,
            headers: Seq::empty(),
            body: BodyView::File(index_text(url, index)),
        }),
{
}

/// A request for a directory without an index file is answered with
/// status 200 and the listing of the entries that were read.
pub proof fn lemma_directory_is_listed(
    url: Seq<char>,
    index: Seq<char>,
    entries: Seq<EntryView>,
    stamp: Seq<char>,
)
    ensures
        response_for(
            url,
            routed(url, index, EntryKind::Directory, false),
            FetchedView::Entries(entries),
            stamp,
        ) == (ResponseView {
            status: 200,
            headers: seq![html_header()],
            body: BodyView::Text(listing_text(url, entries, stamp)),
        }),
{
}

/// Whatever could not be fetched is answered as not found: a file or an
/// index file that could not be opened, a directory that could not be
/// read.
pub proof fn lemma_failed_fetch_is_not_found(url: Seq<char>, outcome: OutcomeView, stamp: Seq<char>)
    ensures
        response_for(url, outcome, FetchedView::Nothing, stamp) == not_found_response(url),
{
}

} // verus!
