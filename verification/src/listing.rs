//! The listing of a directory: an HTML page with one table row for every
//! entry, a link to the parent directory above them and the time of making
//! below.
//!
//! Names of entries are written with the characters that HTML gives a
//! meaning replaced by their entities, so that no file name can be read as
//! markup. The request path stands in the page as it was given.

use vstd::prelude::*;
use crate::clock::Timestamp;
use crate::text::{chars_of, decimal_text, occurs_in, lemma_middle_occurs, push_decimal};
use crate::url::{link_base, link_base_text, parent_link, parent_text};

verus! {

/// One entry of a directory, as the filesystem describes it.
#[derive(Debug, PartialEq, Eq)]
pub struct DirEntry {
    pub name: String,
    /// The entry is a directory; everything else is listed as a file.
    pub is_dir: bool,
    /// The size in bytes. It is shown for files only.
    pub size: u64,
}

/// What a `DirEntry` holds, as the contracts speak of it.
pub struct EntryView {
    pub name: Seq<char>,
    pub is_dir: bool,
    pub size: nat,
}

impl View for DirEntry {
    type V = EntryView;

    open spec fn view(&self) -> EntryView {
        EntryView { name: self.name@, is_dir: self.is_dir, size: self.size as nat }
    }
}

/// The views of a sequence of entries.
pub open spec fn entry_views(entries: Seq<DirEntry>) -> Seq<EntryView> {
    entries.map_values(|e: DirEntry| e@)
}

/// How one character is written inside the page.
pub open spec fn escaped_char(c: char) -> Seq<char> {
    if c == '&' {
        "&amp;"@
    } else if c == '<' {
        "&lt;"@
    } else if c == '>' {
        "&gt;"@
    } else if c == '"' {
        "&quot;"@
    } else if c == '\'' {
        "&#39;"@
    } else {
        seq![c]
    }
}

/// How a text is written inside the page: character by character.
pub open spec fn escaped(s: Seq<char>) -> Seq<char>
    decreases s.len(),
{
    if s.len() == 0 {
        Seq::empty()
    } else {
        escaped(s.drop_last()) + escaped_char(s.last())
    }
}

/// Appends `text` to `out` as it is written inside the page.
pub fn push_escaped(out: &mut String, text: &str)
    ensures
        final(out)@ == old(out)@ + escaped(text@),
{
    let cs = chars_of(text);
    let mut i: usize = 0;
    assert(cs@.take(0) =~= Seq::<char>::empty());
    while i < cs.len()
        invariant
            i <= cs.len(),
            cs@ == text@,
            out@ == old(out)@ + escaped(cs@.take(i as int)),
        decreases cs.len() - i,
    {
        let c = cs[i];
        assert(cs@.take(i + 1).drop_last() =~= cs@.take(i as int));
        if c == '&' {
            out.append("&amp;");
        } else if c == '<' {
            out.append("&lt;");
        } else if c == '>' {
            out.append("&gt;");
        } else if c == '"' {
            out.append("&quot;");
        } else if c == '\'' {
            out.append("&#39;");
        } else {
            out.push(c);
        }
        i += 1;
    }
    assert(cs@.take(i as int) =~= cs@);
}

/// The text as it is written inside a page.
pub fn escape(text: &str) -> (out: String)
    ensures
        out@ == escaped(text@),
{
    let mut out = String::new();
    push_escaped(&mut out, text);
    out
}

/// A character that opens or closes a tag or an attribute value.
pub open spec fn is_markup(c: char) -> bool {
    c == '<' || c == '>' || c == '"' || c == '\''
}

/// No escaped text holds a character that opens or closes a tag or an
/// attribute value, whatever the text was.
pub proof fn lemma_escaped_is_inert(s: Seq<char>, i: int)
    requires
        0 <= i < escaped(s).len(),
    ensures
        !is_markup(escaped(s)[i]),
    decreases s.len(),
{
    reveal_strlit("&amp;");
    reveal_strlit("&lt;");
    reveal_strlit("&gt;");
    reveal_strlit("&quot;");
    reveal_strlit("&#39;");
    if s.len() > 0 {
        let front = escaped(s.drop_last());
        if i < front.len() {
            lemma_escaped_is_inert(s.drop_last(), i);
        }
    }
}

/// A text is escaped piece by piece.
pub proof fn lemma_escaped_concat(a: Seq<char>, b: Seq<char>)
    ensures
        escaped(a + b) == escaped(a) + escaped(b),
    decreases b.len(),
{
    if b.len() == 0 {
        assert(a + b =~= a);
        assert(escaped(a) + escaped(b) =~= escaped(a));
    } else {
        assert((a + b).drop_last() =~= a + b.drop_last());
        lemma_escaped_concat(a, b.drop_last());
        assert(escaped(a + b) =~= escaped(a) + escaped(b));
    }
}

/// The table row of one entry. The link points at `base` followed by the
/// name. A directory shows its name with a slash and no size; a file
/// shows its name and its size in bytes.
pub open spec fn row(base: Seq<char>, e: EntryView) -> Seq<char> {
    if e.is_dir {
        "<tr><td><a href=\""@ + base + escaped(e.name) + "\">"@ + escaped(e.name)
            + "/</a></td><td></td></tr>\n"@
    } else {
        "<tr><td><a href=\""@ + base + escaped(e.name) + "\">"@ + escaped(e.name)
            + "</a></td><td align=\"right\">   "@ + decimal_text(e.size) + "</td></tr>\n"@
    }
}

/// The rows of the entries, in the order in which the entries come.
pub open spec fn rows(base: Seq<char>, entries: Seq<EntryView>) -> Seq<char>
    decreases entries.len(),
{
    if entries.len() == 0 {
        Seq::empty()
    } else {
        rows(base, entries.drop_last()) + row(base, entries.last())
    }
}

/// The link to the parent directory, the first row of every listing.
pub open spec fn parent_row(parent: Seq<char>) -> Seq<char> {
    "<tr><td><a href=\""@ + parent + "\">..</a></td></tr>\n"@
}

/// The page down to the table: title and heading, both the request path.
pub open spec fn page_top(title: Seq<char>) -> Seq<char> {
    "<!DOCTYPE html>\n<html>\n<head>\n<title>"@ + title + "</title>\n</head>\n<body>\n<h1>"@
        + title + "</h1>\n<tt><pre>\n<table>\n"@
}

/// The page from the end of the table: the time of making.
pub open spec fn page_bottom(stamp: Seq<char>) -> Seq<char> {
    "</table>\n</pre></tt>\n<hr>\nGenerated on "@ + stamp + " UTC\n</body>\n</html>"@
}

/// The whole page.
pub open spec fn page(
    title: Seq<char>,
    parent: Seq<char>,
    base: Seq<char>,
    entries: Seq<EntryView>,
    stamp: Seq<char>,
) -> Seq<char> {
    page_top(title) + parent_row(parent) + rows(base, entries) + page_bottom(stamp)
}

/// The listing that answers a request for `path`, made at a moment that
/// is written `stamp`.
pub open spec fn listing_text(path: Seq<char>, entries: Seq<EntryView>, stamp: Seq<char>) -> Seq<
    char,
> {
    page(path, parent_text(path), link_base_text(path), entries, stamp)
}

/// Appends the row of one entry.
pub fn push_row(out: &mut String, base: &str, entry: &DirEntry)
    ensures
        final(out)@ == old(out)@ + row(base@, entry@),
{
    out.append("<tr><td><a href=\"");
    out.append(base);
    push_escaped(out, entry.name.as_str());
    out.append("\">");
    push_escaped(out, entry.name.as_str());
    if entry.is_dir {
        out.append("/</a></td><td></td></tr>\n");
    } else {
        out.append("</a></td><td align=\"right\">   ");
        push_decimal(out, entry.size);
        out.append("</td></tr>\n");
    }
    assert(out@ =~= old(out)@ + row(base@, entry@));
}

/// Lays out the page from its parts: the title, the target of the parent
/// link, the beginning of the entries' links, the entries and the time of
/// making.
pub fn render_page(title: &str, parent: &str, base: &str, entries: &Vec<DirEntry>, stamp: &str) -> (out:
    String)
    ensures
        out@ == page(title@, parent@, base@, entry_views(entries@), stamp@),
{
    let mut out = String::new();
    out.append("<!DOCTYPE html>\n<html>\n<head>\n<title>");
    out.append(title);
    out.append("</title>\n</head>\n<body>\n<h1>");
    out.append(title);
    out.append("</h1>\n<tt><pre>\n<table>\n");
    out.append("<tr><td><a href=\"");
    out.append(parent);
    out.append("\">..</a></td></tr>\n");
    let ghost top = page_top(title@) + parent_row(parent@);
    assert(out@ =~= top);
    let ghost all = entry_views(entries@);
    let mut i: usize = 0;
    assert(all.take(0) =~= Seq::<EntryView>::empty());
    while i < entries.len()
        invariant
            i <= entries.len(),
            all == entry_views(entries@),
            out@ == top + rows(base@, all.take(i as int)),
        decreases entries.len() - i,
    {
        assert(all.take(i + 1).drop_last() =~= all.take(i as int));
        assert(all.take(i + 1).last() == entries@[i as int]@);
        push_row(&mut out, base, &entries[i]);
        i += 1;
    }
    assert(all.take(i as int) =~= all);
    out.append("</table>\n</pre></tt>\n<hr>\nGenerated on ");
    out.append(stamp);
    out.append(" UTC\n</body>\n</html>");
    assert(out@ =~= page(title@, parent@, base@, all, stamp@));
    out
}

/// Renders the listing that answers a request for `path`, with `stamp` as
/// the time of making.
pub fn render_listing(path: &str, entries: &Vec<DirEntry>, stamp: &str) -> (out: String)
    ensures
        out@ == listing_text(path@, entry_views(entries@), stamp@),
{
    let parent = parent_link(path);
    let base = link_base(path);
    render_page(path, parent.as_str(), base.as_str(), entries, stamp)
}

/// Renders the listing that answers a request for `path` now: the time of
/// making is a moment of the calendar, read from the clock. The year is
/// written as long as the year of the calendar fits in 32 bits; past that
/// the machine cannot write it, and the page is made without the time.
pub fn generate_listing(path: &str, entries: &Vec<DirEntry>) -> (out: String)
    ensures
        exists|now: Timestamp|
            now.on_calendar() && out@ == listing_text(
                path@,
                entry_views(entries@),
                #[trigger] now.stamp(),
            ),
{
    let now = Timestamp::now();
    let stamp = now.to_stamp();
    render_listing(path, entries, stamp.as_str())
}

/// The rows of two runs of entries, one after the other, are the rows of
/// the first run followed by the rows of the second.
pub proof fn lemma_rows_concat(base: Seq<char>, first: Seq<EntryView>, second: Seq<EntryView>)
    ensures
        rows(base, first + second) == rows(base, first) + rows(base, second),
    decreases second.len(),
{
    if second.len() == 0 {
        assert(first + second =~= first);
        assert(rows(base, first) + rows(base, second) =~= rows(base, first));
    } else {
        assert((first + second).drop_last() =~= first + second.drop_last());
        lemma_rows_concat(base, first, second.drop_last());
        assert(rows(base, first + second) =~= rows(base, first) + rows(base, second));
    }
}

/// A listing holds one row for every entry, in the entries' order: the
/// row of the entry at `i` stands after the rows of the entries before it
/// and before the rows of those after it, and nothing else stands between
/// the parent link and the end of the table.
pub proof fn lemma_one_row_for_each_entry(
    title: Seq<char>,
    parent: Seq<char>,
    base: Seq<char>,
    entries: Seq<EntryView>,
    stamp: Seq<char>,
    i: int,
)
    requires
        0 <= i < entries.len(),
    ensures
        page(title, parent, base, entries, stamp) == page_top(title) + parent_row(parent) + rows(
            base,
            entries.take(i),
        ) + row(base, entries[i]) + rows(base, entries.skip(i + 1)) + page_bottom(stamp),
{
    let before = entries.take(i);
    let one = seq![entries[i]];
    let after = entries.skip(i + 1);
    assert(entries =~= before + one + after);
    lemma_rows_concat(base, before + one, after);
    lemma_rows_concat(base, before, one);
    assert(rows(base, one) =~= row(base, entries[i])) by {
        reveal_with_fuel(rows, 2);
        assert(one.last() == entries[i]);
    }
}

/// A directory without entries is listed with no rows but the parent link.
pub proof fn lemma_empty_listing(title: Seq<char>, parent: Seq<char>, base: Seq<char>, stamp: Seq<char>)
    ensures
        page(title, parent, base, Seq::empty(), stamp) == page_top(title) + parent_row(parent)
            + page_bottom(stamp),
{
    assert(page(title, parent, base, Seq::empty(), stamp) =~= page_top(title) + parent_row(parent)
        + page_bottom(stamp));
}

/// Every listing holds the link to the parent directory and the time of
/// its making.
pub proof fn lemma_listing_holds_parent_and_stamp(
    title: Seq<char>,
    parent: Seq<char>,
    base: Seq<char>,
    entries: Seq<EntryView>,
    stamp: Seq<char>,
)
    ensures
        occurs_in(page(title, parent, base, entries, stamp), parent_row(parent)),
        occurs_in(page(title, parent, base, entries, stamp), stamp),
{
    let whole = page(title, parent, base, entries, stamp);
    lemma_middle_occurs(
        page_top(title),
        parent_row(parent),
        rows(base, entries) + page_bottom(stamp),
    );
    assert(whole =~= page_top(title) + parent_row(parent) + (rows(base, entries) + page_bottom(
        stamp,
    )));
    let lead = page_top(title) + parent_row(parent) + rows(base, entries)
        + "</table>\n</pre></tt>\n<hr>\nGenerated on "@;
    lemma_middle_occurs(lead, stamp, " UTC\n</body>\n</html>"@);
    assert(whole =~= lead + stamp + " UTC\n</body>\n</html>"@);
}

} // verus!
