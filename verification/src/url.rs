//! Request paths: how escaped spaces are decoded, which filesystem paths a
//! request stands for, and where the links of a listing point.

use vstd::prelude::*;
use crate::text::{chars_of, push_chars};

verus! {

/// The escape `%20` stands in `s` at position `i`.
pub open spec fn escape_at(s: Seq<char>, i: int) -> bool {
    &&& 0 <= i
    &&& i + 3 <= s.len()
    &&& s[i] == '%'
    &&& s[i + 1] == '2'
    &&& s[i + 2] == '0'
}

/// `s` with every `%20` replaced by a space, read from left to right. No
/// other escape is decoded.
pub open spec fn decoded(s: Seq<char>) -> Seq<char>
    decreases s.len(),
{
    if s.len() == 0 {
        Seq::empty()
    } else if escape_at(s, 0) {
        seq![' '] + decoded(s.skip(3))
    } else {
        seq![s[0]] + decoded(s.skip(1))
    }
}

/// Decodes the escaped spaces of a request path.
pub fn decode(url: &str) -> (out: String)
    ensures
        out@ == decoded(url@),
{
    let cs = chars_of(url);
    let mut out = String::new();
    let mut i: usize = 0;
    assert(cs@.skip(0) =~= cs@);
    while i < cs.len()
        invariant
            i <= cs.len(),
            cs@ == url@,
            decoded(url@) == out@ + decoded(cs@.skip(i as int)),
        decreases cs.len() - i,
    {
        let ghost rest = cs@.skip(i as int);
        if cs.len() - i >= 3 && cs[i] == '%' && cs[i + 1] == '2' && cs[i + 2] == '0' {
            assert(escape_at(rest, 0));
            assert(rest.skip(3) =~= cs@.skip(i + 3));
            out.push(' ');
            i += 3;
        } else {
            assert(!escape_at(rest, 0));
            assert(rest.skip(1) =~= cs@.skip(i + 1));
            out.push(cs[i]);
            i += 1;
        }
    }
    out
}

/// A text in which no `%20` stands is its own decoding: every other
/// escape passes through unchanged.
pub proof fn lemma_decoded_without_escape(s: Seq<char>)
    requires
        forall|i: int| !escape_at(s, i),
    ensures
        decoded(s) == s,
    decreases s.len(),
{
    if s.len() > 0 {
        assert(!escape_at(s, 0));
        let rest = s.skip(1);
        assert forall|i: int| !escape_at(rest, i) by {
            assert(!escape_at(s, i + 1));
        }
        lemma_decoded_without_escape(rest);
        assert(seq![s[0]] + rest =~= s);
    }
}

/// Every `%20` becomes one space, wherever it stands: what is before it
/// and what is after it are decoded apart.
pub proof fn lemma_decoded_space(before: Seq<char>, after: Seq<char>)
    ensures
        decoded(before + seq!['%', '2', '0'] + after) == decoded(before) + seq![' '] + decoded(
            after,
        ),
    decreases before.len(),
{
    let escape = seq!['%', '2', '0'];
    let whole = before + escape + after;
    if before.len() == 0 {
        assert(escape_at(whole, 0));
        assert(whole.skip(3) =~= after);
        assert(decoded(before) + seq![' '] + decoded(after) =~= seq![' '] + decoded(after));
    } else if escape_at(whole, 0) {
        assert(whole[0] == before[0]);
        if before.len() == 1 {
            assert(whole[1] == escape[0]);
        } else if before.len() == 2 {
            assert(whole[1] == before[1]);
            assert(whole[2] == escape[0]);
        } else {
            assert(whole[1] == before[1]);
            assert(whole[2] == before[2]);
        }
        assert(escape_at(before, 0));
        let rest = before.skip(3);
        assert(whole.skip(3) =~= rest + escape + after);
        lemma_decoded_space(rest, after);
        assert(seq![' '] + (decoded(rest) + seq![' '] + decoded(after)) =~= (seq![' '] + decoded(
            rest,
        )) + seq![' '] + decoded(after));
    } else {
        assert(whole[0] == before[0]);
        if before.len() >= 3 {
            assert(whole[1] == before[1]);
            assert(whole[2] == before[2]);
        }
        assert(!escape_at(before, 0));
        let rest = before.skip(1);
        assert(whole.skip(1) =~= rest + escape + after);
        lemma_decoded_space(rest, after);
        assert(seq![before[0]] + (decoded(rest) + seq![' '] + decoded(after)) =~= (seq![before[0]]
            + decoded(rest)) + seq![' '] + decoded(after));
    }
}

/// Decoding is done piece by piece: where the first piece does not end in
/// the beginning of an escape, the pieces can be decoded apart.
pub proof fn lemma_decoded_concat(first: Seq<char>, second: Seq<char>)
    requires
        first.len() >= 1 ==> first[first.len() - 1] != '%',
        first.len() >= 2 ==> !(first[first.len() - 2] == '%' && first[first.len() - 1] == '2'),
    ensures
        decoded(first + second) == decoded(first) + decoded(second),
    decreases first.len(),
{
    let whole = first + second;
    if first.len() == 0 {
        assert(whole =~= second);
        assert(decoded(first) + decoded(second) =~= decoded(second));
    } else if escape_at(whole, 0) {
        assert(first.len() >= 3);
        assert(escape_at(first, 0));
        assert(whole.skip(3) =~= first.skip(3) + second);
        lemma_decoded_concat(first.skip(3), second);
        assert(seq![' '] + (decoded(first.skip(3)) + decoded(second)) =~= (seq![' '] + decoded(
            first.skip(3),
        )) + decoded(second));
    } else {
        assert(whole[0] == first[0]);
        assert(!escape_at(first, 0));
        assert(whole.skip(1) =~= first.skip(1) + second);
        lemma_decoded_concat(first.skip(1), second);
        assert(seq![first[0]] + (decoded(first.skip(1)) + decoded(second)) =~= (seq![first[0]]
            + decoded(first.skip(1))) + decoded(second));
    }
}

/// The path, relative to the served directory, of what a request asks
/// for: a dot, then the decoded request path.
pub open spec fn lookup_text(url: Seq<char>) -> Seq<char> {
    seq!['.'] + decoded(url)
}

/// The filesystem path to look up for a request.
pub fn lookup_path(url: &str) -> (out: String)
    ensures
        out@ == lookup_text(url@),
{
    let mut out = String::new();
    out.push('.');
    let rest = decode(url);
    out.append(rest.as_str());
    out
}

/// An escaped space in a request path is a space in the path that is
/// looked up on the filesystem.
pub proof fn lemma_lookup_decodes_space(before: Seq<char>, after: Seq<char>)
    ensures
        lookup_text(before + seq!['%', '2', '0'] + after) == lookup_text(before) + seq![' ']
            + decoded(after),
{
    lemma_decoded_space(before, after);
    assert(seq!['.'] + (decoded(before) + seq![' '] + decoded(after)) =~= seq!['.'] + decoded(
        before,
    ) + seq![' '] + decoded(after));
}

/// A request path without an escaped space is looked up as it stands,
/// whatever other escapes it holds.
pub proof fn lemma_lookup_without_escape(url: Seq<char>)
    requires
        forall|i: int| !escape_at(url, i),
    ensures
        lookup_text(url) == seq!['.'] + url,
{
    lemma_decoded_without_escape(url);
}

/// `dir`, ended by one slash unless it ends in one already.
pub open spec fn with_slash(dir: Seq<char>) -> Seq<char> {
    if dir.len() > 0 && dir.last() == '/' {
        dir
    } else {
        dir.push('/')
    }
}

/// The path of the index file of the directory that a request asks for:
/// the file of that name inside the directory.
pub open spec fn index_text(url: Seq<char>, index: Seq<char>) -> Seq<char> {
    seq!['.'] + with_slash(decoded(url)) + index
}

/// Appends `dir` to `out`, ended by one slash.
fn push_with_slash(out: &mut String, dir: &str)
    ensures
        final(out)@ == old(out)@ + with_slash(dir@),
{
    let cs = chars_of(dir);
    out.append(dir);
    if cs.len() == 0 || cs[cs.len() - 1] != '/' {
        out.push('/');
    }
}

/// The filesystem path of the index file for a request.
pub fn index_path(url: &str, index: &str) -> (out: String)
    ensures
        out@ == index_text(url@, index@),
{
    let mut out = String::new();
    out.push('.');
    let dir = decode(url);
    push_with_slash(&mut out, dir.as_str());
    out.append(index);
    out
}

/// `s` without the slashes and `./` segments that it begins with.
pub open spec fn without_lead(s: Seq<char>) -> Seq<char>
    decreases s.len(),
{
    if s.len() >= 1 && s[0] == '/' {
        without_lead(s.skip(1))
    } else if s.len() >= 2 && s[0] == '.' && s[1] == '/' {
        without_lead(s.skip(2))
    } else {
        s
    }
}

/// What the links to the entries of a directory begin with: one slash,
/// then the decoded request path without the slashes and `./` segments
/// that it begins with, ended by one slash. The entry's name follows.
pub open spec fn link_base_text(url: Seq<char>) -> Seq<char> {
    seq!['/'] + without_lead(with_slash(decoded(url)))
}

/// The beginning of the links to the entries of the directory that a
/// request asks for.
pub fn link_base(url: &str) -> (out: String)
    ensures
        out@ == link_base_text(url@),
{
    let dir = decode(url);
    let mut ended = String::new();
    push_with_slash(&mut ended, dir.as_str());
    let cs = chars_of(ended.as_str());
    let ghost whole = with_slash(decoded(url@));
    assert(cs@ =~= whole);
    let mut i: usize = 0;
    assert(cs@.skip(0) =~= cs@);
    loop
        invariant
            i <= cs.len(),
            cs@ == whole,
            without_lead(whole) == without_lead(cs@.skip(i as int)),
        ensures
            i <= cs.len(),
            without_lead(whole) == cs@.skip(i as int),
        decreases cs.len() - i,
    {
        let ghost rest = cs@.skip(i as int);
        if i < cs.len() && cs[i] == '/' {
            assert(rest.skip(1) =~= cs@.skip(i + 1));
            i += 1;
        } else if cs.len() - i >= 2 && cs[i] == '.' && cs[i + 1] == '/' {
            assert(rest.skip(2) =~= cs@.skip(i + 2));
            i += 2;
        } else {
            break ;
        }
    }
    let mut out = String::new();
    out.push('/');
    push_chars(&mut out, &cs, i, cs.len());
    assert(cs@.subrange(i as int, cs.len() as int) =~= cs@.skip(i as int));
    out
}

/// What `Path::parent` of the standard library returns for a path, as
/// text: the path without its last component, or nothing where the path
/// ends in a root or is empty.
pub uninterp spec fn path_parent(path: Seq<char>) -> Option<Seq<char>>;

/// `Path::parent` of the standard library, on a path given as text and
/// with its result turned back into text. Nothing is claimed of the
/// result but that it is the one that `path_parent` names.
#[verifier::external_body]
fn parent_of(path: &str) -> (r: Option<String>)
    ensures
        match r {
            Some(p) => path_parent(path@) == Some(p@),
            None => path_parent(path@) is None,
        },
{
    match std::path::Path::new(path).parent() {
        Some(p) => Some(p.display().to_string()),
        None => None,
    }
}

/// Where the parent link of a listing points for a parent as the path
/// library gave it: at that parent, and at `..` where there is none.
pub open spec fn parent_or_up(parent: Option<Seq<char>>) -> Seq<char> {
    match parent {
        Some(p) => p,
        None => ".."@,
    }
}

/// Chooses the target of the parent link from what the path library said
/// of the request path.
pub fn parent_target(parent: Option<String>) -> (out: String)
    ensures
        out@ == parent_or_up(
            match parent {
                Some(p) => Some(p@),
                None => None,
            },
        ),
{
    match parent {
        Some(p) => p,
        None => "..".to_owned(),
    }
}

/// Where the parent link of the listing for `path` points.
pub open spec fn parent_text(path: Seq<char>) -> Seq<char> {
    parent_or_up(path_parent(path))
}

/// The target of the parent link of the listing for a request path: the
/// path without its last segment, and `..` where it has no parent.
pub fn parent_link(path: &str) -> (out: String)
    ensures
        out@ == parent_text(path@),
{
    parent_target(parent_of(path))
}

} // verus!
