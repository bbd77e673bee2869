//! Rendering a directory as an HTML listing.
//!
//! The page is a heading naming the directory, a link to its parent, one
//! link per entry in the order the entries were handed in (directory
//! enumeration order is platform-dependent and is kept as given), and a
//! fixed footer.

use vstd::prelude::*;

use crate::text::{
    lemma_occurs_extend_left, lemma_occurs_extend_right, lemma_occurs_self, occurs_in,
};

verus! {

/// The link rendered for one directory entry.
pub open spec fn entry_link(e: Seq<char>) -> Seq<char> {
    "<a href='"@ + e + "'>"@ + e + "</a><br/>"@
}

/// The link rendered for the parent of the listed directory.
pub open spec fn parent_link(path: Seq<char>) -> Seq<char> {
    "<a href='"@ + path + "/..'>&lt;- parent directory</a>"@
}

/// The links for a sequence of entries, in order.
pub open spec fn links_text(entries: Seq<Seq<char>>) -> Seq<char>
    decreases entries.len(),
{
    if entries.len() == 0 {
        Seq::empty()
    } else {
        links_text(entries.drop_last()) + entry_link(entries.last())
    }
}

/// The heading and parent link that open a listing.
pub open spec fn listing_header(path: Seq<char>) -> Seq<char> {
    "<h1>Index of "@ + path + "</h1>\n<hr/>"@ + parent_link(path) + "<hr/>\n"@
}

/// The fixed footer that closes a listing.
pub open spec fn listing_footer() -> Seq<char> {
    "\n<hr/><i>helloweb v0.1</i>"@
}

/// The full text of the listing of `path` with the given entries.
pub open spec fn listing_text(path: Seq<char>, entries: Seq<Seq<char>>) -> Seq<char> {
    listing_header(path) + links_text(entries) + listing_footer()
}

/// Render the HTML listing of a directory. `path` names the directory and
/// each element of `entries` is the resolved path of one of its entries.
pub fn render_listing(path: &str, entries: &Vec<String>) -> (r: String)
    ensures
        r@ == listing_text(path@, entries.deep_view()),
{
    let ghost dv = entries.deep_view();
    let mut out = String::from_str("<h1>Index of ");
    out.append(path);
    out.append("</h1>\n<hr/>");
    out.append("<a href='");
    out.append(path);
    out.append("/..'>&lt;- parent directory</a>");
    out.append("<hr/>\n");
    proof {
        assert(out@ =~= listing_header(path@) + links_text(dv.take(0)));
    }
    let mut k: usize = 0;
    while k < entries.len()
        invariant
            dv == entries.deep_view(),
            dv.len() == entries@.len(),
            k <= entries@.len(),
            out@ == listing_header(path@) + links_text(dv.take(k as int)),
        decreases entries@.len() - k,
    {
        out.append("<a href='");
        out.append(entries[k].as_str());
        out.append("'>");
        out.append(entries[k].as_str());
        out.append("</a><br/>");
        proof {
            assert(dv.take(k + 1).drop_last() =~= dv.take(k as int));
            assert(dv.take(k + 1).last() == entries@[k as int]@);
            assert(out@ =~= listing_header(path@) + links_text(dv.take(k + 1)));
        }
        k += 1;
    }
    out.append("\n<hr/><i>helloweb v0.1</i>");
    proof {
        assert(dv.take(entries@.len() as int) =~= dv);
        assert(out@ =~= listing_text(path@, dv));
    }
    out
}

/// Law: every rendered listing contains the parent-directory link.
pub proof fn lemma_listing_has_parent_link(path: Seq<char>, entries: Seq<Seq<char>>)
    ensures
        occurs_in(listing_text(path, entries), parent_link(path)),
{
    lemma_occurs_self(parent_link(path));
    lemma_occurs_extend_left(
        "<h1>Index of "@ + path + "</h1>\n<hr/>"@,
        parent_link(path),
        parent_link(path),
    );
    lemma_occurs_extend_right(
        "<h1>Index of "@ + path + "</h1>\n<hr/>"@ + parent_link(path),
        "<hr/>\n"@,
        parent_link(path),
    );
    lemma_occurs_extend_right(listing_header(path), links_text(entries), parent_link(path));
    lemma_occurs_extend_right(
        listing_header(path) + links_text(entries),
        listing_footer(),
        parent_link(path),
    );
}

/// Law: every entry handed to the lister appears in the rendered listing
/// as its own link, wherever in the enumeration order it stood.
pub proof fn lemma_listing_has_entry(path: Seq<char>, entries: Seq<Seq<char>>, i: int)
    requires
        0 <= i < entries.len(),
    ensures
        occurs_in(listing_text(path, entries), entry_link(entries[i])),
{
    lemma_links_have_entry(entries, i);
    lemma_occurs_extend_left(listing_header(path), links_text(entries), entry_link(entries[i]));
    lemma_occurs_extend_right(
        listing_header(path) + links_text(entries),
        listing_footer(),
        entry_link(entries[i]),
    );
}

/// Each entry's link occurs in the concatenation of all the links.
proof fn lemma_links_have_entry(entries: Seq<Seq<char>>, i: int)
    requires
        0 <= i < entries.len(),
    ensures
        occurs_in(links_text(entries), entry_link(entries[i])),
    decreases entries.len(),
{
    if i == entries.len() - 1 {
        lemma_occurs_self(entry_link(entries[i]));
        lemma_occurs_extend_left(
            links_text(entries.drop_last()),
            entry_link(entries[i]),
            entry_link(entries[i]),
        );
    } else {
        lemma_links_have_entry(entries.drop_last(), i);
        lemma_occurs_extend_right(
            links_text(entries.drop_last()),
            entry_link(entries.last()),
            entry_link(entries[i]),
        );
    }
}

} // verus!
