//! Rendering of a delivery line for a feed item.

use vstd::prelude::*;
use vstd::string::*;

use crate::message::FeedItem;

verus! {

/// The delivery line for an item: its title, or `default_title` when the
/// item carries none, followed by ` updated.`.
pub open spec fn rendered_line(item: FeedItem) -> Seq<char> {
    (match item.title {
        Some(t) => t@,
        None => "default_title"@,
    }) + " updated."@
}

/// Render the delivery line for one feed item. The template argument is kept
/// for a future pluggable delivery sink; the current line ignores it.
pub fn render(template: &str, item: FeedItem) -> (r: String)
    ensures
        r@ == rendered_line(item),
{
    let ghost item0 = item;
    let mut line = match item.title {
        Some(t) => t,
        None => "default_title".to_owned(),
    };
    line.append(" updated.");
    proof {
        assert(line@ =~= rendered_line(item0));
    }
    line
}

} // verus!
