//! Finding links in message text (through `linkify`).

use vstd::prelude::*;

verus! {

/// The links `linkify` finds in `text` with its default settings (URLs with
/// a scheme, and e-mail addresses), in order, each as its text.
pub uninterp spec fn links_in(text: Seq<char>) -> Seq<Seq<char>>;

/// `linkify::LinkFinder::new().links(text)`, each link taken by
/// `Link::as_str`. The list is named.
#[verifier::external_body]
pub(crate) fn find_links(text: &str) -> (r: Vec<String>)
    ensures
        r@.map_values(|s: String| s@) == links_in(text@),
{
    linkify::LinkFinder::new().links(text).map(|link| link.as_str().to_string()).collect()
}

/// The first link in `text`, if it holds any.
pub fn first_link(text: &str) -> (r: Option<String>)
    ensures
        r is None <==> links_in(text@).len() == 0,
        r matches Some(l) ==> l@ == links_in(text@)[0],
{
    let mut found = find_links(text);
    let ghost all = found@;
    proof {
        assert(all.map_values(|s: String| s@).len() == all.len());
    }
    if found.len() == 0 {
        None
    } else {
        let first = found.remove(0);
        proof {
            assert(all.map_values(|s: String| s@)[0] == all[0]@);
        }
        Some(first)
    }
}

} // verus!
