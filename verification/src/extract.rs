//! Turning raw anchor lists into links. Every anchor must carry a `href`;
//! one without it aborts extraction, and document order is preserved.

use vstd::prelude::*;
use vstd::string::*;

use crate::dom::anchor_views;
use crate::Error;

verus! {

/// One extracted link: the raw (possibly relative) href and the element's
/// inner markup, used as its label.
pub struct Link {
    pub url: String,
    pub label: String,
}

/// View of a link as a pair of character sequences: (href, label).
pub open spec fn link_view(l: Link) -> (Seq<char>, Seq<char>) {
    (l.url@, l.label@)
}

/// Views of a link list, in order.
pub open spec fn links_view(s: Seq<Link>) -> Seq<(Seq<char>, Seq<char>)> {
    s.map_values(|l: Link| link_view(l))
}

/// Every raw anchor carries a href attribute.
pub open spec fn anchors_ok(raws: Seq<(Option<Seq<char>>, Seq<char>)>) -> bool {
    forall|i: int| 0 <= i < raws.len() ==> raws[i].0 is Some
}

/// The links a fully-attributed anchor list yields, in document order.
pub open spec fn links_of(raws: Seq<(Option<Seq<char>>, Seq<char>)>) -> Seq<
    (Seq<char>, Seq<char>),
> {
    raws.map_values(
        |a: (Option<Seq<char>>, Seq<char>)|
            (
                match a.0 {
                    Some(u) => u,
                    None => Seq::<char>::empty(),
                },
                a.1,
            ),
    )
}

/// An anchor list yields exactly one link per anchor, in document order:
/// the extracted list never drops, duplicates or reorders an entry.
pub proof fn lemma_one_link_per_anchor(raws: Seq<(Option<Seq<char>>, Seq<char>)>)
    ensures
        links_of(raws).len() == raws.len(),
        forall|i: int| 0 <= i < raws.len() ==> (#[trigger] links_of(raws)[i]).1 == raws[i].1,
        forall|i: int|
            0 <= i < raws.len() && raws[i].0 is Some ==> (#[trigger] links_of(raws)[i]).0
                == raws[i].0->0,
{
}

/// Extracts the link list from raw anchors; an anchor without a href is
/// invalid HTML and aborts the whole extraction.
#[verifier::loop_isolation(false)]
pub fn extract_links(raws: Vec<(Option<String>, String)>) -> (r: Result<Vec<Link>, Error>)
    ensures
        match r {
            Ok(v) => anchors_ok(anchor_views(raws@)) && links_view(v@) == links_of(
                anchor_views(raws@),
            ),
            Err(e) => !anchors_ok(anchor_views(raws@)) && e is InvalidHtml,
        },
{
    let ghost views = anchor_views(raws@);
    let mut out: Vec<Link> = Vec::new();
    let mut i: usize = 0;
    while i < raws.len()
        invariant
            i <= raws.len(),
            out@.len() == i,
            forall|j: int| 0 <= j < i ==> (#[trigger] views[j]).0 is Some,
            forall|j: int| 0 <= j < i ==> #[trigger] link_view(out@[j]) == links_of(views)[j],
        decreases raws.len() - i,
    {
        match &raws[i].0 {
            Some(u) => {
                let l = Link { url: u.clone(), label: raws[i].1.clone() };
                out.push(l);
            },
            None => {
                proof {
                    assert(views[i as int].0 is None);
                }
                return Err(Error::InvalidHtml(String::from_str("Missing href for link")));
            },
        }
        i = i + 1;
    }
    proof {
        assert(links_view(out@) =~= links_of(views));
    }
    Ok(out)
}

} // verus!
