//! Snapshot planning. A snapshot of one fetched page persists the raw page
//! text as `index.html` in the page's target directory, followed by up to
//! three assets — its stylesheet, banner image and profile image — each
//! fetched from its resolved URL and written under the filename its raw
//! reference carries. Planning only derives what to write; the caller
//! performs the writes, in plan order.

use vstd::prelude::*;
use vstd::string::*;

use crate::dom::{
    attr_views, banner_img_of, profile_img_of, scrape_banner_img, scrape_profile_img,
    scrape_stylesheet_ref, stylesheet_of,
};
use crate::resolve::{join_of, resolve_url};
use crate::text::{filename_of, filename_spec};
use crate::{err_matches, ErrKind, Error};

verus! {

/// One asset to mirror: where to fetch it, and the filename to store it
/// under in the page's snapshot directory.
pub struct AssetRef {
    pub source_url: String,
    pub filename: String,
}

/// View of an asset as a pair of character sequences: (source URL, filename).
pub open spec fn asset_view(a: AssetRef) -> (Seq<char>, Seq<char>) {
    (a.source_url@, a.filename@)
}

/// Views of an asset list, in order.
pub open spec fn assets_view(s: Seq<AssetRef>) -> Seq<(Seq<char>, Seq<char>)> {
    s.map_values(|a: AssetRef| asset_view(a))
}

/// View of an optional asset.
pub open spec fn opt_asset_view(a: Option<AssetRef>) -> Option<(Seq<char>, Seq<char>)> {
    match a {
        None => None,
        Some(x) => Some(asset_view(x)),
    }
}

/// The snapshot of one page under directory `dir`: the raw page text goes to
/// `dir/index.html` first, then each asset is fetched and written to
/// `dir/<filename>`, in list order.
pub struct PagePlan {
    pub dir: String,
    pub assets: Vec<AssetRef>,
}

/// What one optional element reference contributes to the plan: nothing when
/// the element is absent; invalid HTML when its reference attribute is
/// missing, or when that attribute carries no filename; otherwise the
/// resolved URL (against the page's own URL) and the filename.
pub open spec fn asset_plan_spec(raw: Option<Option<Seq<char>>>, page_url: Seq<char>) -> Result<
    Option<(Seq<char>, Seq<char>)>,
    ErrKind,
> {
    match raw {
        None => Ok(None),
        Some(None) => Err(ErrKind::InvalidHtml),
        Some(Some(a)) => match filename_spec(a) {
            None => Err(ErrKind::InvalidHtml),
            Some(f) => match join_of(page_url, a) {
                None => Err(ErrKind::Url),
                Some(u) => Ok(Some((u, f))),
            },
        },
    }
}

/// An optional asset as a zero- or one-element list.
pub open spec fn opt_to_seq(o: Option<(Seq<char>, Seq<char>)>) -> Seq<(Seq<char>, Seq<char>)> {
    match o {
        None => Seq::empty(),
        Some(x) => seq![x],
    }
}

/// The asset list of one page's snapshot: its stylesheet, banner image and
/// profile image, in that order; the first failing derivation aborts.
pub open spec fn page_plan_spec(html: Seq<char>, page_url: Seq<char>) -> Result<
    Seq<(Seq<char>, Seq<char>)>,
    ErrKind,
> {
    match asset_plan_spec(stylesheet_of(html), page_url) {
        Err(k) => Err(k),
        Ok(s1) => match asset_plan_spec(banner_img_of(html), page_url) {
            Err(k) => Err(k),
            Ok(s2) => match asset_plan_spec(profile_img_of(html), page_url) {
                Err(k) => Err(k),
                Ok(s3) => Ok(opt_to_seq(s1) + opt_to_seq(s2) + opt_to_seq(s3)),
            },
        },
    }
}

/// A page that references no stylesheet and no images plans no asset at all:
/// its snapshot writes only `index.html`.
pub proof fn lemma_no_assets_only_html(html: Seq<char>, page_url: Seq<char>)
    requires
        stylesheet_of(html) is None,
        banner_img_of(html) is None,
        profile_img_of(html) is None,
    ensures
        page_plan_spec(html, page_url) matches Ok(a) && a.len() == 0,
{
    assert(page_plan_spec(html, page_url)->Ok_0 =~= Seq::<(Seq<char>, Seq<char>)>::empty());
}

fn plan_asset(raw: Option<Option<String>>, page_url: &str, missing_attr: &str) -> (r: Result<
    Option<AssetRef>,
    Error,
>)
    ensures
        match r {
            Ok(a) => asset_plan_spec(attr_views(raw), page_url@) == Ok::<_, ErrKind>(
                opt_asset_view(a),
            ),
            Err(e) => asset_plan_spec(attr_views(raw), page_url@) matches Err(k) && err_matches(
                e,
                k,
            ),
        },
{
    match raw {
        None => Ok(None),
        Some(None) => Err(Error::InvalidHtml(String::from_str(missing_attr))),
        Some(Some(a)) => match filename_of(a.as_str()) {
            Err(e) => Err(e),
            Ok(f) => match resolve_url(page_url, a.as_str()) {
                Err(m) => Err(Error::Url(m)),
                Ok(u) => Ok(Some(AssetRef { source_url: u, filename: f })),
            },
        },
    }
}

/// Plans the snapshot of one page into directory `dir`: derives the page's
/// asset list from its text, resolving each raw reference against the
/// page's own URL `page_url`.
pub fn plan_page(html: &str, page_url: &str, dir: String) -> (r: Result<PagePlan, Error>)
    ensures
        match r {
            Ok(p) => page_plan_spec(html@, page_url@) matches Ok(a) && assets_view(p.assets@) == a
                && p.dir == dir,
            Err(e) => page_plan_spec(html@, page_url@) matches Err(k) && err_matches(e, k),
        },
{
    let st = scrape_stylesheet_ref(html);
    let s1 = match plan_asset(st, page_url, "Missing href for stylesheet link") {
        Ok(x) => x,
        Err(e) => {
            return Err(e);
        },
    };
    let bn = scrape_banner_img(html);
    let s2 = match plan_asset(bn, page_url, "Missing src for img") {
        Ok(x) => x,
        Err(e) => {
            return Err(e);
        },
    };
    let pf = scrape_profile_img(html);
    let s3 = match plan_asset(pf, page_url, "Missing src for img") {
        Ok(x) => x,
        Err(e) => {
            return Err(e);
        },
    };
    let mut assets: Vec<AssetRef> = Vec::new();
    if let Some(a) = s1 {
        assets.push(a);
    }
    if let Some(a) = s2 {
        assets.push(a);
    }
    if let Some(a) = s3 {
        assets.push(a);
    }
    proof {
        assert(assets_view(assets@) =~= page_plan_spec(html@, page_url@)->Ok_0);
    }
    Ok(PagePlan { dir, assets })
}

} // verus!
