//! The two-level walk. The walker is a state machine its caller drives:
//! it hands out the next URL to fetch, consumes the fetched page text, and
//! yields rows, heading warnings and snapshot plans. Every fetch and every
//! filesystem write stays with the caller; every decision is made — and
//! stated — here.
//!
//! Order: the index page first, then each candidate user in document order.
//! One user's page is fully consumed before the next user's URL is handed
//! out. Any failure ends the whole walk.

use vstd::pervasive::unreached;
use vstd::prelude::*;
use vstd::string::*;

use crate::dom::{
    body_anchors_of, heading_of, main_anchors_of, scrape_body_anchors, scrape_heading,
    scrape_main_anchors, trim_of, trim_str,
};
use crate::extract::{anchors_ok, extract_links, link_view, links_of, links_view, Link};
use crate::plan::{assets_view, page_plan_spec, plan_page, PagePlan};
use crate::resolve::{join_of, resolve_url};
use crate::text::{screen_name_of, screen_name_spec};
use crate::{err_matches, ErrKind, Error};

verus! {

/// One output row: a user and one of their titled links. The `url` field
/// carries the title link's raw href, exactly as the page wrote it.
pub struct Row {
    pub screen_name: String,
    pub display_name: String,
    pub title: String,
    pub url: String,
}

/// View of a row as character sequences.
pub struct RowV {
    pub screen_name: Seq<char>,
    pub display_name: Seq<char>,
    pub title: Seq<char>,
    pub url: Seq<char>,
}

pub open spec fn row_view(r: Row) -> RowV {
    RowV {
        screen_name: r.screen_name@,
        display_name: r.display_name@,
        title: r.title@,
        url: r.url@,
    }
}

pub open spec fn rows_view(s: Seq<Row>) -> Seq<RowV> {
    s.map_values(|r: Row| row_view(r))
}

/// One candidate user: the screen name its index href carries, the display
/// name the index page shows, and the absolute URL of its page.
pub struct UserRef {
    pub screen_name: String,
    pub display_name: String,
    pub url: String,
}

/// View of a user as character sequences.
pub struct UserV {
    pub screen_name: Seq<char>,
    pub display_name: Seq<char>,
    pub url: Seq<char>,
}

pub open spec fn user_view(u: UserRef) -> UserV {
    UserV { screen_name: u.screen_name@, display_name: u.display_name@, url: u.url@ }
}

/// What one index link determines about its user: the absolute page URL —
/// the raw href resolved against the site base — and the screen name the
/// raw href carries. Resolution is tried first.
pub open spec fn user_of(link: (Seq<char>, Seq<char>), base: Seq<char>) -> Result<UserV, ErrKind> {
    match join_of(base, link.0) {
        None => Err(ErrKind::Url),
        Some(u) => match screen_name_spec(link.0) {
            None => Err(ErrKind::InvalidHtml),
            Some(sn) => Ok(UserV { screen_name: sn, display_name: link.1, url: u }),
        },
    }
}

/// The rows one user's page yields: one per main-content link, in document
/// order, each carrying the user's screen name and display name, the
/// link's label as title and its raw href as URL.
pub open spec fn rows_spec(u: UserV, titles: Seq<(Seq<char>, Seq<char>)>) -> Seq<RowV> {
    titles.map_values(
        |t: (Seq<char>, Seq<char>)|
            RowV {
                screen_name: u.screen_name,
                display_name: u.display_name,
                title: t.1,
                url: t.0,
            },
    )
}

/// The page's snapshot plan when snapshotting is enabled; the trivial empty
/// plan when it is disabled.
pub open spec fn page_plan_if(snap: bool, html: Seq<char>, page_url: Seq<char>) -> Result<
    Seq<(Seq<char>, Seq<char>)>,
    ErrKind,
> {
    if snap {
        page_plan_spec(html, page_url)
    } else {
        Ok(Seq::empty())
    }
}

/// A non-fatal validation finding: the page's trimmed heading text differs
/// from the display name the index page gave.
pub struct HeadingMismatch {
    pub expected: String,
    pub found: String,
}

/// What consuming one fetched page produced: the rows it yields (none for
/// the index page), an optional heading warning, and the page's snapshot
/// plan — absent whenever snapshotting is disabled.
pub struct PageOutcome {
    pub rows: Vec<Row>,
    pub warning: Option<HeadingMismatch>,
    pub snapshot: Option<PagePlan>,
}

/// Where the walk stands.
#[derive(Clone, Copy)]
pub enum Phase {
    /// The index page is to be fetched and fed next.
    AwaitingIndex,
    /// The index page is consumed and `next` users are fully processed.
    ReadyForUser { next: usize },
    /// User `idx` is current: its page is to be fetched and fed next.
    AwaitingUser { idx: usize },
    /// A fatal error ended the walk.
    Failed,
}

/// The walk's state. The caller fetches what the walker asks for and feeds
/// the page text back; the walker never performs I/O itself.
pub struct Walker {
    /// The site base URL; index links resolve against it.
    pub base_url: String,
    /// The run's snapshot directory; `None` disables all snapshotting.
    pub run_dir: Option<String>,
    /// The index page's links, one candidate user each, in document order.
    pub links: Vec<Link>,
    /// The user whose page is awaited.
    pub current: Option<UserRef>,
    pub phase: Phase,
}

impl Walker {
    /// The walk's invariant: indices stay within the link list, and the
    /// awaited user is exactly the one its index link determines.
    pub open spec fn wf(self) -> bool {
        &&& (self.phase matches Phase::ReadyForUser { next } ==> next <= self.links@.len())
        &&& (self.phase matches Phase::AwaitingUser { idx } ==> {
            &&& idx < self.links@.len()
            &&& self.current matches Some(c) && user_of(
                link_view(self.links@[idx as int]),
                self.base_url@,
            ) == Ok::<UserV, ErrKind>(user_view(c))
        })
    }

    /// Starts a walk from `base_url`. `run_dir`, when given, is the run's
    /// timestamped snapshot directory; its absence disables snapshotting,
    /// and the walk then plans no write at all.
    pub fn new(base_url: String, run_dir: Option<String>) -> (w: Walker)
        ensures
            w.base_url == base_url,
            w.run_dir == run_dir,
            w.links@.len() == 0,
            w.phase is AwaitingIndex,
            w.wf(),
    {
        Walker { base_url, run_dir, links: Vec::new(), current: None, phase: Phase::AwaitingIndex }
    }

    /// Consumes the fetched index page: plans its snapshot (directly under
    /// the run directory) and extracts the candidate user list from its
    /// top-level anchors. On success the walk holds exactly one candidate
    /// per anchor, in document order.
    pub fn feed_index(&mut self, html: &str) -> (r: Result<Option<PagePlan>, Error>)
        requires
            old(self).wf(),
            old(self).phase is AwaitingIndex,
        ensures
            final(self).wf(),
            final(self).base_url == old(self).base_url,
            final(self).run_dir == old(self).run_dir,
            match r {
                Ok(plan) => {
                    &&& (match old(self).run_dir {
                        None => plan is None,
                        Some(d) => {
                            &&& plan matches Some(p)
                            &&& p.dir == d
                            &&& page_plan_spec(html@, old(self).base_url@) matches Ok(a)
                                && assets_view(p.assets@) == a
                        },
                    })
                    &&& anchors_ok(body_anchors_of(html@))
                    &&& links_view(final(self).links@) == links_of(body_anchors_of(html@))
                    &&& final(self).phase matches Phase::ReadyForUser { next } && next == 0
                },
                Err(e) => {
                    &&& (match page_plan_if(
                        old(self).run_dir is Some,
                        html@,
                        old(self).base_url@,
                    ) {
                        Err(k) => err_matches(e, k),
                        Ok(_) => !anchors_ok(body_anchors_of(html@)) && e is InvalidHtml,
                    })
                    &&& final(self).phase is Failed
                },
            },
    {
        let dir_opt: Option<String> = match &self.run_dir {
            Some(d) => Some(d.clone()),
            None => None,
        };
        let plan: Option<PagePlan> = match dir_opt {
            None => None,
            Some(d) => match plan_page(html, self.base_url.as_str(), d) {
                Ok(p) => Some(p),
                Err(e) => {
                    self.phase = Phase::Failed;
                    return Err(e);
                },
            },
        };
        let raws = scrape_body_anchors(html);
        match extract_links(raws) {
            Ok(v) => {
                self.links = v;
                self.phase = Phase::ReadyForUser { next: 0 };
                Ok(plan)
            },
            Err(e) => {
                self.phase = Phase::Failed;
                Err(e)
            },
        }
    }

    /// Advances to the next candidate user and yields the URL of the page
    /// to fetch for it, or `None` once every candidate is processed.
    /// Deriving the user — resolving its raw href against the base URL,
    /// then taking the href's screen name — can fail the walk.
    pub fn next_user(&mut self) -> (r: Result<Option<String>, Error>)
        requires
            old(self).wf(),
            old(self).phase matches Phase::ReadyForUser { .. },
        ensures
            final(self).wf(),
            final(self).base_url == old(self).base_url,
            final(self).run_dir == old(self).run_dir,
            final(self).links == old(self).links,
            ({
                let i = old(self).phase->next;
                if i == old(self).links@.len() {
                    r matches Ok(None) && *final(self) == *old(self)
                } else {
                    match user_of(link_view(old(self).links@[i as int]), old(self).base_url@) {
                        Ok(u) => {
                            &&& r matches Ok(Some(url)) && url@ == u.url
                            &&& final(self).phase matches Phase::AwaitingUser { idx } && idx == i
                            &&& final(self).current matches Some(c) && user_view(c) == u
                        },
                        Err(k) => r matches Err(e) && err_matches(e, k) && final(self).phase is Failed,
                    }
                }
            }),
    {
        let i = match self.phase {
            Phase::ReadyForUser { next } => next,
            _ => unreached(),
        };
        if i == self.links.len() {
            return Ok(None);
        }
        let raw = self.links[i].url.clone();
        let label = self.links[i].label.clone();
        match resolve_url(self.base_url.as_str(), raw.as_str()) {
            Err(m) => {
                self.phase = Phase::Failed;
                Err(Error::Url(m))
            },
            Ok(u) => match screen_name_of(raw.as_str()) {
                Err(e) => {
                    self.phase = Phase::Failed;
                    Err(e)
                },
                Ok(sn) => {
                    let ret = u.clone();
                    self.current = Some(UserRef { screen_name: sn, display_name: label, url: u });
                    self.phase = Phase::AwaitingUser { idx: i };
                    Ok(Some(ret))
                },
            },
        }
    }

    /// Consumes the current user's fetched page: plans its snapshot (under
    /// `<run_dir>/<screen_name>` when snapshotting is enabled), validates
    /// its heading against the display name — a mismatch is a warning,
    /// never a failure — and yields one row per main-content link, in
    /// document order.
    #[verifier::loop_isolation(false)]
    pub fn feed_user(&mut self, html: &str) -> (r: Result<PageOutcome, Error>)
        requires
            old(self).wf(),
            old(self).phase matches Phase::AwaitingUser { .. },
        ensures
            final(self).wf(),
            final(self).base_url == old(self).base_url,
            final(self).run_dir == old(self).run_dir,
            final(self).links == old(self).links,
            ({
                let idx = old(self).phase->idx;
                let u = user_view(old(self).current->0);
                match r {
                    Ok(out) => {
                        &&& (match old(self).run_dir {
                            None => out.snapshot is None,
                            Some(d) => {
                                &&& out.snapshot matches Some(p)
                                &&& p.dir@ == d@ + "/"@ + u.screen_name
                                &&& page_plan_spec(html@, u.url) matches Ok(a) && assets_view(
                                    p.assets@,
                                ) == a
                            },
                        })
                        &&& (match heading_of(html@) {
                            Some(t) => {
                                &&& ((out.warning is Some) <==> trim_of(t) != u.display_name)
                                &&& (out.warning matches Some(w) ==> w.expected@ == u.display_name
                                    && w.found@ == trim_of(t))
                            },
                            None => out.warning is None,
                        })
                        &&& anchors_ok(main_anchors_of(html@))
                        &&& rows_view(out.rows@) == rows_spec(u, links_of(main_anchors_of(html@)))
                        &&& final(self).phase matches Phase::ReadyForUser { next } && next == idx + 1
                    },
                    Err(e) => {
                        &&& (match page_plan_if(old(self).run_dir is Some, html@, u.url) {
                            Err(k) => err_matches(e, k),
                            Ok(_) => !anchors_ok(main_anchors_of(html@)) && e is InvalidHtml,
                        })
                        &&& final(self).phase is Failed
                    },
                }
            }),
    {
        let idx = match self.phase {
            Phase::AwaitingUser { idx } => idx,
            _ => unreached(),
        };
        let n_links = self.links.len();
        proof {
            assert(idx < n_links);
        }
        let next_i = idx + 1;
        let cur = match &self.current {
            Some(c) => UserRef {
                screen_name: c.screen_name.clone(),
                display_name: c.display_name.clone(),
                url: c.url.clone(),
            },
            None => unreached(),
        };
        let ghost u_spec = user_view(old(self).current->0);
        proof {
            assert(user_view(cur) == u_spec);
        }
        let dir_opt: Option<String> = match &self.run_dir {
            Some(d) => Some(d.clone()),
            None => None,
        };
        let snapshot: Option<PagePlan> = match dir_opt {
            None => None,
            Some(d) => {
                let dir = d.concat("/").concat(cur.screen_name.as_str());
                match plan_page(html, cur.url.as_str(), dir) {
                    Ok(p) => Some(p),
                    Err(e) => {
                        self.phase = Phase::Failed;
                        return Err(e);
                    },
                }
            },
        };
        let warning: Option<HeadingMismatch> = match scrape_heading(html) {
            Some(t) => {
                let tr = trim_str(t.as_str());
                if tr.eq(&cur.display_name) {
                    None
                } else {
                    Some(HeadingMismatch { expected: cur.display_name.clone(), found: tr })
                }
            },
            None => None,
        };
        let raws = scrape_main_anchors(html);
        let titles = match extract_links(raws) {
            Ok(v) => v,
            Err(e) => {
                self.phase = Phase::Failed;
                return Err(e);
            },
        };
        let mut rows: Vec<Row> = Vec::new();
        let mut j: usize = 0;
        while j < titles.len()
            invariant
                j <= titles.len(),
                rows@.len() == j,
                forall|jj: int|
                    0 <= jj < j ==> #[trigger] row_view(rows@[jj]) == rows_spec(
                        u_spec,
                        links_view(titles@),
                    )[jj],
            decreases titles.len() - j,
        {
            let row = Row {
                screen_name: cur.screen_name.clone(),
                display_name: cur.display_name.clone(),
                title: titles[j].label.clone(),
                url: titles[j].url.clone(),
            };
            rows.push(row);
            j = j + 1;
        }
        proof {
            assert(links_view(titles@) == links_of(main_anchors_of(html@)));
            assert(rows_view(rows@) =~= rows_spec(u_spec, links_of(main_anchors_of(html@))));
        }
        self.phase = Phase::ReadyForUser { next: next_i };
        Ok(PageOutcome { rows, warning, snapshot })
    }
}

} // verus!
