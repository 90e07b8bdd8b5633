//! The shared state of one run: the root URL, the dedupe set, both
//! ETag generations, the skip list, the configuration and the
//! statistics, with the decision functions that read and update them.

use vstd::prelude::*;

use crate::args::Args;
use crate::etags::ETags;
use crate::skip::{skip_matches, SkipList};
use crate::skipreason::{SkipReason, SkipReasonErr};
use crate::stats::Stats;
use crate::strutil::str_eq;
use crate::url::{
    opt_str_view, parse_url_raw, spec_is_handled, spec_rel_to, url_full_path, url_has_fragment,
    url_has_query, url_host, url_ok, url_scheme, url_text, Url, UrlExt,
};

verus! {

/// State shared by the whole crawl.
pub struct State {
    /// Base URL.
    url: Url,
    /// Serializations of the URLs already handed to the coordinator.
    processed: Vec<String>,
    /// ETags file path.
    etags_file: String,
    /// Old ETags generation, loaded at startup.
    old_etags: ETags,
    /// New ETags generation, recorded while running.
    new_etags: ETags,
    /// File skip list.
    skip_list: SkipList,
    /// Run configuration.
    args: Args,
    /// Statistics.
    stats: Stats,
}

impl State {
    /// The root URL of the crawl.
    pub closed spec fn root(&self) -> Url {
        self.url
    }

    /// The set of URL serializations already handed to the coordinator.
    pub closed spec fn processed_view(&self) -> Set<Seq<char>> {
        self.processed@.map_values(|s: String| s@).to_set()
    }

    /// The old ETag generation.
    pub closed spec fn old_etags_view(&self) -> Map<Seq<char>, Seq<char>> {
        self.old_etags@
    }

    /// The new ETag generation.
    pub closed spec fn new_etags_view(&self) -> Map<Seq<char>, Seq<char>> {
        self.new_etags@
    }

    /// The entries of the skip list.
    pub closed spec fn skip_entries(&self) -> Seq<Seq<char>> {
        self.skip_list@
    }

    /// The run configuration.
    pub closed spec fn config(&self) -> Args {
        self.args
    }

    /// The path of the ETags file.
    pub closed spec fn etags_path_view(&self) -> Seq<char> {
        self.etags_file@
    }

    /// The statistics counters.
    pub closed spec fn stats_view(&self) -> Stats {
        self.stats
    }

    /// Both ETag generations hold pairwise distinct keys.
    pub closed spec fn wf(&self) -> bool {
        self.old_etags.wf() && self.new_etags.wf()
    }

    /// Creates the state. Fails iff the root URL does not parse or its
    /// scheme cannot be handled.
    pub fn new(args: Args, loaded_etags: ETags, skip_list: SkipList) -> (r: Result<State, String>)
        requires
            loaded_etags.wf(),
        ensures
            match r {
                Ok(st) => url_ok(args.url@) && spec_is_handled(url_scheme(args.url@)) && st.wf()
                    && st.root().scheme@ == url_scheme(args.url@) && opt_str_view(st.root().host)
                    == url_host(args.url@) && st.root().full_path@ == url_full_path(args.url@)
                    && st.root().has_query == url_has_query(args.url@) && st.root().has_fragment
                    == url_has_fragment(args.url@) && st.root().text@ == url_text(args.url@)
                    && st.processed_view() == Set::<Seq<char>>::empty() && st.old_etags_view() == (
                if args.no_etags {
                    Map::<Seq<char>, Seq<char>>::empty()
                } else {
                    loaded_etags@
                }) && st.new_etags_view() == Map::<Seq<char>, Seq<char>>::empty()
                    && st.skip_entries() == skip_list@ && st.config() == args && st.stats_view()
                    == Stats::zero() && st.etags_path_view() == args.target@ + "/.etags.json"@,
                Err(m) => (!url_ok(args.url@) || !spec_is_handled(url_scheme(args.url@))) && m@
                    == if !url_ok(args.url@) {
                    "Failed to parse URL "@ + args.url@
                } else {
                    "Skipping "@ + url_text(args.url@) + ": "@
                        + "The transport is not supported"@
                },
            },
    {
        let url = match parse_url_raw(args.url.as_str()) {
            Some(u) => u,
            None => {
                return Err(String::from_str("Failed to parse URL ").concat(args.url.as_str()));
            },
        };
        match url.is_handled() {
            Ok(_) => {},
            Err(e) => {
                return Err(e.message());
            },
        }
        let etags_file = args.target.clone().concat("/.etags.json");
        let old_etags = if args.no_etags {
            ETags::new()
        } else {
            loaded_etags
        };
        let st = State {
            url,
            processed: Vec::new(),
            etags_file,
            old_etags,
            new_etags: ETags::new(),
            skip_list,
            args,
            stats: Stats::default(),
        };
        proof {
            assert(st.processed_view() =~= Set::<Seq<char>>::empty());
        }
        Ok(st)
    }

    /// The parts of the state that no step of the walk changes.
    pub open spec fn same_setup(a: &State, b: &State) -> bool {
        a.root() == b.root() && a.skip_entries() == b.skip_entries() && a.config() == b.config()
            && a.etags_path_view() == b.etags_path_view() && a.old_etags_view()
            == b.old_etags_view()
    }

    /// Returns a reference to the starting URL.
    pub fn url(&self) -> (r: &Url)
        ensures
            *r == self.root(),
    {
        &self.url
    }

    /// The path of the ETags file.
    pub fn etags_file(&self) -> (r: &str)
        ensures
            r@ == self.etags_path_view(),
    {
        self.etags_file.as_str()
    }

    /// The run configuration.
    pub fn args(&self) -> (r: &Args)
        ensures
            *r == self.config(),
    {
        &self.args
    }

    /// Returns the debug level.
    pub fn debug_level(&self) -> (r: u8)
        ensures
            r == self.config().debug,
    {
        self.args.debug
    }

    /// Gets a copy of the stats.
    pub fn get_stats(&self) -> (r: Stats)
        ensures
            r == self.stats_view(),
    {
        self.stats
    }

    /// Mutable access to the stats; everything else stays as it is.
    pub fn stats_mut(&mut self) -> (r: &mut Stats)
        ensures
            *r == old(self).stats_view(),
            final(self).stats_view() == *final(r),
            old(self).wf() ==> final(self).wf(),
            State::same_setup(old(self), final(self)),
            final(self).processed_view() == old(self).processed_view(),
            final(self).new_etags_view() == old(self).new_etags_view(),
    {
        &mut self.stats
    }

    /// The new ETag generation, for persisting it.
    pub fn new_etags(&self) -> (r: &ETags)
        ensures
            r@ == self.new_etags_view(),
    {
        &self.new_etags
    }

    /// Adds a URL to the processed set. Returns false if the URL was
    /// already seen; the set gates each URL exactly once.
    pub fn add_processed_url(&mut self, url: &Url) -> (r: bool)
        requires
            old(self).wf(),
        ensures
            final(self).wf(),
            State::same_setup(old(self), final(self)),
            final(self).new_etags_view() == old(self).new_etags_view(),
            final(self).stats_view() == old(self).stats_view(),
            r == !old(self).processed_view().contains(url.text@),
            final(self).processed_view() == old(self).processed_view().insert(url.text@),
    {
        let ghost m0 = self.processed@.map_values(|s: String| s@);
        let mut i: usize = 0;
        while i < self.processed.len()
            invariant
                *self == *old(self),
                self.wf(),
                m0 == self.processed@.map_values(|s: String| s@),
                i <= self.processed@.len(),
                forall|j: int| 0 <= j < i ==> #[trigger] m0[j] != url.text@,
            decreases self.processed@.len() - i,
        {
            if str_eq(self.processed[i].as_str(), url.text.as_str()) {
                proof {
                    assert(m0[i as int] == url.text@);
                    assert(old(self).processed_view().contains(url.text@));
                    assert(old(self).processed_view().insert(url.text@) =~= old(
                        self,
                    ).processed_view());
                }
                return false;
            }
            i += 1;
        }
        proof {
            if old(self).processed_view().contains(url.text@) {
                assert(m0.contains(url.text@));
                let j = choose|j: int| 0 <= j < m0.len() && m0[j] == url.text@;
                assert(false);
            }
        }
        self.processed.push(url.text.clone());
        proof {
            let m1 = self.processed@.map_values(|s: String| s@);
            assert(m1 =~= m0.push(url.text@));
            assert forall|a: Seq<char>| m1.to_set().contains(a) implies m0.to_set().insert(
                url.text@,
            ).contains(a) by {
                let j = choose|j: int| 0 <= j < m1.len() && m1[j] == a;
                if j < m0.len() {
                    assert(m0[j] == a);
                }
            }
            assert forall|a: Seq<char>| m0.to_set().insert(url.text@).contains(a) implies
                m1.to_set().contains(a) by {
                if m0.to_set().contains(a) {
                    let j = choose|j: int| 0 <= j < m0.len() && m0[j] == a;
                    assert(m1[j] == a);
                } else {
                    assert(m1[m1.len() - 1] == url.text@);
                }
            }
            assert(final(self).processed_view() =~= old(self).processed_view().insert(url.text@));
        }
        true
    }

    /// Looks for an ETag for the URL in the old generation.
    pub fn find_etag(&self, url: &Url) -> (r: Option<&String>)
        requires
            self.wf(),
        ensures
            match r {
                Some(v) => self.old_etags_view().contains_key(url.text@) && v@
                    == self.old_etags_view()[url.text@],
                None => !self.old_etags_view().contains_key(url.text@),
            },
    {
        self.old_etags.find(url.text.as_str())
    }

    /// The new generation after recording one ETag under each of the
    /// given URL serializations.
    pub open spec fn record_all(
        m: Map<Seq<char>, Seq<char>>,
        texts: Seq<Seq<char>>,
        etag: Seq<char>,
    ) -> Map<Seq<char>, Seq<char>>
        decreases texts.len(),
    {
        if texts.len() == 0 {
            m
        } else {
            Self::record_all(m, texts.drop_last(), etag).insert(texts.last(), etag)
        }
    }

    /// Records an ETag under every given URL in the new generation.
    pub fn add_etags(&mut self, urls: &Vec<&Url>, etag: &str)
        requires
            old(self).wf(),
        ensures
            final(self).wf(),
            State::same_setup(old(self), final(self)),
            final(self).processed_view() == old(self).processed_view(),
            final(self).stats_view() == old(self).stats_view(),
            final(self).new_etags_view() == State::record_all(
                old(self).new_etags_view(),
                urls@.map_values(|u: &Url| u.text@),
                etag@,
            ),
    {
        let ghost texts = urls@.map_values(|u: &Url| u.text@);
        let ghost m0 = self.new_etags@;
        let mut i: usize = 0;
        while i < urls.len()
            invariant
                i <= urls@.len(),
                texts == urls@.map_values(|u: &Url| u.text@),
                m0 == old(self).new_etags_view(),
                self.wf(),
                old(self).wf(),
                State::same_setup(old(self), self),
                self.processed_view() == old(self).processed_view(),
                self.stats_view() == old(self).stats_view(),
                self.new_etags@ == Self::record_all(m0, texts.subrange(0, i as int), etag@),
            decreases urls@.len() - i,
        {
            proof {
                assert(texts.subrange(0, i + 1).drop_last() =~= texts.subrange(0, i as int));
                assert(texts.subrange(0, i + 1).last() == texts[i as int]);
            }
            self.new_etags.add(urls[i].text.clone(), etag.to_owned());
            i += 1;
        }
        proof {
            assert(texts.subrange(0, texts.len() as int) =~= texts);
        }
    }

    /// Where the URL's content goes on disk: the target directory
    /// followed by the relative path, or by the unnamed-file name when
    /// the relative path is empty; rejected when the URL is out of
    /// scope or its relative path is in the skip list.
    pub open spec fn path_decision(&self, url: &Url) -> Result<Seq<char>, SkipReason> {
        match spec_rel_to(
            url.host_view(),
            url.full_path_view(),
            self.root().host_view(),
            self.root().full_path_view(),
        ) {
            None => Err(SkipReason::NotRelative),
            Some(rel) => if rel.len() == 0 {
                Ok(self.config().target@ + "/"@ + self.config().unnamed@)
            } else if skip_matches(self.skip_entries(), rel) {
                Err(SkipReason::SkipList)
            } else {
                Ok(self.config().target@ + "/"@ + rel)
            },
        }
    }

    /// Builds the file path for a URL, or the reason the URL is not
    /// downloaded.
    pub fn path_for_url(&self, url: &Url) -> (r: Result<String, SkipReasonErr>)
        ensures
            match r {
                Ok(p) => self.path_decision(url) == Ok::<Seq<char>, SkipReason>(p@),
                Err(e) => e.url@ == url.text@ && self.path_decision(url) == Err::<
                    Seq<char>,
                    SkipReason,
                >(e.reason),
            },
    {
        match url.relative_path(&self.url) {
            None => Err(SkipReasonErr::new(url.text.clone(), SkipReason::NotRelative)),
            Some(rel) => {
                if rel.as_str().is_empty() {
                    Ok(self.args.target.clone().concat("/").concat(self.args.unnamed.as_str()))
                } else if self.skip_list.find(rel.as_str()) {
                    Err(SkipReasonErr::new(url.text.clone(), SkipReason::SkipList))
                } else {
                    Ok(self.args.target.clone().concat("/").concat(rel.as_str()))
                }
            },
        }
    }

    /// The decision of the redirect policy for one hop: the chain must
    /// stay under the ceiling and the candidate must stay in the
    /// subtree of the root.
    pub open spec fn redirect_decision(&self, previous_len: int, candidate: &Url) -> Result<
        (),
        SkipReason,
    > {
        if previous_len > self.config().max_redirects {
            Err(SkipReason::TooManyRedirects)
        } else if spec_rel_to(
            candidate.host_view(),
            candidate.full_path_view(),
            self.root().host_view(),
            self.root().full_path_view(),
        ) is None {
            Err(SkipReason::RedirectNotRel(candidate.text))
        } else {
            Ok(())
        }
    }

    /// Applies the redirect policy to one hop of a fetch:
    /// `previous_len` is the length of the chain of URLs already
    /// visited, `original_url` the first URL of the chain, `candidate`
    /// the target of the redirect.
    pub fn check_redirect(&self, previous_len: usize, original_url: &str, candidate: &Url) -> (r:
        Result<(), SkipReasonErr>)
        ensures
            match r {
                Ok(_) => self.redirect_decision(previous_len as int, candidate) is Ok,
                Err(e) => e.url@ == original_url@ && self.redirect_decision(
                    previous_len as int,
                    candidate,
                ) == Err::<(), SkipReason>(e.reason),
            },
    {
        if previous_len > self.args.max_redirects {
            Err(SkipReasonErr::new(original_url.to_owned(), SkipReason::TooManyRedirects))
        } else if !candidate.is_relative_to(&self.url) {
            Err(
                SkipReasonErr::new(
                    original_url.to_owned(),
                    SkipReason::RedirectNotRel(candidate.text.clone()),
                ),
            )
        } else {
            Ok(())
        }
    }

    /// Merges the old generation into the new one in preparation for
    /// persisting it; entries of the new generation win. Returns true
    /// iff the merged map is to be written out: caching is enabled and
    /// something was recorded this run.
    pub fn save_etags(&mut self) -> (r: bool)
        requires
            old(self).wf(),
        ensures
            final(self).wf(),
            State::same_setup(old(self), final(self)),
            final(self).processed_view() == old(self).processed_view(),
            final(self).stats_view() == old(self).stats_view(),
            r == !(old(self).config().no_etags || old(self).new_etags_view() =~= Map::<
                Seq<char>,
                Seq<char>,
            >::empty()),
            r ==> final(self).new_etags_view() == old(self).old_etags_view().union_prefer_right(
                old(self).new_etags_view(),
            ),
            !r ==> final(self).new_etags_view() == old(self).new_etags_view(),
    {
        if self.args.no_etags {
            return false;
        }
        if self.new_etags.is_empty() {
            return false;
        }
        self.new_etags.extend(&self.old_etags);
        true
    }
}

} // verus!
