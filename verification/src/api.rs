//! Search queries, repository records and the paging through search results.

use vstd::prelude::*;
use crate::text::{copy_opt, decimal, opt_text, u64_to_decimal};

verus! {

/// Base address of the GitHub REST API.
pub const GITHUB_API_URL: &'static str = "https://api.github.com";

/// Path of the repository search endpoint, below the base address.
pub const SEARCH_PATH: &'static str = "/search/repositories";

/// The largest page size the search endpoint serves.
pub const MAX_PER_PAGE: usize = 100;

/// A repository search: the query text, the page to ask for and the sort.
#[derive(Debug, Clone)]
pub struct SearchQuery {
    pub query: String,
    pub page: u32,
    pub per_page: usize,
    pub sort: Option<String>,
    pub order: Option<String>,
}

/// What a search query holds, as plain values.
pub struct SearchQueryView {
    pub query: Seq<char>,
    pub page: u32,
    pub per_page: usize,
    pub sort: Option<Seq<char>>,
    pub order: Option<Seq<char>>,
}

impl View for SearchQuery {
    type V = SearchQueryView;

    open spec fn view(&self) -> SearchQueryView {
        SearchQueryView {
            query: self.query@,
            page: self.page,
            per_page: self.per_page,
            sort: opt_text(self.sort),
            order: opt_text(self.order),
        }
    }
}

/// The smaller of two sizes.
pub open spec fn min_usize(a: usize, b: usize) -> usize {
    if a <= b { a } else { b }
}

/// The parameters of a search request, in the order they are sent: the query,
/// the page, the page size, and the sort field and order when both are set.
pub open spec fn query_params(q: SearchQueryView) -> Seq<(Seq<char>, Seq<char>)> {
    let base = seq![
        ("q"@, q.query),
        ("page"@, decimal(q.page as nat)),
        ("per_page"@, decimal(q.per_page as nat)),
    ];
    match (q.sort, q.order) {
        (Some(s), Some(o)) => base + seq![("sort"@, s), ("order"@, o)],
        _ => base,
    }
}

/// The parameters a request sends: the query text, the page and the page
/// size in decimal, and then, when both a sort and an order are set, the
/// query's own sort field and order, and nothing else.
pub proof fn lemma_query_params(q: SearchQueryView)
    ensures
        query_params(q)[0] == ("q"@, q.query),
        query_params(q)[1] == ("page"@, decimal(q.page as nat)),
        query_params(q)[2] == ("per_page"@, decimal(q.per_page as nat)),
        (q.sort is Some && q.order is Some) ==> query_params(q).len() == 5
            && query_params(q)[3] == ("sort"@, q.sort->0) && query_params(q)[4] == ("order"@,
            q.order->0),
        !(q.sort is Some && q.order is Some) ==> query_params(q).len() == 3,
{
}

/// The characters of request parameters.
pub open spec fn params_text(p: Seq<(String, String)>) -> Seq<(Seq<char>, Seq<char>)> {
    p.map_values(|kv: (String, String)| (kv.0@, kv.1@))
}

impl SearchQuery {
    /// A search for `query`: the first page, the largest page size, no sort.
    pub fn new(query: &str) -> (r: Self)
        ensures
            r@ == (SearchQueryView {
                query: query@,
                page: 1,
                per_page: MAX_PER_PAGE,
                sort: None,
                order: None,
            }),
    {
        SearchQuery {
            query: query.to_owned(),
            page: 1,
            per_page: MAX_PER_PAGE,
            sort: None,
            order: None,
        }
    }

    /// The same search for another page; the page size is capped at the largest one.
    pub fn with_pagination(self, page: u32, per_page: usize) -> (r: Self)
        ensures
            r@ == (SearchQueryView { page, per_page: min_usize(per_page, MAX_PER_PAGE), ..self@ }),
            r.per_page <= MAX_PER_PAGE,
    {
        let mut q = self;
        q.page = page;
        q.per_page = if per_page <= MAX_PER_PAGE { per_page } else { MAX_PER_PAGE };
        q
    }

    /// The same search, sorted by `sort` in `order`.
    pub fn with_sort(self, sort: &str, order: &str) -> (r: Self)
        ensures
            r@ == (SearchQueryView { sort: Some(sort@), order: Some(order@), ..self@ }),
    {
        let mut q = self;
        q.sort = Some(sort.to_owned());
        q.order = Some(order.to_owned());
        q
    }

    /// The query text sent as the `q` parameter.
    pub fn to_query_string(&self) -> (r: String)
        ensures
            r@ == self.query@,
    {
        self.query.clone()
    }

    /// A copy of this search.
    pub fn copied(&self) -> (r: Self)
        ensures
            r@ == self@,
    {
        SearchQuery {
            query: self.query.clone(),
            page: self.page,
            per_page: self.per_page,
            sort: copy_opt(&self.sort),
            order: copy_opt(&self.order),
        }
    }

    /// The parameters of the request for this search.
    pub fn request_params(&self) -> (r: Vec<(String, String)>)
        ensures
            params_text(r@) == query_params(self@),
    {
        let mut r: Vec<(String, String)> = Vec::new();
        r.push(("q".to_owned(), self.query.clone()));
        r.push(("page".to_owned(), u64_to_decimal(self.page as u64)));
        r.push(("per_page".to_owned(), u64_to_decimal(self.per_page as u64)));
        match (&self.sort, &self.order) {
            (Some(s), Some(o)) => {
                r.push(("sort".to_owned(), s.clone()));
                r.push(("order".to_owned(), o.clone()));
            },
            _ => {},
        }
        assert(params_text(r@) =~= query_params(self@));
        r
    }
}

/// The address of the repository search endpoint.
pub fn search_url() -> (r: String)
    ensures
        r@ == GITHUB_API_URL@ + SEARCH_PATH@,
{
    let mut r = GITHUB_API_URL.to_owned();
    r.append(SEARCH_PATH);
    r
}

/// The value of the `Authorization` header for a token.
pub fn authorization_value(token: &str) -> (r: String)
    ensures
        r@ == "Bearer "@ + token@,
{
    let mut r = "Bearer ".to_owned();
    r.append(token);
    r
}

/// One repository of a search result.
#[derive(Debug, Clone)]
pub struct GitHubRepository {
    pub id: u64,
    pub name: String,
    pub full_name: String,
    pub description: Option<String>,
    pub html_url: String,
    pub stargazers_count: u64,
    pub forks_count: u64,
    pub language: Option<String>,
    pub updated_at: String,
    pub fork: bool,
}

/// One page of search results as the search endpoint returns it.
#[derive(Debug)]
pub struct SearchResponse {
    pub total_count: u64,
    pub incomplete_results: bool,
    pub items: Vec<GitHubRepository>,
}

/// The pages received so far, one after another.
pub open spec fn concat_pages(pages: Seq<Seq<GitHubRepository>>) -> Seq<GitHubRepository>
    decreases pages.len(),
{
    if pages.len() == 0 {
        Seq::empty()
    } else {
        concat_pages(pages.drop_last()) + pages.last()
    }
}

/// The first `limit` items of `s`, or all of them when there are fewer.
pub open spec fn at_most(s: Seq<GitHubRepository>, limit: usize) -> Seq<GitHubRepository> {
    if s.len() <= limit { s } else { s.take(limit as int) }
}

/// Collects the repositories of a search page by page, up to a limit.
///
/// The caller asks for the next request with `next_query`, performs it, and
/// hands the items it got back to `receive_page`, until `next_query` gives
/// nothing more.
pub struct PagedSearch {
    base: SearchQuery,
    first_page: u32,
    page: u32,
    per_page: usize,
    max_results: usize,
    repos: Vec<GitHubRepository>,
    finished: bool,
    pages: Ghost<Seq<Seq<GitHubRepository>>>,
}

impl PagedSearch {
    /// The search that each request repeats with its own page.
    pub closed spec fn base(&self) -> SearchQueryView {
        self.base@
    }

    /// The page that the search started at.
    pub closed spec fn first_page(&self) -> u32 {
        self.first_page
    }

    /// The page of the next request.
    pub closed spec fn page(&self) -> u32 {
        self.page
    }

    /// The page size of every request.
    pub closed spec fn per_page(&self) -> usize {
        self.per_page
    }

    /// The most repositories that are collected.
    pub closed spec fn max_results(&self) -> usize {
        self.max_results
    }

    /// The repositories collected so far.
    pub closed spec fn collected(&self) -> Seq<GitHubRepository> {
        self.repos@
    }

    /// Whether the search is over.
    pub closed spec fn done(&self) -> bool {
        self.finished
    }

    /// The items of each page received so far, in order.
    pub closed spec fn pages(&self) -> Seq<Seq<GitHubRepository>> {
        self.pages@
    }

    /// The state of a search: what it has collected is what its pages held,
    /// up to the limit; it asks for consecutive pages; and it is over exactly
    /// when a page came back empty or the limit was reached.
    pub closed spec fn wf(&self) -> bool {
        &&& self.repos@ == at_most(concat_pages(self.pages@), self.max_results)
        &&& self.per_page <= MAX_PER_PAGE
        &&& self.base@.per_page == self.per_page
        &&& self.finished <==> (self.pages@.len() > 0 && (self.pages@.last().len() == 0
            || self.repos@.len() >= self.max_results))
        &&& !self.finished ==> self.page == self.first_page + self.pages@.len()
    }

    /// Starts a search at the page and page size of `query`, collecting at most
    /// `max_results` repositories (no limit when it is `None`).
    pub fn start(query: &SearchQuery, max_results: Option<usize>) -> (r: Self)
        ensures
            r.wf(),
            r.base() == (SearchQueryView { per_page: min_usize(query.per_page, MAX_PER_PAGE), ..query@ }),
            r.first_page() == query.page,
            r.page() == query.page,
            r.per_page() == min_usize(query.per_page, MAX_PER_PAGE),
            r.max_results() == (match max_results { Some(m) => m, None => usize::MAX }),
            r.collected() == Seq::<GitHubRepository>::empty(),
            r.pages() == Seq::<Seq<GitHubRepository>>::empty(),
            !r.done(),
    {
        let per_page = if query.per_page <= MAX_PER_PAGE { query.per_page } else { MAX_PER_PAGE };
        let max = match max_results {
            Some(m) => m,
            None => usize::MAX,
        };
        let base = query.copied().with_pagination(query.page, per_page);
        let r = PagedSearch {
            base,
            first_page: query.page,
            page: query.page,
            per_page,
            max_results: max,
            repos: Vec::new(),
            finished: false,
            pages: Ghost(Seq::empty()),
        };
        assert(concat_pages(r.pages@) =~= Seq::<GitHubRepository>::empty());
        r
    }

    /// The request to perform next, or `None` when the search is over.
    pub fn next_query(&self) -> (r: Option<SearchQuery>)
        requires
            self.wf(),
        ensures
            self.done() ==> r is None,
            !self.done() ==> (r matches Some(q) && q@ == (SearchQueryView { page: self.page(), ..self.base() })),
    {
        if self.finished {
            None
        } else {
            Some(self.base.copied().with_pagination(self.page, self.per_page))
        }
    }

    /// Whether the search is over.
    pub fn is_done(&self) -> (r: bool)
        ensures
            r == self.done(),
    {
        self.finished
    }

    /// Whether taking in a page of `item_count` items would go on to a page
    /// number past the largest one.
    pub fn next_page_overflows(&self, item_count: usize) -> (r: bool)
        requires
            self.wf(),
        ensures
            r == (item_count > 0 && self.collected().len() + item_count < self.max_results()
                && self.page() == u32::MAX),
    {
        item_count > 0 && item_count < self.max_results - self.repos.len() && self.page == u32::MAX
    }

    /// Takes in the items of the page last asked for: keeps them up to the limit,
    /// and ends the search when the page was empty or the limit is reached.
    pub fn receive_page(&mut self, items: Vec<GitHubRepository>)
        requires
            old(self).wf(),
            !old(self).done(),
            items.len() > 0 && old(self).collected().len() + items.len() < old(self).max_results()
                ==> old(self).page() < u32::MAX,
        ensures
            final(self).wf(),
            final(self).pages() == old(self).pages().push(items@),
            final(self).collected() == at_most(old(self).collected() + items@, old(self).max_results()),
            final(self).done() == (items.len() == 0
                || old(self).collected().len() + items.len() >= old(self).max_results()),
            final(self).done() ==> final(self).page() == old(self).page(),
            !final(self).done() ==> final(self).page() == old(self).page() + 1,
            final(self).base() == old(self).base(),
            final(self).first_page() == old(self).first_page(),
            final(self).per_page() == old(self).per_page(),
            final(self).max_results() == old(self).max_results(),
    {
        let ghost old_pages = self.pages@;
        let ghost old_repos = self.repos@;
        let n = items.len();
        let room = self.max_results - self.repos.len();
        let mut items = items;
        let ghost all_items = items@;
        if n > room {
            items.truncate(room);
        }
        assert(items@ =~= (if all_items.len() <= room { all_items } else { all_items.take(room as int) }));
        self.repos.append(&mut items);
        self.pages = Ghost(old_pages.push(all_items));
        assert(old_pages.push(all_items).drop_last() =~= old_pages);
        assert(concat_pages(self.pages@) =~= concat_pages(old_pages) + all_items);
        assert(self.repos@ =~= at_most(old_repos + all_items, self.max_results));
        if n == 0 || self.repos.len() >= self.max_results {
            self.finished = true;
        } else {
            self.page = self.page + 1;
        }
        proof {
            // while the search goes on, nothing received was cut off by the limit
            let c = concat_pages(old_pages);
            assert(c.len() <= self.max_results);
            assert(at_most(old_repos + all_items, self.max_results)
                =~= at_most(c + all_items, self.max_results));
        }
    }

    /// The repositories collected, in the order the pages held them.
    pub fn into_results(self) -> (r: Vec<GitHubRepository>)
        ensures
            r@ == self.collected(),
    {
        self.repos
    }
}

/// What holds of every search at every step: it has collected at most its limit;
/// what it collected is the first items of the pages it received, in order; and
/// while it goes on, it asks for the page after the ones it received.
pub proof fn lemma_paged_search_state(s: &PagedSearch)
    requires
        s.wf(),
    ensures
        s.collected().len() <= s.max_results(),
        s.collected().len() <= concat_pages(s.pages()).len(),
        s.collected() == concat_pages(s.pages()).take(s.collected().len() as int),
        !s.done() ==> s.collected() == concat_pages(s.pages()),
        !s.done() ==> s.page() == s.first_page() + s.pages().len(),
        s.done() ==> s.pages().len() > 0,
{
    let c = concat_pages(s.pages@);
    if c.len() <= s.max_results {
        assert(c.take(c.len() as int) =~= c);
    }
}

} // verus!
