use vstd::prelude::*;

use crate::model::{
    activity, ci_member, clone_opt, clone_strings, contains_ignore_ascii_case, language_matches, opt_view, parse_activity, strings_view,
    LanguageFilter, ProviderCfg, Repo,
};
use crate::select::{lemma_filter_prefix, lemma_selected, selected};
use crate::text::{
    contains_seq, contains_str, first_word, first_word_str, parse_u64, remove_char, strip_white_space, strip_ws,
    trim, trim_str, u64_of, without,
};

verus! {

/// A repository as GitHub's repository search describes it.
#[derive(Clone, Debug)]
pub struct GitHubRepository {
    pub full_name: String,
    pub description: Option<String>,
    pub html_url: String,
    pub stargazers_count: u64,
    pub language: Option<String>,
    pub topics: Vec<String>,
    pub updated_at: String,
}

/// The texts of one repository block of the trending page, as found there.
#[derive(Clone, Debug)]
pub struct ArticleParts {
    /// The text of the title link, if the block has one.
    pub title: Option<String>,
    /// The target of the title link.
    pub href: Option<String>,
    /// The text of the first paragraph.
    pub description: Option<String>,
    /// The text of the language tag.
    pub language: Option<String>,
    /// The texts of the star-count fragments, in page order.
    pub stars: Vec<String>,
}

/// A repository read from the trending page.
#[derive(Clone, Debug)]
pub struct TrendingRepo {
    pub name: String,
    pub description: Option<String>,
    pub language: Option<String>,
    pub stars_today: Option<u64>,
    pub stars_total: Option<u64>,
    pub url: String,
    pub topics: Vec<String>,
}

/// Why a trending page gave no repositories.
#[derive(Clone, Copy, Debug, PartialEq, Eq, Structural)]
pub enum TrendingPageError {
    /// The page held no repository block that could be read.
    NoRepositories,
}

/// The number of elements of the page `html` that the CSS selector `block`
/// matches (none when the selector does not parse).
pub uninterp spec fn css_count(html: Seq<char>, block: Seq<char>) -> nat;

/// The text of the first descendant matching `inner` of element number `i`
/// among those matching `block`, if there is one (none when `inner` does
/// not parse).
pub uninterp spec fn css_first_text(html: Seq<char>, block: Seq<char>, i: nat, inner: Seq<char>) -> Option<Seq<char>>;

/// The attribute `attr` of that same first descendant, if both exist.
pub uninterp spec fn css_first_attr(
    html: Seq<char>,
    block: Seq<char>,
    i: nat,
    inner: Seq<char>,
    attr: Seq<char>,
) -> Option<Seq<char>>;

/// The texts of all descendants matching `inner` of element number `i`
/// among those matching `block`, in document order (none when `inner` does
/// not parse).
pub uninterp spec fn css_all_texts(html: Seq<char>, block: Seq<char>, i: nat, inner: Seq<char>) -> Seq<Seq<char>>;

/// Relies on scraper (`Html::parse_document`, `Selector::parse`,
/// `Html::select`, `ElementRef::select`, `ElementRef::text`): for each
/// element matching `block`, in document order, the text of its first
/// descendant matching `inner`; what matches depends on the page text and
/// the selectors alone.
#[verifier::external_body]
fn first_texts(html: &str, block: &str, inner: &str) -> (r: Vec<Option<String>>)
    ensures
        r@.len() == css_count(html@, block@),
        forall|i: int| 0 <= i < r@.len() ==> opt_view(#[trigger] r@[i]) == css_first_text(html@, block@, i as nat, inner@),
{
    let doc = scraper::Html::parse_document(html);
    let Ok(b) = scraper::Selector::parse(block) else { return Vec::new() };
    let n = scraper::Selector::parse(inner).ok();
    doc.select(&b).map(|a| n.as_ref().and_then(|n| a.select(n).next()).map(|e| e.text().collect())).collect()
}

/// Relies on scraper (as `first_texts`, with `ElementRef::attr`): for each
/// element matching `block`, the attribute `attr` of its first descendant
/// matching `inner`.
#[verifier::external_body]
fn first_attrs(html: &str, block: &str, inner: &str, attr: &str) -> (r: Vec<Option<String>>)
    ensures
        r@.len() == css_count(html@, block@),
        forall|i: int| 0 <= i < r@.len() ==> opt_view(#[trigger] r@[i]) == css_first_attr(html@, block@, i as nat, inner@, attr@),
{
    let doc = scraper::Html::parse_document(html);
    let Ok(b) = scraper::Selector::parse(block) else { return Vec::new() };
    let n = scraper::Selector::parse(inner).ok();
    doc.select(&b).map(|a| n.as_ref().and_then(|n| a.select(n).next()).and_then(|e| e.attr(attr).map(String::from))).collect()
}

/// Relies on scraper (as `first_texts`): for each element matching `block`,
/// the texts of all its descendants matching `inner`.
#[verifier::external_body]
fn all_texts(html: &str, block: &str, inner: &str) -> (r: Vec<Vec<String>>)
    ensures
        r@.len() == css_count(html@, block@),
        forall|i: int| 0 <= i < r@.len() ==> strings_view((#[trigger] r@[i])@) == css_all_texts(html@, block@, i as nat, inner@),
{
    let doc = scraper::Html::parse_document(html);
    let Ok(b) = scraper::Selector::parse(block) else { return Vec::new() };
    let n = scraper::Selector::parse(inner).ok();
    doc.select(&b).map(|a| n.as_ref().map_or(Vec::new(), |n| a.select(n).map(|e| e.text().collect()).collect())).collect()
}

/// The texts of one repository block, as plain values.
pub struct ArticleView {
    pub title: Option<Seq<char>>,
    pub href: Option<Seq<char>>,
    pub description: Option<Seq<char>>,
    pub language: Option<Seq<char>>,
    pub stars: Seq<Seq<char>>,
}

impl View for ArticleParts {
    type V = ArticleView;

    open spec fn view(&self) -> ArticleView {
        ArticleView {
            title: opt_view(self.title),
            href: opt_view(self.href),
            description: opt_view(self.description),
            language: opt_view(self.language),
            stars: strings_view(self.stars@),
        }
    }
}

pub open spec fn article_views(a: Seq<ArticleParts>) -> Seq<ArticleView> {
    a.map_values(|x: ArticleParts| x@)
}

/// Block number `i` of the trending page `html`: an `article.Box-row` with
/// its title link (`h2 a`) and the link's target, its first paragraph, its
/// language tag and its star-count fragments.
pub open spec fn article_at(html: Seq<char>, i: nat) -> ArticleView {
    ArticleView {
        title: css_first_text(html, "article.Box-row"@, i, "h2 a"@),
        href: css_first_attr(html, "article.Box-row"@, i, "h2 a"@, "href"@),
        description: css_first_text(html, "article.Box-row"@, i, "p"@),
        language: css_first_text(html, "article.Box-row"@, i, "span[itemprop='programmingLanguage']"@),
        stars: css_all_texts(html, "article.Box-row"@, i, "span.d-inline-block.float-sm-right"@),
    }
}

/// The repository blocks of the trending page `html`, in page order.
pub open spec fn trending_articles(html: Seq<char>) -> Seq<ArticleView> {
    Seq::new(css_count(html, "article.Box-row"@), |i: int| article_at(html, i as nat))
}

/// The GitHub adapter's own logic.
#[derive(Clone, Copy, Debug)]
pub struct GitHub;

/// The first fragment, trimmed, for which `today` says whether it mentions
/// stars gained today.
pub open spec fn first_star_text(texts: Seq<Seq<char>>, today: bool) -> Option<Seq<char>>
    decreases texts.len(),
{
    if texts.len() == 0 {
        None
    } else if contains_seq(trim(texts[0]), "stars today"@) == today {
        Some(trim(texts[0]))
    } else {
        first_star_text(texts.drop_first(), today)
    }
}

/// The cumulative star count: the first fragment that is not a daily count,
/// without commas, read up to its first white space.
pub open spec fn total_stars(texts: Seq<Seq<char>>) -> Option<u64> {
    match first_star_text(texts, false) {
        Some(t) => match first_word(without(t, ',')) {
            Some(w) => u64_of(w),
            None => None,
        },
        None => None,
    }
}

/// The daily star count: the first word of the first daily fragment,
/// without commas.
pub open spec fn today_stars(texts: Seq<Seq<char>>) -> Option<u64> {
    match first_star_text(texts, true) {
        Some(t) => match first_word(t) {
            Some(w) => u64_of(without(w, ',')),
            None => None,
        },
        None => None,
    }
}

/// A block is read only when it has a title link with a target.
pub open spec fn readable(a: ArticleView) -> bool {
    a.title is Some && a.href is Some
}

/// The repository read from a readable block: the title without white
/// space as name, the link target under github.com, the trimmed description
/// when not empty, the trimmed language, and the star counts.
pub open spec fn trending_read(t: TrendingRepo, a: ArticleView) -> bool {
    &&& t.name@ == strip_ws(a.title->Some_0)
    &&& t.url@ == "https://github.com"@ + a.href->Some_0
    &&& opt_view(t.description) == match a.description {
        Some(d) => if trim(d).len() == 0 {
            None
        } else {
            Some(trim(d))
        },
        None => None,
    }
    &&& opt_view(t.language) == match a.language {
        Some(l) => Some(trim(l)),
        None => None,
    }
    &&& t.stars_total == total_stars(a.stars)
    &&& t.stars_today == today_stars(a.stars)
    &&& t.topics@.len() == 0
}

/// The repositories read from the blocks of a trending page, in page order.
pub open spec fn trending_page(articles: Seq<ArticleView>, out: Seq<TrendingRepo>) -> bool {
    let sel = articles.filter(|a: ArticleView| readable(a));
    &&& out.len() == sel.len()
    &&& forall|i: int| 0 <= i < out.len() ==> trending_read(#[trigger] out[i], sel[i])
}

/// No topic of the repository matches an excluded one.
pub open spec fn topics_allowed(topics: Seq<Seq<char>>, exclude: Seq<Seq<char>>) -> bool {
    forall|i: int| 0 <= i < topics.len() ==> !ci_member(exclude, #[trigger] topics[i])
}

pub open spec fn search_keeps(langs: Seq<Seq<char>>, exclude: Seq<Seq<char>>) -> spec_fn(GitHubRepository) -> bool {
    |g: GitHubRepository|
        g.full_name@.len() > 0 && g.html_url@.len() > 0 && language_matches(langs, opt_view(g.language))
            && topics_allowed(strings_view(g.topics@), exclude)
}

/// The record made from a search result.
pub open spec fn search_record(r: Repo, g: GitHubRepository) -> bool {
    &&& r.provider@ == "github"@
    &&& r.icon@ == "[GH]"@
    &&& r.name == g.full_name
    &&& r.language == g.language
    &&& r.description == g.description
    &&& r.url == g.html_url
    &&& r.stars_today is None
    &&& r.stars_total == Some(g.stargazers_count)
    &&& r.last_activity == activity(Some(g.updated_at))
    &&& r.topics == g.topics
}

/// What the GitHub adapter returns for search results.
pub open spec fn search_top(
    found: Seq<GitHubRepository>,
    limit: nat,
    langs: Seq<Seq<char>>,
    exclude: Seq<Seq<char>>,
    out: Seq<Repo>,
) -> bool {
    selected(found, search_keeps(langs, exclude), limit, out, |r: Repo, g: GitHubRepository| search_record(r, g))
}

pub open spec fn trending_keeps(langs: Seq<Seq<char>>, exclude: Seq<Seq<char>>) -> spec_fn(TrendingRepo) -> bool {
    |t: TrendingRepo|
        t.name@.len() > 0 && t.url@.len() > 0 && language_matches(langs, opt_view(t.language)) && topics_allowed(
            strings_view(t.topics@),
            exclude,
        )
}

/// The record made from a trending repository, active at `now`.
pub open spec fn trending_record(r: Repo, t: TrendingRepo, now: i64) -> bool {
    &&& r.provider@ == "github"@
    &&& r.icon@ == "[GH]"@
    &&& r.name == t.name
    &&& r.language == t.language
    &&& r.description == t.description
    &&& r.url == t.url
    &&& r.stars_today == t.stars_today
    &&& r.stars_total == t.stars_total
    &&& r.last_activity == Some(now)
    &&& r.topics == t.topics
}

/// What the GitHub adapter returns for trending repositories.
pub open spec fn trending_top(
    found: Seq<TrendingRepo>,
    limit: nat,
    langs: Seq<Seq<char>>,
    exclude: Seq<Seq<char>>,
    now: i64,
    out: Seq<Repo>,
) -> bool {
    selected(found, trending_keeps(langs, exclude), limit, out, |r: Repo, t: TrendingRepo| trending_record(r, t, now))
}

/// The records of the fetches that succeeded, in order.
pub open spec fn successes(results: Seq<Result<Vec<TrendingRepo>, String>>) -> Seq<TrendingRepo>
    decreases results.len(),
{
    if results.len() == 0 {
        Seq::empty()
    } else {
        successes(results.drop_last()) + match results.last() {
            Ok(v) => v@,
            Err(_) => Seq::empty(),
        }
    }
}

/// The messages of the fetches that failed, in order.
pub open spec fn fetch_errors(results: Seq<Result<Vec<TrendingRepo>, String>>) -> Seq<String>
    decreases results.len(),
{
    if results.len() == 0 {
        Seq::empty()
    } else {
        fetch_errors(results.drop_last()) + match results.last() {
            Ok(_) => Seq::empty(),
            Err(e) => seq![e],
        }
    }
}

/// No fetch succeeded.
pub open spec fn none_succeeded(results: Seq<Result<Vec<TrendingRepo>, String>>) -> bool {
    forall|i: int| 0 <= i < results.len() ==> (#[trigger] results[i]) is Err
}

/// What the GitHub adapter fetched: search results, or the outcome of each
/// trending page it read.
pub enum GitHubFetch {
    Search(Vec<GitHubRepository>),
    Trending(Vec<Result<Vec<TrendingRepo>, String>>),
}

impl GitHub {
    pub fn id(&self) -> (r: &'static str)
        ensures
            r@ == "github"@,
    {
        "github"
    }

    pub fn icon(&self) -> (r: &'static str)
        ensures
            r@ == "[GH]"@,
    {
        "[GH]"
    }

    /// The search API is used exactly when topics are to be excluded, since
    /// the trending page shows none.
    pub fn uses_search(cfg: &ProviderCfg) -> (r: bool)
        ensures
            r == (cfg.exclude_topics@.len() > 0),
    {
        cfg.exclude_topics.len() > 0
    }

    /// The search for the repositories created on or after `since`
    /// (a `YYYY-MM-DD` date), most starred first.
    pub fn search_url(since: &str) -> (r: String)
        ensures
            r@ == "https://api.github.com/search/repositories?q=created:>="@ + since@
                + "&sort=stars&order=desc&per_page=100"@,
    {
        "https://api.github.com/search/repositories?q=created:>=".to_owned().concat(since).concat(
            "&sort=stars&order=desc&per_page=100",
        )
    }

    /// The trending pages to read: the general one when no language is
    /// asked for, otherwise one per language, in the filter's order.
    pub fn trending_urls(langs: &LanguageFilter) -> (r: Vec<String>)
        ensures
            langs@.len() == 0 ==> strings_view(r@) == seq!["https://github.com/trending?since=daily"@],
            langs@.len() > 0 ==> r@.len() == langs@.len() && forall|i: int|
                0 <= i < r@.len() ==> (#[trigger] r@[i])@ == "https://github.com/trending/"@ + langs@[i]
                    + "?since=daily"@,
    {
        let mut urls: Vec<String> = Vec::new();
        if langs.languages.len() == 0 {
            urls.push("https://github.com/trending?since=daily".to_owned());
            assert(strings_view(urls@) =~= seq!["https://github.com/trending?since=daily"@]);
            return urls;
        }
        let mut i: usize = 0;
        while i < langs.languages.len()
            invariant
                i <= langs.languages@.len(),
                urls@.len() == i,
                forall|j: int| 0 <= j < i ==> (#[trigger] urls@[j])@ == "https://github.com/trending/"@
                    + langs@[j] + "?since=daily"@,
            decreases langs.languages@.len() - i,
        {
            let u = "https://github.com/trending/".to_owned().concat(langs.languages[i].as_str()).concat(
                "?since=daily",
            );
            urls.push(u);
            i = i + 1;
        }
        urls
    }

    /// The repositories of the trending pages that were read, in order; it
    /// fails, with every page's error, when no page could be read.
    pub fn gather_trending(results: Vec<Result<Vec<TrendingRepo>, String>>) -> (r: Result<Vec<TrendingRepo>, Vec<String>>)
        ensures
            r is Err <==> none_succeeded(results@),
            r matches Ok(v) ==> v@ == successes(results@),
            r matches Err(e) ==> e@ == fetch_errors(results@),
    {
        let ghost orig = results@;
        let mut rest = results;
        let mut all: Vec<TrendingRepo> = Vec::new();
        let mut errors: Vec<String> = Vec::new();
        let mut any_ok = false;
        let ghost mut i: int = 0;
        while rest.len() > 0
            invariant
                0 <= i <= orig.len(),
                rest@ == orig.subrange(i, orig.len() as int),
                all@ == successes(orig.subrange(0, i)),
                errors@ == fetch_errors(orig.subrange(0, i)),
                any_ok == !none_succeeded(orig.subrange(0, i)),
            decreases rest@.len(),
        {
            let o = rest.remove(0);
            proof {
                assert(orig.subrange(0, i + 1).drop_last() =~= orig.subrange(0, i));
                assert(orig[i] == o);
                assert(orig.subrange(0, i + 1)[i] == o);
                assert(forall|k: int| 0 <= k < i ==> orig.subrange(0, i + 1)[k] == orig.subrange(0, i)[k]);
            }
            match o {
                Ok(mut v) => {
                    all.append(&mut v);
                    any_ok = true;
                },
                Err(e) => errors.push(e),
            }
            proof {
                i = i + 1;
                assert(rest@ =~= orig.subrange(i, orig.len() as int));
                assert(all@ =~= successes(orig.subrange(0, i)));
                assert(errors@ =~= fetch_errors(orig.subrange(0, i)));
            }
        }
        assert(orig.subrange(0, i) =~= orig);
        if any_ok {
            Ok(all)
        } else {
            Err(errors)
        }
    }

    /// The records for what was fetched: from search results, those
    /// `top_from_search` keeps; from trending pages, those `top_from_trending`
    /// keeps among the repositories of the pages that were read, and an error
    /// when none could be read.
    pub fn top_today(cfg: &ProviderCfg, limit: usize, langs: &LanguageFilter, fetched: GitHubFetch, now: i64) -> (r: Result<Vec<Repo>, Vec<String>>)
        ensures
            github_top(strings_view(cfg.exclude_topics@), limit as nat, langs@, fetched, now, r),
    {
        match fetched {
            GitHubFetch::Search(found) => Ok(Self::top_from_search(found, limit, langs, &cfg.exclude_topics)),
            GitHubFetch::Trending(results) => match Self::gather_trending(results) {
                Ok(found) => Ok(Self::top_from_trending(found, limit, langs, &cfg.exclude_topics, now)),
                Err(e) => Err(e),
            },
        }
    }

    /// The first star fragment, trimmed, that does (`today`) or does not
    /// mention stars gained today.
    fn find_star_text(texts: &Vec<String>, today: bool) -> (r: Option<String>)
        ensures
            opt_view(r) == first_star_text(strings_view(texts@), today),
    {
        let ghost all = strings_view(texts@);
        let n = texts.len();
        let mut i: usize = 0;
        assert(all.subrange(0, n as int) =~= all);
        while i < n
            invariant
                n == texts@.len(),
                all == strings_view(texts@),
                i <= n,
                first_star_text(all, today) == first_star_text(all.subrange(i as int, n as int), today),
            decreases n - i,
        {
            let t = trim_str(texts[i].as_str());
            let daily = contains_str(t.as_str(), "stars today");
            proof {
                let s = all.subrange(i as int, n as int);
                assert(s[0] == texts@[i as int]@);
                assert(s.drop_first() =~= all.subrange(i + 1, n as int));
            }
            if daily == today {
                return Some(t);
            }
            i = i + 1;
        }
        None
    }

    /// Reads the star counts of a block's fragments.
    pub fn star_counts(texts: &Vec<String>) -> (r: (Option<u64>, Option<u64>))
        ensures
            r.0 == total_stars(strings_view(texts@)),
            r.1 == today_stars(strings_view(texts@)),
    {
        let total = match Self::find_star_text(texts, false) {
            Some(t) => {
                let plain = remove_char(t.as_str(), ',');
                match first_word_str(plain.as_str()) {
                    Some(w) => parse_u64(w.as_str()),
                    None => None,
                }
            },
            None => None,
        };
        let today = match Self::find_star_text(texts, true) {
            Some(t) => match first_word_str(t.as_str()) {
                Some(w) => {
                    let plain = remove_char(w.as_str(), ',');
                    parse_u64(plain.as_str())
                },
                None => None,
            },
            None => None,
        };
        (total, today)
    }

    /// The repository of one block of the trending page, when the block has
    /// a title link with a target.
    pub fn read_article(a: ArticleParts) -> (r: Option<TrendingRepo>)
        ensures
            r is Some <==> readable(a@),
            r matches Some(t) ==> trending_read(t, a@),
    {
        let ghost a0 = a;
        let (title, href) = match (&a.title, &a.href) {
            (Some(t), Some(h)) => (t, h),
            _ => return None,
        };
        let name = strip_white_space(title.as_str());
        let url = "https://github.com".to_owned().concat(href.as_str());
        let description = match &a.description {
            Some(d) => {
                let t = trim_str(d.as_str());
                if t.as_str().unicode_len() == 0 {
                    None
                } else {
                    Some(t)
                }
            },
            None => None,
        };
        let language = match &a.language {
            Some(l) => Some(trim_str(l.as_str())),
            None => None,
        };
        let (stars_total, stars_today) = Self::star_counts(&a.stars);
        Some(TrendingRepo { name, description, language, stars_today, stars_total, url, topics: Vec::new() })
    }

    /// The repositories of a trending page, read block by block; a page with
    /// none is an error rather than an empty result.
    pub fn parse_trending(articles: Vec<ArticleParts>) -> (r: Result<Vec<TrendingRepo>, TrendingPageError>)
        ensures
            r is Err <==> article_views(articles@).filter(|a: ArticleView| readable(a)).len() == 0,
            r matches Ok(v) ==> trending_page(article_views(articles@), v@),
    {
        let ghost orig = articles@;
        let mut rest = articles;
        let mut out: Vec<TrendingRepo> = Vec::new();
        let ghost mut i: int = 0;
        while rest.len() > 0
            invariant
                0 <= i <= orig.len(),
                rest@ == orig.subrange(i, orig.len() as int),
                trending_page(article_views(orig.subrange(0, i)), out@),
            decreases rest@.len(),
        {
            let a = rest.remove(0);
            proof {
                reveal(Seq::filter);
                assert(orig.subrange(0, i + 1).drop_last() =~= orig.subrange(0, i));
                assert(orig[i] == a);
                assert(article_views(orig.subrange(0, i + 1)).drop_last() =~= article_views(orig.subrange(0, i)));
                assert(article_views(orig.subrange(0, i + 1)).last() == a@);
            }
            match Self::read_article(a) {
                Some(t) => out.push(t),
                None => {},
            }
            proof {
                i = i + 1;
                assert(rest@ =~= orig.subrange(i, orig.len() as int));
            }
        }
        assert(orig.subrange(0, i) =~= orig);
        if out.len() == 0 {
            Err(TrendingPageError::NoRepositories)
        } else {
            Ok(out)
        }
    }

    /// The repositories of GitHub's trending page, read block by block as
    /// `parse_trending` reads them; a page with no readable block is an error.
    pub fn parse_trending_html(html: &str) -> (r: Result<Vec<TrendingRepo>, TrendingPageError>)
        ensures
            r is Err <==> trending_articles(html@).filter(|a: ArticleView| readable(a)).len() == 0,
            r matches Ok(v) ==> trending_page(trending_articles(html@), v@),
    {
        let block = "article.Box-row";
        let titles = first_texts(html, block, "h2 a");
        let hrefs = first_attrs(html, block, "h2 a", "href");
        let descriptions = first_texts(html, block, "p");
        let languages = first_texts(html, block, "span[itemprop='programmingLanguage']");
        let stars = all_texts(html, block, "span.d-inline-block.float-sm-right");
        let n = titles.len();
        let mut articles: Vec<ArticleParts> = Vec::new();
        let mut i: usize = 0;
        while i < n
            invariant
                n as nat == css_count(html@, "article.Box-row"@),
                titles@.len() == n,
                hrefs@.len() == n,
                descriptions@.len() == n,
                languages@.len() == n,
                stars@.len() == n,
                forall|j: int| 0 <= j < n ==> opt_view(#[trigger] titles@[j]) == css_first_text(html@, "article.Box-row"@, j as nat, "h2 a"@),
                forall|j: int| 0 <= j < n ==> opt_view(#[trigger] hrefs@[j]) == css_first_attr(html@, "article.Box-row"@, j as nat, "h2 a"@, "href"@),
                forall|j: int| 0 <= j < n ==> opt_view(#[trigger] descriptions@[j]) == css_first_text(html@, "article.Box-row"@, j as nat, "p"@),
                forall|j: int| 0 <= j < n ==> opt_view(#[trigger] languages@[j]) == css_first_text(html@, "article.Box-row"@, j as nat, "span[itemprop='programmingLanguage']"@),
                forall|j: int| 0 <= j < n ==> strings_view((#[trigger] stars@[j])@) == css_all_texts(html@, "article.Box-row"@, j as nat, "span.d-inline-block.float-sm-right"@),
                i <= n,
                articles@.len() == i,
                forall|j: int| 0 <= j < i ==> (#[trigger] articles@[j])@ == article_at(html@, j as nat),
            decreases n - i,
        {
            let a = ArticleParts {
                title: clone_opt(&titles[i]),
                href: clone_opt(&hrefs[i]),
                description: clone_opt(&descriptions[i]),
                language: clone_opt(&languages[i]),
                stars: clone_strings(&stars[i]),
            };
            articles.push(a);
            i = i + 1;
        }
        assert(article_views(articles@) =~= trending_articles(html@));
        Self::parse_trending(articles)
    }

    /// Whether no topic matches an excluded one.
    fn allowed(topics: &Vec<String>, exclude: &Vec<String>) -> (r: bool)
        ensures
            r == topics_allowed(strings_view(topics@), strings_view(exclude@)),
    {
        let mut i: usize = 0;
        while i < topics.len()
            invariant
                i <= topics@.len(),
                forall|j: int| 0 <= j < i ==> !ci_member(strings_view(exclude@), #[trigger] strings_view(topics@)[j]),
            decreases topics@.len() - i,
        {
            if contains_ignore_ascii_case(exclude, topics[i].as_str()) {
                assert(strings_view(topics@)[i as int] == topics@[i as int]@);
                return false;
            }
            assert(strings_view(topics@)[i as int] == topics@[i as int]@);
            i = i + 1;
        }
        true
    }

    /// The records for search results: those with a name and an address,
    /// whose language passes the filter and none of whose topics is excluded, the first `limit` of them
    /// in search order.
    pub fn top_from_search(found: Vec<GitHubRepository>, limit: usize, langs: &LanguageFilter, exclude: &Vec<String>) -> (r: Vec<Repo>)
        ensures
            search_top(found@, limit as nat, langs@, strings_view(exclude@), r@),
    {
        let ghost orig = found@;
        let ghost keep = search_keeps(langs@, strings_view(exclude@));
        let mut rest = found;
        let mut out: Vec<Repo> = Vec::new();
        let ghost mut i: int = 0;
        while rest.len() > 0 && out.len() < limit
            invariant
                keep == search_keeps(langs@, strings_view(exclude@)),
                0 <= i <= orig.len(),
                rest@ == orig.subrange(i, orig.len() as int),
                out@.len() == orig.subrange(0, i).filter(keep).len(),
                out@.len() <= limit,
                forall|j: int| 0 <= j < out@.len() ==> search_record(#[trigger] out@[j], orig.subrange(0, i).filter(keep)[j]),
            decreases rest@.len(),
        {
            let g = rest.remove(0);
            let k = g.full_name.as_str().unicode_len() > 0 && g.html_url.as_str().unicode_len() > 0
                && langs.matches(g.language.as_ref()) && Self::allowed(&g.topics, exclude);
            proof {
                reveal(Seq::filter);
                assert(orig.subrange(0, i + 1).drop_last() =~= orig.subrange(0, i));
                assert(orig[i] == g);
            }
            if k {
                let last_activity = parse_activity(&Some(g.updated_at));
                let repo = Repo {
                    provider: "github".to_owned(),
                    icon: "[GH]".to_owned(),
                    name: g.full_name,
                    language: g.language,
                    description: g.description,
                    url: g.html_url,
                    stars_today: None,
                    stars_total: Some(g.stargazers_count),
                    last_activity,
                    topics: g.topics,
                };
                out.push(repo);
            }
            proof {
                i = i + 1;
                assert(rest@ =~= orig.subrange(i, orig.len() as int));
            }
        }
        proof {
            lemma_filter_prefix(orig, keep, i);
            if rest@.len() == 0 {
                assert(orig.subrange(0, i) =~= orig);
            }
        }
        out
    }

    /// The records for trending repositories: those with a name and an
    /// address, whose language passes the filter and none of whose topics is
    /// excluded, the first `limit` of them in page order, active at `now`.
    pub fn top_from_trending(
        found: Vec<TrendingRepo>,
        limit: usize,
        langs: &LanguageFilter,
        exclude: &Vec<String>,
        now: i64,
    ) -> (r: Vec<Repo>)
        ensures
            trending_top(found@, limit as nat, langs@, strings_view(exclude@), now, r@),
    {
        let ghost orig = found@;
        let ghost keep = trending_keeps(langs@, strings_view(exclude@));
        let mut rest = found;
        let mut out: Vec<Repo> = Vec::new();
        let ghost mut i: int = 0;
        while rest.len() > 0 && out.len() < limit
            invariant
                keep == trending_keeps(langs@, strings_view(exclude@)),
                0 <= i <= orig.len(),
                rest@ == orig.subrange(i, orig.len() as int),
                out@.len() == orig.subrange(0, i).filter(keep).len(),
                out@.len() <= limit,
                forall|j: int| 0 <= j < out@.len() ==> trending_record(#[trigger] out@[j], orig.subrange(0, i).filter(keep)[j], now),
            decreases rest@.len(),
        {
            let t = rest.remove(0);
            let k = t.name.as_str().unicode_len() > 0 && t.url.as_str().unicode_len() > 0 && langs.matches(
                t.language.as_ref(),
            ) && Self::allowed(&t.topics, exclude);
            proof {
                reveal(Seq::filter);
                assert(orig.subrange(0, i + 1).drop_last() =~= orig.subrange(0, i));
                assert(orig[i] == t);
            }
            if k {
                let repo = Repo {
                    provider: "github".to_owned(),
                    icon: "[GH]".to_owned(),
                    name: t.name,
                    language: t.language,
                    description: t.description,
                    url: t.url,
                    stars_today: t.stars_today,
                    stars_total: t.stars_total,
                    last_activity: Some(now),
                    topics: t.topics,
                };
                out.push(repo);
            }
            proof {
                i = i + 1;
                assert(rest@ =~= orig.subrange(i, orig.len() as int));
            }
        }
        proof {
            lemma_filter_prefix(orig, keep, i);
            if rest@.len() == 0 {
                assert(orig.subrange(0, i) =~= orig);
            }
        }
        out
    }
}

/// What `GitHub::top_today` returns for what was fetched.
pub open spec fn github_top(
    exclude: Seq<Seq<char>>,
    limit: nat,
    langs: Seq<Seq<char>>,
    fetched: GitHubFetch,
    now: i64,
    r: Result<Vec<Repo>, Vec<String>>,
) -> bool {
    match fetched {
        GitHubFetch::Search(found) => r matches Ok(v) && search_top(found@, limit, langs, exclude, v@),
        GitHubFetch::Trending(results) => {
            &&& (r is Err <==> none_succeeded(results@))
            &&& (r matches Ok(v) ==> trending_top(successes(results@), limit, langs, exclude, now, v@))
            &&& (r matches Err(e) ==> e@ == fetch_errors(results@))
        },
    }
}

/// Whatever was fetched, the GitHub adapter returns at most `limit` records,
/// each from github with a nonempty name and url, a language that passes the
/// filter, and no topic that matches an excluded one without regard to ASCII
/// case.
pub proof fn lemma_github_limit(
    exclude: Seq<Seq<char>>,
    limit: nat,
    langs: Seq<Seq<char>>,
    fetched: GitHubFetch,
    now: i64,
    r: Result<Vec<Repo>, Vec<String>>,
)
    requires
        github_top(exclude, limit, langs, fetched, now, r),
    ensures
        r matches Ok(v) ==> v@.len() <= limit && forall|i: int| 0 <= i < v@.len() ==> {
            &&& language_matches(langs, opt_view((#[trigger] v@[i]).language))
            &&& topics_allowed(strings_view(v@[i].topics@), exclude)
            &&& v@[i].provider@ == "github"@
            &&& v@[i].icon@ == "[GH]"@
            &&& v@[i].name@.len() > 0
            &&& v@[i].url@.len() > 0
        },
{
    if let Ok(v) = r {
        let out = v@;
        match fetched {
            GitHubFetch::Search(found) => {
                let made_from = |r: Repo, g: GitHubRepository| search_record(r, g);
                if out.len() > 0 {
                    lemma_selected(found@, search_keeps(langs, exclude), limit, out, made_from, 0);
                }
                assert forall|i: int| 0 <= i < out.len() implies {
                    &&& language_matches(langs, opt_view((#[trigger] out[i]).language))
                    &&& topics_allowed(strings_view(out[i].topics@), exclude)
                    &&& out[i].provider@ == "github"@
                    &&& out[i].icon@ == "[GH]"@
                    &&& out[i].name@.len() > 0
                    &&& out[i].url@.len() > 0
                } by {
                    let g = lemma_selected(found@, search_keeps(langs, exclude), limit, out, made_from, i);
                }
            },
            GitHubFetch::Trending(results) => {
                let found = successes(results@);
                let made_from = |r: Repo, t: TrendingRepo| trending_record(r, t, now);
                if out.len() > 0 {
                    lemma_selected(found, trending_keeps(langs, exclude), limit, out, made_from, 0);
                }
                assert forall|i: int| 0 <= i < out.len() implies {
                    &&& language_matches(langs, opt_view((#[trigger] out[i]).language))
                    &&& topics_allowed(strings_view(out[i].topics@), exclude)
                    &&& out[i].provider@ == "github"@
                    &&& out[i].icon@ == "[GH]"@
                    &&& out[i].name@.len() > 0
                    &&& out[i].url@.len() > 0
                } by {
                    let t = lemma_selected(found, trending_keeps(langs, exclude), limit, out, made_from, i);
                }
            },
        }
    }
}

} // verus!
