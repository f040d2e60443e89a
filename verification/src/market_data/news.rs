//! Market news: articles about the given symbols.

use crate::strutil::opt_field;
use crate::strutil::push_bool;
use crate::strutil::push_i64;
use crate::strutil::push_join;
use crate::strutil::push_opt;
use crate::strutil::push_sort;
use crate::strutil::spec_bool;
use crate::strutil::spec_dec_int;
use crate::strutil::spec_join;
use crate::strutil::spec_sort;
use crate::strutil::to_owned_vec;
use vstd::prelude::*;
use vstd::string::StringExecFns;

verus! {

/// One news article.
#[derive(Debug, Clone)]
pub struct NewsArticle {
    pub author: String,
    pub content: String,
    pub created_at: String,
    pub headline: String,
    pub id: i32,
    pub images: Vec<NewsImage>,
    pub source: String,
    pub summary: String,
    pub symbols: Vec<String>,
    pub updated_at: String,
    pub url: String,
}

/// One rendering of an article's image.
#[derive(Debug, Clone)]
pub struct NewsImage {
    pub url: String,
    pub size: String,
}

/// One page of news articles.
#[derive(Debug, Clone)]
pub struct NewsResponse {
    pub news: Vec<NewsArticle>,
    pub next_page_token: Option<String>,
}

/// Query for news articles about the given symbols.
pub struct NewsQuery {
    pub url: String,
    pub symbols: Vec<String>,
    pub start: Option<String>,
    pub end: Option<String>,
    pub limit: Option<i32>,
    pub include_content: Option<bool>,
    pub exclude_contentless: Option<bool>,
    pub sort_asc: bool,
    pub sort_desc: bool,
}

impl NewsQuery {
    /// The full request URL this query stands for.
    pub open spec fn spec_url(self) -> Seq<char> {
        self.url@ + "?symbols="@ + spec_join(self.symbols@) + opt_field("&start="@, self.start) + opt_field("&end="@, self.end) + (match self.limit {
            Some(n) => "&limit="@ + spec_dec_int(n as int),
            None => Seq::empty(),
        }) + (match self.include_content {
            Some(b) => "&include_content="@ + spec_bool(b),
            None => Seq::empty(),
        }) + (match self.exclude_contentless {
            Some(b) => "&exclude_contentless="@ + spec_bool(b),
            None => Seq::empty(),
        }) + spec_sort(self.sort_asc, self.sort_desc)
    }

    /// A fresh query over the given symbols.
    pub fn new(symbols: Vec<&str>) -> (r: Self)
        ensures
            r.url@ == "https://data.alpaca.markets/v1beta1/news"@,
            r.symbols@.len() == symbols@.len(),
            forall|i: int| 0 <= i < symbols@.len() ==> r.symbols@[i]@ == symbols@[i]@,
            r.start is None,
            r.end is None,
            r.limit is None,
            r.include_content is None,
            r.exclude_contentless is None,
            !r.sort_asc,
            !r.sort_desc,
    {
        NewsQuery {
            url: "https://data.alpaca.markets/v1beta1/news".to_owned(),
            symbols: to_owned_vec(symbols),
            start: None,
            end: None,
            limit: None,
            include_content: None,
            exclude_contentless: None,
            sort_asc: false,
            sort_desc: false,
        }
    }

    /// Sets the first timestamp of the span.
    pub fn start(self, start: &str) -> (r: Self)
        ensures
            r.start matches Some(s) && s@ == start@,
            r == (Self { start: r.start, ..self }),
    {
        Self { start: Some(start.to_owned()), ..self }
    }

    /// Sets the last timestamp of the span.
    pub fn end(self, end: &str) -> (r: Self)
        ensures
            r.end matches Some(s) && s@ == end@,
            r == (Self { end: r.end, ..self }),
    {
        Self { end: Some(end.to_owned()), ..self }
    }

    /// Caps how many entries come back.
    pub fn limit(self, limit: i32) -> (r: Self)
        ensures
            r.limit == Some(limit),
            r == (Self { limit: r.limit, ..self }),
    {
        Self { limit: Some(limit), ..self }
    }

    /// Asks for each article body too.
    pub fn include_content(self, include_content: bool) -> (r: Self)
        ensures
            r.include_content == Some(include_content),
            r == (Self { include_content: r.include_content, ..self }),
    {
        Self { include_content: Some(include_content), ..self }
    }

    /// Leaves articles without a body out.
    pub fn exclude_contentless(self, exclude_contentless: bool) -> (r: Self)
        ensures
            r.exclude_contentless == Some(exclude_contentless),
            r == (Self { exclude_contentless: r.exclude_contentless, ..self }),
    {
        Self { exclude_contentless: Some(exclude_contentless), ..self }
    }

    /// Asks for newest first; the flag itself is not consulted.
    pub fn sort_desc(self, sort_desc: bool) -> (r: Self)
        ensures
            r.sort_desc,
            !r.sort_asc,
            r == (Self { sort_asc: r.sort_asc, sort_desc: r.sort_desc, ..self }),
    {
        Self { sort_desc: true, sort_asc: false, ..self }
    }

    /// Asks for oldest first; the flag itself is not consulted.
    pub fn sort_asc(self, sort_asc: bool) -> (r: Self)
        ensures
            r.sort_asc,
            !r.sort_desc,
            r == (Self { sort_asc: r.sort_asc, sort_desc: r.sort_desc, ..self }),
    {
        Self { sort_asc: true, sort_desc: false, ..self }
    }

    /// Writes the request URL, query parameters in their fixed order.
    #[verifier::rlimit(60)]
    pub fn build(&self) -> (r: String)
        ensures
            r@ == self.spec_url(),
    {
        let mut q = self.url.clone();
        q.append("?symbols=");
        push_join(&mut q, &self.symbols);
        push_opt(&mut q, "&start=", &self.start);
        push_opt(&mut q, "&end=", &self.end);
        if let Some(n) = self.limit {
            q.append("&limit=");
            push_i64(&mut q, n as i64);
        }
        if let Some(b) = self.include_content {
            q.append("&include_content=");
            push_bool(&mut q, b);
        }
        if let Some(b) = self.exclude_contentless {
            q.append("&exclude_contentless=");
            push_bool(&mut q, b);
        }
        push_sort(&mut q, self.sort_asc, self.sort_desc);
        assert(q@ =~= self.spec_url());
        q
    }
}

} // verus!
