//! Addresses of blogs and posts.

use crate::outside::{read_url, url_parts, UrlParts, UrlPartsView};
use crate::text::{owned, text_equal, texts};
use vstd::prelude::*;
use vstd::string::StringExecFns;

verus! {

/// What an address points to.
#[derive(Debug, PartialEq, Eq)]
pub enum BoostyUrl {
    /// A blog, by its name.
    Blog(String),
    /// One post of a blog.
    Post { blog: String, post_id: String },
}

/// The mathematical form of `BoostyUrl`.
pub enum BoostyUrlView {
    Blog(Seq<char>),
    Post { blog: Seq<char>, post_id: Seq<char> },
}

impl View for BoostyUrl {
    type V = BoostyUrlView;

    open spec fn view(&self) -> BoostyUrlView {
        match *self {
            BoostyUrl::Blog(blog) => BoostyUrlView::Blog(blog@),
            BoostyUrl::Post { blog, post_id } => BoostyUrlView::Post {
                blog: blog@,
                post_id: post_id@,
            },
        }
    }
}

impl BoostyUrl {
    /// The name of the blog that the address belongs to.
    pub open spec fn blog_name(self) -> Seq<char> {
        match self {
            BoostyUrl::Blog(blog) => blog@,
            BoostyUrl::Post { blog, .. } => blog@,
        }
    }

    /// The name of the blog that the address belongs to.
    pub fn blog(&self) -> (r: &str)
        ensures
            r@ == self.blog_name(),
    {
        match self {
            BoostyUrl::Blog(blog) => blog.as_str(),
            BoostyUrl::Post { blog, .. } => blog.as_str(),
        }
    }
}

/// Why an address was refused.
#[derive(Debug, PartialEq, Eq)]
pub enum UrlError {
    /// The text is no absolute URL.
    Invalid,
    /// The URL has no host.
    MissingHost,
    /// The URL has another host than the expected one.
    WrongHost(String),
    /// The URL has no path segments.
    MissingPath,
    /// The path is neither a blog's nor a post's.
    UnexpectedShape,
}

/// The mathematical form of `UrlError`.
pub enum UrlErrorView {
    Invalid,
    MissingHost,
    WrongHost(Seq<char>),
    MissingPath,
    UnexpectedShape,
}

impl View for UrlError {
    type V = UrlErrorView;

    open spec fn view(&self) -> UrlErrorView {
        match *self {
            UrlError::Invalid => UrlErrorView::Invalid,
            UrlError::MissingHost => UrlErrorView::MissingHost,
            UrlError::WrongHost(host) => UrlErrorView::WrongHost(host@),
            UrlError::MissingPath => UrlErrorView::MissingPath,
            UrlError::UnexpectedShape => UrlErrorView::UnexpectedShape,
        }
    }
}

/// The words for a refused address.
pub open spec fn url_error_text(error: UrlErrorView, input: Seq<char>) -> Seq<char> {
    match error {
        UrlErrorView::Invalid => "Invalid URL: '"@ + input + "'"@,
        UrlErrorView::MissingHost => "URL does not contain a host (expected boosty.to)"@,
        UrlErrorView::WrongHost(host) => "Expected host 'boosty.to', but got '"@ + host + "'"@,
        UrlErrorView::MissingPath => "URL does not contain path segments"@,
        UrlErrorView::UnexpectedShape => "URL does not match expected Boosty format"@,
    }
}

impl UrlError {
    /// Says in words why the address `input` was refused.
    pub fn message(&self, input: &str) -> (r: String)
        ensures
            r@ == url_error_text(self@, input@),
    {
        match self {
            UrlError::Invalid => {
                let mut m = owned("Invalid URL: '");
                m.append(input);
                m.append("'");
                m
            },
            UrlError::MissingHost => owned("URL does not contain a host (expected boosty.to)"),
            UrlError::WrongHost(host) => {
                let mut m = owned("Expected host 'boosty.to', but got '");
                m.append(host.as_str());
                m.append("'");
                m
            },
            UrlError::MissingPath => owned("URL does not contain path segments"),
            UrlError::UnexpectedShape => owned("URL does not match expected Boosty format"),
        }
    }
}

/// The segments of a path that are not empty, in their order.
pub open spec fn filled(segments: Seq<Seq<char>>) -> Seq<Seq<char>>
    decreases segments.len(),
{
    if segments.len() == 0 {
        segments
    } else if segments.last().len() == 0 {
        filled(segments.drop_last())
    } else {
        filled(segments.drop_last()).push(segments.last())
    }
}

/// What the parts of a URL point to.
///
/// The host must be `boosty.to`. Of the path, only the segments that are
/// not empty count: one segment names a blog; three segments of which the
/// second is `posts` name a blog and a post.
pub open spec fn classify(parts: Option<UrlPartsView>) -> Result<BoostyUrlView, UrlErrorView> {
    match parts {
        None => Err(UrlErrorView::Invalid),
        Some(parts) => match parts.host {
            None => Err(UrlErrorView::MissingHost),
            Some(host) => if host != "boosty.to"@ {
                Err(UrlErrorView::WrongHost(host))
            } else {
                match parts.segments {
                    None => Err(UrlErrorView::MissingPath),
                    Some(segments) => {
                        let names = filled(segments);
                        if names.len() == 1 {
                            Ok(BoostyUrlView::Blog(names[0]))
                        } else if names.len() == 3 && names[1] == "posts"@ {
                            Ok(BoostyUrlView::Post { blog: names[0], post_id: names[2] })
                        } else {
                            Err(UrlErrorView::UnexpectedShape)
                        }
                    },
                }
            },
        },
    }
}

/// The mathematical form of what reading an address gives.
pub open spec fn url_result_view(r: Result<BoostyUrl, UrlError>) -> Result<
    BoostyUrlView,
    UrlErrorView,
> {
    match r {
        Ok(url) => Ok(url@),
        Err(error) => Err(error@),
    }
}

/// The mathematical form of the parts of a URL, where there are any.
pub open spec fn parts_view(parts: Option<UrlParts>) -> Option<UrlPartsView> {
    match parts {
        Some(p) => Some(p@),
        None => None,
    }
}

fn filled_segments(segments: Vec<String>) -> (names: Vec<String>)
    ensures
        texts(names@) == filled(texts(segments@)),
{
    let ghost all = segments@;
    let mut names: Vec<String> = Vec::new();
    assert(all.take(0) =~= Seq::<String>::empty());
    assert(texts(names@) =~= filled(texts(all.take(0))));
    for segment in it: segments
        invariant
            it.seq() == all,
            texts(names@) == filled(texts(all.take(it.index() as int))),
    {
        let ghost i = it.index() as int;
        let ghost before = texts(names@);
        proof {
            assert(texts(all.take(i + 1)).drop_last() =~= texts(all.take(i)));
            assert(texts(all.take(i + 1)).last() == segment@);
        }
        if !segment.as_str().is_empty() {
            names.push(segment);
            assert(texts(names@) =~= before.push(segment@));
        }
    }
    assert(all.take(all.len() as int) =~= all);
    names
}

/// Decides what a URL, given by its parts, points to.
pub fn classify_url(parts: Option<UrlParts>) -> (r: Result<BoostyUrl, UrlError>)
    ensures
        url_result_view(r) == classify(parts_view(parts)),
{
    let parts = match parts {
        Some(parts) => parts,
        None => {
            return Err(UrlError::Invalid);
        },
    };
    let UrlParts { host, segments } = parts;
    let host = match host {
        Some(host) => host,
        None => {
            return Err(UrlError::MissingHost);
        },
    };
    if !text_equal(host.as_str(), "boosty.to") {
        return Err(UrlError::WrongHost(host));
    }
    let segments = match segments {
        Some(segments) => segments,
        None => {
            return Err(UrlError::MissingPath);
        },
    };
    let mut names = filled_segments(segments);
    if names.len() == 1 {
        let blog = names.remove(0);
        Ok(BoostyUrl::Blog(blog))
    } else if names.len() == 3 && text_equal(names[1].as_str(), "posts") {
        let ghost all = texts(names@);
        let post_id = names.remove(2);
        let blog = names.remove(0);
        assert(blog@ == all[0] && post_id@ == all[2]);
        Ok(BoostyUrl::Post { blog, post_id })
    } else {
        Err(UrlError::UnexpectedShape)
    }
}

/// Reads the address of a blog or of a post.
pub fn parse_boosty_url(url_str: &str) -> (r: Result<BoostyUrl, UrlError>)
    ensures
        url_result_view(r) == classify(url_parts(url_str@)),
{
    classify_url(read_url(url_str))
}

} // verus!
