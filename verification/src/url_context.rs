//! An address to download from, with the address to resume after.

use crate::outside::url_parts;
use crate::parser::{
    classify, parse_boosty_url, url_error_text, BoostyUrl, BoostyUrlView, UrlError, UrlErrorView,
};
use crate::text::{owned, text_equal};
use vstd::prelude::*;
use vstd::string::StringExecFns;

verus! {

/// The address to download from and, where given, the address of the post
/// after which the download resumes.
#[derive(Debug, PartialEq, Eq)]
pub struct UrlContext {
    pub url: BoostyUrl,
    pub offset: Option<BoostyUrl>,
}

/// The mathematical form of `UrlContext`.
pub struct UrlContextView {
    pub url: BoostyUrlView,
    pub offset: Option<BoostyUrlView>,
}

impl View for UrlContext {
    type V = UrlContextView;

    open spec fn view(&self) -> UrlContextView {
        UrlContextView {
            url: self.url@,
            offset: match self.offset {
                Some(offset) => Some(offset@),
                None => None,
            },
        }
    }
}

/// Why a pair of addresses was refused.
#[derive(Debug, PartialEq, Eq)]
pub enum UrlContextError {
    /// The main address was refused.
    Url(UrlError),
    /// The offset address was refused.
    Offset(UrlError),
    /// The two addresses belong to different blogs.
    DifferentBlog,
}

/// The mathematical form of `UrlContextError`.
pub enum UrlContextErrorView {
    Url(UrlErrorView),
    Offset(UrlErrorView),
    DifferentBlog,
}

impl View for UrlContextError {
    type V = UrlContextErrorView;

    open spec fn view(&self) -> UrlContextErrorView {
        match *self {
            UrlContextError::Url(error) => UrlContextErrorView::Url(error@),
            UrlContextError::Offset(error) => UrlContextErrorView::Offset(error@),
            UrlContextError::DifferentBlog => UrlContextErrorView::DifferentBlog,
        }
    }
}

/// The name of the blog of an address.
pub open spec fn blog_of(url: BoostyUrlView) -> Seq<char> {
    match url {
        BoostyUrlView::Blog(blog) => blog,
        BoostyUrlView::Post { blog, .. } => blog,
    }
}

/// Whether an offset address goes with a main address: there is none, or
/// both belong to the same blog.
pub open spec fn same_blog(url: BoostyUrlView, offset: Option<BoostyUrlView>) -> bool {
    match offset {
        Some(offset) => blog_of(url) == blog_of(offset),
        None => true,
    }
}

/// The context that two parsed addresses make.
pub open spec fn context_of(
    url: Result<BoostyUrlView, UrlErrorView>,
    offset: Option<Result<BoostyUrlView, UrlErrorView>>,
) -> Result<UrlContextView, UrlContextErrorView> {
    match url {
        Err(error) => Err(UrlContextErrorView::Url(error)),
        Ok(url) => match offset {
            None => Ok(UrlContextView { url: url, offset: None }),
            Some(Err(error)) => Err(UrlContextErrorView::Offset(error)),
            Some(Ok(offset)) => if blog_of(url) == blog_of(offset) {
                Ok(UrlContextView { url: url, offset: Some(offset) })
            } else {
                Err(UrlContextErrorView::DifferentBlog)
            },
        },
    }
}

/// The mathematical form of what reading a pair of addresses gives.
pub open spec fn context_result_view(r: Result<UrlContext, UrlContextError>) -> Result<
    UrlContextView,
    UrlContextErrorView,
> {
    match r {
        Ok(context) => Ok(context@),
        Err(error) => Err(error@),
    }
}

/// The mathematical form of an address, where there is one.
pub open spec fn opt_url_view(o: Option<BoostyUrl>) -> Option<BoostyUrlView> {
    match o {
        Some(url) => Some(url@),
        None => None,
    }
}

/// Checks that an offset address, where there is one, belongs to the blog of
/// the main address.
pub fn validate_offset_same_blog(url: &BoostyUrl, offset: &Option<BoostyUrl>) -> (r: Result<
    (),
    UrlContextError,
>)
    ensures
        r is Ok == same_blog(url@, opt_url_view(*offset)),
        r matches Err(error) ==> error@ == UrlContextErrorView::DifferentBlog,
{
    match offset {
        Some(other) => {
            if text_equal(url.blog(), other.blog()) {
                Ok(())
            } else {
                Err(UrlContextError::DifferentBlog)
            }
        },
        None => Ok(()),
    }
}

/// The text of an optional string slice.
pub open spec fn offset_parts(offset_url: Option<&str>) -> Option<Result<
    BoostyUrlView,
    UrlErrorView,
>> {
    match offset_url {
        Some(text) => Some(classify(url_parts(text@))),
        None => None,
    }
}

/// Reads the main address and the offset address and checks that they go
/// together.
pub fn build_url_context(url: &str, offset_url: Option<&str>) -> (r: Result<
    UrlContext,
    UrlContextError,
>)
    ensures
        context_result_view(r) == context_of(classify(url_parts(url@)), offset_parts(offset_url)),
{
    let parsed_url = match parse_boosty_url(url) {
        Ok(parsed) => parsed,
        Err(error) => {
            return Err(UrlContextError::Url(error));
        },
    };
    let parsed_offset = match offset_url {
        Some(text) => match parse_boosty_url(text) {
            Ok(parsed) => Some(parsed),
            Err(error) => {
                return Err(UrlContextError::Offset(error));
            },
        },
        None => None,
    };
    match validate_offset_same_blog(&parsed_url, &parsed_offset) {
        Ok(()) => Ok(UrlContext { url: parsed_url, offset: parsed_offset }),
        Err(error) => Err(error),
    }
}

/// The words for a refused pair of addresses.
pub open spec fn context_error_text(
    error: UrlContextErrorView,
    url: Seq<char>,
    offset_url: Seq<char>,
) -> Seq<char> {
    match error {
        UrlContextErrorView::Url(inner) => "Failed to parse Boosty URL '"@ + url + "': "@
            + url_error_text(inner, url),
        UrlContextErrorView::Offset(inner) => "Failed to parse offset Boosty URL '"@ + offset_url
            + "': "@ + url_error_text(inner, offset_url),
        UrlContextErrorView::DifferentBlog => "Offset URL belongs to a different blog"@,
    }
}

impl UrlContextError {
    /// Says in words why the pair of addresses was refused.
    pub fn message(&self, url: &str, offset_url: &str) -> (r: String)
        ensures
            r@ == context_error_text(self@, url@, offset_url@),
    {
        match self {
            UrlContextError::Url(inner) => {
                let mut m = owned("Failed to parse Boosty URL '");
                m.append(url);
                m.append("': ");
                m.append(inner.message(url).as_str());
                m
            },
            UrlContextError::Offset(inner) => {
                let mut m = owned("Failed to parse offset Boosty URL '");
                m.append(offset_url);
                m.append("': ");
                m.append(inner.message(offset_url).as_str());
                m
            },
            UrlContextError::DifferentBlog => owned("Offset URL belongs to a different blog"),
        }
    }
}

} // verus!
