use vstd::prelude::*;

pub mod cache;
pub mod controller;
pub mod date;
pub mod download;
pub mod pipeline;
pub mod retry;
pub mod state;
pub mod text;

use crate::cache::{parse_url, parsed_url_of};
use crate::date::Date;
use crate::text::chars_of;

verus! {

/// One day to fetch, with the address of its image where that is known already.
#[derive(Clone, Debug)]
pub struct DateUrl {
    pub date: Date,
    pub image_url: Option<String>,
}

/// Image format (and file extension) to save images as.
#[derive(Clone, Copy, Debug, PartialEq, Eq, Structural)]
pub enum ImageFormat {
    Gif,
    Png,
    Jpg,
}

impl ImageFormat {
    pub open spec fn spec_name(self) -> Seq<char> {
        match self {
            ImageFormat::Gif => "gif"@,
            ImageFormat::Png => "png"@,
            ImageFormat::Jpg => "jpg"@,
        }
    }

    /// The name of the format, which is also its file extension.
    pub fn name(&self) -> (r: &'static str)
        ensures
            r@ == self.spec_name(),
    {
        match self {
            ImageFormat::Gif => "gif",
            ImageFormat::Png => "png",
            ImageFormat::Jpg => "jpg",
        }
    }

    /// Whether images must be decoded and encoded again to be saved in this
    /// format; the source's own format is saved byte for byte.
    pub fn needs_reencoding(&self) -> (r: bool)
        ensures
            r == (*self != ImageFormat::Gif),
    {
        match self {
            ImageFormat::Gif => false,
            _ => true,
        }
    }
}

/// Whether `s` begins with `p`.
pub open spec fn has_prefix(s: Seq<char>, p: Seq<char>) -> bool {
    p.len() <= s.len() && s.subrange(0, p.len() as int) == p
}

/// Whether `url` names a remote resource: it begins with `http://` or `https://`.
pub open spec fn is_remote(url: Seq<char>) -> bool {
    has_prefix(url, "http://"@) || has_prefix(url, "https://"@)
}

fn starts_with_chars(s: &[char], p: &[char]) -> (r: bool)
    ensures
        r == has_prefix(s@, p@),
{
    if p.len() > s.len() {
        return false;
    }
    let mut same = true;
    let mut i: usize = 0;
    while i < p.len()
        invariant
            p@.len() <= s@.len(),
            i <= p@.len(),
            same <==> forall|k: int| 0 <= k < i ==> s@[k] == p@[k],
        decreases p.len() - i,
    {
        if s[i] != p[i] {
            same = false;
        }
        i += 1;
    }
    assert(same <==> s@.subrange(0, p@.len() as int) =~= p@) by {
        if !same {
            let k = choose|k: int| 0 <= k < p@.len() && s@[k] != p@[k];
            assert(s@.subrange(0, p@.len() as int)[k] != p@[k]);
        }
    }
    same
}

/// Whether `url` names a remote resource, by its scheme.
pub fn is_remote_url(url: &str) -> (r: bool)
    ensures
        r == is_remote(url@),
{
    let s = chars_of(url);
    starts_with_chars(&s, &chars_of("http://")) || starts_with_chars(&s, &chars_of("https://"))
}

/// A place to read from: a remote address or a local path.
#[derive(Clone, Debug)]
pub enum UrlPath {
    Remote(String),
    Local(String),
}

/// Why a place could not be read as one.
#[derive(Clone, Copy, Debug, PartialEq, Eq, Structural)]
pub enum UrlPathError {
    /// It names a remote resource, and is not a valid URL.
    InvalidUrl,
}

impl UrlPath {
    /// Reads `path` as a remote address where it begins with a web scheme,
    /// and as a local path otherwise.
    pub fn from(path: &str) -> (r: Result<UrlPath, UrlPathError>)
        ensures
            !is_remote(path@) ==> (r matches Ok(UrlPath::Local(p)) && p@ == path@),
            is_remote(path@) ==> match parsed_url_of(path@) {
                Some(u) => r matches Ok(UrlPath::Remote(v)) && v@ == u,
                None => r == Err::<UrlPath, UrlPathError>(UrlPathError::InvalidUrl),
            },
    {
        if is_remote_url(path) {
            match parse_url(path) {
                Some(url) => Ok(UrlPath::Remote(url)),
                None => Err(UrlPathError::InvalidUrl),
            }
        } else {
            Ok(UrlPath::Local(path.to_owned()))
        }
    }
}

/// Where images are fetched from.
#[derive(Clone, Copy, Debug, PartialEq, Eq, Structural)]
pub enum Source {
    Gocomics,
}

impl Source {
    /// The name of the source.
    pub fn name(&self) -> (r: &'static str)
        ensures
            r@ == "gocomics"@,
    {
        "gocomics"
    }
}

} // verus!
