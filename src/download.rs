use vstd::prelude::*;
use vstd::string::*;

use crate::cache::{parse_url, parsed_url_of, IMAGE_URL_PREFIX};
use crate::date::{date_text, Date};
use crate::text::string_from_chars;
use vstd::utf8::{decode_utf8, is_char_boundary};
use crate::ImageFormat;

verus! {

/// How many characters an image address has, from `IMAGE_URL_PREFIX` on.
pub const IMAGE_URL_LENGTH: usize = 74;

/// The page of the source that shows each day's image.
pub const PAGE_BASE_URL: &'static str = "https://www.gocomics.com/garfield";

/// The address of the page for date `d` under `base_url`, sent through the
/// proxy where there is one: `<proxy>?<base_url>/<yyyy>/<mm>/<dd>`.
pub open spec fn page_url(proxy: Option<Seq<char>>, base_url: Seq<char>, d: (int, int, int)) -> Seq<
    char,
> {
    let through = match proxy {
        Some(p) => p + "?"@,
        None => Seq::empty(),
    };
    through + base_url + "/"@ + date_text(d, '/')
}

/// `url` sent through the proxy where there is one: `<proxy>?<url>`.
pub open spec fn proxied(proxy: Option<Seq<char>>, url: Seq<char>) -> Seq<char> {
    match proxy {
        Some(p) => p + "?"@ + url,
        None => url,
    }
}

/// The name of the file that holds the image of date `d` in `format`:
/// `<yyyy>-<mm>-<dd>.<extension>`.
pub open spec fn image_filename_of(d: (int, int, int), format: ImageFormat) -> Seq<char> {
    date_text(d, '-') + "."@ + format.spec_name()
}

/// The address of the page that shows the image of `date`.
pub fn get_page_url(proxy: Option<&str>, base_url: &str, date: &Date) -> (r: String)
    ensures
        r@ == page_url(
            match proxy {
                Some(p) => Some(p@),
                None => None,
            },
            base_url@,
            date@,
        ),
{
    let mut url = String::new();
    if let Some(proxy) = proxy {
        url = url.concat(proxy).concat("?");
    }
    let date_path = string_from_chars(&date.text('/'));
    let r = url.concat(base_url).concat("/").concat(date_path.as_str());
    assert(r@ =~= page_url(
        match proxy {
            Some(p) => Some(p@),
            None => None,
        },
        base_url@,
        date@,
    ));
    r
}

/// The address to request for `url`, through the proxy where there is one.
pub fn proxied_url(proxy: Option<&str>, url: &str) -> (r: String)
    ensures
        r@ == proxied(
            match proxy {
                Some(p) => Some(p@),
                None => None,
            },
            url@,
        ),
{
    match proxy {
        Some(p) => p.to_owned().concat("?").concat(url),
        None => url.to_owned(),
    }
}

/// The name of the file that holds the image of `date` in `format`.
pub fn image_filename(date: &Date, format: ImageFormat) -> (r: String)
    ensures
        r@ == image_filename_of(date@, format),
{
    let stem = string_from_chars(&date.text('-'));
    let r = stem.concat(".").concat(format.name());
    assert(r@ =~= image_filename_of(date@, format));
    r
}

/// Whether `p` occurs in `s` at index `i`.
pub open spec fn occurs_at<A>(s: Seq<A>, p: Seq<A>, i: int) -> bool {
    0 <= i && i + p.len() <= s.len() && s.subrange(i, i + p.len()) == p
}

/// The first index from `i` on at which `p` occurs in `s`.
pub open spec fn find_from<A>(s: Seq<A>, p: Seq<A>, i: int) -> Option<int>
    decreases s.len() + 1 - i,
{
    if i < 0 || i + p.len() > s.len() {
        None
    } else if occurs_at(s, p, i) {
        Some(i)
    } else {
        find_from(s, p, i + 1)
    }
}

/// What the page of a day, in UTF-8 bytes, gives as the address of its image:
/// the `IMAGE_URL_LENGTH` bytes from the first occurrence of `IMAGE_URL_PREFIX`
/// on, where they end within the page and at the end of a character.
pub open spec fn image_url_in(body: Seq<u8>) -> Result<Seq<char>, PageError> {
    match find_from(body, IMAGE_URL_PREFIX.spec_bytes(), 0) {
        None => Err(PageError::NoUrl),
        Some(i) => {
            if i + IMAGE_URL_LENGTH > body.len() || !is_char_boundary(body, i) || !is_char_boundary(
                body,
                i + IMAGE_URL_LENGTH,
            ) {
                Err(PageError::NoUrl)
            } else {
                match parsed_url_of(decode_utf8(body.subrange(i, i + IMAGE_URL_LENGTH))) {
                    None => Err(PageError::InvalidUrl),
                    Some(u) => Ok(u),
                }
            }
        },
    }
}

/// Why no image address was found in a page.
#[derive(Clone, Copy, Debug, PartialEq, Eq, Structural)]
pub enum PageError {
    /// The page holds no complete image address.
    NoUrl,
    /// What stands where the address should be is not a URL.
    InvalidUrl,
}

/// The first index at which `pattern` occurs in `s`.
pub fn find_bytes(s: &[u8], pattern: &[u8]) -> (r: Option<usize>)
    ensures
        r matches Some(i) ==> find_from(s@, pattern@, 0) == Some(i as int) && i + pattern@.len()
            <= s@.len(),
        r is None ==> find_from(s@, pattern@, 0) is None,
{
    if pattern.len() > s.len() {
        return None;
    }
    let n = s.len();
    let last = n - pattern.len();
    let mut i: usize = 0;
    while i <= last
        invariant
            last + pattern@.len() == s@.len(),
            n == s@.len(),
            i <= last,
            find_from(s@, pattern@, 0) == find_from(s@, pattern@, i as int),
        decreases last + 1 - i,
    {
        let mut j: usize = 0;
        let mut same = true;
        while j < pattern.len()
            invariant
                i <= last,
                last + pattern@.len() == s@.len(),
                j <= pattern@.len(),
                i + pattern@.len() <= s@.len(),
                n == s@.len(),
                same <==> forall|k: int| 0 <= k < j ==> s@[i + k] == pattern@[k],
            decreases pattern.len() - j,
        {
            assert(i + j < s@.len());
            if s[i + j] != pattern[j] {
                same = false;
            }
            j += 1;
        }
        if same {
            assert(s@.subrange(i as int, i + pattern@.len()) =~= pattern@);
            return Some(i);
        }
        assert(!occurs_at(s@, pattern@, i as int)) by {
            if occurs_at(s@, pattern@, i as int) {
                assert forall|k: int| 0 <= k < pattern@.len() implies s@[i + k] == pattern@[k] by {
                    assert(s@.subrange(i as int, i + pattern@.len())[k] == s@[i + k]);
                }
            }
        }
        if i == last {
            assert(find_from(s@, pattern@, i + 1) is None);
            return None;
        }
        i += 1;
    }
    None
}

/// The address of the image that a page of the source shows.
pub fn find_image_url(body: &str) -> (r: Result<String, PageError>)
    ensures
        match image_url_in(body.spec_bytes()) {
            Ok(u) => r matches Ok(s) && s@ == u,
            Err(e) => r == Err::<String, PageError>(e),
        },
{
    broadcast use vstd::utf8::group_utf8_lib;

    let bytes = body.as_bytes();
    let i = match find_bytes(bytes, IMAGE_URL_PREFIX.as_bytes()) {
        Some(i) => i,
        None => return Err(PageError::NoUrl),
    };
    if IMAGE_URL_LENGTH > bytes.len() - i {
        return Err(PageError::NoUrl);
    }
    let end = i + IMAGE_URL_LENGTH;
    if !body.is_char_boundary(i) || !body.is_char_boundary(end) {
        return Err(PageError::NoUrl);
    }
    let (head, _) = body.split_at(end);
    proof {
        let b = body.spec_bytes();
        let h = head.spec_bytes();
        assert(h[i as int] == b[i as int]);
    }
    let (_, window) = head.split_at(i);
    assert(window@ == decode_utf8(body.spec_bytes().subrange(i as int, end as int))) by {
        assert(window.spec_bytes() =~= body.spec_bytes().subrange(i as int, end as int));
    }
    match parse_url(window) {
        Some(url) => Ok(url),
        None => Err(PageError::InvalidUrl),
    }
}

} // verus!
