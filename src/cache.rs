use std::collections::HashMap;

use chrono::Datelike;
use vstd::prelude::*;
use vstd::string::*;

use crate::date::{date_key, is_valid_date, Date};
use crate::DateUrl;
use crate::text::{chars_of, find_space, first_space, string_from_chars, trim, trim_chars};

verus! {

broadcast use vstd::std_specs::hash::group_hash_axioms;

/// Where the images of the source are stored; a cache line gives the rest of
/// an image's address.
pub const IMAGE_URL_PREFIX: &'static str = "https://featureassets.gocomics.com/assets/";

pub open spec fn image_url_prefix() -> Seq<char> {
    IMAGE_URL_PREFIX@
}

/// What `NaiveDate::parse_from_str(s, "%Y-%m-%d")` gives for `s`, as year,
/// month and day.
pub uninterp spec fn parsed_date_of(s: Seq<char>) -> Option<(i32, u32, u32)>;

/// What `Url::parse(s)` gives for `s`, as the URL's serialization.
pub uninterp spec fn parsed_url_of(s: Seq<char>) -> Option<Seq<char>>;

/// Relies on chrono's `NaiveDate::parse_from_str` with the pattern `%Y-%m-%d`:
/// the year, month and day of the date that `s` writes, if it writes one.
#[verifier::external_body]
fn parse_iso_date(s: &str) -> (r: Option<(i32, u32, u32)>)
    ensures
        r == parsed_date_of(s@),
{
    chrono::NaiveDate::parse_from_str(s, "%Y-%m-%d").ok().map(|d| (d.year(), d.month(), d.day()))
}

/// Relies on url's `Url::parse`: the serialization of the absolute URL that
/// `s` writes, if it is one.
#[verifier::external_body]
pub(crate) fn parse_url(s: &str) -> (r: Option<String>)
    ensures
        match r {
            Some(u) => parsed_url_of(s@) == Some(u@),
            None => parsed_url_of(s@) is None,
        },
{
    url::Url::parse(s).ok().map(String::from)
}

/// The date that `s` writes as `2000-01-02`, if it writes one with a
/// four-digit year.
pub open spec fn iso_date(s: Seq<char>) -> Option<(int, int, int)> {
    match parsed_date_of(s) {
        Some(t) => if is_valid_date(t.0 as int, t.1 as int, t.2 as int) {
            Some((t.0 as int, t.1 as int, t.2 as int))
        } else {
            None
        },
        None => None,
    }
}

/// The date that `s` writes as `2000-01-02`, if it writes one.
pub fn parse_date(s: &str) -> (r: Option<Date>)
    ensures
        match iso_date(s@) {
            Some(t) => r matches Some(d) && d@ == t,
            None => r is None,
        },
{
    let (year, month, day) = parse_iso_date(s)?;
    Date::new(year, month, day)
}

/// The date of a saved image, from the name of its file without the extension.
pub fn get_filename_date(stem: &str) -> (r: Option<Date>)
    ensures
        match iso_date(stem@) {
            Some(t) => r matches Some(d) && d@ == t,
            None => r is None,
        },
{
    parse_date(stem)
}

/// An entry of the cache: the date of an image and its address.
pub type CacheEntry = ((int, int, int), Seq<char>);

/// What one line of a cache file holds: `None` where it is malformed,
/// `Some(None)` where it is blank, and otherwise the entry it gives. A line is
/// a date (`2000-01-02`), whitespace, and the rest of the image's address
/// after `IMAGE_URL_PREFIX`, with whitespace allowed around it.
pub open spec fn manifest_line(line: Seq<char>) -> Option<Option<CacheEntry>> {
    let l = trim(line);
    let i = first_space(l);
    if l.len() == 0 {
        Some(None)
    } else if i == l.len() {
        None
    } else {
        match iso_date(l.subrange(0, i)) {
            None => None,
            Some(d) => match parsed_url_of(image_url_prefix() + trim(l.subrange(i, l.len() as int))) {
                None => None,
                Some(u) => Some(Some((d, u))),
            },
        }
    }
}

/// Splits `line` at its first whitespace character, which begins the second part.
pub fn split_columns(line: &[char]) -> (r: Option<(Vec<char>, Vec<char>)>)
    ensures
        r is None <==> first_space(line@) == line@.len(),
        r matches Some((a, b)) ==> a@ == line@.subrange(0, first_space(line@))
            && b@ == line@.subrange(first_space(line@), line@.len() as int),
{
    let i = find_space(line)?;
    let mut a: Vec<char> = Vec::new();
    let mut b: Vec<char> = Vec::new();
    let mut k: usize = 0;
    while k < line.len()
        invariant
            i < line@.len(),
            k <= line@.len(),
            a@ == line@.subrange(0, if k < i { k as int } else { i as int }),
            b@ == line@.subrange(i as int, if k < i { i as int } else { k as int }),
        decreases line.len() - k,
    {
        if k < i {
            a.push(line[k]);
        } else {
            b.push(line[k]);
        }
        k += 1;
        assert(a@ =~= line@.subrange(0, if k < i { k as int } else { i as int }));
        assert(b@ =~= line@.subrange(i as int, if k < i { i as int } else { k as int }));
    }
    Some((a, b))
}

/// The address of an image, from the part of it that follows `IMAGE_URL_PREFIX`.
pub fn expand_image_url(url_path: &[char]) -> (r: Option<String>)
    ensures
        match r {
            Some(u) => parsed_url_of(image_url_prefix() + url_path@) == Some(u@),
            None => parsed_url_of(image_url_prefix() + url_path@) is None,
        },
{
    let path = string_from_chars(url_path);
    let url = IMAGE_URL_PREFIX.to_owned().concat(path.as_str());
    parse_url(url.as_str())
}

/// The entry that one line of a cache file gives, if it gives one.
pub fn parse_line(line: &[char]) -> (r: Result<Option<(Date, String)>, CacheError>)
    ensures
        match manifest_line(line@) {
            None => r is Err,
            Some(None) => r == Ok::<Option<(Date, String)>, CacheError>(None),
            Some(Some(e)) => r matches Ok(Some((d, u))) && d@ == e.0 && u@ == e.1,
        },
{
    let l = trim_chars(line);
    if l.len() == 0 {
        return Ok(None);
    }
    let (date_part, url_part) = match split_columns(&l) {
        Some(columns) => columns,
        None => return Err(CacheError::Malformed),
    };
    let date_string = string_from_chars(&date_part);
    let date = match parse_date(date_string.as_str()) {
        Some(date) => date,
        None => return Err(CacheError::Malformed),
    };
    let url_path = trim_chars(&url_part);
    match expand_image_url(&url_path) {
        Some(url) => Ok(Some((date, url))),
        None => Err(CacheError::Malformed),
    }
}

/// The lines of `t` that end in a line feed, and the characters after the last one.
pub open spec fn scan_lines(t: Seq<char>) -> (Seq<Seq<char>>, Seq<char>)
    decreases t.len(),
{
    if t.len() == 0 {
        (seq![], seq![])
    } else {
        let (done, current) = scan_lines(t.drop_last());
        if t.last() == '\n' {
            (done.push(current), seq![])
        } else {
            (done, current.push(t.last()))
        }
    }
}

/// The lines of `t`, split at each line feed.
pub open spec fn split_lines(t: Seq<char>) -> Seq<Seq<char>> {
    scan_lines(t).0.push(scan_lines(t).1)
}

/// The entries that `lines` give, in order, or `None` where one of them is malformed.
pub open spec fn manifest_entries(lines: Seq<Seq<char>>) -> Option<Seq<CacheEntry>>
    decreases lines.len(),
{
    if lines.len() == 0 {
        Some(seq![])
    } else {
        match manifest_entries(lines.drop_last()) {
            None => None,
            Some(entries) => match manifest_line(lines.last()) {
                None => None,
                Some(None) => Some(entries),
                Some(Some(e)) => Some(entries.push(e)),
            },
        }
    }
}

/// The address of each date that `entries` give, keyed by `date_key`; where a
/// date comes twice, its last entry counts.
pub open spec fn entries_map(entries: Seq<CacheEntry>) -> Map<u64, Seq<char>>
    decreases entries.len(),
{
    if entries.len() == 0 {
        Map::empty()
    } else {
        entries_map(entries.drop_last()).insert(
            date_key(entries.last().0) as u64,
            entries.last().1,
        )
    }
}

/// The addresses of a cache, keyed by `date_key` of their dates.
pub type CacheData = HashMap<u64, String>;

/// What a cache holds: the address of each date key.
pub open spec fn cache_view(c: CacheData) -> Map<u64, Seq<char>> {
    c@.map_values(|s: String| s@)
}

/// What a cache file holds: the entries of its lines, or `None` where one of
/// them is malformed.
pub open spec fn parse_manifest(text: Seq<char>) -> Option<Map<u64, Seq<char>>> {
    match manifest_entries(split_lines(text)) {
        None => None,
        Some(entries) => Some(entries_map(entries)),
    }
}

proof fn lemma_insert_view(c: CacheData, k: u64, u: String)
    ensures
        c@.insert(k, u).map_values(|s: String| s@) == cache_view(c).insert(k, u@),
{
    assert(c@.insert(k, u).map_values(|s: String| s@) =~= cache_view(c).insert(k, u@));
}

/// Reads a cache file: the address of each date that it lists. One malformed
/// line makes the whole file malformed.
pub fn parse_cached_urls(text: &str) -> (r: Result<CacheData, CacheError>)
    ensures
        match parse_manifest(text@) {
            None => r is Err,
            Some(m) => r matches Ok(c) && cache_view(c) == m,
        },
{
    let chars = chars_of(text);
    let mut entries: CacheData = HashMap::new();
    let mut line: Vec<char> = Vec::new();
    let mut failed = false;
    let ghost mut found: Seq<CacheEntry> = seq![];
    let mut i: usize = 0;
    assert(cache_view(entries) =~= Map::empty());
    while i < chars.len()
        invariant
            i <= chars@.len(),
            chars@ == text@,
            line@ == scan_lines(chars@.subrange(0, i as int)).1,
            failed <==> manifest_entries(scan_lines(chars@.subrange(0, i as int)).0) is None,
            !failed ==> manifest_entries(scan_lines(chars@.subrange(0, i as int)).0) == Some(found)
                && cache_view(entries) == entries_map(found),
        decreases chars.len() - i,
    {
        let c = chars[i];
        let ghost done = scan_lines(chars@.subrange(0, i as int)).0;
        proof {
            let next = chars@.subrange(0, i + 1);
            assert(next.drop_last() =~= chars@.subrange(0, i as int));
            assert(next.last() == c);
            assert(done.push(line@).drop_last() =~= done);
        }
        if c == '\n' {
            if !failed {
                match parse_line(&line) {
                    Ok(Some((date, url))) => {
                        let ghost e: CacheEntry = (date@, url@);
                        let k = date.key();
                        proof {
                            lemma_insert_view(entries, k, url);
                            assert(found.push(e).drop_last() =~= found);
                            found = found.push(e);
                        }
                        entries.insert(k, url);
                    },
                    Ok(None) => {},
                    Err(_) => {
                        failed = true;
                    },
                }
            }
            line = Vec::new();
        } else {
            line.push(c);
        }
        i += 1;
    }
    assert(chars@.subrange(0, i as int) =~= chars@);
    let ghost done = scan_lines(chars@).0;
    assert(split_lines(text@).drop_last() =~= done);
    if failed {
        return Err(CacheError::Malformed);
    }
    match parse_line(&line) {
        Ok(Some((date, url))) => {
            let k = date.key();
            proof {
                lemma_insert_view(entries, k, url);
                assert(found.push((date@, url@)).drop_last() =~= found);
            }
            entries.insert(k, url);
            Ok(entries)
        },
        Ok(None) => Ok(entries),
        Err(_) => Err(CacheError::Malformed),
    }
}

/// Whether no two of `items` share a date.
pub open spec fn distinct_dates(items: Seq<DateUrl>) -> bool {
    forall|i: int, j: int|
        0 <= i < j < items.len() ==> #[trigger] items[i].date@ != #[trigger] items[j].date@
}

/// Gives each item whose date the cache lists the address from the cache, and
/// takes that entry out of the cache; other items keep what they had.
pub fn apply_cache(items: &mut Vec<DateUrl>, cache: &mut CacheData)
    requires
        distinct_dates(old(items)@),
    ensures
        final(items)@.len() == old(items)@.len(),
        forall|i: int|
            0 <= i < old(items)@.len() ==> {
                let key = date_key(old(items)@[i].date@) as u64;
                &&& (#[trigger] final(items)@[i]).date == old(items)@[i].date
                &&& if cache_view(*old(cache)).contains_key(key) {
                    final(items)@[i].image_url matches Some(u) && u@ == cache_view(*old(cache))[key]
                } else {
                    final(items)@[i].image_url == old(items)@[i].image_url
                }
            },
        cache_view(*final(cache)) == cache_view(*old(cache)).remove_keys(
            Set::new(|k: u64| exists|i: int| 0 <= i < old(items)@.len() && k == date_key(old(items)@[i].date@) as u64),
        ),
{
    let ghost old_items = items@;
    let ghost old_cache = cache_view(*cache);
    let mut i: usize = 0;
    while i < items.len()
        invariant
            i <= items@.len(),
            items@.len() == old_items.len(),
            distinct_dates(old_items),
            forall|j: int| i <= j < items@.len() ==> items@[j] == old_items[j],
            forall|j: int|
                0 <= j < i ==> {
                    let key = date_key(old_items[j].date@) as u64;
                    &&& (#[trigger] items@[j]).date == old_items[j].date
                    &&& if old_cache.contains_key(key) {
                        items@[j].image_url matches Some(u) && u@ == old_cache[key]
                    } else {
                        items@[j].image_url == old_items[j].image_url
                    }
                },
            cache_view(*cache) == old_cache.remove_keys(
                Set::new(|k: u64| exists|j: int| 0 <= j < i && k == date_key(old_items[j].date@) as u64),
            ),
        decreases items.len() - i,
    {
        let date = items[i].date;
        let key = date.key();
        let ghost before = cache_view(*cache);
        proof {
            assert forall|j: int| 0 <= j < i implies date_key(old_items[j].date@) as u64 != key by {
                assert(old_items[j].date@ != old_items[i as int].date@);
                crate::date::lemma_date_key_injective(old_items[j].date, date);
            }
            crate::date::lemma_date_key_injective(date, date);
            assert(before.contains_key(key) == old_cache.contains_key(key));
            assert(before.contains_key(key) ==> before[key] == old_cache[key]);
        }
        let ghost raw = cache@;
        match cache.remove(&key) {
            Some(url) => {
                assert(raw.contains_key(key) && raw[key] == url);
                assert(before[key] == url@);
                items.set(i, DateUrl { date, image_url: Some(url) });
            },
            None => {
                assert(!raw.contains_key(key));
                assert(!before.contains_key(key));
            },
        }
        proof {
            assert(cache_view(*cache) =~= before.remove(key));
            assert(items@[i as int].date == old_items[i as int].date);
            assert(old_cache.remove_keys(
                Set::new(|k: u64| exists|j: int| 0 <= j < i + 1 && k == date_key(old_items[j].date@) as u64),
            ) =~= before.remove(key));
        }
        i += 1;
    }
}

/// Why a cache file was refused.
#[derive(Clone, Copy, Debug, PartialEq, Eq, Structural)]
pub enum CacheError {
    /// A line is not a date and an address separated by whitespace.
    Malformed,
}

} // verus!
