//! Interpreting the remote image service: the query URL for a request,
//! the meaning of a response status, the fields of a metadata response,
//! and the plan for downloading the pictured asset.
//!
//! The HTTP exchange itself happens outside; this module decides what to
//! ask and what every answer means.

use vstd::prelude::*;
use crate::Error;
use crate::chars::{eq_fold, lemma_rfind_char, rfind, rfind_char, seq_lower};
use crate::date::Date;
use crate::datestr::{date_chars, date_string, parse_date, parse_date_chars};
use crate::jsonval::{arr_of, doc_of, field_string, json_array, json_parse, member_str};

verus! {

/// The fields of one metadata response, as plain strings.
#[derive(Clone, Debug)]
pub struct ApodMetadata {
    pub date: String,
    pub title: String,
    pub explanation: String,
    pub media_type: String,
    pub hd_url: Option<String>,
    pub url: Option<String>,
}

/// Everything needed to fetch and persist one asset.
#[derive(Clone, Debug)]
pub struct AssetPlan {
    pub url: String,
    pub file_name: String,
    pub date: Date,
    pub title: String,
    pub explanation: String,
}

/// The metadata query for one request: the endpoint with the key, then
/// either the random-selection count or the requested date, never both.
pub open spec fn query_url_chars(key: Option<Seq<char>>, date: Option<Date>, random: bool) -> Seq<
    char,
> {
    let base = "https://api.nasa.gov/planetary/apod?api_key="@ + (match key {
        Some(k) => k,
        None => "DEMO_KEY"@,
    });
    if random {
        base + "&count=1"@
    } else {
        match date {
            Some(d) => base + "&date="@ + date_chars(d),
            None => base,
        }
    }
}

/// The view of an optional key string.
pub open spec fn opt_chars(k: Option<String>) -> Option<Seq<char>> {
    match k {
        Some(s) => Some(s@),
        None => None,
    }
}

/// The metadata query URL for one request; the public demo key stands in
/// when no key is configured.
pub fn query_url(api_key: &Option<String>, date: &Option<Date>, random: bool) -> (r: String)
    requires
        match *date {
            Some(d) => d.valid(),
            None => true,
        },
    ensures
        r@ == query_url_chars(opt_chars(*api_key), *date, random),
{
    let mut s = String::new();
    s.append("https://api.nasa.gov/planetary/apod?api_key=");
    match api_key {
        Some(k) => s.append(k.as_str()),
        None => s.append("DEMO_KEY"),
    }
    if random {
        s.append("&count=1");
    } else {
        match date {
            Some(d) => {
                s.append("&date=");
                let ds = date_string(d);
                s.append(ds.as_str());
            },
            None => {},
        }
    }
    proof {
        assert(s@ =~= query_url_chars(opt_chars(*api_key), *date, random));
    }
    s
}

/// What a response status means: success for the 2xx family, the rate
/// limit on 403, a soft miss on 404, and a remote error otherwise.
pub fn classify_status(code: u16) -> (r: Result<(), Error>)
    ensures
        200 <= code < 300 <==> r is Ok,
        code == 403 ==> r == Err::<(), Error>(Error::RateLimited),
        code == 404 ==> r == Err::<(), Error>(Error::NotFound),
        !(200 <= code < 300) && code != 403 && code != 404 ==> r == Err::<(), Error>(
            Error::RemoteError(code),
        ),
{
    if 200 <= code && code < 300 {
        Ok(())
    } else if code == 403 {
        Err(Error::RateLimited)
    } else if code == 404 {
        Err(Error::NotFound)
    } else {
        Err(Error::RemoteError(code))
    }
}

/// What a metadata response body turns out to be.
#[derive(Debug)]
pub enum MetadataOutcome {
    /// The body carried a usable entry; these are its fields.
    Fields(ApodMetadata),
    /// A random-selection answer with an empty listing: the service
    /// offered nothing — a soft miss, not a fault.
    NoEntry,
    /// No document of the expected shape, or a required field missing.
    Malformed,
}

/// The entry a metadata body carries: the parsed document itself, or,
/// for a random request, the first element of its array form.
pub open spec fn entry_of(body: Seq<char>, random: bool) -> Option<serde_json::Value> {
    match doc_of(body) {
        Some(root) => if random {
            match arr_of(root) {
                Some(items) => if items.len() > 0 {
                    Some(items[0])
                } else {
                    None
                },
                None => None,
            }
        } else {
            Some(root)
        },
        None => None,
    }
}

/// A random-request body that parses as an array with no elements.
pub open spec fn empty_listing(body: Seq<char>, random: bool) -> bool {
    random && (match doc_of(body) {
        Some(root) => (match arr_of(root) {
            Some(items) => items.len() == 0,
            None => false,
        }),
        None => false,
    })
}

/// The entry carries the four required string fields.
pub open spec fn entry_has_fields(v: serde_json::Value) -> bool {
    &&& member_str(v, "date"@) is Some
    &&& member_str(v, "title"@) is Some
    &&& member_str(v, "explanation"@) is Some
    &&& member_str(v, "media_type"@) is Some
}

/// The fields of a metadata response body.  With `random` the body is
/// an array and its first element is the entry, otherwise the document
/// itself is; an empty array is a soft miss, anything else without the
/// required string fields is malformed.
pub fn parse_metadata(body: &str, random: bool) -> (r: MetadataOutcome)
    ensures
        entry_of(body@, random) is Some && entry_has_fields(entry_of(body@, random).unwrap())
            ==> (match r {
            MetadataOutcome::Fields(m) => {
                let v = entry_of(body@, random).unwrap();
                &&& m.date@ == member_str(v, "date"@).unwrap()
                &&& m.title@ == member_str(v, "title"@).unwrap()
                &&& m.explanation@ == member_str(v, "explanation"@).unwrap()
                &&& m.media_type@ == member_str(v, "media_type"@).unwrap()
                &&& opt_chars(m.hd_url) == member_str(v, "hdurl"@)
                &&& opt_chars(m.url) == member_str(v, "url"@)
            },
            _ => false,
        }),
        entry_of(body@, random) is Some && !entry_has_fields(entry_of(body@, random).unwrap())
            ==> r is Malformed,
        entry_of(body@, random) is None && empty_listing(body@, random) ==> r is NoEntry,
        entry_of(body@, random) is None && !empty_listing(body@, random) ==> r is Malformed,
{
    let parsed = match json_parse(body) {
        Some(v) => v,
        None => {
            return MetadataOutcome::Malformed;
        },
    };
    let item: &serde_json::Value = if random {
        match json_array(&parsed) {
            Some(arr) => {
                if arr.len() == 0 {
                    return MetadataOutcome::NoEntry;
                }
                &arr[0]
            },
            None => {
                return MetadataOutcome::Malformed;
            },
        }
    } else {
        &parsed
    };
    proof {
        assert(entry_of(body@, random) == Some(*item));
    }
    let date = match field_string(item, "date") {
        Some(s) => s,
        None => {
            return MetadataOutcome::Malformed;
        },
    };
    let title = match field_string(item, "title") {
        Some(s) => s,
        None => {
            return MetadataOutcome::Malformed;
        },
    };
    let explanation = match field_string(item, "explanation") {
        Some(s) => s,
        None => {
            return MetadataOutcome::Malformed;
        },
    };
    let media_type = match field_string(item, "media_type") {
        Some(s) => s,
        None => {
            return MetadataOutcome::Malformed;
        },
    };
    let hd_url = field_string(item, "hdurl");
    let url = field_string(item, "url");
    MetadataOutcome::Fields(ApodMetadata { date, title, explanation, media_type, hd_url, url })
}

/// The URL the asset is fetched from: the high-resolution field when
/// present, else the standard one.
pub open spec fn picked_url(m: ApodMetadata) -> Option<Seq<char>> {
    if m.hd_url is Some {
        Some(m.hd_url.unwrap()@)
    } else if m.url is Some {
        Some(m.url.unwrap()@)
    } else {
        None
    }
}

/// The file extension a URL carries: the part of its last path segment
/// after the last dot, unless the segment has no dot past its first
/// character; `jpg` stands in when it has none.
pub open spec fn effective_ext(url: Seq<char>) -> Seq<char> {
    let name = url.subrange(rfind_char(url, '/') + 1, url.len() as int);
    let k = rfind_char(name, '.');
    if k > 0 {
        name.subrange(k + 1, name.len() as int)
    } else {
        "jpg"@
    }
}

/// The extension is on the allow-list, letter case aside.
pub open spec fn allowed_ext(e: Seq<char>) -> bool {
    seq_lower(e) == seq_lower("jpg"@) || seq_lower(e) == seq_lower("jpeg"@) || seq_lower(e)
        == seq_lower("png"@)
}

/// The decision over one metadata response: no plan for a non-image
/// day; otherwise the asset's URL, checked extension, and the file name
/// `YYYY-MM-DD.<ext>` the download is to be stored under.
pub fn plan_asset(m: &ApodMetadata) -> (r: Result<Option<AssetPlan>, Error>)
    ensures
        m.media_type@ != "image"@ ==> r == Ok::<Option<AssetPlan>, Error>(None),
        m.media_type@ == "image"@ && picked_url(*m) is None ==> r == Err::<
            Option<AssetPlan>,
            Error,
        >(Error::NotFound),
        m.media_type@ == "image"@ && picked_url(*m) is Some && !allowed_ext(
            effective_ext(picked_url(*m).unwrap()),
        ) ==> r == Err::<Option<AssetPlan>, Error>(Error::UnsupportedFormat),
        m.media_type@ == "image"@ && picked_url(*m) is Some && allowed_ext(
            effective_ext(picked_url(*m).unwrap()),
        ) && parse_date_chars(m.date@) is None ==> r == Err::<Option<AssetPlan>, Error>(
            Error::InvalidDate,
        ),
        m.media_type@ == "image"@ && picked_url(*m) is Some && allowed_ext(
            effective_ext(picked_url(*m).unwrap()),
        ) && parse_date_chars(m.date@) is Some ==> {
            &&& r is Ok
            &&& r.unwrap() is Some
            &&& r.unwrap().unwrap().date == parse_date_chars(m.date@).unwrap()
            &&& r.unwrap().unwrap().date.valid()
            &&& r.unwrap().unwrap().url@ == picked_url(*m).unwrap()
            &&& r.unwrap().unwrap().title@ == m.title@
            &&& r.unwrap().unwrap().explanation@ == m.explanation@
            &&& r.unwrap().unwrap().file_name@ == date_chars(parse_date_chars(m.date@).unwrap())
                + seq!['.'] + seq_lower(effective_ext(picked_url(*m).unwrap()))
        },
{
    let image_word = String::from_str("image");
    if !(m.media_type == image_word) {
        return Ok(None);
    }
    let url: &String = if let Some(h) = &m.hd_url {
        h
    } else if let Some(u) = &m.url {
        u
    } else {
        return Err(Error::NotFound);
    };
    let ulen: usize = url.as_str().unicode_len();
    let name_start: usize = rfind(url.as_str(), '/');
    proof {
        lemma_rfind_char(url@, '/');
    }
    let name: &str = url.as_str().substring_char(name_start, ulen);
    let k: usize = rfind(name, '.');
    proof {
        lemma_rfind_char(name@, '.');
    }
    let ext: &str = if k >= 2 {
        name.substring_char(k, name.unicode_len())
    } else {
        "jpg"
    };
    proof {
        assert(name@ =~= url@.subrange(rfind_char(url@, '/') + 1, url@.len() as int));
        if rfind_char(name@, '.') > 0 {
            assert(ext@ =~= effective_ext(url@));
        }
    }
    let canonical: &str = if eq_fold(ext, "jpg") {
        "jpg"
    } else if eq_fold(ext, "jpeg") {
        "jpeg"
    } else if eq_fold(ext, "png") {
        "png"
    } else {
        return Err(Error::UnsupportedFormat);
    };
    proof {
        reveal_strlit("jpg");
        reveal_strlit("jpeg");
        reveal_strlit("png");
        assert(seq_lower("jpg"@) =~= "jpg"@);
        assert(seq_lower("jpeg"@) =~= "jpeg"@);
        assert(seq_lower("png"@) =~= "png"@);
    }
    let d: Date = match parse_date(m.date.as_str()) {
        Some(d) => d,
        None => {
            return Err(Error::InvalidDate);
        },
    };
    let mut file_name = date_string(&d);
    file_name.append(".");
    file_name.append(canonical);
    proof {
        reveal_strlit(".");
        assert(file_name@ =~= date_chars(d) + seq!['.'] + seq_lower(effective_ext(url@)));
    }
    Ok(
        Some(
            AssetPlan {
                url: url.clone(),
                file_name,
                date: d,
                title: m.title.clone(),
                explanation: m.explanation.clone(),
            },
        ),
    )
}

/// The argument list handed to the metadata-embedding tool: rewrite in
/// place, clear the primary image directory, set title and description,
/// then the file to touch.
pub fn exiftool_args(path: &String, title: &String, explanation: &String) -> (r: Vec<String>)
    ensures
        r@.len() == 5,
        r@[0]@ == "-overwrite_original"@,
        r@[1]@ == "-ifd0:all="@,
        r@[2]@ == "-Title="@ + title@,
        r@[3]@ == "-Description="@ + explanation@,
        r@[4]@ == path@,
{
    let mut out: Vec<String> = Vec::new();
    out.push(String::from_str("-overwrite_original"));
    out.push(String::from_str("-ifd0:all="));
    let mut title_arg = String::from_str("-Title=");
    title_arg.append(title.as_str());
    out.push(title_arg);
    let mut desc_arg = String::from_str("-Description=");
    desc_arg.append(explanation.as_str());
    out.push(desc_arg);
    out.push(path.clone());
    out
}

} // verus!
