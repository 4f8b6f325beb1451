//! The local cache index: a folder's file names are the only index of
//! which dates are already acquired.  The callers list the folder and
//! hand the names in; every decision about them is made here.

use vstd::prelude::*;
use crate::chars::{eq_fold, is_prefix, lemma_rfind_char, rfind_char, seq_lower, str_has_prefix};
use crate::date::Date;
use crate::datestr::{date_chars, date_string};

verus! {

/// The file name records `d`: it starts with the date's `YYYY-MM-DD` form.
pub open spec fn matches_date(name: Seq<char>, d: Date) -> bool {
    is_prefix(date_chars(d), name)
}

/// Some listed file name records `d`.
pub open spec fn date_found(entries: Seq<Seq<char>>, d: Date) -> bool {
    exists|i: int| 0 <= i < entries.len() && matches_date(#[trigger] entries[i], d)
}

/// The first listed file whose name records `d`, if one is listed.
pub fn find_for_date(entries: &Vec<String>, d: &Date) -> (r: Option<usize>)
    requires
        d.valid(),
    ensures
        match r {
            Some(i) => i < entries@.len() && matches_date(entries.deep_view()[i as int], *d)
                && forall|j: int|
                0 <= j < i ==> !matches_date(#[trigger] entries.deep_view()[j], *d),
            None => !date_found(entries.deep_view(), *d),
        },
        r is Some <==> date_found(entries.deep_view(), *d),
{
    let prefix = date_string(d);
    let mut i: usize = 0;
    while i < entries.len()
        invariant
            d.valid(),
            i <= entries@.len(),
            prefix@ == date_chars(*d),
            forall|j: int| 0 <= j < i ==> !matches_date(#[trigger] entries.deep_view()[j], *d),
        decreases entries@.len() - i,
    {
        if str_has_prefix(entries[i].as_str(), prefix.as_str()) {
            proof {
                assert(entries.deep_view()[i as int] == entries@[i as int]@);
                assert(matches_date(entries.deep_view()[i as int], *d));
            }
            return Some(i);
        }
        proof {
            assert(entries.deep_view()[i as int] == entries@[i as int]@);
        }
        i = i + 1;
    }
    None
}

/// The file name carries an image extension the library accepts: its
/// part after the last `.`, case-folded, is `jpg`, `jpeg` or `png`, and
/// the `.` is not the name's first character.
pub open spec fn image_entry(name: Seq<char>) -> bool {
    let k = rfind_char(name, '.');
    let ext = seq_lower(name.subrange(k + 1, name.len() as int));
    k > 0 && (ext == seq_lower("jpg"@) || ext == seq_lower("jpeg"@) || ext == seq_lower("png"@))
}

/// Whether the file name carries an accepted image extension.
pub fn is_image_entry(name: &String) -> (r: bool)
    ensures
        r == image_entry(name@),
{
    proof {
        lemma_rfind_char(name@, '.');
    }
    let n: usize = name.as_str().unicode_len();
    let mut k: usize = n;
    while k > 0 && name.as_str().get_char(k - 1) != '.'
        invariant
            k <= n,
            n == name@.len(),
            forall|j: int| k <= j < n ==> name@[j] != '.',
        decreases k,
    {
        k = k - 1;
    }
    // `k == 0` here means no `.` at all or a `.` only at the front.
    if k <= 1 {
        return false;
    }
    let ext = name.as_str().substring_char(k, n);
    proof {
        assert(rfind_char(name@, '.') == k - 1);
    }
    eq_fold(ext, "jpg") || eq_fold(ext, "jpeg") || eq_fold(ext, "png")
}

/// How many listed file names carry an accepted image extension.
pub open spec fn image_count(entries: Seq<Seq<char>>) -> int
    decreases entries.len(),
{
    if entries.len() == 0 {
        0
    } else {
        image_count(entries.drop_last()) + if image_entry(entries.last()) {
            1int
        } else {
            0int
        }
    }
}

/// The positions of the listed file names that carry an accepted image
/// extension, in listing order.
pub fn image_indices(entries: &Vec<String>) -> (r: Vec<usize>)
    ensures
        forall|k: int|
            0 <= k < r@.len() ==> (#[trigger] r@[k]) < entries@.len() && image_entry(
                entries.deep_view()[r@[k] as int],
            ),
        forall|k1: int, k2: int| 0 <= k1 < k2 < r@.len() ==> r@[k1] < r@[k2],
        forall|i: int|
            0 <= i < entries@.len() && image_entry(#[trigger] entries.deep_view()[i])
                ==> exists|k: int| 0 <= k < r@.len() && r@[k] == i,
{
    let mut out: Vec<usize> = Vec::new();
    let mut i: usize = 0;
    while i < entries.len()
        invariant
            i <= entries@.len(),
            forall|k: int|
                0 <= k < out@.len() ==> (#[trigger] out@[k]) < i && image_entry(
                    entries.deep_view()[out@[k] as int],
                ),
            forall|k1: int, k2: int| 0 <= k1 < k2 < out@.len() ==> out@[k1] < out@[k2],
            forall|j: int|
                0 <= j < i && image_entry(#[trigger] entries.deep_view()[j]) ==> exists|k: int|
                    0 <= k < out@.len() && out@[k] == j,
        decreases entries@.len() - i,
    {
        let ghost prev = out@;
        let keep = is_image_entry(&entries[i]);
        proof {
            assert(entries.deep_view()[i as int] == entries@[i as int]@);
        }
        if keep {
            out.push(i);
            proof {
                assert(out@ == prev.push(i));
                assert(out@[prev.len() as int] == i);
            }
        }
        proof {
            assert forall|j: int|
                0 <= j < i + 1 && image_entry(#[trigger] entries.deep_view()[j]) implies exists|
                k: int,
            | 0 <= k < out@.len() && out@[k] == j by {
                if j < i {
                    let k = choose|k: int| 0 <= k < prev.len() && prev[k] == j;
                    assert(out@[k] == j);
                } else {
                    assert(out@[out@.len() - 1] == j);
                }
            }
        }
        i = i + 1;
    }
    out
}

/// Relies on rand's `Rng::random_range` over `0..n`: the result is drawn
/// from that range, so it lies below `n`; the call rejects only an empty
/// range, which the precondition rules out.
#[verifier::external_body]
fn rand_below(n: usize) -> (r: usize)
    requires
        n > 0,
    ensures
        r < n,
{
    rand::Rng::random_range(&mut rand::rng(), 0..n)
}

/// A uniformly random listed file with an accepted image extension:
/// `None` exactly when no listed name carries one.
pub fn pick_random_local(entries: &Vec<String>) -> (r: Option<usize>)
    ensures
        match r {
            Some(i) => i < entries@.len() && image_entry(entries.deep_view()[i as int]),
            None => forall|i: int|
                0 <= i < entries@.len() ==> !image_entry(#[trigger] entries.deep_view()[i]),
        },
{
    let candidates = image_indices(entries);
    if candidates.len() == 0 {
        proof {
            assert forall|i: int|
                0 <= i < entries@.len() implies !image_entry(
                #[trigger] entries.deep_view()[i],
            ) by {
                if image_entry(entries.deep_view()[i]) {
                    assert(exists|k: int| 0 <= k < candidates@.len() && candidates@[k] == i);
                }
            }
        }
        return None;
    }
    let pick: usize = rand_below(candidates.len());
    let chosen: usize = candidates[pick];
    proof {
        assert(candidates@[pick as int] < entries@.len() && image_entry(
            entries.deep_view()[candidates@[pick as int] as int],
        ));
    }
    Some(chosen)
}

/// Law: a file named by a date's `YYYY-MM-DD` form, a dot and any
/// extension records that date, and a listing extended with it lets the
/// date lookup succeed.
pub proof fn lemma_written_asset_is_found(entries: Seq<Seq<char>>, d: Date, ext: Seq<char>)
    requires
        d.valid(),
    ensures
        matches_date(date_chars(d) + seq!['.'] + ext, d),
        date_found(entries.push(date_chars(d) + seq!['.'] + ext), d),
{
    let name = date_chars(d) + seq!['.'] + ext;
    assert(name.subrange(0, date_chars(d).len() as int) =~= date_chars(d));
    let w = entries.len() as int;
    assert(entries.push(name)[w] == name);
}

} // verus!
