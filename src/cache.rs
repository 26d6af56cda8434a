use vstd::prelude::*;

use crate::model::{
    copy_holidays, holiday_views, CachedData, CachedDataView, FullCache, FullCacheView, Holiday,
    HolidayView, StoredCache,
};

verus! {

/// An empty cache reset on `today`.
pub open spec fn fresh_cache(today: Seq<char>) -> FullCacheView {
    FullCacheView { date: today, data: Seq::empty() }
}

/// Whether an entry is the one stored for `code` on `today`.
pub open spec fn is_entry_for(c: CachedDataView, code: Seq<char>, today: Seq<char>) -> bool {
    c.country_code == code && c.date == today
}

/// The first entry, in order of insertion, stored for `code` on `today`.
pub open spec fn find_entry(data: Seq<CachedDataView>, code: Seq<char>, today: Seq<char>) -> Option<
    CachedDataView,
>
    decreases data.len(),
{
    if data.len() == 0 {
        None
    } else if is_entry_for(data[0], code, today) {
        Some(data[0])
    } else {
        find_entry(data.drop_first(), code, today)
    }
}

/// The entries that a read of the cache offers: none unless it was parsed.
pub open spec fn stored_data(stored: StoredCache) -> Seq<CachedDataView> {
    match stored {
        StoredCache::Parsed(c) => c@.data,
        _ => Seq::empty(),
    }
}

/// The cache to write when the program starts on `today`, if any: a fresh one
/// when there was none or when the stored one was reset on another day; none
/// when the stored one is current or could not be parsed.
pub open spec fn reset_result(stored: StoredCache, today: Seq<char>) -> Option<FullCacheView> {
    match stored {
        StoredCache::Missing => Some(fresh_cache(today)),
        StoredCache::Unparsable => None,
        StoredCache::Parsed(c) => if c@.date != today {
            Some(fresh_cache(today))
        } else {
            None
        },
    }
}

/// The cache that a write starts from: the stored one, or a fresh one when
/// there is none that could be read.
pub open spec fn base_cache(stored: StoredCache, today: Seq<char>) -> FullCacheView {
    match stored {
        StoredCache::Parsed(c) => c@,
        _ => fresh_cache(today),
    }
}

/// The cache after storing `holidays` for `code` on `today`, or `None` when
/// an entry for that pair is already there and nothing is written.
pub open spec fn write_result(
    base: FullCacheView,
    code: Seq<char>,
    today: Seq<char>,
    holidays: Seq<HolidayView>,
) -> Option<FullCacheView> {
    if find_entry(base.data, code, today) is Some {
        None
    } else {
        Some(
            FullCacheView {
                date: base.date,
                data: base.data.push(
                    CachedDataView { country_code: code, date: today, holidays: holidays },
                ),
            },
        )
    }
}

/// What a cache write did.
#[derive(Debug)]
pub enum WriteOutcome {
    /// An entry for the same country and day was there already; nothing changed.
    AlreadyCached,
    /// The cache to persist, with the new entry appended.
    Updated(FullCache),
}

/// A new, empty cache for `today`.
pub fn new_cache(today: &String) -> (r: FullCache)
    ensures
        r@ == fresh_cache(today@),
{
    let r = FullCache { date: today.clone(), data: Vec::new() };
    assert(r@.data =~= Seq::<CachedDataView>::empty());
    r
}

proof fn lemma_find_entry_suffix(data: Seq<CachedDataView>, code: Seq<char>, today: Seq<char>, i: int)
    requires
        0 <= i < data.len(),
        !is_entry_for(data[i], code, today),
    ensures
        find_entry(data.subrange(i, data.len() as int), code, today) == find_entry(
            data.subrange(i + 1, data.len() as int),
            code,
            today,
        ),
{
    assert(data.subrange(i, data.len() as int).drop_first() =~= data.subrange(
        i + 1,
        data.len() as int,
    ));
}

/// The index of the first entry stored for `code` on `today`.
fn position(data: &Vec<CachedData>, code: &String, today: &String) -> (r: Option<usize>)
    ensures
        match r {
            None => find_entry(data@.map_values(|c: CachedData| c@), code@, today@) is None,
            Some(i) => i < data.len() && find_entry(
                data@.map_values(|c: CachedData| c@),
                code@,
                today@,
            ) == Some(data@[i as int]@),
        },
{
    let ghost views = data@.map_values(|c: CachedData| c@);
    let mut i: usize = 0;
    assert(views.subrange(0, views.len() as int) =~= views);
    while i < data.len()
        invariant
            i <= data.len(),
            views == data@.map_values(|c: CachedData| c@),
            find_entry(views, code@, today@) == find_entry(
                views.subrange(i as int, views.len() as int),
                code@,
                today@,
            ),
        decreases data.len() - i,
    {
        if data[i].country_code == *code && data[i].date == *today {
            return Some(i);
        }
        proof {
            lemma_find_entry_suffix(views, code@, today@, i as int);
        }
        i = i + 1;
    }
    None
}

/// Decides what to persist when the program starts on `today`: a fresh, empty
/// cache when none could be read or the stored one belongs to another day;
/// nothing when it is current or could not be parsed.
pub fn reset_cache_if_needed(stored: &StoredCache, today: &String) -> (r: Option<FullCache>)
    ensures
        match r {
            None => reset_result(*stored, today@) is None,
            Some(c) => reset_result(*stored, today@) == Some(c@),
        },
{
    match stored {
        StoredCache::Missing => Some(new_cache(today)),
        StoredCache::Unparsable => None,
        StoredCache::Parsed(c) => {
            if c.date == *today {
                None
            } else {
                Some(new_cache(today))
            }
        },
    }
}

/// Looks up the entry stored for `country_code` on `today`: the first one in
/// order of insertion, or `None` when there is none or the cache was not parsed.
pub fn check_cache(stored: &StoredCache, country_code: &String, today: &String) -> (r: Option<
    CachedData,
>)
    ensures
        match r {
            None => find_entry(stored_data(*stored), country_code@, today@) is None,
            Some(c) => find_entry(stored_data(*stored), country_code@, today@) == Some(c@),
        },
{
    match stored {
        StoredCache::Parsed(full) => match position(&full.data, country_code, today) {
            Some(i) => Some(full.data[i].copy()),
            None => None,
        },
        _ => None,
    }
}

/// Stores `holidays` for `country_code` on `today` in the cache that was read
/// (a fresh one when it could not be), unless an entry for that pair is there
/// already. Earlier entries are kept in order; the new one comes last.
pub fn write_cache(stored: StoredCache, country_code: &String, today: &String, holidays: &Vec<Holiday>) -> (r:
    WriteOutcome)
    ensures
        match r {
            WriteOutcome::AlreadyCached => write_result(
                base_cache(stored, today@),
                country_code@,
                today@,
                holiday_views(holidays@),
            ) is None,
            WriteOutcome::Updated(c) => write_result(
                base_cache(stored, today@),
                country_code@,
                today@,
                holiday_views(holidays@),
            ) == Some(c@),
        },
{
    let mut full = match stored {
        StoredCache::Parsed(c) => c,
        _ => new_cache(today),
    };
    if position(&full.data, country_code, today).is_some() {
        return WriteOutcome::AlreadyCached;
    }
    let ghost before = full@;
    let entry = CachedData {
        country_code: country_code.clone(),
        date: today.clone(),
        holidays: copy_holidays(holidays),
    };
    full.data.push(entry);
    assert(full@.data =~= before.data.push(
        CachedDataView {
            country_code: country_code@,
            date: today@,
            holidays: holiday_views(holidays@),
        },
    ));
    WriteOutcome::Updated(full)
}

proof fn lemma_find_entry_push(
    data: Seq<CachedDataView>,
    x: CachedDataView,
    code: Seq<char>,
    today: Seq<char>,
)
    requires
        find_entry(data, code, today) is None,
    ensures
        find_entry(data.push(x), code, today) == if is_entry_for(x, code, today) {
            Some(x)
        } else {
            None
        },
    decreases data.len(),
{
    if data.len() > 0 {
        assert(data.push(x)[0] == data[0]);
        assert(data.push(x).drop_first() =~= data.drop_first().push(x));
        lemma_find_entry_push(data.drop_first(), x, code, today);
    } else {
        assert(data.push(x)[0] == x);
        assert(data.push(x).drop_first() =~= Seq::<CachedDataView>::empty());
        assert(find_entry(Seq::<CachedDataView>::empty(), code, today) is None);
    }
}

proof fn lemma_find_entry_found(data: Seq<CachedDataView>, code: Seq<char>, today: Seq<char>)
    ensures
        find_entry(data, code, today) matches Some(c) ==> is_entry_for(c, code, today),
    decreases data.len(),
{
    if data.len() > 0 {
        lemma_find_entry_found(data.drop_first(), code, today);
    }
}

/// Once a write for a country and a day has stored its holidays, a lookup for
/// that country and day finds exactly the holidays written.
pub proof fn lemma_write_then_lookup(
    stored: StoredCache,
    code: Seq<char>,
    today: Seq<char>,
    holidays: Seq<HolidayView>,
)
    requires
        write_result(base_cache(stored, today), code, today, holidays) is Some,
    ensures
        find_entry(
            write_result(base_cache(stored, today), code, today, holidays)->0.data,
            code,
            today,
        ) == Some(CachedDataView { country_code: code, date: today, holidays: holidays }),
{
    let base = base_cache(stored, today);
    lemma_find_entry_push(
        base.data,
        CachedDataView { country_code: code, date: today, holidays: holidays },
        code,
        today,
    );
}

/// Writing twice for the same country and day stores one entry: the second
/// write changes nothing, whatever holidays it carries.
pub proof fn lemma_write_idempotent(
    stored: StoredCache,
    code: Seq<char>,
    today: Seq<char>,
    first: Seq<HolidayView>,
    second: Seq<HolidayView>,
)
    requires
        write_result(base_cache(stored, today), code, today, first) is Some,
    ensures
        write_result(
            write_result(base_cache(stored, today), code, today, first)->0,
            code,
            today,
            second,
        ) is None,
        write_result(base_cache(stored, today), code, today, first)->0.data.len()
            == base_cache(stored, today).data.len() + 1,
{
    lemma_write_then_lookup(stored, code, today, first);
}

/// A cache reset on another day is replaced, before any lookup, by an empty
/// one dated today, in which no country has an entry.
pub proof fn lemma_stale_cache_cleared(c: FullCache, today: Seq<char>, code: Seq<char>)
    requires
        c@.date != today,
    ensures
        reset_result(StoredCache::Parsed(c), today) == Some(fresh_cache(today)),
        find_entry(fresh_cache(today).data, code, today) is None,
{
}

} // verus!
