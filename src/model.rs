use vstd::prelude::*;

verus! {

/// The text of each string in a sequence.
pub open spec fn texts(v: Seq<String>) -> Seq<Seq<char>> {
    v.map_values(|s: String| s@)
}

/// One public holiday as the holiday service describes it.
#[derive(Debug)]
pub struct Holiday {
    pub date: String,
    pub name: String,
    /// The regions that observe it; `None` for a national holiday.
    pub counties: Option<Vec<String>>,
    pub types: Vec<String>,
}

pub struct HolidayView {
    pub date: Seq<char>,
    pub name: Seq<char>,
    pub counties: Option<Seq<Seq<char>>>,
    pub types: Seq<Seq<char>>,
}

impl View for Holiday {
    type V = HolidayView;

    open spec fn view(&self) -> HolidayView {
        HolidayView {
            date: self.date@,
            name: self.name@,
            counties: match self.counties {
                Some(c) => Some(texts(c@)),
                None => None,
            },
            types: texts(self.types@),
        }
    }
}

/// The holidays of one country as fetched on one day.
#[derive(Debug)]
pub struct CachedData {
    pub country_code: String,
    pub date: String,
    pub holidays: Vec<Holiday>,
}

pub struct CachedDataView {
    pub country_code: Seq<char>,
    pub date: Seq<char>,
    pub holidays: Seq<HolidayView>,
}

/// The view of each holiday in a sequence.
pub open spec fn holiday_views(v: Seq<Holiday>) -> Seq<HolidayView> {
    v.map_values(|h: Holiday| h@)
}

impl View for CachedData {
    type V = CachedDataView;

    open spec fn view(&self) -> CachedDataView {
        CachedDataView {
            country_code: self.country_code@,
            date: self.date@,
            holidays: holiday_views(self.holidays@),
        }
    }
}

/// The whole cache: the day it was last reset and the entries stored since.
#[derive(Debug)]
pub struct FullCache {
    pub date: String,
    pub data: Vec<CachedData>,
}

pub struct FullCacheView {
    pub date: Seq<char>,
    pub data: Seq<CachedDataView>,
}

impl View for FullCache {
    type V = FullCacheView;

    open spec fn view(&self) -> FullCacheView {
        FullCacheView {
            date: self.date@,
            data: self.data@.map_values(|c: CachedData| c@),
        }
    }
}

/// What reading the persisted cache gave.
#[derive(Debug)]
pub enum StoredCache {
    /// There was no cache, or it could not be read.
    Missing,
    /// The cache was read but does not hold a valid cache.
    Unparsable,
    Parsed(FullCache),
}

/// Copies each string of `v`.
pub fn copy_strings(v: &Vec<String>) -> (r: Vec<String>)
    ensures
        texts(r@) == texts(v@),
{
    let mut r: Vec<String> = Vec::new();
    let mut i: usize = 0;
    while i < v.len()
        invariant
            i <= v.len(),
            r.len() == i,
            forall|j: int| 0 <= j < i ==> r@[j]@ == v@[j]@,
        decreases v.len() - i,
    {
        r.push(v[i].clone());
        i = i + 1;
    }
    assert(texts(r@) =~= texts(v@));
    r
}

impl Holiday {
    /// A copy of this holiday.
    pub fn copy(&self) -> (r: Holiday)
        ensures
            r@ == self@,
    {
        let counties = match &self.counties {
            Some(c) => Some(copy_strings(c)),
            None => None,
        };
        Holiday {
            date: self.date.clone(),
            name: self.name.clone(),
            counties,
            types: copy_strings(&self.types),
        }
    }
}

/// Copies each holiday of `v`.
pub fn copy_holidays(v: &Vec<Holiday>) -> (r: Vec<Holiday>)
    ensures
        holiday_views(r@) == holiday_views(v@),
{
    let mut r: Vec<Holiday> = Vec::new();
    let mut i: usize = 0;
    while i < v.len()
        invariant
            i <= v.len(),
            r.len() == i,
            forall|j: int| 0 <= j < i ==> r@[j]@ == v@[j]@,
        decreases v.len() - i,
    {
        r.push(v[i].copy());
        i = i + 1;
    }
    assert(holiday_views(r@) =~= holiday_views(v@));
    r
}

impl CachedData {
    /// A copy of this entry.
    pub fn copy(&self) -> (r: CachedData)
        ensures
            r@ == self@,
    {
        CachedData {
            country_code: self.country_code.clone(),
            date: self.date.clone(),
            holidays: copy_holidays(&self.holidays),
        }
    }
}

} // verus!
