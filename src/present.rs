use vstd::prelude::*;

use crate::date::{is_upcoming, is_upcoming_date, Date};
use crate::model::{holiday_views, texts, Holiday, HolidayView};

verus! {

/// How many upcoming holidays are shown.
pub const SHOWN: usize = 5;

/// The first `limit` holidays of `hs` that fall strictly after `today`, in
/// their order in `hs`.
pub open spec fn upcoming_from(hs: Seq<HolidayView>, today: Date, limit: nat) -> Seq<HolidayView>
    decreases hs.len(),
{
    if hs.len() == 0 || limit == 0 {
        Seq::empty()
    } else if is_upcoming(hs[0].date, today) {
        seq![hs[0]] + upcoming_from(hs.drop_first(), today, (limit - 1) as nat)
    } else {
        upcoming_from(hs.drop_first(), today, limit)
    }
}

/// The holidays shown on `today`.
pub open spec fn upcoming(hs: Seq<HolidayView>, today: Date) -> Seq<HolidayView> {
    upcoming_from(hs, today, SHOWN as nat)
}

proof fn lemma_upcoming_step(hs: Seq<HolidayView>, today: Date, limit: nat, i: int)
    requires
        0 <= i < hs.len(),
        limit > 0,
    ensures
        upcoming_from(hs.subrange(i, hs.len() as int), today, limit) == if is_upcoming(
            hs[i].date,
            today,
        ) {
            seq![hs[i]] + upcoming_from(hs.subrange(i + 1, hs.len() as int), today, (limit - 1) as nat)
        } else {
            upcoming_from(hs.subrange(i + 1, hs.len() as int), today, limit)
        },
{
    assert(hs.subrange(i, hs.len() as int).drop_first() =~= hs.subrange(i + 1, hs.len() as int));
}

/// The holidays, among `holidays`, that are shown on `today`: those whose
/// date is strictly after `today`, in their order, at most five.
pub fn upcoming_holidays(holidays: &Vec<Holiday>, today: &Date) -> (r: Vec<Holiday>)
    ensures
        holiday_views(r@) == upcoming(holiday_views(holidays@), *today),
{
    let ghost hs = holiday_views(holidays@);
    let mut r: Vec<Holiday> = Vec::new();
    let mut i: usize = 0;
    assert(hs.subrange(0, hs.len() as int) =~= hs);
    assert(holiday_views(r@) + upcoming(hs, *today) =~= upcoming(hs, *today));
    while i < holidays.len() && r.len() < SHOWN
        invariant
            i <= holidays.len(),
            r.len() <= SHOWN,
            hs == holiday_views(holidays@),
            holiday_views(r@) + upcoming_from(
                hs.subrange(i as int, hs.len() as int),
                *today,
                (SHOWN - r.len()) as nat,
            ) == upcoming(hs, *today),
        decreases holidays.len() - i,
    {
        proof {
            lemma_upcoming_step(hs, *today, (SHOWN - r.len()) as nat, i as int);
        }
        if is_upcoming_date(holidays[i].date.as_str(), today) {
            let ghost before = holiday_views(r@);
            r.push(holidays[i].copy());
            assert(holiday_views(r@) =~= before + seq![hs[i as int]]);
            assert(holiday_views(r@) + upcoming_from(
                hs.subrange(i + 1, hs.len() as int),
                *today,
                (SHOWN - r.len()) as nat,
            ) =~= before + (seq![hs[i as int]] + upcoming_from(
                hs.subrange(i + 1, hs.len() as int),
                *today,
                (SHOWN - r.len()) as nat,
            )));
        }
        i = i + 1;
    }
    assert(upcoming_from(hs.subrange(i as int, hs.len() as int), *today, (SHOWN - r.len()) as nat)
        =~= Seq::empty());
    assert(holiday_views(r@) =~= holiday_views(r@) + Seq::<HolidayView>::empty());
    r
}

/// The texts of `v` joined by a comma and a space.
pub open spec fn joined(v: Seq<Seq<char>>) -> Seq<char>
    decreases v.len(),
{
    if v.len() == 0 {
        Seq::empty()
    } else if v.len() == 1 {
        v[0]
    } else {
        joined(v.drop_last()) + ", "@ + v.last()
    }
}

/// How the regions of a holiday are shown: joined, or `National` when the
/// holiday has none listed.
pub open spec fn counties_text(counties: Option<Seq<Seq<char>>>) -> Seq<char> {
    match counties {
        Some(c) => joined(c),
        None => "National"@,
    }
}

/// The line that shows one holiday.
pub open spec fn holiday_line(h: HolidayView) -> Seq<char> {
    "Date: "@ + h.date + ", Name: "@ + h.name + ", Counties: "@ + counties_text(h.counties)
        + ", Types: "@ + joined(h.types)
}

/// Joins the strings of `v` with a comma and a space.
pub fn join_texts(v: &Vec<String>) -> (r: String)
    ensures
        r@ == joined(texts(v@)),
{
    let ghost t = texts(v@);
    let mut r = String::new();
    let mut i: usize = 0;
    assert(t.subrange(0, 0).len() == 0);
    while i < v.len()
        invariant
            i <= v.len(),
            t == texts(v@),
            r@ == joined(t.subrange(0, i as int)),
        decreases v.len() - i,
    {
        let ghost before = r@;
        if i > 0 {
            r.append(", ");
        }
        r.append(v[i].as_str());
        assert(t.subrange(0, i + 1).drop_last() =~= t.subrange(0, i as int));
        assert(t.subrange(0, i + 1).last() == v@[i as int]@);
        if i == 0 {
            assert(r@ =~= joined(t.subrange(0, 1)));
        }
        i = i + 1;
    }
    assert(t.subrange(0, v.len() as int) =~= t);
    r
}

/// The line that shows `h`:
/// `Date: <date>, Name: <name>, Counties: <regions>, Types: <types>`.
pub fn format_holiday(h: &Holiday) -> (r: String)
    ensures
        r@ == holiday_line(h@),
{
    let mut r = String::new();
    r.append("Date: ");
    r.append(h.date.as_str());
    r.append(", Name: ");
    r.append(h.name.as_str());
    r.append(", Counties: ");
    match &h.counties {
        Some(c) => {
            let j = join_texts(c);
            r.append(j.as_str());
        },
        None => {
            r.append("National");
        },
    }
    r.append(", Types: ");
    let t = join_texts(&h.types);
    r.append(t.as_str());
    r
}

/// The lines that show the holidays of `holidays` that come after `today`:
/// at most five, in their order.
pub fn print_holidays(holidays: &Vec<Holiday>, today: &Date) -> (r: Vec<String>)
    ensures
        r@.len() == upcoming(holiday_views(holidays@), *today).len(),
        forall|k: int|
            0 <= k < r@.len() ==> #[trigger] r@[k]@ == holiday_line(
                upcoming(holiday_views(holidays@), *today)[k],
            ),
{
    let shown = upcoming_holidays(holidays, today);
    let ghost up = holiday_views(shown@);
    let mut r: Vec<String> = Vec::new();
    let mut i: usize = 0;
    while i < shown.len()
        invariant
            i <= shown.len(),
            up == holiday_views(shown@),
            r@.len() == i,
            forall|k: int| 0 <= k < i ==> #[trigger] r@[k]@ == holiday_line(up[k]),
        decreases shown.len() - i,
    {
        r.push(format_holiday(&shown[i]));
        i = i + 1;
    }
    r
}

/// Whether `sub` is made of items of `whole` taken in their order: item `k`
/// of `sub` is item `idx[k]` of `whole`, and the indices increase.
pub open spec fn is_ordered_selection(sub: Seq<HolidayView>, whole: Seq<HolidayView>, idx: Seq<int>) -> bool {
    &&& idx.len() == sub.len()
    &&& forall|k: int| 0 <= k < idx.len() ==> 0 <= #[trigger] idx[k] < whole.len() && sub[k] == whole[idx[k]]
    &&& forall|k: int, l: int| 0 <= k < l < idx.len() ==> idx[k] < idx[l]
}

proof fn lemma_upcoming_from_props(hs: Seq<HolidayView>, today: Date, limit: nat) -> (idx: Seq<int>)
    ensures
        upcoming_from(hs, today, limit).len() <= limit,
        forall|k: int|
            0 <= k < upcoming_from(hs, today, limit).len() ==> is_upcoming(
                #[trigger] upcoming_from(hs, today, limit)[k].date,
                today,
            ),
        is_ordered_selection(upcoming_from(hs, today, limit), hs, idx),
    decreases hs.len(),
{
    if hs.len() == 0 || limit == 0 {
        Seq::empty()
    } else {
        let rest = hs.drop_first();
        let next = if is_upcoming(hs[0].date, today) {
            (limit - 1) as nat
        } else {
            limit
        };
        let idx0 = lemma_upcoming_from_props(rest, today, next);
        let shifted = idx0.map_values(|j: int| j + 1);
        let r0 = upcoming_from(rest, today, next);
        if is_upcoming(hs[0].date, today) {
            let idx = seq![0int] + shifted;
            let r = upcoming_from(hs, today, limit);
            assert(r == seq![hs[0]] + r0);
            assert forall|k: int| 0 <= k < r.len() implies is_upcoming(#[trigger] r[k].date, today) by {
                if k > 0 {
                    assert(r[k] == r0[k - 1]);
                }
            }
            assert forall|k: int| 0 <= k < idx.len() implies 0 <= #[trigger] idx[k] < hs.len() && r[k] == hs[idx[k]] by {
                if k > 0 {
                    assert(idx[k] == idx0[k - 1] + 1);
                    assert(r[k] == r0[k - 1]);
                }
            }
            assert forall|k: int, l: int| 0 <= k < l < idx.len() implies idx[k] < idx[l] by {
                if k > 0 {
                    assert(idx[k] == idx0[k - 1] + 1);
                }
                assert(idx[l] == idx0[l - 1] + 1);
                assert(0 <= idx0[l - 1]);
            }
            idx
        } else {
            let r = upcoming_from(hs, today, limit);
            assert(r == r0);
            assert forall|k: int| 0 <= k < shifted.len() implies 0 <= #[trigger] shifted[k] < hs.len() && r[k] == hs[shifted[k]] by {
                assert(shifted[k] == idx0[k] + 1);
            }
            assert forall|k: int, l: int| 0 <= k < l < shifted.len() implies shifted[k] < shifted[l] by {
                assert(shifted[k] == idx0[k] + 1);
                assert(shifted[l] == idx0[l] + 1);
            }
            shifted
        }
    }
}

/// The holidays shown are never more than five, each falls strictly after
/// today, and they keep the order they had among all the holidays.
pub proof fn lemma_upcoming_shown(hs: Seq<HolidayView>, today: Date)
    ensures
        upcoming(hs, today).len() <= SHOWN,
        forall|k: int|
            0 <= k < upcoming(hs, today).len() ==> is_upcoming(
                #[trigger] upcoming(hs, today)[k].date,
                today,
            ),
        exists|idx: Seq<int>| is_ordered_selection(upcoming(hs, today), hs, idx),
{
    let idx = lemma_upcoming_from_props(hs, today, SHOWN as nat);
    assert(is_ordered_selection(upcoming(hs, today), hs, idx));
}

} // verus!
