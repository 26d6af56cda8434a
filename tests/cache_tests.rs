use holidays::cache::{check_cache, reset_cache_if_needed, write_cache, WriteOutcome};
use holidays::model::{CachedData, FullCache, Holiday, StoredCache};

fn holiday(date: &str, name: &str) -> Holiday {
    Holiday {
        date: date.to_string(),
        name: name.to_string(),
        counties: None,
        types: vec!["Public".to_string()],
    }
}

fn entry(code: &str, date: &str, names: &[&str]) -> CachedData {
    CachedData {
        country_code: code.to_string(),
        date: date.to_string(),
        holidays: names.iter().map(|n| holiday("2026-12-25", n)).collect(),
    }
}

fn names(hs: &[Holiday]) -> Vec<String> {
    hs.iter().map(|h| h.name.clone()).collect()
}

#[test]
fn reset_creates_cache_when_missing() {
    let today = "2026-10-18".to_string();
    let c = reset_cache_if_needed(&StoredCache::Missing, &today).expect("fresh cache");
    assert_eq!(c.date, "2026-10-18");
    assert!(c.data.is_empty());
}

#[test]
fn reset_skipped_when_unparsable() {
    let today = "2026-10-18".to_string();
    assert!(reset_cache_if_needed(&StoredCache::Unparsable, &today).is_none());
}

#[test]
fn reset_skipped_when_current() {
    let today = "2026-10-18".to_string();
    let stored = StoredCache::Parsed(FullCache {
        date: today.clone(),
        data: vec![entry("DE", "2026-10-18", &["Christmas"])],
    });
    assert!(reset_cache_if_needed(&stored, &today).is_none());
}

#[test]
fn stale_cache_is_cleared_before_lookup() {
    let today = "2026-10-18".to_string();
    let stored = StoredCache::Parsed(FullCache {
        date: "2026-10-17".to_string(),
        data: vec![entry("DE", "2026-10-17", &["Christmas"]), entry("FR", "2026-10-17", &["Noel"])],
    });
    let c = reset_cache_if_needed(&stored, &today).expect("reset");
    assert_eq!(c.date, "2026-10-18");
    assert!(c.data.is_empty());
    let after = StoredCache::Parsed(c);
    assert!(check_cache(&after, &"DE".to_string(), &today).is_none());
    assert!(check_cache(&after, &"US".to_string(), &today).is_none());
}

#[test]
fn lookup_finds_first_matching_entry() {
    let today = "2026-10-18".to_string();
    let stored = StoredCache::Parsed(FullCache {
        date: today.clone(),
        data: vec![
            entry("DE", "2026-10-17", &["Old"]),
            entry("FR", "2026-10-18", &["Noel"]),
            entry("DE", "2026-10-18", &["First"]),
            entry("DE", "2026-10-18", &["Second"]),
        ],
    });
    let hit = check_cache(&stored, &"DE".to_string(), &today).expect("hit");
    assert_eq!(hit.country_code, "DE");
    assert_eq!(hit.date, "2026-10-18");
    assert_eq!(names(&hit.holidays), vec!["First".to_string()]);
}

#[test]
fn lookup_misses_other_day_or_country() {
    let today = "2026-10-18".to_string();
    let stored = StoredCache::Parsed(FullCache {
        date: today.clone(),
        data: vec![entry("DE", "2026-10-17", &["Old"]), entry("FR", "2026-10-18", &["Noel"])],
    });
    assert!(check_cache(&stored, &"DE".to_string(), &today).is_none());
    assert!(check_cache(&StoredCache::Missing, &"FR".to_string(), &today).is_none());
    assert!(check_cache(&StoredCache::Unparsable, &"FR".to_string(), &today).is_none());
}

#[test]
fn write_then_lookup_round_trip() {
    let today = "2026-10-18".to_string();
    let code = "DE".to_string();
    let hs = vec![holiday("2026-12-25", "Christmas Day"), holiday("2026-12-26", "St. Stephen's Day")];
    let c = match write_cache(StoredCache::Missing, &code, &today, &hs) {
        WriteOutcome::Updated(c) => c,
        WriteOutcome::AlreadyCached => panic!("expected an update"),
    };
    assert_eq!(c.date, "2026-10-18");
    assert_eq!(c.data.len(), 1);
    let hit = check_cache(&StoredCache::Parsed(c), &code, &today).expect("hit");
    assert_eq!(names(&hit.holidays), names(&hs));
    assert_eq!(hit.holidays[1].date, "2026-12-26");
    assert_eq!(hit.holidays[0].types, vec!["Public".to_string()]);
}

#[test]
fn write_keeps_earlier_entries() {
    let today = "2026-10-18".to_string();
    let stored = StoredCache::Parsed(FullCache {
        date: today.clone(),
        data: vec![entry("FR", "2026-10-18", &["Noel"]), entry("DE", "2026-10-17", &["Old"])],
    });
    let c = match write_cache(stored, &"DE".to_string(), &today, &vec![holiday("2026-12-25", "X")]) {
        WriteOutcome::Updated(c) => c,
        WriteOutcome::AlreadyCached => panic!("expected an update"),
    };
    assert_eq!(c.data.len(), 3);
    assert_eq!(c.data[0].country_code, "FR");
    assert_eq!(c.data[1].date, "2026-10-17");
    assert_eq!(c.data[2].country_code, "DE");
    assert_eq!(c.data[2].date, "2026-10-18");
}

#[test]
fn write_on_unparsable_cache_starts_fresh() {
    let today = "2026-10-18".to_string();
    let c = match write_cache(StoredCache::Unparsable, &"US".to_string(), &today, &vec![]) {
        WriteOutcome::Updated(c) => c,
        WriteOutcome::AlreadyCached => panic!("expected an update"),
    };
    assert_eq!(c.date, "2026-10-18");
    assert_eq!(c.data.len(), 1);
    assert!(c.data[0].holidays.is_empty());
}

#[test]
fn second_write_is_idempotent() {
    let today = "2026-10-18".to_string();
    let code = "DE".to_string();
    let first = match write_cache(StoredCache::Missing, &code, &today, &vec![holiday("2026-12-25", "A")]) {
        WriteOutcome::Updated(c) => c,
        WriteOutcome::AlreadyCached => panic!("expected an update"),
    };
    assert_eq!(first.data.len(), 1);
    let second = write_cache(StoredCache::Parsed(first), &code, &today, &vec![holiday("2026-12-26", "B")]);
    assert!(matches!(second, WriteOutcome::AlreadyCached));
}
