use std::collections::{HashMap, HashSet};

use url_shortener::alphabet::Alphabet;
use url_shortener::encoder::generate_short_url;
use url_shortener::service::{
    effective_secret, offset_identifier, on_allocation, on_allocation_with, on_insert, on_lookup,
    Action, CounterReply, InsertReply, LookupReply, ServiceError, UrlRecord, BASE_OFFSET,
    COUNTER_KEY, DEFAULT_SECRET_KEY,
};

/// A counter and a store that live in memory, with switches to make either
/// fail.
struct Stores {
    counter: u64,
    counter_up: bool,
    records: HashMap<String, (String, i64)>,
    store_up: bool,
}

fn stores() -> Stores {
    Stores { counter: 0, counter_up: true, records: HashMap::new(), store_up: true }
}

fn increment(stores: &mut Stores) -> CounterReply {
    if stores.counter_up {
        stores.counter += 1;
        CounterReply::Value(stores.counter)
    } else {
        CounterReply::Failed
    }
}

fn insert(stores: &mut Stores, record: &UrlRecord) -> InsertReply {
    if stores.store_up {
        stores
            .records
            .insert(record.short_url.clone(), (record.long_url.clone(), record.created_at));
        InsertReply::Stored
    } else {
        InsertReply::Failed
    }
}

fn select(stores: &Stores, short_url: &str) -> LookupReply {
    if !stores.store_up {
        return LookupReply::Failed;
    }
    match stores.records.get(short_url) {
        Some((long_url, _)) => LookupReply::Found(long_url.clone()),
        None => LookupReply::Missing,
    }
}

/// Carries a request through to its answer.
fn finish(stores: &mut Stores, first: Action) -> Action {
    let mut action = first;
    loop {
        action = match action {
            Action::Persist(record) => {
                let reply = insert(stores, &record);
                on_insert(record, reply)
            }
            answer => return answer,
        };
    }
}

fn create(stores: &mut Stores, secret_key: &str, long_url: &str, now: i64) -> Action {
    let reply = increment(stores);
    let first = on_allocation(secret_key, long_url.to_string(), reply, now);
    finish(stores, first)
}

fn resolve(stores: &Stores, short_url: &str) -> Action {
    on_lookup(select(stores, short_url))
}

fn record(short_url: &str, long_url: &str, created_at: i64) -> UrlRecord {
    UrlRecord {
        short_url: short_url.to_string(),
        long_url: long_url.to_string(),
        created_at,
    }
}

#[test]
fn constants_of_the_service() {
    assert_eq!(BASE_OFFSET, 14_000_000);
    assert_eq!(COUNTER_KEY, "url_id");
    assert_eq!(DEFAULT_SECRET_KEY, "default_secret");
}

#[test]
fn offset_identifier_adds_the_base_offset() {
    assert_eq!(offset_identifier(0), 14_000_000);
    assert_eq!(offset_identifier(1), 14_000_001);
    assert_eq!(offset_identifier(1_000_000), 15_000_000);
    assert_eq!(offset_identifier(u64::MAX - 14_000_000), u64::MAX);
}

#[test]
fn effective_secret_prefers_the_configured_key() {
    assert_eq!(effective_secret(Some("mine".to_string())), "mine");
    assert_eq!(effective_secret(Some(String::new())), "");
}

#[test]
fn effective_secret_falls_back_to_the_default() {
    assert_eq!(effective_secret(None), "default_secret");
}

#[test]
fn allocation_with_a_value_asks_for_the_record_to_be_persisted() {
    let now: i64 = 1_700_000_000_000;
    let long_url = "https://example.com".to_string();
    let action = on_allocation("default_secret", long_url, CounterReply::Value(1), now);
    let short_url = generate_short_url("default_secret", 14_000_001);
    assert_eq!(action, Action::Persist(record(&short_url, "https://example.com", now)));
    assert_eq!(action, Action::Persist(record("Ljfh", "https://example.com", now)));
}

#[test]
fn allocation_over_the_standard_alphabet_gives_exact_codes() {
    let alphabet = Alphabet::standard();
    assert_eq!(
        on_allocation_with(&alphabet, "https://example.com".to_string(), CounterReply::Value(1), 5),
        Action::Persist(record("6UcD", "https://example.com", 5)),
    );
    assert_eq!(
        on_allocation_with(&alphabet, "u".to_string(), CounterReply::Value(0), -1),
        Action::Persist(record("6UcC", "u", -1)),
    );
    assert_eq!(
        on_allocation_with(&alphabet, String::new(), CounterReply::Value(776_336), 0),
        Action::Persist(record("baaaa", "", 0)),
    );
    assert_eq!(
        on_allocation_with(
            &alphabet,
            "x".to_string(),
            CounterReply::Value(u64::MAX - 14_000_000),
            i64::MAX
        ),
        Action::Persist(record("v8QrKbgkrIp", "x", i64::MAX)),
    );
}

#[test]
fn created_codes_have_four_symbols_or_more() {
    for id in [0u64, 1, 2, 776_335] {
        match on_allocation("default_secret", String::new(), CounterReply::Value(id), 0) {
            Action::Persist(made) => assert_eq!(made.short_url.len(), 4),
            other => panic!("the allocation was followed by {:?}", other),
        }
    }
    match on_allocation("default_secret", String::new(), CounterReply::Value(776_336), 0) {
        Action::Persist(made) => assert_eq!(made.short_url.len(), 5),
        other => panic!("the allocation was followed by {:?}", other),
    }
    let last: u64 = u64::MAX - BASE_OFFSET;
    match on_allocation("default_secret", String::new(), CounterReply::Value(last), 0) {
        Action::Persist(made) => assert_eq!(made.short_url.len(), 11),
        other => panic!("the allocation was followed by {:?}", other),
    }
}

#[test]
fn allocation_uses_the_alphabet_of_the_key() {
    let alphabet = Alphabet::from_secret("s3cr3t");
    for id in [1u64, 2, 1000, 123_456_789] {
        let reply = CounterReply::Value(id);
        assert_eq!(
            on_allocation("s3cr3t", "https://example.com".to_string(), reply, 9),
            on_allocation_with(&alphabet, "https://example.com".to_string(), reply, 9),
        );
    }
}

#[test]
fn allocation_failure_fails_the_creation() {
    assert_eq!(
        on_allocation("default_secret", "https://example.com".to_string(), CounterReply::Failed, 0),
        Action::Fail(ServiceError::AllocationFailure),
    );
    assert_eq!(
        on_allocation_with(
            &Alphabet::standard(),
            "https://example.com".to_string(),
            CounterReply::Failed,
            0
        ),
        Action::Fail(ServiceError::AllocationFailure),
    );
}

#[test]
fn stored_insert_answers_with_the_record() {
    let made = record("6UcD", "https://example.com", 12);
    assert_eq!(on_insert(made.clone(), InsertReply::Stored), Action::Created(made));
}

#[test]
fn failed_insert_is_a_persistence_failure() {
    let made = record("6UcD", "https://example.com", 12);
    assert_eq!(
        on_insert(made, InsertReply::Failed),
        Action::Fail(ServiceError::PersistenceFailure)
    );
}

#[test]
fn found_row_redirects_to_the_long_url() {
    assert_eq!(
        on_lookup(LookupReply::Found("https://example.com".to_string())),
        Action::Redirect("https://example.com".to_string()),
    );
}

#[test]
fn missing_row_is_not_found() {
    assert_eq!(on_lookup(LookupReply::Missing), Action::Fail(ServiceError::NotFound));
}

#[test]
fn failed_query_is_a_query_failure() {
    assert_eq!(on_lookup(LookupReply::Failed), Action::Fail(ServiceError::QueryFailure));
}

#[test]
fn status_codes_of_the_failures() {
    assert_eq!(ServiceError::AllocationFailure.status_code(), 500);
    assert_eq!(ServiceError::PersistenceFailure.status_code(), 500);
    assert_eq!(ServiceError::NotFound.status_code(), 404);
    assert_eq!(ServiceError::QueryFailure.status_code(), 500);
}

#[test]
fn messages_of_the_failures() {
    assert_eq!(ServiceError::AllocationFailure.message(), "Redis Error");
    assert_eq!(ServiceError::PersistenceFailure.message(), "Database Error");
    assert_eq!(ServiceError::NotFound.message(), "URL not found");
    assert_eq!(ServiceError::QueryFailure.message(), "Database Error");
}

#[test]
fn create_then_resolve_yields_the_long_url() {
    let mut stores = stores();
    let created = create(&mut stores, "default_secret", "https://example.com", 42);
    let code = match created {
        Action::Created(made) => {
            assert_eq!(made.long_url, "https://example.com");
            assert_eq!(made.created_at, 42);
            assert_eq!(made.short_url, generate_short_url("default_secret", 14_000_001));
            made.short_url
        }
        other => panic!("the creation was answered with {:?}", other),
    };
    assert_eq!(resolve(&stores, &code), Action::Redirect("https://example.com".to_string()));
}

#[test]
fn every_creation_resolves_to_its_own_long_url() {
    let mut stores = stores();
    let mut created: Vec<(String, String)> = Vec::new();
    for n in 0u32..500 {
        let long_url = format!("https://example.com/page/{}", n);
        match create(&mut stores, "default_secret", &long_url, 0) {
            Action::Created(made) => created.push((made.short_url, made.long_url)),
            other => panic!("the creation was answered with {:?}", other),
        }
    }
    let codes: HashSet<&String> = created.iter().map(|(code, _)| code).collect();
    assert_eq!(codes.len(), 500);
    assert_eq!(stores.records.len(), 500);
    for (code, long_url) in &created {
        assert_eq!(resolve(&stores, code), Action::Redirect(long_url.clone()));
    }
}

#[test]
fn unknown_code_is_not_found() {
    let mut stores = stores();
    assert_eq!(resolve(&stores, "6UcD"), Action::Fail(ServiceError::NotFound));
    let created = create(&mut stores, "default_secret", "https://example.com", 0);
    assert!(matches!(created, Action::Created(_)));
    let never_made = generate_short_url("default_secret", 14_000_002);
    assert_eq!(resolve(&stores, &never_made), Action::Fail(ServiceError::NotFound));
    assert_eq!(resolve(&stores, ""), Action::Fail(ServiceError::NotFound));
}

#[test]
fn allocation_failure_leaves_no_record() {
    let mut stores = stores();
    stores.counter_up = false;
    let answer = create(&mut stores, "default_secret", "https://example.com", 0);
    assert_eq!(answer, Action::Fail(ServiceError::AllocationFailure));
    assert!(stores.records.is_empty());
    assert_eq!(stores.counter, 0);
    let would_be = generate_short_url("default_secret", 14_000_001);
    assert_eq!(resolve(&stores, &would_be), Action::Fail(ServiceError::NotFound));
}

#[test]
fn persistence_failure_skips_the_identifier() {
    let mut stores = stores();
    stores.store_up = false;
    let answer = create(&mut stores, "default_secret", "https://example.com/lost", 0);
    assert_eq!(answer, Action::Fail(ServiceError::PersistenceFailure));
    assert!(stores.records.is_empty());
    assert_eq!(stores.counter, 1);
    stores.store_up = true;
    match create(&mut stores, "default_secret", "https://example.com/kept", 0) {
        Action::Created(made) => {
            assert_eq!(made.short_url, generate_short_url("default_secret", 14_000_002));
        }
        other => panic!("the creation was answered with {:?}", other),
    }
    let skipped = generate_short_url("default_secret", 14_000_001);
    assert_eq!(resolve(&stores, &skipped), Action::Fail(ServiceError::NotFound));
}

#[test]
fn unreachable_store_fails_the_resolution() {
    let mut stores = stores();
    let created = create(&mut stores, "default_secret", "https://example.com", 0);
    let code = match created {
        Action::Created(made) => made.short_url,
        other => panic!("the creation was answered with {:?}", other),
    };
    stores.store_up = false;
    assert_eq!(resolve(&stores, &code), Action::Fail(ServiceError::QueryFailure));
}
