//! The durable store as a map from short code to long URL, and what the
//! service's decisions guarantee when the store behaves like one.

use crate::alphabet::is_permuted_alphabet;
use crate::encoder::{
    digit_count, lemma_short_code_injective, lemma_short_code_is_code, short_code,
};
use crate::service::{
    allocation_step, created_record, insert_step, lookup_step, offset_of, ActionView,
    CounterReply, InsertReply, LookupReplyView, ServiceError, BASE_OFFSET,
};
use vstd::prelude::*;

verus! {

/// The durable store's content: long URLs by short code.
pub type Store = Map<Seq<char>, Seq<char>>;

/// What a reachable store answers to a lookup of `short_url`.
pub open spec fn store_lookup(store: Store, short_url: Seq<char>) -> LookupReplyView {
    if store.dom().contains(short_url) {
        LookupReplyView::Found(store[short_url])
    } else {
        LookupReplyView::Missing
    }
}

/// The store after the caller has carried out `action` with success. Only
/// an insert changes it.
pub open spec fn store_after(store: Store, action: ActionView) -> Store {
    match action {
        ActionView::Persist(record) => store.insert(record.short_url, record.long_url),
        _ => store,
    }
}

/// A creation that went through: the counter's value and what was asked for.
pub struct Creation {
    pub id: u64,
    pub long_url: Seq<char>,
    pub now: i64,
}

/// The short code under which `creation` is stored.
pub open spec fn code_of(alphabet: Seq<char>, creation: Creation) -> Seq<char> {
    short_code(alphabet, offset_of(creation.id))
}

/// The store that was empty before `history`, a sequence of creations that
/// went through, oldest first.
pub open spec fn store_of(alphabet: Seq<char>, history: Seq<Creation>) -> Store
    decreases history.len(),
{
    if history.len() == 0 {
        Map::empty()
    } else {
        let last = history.last();
        store_after(
            store_of(alphabet, history.drop_last()),
            allocation_step(alphabet, last.long_url, CounterReply::Value(last.id), last.now),
        )
    }
}

/// Whether no counter value occurs twice in `history`.
pub open spec fn identifiers_unique(history: Seq<Creation>) -> bool {
    forall|i: int, j: int|
        0 <= i < history.len() && 0 <= j < history.len() && i != j ==> history[i].id
            != history[j].id
}

/// Different counter values are stored under different short codes.
pub proof fn lemma_distinct_identifiers_distinct_codes(alphabet: Seq<char>, id1: u64, id2: u64)
    requires
        is_permuted_alphabet(alphabet),
        id1 != id2,
    ensures
        short_code(alphabet, offset_of(id1)) != short_code(alphabet, offset_of(id2)),
{
    lemma_short_code_injective(alphabet, offset_of(id1), offset_of(id2));
}

/// With the base offset added, even the first identifiers are stored under
/// codes of four symbols or more; none has more than eleven.
pub proof fn lemma_created_code_length(alphabet: Seq<char>, id: u64)
    requires
        is_permuted_alphabet(alphabet),
        id + BASE_OFFSET <= u64::MAX,
    ensures
        4 <= short_code(alphabet, offset_of(id)).len() <= 11,
{
    lemma_short_code_is_code(alphabet, offset_of(id));
    reveal_with_fuel(digit_count, 4);
}

/// Where the counter fails, the creation fails with `AllocationFailure` and
/// leaves the store as it was.
pub proof fn lemma_failed_allocation_writes_nothing(
    alphabet: Seq<char>,
    store: Store,
    long_url: Seq<char>,
    now: i64,
)
    ensures
        allocation_step(alphabet, long_url, CounterReply::Failed, now) == ActionView::Fail(
            ServiceError::AllocationFailure,
        ),
        store_after(store, allocation_step(alphabet, long_url, CounterReply::Failed, now))
            == store,
{
}

/// A creation that went through answers with the record it stored, and a
/// lookup of that record's short code redirects to the long URL that the
/// creation was asked for.
pub proof fn lemma_create_then_resolve(
    alphabet: Seq<char>,
    store: Store,
    long_url: Seq<char>,
    id: u64,
    now: i64,
)
    ensures
        ({
            let record = created_record(alphabet, long_url, id, now);
            let persist = allocation_step(alphabet, long_url, CounterReply::Value(id), now);
            &&& persist == ActionView::Persist(record)
            &&& insert_step(record, InsertReply::Stored) == ActionView::Created(record)
            &&& record.long_url == long_url
            &&& lookup_step(store_lookup(store_after(store, persist), record.short_url))
                == ActionView::Redirect(long_url)
        }),
{
}

/// The store holds exactly the short codes of the creations that went
/// through.
pub proof fn lemma_store_domain(alphabet: Seq<char>, history: Seq<Creation>, code: Seq<char>)
    ensures
        store_of(alphabet, history).dom().contains(code) <==> exists|i: int|
            0 <= i < history.len() && code == code_of(alphabet, #[trigger] history[i]),
    decreases history.len(),
{
    if history.len() > 0 {
        let earlier = history.drop_last();
        lemma_store_domain(alphabet, earlier, code);
        if store_of(alphabet, history).dom().contains(code) && code != code_of(
            alphabet,
            history.last(),
        ) {
            let i = choose|i: int|
                0 <= i < earlier.len() && code == code_of(alphabet, #[trigger] earlier[i]);
            assert(history[i] == earlier[i]);
        }
        if exists|i: int|
            0 <= i < history.len() && code == code_of(alphabet, #[trigger] history[i]) {
            let i = choose|i: int|
                0 <= i < history.len() && code == code_of(alphabet, #[trigger] history[i]);
            if i < earlier.len() {
                assert(earlier[i] == history[i]);
            }
        }
    }
}

/// While the counter never repeats a value, every creation that went
/// through is resolved to its own long URL, however many came after it.
pub proof fn lemma_round_trip(alphabet: Seq<char>, history: Seq<Creation>, i: int)
    requires
        is_permuted_alphabet(alphabet),
        identifiers_unique(history),
        0 <= i < history.len(),
    ensures
        lookup_step(store_lookup(store_of(alphabet, history), code_of(alphabet, history[i])))
            == ActionView::Redirect(history[i].long_url),
    decreases history.len(),
{
    let earlier = history.drop_last();
    let last = history.last();
    if i < earlier.len() {
        assert(earlier[i] == history[i]);
        lemma_distinct_identifiers_distinct_codes(alphabet, history[i].id, last.id);
        lemma_round_trip(alphabet, earlier, i);
    }
}

/// A short code that no creation was stored under is answered with
/// `NotFound`.
pub proof fn lemma_miss(alphabet: Seq<char>, history: Seq<Creation>, code: Seq<char>)
    requires
        forall|i: int| 0 <= i < history.len() ==> code != code_of(alphabet, #[trigger] history[i]),
    ensures
        lookup_step(store_lookup(store_of(alphabet, history), code)) == ActionView::Fail(
            ServiceError::NotFound,
        ),
{
    lemma_store_domain(alphabet, history, code);
}

} // verus!
