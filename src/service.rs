use crate::alias::{is_alias_of_len, rand_string, ALIAS_LEN};
use crate::errors::{ServiceError, StoreError, UserError};
use crate::store::{
    aliases_unique, create_table_spec, holds_alias, insert_spec, lookup_spec,
    insert_db, query_db, string_result_view, MappingStore, Rows, StoreView,
};
use vstd::prelude::*;

verus! {

/// Whether the validator accepts `s` as a well-formed absolute URL.
pub uninterp spec fn url_accepted(s: Seq<char>) -> bool;

/// Relies on validator's `validate_url`: whether the url crate parses the text;
/// the verdict depends on the text alone.
#[verifier::external_body]
fn validate_url(s: &str) -> (r: bool)
    ensures
        r == url_accepted(s@),
{
    validator::validate_url(s)
}

/// What shortening `url` under `alias` returns, and the state after it, where
/// `url_valid` is the validator's verdict on `url`.
pub open spec fn shorten_spec(s: StoreView, url: Seq<char>, url_valid: bool, alias: Seq<char>) -> (
    Result<Seq<char>, ServiceError>,
    StoreView,
) {
    if !url_valid {
        (Err(ServiceError::User(UserError::InvalidUrl)), s)
    } else {
        let (r, s2) = insert_spec(s, alias, url);
        match r {
            Ok(_) => (Ok(alias), s2),
            Err(e) => (Err(e), s),
        }
    }
}

/// The results and the final state of shortening `urls[0]`, `urls[1]`, ... in
/// turn, the k-th under `aliases[k]`.
pub open spec fn shorten_many(s: StoreView, urls: Seq<Seq<char>>, aliases: Seq<Seq<char>>) -> (
    Seq<Result<Seq<char>, ServiceError>>,
    StoreView,
)
    decreases urls.len(),
{
    if urls.len() == 0 || aliases.len() == 0 {
        (Seq::empty(), s)
    } else {
        let (r, s1) = shorten_spec(s, urls[0], url_accepted(urls[0]), aliases[0]);
        let (rs, s2) = shorten_many(s1, urls.drop_first(), aliases.drop_first());
        (seq![r] + rs, s2)
    }
}

/// Checks that `raw_url` is a well-formed URL.
pub fn check_url(raw_url: &str) -> (r: Result<(), ServiceError>)
    ensures
        r is Ok <==> url_accepted(raw_url@),
        r is Err ==> r == Err::<(), ServiceError>(ServiceError::User(UserError::InvalidUrl)),
{
    if validate_url(raw_url) {
        Ok(())
    } else {
        Err(ServiceError::User(UserError::InvalidUrl))
    }
}

/// What shortening returns once the alias `alias` was handed to the table's
/// insert and `inserted` came back: the alias, or the insert's failure.
pub open spec fn shorten_outcome_spec(alias: Seq<char>, inserted: Result<(), ServiceError>) -> Result<
    Seq<char>,
    ServiceError,
> {
    match inserted {
        Ok(()) => Ok(alias),
        Err(e) => Err(e),
    }
}

/// The first step of shortening `raw_url`: the alias to insert it under, or
/// `InvalidUrl` where the validator refuses the URL (then no alias is drawn).
pub fn prepare_shorten(raw_url: &str) -> (r: Result<String, ServiceError>)
    ensures
        r is Ok <==> url_accepted(raw_url@),
        r matches Ok(a) ==> is_alias_of_len(a@, ALIAS_LEN as nat),
        r is Err ==> r == Err::<String, ServiceError>(ServiceError::User(UserError::InvalidUrl)),
{
    match check_url(raw_url) {
        Ok(()) => Ok(rand_string()),
        Err(e) => Err(e),
    }
}

/// The last step of shortening: the alias where the insert under it
/// succeeded, else the insert's failure. No retry is made when the alias is taken.
pub fn shorten_outcome(alias: String, inserted: Result<(), ServiceError>) -> (r: Result<
    String,
    ServiceError,
>)
    ensures
        string_result_view(r) == shorten_outcome_spec(alias@, inserted),
{
    match inserted {
        Ok(()) => Ok(alias),
        Err(e) => Err(e),
    }
}

/// Shortens `raw_url` under `alias`, given the validator's verdict `url_valid`:
/// an invalid URL is refused, otherwise the row (`alias`, `raw_url`) is inserted
/// and `alias` returned. No retry is made when the alias is taken.
pub fn shorten_checked(store: &mut MappingStore, raw_url: &str, url_valid: bool, alias: String) -> (r:
    Result<String, ServiceError>)
    requires
        old(store).wf(),
    ensures
        final(store).wf(),
        (string_result_view(r), final(store)@) == shorten_spec(old(store)@, raw_url@, url_valid, alias@),
{
    if !url_valid {
        return Err(ServiceError::User(UserError::InvalidUrl));
    }
    let inserted = insert_db(raw_url, alias.as_str(), store);
    shorten_outcome(alias, inserted)
}

/// The table holds some alias of the service's length and alphabet, so that a
/// freshly drawn alias may collide with it.
pub open spec fn holds_some_alias(rows: Rows) -> bool {
    exists|a: Seq<char>| is_alias_of_len(a, ALIAS_LEN as nat) && #[trigger] holds_alias(rows, a)
}

/// Validates `raw_url`, draws a fresh alias and stores the mapping under it.
/// It succeeds on a valid URL and an existing table unless the drawn alias is
/// taken, which cannot happen where the table holds no alias of its shape.
pub fn shorten(store: &mut MappingStore, raw_url: &str) -> (r: Result<String, ServiceError>)
    requires
        old(store).wf(),
    ensures
        final(store).wf(),
        exists|a: Seq<char>|
            #[trigger] is_alias_of_len(a, ALIAS_LEN as nat) && (string_result_view(r), final(store)@)
                == shorten_spec(old(store)@, raw_url@, url_accepted(raw_url@), a),
        !url_accepted(raw_url@) ==> r == Err::<String, ServiceError>(
            ServiceError::User(UserError::InvalidUrl),
        ),
        url_accepted(raw_url@) && old(store)@ is None ==> r == Err::<String, ServiceError>(
            ServiceError::Database(StoreError::Rejected),
        ),
        url_accepted(raw_url@) && old(store)@ is Some && !holds_some_alias(old(store)@->Some_0)
            ==> r is Ok,
        url_accepted(raw_url@) && old(store)@ is Some ==> (r is Ok || r
            == Err::<String, ServiceError>(ServiceError::Database(StoreError::Rejected))),
        r is Err ==> final(store)@ == old(store)@,
        r matches Ok(a) ==> {
            &&& is_alias_of_len(a@, ALIAS_LEN as nat)
            &&& old(store)@ is Some
            &&& !holds_alias(old(store)@->Some_0, a@)
            &&& final(store)@ == Some(old(store)@->Some_0.push((a@, raw_url@)))
        },
        r is Ok ==> url_accepted(raw_url@),
{
    let url_valid = validate_url(raw_url);
    let alias = rand_string();
    let ghost drawn = alias@;
    let r = shorten_checked(store, raw_url, url_valid, alias);
    assert(is_alias_of_len(drawn, ALIAS_LEN as nat));
    r
}

/// The target URL that `alias` stands for.
pub fn resolve(store: &MappingStore, alias: &str) -> (r: Result<String, ServiceError>)
    requires
        store.wf(),
    ensures
        string_result_view(r) == lookup_spec(store@, alias@),
{
    query_db(alias, store)
}

/// A URL that shortening accepted comes back unchanged when its alias is
/// resolved; shortening a valid URL under an alias that is not taken succeeds.
pub proof fn lemma_round_trip(s: StoreView, url: Seq<char>, alias: Seq<char>)
    requires
        url_accepted(url),
    ensures
        ({
            let (r, s2) = shorten_spec(s, url, url_accepted(url), alias);
            &&& r is Ok ==> r == Ok::<Seq<char>, ServiceError>(alias) && lookup_spec(s2, alias)
                == Ok::<Seq<char>, ServiceError>(url)
            &&& (s is Some && !holds_alias(s->Some_0, alias)) ==> r is Ok
        }),
{
}

/// One shortening leaves every alias that it did not return as unknown as it was.
pub proof fn lemma_unreturned_alias_unknown(
    s: StoreView,
    url: Seq<char>,
    url_valid: bool,
    alias: Seq<char>,
    other: Seq<char>,
)
    requires
        lookup_spec(s, other) == Err::<Seq<char>, ServiceError>(ServiceError::User(UserError::NotFound)),
        shorten_spec(s, url, url_valid, alias).0 != Ok::<Seq<char>, ServiceError>(other),
    ensures
        lookup_spec(shorten_spec(s, url, url_valid, alias).1, other) == Err::<Seq<char>, ServiceError>(
            ServiceError::User(UserError::NotFound),
        ),
{
    let (r, s2) = shorten_spec(s, url, url_valid, alias);
    if r is Ok {
        let rows = s->Some_0;
        assert(s2->Some_0.drop_last() =~= rows);
    }
}

/// After any run of shortenings, an alias that no call returned resolves to
/// `NotFound` where it did so before the run (as on a freshly created table).
pub proof fn lemma_unreturned_aliases_unknown(
    s: StoreView,
    urls: Seq<Seq<char>>,
    aliases: Seq<Seq<char>>,
    other: Seq<char>,
)
    requires
        lookup_spec(s, other) == Err::<Seq<char>, ServiceError>(ServiceError::User(UserError::NotFound)),
        !shorten_many(s, urls, aliases).0.contains(Ok(other)),
    ensures
        lookup_spec(shorten_many(s, urls, aliases).1, other) == Err::<Seq<char>, ServiceError>(
            ServiceError::User(UserError::NotFound),
        ),
    decreases urls.len(),
{
    if urls.len() > 0 && aliases.len() > 0 {
        let (r, s1) = shorten_spec(s, urls[0], url_accepted(urls[0]), aliases[0]);
        let (rs, s2) = shorten_many(s1, urls.drop_first(), aliases.drop_first());
        assert((seq![r] + rs)[0] == r);
        lemma_unreturned_alias_unknown(s, urls[0], url_accepted(urls[0]), aliases[0], other);
        if rs.contains(Ok(other)) {
            let k = choose|k: int| 0 <= k < rs.len() && rs[k] == Ok::<Seq<char>, ServiceError>(other);
            assert((seq![r] + rs)[k + 1] == rs[k]);
        }
        lemma_unreturned_aliases_unknown(s1, urls.drop_first(), aliases.drop_first(), other);
    }
}

/// A freshly created table knows no alias.
pub proof fn lemma_fresh_table_unknown(alias: Seq<char>)
    ensures
        lookup_spec(create_table_spec(None), alias) == Err::<Seq<char>, ServiceError>(
            ServiceError::User(UserError::NotFound),
        ),
{
}

/// Shortening keeps the aliases of the table unique.
pub proof fn lemma_aliases_stay_unique(s: StoreView, url: Seq<char>, url_valid: bool, alias: Seq<char>)
    requires
        s is Some ==> aliases_unique(s->Some_0),
    ensures
        shorten_spec(s, url, url_valid, alias).1 is Some ==> aliases_unique(
            shorten_spec(s, url, url_valid, alias).1->Some_0,
        ),
{
    if let Some(rows) = s {
        if url_valid && !holds_alias(rows, alias) {
            let rows2 = rows.push((alias, url));
            assert forall|i: int, j: int| 0 <= i < j < rows2.len() implies rows2[i].0 != rows2[j].0 by {
                if j == rows.len() {
                    assert(rows[i].0 == rows2[i].0);
                }
            }
        }
    }
}

/// Two shortenings under the same alias, the first on a table where it is
/// free: the first succeeds and the second fails with a database error.
pub proof fn lemma_alias_collision(
    s: StoreView,
    url1: Seq<char>,
    url2: Seq<char>,
    alias: Seq<char>,
)
    requires
        s is Some,
        !holds_alias(s->Some_0, alias),
        url_accepted(url1),
        url_accepted(url2),
    ensures
        ({
            let (r1, s1) = shorten_spec(s, url1, url_accepted(url1), alias);
            let (r2, s2) = shorten_spec(s1, url2, url_accepted(url2), alias);
            &&& r1 == Ok::<Seq<char>, ServiceError>(alias)
            &&& r2 == Err::<Seq<char>, ServiceError>(ServiceError::Database(StoreError::Rejected))
            &&& s2 == s1
        }),
{
    let rows = s->Some_0;
    let rows1 = rows.push((alias, url1));
    assert(rows1[rows.len() as int].0 == alias);
}

/// Creating the table a second time changes nothing, and creating it where it
/// exists keeps its rows.
pub proof fn lemma_create_table_idempotent(s: StoreView)
    ensures
        create_table_spec(create_table_spec(s)) == create_table_spec(s),
        s is Some ==> create_table_spec(s) == s,
{
}

} // verus!
