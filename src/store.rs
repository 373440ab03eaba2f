use crate::errors::{ServiceError, StoreError, UserError};
use vstd::prelude::*;

verus! {

/// One row of the table: a short alias and the URL it stands for.
pub struct UrlMapping {
    pub alias: String,
    pub target_url: String,
}

/// The rows of a table as pairs of (alias, target URL).
pub type Rows = Seq<(Seq<char>, Seq<char>)>;

/// The abstract state of a store: `None` until the table has been created.
pub type StoreView = Option<Rows>;

pub open spec fn row_view(m: UrlMapping) -> (Seq<char>, Seq<char>) {
    (m.alias@, m.target_url@)
}

/// No two rows share an alias.
pub open spec fn aliases_unique(rows: Rows) -> bool {
    forall|i: int, j: int| 0 <= i < j < rows.len() ==> rows[i].0 != rows[j].0
}

/// Some row holds `alias`.
pub open spec fn holds_alias(rows: Rows, alias: Seq<char>) -> bool {
    exists|i: int| 0 <= i < rows.len() && rows[i].0 == alias
}

/// The target URL of the row that holds `alias`, searched from the latest row back.
pub open spec fn find_target(rows: Rows, alias: Seq<char>) -> Option<Seq<char>>
    decreases rows.len(),
{
    if rows.len() == 0 {
        None
    } else if rows.last().0 == alias {
        Some(rows.last().1)
    } else {
        find_target(rows.drop_last(), alias)
    }
}

/// The state after "create the table if it does not exist".
pub open spec fn create_table_spec(s: StoreView) -> StoreView {
    match s {
        None => Some(Seq::empty()),
        Some(rows) => Some(rows),
    }
}

/// What a lookup of `alias` returns.
pub open spec fn lookup_spec(s: StoreView, alias: Seq<char>) -> Result<Seq<char>, ServiceError> {
    match s {
        None => Err(ServiceError::Database(StoreError::Rejected)),
        Some(rows) => match find_target(rows, alias) {
            Some(url) => Ok(url),
            None => Err(ServiceError::User(UserError::NotFound)),
        },
    }
}

/// What an insert of (`alias`, `url`) returns, and the state after it.
pub open spec fn insert_spec(s: StoreView, alias: Seq<char>, url: Seq<char>) -> (
    Result<(), ServiceError>,
    StoreView,
) {
    match s {
        None => (Err(ServiceError::Database(StoreError::Rejected)), s),
        Some(rows) => if holds_alias(rows, alias) {
            (Err(ServiceError::Database(StoreError::Rejected)), s)
        } else {
            (Ok(()), Some(rows.push((alias, url))))
        },
    }
}

pub open spec fn string_result_view(r: Result<String, ServiceError>) -> Result<
    Seq<char>,
    ServiceError,
> {
    match r {
        Ok(s) => Ok(s@),
        Err(e) => Err(e),
    }
}

/// What a lookup returns, given what the backend answered: the target URL of
/// the matching row, `None` where no row matched, or the backend's failure.
pub open spec fn lookup_outcome_spec(fetched: Result<Option<Seq<char>>, StoreError>) -> Result<
    Seq<char>,
    ServiceError,
> {
    match fetched {
        Ok(Some(url)) => Ok(url),
        Ok(None) => Err(ServiceError::User(UserError::NotFound)),
        Err(e) => Err(ServiceError::Database(e)),
    }
}

/// Classifies the backend's answer to a point read by alias.
pub fn lookup_outcome(fetched: Result<Option<String>, StoreError>) -> (r: Result<String, ServiceError>)
    ensures
        string_result_view(r) == lookup_outcome_spec(
            match fetched {
                Ok(Some(u)) => Ok(Some(u@)),
                Ok(None) => Ok(None),
                Err(e) => Err(e),
            },
        ),
{
    match fetched {
        Ok(Some(url)) => Ok(url),
        Ok(None) => Err(ServiceError::User(UserError::NotFound)),
        Err(e) => Err(ServiceError::Database(e)),
    }
}

/// Classifies the backend's answer to an insert: every failure, a duplicate
/// alias included, is a database error.
pub fn insert_outcome(done: Result<(), StoreError>) -> (r: Result<(), ServiceError>)
    ensures
        done is Ok ==> r is Ok,
        done matches Err(e) ==> r == Err::<(), ServiceError>(ServiceError::Database(e)),
{
    match done {
        Ok(()) => Ok(()),
        Err(e) => Err(ServiceError::Database(e)),
    }
}

/// Where the alias is absent, no row holds it.
pub proof fn lemma_find_none(rows: Rows, alias: Seq<char>)
    ensures
        find_target(rows, alias) is None <==> !holds_alias(rows, alias),
    decreases rows.len(),
{
    if rows.len() > 0 {
        lemma_find_none(rows.drop_last(), alias);
        if holds_alias(rows, alias) && rows.last().0 != alias {
            let i = choose|i: int| 0 <= i < rows.len() && rows[i].0 == alias;
            assert(rows.drop_last()[i].0 == alias);
        }
        if holds_alias(rows.drop_last(), alias) {
            let i = choose|i: int| 0 <= i < rows.len() - 1 && rows.drop_last()[i].0 == alias;
            assert(rows[i].0 == alias);
        }
    }
}

/// The reference model of the `url` table, held in memory: the aliases are
/// unique, rows are only ever added, and lookups and inserts fail until the
/// table is created. The service against a SQL database runs the same
/// statements there and reaches the library only through `lookup_outcome` and
/// `insert_outcome`, which classify the database's answers; there uniqueness
/// comes from the column's `UNIQUE` constraint.
pub struct MappingStore {
    table: Option<Vec<UrlMapping>>,
}

impl View for MappingStore {
    type V = StoreView;

    closed spec fn view(&self) -> StoreView {
        match self.table {
            None => None,
            Some(v) => Some(v@.map_values(|m: UrlMapping| row_view(m))),
        }
    }
}

impl MappingStore {
    pub open spec fn wf(&self) -> bool {
        match self@ {
            None => true,
            Some(rows) => aliases_unique(rows),
        }
    }

    /// A backend in which the table does not exist yet.
    pub fn new() -> (r: MappingStore)
        ensures
            r.wf(),
            r@ is None,
    {
        MappingStore { table: None }
    }
}

/// Creates the table if it does not exist; an existing table keeps its rows.
pub fn create_table(conn: &mut MappingStore)
    requires
        old(conn).wf(),
    ensures
        final(conn).wf(),
        final(conn)@ == create_table_spec(old(conn)@),
{
    if conn.table.is_none() {
        conn.table = Some(Vec::new());
        assert(conn@ =~= Some(Seq::<(Seq<char>, Seq<char>)>::empty()));
    }
}

/// The target URL stored under `id`.
pub fn query_db(id: &str, conn: &MappingStore) -> (r: Result<String, ServiceError>)
    requires
        conn.wf(),
    ensures
        string_result_view(r) == lookup_spec(conn@, id@),
{
    match &conn.table {
        None => Err(ServiceError::Database(StoreError::Rejected)),
        Some(v) => {
            let ghost rows = conn@->Some_0;
            let key = id.to_owned();
            let mut i: usize = v.len();
            assert(rows.take(i as int) =~= rows);
            while i > 0
                invariant
                    i <= v.len(),
                    key@ == id@,
                    conn@ == Some(rows),
                    rows == v@.map_values(|m: UrlMapping| row_view(m)),
                    find_target(rows, id@) == find_target(rows.take(i as int), id@),
                decreases i,
            {
                assert(rows.take(i as int).drop_last() =~= rows.take(i - 1));
                let row = &v[i - 1];
                if row.alias == key {
                    assert(rows.take(i as int).last() == row_view(*row));
                    return Ok(row.target_url.clone());
                }
                i = i - 1;
            }
            Err(ServiceError::User(UserError::NotFound))
        },
    }
}

/// Adds the row (`shortened`, `url`); refused where the alias is taken.
pub fn insert_db(url: &str, shortened: &str, conn: &mut MappingStore) -> (r: Result<(), ServiceError>)
    requires
        old(conn).wf(),
    ensures
        final(conn).wf(),
        (r, final(conn)@) == insert_spec(old(conn)@, shortened@, url@),
{
    let taken = query_db(shortened, conn);
    proof {
        if let Some(rows) = conn@ {
            lemma_find_none(rows, shortened@);
        }
    }
    match taken {
        Ok(_) => Err(ServiceError::Database(StoreError::Rejected)),
        Err(ServiceError::User(_)) => {
            match &mut conn.table {
                Some(v) => {
                    v.push(UrlMapping { alias: shortened.to_owned(), target_url: url.to_owned() });
                },
                None => {},
            }
            assert(conn@->Some_0 =~= old(conn)@->Some_0.push((shortened@, url@)));
            Ok(())
        },
        Err(e) => Err(e),
    }
}

} // verus!
