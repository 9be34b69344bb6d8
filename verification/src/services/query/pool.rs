//! The open pools of a target, by engine.
use vstd::prelude::*;

verus! {

/// A pool of one of the SQL engines.
#[derive(Debug, PartialEq, Eq)]
pub enum DbPool<P, M, S> {
    Postgres(P),
    Mysql(M),
    Sqlite(S),
}

/// A borrowed pool of one of the SQL engines.
#[derive(Debug, PartialEq, Eq)]
pub enum PoolRef<'a, P, M, S> {
    Postgres(&'a P),
    Mysql(&'a M),
    Sqlite(&'a S),
}

/// Borrows a pool.
pub fn pool_ref<P, M, S>(db: &DbPool<P, M, S>) -> (r: PoolRef<'_, P, M, S>)
    ensures
        match *db {
            DbPool::Postgres(pool) => r == PoolRef::<P, M, S>::Postgres(&pool),
            DbPool::Mysql(pool) => r == PoolRef::<P, M, S>::Mysql(&pool),
            DbPool::Sqlite(pool) => r == PoolRef::<P, M, S>::Sqlite(&pool),
        },
{
    match db {
        DbPool::Postgres(pool) => PoolRef::Postgres(pool),
        DbPool::Mysql(pool) => PoolRef::Mysql(pool),
        DbPool::Sqlite(pool) => PoolRef::Sqlite(pool),
    }
}

} // verus!
