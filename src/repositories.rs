use vstd::prelude::*;

verus! {

/// Repository for brawler registration and lookup, holding a handle on the database connection pool.
pub struct BrawlerPostgres<P> {
    db_pool: P,
}

impl<P> BrawlerPostgres<P> {
    pub fn new(db_pool: P) -> (r: BrawlerPostgres<P>)
        ensures
            r.pool() == db_pool,
    {
        BrawlerPostgres { db_pool }
    }

    pub closed spec fn pool(&self) -> P {
        self.db_pool
    }

    /// The connection pool the queries run through.
    pub fn db_pool(&self) -> (r: &P)
        ensures
            *r == self.pool(),
    {
        &self.db_pool
    }
}

/// Repository for crew membership writes, holding a handle on the database connection pool.
pub struct CrewOperationPostgres<P> {
    db_pool: P,
}

impl<P> CrewOperationPostgres<P> {
    pub fn new(db_pool: P) -> (r: CrewOperationPostgres<P>)
        ensures
            r.pool() == db_pool,
    {
        CrewOperationPostgres { db_pool }
    }

    pub closed spec fn pool(&self) -> P {
        self.db_pool
    }

    /// The connection pool the queries run through.
    pub fn db_pool(&self) -> (r: &P)
        ensures
            *r == self.pool(),
    {
        &self.db_pool
    }
}

/// Repository for mission inserts, edits and soft deletions, holding a handle on the database connection pool.
pub struct MissionManagementPostgres<P> {
    db_pool: P,
}

impl<P> MissionManagementPostgres<P> {
    pub fn new(db_pool: P) -> (r: MissionManagementPostgres<P>)
        ensures
            r.pool() == db_pool,
    {
        MissionManagementPostgres { db_pool }
    }

    pub closed spec fn pool(&self) -> P {
        self.db_pool
    }

    /// The connection pool the queries run through.
    pub fn db_pool(&self) -> (r: &P)
        ensures
            *r == self.pool(),
    {
        &self.db_pool
    }
}

/// Repository for mission status writes, holding a handle on the database connection pool.
pub struct MissionOperationPostgres<P> {
    db_pool: P,
}

impl<P> MissionOperationPostgres<P> {
    pub fn new(db_pool: P) -> (r: MissionOperationPostgres<P>)
        ensures
            r.pool() == db_pool,
    {
        MissionOperationPostgres { db_pool }
    }

    pub closed spec fn pool(&self) -> P {
        self.db_pool
    }

    /// The connection pool the queries run through.
    pub fn db_pool(&self) -> (r: &P)
        ensures
            *r == self.pool(),
    {
        &self.db_pool
    }
}

/// Repository for mission and crew reads, holding a handle on the database connection pool.
pub struct MissionViewingPostgres<P> {
    db_pool: P,
}

impl<P> MissionViewingPostgres<P> {
    pub fn new(db_pool: P) -> (r: MissionViewingPostgres<P>)
        ensures
            r.pool() == db_pool,
    {
        MissionViewingPostgres { db_pool }
    }

    pub closed spec fn pool(&self) -> P {
        self.db_pool
    }

    /// The connection pool the queries run through.
    pub fn db_pool(&self) -> (r: &P)
        ensures
            *r == self.pool(),
    {
        &self.db_pool
    }
}

} // verus!
