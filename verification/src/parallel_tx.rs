//! Read-only access to the database from many threads at once.
//!
//! A read transaction belongs to one thread. [`ParallelTxRO`] holds none: it opens a
//! new one for every operation, so it can be shared. How a transaction is opened, and
//! what is done with it, the caller hands in.

use vstd::prelude::*;

verus! {

/// Why a database operation failed.
#[derive(Debug)]
pub enum DatabaseError<E> {
    /// The transaction could not be opened.
    InitTx(E),
    /// The operation failed.
    Operation(E),
}

/// A set of read-only transactions that can be used to read in parallel.
#[derive(Debug)]
pub struct ParallelTxRO<Env, Dbis, Metrics> {
    env: Env,
    dbis: Dbis,
    metrics: Option<Metrics>,
    disable_long_read_transaction_safety: bool,
}

/// Whether opening a transaction may come to `r`: `begin` begins it, and `make` equips it with
/// the tables and the metrics. If either fails, the transaction could not be opened.
pub open spec fn opens<
    Env,
    Dbis,
    Metrics,
    Raw,
    Tx,
    E,
    Begin: FnOnce(&Env) -> Result<Raw, E>,
    Make: FnOnce(Raw, &Dbis, &Option<Metrics>) -> Result<Tx, E>,
>(
    env: &Env,
    dbis: &Dbis,
    metrics: &Option<Metrics>,
    begin: Begin,
    make: Make,
    r: Result<Tx, DatabaseError<E>>,
) -> bool {
    exists|begun: Result<Raw, E>|
        {
            &&& #[trigger] call_ensures(begin, (env,), begun)
            &&& match begun {
                Ok(raw) => match r {
                    Ok(tx) => call_ensures(make, (raw, dbis, metrics), Ok(tx)),
                    Err(DatabaseError::InitTx(e)) => call_ensures(
                        make,
                        (raw, dbis, metrics),
                        Err(e),
                    ),
                    Err(DatabaseError::Operation(_)) => false,
                },
                Err(e) => r matches Err(error) && error == DatabaseError::InitTx(e),
            }
        }
}

/// Opens a transaction: `begin` begins it, and `make` equips it with the tables and the
/// metrics.
pub fn create_tx<
    Env,
    Dbis,
    Metrics,
    Raw,
    Tx,
    E,
    Begin: FnOnce(&Env) -> Result<Raw, E>,
    Make: FnOnce(Raw, &Dbis, &Option<Metrics>) -> Result<Tx, E>,
>(env: &Env, dbis: &Dbis, metrics: &Option<Metrics>, begin: Begin, make: Make) -> (r: Result<
    Tx,
    DatabaseError<E>,
>)
    requires
        call_requires(begin, (env,)),
        forall|raw: Raw| #[trigger] call_requires(make, (raw, dbis, metrics)),
    ensures
        opens(env, dbis, metrics, begin, make, r),
        r matches Err(e) ==> e is InitTx,
{
    match begin(env) {
        Ok(raw) => match make(raw, dbis, metrics) {
            Ok(tx) => Ok(tx),
            Err(e) => Err(DatabaseError::InitTx(e)),
        },
        Err(e) => Err(DatabaseError::InitTx(e)),
    }
}

/// A transaction that was opened was begun in the environment and equipped with the tables and
/// the metrics. If it was not, the error is that of beginning it or of equipping it.
pub proof fn law_transaction_is_begun_and_equipped<
    Env,
    Dbis,
    Metrics,
    Raw,
    Tx,
    E,
    Begin: FnOnce(&Env) -> Result<Raw, E>,
    Make: FnOnce(Raw, &Dbis, &Option<Metrics>) -> Result<Tx, E>,
>(
    env: &Env,
    dbis: &Dbis,
    metrics: &Option<Metrics>,
    begin: Begin,
    make: Make,
    r: Result<Tx, DatabaseError<E>>,
)
    requires
        opens(env, dbis, metrics, begin, make, r),
    ensures
        match r {
            Ok(tx) => exists|raw: Raw|
                {
                    &&& #[trigger] call_ensures(begin, (env,), Ok::<Raw, E>(raw))
                    &&& call_ensures(make, (raw, dbis, metrics), Ok::<Tx, E>(tx))
                },
            Err(DatabaseError::InitTx(e)) => {
                ||| call_ensures(begin, (env,), Err::<Raw, E>(e))
                ||| exists|raw: Raw|
                    {
                        &&& #[trigger] call_ensures(begin, (env,), Ok::<Raw, E>(raw))
                        &&& call_ensures(make, (raw, dbis, metrics), Err::<Tx, E>(e))
                    }
            },
            Err(DatabaseError::Operation(_)) => false,
        },
{
}

/// What is done in a new transaction is done in one that was opened on the environment, with its
/// tables and metrics, and its outcome is handed on. Where none could be opened, the converted
/// error is, and it says so.
pub proof fn law_done_in_a_new_transaction<
    Env,
    Dbis,
    Metrics,
    Raw,
    Tx,
    A,
    R,
    E,
    X,
    Begin: FnOnce(&Env) -> Result<Raw, E>,
    Make: FnOnce(Raw, &Dbis, &Option<Metrics>) -> Result<Tx, E>,
    Convert: FnOnce(DatabaseError<E>) -> X,
    F: FnOnce(&Tx, A) -> Result<R, X>,
>(
    txs: &ParallelTxRO<Env, Dbis, Metrics>,
    argument: A,
    begin: Begin,
    make: Make,
    convert: Convert,
    operation: F,
    r: Result<R, X>,
)
    requires
        txs.does(argument, begin, make, convert, operation, r),
    ensures
        ({
            let (env, dbis, metrics) = (&txs.environment(), &txs.tables(), &txs.meters());
            ||| exists|tx: Tx|
                {
                    &&& #[trigger] opens(
                        env,
                        dbis,
                        metrics,
                        begin,
                        make,
                        Ok::<Tx, DatabaseError<E>>(tx),
                    )
                    &&& call_ensures(operation, (&tx, argument), r)
                }
            ||| exists|e: E, error: X|
                {
                    &&& #[trigger] opens(
                        env,
                        dbis,
                        metrics,
                        begin,
                        make,
                        Err::<Tx, DatabaseError<E>>(DatabaseError::InitTx(e)),
                    )
                    &&& #[trigger] call_ensures(convert, (DatabaseError::InitTx(e),), error)
                    &&& r == Err::<R, X>(error)
                }
        }),
{
    let created = choose|created: Result<Tx, DatabaseError<E>>|
        {
            &&& #[trigger] txs.opens_tx(begin, make, created)
            &&& match created {
                Ok(tx) => call_ensures(operation, (&tx, argument), r),
                Err(e) => e is InitTx && exists|error: X| #[trigger]
                    call_ensures(convert, (e,), error) && r == Err::<R, X>(error),
            }
        };
    let (env, dbis, metrics) = (&txs.environment(), &txs.tables(), &txs.meters());
    assert(opens(env, dbis, metrics, begin, make, created));
    match created {
        Ok(tx) => {
            assert(opens(env, dbis, metrics, begin, make, Ok::<Tx, DatabaseError<E>>(tx)));
        },
        Err(error) => {
            let e = error->InitTx_0;
            assert(error == DatabaseError::InitTx(e));
            assert(opens(
                env,
                dbis,
                metrics,
                begin,
                make,
                Err::<Tx, DatabaseError<E>>(DatabaseError::InitTx(e)),
            ));
        },
    }
}

impl<Env, Dbis, Metrics> ParallelTxRO<Env, Dbis, Metrics> {
    /// The environment of the database.
    pub closed spec fn environment(&self) -> Env {
        self.env
    }

    /// The tables of the database.
    pub closed spec fn tables(&self) -> Dbis {
        self.dbis
    }

    /// The metrics, if there are any.
    pub closed spec fn meters(&self) -> Option<Metrics> {
        self.metrics
    }

    /// Whether transactions may be open for long.
    pub closed spec fn allows_long_reads(&self) -> bool {
        self.disable_long_read_transaction_safety
    }

    /// Read-only transactions on the environment `env`. They may not be open for long.
    pub fn try_new<E>(env: Env, dbis: Dbis, metrics: Option<Metrics>) -> (r: Result<Self, DatabaseError<E>>)
        ensures
            r matches Ok(tx) && {
                &&& tx.environment() == env
                &&& tx.tables() == dbis
                &&& tx.meters() == metrics
                &&& !tx.allows_long_reads()
            },
    {
        Ok(ParallelTxRO { env, dbis, metrics, disable_long_read_transaction_safety: false })
    }

    /// Whether opening a transaction on this environment may come to `created`.
    pub open spec fn opens_tx<
        Raw,
        Tx,
        E,
        Begin: FnOnce(&Env) -> Result<Raw, E>,
        Make: FnOnce(Raw, &Dbis, &Option<Metrics>) -> Result<Tx, E>,
    >(&self, begin: Begin, make: Make, created: Result<Tx, DatabaseError<E>>) -> bool {
        opens(&self.environment(), &self.tables(), &self.meters(), begin, make, created)
    }

    /// Runs `f` on a new transaction, which `begin` and `make` open. Where transactions may be
    /// open for long, `allow_long_read` is applied to it first. If the transaction could not be
    /// opened, that is the error, and `f` does not run.
    pub fn execute_tx<
        Raw,
        Tx,
        R,
        E,
        Begin: FnOnce(&Env) -> Result<Raw, E>,
        Make: FnOnce(Raw, &Dbis, &Option<Metrics>) -> Result<Tx, E>,
        Allow: FnOnce(Tx) -> Tx,
        F: FnOnce(&Tx) -> Result<R, DatabaseError<E>>,
    >(&self, begin: Begin, make: Make, allow_long_read: Allow, f: F) -> (r: Result<
        R,
        DatabaseError<E>,
    >)
        requires
            call_requires(begin, (&self.environment(),)),
            forall|raw: Raw| #[trigger]
                call_requires(make, (raw, &self.tables(), &self.meters())),
            forall|tx: Tx| #[trigger] call_requires(allow_long_read, (tx,)),
            forall|tx: &Tx| #[trigger] call_requires(f, (tx,)),
        ensures
            exists|created: Result<Tx, DatabaseError<E>>|
                {
                    &&& #[trigger] self.opens_tx(begin, make, created)
                    &&& match created {
                        Ok(tx) => if self.allows_long_reads() {
                            exists|long: Tx|
                                {
                                    &&& #[trigger] call_ensures(allow_long_read, (tx,), long)
                                    &&& call_ensures(f, (&long,), r)
                                }
                        } else {
                            call_ensures(f, (&tx,), r)
                        },
                        Err(e) => e is InitTx && r == Err::<R, DatabaseError<E>>(e),
                    }
                },
    {
        match create_tx(&self.env, &self.dbis, &self.metrics, begin, make) {
            Ok(tx) => {
                assert(self.opens_tx(begin, make, Ok(tx)));
                if self.disable_long_read_transaction_safety {
                    let long = allow_long_read(tx);
                    f(&long)
                } else {
                    f(&tx)
                }
            },
            Err(e) => {
                assert(self.opens_tx(begin, make, Err(e)));
                Err(e)
            },
        }
    }

    /// Whether doing `operation` in a new transaction may come to `r`. If the transaction could
    /// not be opened, the error is what `convert` makes of that. The transaction may not be open
    /// for long, whatever is allowed otherwise.
    pub open spec fn does<
        Raw,
        Tx,
        A,
        R,
        E,
        X,
        Begin: FnOnce(&Env) -> Result<Raw, E>,
        Make: FnOnce(Raw, &Dbis, &Option<Metrics>) -> Result<Tx, E>,
        Convert: FnOnce(DatabaseError<E>) -> X,
        F: FnOnce(&Tx, A) -> Result<R, X>,
    >(
        &self,
        argument: A,
        begin: Begin,
        make: Make,
        convert: Convert,
        operation: F,
        r: Result<R, X>,
    ) -> bool {
        exists|created: Result<Tx, DatabaseError<E>>|
            {
                &&& #[trigger] self.opens_tx(begin, make, created)
                &&& match created {
                    Ok(tx) => call_ensures(operation, (&tx, argument), r),
                    Err(e) => e is InitTx && exists|error: X| #[trigger]
                        call_ensures(convert, (e,), error) && r == Err::<R, X>(error),
                }
            }
    }

    /// Opens a table in a new transaction, which `begin` and `make` open: `open` opens the
    /// table of this name, or the unnamed one.
    pub fn open_db<
        'n,
        Raw,
        Tx,
        Db,
        E,
        X,
        Begin: FnOnce(&Env) -> Result<Raw, E>,
        Make: FnOnce(Raw, &Dbis, &Option<Metrics>) -> Result<Tx, E>,
        Convert: FnOnce(DatabaseError<E>) -> X,
        Open: FnOnce(&Tx, Option<&'n str>) -> Result<Db, X>,
    >(
        &self,
        name: Option<&'n str>,
        begin: Begin,
        make: Make,
        convert: Convert,
        open: Open,
    ) -> (r: Result<Db, X>)
        requires
            call_requires(begin, (&self.environment(),)),
            forall|raw: Raw| #[trigger]
                call_requires(make, (raw, &self.tables(), &self.meters())),
            forall|e: DatabaseError<E>| #[trigger] call_requires(convert, (e,)),
            forall|tx: &Tx| #[trigger] call_requires(open, (tx, name)),
        ensures
            self.does(name, begin, make, convert, open, r),
    {
        match create_tx(&self.env, &self.dbis, &self.metrics, begin, make) {
            Ok(tx) => {
                assert(self.opens_tx(begin, make, Ok(tx)));
                open(&tx, name)
            },
            Err(e) => {
                assert(self.opens_tx(begin, make, Err(e)));
                Err(convert(e))
            },
        }
    }

    /// Statistics of a table, which `stat` collects in a new transaction. `begin` and `make`
    /// open the transaction.
    pub fn db_stat<
        'd,
        Raw,
        Tx,
        Db,
        Stat,
        E,
        X,
        Begin: FnOnce(&Env) -> Result<Raw, E>,
        Make: FnOnce(Raw, &Dbis, &Option<Metrics>) -> Result<Tx, E>,
        Convert: FnOnce(DatabaseError<E>) -> X,
        Collect: FnOnce(&Tx, &'d Db) -> Result<Stat, X>,
    >(&self, db: &'d Db, begin: Begin, make: Make, convert: Convert, stat: Collect) -> (r: Result<
        Stat,
        X,
    >)
        requires
            call_requires(begin, (&self.environment(),)),
            forall|raw: Raw| #[trigger]
                call_requires(make, (raw, &self.tables(), &self.meters())),
            forall|e: DatabaseError<E>| #[trigger] call_requires(convert, (e,)),
            forall|tx: &Tx| #[trigger] call_requires(stat, (tx, db)),
        ensures
            self.does(db, begin, make, convert, stat, r),
    {
        match create_tx(&self.env, &self.dbis, &self.metrics, begin, make) {
            Ok(tx) => {
                assert(self.opens_tx(begin, make, Ok(tx)));
                stat(&tx, db)
            },
            Err(e) => {
                assert(self.opens_tx(begin, make, Err(e)));
                Err(convert(e))
            },
        }
    }

    /// How many entries the table of this name has: opens it and collects its statistics, each
    /// in a transaction of its own, and takes the number of entries out of them. The first
    /// failure ends it.
    pub fn table_entries<
        'n,
        Raw,
        Tx,
        Db,
        Stat,
        E,
        X,
        Begin: Copy + FnOnce(&Env) -> Result<Raw, E>,
        Make: Copy + FnOnce(Raw, &Dbis, &Option<Metrics>) -> Result<Tx, E>,
        Convert: Copy + FnOnce(DatabaseError<E>) -> X,
        Open: FnOnce(&Tx, Option<&'n str>) -> Result<Db, X>,
        Collect: FnOnce(&Tx, &Db) -> Result<Stat, X>,
        Entries: FnOnce(&Stat) -> usize,
    >(
        &self,
        name: &'n str,
        begin: Begin,
        make: Make,
        convert: Convert,
        open: Open,
        stat: Collect,
        entries: Entries,
    ) -> (r: Result<usize, X>)
        requires
            call_requires(begin, (&self.environment(),)),
            forall|raw: Raw| #[trigger]
                call_requires(make, (raw, &self.tables(), &self.meters())),
            forall|e: DatabaseError<E>| #[trigger] call_requires(convert, (e,)),
            forall|tx: &Tx| #[trigger] call_requires(open, (tx, Some(name))),
            forall|tx: &Tx, db: &Db| #[trigger] call_requires(stat, (tx, db)),
            forall|s: &Stat| #[trigger] call_requires(entries, (s,)),
        ensures
            exists|opened: Result<Db, X>|
                {
                    &&& #[trigger] self.does(Some(name), begin, make, convert, open, opened)
                    &&& match opened {
                        Ok(db) => exists|collected: Result<Stat, X>|
                            {
                                &&& #[trigger] self.does(&db, begin, make, convert, stat, collected)
                                &&& match collected {
                                    Ok(s) => r matches Ok(n) && call_ensures(entries, (&s,), n),
                                    Err(e) => r == Err::<usize, X>(e),
                                }
                            },
                        Err(e) => r == Err::<usize, X>(e),
                    }
                },
    {
        match self.open_db(Some(name), begin, make, convert, open) {
            Ok(db) => match self.db_stat(&db, begin, make, convert, stat) {
                Ok(s) => Ok(entries(&s)),
                Err(e) => Err(e),
            },
            Err(e) => Err(e),
        }
    }

    /// The environment of the database.
    pub fn env(&self) -> (r: &Env)
        ensures
            *r == self.environment(),
    {
        &self.env
    }

    /// The tables of the database.
    pub fn dbis(&self) -> (r: &Dbis)
        ensures
            *r == self.tables(),
    {
        &self.dbis
    }

    /// The metrics, if there are any.
    pub fn metrics(&self) -> (r: &Option<Metrics>)
        ensures
            *r == self.meters(),
    {
        &self.metrics
    }

    /// Ends the reading. There is nothing to commit, and it always succeeds.
    pub fn commit<E>(self) -> (r: Result<bool, DatabaseError<E>>)
        ensures
            r == Ok::<bool, DatabaseError<E>>(true),
    {
        Ok(true)
    }

    /// Allows transactions to be open for long, from now on.
    pub fn disable_long_read_transaction_safety(&mut self)
        ensures
            final(self).allows_long_reads(),
            final(self).environment() == old(self).environment(),
            final(self).tables() == old(self).tables(),
            final(self).meters() == old(self).meters(),
    {
        self.disable_long_read_transaction_safety = true;
    }
}

} // verus!
