use block_pipeline::parallel_tx::{create_tx, DatabaseError, ParallelTxRO};
use std::cell::Cell;

fn open() -> ParallelTxRO<&'static str, u8, ()> {
    ParallelTxRO::try_new::<u8>("env", 3, None).unwrap()
}

fn begin(env: &&'static str) -> Result<usize, u8> {
    Ok(env.len())
}

fn begin_fails(_: &&'static str) -> Result<usize, u8> {
    Err(1)
}

fn make(raw: usize, dbis: &u8, _: &Option<()>) -> Result<usize, u8> {
    Ok(raw * 10 + *dbis as usize)
}

fn make_fails(_: usize, _: &u8, _: &Option<()>) -> Result<usize, u8> {
    Err(2)
}

fn error_code(error: DatabaseError<u8>) -> i32 {
    match error {
        DatabaseError::InitTx(e) => 100 + e as i32,
        DatabaseError::Operation(e) => e as i32,
    }
}

#[test]
fn every_operation_opens_its_own_transaction() {
    let tx = open();
    let opened = Cell::new(0);
    for expected in 1..=3 {
        let result = tx.execute_tx(
            |env: &&'static str| {
                assert_eq!(*env, "env");
                opened.set(opened.get() + 1);
                Ok::<i32, u8>(opened.get())
            },
            |raw, dbis, _| {
                assert_eq!(*dbis, 3);
                Ok(raw)
            },
            |_| panic!("long reads are not allowed"),
            |tx| Ok(*tx * 10),
        );
        assert_eq!(result.ok(), Some(expected * 10));
    }
}

#[test]
fn long_reads_are_allowed_on_demand() {
    let mut tx = open();
    tx.disable_long_read_transaction_safety();
    let result = tx.execute_tx(begin, make, |tx| tx + 1, |tx| Ok(*tx));
    assert_eq!(result.ok(), Some(34));
}

#[test]
fn transaction_that_cannot_be_opened_is_reported() {
    let tx = open();
    let never = |_: &usize| -> Result<(), DatabaseError<u8>> { panic!("there is no transaction") };
    let result = tx.execute_tx(begin_fails, make, |tx| tx, never);
    assert!(matches!(result, Err(DatabaseError::InitTx(1))));
    let result = tx.execute_tx(begin, make_fails, |tx| tx, never);
    assert!(matches!(result, Err(DatabaseError::InitTx(2))));
    let result =
        tx.execute_tx(begin, make, |tx| tx, |_| Err::<(), _>(DatabaseError::Operation(8)));
    assert!(matches!(result, Err(DatabaseError::Operation(8))));
}

#[test]
fn opening_takes_two_steps() {
    assert!(matches!(
        create_tx(&"env", &3, &None, begin_fails, make),
        Err(DatabaseError::InitTx(1))
    ));
    assert!(matches!(
        create_tx(&"env", &3, &None, begin, make_fails),
        Err(DatabaseError::InitTx(2))
    ));
    assert_eq!(create_tx(&"env", &3, &None, begin, make).ok(), Some(33));
}

#[test]
fn tables_are_opened_in_their_own_transaction() {
    let mut tx = open();
    tx.disable_long_read_transaction_safety();
    let opened = tx.open_db(Some("table"), begin, make, error_code, |tx, name| {
        Ok((*tx, name.map(str::len)))
    });
    assert_eq!(opened, Ok((33, Some(5))));
    let unnamed = tx.open_db(None, begin, make, error_code, |_, name| Ok(name.is_none()));
    assert_eq!(unnamed, Ok(true));
    let failed = tx.open_db(None, begin_fails, make, error_code, |_, _| Ok(()));
    assert_eq!(failed, Err(101));

    let stat = tx.db_stat(&10, begin, make, error_code, |tx, db: &usize| Ok(tx + db));
    assert_eq!(stat, Ok(43));
    let failed = tx.db_stat(&10, begin, make_fails, error_code, |_, _: &usize| Ok(()));
    assert_eq!(failed, Err(102));
    let failed = tx.db_stat(&10, begin, make, error_code, |_, _: &usize| Err::<(), i32>(2));
    assert_eq!(failed, Err(2));
}

#[test]
fn table_entries_are_counted() {
    let tx = open();
    assert_eq!(*tx.env(), "env");
    assert_eq!(*tx.dbis(), 3);
    assert!(tx.metrics().is_none());

    let opened = Cell::new(0);
    let counting = |env: &&'static str| {
        opened.set(opened.get() + 1);
        begin(env)
    };
    let open_table = |_: &usize, name: Option<&str>| {
        if name == Some("table") { Ok(4usize) } else { Err(5) }
    };
    let stat = |tx: &usize, db: &usize| Ok((*tx, *db));
    let entries = |stat: &(usize, usize)| stat.1 * 2;
    let count = tx.table_entries("table", &counting, make, error_code, open_table, stat, entries);
    assert_eq!(count, Ok(8));
    assert_eq!(opened.get(), 2);
    let count = tx.table_entries("other", begin, make, error_code, open_table, stat, entries);
    assert_eq!(count, Err(5));
    let count = tx.table_entries("table", begin_fails, make, error_code, open_table, stat, entries);
    assert_eq!(count, Err(101));
    let no_stat = |_: &usize, _: &usize| Err::<(usize, usize), i32>(6);
    let count = tx.table_entries("table", begin, make, error_code, open_table, no_stat, entries);
    assert_eq!(count, Err(6));
    assert!(matches!(tx.commit::<u8>(), Ok(true)));
}
