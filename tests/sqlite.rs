use sqlx_core::database::TypeInfo;
use sqlx_core::sqlite::{
    SqliteArgumentValue, SqliteArguments, SqliteColumnValue, SqliteCursor, SqliteError, SqliteResultValue,
    SqliteRow, SqliteType, SqliteTypeAffinity, SqliteTypeInfo,
};
use sqlx_core::sqlite::Sqlite;
use sqlx_core::statement_cache::StatementCache;
use sqlx_core::types::{Decode, Encode, Type};

#[test]
fn bool_round_trip() {
    for b in [true, false] {
        let mut buf = Vec::new();
        b.encode(&mut buf);
        let stored = match &buf[0] {
            SqliteArgumentValue::Int(i) => *i as i64,
            other => panic!("unexpected argument {:?}", other),
        };
        assert_eq!(<bool as Decode<Sqlite>>::decode(Some(SqliteResultValue::Integer(stored))), Ok(b));
    }
}

#[test]
fn bool_encodes_as_one_and_zero() {
    let mut args = SqliteArguments::new();
    args.add(true);
    args.add(false);
    assert_eq!(args.values, vec![SqliteArgumentValue::Int(1), SqliteArgumentValue::Int(0)]);
}

#[test]
fn nonzero_integer_reads_true() {
    assert_eq!(<bool as Decode<Sqlite>>::decode(Some(SqliteResultValue::Integer(-7))), Ok(true));
    assert_eq!(<bool as Decode<Sqlite>>::decode(Some(SqliteResultValue::Integer(0))), Ok(false));
}

#[test]
fn integer_round_trips() {
    for n in [i32::MIN, -1, 0, 1, i32::MAX] {
        let mut buf = Vec::new();
        n.encode(&mut buf);
        assert_eq!(buf, vec![SqliteArgumentValue::Int(n)]);
        assert_eq!(<i32 as Decode<Sqlite>>::decode(Some(SqliteResultValue::Integer(n as i64))), Ok(n));
    }
    for n in [i64::MIN, -1, 0, 1, i64::MAX] {
        let mut buf = Vec::new();
        n.encode(&mut buf);
        assert_eq!(buf, vec![SqliteArgumentValue::Int64(n)]);
        assert_eq!(<i64 as Decode<Sqlite>>::decode(Some(SqliteResultValue::Integer(n))), Ok(n));
    }
}

#[test]
fn wide_integer_is_not_truncated() {
    let wide = i32::MAX as i64 + 1;
    assert_eq!(
        <i32 as Decode<Sqlite>>::decode(Some(SqliteResultValue::Integer(wide))),
        Err(SqliteError::TypeMismatch)
    );
}

#[test]
fn null_and_mismatch() {
    assert_eq!(<bool as Decode<Sqlite>>::decode(None), Err(SqliteError::UnexpectedNull));
    assert_eq!(
        <i64 as Decode<Sqlite>>::decode(Some(SqliteResultValue::Text("1"))),
        Err(SqliteError::TypeMismatch)
    );
}

#[test]
fn option_decode() {
    assert_eq!(<Option<bool> as Decode<Sqlite>>::decode(None), Ok(None));
    assert_eq!(
        <Option<i64> as Decode<Sqlite>>::decode(Some(SqliteResultValue::Integer(5))),
        Ok(Some(5))
    );
    assert_eq!(
        <Option<i32> as Decode<Sqlite>>::decode(Some(SqliteResultValue::Blob(&[1, 2]))),
        Err(SqliteError::TypeMismatch)
    );
}

#[test]
fn type_infos() {
    assert_eq!(
        <bool as Type<Sqlite>>::type_info(),
        SqliteTypeInfo::new(SqliteType::Boolean, SqliteTypeAffinity::Numeric)
    );
    let int = <i64 as Type<Sqlite>>::type_info();
    assert_eq!(int, <i32 as Type<Sqlite>>::type_info());
    assert!(int.compatible(&SqliteTypeInfo::new(SqliteType::Boolean, SqliteTypeAffinity::Integer)));
    assert!(!int.compatible(&<bool as Type<Sqlite>>::type_info()));
}

#[test]
fn rows_and_cursor() {
    let rows = vec![
        vec![SqliteColumnValue::Integer(1), SqliteColumnValue::Text("a".to_string())],
        vec![SqliteColumnValue::Null, SqliteColumnValue::Blob(vec![9])],
    ];
    let mut cursor = SqliteCursor::new("SELECT x, y FROM t", &rows);
    assert_eq!(cursor.query(), "SELECT x, y FROM t");
    let first: SqliteRow = cursor.next().unwrap();
    assert_eq!(first.len(), 2);
    assert_eq!(first.get(0), Some(SqliteResultValue::Integer(1)));
    assert_eq!(first.get(1), Some(SqliteResultValue::Text("a")));
    let second = cursor.next().unwrap();
    assert_eq!(second.get(0), None);
    assert_eq!(second.get(1), Some(SqliteResultValue::Blob(&[9])));
    assert!(cursor.next().is_none());
    assert!(cursor.next().is_none());
}

#[test]
fn statement_cache_appends_and_finds() {
    let mut cache: StatementCache<u32> = StatementCache::new();
    assert_eq!(cache.find("SELECT 1"), None);
    assert_eq!(cache.insert("SELECT 1".to_string(), 10), 0);
    assert_eq!(cache.insert("SELECT 2".to_string(), 20), 1);
    assert_eq!(cache.len(), 2);
    assert_eq!(cache.find("SELECT 2"), Some(1));
    assert_eq!(cache.find("SELECT 1"), Some(0));
    assert_eq!(*cache.get(1), 20);
    assert_eq!(cache.find("select 1"), None);
    cache.clear();
    assert_eq!(cache.len(), 0);
    assert_eq!(cache.find("SELECT 1"), None);
}
