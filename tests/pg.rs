use sqlx_core::database::TypeInfo;
use sqlx_core::error::Error;
use sqlx_core::pg_error::PgError;
use sqlx_core::pg_types::{PgTypeInfo, SharedStr, TypeId, OID_ARRAY_CIDR, OID_ARRAY_INET, OID_CIDR, OID_INET};
use sqlx_core::response::Response;

fn sample_error() -> PgError {
    let response = Response::read(
        b"SERROR\0C23505\0Mduplicate key\0Dkey exists\0Htry another\0tusers\0cid\0nusers_pkey\0\0",
    )
    .unwrap();
    PgError::new(response)
}

#[test]
fn error_accessors_use_fixed_tags() {
    let err = sample_error();
    assert_eq!(err.message(), "duplicate key");
    assert_eq!(err.code(), Some("23505"));
    assert_eq!(err.details(), Some("key exists"));
    assert_eq!(err.hint(), Some("try another"));
    assert_eq!(err.table_name(), Some("users"));
    assert_eq!(err.column_name(), Some("id"));
    assert_eq!(err.constraint_name(), Some("users_pkey"));
    assert_eq!(err.field(b'S'), Some("ERROR"));
    assert_eq!(err.field(b'W'), None);
}

#[test]
fn error_text_is_message_only() {
    assert_eq!(sample_error().to_string(), "duplicate key");
}

#[test]
fn query_is_attached_once() {
    let err = Error::Postgres(sample_error()).pg_err_attach_query(|| "SELECT 1".to_string());
    let err = err.pg_err_attach_query(|| "SELECT 2".to_string());
    match err {
        Error::Postgres(e) => assert_eq!(e.query(), Some("SELECT 1")),
        _ => panic!("not a server error"),
    }
}

#[test]
fn query_is_not_attached_to_other_errors() {
    let err = Error::Sqlite(sqlx_core::sqlite::SqliteError::UnexpectedNull)
        .pg_err_attach_query(|| panic!("query asked for"));
    assert!(matches!(err, Error::Sqlite(_)));
}

#[test]
fn type_info_by_oid() {
    let info = PgTypeInfo::with_oid(1234);
    assert_eq!(info.oid(), 1234);
    assert_eq!(info.sql_type_name(), "<UNKNOWN>");
    assert_eq!(info.to_string(), "OID 1234");
    assert_eq!(PgTypeInfo::with_oid(0).to_string(), "OID 0");
    assert_eq!(PgTypeInfo::with_oid(u32::MAX).to_string(), "OID 4294967295");
}

#[test]
fn named_type_info() {
    let info = PgTypeInfo::new(TypeId(25), SharedStr::from_static("TEXT"));
    assert_eq!(info.sql_type_name(), "TEXT");
    assert_eq!(info.to_string(), "TEXT");
    let shared = SharedStr::from_string("CITEXT".to_string());
    assert_eq!(shared.as_str(), "CITEXT");
    let info = PgTypeInfo::new(TypeId(9999), shared.clone());
    assert_eq!(info.sql_type_name(), "CITEXT");
}

#[test]
fn feature_gates() {
    assert_eq!(PgTypeInfo::with_oid(1082).type_feature_gate(), Some("chrono"));
    assert_eq!(PgTypeInfo::with_oid(1083).type_feature_gate(), Some("chrono"));
    assert_eq!(PgTypeInfo::with_oid(1114).type_feature_gate(), Some("chrono"));
    assert_eq!(PgTypeInfo::with_oid(1184).type_feature_gate(), Some("chrono"));
    assert_eq!(PgTypeInfo::with_oid(2950).type_feature_gate(), Some("uuid"));
    assert_eq!(PgTypeInfo::with_oid(1700).type_feature_gate(), Some("bigdecimal"));
    assert_eq!(PgTypeInfo::with_oid(650).type_feature_gate(), Some("ipnetwork"));
    assert_eq!(PgTypeInfo::with_oid(869).type_feature_gate(), Some("ipnetwork"));
    assert_eq!(PgTypeInfo::with_oid(25).type_feature_gate(), None);
}

#[test]
fn inet_and_cidr_are_compatible() {
    let inet = PgTypeInfo::with_oid(OID_INET);
    let cidr = PgTypeInfo::with_oid(OID_CIDR);
    assert!(inet.compatible(&cidr));
    assert!(cidr.compatible(&inet));
    let inets = PgTypeInfo::with_oid(OID_ARRAY_INET);
    let cidrs = PgTypeInfo::with_oid(OID_ARRAY_CIDR);
    assert!(inets.compatible(&cidrs));
    assert!(cidrs.compatible(&inets));
    assert!(!inet.compatible(&cidrs));
}

#[test]
fn distinct_types_are_incompatible() {
    let text = PgTypeInfo::with_oid(25);
    let varchar = PgTypeInfo::with_oid(1043);
    assert!(!text.compatible(&varchar));
    assert!(text.compatible(&PgTypeInfo::with_oid(25)));
    assert!(!PgTypeInfo::with_oid(OID_INET).compatible(&text));
}
