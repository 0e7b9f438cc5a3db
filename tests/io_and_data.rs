use slonik_proto::column::{column_kind, document_payload, sqlx_column_kind, ColumnKind};
use slonik_proto::pool::{LeaseError, PoolLease};
use slonik_proto::reactor::Interest;
use slonik_proto::stream::{stream_step, IoOutcome, PageReader, ReadProgress, StreamStep};
use slonik_proto::{batch_no_op, no_op};

#[test]
fn short_read_is_not_an_error() {
    let buf = [1u8, 2, 3, 0, 0, 0, 0, 0];
    assert_eq!(
        stream_step(Interest::Readable, IoOutcome::Done(3)),
        StreamStep::Complete(3)
    );
    let mut reader = PageReader::new();
    assert_eq!(reader.accept(&buf, 3), ReadProgress::More);
    assert!(reader.wants_read());
    assert_eq!(reader.into_page(), vec![1, 2, 3]);
}

#[test]
fn zero_read_ends_the_stream() {
    let mut reader = PageReader::new();
    assert_eq!(reader.accept(&[7u8, 8, 9, 10], 4), ReadProgress::More);
    assert_eq!(reader.accept(&[11u8, 0, 0, 0], 1), ReadProgress::More);
    assert_eq!(reader.accept(&[0u8; 4], 0), ReadProgress::EndOfStream);
    assert!(!reader.wants_read());
    assert_eq!(reader.into_page(), vec![7, 8, 9, 10, 11]);
}

#[test]
fn would_block_suspends_on_its_direction() {
    assert_eq!(
        stream_step(Interest::Readable, IoOutcome::WouldBlock),
        StreamStep::Suspend(Interest::Readable)
    );
    assert_eq!(
        stream_step(Interest::Writable, IoOutcome::WouldBlock),
        StreamStep::Suspend(Interest::Writable)
    );
    assert_eq!(
        stream_step(Interest::Writable, IoOutcome::Failed(32)),
        StreamStep::Fail(32)
    );
    assert_eq!(
        stream_step(Interest::Writable, IoOutcome::Done(0)),
        StreamStep::Complete(0)
    );
}

#[test]
fn pool_stays_valid_while_a_task_holds_it() {
    let mut lease = PoolLease::new();
    assert_eq!(lease.acquire(), Ok(()));
    assert_eq!(lease.acquire(), Ok(()));
    assert_eq!(lease.task_refs(), 2);
    assert_eq!(lease.release_task(), Ok(false));
    assert!(lease.is_valid());
    assert_eq!(lease.release_owner(), Ok(false));
    assert!(lease.is_valid());
    assert_eq!(lease.acquire(), Ok(()));
    assert_eq!(lease.release_task(), Ok(false));
    assert_eq!(lease.release_task(), Ok(true));
    assert!(!lease.is_valid());
}

#[test]
fn pool_lease_misuse_is_reported() {
    let mut lease = PoolLease::new();
    assert_eq!(lease.release_task(), Err(LeaseError::NotHeld));
    assert_eq!(lease.release_owner(), Ok(true));
    assert_eq!(lease.release_owner(), Err(LeaseError::NotHeld));
    assert_eq!(lease.acquire(), Err(LeaseError::Released));
}

#[test]
fn column_kinds_decode_in_either_case() {
    assert_eq!(column_kind("bool"), Some(ColumnKind::Bool));
    assert_eq!(column_kind("BOOL"), Some(ColumnKind::Bool));
    assert_eq!(column_kind("char"), Some(ColumnKind::Char));
    assert_eq!(column_kind("int2"), Some(ColumnKind::Int2));
    assert_eq!(column_kind("INT4"), Some(ColumnKind::Int4));
    assert_eq!(column_kind("int8"), Some(ColumnKind::Int8));
    assert_eq!(column_kind("float4"), Some(ColumnKind::Float4));
    assert_eq!(column_kind("FLOAT8"), Some(ColumnKind::Float8));
    assert_eq!(column_kind("text"), Some(ColumnKind::Text));
    assert_eq!(column_kind("unknown"), Some(ColumnKind::Text));
    assert_eq!(column_kind("BPCHAR"), Some(ColumnKind::Text));
    assert_eq!(column_kind("varchar"), Some(ColumnKind::Text));
    assert_eq!(column_kind("name"), Some(ColumnKind::Text));
    assert_eq!(column_kind("oid"), Some(ColumnKind::Oid));
    assert_eq!(column_kind("json"), Some(ColumnKind::Json));
    assert_eq!(column_kind("JSON"), Some(ColumnKind::Json));
    assert_eq!(column_kind("jsonb"), Some(ColumnKind::Jsonb));
    assert_eq!(column_kind("UUID"), Some(ColumnKind::Uuid));
}

#[test]
fn unknown_column_kind_is_refused() {
    assert_eq!(column_kind("Bool"), None);
    assert_eq!(column_kind("int16"), None);
    assert_eq!(column_kind(""), None);
    assert_eq!(column_kind("timestamp"), None);
}

#[test]
fn document_payloads() {
    let raw = [1u8, b'{', b'}'];
    assert_eq!(
        document_payload(ColumnKind::Json, &raw),
        Some(vec![1, b'{', b'}'])
    );
    assert_eq!(
        document_payload(ColumnKind::Jsonb, &raw),
        Some(vec![b'{', b'}'])
    );
    assert_eq!(document_payload(ColumnKind::Jsonb, &[]), None);
    assert_eq!(document_payload(ColumnKind::Uuid, &raw), None);
    assert_eq!(document_payload(ColumnKind::Uuid, &[3u8; 16]), Some(vec![3u8; 16]));
    assert_eq!(document_payload(ColumnKind::Int4, &raw), None);
}

#[test]
fn no_op_returns_its_argument() {
    assert_eq!(no_op(0), 0);
    assert_eq!(no_op(17), 17);
}

#[test]
fn batch_no_op_returns_last_counter() {
    assert_eq!(batch_no_op(1), 0);
    assert_eq!(batch_no_op(1000), 999);
}

#[test]
fn sqlx_names_leave_char_unknown() {
    assert_eq!(sqlx_column_kind("char"), None);
    assert_eq!(sqlx_column_kind("CHAR"), None);
    assert_eq!(sqlx_column_kind("bpchar"), Some(ColumnKind::Text));
    assert_eq!(sqlx_column_kind("int2"), Some(ColumnKind::Int2));
    assert_eq!(sqlx_column_kind("JSONB"), Some(ColumnKind::Jsonb));
    assert_eq!(sqlx_column_kind("float"), None);
}
