use oak_utils::database::{
    DataBlob, DatabaseError, ReadDataBlobRequest, ReadUnencryptedDataBlobRequest,
    ResetDatabaseRequest, SealedMemoryDatabaseServiceTestImpl, WriteBlobsRequest,
    WriteDataBlobRequest, WriteUnencryptedDataBlobRequest,
};

fn blob(id: &str, data: &[u8]) -> DataBlob {
    DataBlob { id: id.to_string(), encrypted_blob: data.to_vec() }
}

#[test]
fn add_then_get_blob() {
    let mut db = SealedMemoryDatabaseServiceTestImpl::default();
    assert_eq!(db.get_blob_inner("a"), None);
    db.add_blob_inner("a".to_string(), blob("a", b"one"));
    assert_eq!(db.get_blob_inner("a"), Some(blob("a", b"one")));
    db.add_blob_inner("a".to_string(), blob("a", b"two"));
    assert_eq!(db.get_blob_inner("a"), Some(blob("a", b"two")));
}

#[test]
fn read_after_write_data_blob() {
    let mut db = SealedMemoryDatabaseServiceTestImpl::new();
    db.write_data_blob(WriteDataBlobRequest { data_blob: Some(blob("x", &[1, 2, 3])) });
    let response = db.read_data_blob(ReadDataBlobRequest { id: "x".to_string() }).unwrap();
    assert_eq!(response.data_blob, Some(blob("x", &[1, 2, 3])));
    assert_eq!(
        db.read_data_blob(ReadDataBlobRequest { id: "y".to_string() }),
        Err(DatabaseError::BlobNotFound)
    );
}

#[test]
fn tables_are_separate() {
    let mut db = SealedMemoryDatabaseServiceTestImpl::new();
    db.write_unencrypted_data_blob(WriteUnencryptedDataBlobRequest {
        data_blob: Some(blob("plain", b"text")),
    });
    assert_eq!(
        db.read_data_blob(ReadDataBlobRequest { id: "plain".to_string() }),
        Err(DatabaseError::BlobNotFound)
    );
    let response = db
        .read_unencrypted_data_blob(ReadUnencryptedDataBlobRequest { id: "plain".to_string() })
        .unwrap();
    assert_eq!(response.data_blob, Some(blob("plain", b"text")));
}

#[test]
fn reset_clears_both_tables() {
    let mut db = SealedMemoryDatabaseServiceTestImpl::new();
    db.write_data_blob(WriteDataBlobRequest { data_blob: Some(blob("a", b"1")) });
    db.write_unencrypted_data_blob(WriteUnencryptedDataBlobRequest {
        data_blob: Some(blob("b", b"2")),
    });
    db.reset_database(ResetDatabaseRequest {});
    assert_eq!(db.get_blob_inner("a"), None);
    assert_eq!(
        db.read_unencrypted_data_blob(ReadUnencryptedDataBlobRequest { id: "b".to_string() }),
        Err(DatabaseError::BlobNotFound)
    );
}

#[test]
fn write_blobs_stores_all_in_order() {
    let mut db = SealedMemoryDatabaseServiceTestImpl::new();
    db.write_blobs(WriteBlobsRequest {
        encrypted_blobs: vec![blob("a", b"1"), blob("b", b"2"), blob("a", b"3")],
        unencrypted_blobs: vec![blob("c", b"4")],
    });
    assert_eq!(db.get_blob_inner("a"), Some(blob("a", b"3")));
    assert_eq!(db.get_blob_inner("b"), Some(blob("b", b"2")));
    assert_eq!(db.get_blob_inner("c"), None);
    let response = db
        .read_unencrypted_data_blob(ReadUnencryptedDataBlobRequest { id: "c".to_string() })
        .unwrap();
    assert_eq!(response.data_blob, Some(blob("c", b"4")));
}

#[test]
fn blob_is_stored_under_its_own_id() {
    let mut db = SealedMemoryDatabaseServiceTestImpl::new();
    db.write_data_blob(WriteDataBlobRequest { data_blob: Some(blob("own-id", b"z")) });
    assert_eq!(db.get_blob_inner("own-id"), Some(blob("own-id", b"z")));
}
