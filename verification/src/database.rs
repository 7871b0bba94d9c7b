//! An in-memory store of data blobs, as served to the sealed memory service
//! in tests: one table of encrypted blobs and one of unencrypted blobs, both
//! keyed by blob identifier.

use vstd::hash_map::StringHashMap;
use vstd::prelude::*;

verus! {

/// A blob of data with its identifier.
#[derive(Debug, PartialEq, Eq, Default)]
pub struct DataBlob {
    /// Identifier under which the blob is stored.
    pub id: String,
    /// The stored bytes (for the unencrypted table, the plain data).
    pub encrypted_blob: Vec<u8>,
}

/// A blob by its identifier and bytes.
pub type DataBlobView = (Seq<char>, Seq<u8>);

impl View for DataBlob {
    type V = DataBlobView;

    open spec fn view(&self) -> DataBlobView {
        (self.id@, self.encrypted_blob@)
    }
}

impl Clone for DataBlob {
    fn clone(&self) -> (res: Self)
        ensures
            res@ == self@,
    {
        DataBlob { id: self.id.clone(), encrypted_blob: self.encrypted_blob.clone() }
    }
}

/// Request to store one encrypted blob.
#[derive(Debug, Clone, PartialEq, Eq, Default)]
pub struct WriteDataBlobRequest {
    /// The blob to store; it must be present.
    pub data_blob: Option<DataBlob>,
}

/// Answer to a [`WriteDataBlobRequest`].
#[derive(Debug, Clone, Copy, PartialEq, Eq, Default)]
pub struct WriteDataBlobResponse {}

/// Request to read one encrypted blob.
#[derive(Debug, Clone, PartialEq, Eq, Default)]
pub struct ReadDataBlobRequest {
    /// Identifier of the blob.
    pub id: String,
}

/// Answer to a [`ReadDataBlobRequest`].
#[derive(Debug, Clone, PartialEq, Eq, Default)]
pub struct ReadDataBlobResponse {
    /// The blob that was found.
    pub data_blob: Option<DataBlob>,
}

/// Request to store one unencrypted blob.
#[derive(Debug, Clone, PartialEq, Eq, Default)]
pub struct WriteUnencryptedDataBlobRequest {
    /// The blob to store; it must be present.
    pub data_blob: Option<DataBlob>,
}

/// Answer to a [`WriteUnencryptedDataBlobRequest`].
#[derive(Debug, Clone, Copy, PartialEq, Eq, Default)]
pub struct WriteUnencryptedDataBlobResponse {}

/// Request to read one unencrypted blob.
#[derive(Debug, Clone, PartialEq, Eq, Default)]
pub struct ReadUnencryptedDataBlobRequest {
    /// Identifier of the blob.
    pub id: String,
}

/// Answer to a [`ReadUnencryptedDataBlobRequest`].
#[derive(Debug, Clone, PartialEq, Eq, Default)]
pub struct ReadUnencryptedDataBlobResponse {
    /// The blob that was found.
    pub data_blob: Option<DataBlob>,
}

/// Request to empty both tables.
#[derive(Debug, Clone, Copy, PartialEq, Eq, Default)]
pub struct ResetDatabaseRequest {}

/// Answer to a [`ResetDatabaseRequest`].
#[derive(Debug, Clone, Copy, PartialEq, Eq, Default)]
pub struct ResetDatabaseResponse {}

/// Request to store several blobs in both tables.
#[derive(Debug, Clone, PartialEq, Eq, Default)]
pub struct WriteBlobsRequest {
    /// Blobs for the encrypted table, stored in order.
    pub encrypted_blobs: Vec<DataBlob>,
    /// Blobs for the unencrypted table, stored in order.
    pub unencrypted_blobs: Vec<DataBlob>,
}

/// Answer to a [`WriteBlobsRequest`].
#[derive(Debug, Clone, Copy, PartialEq, Eq, Default)]
pub struct WriteBlobsResponse {}

/// Why a request failed.
#[derive(Debug, Clone, Copy, PartialEq, Eq, Structural)]
pub enum DatabaseError {
    /// No blob is stored under the requested identifier.
    BlobNotFound,
}

/// A table by the views of its blobs.
pub type TableView = Map<Seq<char>, DataBlobView>;

/// The view of a table.
pub open spec fn table_view(m: Map<Seq<char>, DataBlob>) -> TableView {
    m.map_values(|b: DataBlob| b@)
}

/// The views of a sequence of blobs.
pub open spec fn blobs_view(blobs: Seq<DataBlob>) -> Seq<DataBlobView> {
    blobs.map_values(|b: DataBlob| b@)
}

/// A table after storing the blobs in order, each under its own
/// identifier: a later blob replaces an earlier one with the same
/// identifier.
pub open spec fn insert_all(table: TableView, blobs: Seq<DataBlobView>) -> TableView
    decreases blobs.len(),
{
    if blobs.len() == 0 {
        table
    } else {
        insert_all(table, blobs.drop_last()).insert(blobs.last().0, blobs.last())
    }
}

/// What looking up an identifier in a table gives.
pub open spec fn lookup(table: TableView, id: Seq<char>) -> Option<DataBlobView> {
    if table.contains_key(id) {
        Some(table[id])
    } else {
        None
    }
}

/// A found blob by its view.
pub open spec fn blob_option_view(b: Option<DataBlob>) -> Option<DataBlobView> {
    match b {
        Some(b) => Some(b@),
        None => None,
    }
}

/// The store behind the test database service.
pub struct SealedMemoryDatabaseServiceTestImpl {
    database: StringHashMap<DataBlob>,
    unencrypted_database: StringHashMap<DataBlob>,
}

impl View for SealedMemoryDatabaseServiceTestImpl {
    /// The encrypted table and the unencrypted table.
    type V = (TableView, TableView);

    closed spec fn view(&self) -> (TableView, TableView) {
        (table_view(self.database@), table_view(self.unencrypted_database@))
    }
}

/// Storing a blob in the concrete table stores its view in the table view.
proof fn lemma_table_view_insert(m: Map<Seq<char>, DataBlob>, k: Seq<char>, b: DataBlob)
    ensures
        table_view(m.insert(k, b)) == table_view(m).insert(k, b@),
{
    assert(table_view(m.insert(k, b)) =~= table_view(m).insert(k, b@));
}

impl Default for SealedMemoryDatabaseServiceTestImpl {
    fn default() -> (res: Self)
        ensures
            res@.0 == Map::<Seq<char>, DataBlobView>::empty(),
            res@.1 == Map::<Seq<char>, DataBlobView>::empty(),
    {
        let res = SealedMemoryDatabaseServiceTestImpl {
            database: StringHashMap::new(),
            unencrypted_database: StringHashMap::new(),
        };
        assert(res@.0 =~= Map::<Seq<char>, DataBlobView>::empty());
        assert(res@.1 =~= Map::<Seq<char>, DataBlobView>::empty());
        res
    }
}

impl SealedMemoryDatabaseServiceTestImpl {
    /// An empty store.
    pub fn new() -> (res: Self)
        ensures
            res@.0 == Map::<Seq<char>, DataBlobView>::empty(),
            res@.1 == Map::<Seq<char>, DataBlobView>::empty(),
    {
        Self::default()
    }

    /// Stores a blob under `id` in the encrypted table.
    pub fn add_blob_inner(&mut self, id: String, blob: DataBlob)
        ensures
            final(self)@.0 == old(self)@.0.insert(id@, blob@),
            final(self)@.1 == old(self)@.1,
    {
        proof {
            lemma_table_view_insert(self.database@, id@, blob);
        }
        self.database.insert(id, blob);
    }

    /// The blob stored under `id` in the encrypted table, if any.
    pub fn get_blob_inner(&self, id: &str) -> (res: Option<DataBlob>)
        ensures
            blob_option_view(res) == lookup(self@.0, id@),
    {
        match self.database.get(id) {
            Some(b) => Some(b.clone()),
            None => None,
        }
    }

    /// The blob stored under `id` in the unencrypted table, if any.
    fn get_unencrypted_blob(&self, id: &str) -> (res: Option<DataBlob>)
        ensures
            blob_option_view(res) == lookup(self@.1, id@),
    {
        match self.unencrypted_database.get(id) {
            Some(b) => Some(b.clone()),
            None => None,
        }
    }

    /// Stores a blob under `id` in the unencrypted table.
    fn add_unencrypted_blob(&mut self, id: String, blob: DataBlob)
        ensures
            final(self)@.0 == old(self)@.0,
            final(self)@.1 == old(self)@.1.insert(id@, blob@),
    {
        proof {
            lemma_table_view_insert(self.unencrypted_database@, id@, blob);
        }
        self.unencrypted_database.insert(id, blob);
    }

    /// Stores the request's blob in the encrypted table under its own
    /// identifier.
    pub fn write_data_blob(&mut self, request: WriteDataBlobRequest) -> (res: WriteDataBlobResponse)
        requires
            request.data_blob is Some,
        ensures
            final(self)@.0 == old(self)@.0.insert(
                request.data_blob.unwrap().id@,
                request.data_blob.unwrap()@,
            ),
            final(self)@.1 == old(self)@.1,
    {
        let blob = request.data_blob.unwrap();
        let id = blob.id.clone();
        self.add_blob_inner(id, blob);
        WriteDataBlobResponse {  }
    }

    /// The encrypted blob with the requested identifier; an error where
    /// there is none.
    pub fn read_data_blob(&self, request: ReadDataBlobRequest) -> (res: Result<
        ReadDataBlobResponse,
        DatabaseError,
    >)
        ensures
            match res {
                Ok(response) => lookup(self@.0, request.id@) == blob_option_view(
                    response.data_blob,
                ) && response.data_blob is Some,
                Err(e) => e == DatabaseError::BlobNotFound && lookup(self@.0, request.id@) is None,
            },
    {
        match self.get_blob_inner(request.id.as_str()) {
            Some(blob) => Ok(ReadDataBlobResponse { data_blob: Some(blob) }),
            None => Err(DatabaseError::BlobNotFound),
        }
    }

    /// Stores the request's blob in the unencrypted table under its own
    /// identifier.
    pub fn write_unencrypted_data_blob(&mut self, request: WriteUnencryptedDataBlobRequest) -> (res:
        WriteUnencryptedDataBlobResponse)
        requires
            request.data_blob is Some,
        ensures
            final(self)@.0 == old(self)@.0,
            final(self)@.1 == old(self)@.1.insert(
                request.data_blob.unwrap().id@,
                request.data_blob.unwrap()@,
            ),
    {
        let blob = request.data_blob.unwrap();
        let id = blob.id.clone();
        self.add_unencrypted_blob(id, blob);
        WriteUnencryptedDataBlobResponse {  }
    }

    /// The unencrypted blob with the requested identifier; an error where
    /// there is none.
    pub fn read_unencrypted_data_blob(&self, request: ReadUnencryptedDataBlobRequest) -> (res: Result<
        ReadUnencryptedDataBlobResponse,
        DatabaseError,
    >)
        ensures
            match res {
                Ok(response) => lookup(self@.1, request.id@) == blob_option_view(
                    response.data_blob,
                ) && response.data_blob is Some,
                Err(e) => e == DatabaseError::BlobNotFound && lookup(self@.1, request.id@) is None,
            },
    {
        match self.get_unencrypted_blob(request.id.as_str()) {
            Some(blob) => Ok(ReadUnencryptedDataBlobResponse { data_blob: Some(blob) }),
            None => Err(DatabaseError::BlobNotFound),
        }
    }

    /// Empties both tables.
    pub fn reset_database(&mut self, request: ResetDatabaseRequest) -> (res: ResetDatabaseResponse)
        ensures
            final(self)@.0 == Map::<Seq<char>, DataBlobView>::empty(),
            final(self)@.1 == Map::<Seq<char>, DataBlobView>::empty(),
    {
        self.database.clear();
        self.unencrypted_database.clear();
        assert(self@.0 =~= Map::<Seq<char>, DataBlobView>::empty());
        assert(self@.1 =~= Map::<Seq<char>, DataBlobView>::empty());
        ResetDatabaseResponse {  }
    }

    /// Stores the encrypted blobs, then the unencrypted blobs, each in
    /// order under its own identifier.
    pub fn write_blobs(&mut self, request: WriteBlobsRequest) -> (res: WriteBlobsResponse)
        ensures
            final(self)@.0 == insert_all(old(self)@.0, blobs_view(request.encrypted_blobs@)),
            final(self)@.1 == insert_all(old(self)@.1, blobs_view(request.unencrypted_blobs@)),
    {
        let ghost before = self@;
        let encrypted = &request.encrypted_blobs;
        let n = encrypted.len();
        for i in 0..n
            invariant
                n == encrypted@.len(),
                self@.0 == insert_all(before.0, blobs_view(encrypted@.take(i as int))),
                self@.1 == before.1,
        {
            let blob = encrypted[i].clone();
            let id = blob.id.clone();
            proof {
                assert(blobs_view(encrypted@.take(i + 1)).drop_last() =~= blobs_view(
                    encrypted@.take(i as int),
                ));
                assert(blobs_view(encrypted@.take(i + 1)).last() == encrypted@[i as int]@);
            }
            self.add_blob_inner(id, blob);
        }
        assert(encrypted@.take(n as int) =~= encrypted@);
        let unencrypted = &request.unencrypted_blobs;
        let m = unencrypted.len();
        for i in 0..m
            invariant
                m == unencrypted@.len(),
                self@.0 == insert_all(before.0, blobs_view(encrypted@)),
                self@.1 == insert_all(before.1, blobs_view(unencrypted@.take(i as int))),
        {
            let blob = unencrypted[i].clone();
            let id = blob.id.clone();
            proof {
                assert(blobs_view(unencrypted@.take(i + 1)).drop_last() =~= blobs_view(
                    unencrypted@.take(i as int),
                ));
                assert(blobs_view(unencrypted@.take(i + 1)).last() == unencrypted@[i as int]@);
            }
            self.add_unencrypted_blob(id, blob);
        }
        assert(unencrypted@.take(m as int) =~= unencrypted@);
        WriteBlobsResponse {  }
    }
}


/// A blob written to a table is what a read of its identifier gives, and
/// reads of other identifiers are unaffected.
pub proof fn lemma_read_after_write(table: TableView, blob: DataBlobView, id: Seq<char>)
    ensures
        lookup(table.insert(blob.0, blob), blob.0) == Some(blob),
        id != blob.0 ==> lookup(table.insert(blob.0, blob), id) == lookup(table, id),
{
}

/// After a reset, no identifier is found in either table.
pub proof fn lemma_read_after_reset(id: Seq<char>)
    ensures
        lookup(Map::<Seq<char>, DataBlobView>::empty(), id) is None,
{
}

/// After storing several blobs, each identifier maps to the last blob
/// stored under it; identifiers of none of the blobs keep their earlier
/// blob.
pub proof fn lemma_insert_all_lookup(table: TableView, blobs: Seq<DataBlobView>, id: Seq<char>)
    ensures
        (forall|i: int| 0 <= i < blobs.len() ==> #[trigger] blobs[i].0 != id) ==> lookup(
            insert_all(table, blobs),
            id,
        ) == lookup(table, id),
        forall|i: int|
            0 <= i < blobs.len() && blobs[i].0 == id && (forall|j: int|
                i < j < blobs.len() ==> #[trigger] blobs[j].0 != id) ==> lookup(
                insert_all(table, blobs),
                id,
            ) == Some(#[trigger] blobs[i]),
    decreases blobs.len(),
{
    if blobs.len() > 0 {
        let init = blobs.drop_last();
        lemma_insert_all_lookup(table, init, id);
        assert forall|i: int|
            0 <= i < blobs.len() && blobs[i].0 == id && (forall|j: int|
                i < j < blobs.len() ==> #[trigger] blobs[j].0 != id) implies lookup(
            insert_all(table, blobs),
            id,
        ) == Some(#[trigger] blobs[i]) by {
            if i < blobs.len() - 1 {
                assert(blobs[blobs.len() - 1].0 != id);
                assert(init[i] == blobs[i]);
                assert forall|j: int| i < j < init.len() implies #[trigger] init[j].0 != id by {
                    assert(init[j] == blobs[j]);
                }
            }
        }
        if forall|i: int| 0 <= i < blobs.len() ==> #[trigger] blobs[i].0 != id {
            assert(blobs.last().0 != id);
            assert forall|i: int| 0 <= i < init.len() implies #[trigger] init[i].0 != id by {
                assert(init[i] == blobs[i]);
            }
        }
    }
}

} // verus!
