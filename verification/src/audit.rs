//! The blob-integrity audit: classifying the rows of a sequential scan.
//!
//! A scan reads stored image blobs one row at a time. Each row is counted
//! exactly once: a blob that decodes as an image is healthy, one that does
//! not is corrupted, a row whose columns come back with the wrong type is
//! a schema error, and a row that cannot be read at all still counts as
//! scanned. The scan itself (database access) is the caller's work; the
//! classification and the counting live here.

use vstd::prelude::*;

verus! {

/// Whether a byte blob decodes as an image. The answer is a function of
/// the bytes alone; its definition is the image decoder's.
pub uninterp spec fn image_decodes(bytes: Seq<u8>) -> bool;

/// Relies on `image::load_from_memory`: it guesses the format from the
/// bytes and decodes them, so whether decoding succeeds depends on the
/// bytes alone.
#[verifier::external_body]
fn blob_decodes(bytes: &[u8]) -> (ok: bool)
    ensures
        ok == image_decodes(bytes@),
{
    image::load_from_memory(bytes).is_ok()
}

/// What reading one row of the scan produced.
#[derive(Debug)]
pub enum RowReading {
    /// Both columns read back with their expected types; the blob is the
    /// stored asset.
    Asset(Vec<u8>),
    /// A column came back with the wrong type (text where a blob was
    /// expected, or the reverse).
    SchemaMismatch,
    /// The row itself could not be read (a storage-level failure).
    ReadFailure,
}

/// The mathematical state of an [`AuditStats`].
pub ghost struct AuditModel {
    /// Rows seen so far, whatever they held.
    pub total_scanned: nat,
    /// Blobs that decoded as images.
    pub healthy: nat,
    /// Blobs that did not decode.
    pub corrupted_blob: nat,
    /// Rows whose columns had the wrong type.
    pub db_schema_error: nat,
}

/// Counters of one integrity scan. Every scanned row advances
/// `total_scanned` exactly once, and at most one of the three
/// classification counters.
pub struct AuditStats {
    total_scanned: u64,
    healthy: u64,
    corrupted_blob: u64,
    db_schema_error: u64,
}

impl View for AuditStats {
    type V = AuditModel;

    closed spec fn view(&self) -> AuditModel {
        AuditModel {
            total_scanned: self.total_scanned as nat,
            healthy: self.healthy as nat,
            corrupted_blob: self.corrupted_blob as nat,
            db_schema_error: self.db_schema_error as nat,
        }
    }
}

impl AuditStats {
    /// No classification counter can outgrow the scan counter: rows that
    /// could not be read at all are scanned but classified nowhere.
    pub open spec fn inv(&self) -> bool {
        self@.healthy + self@.corrupted_blob + self@.db_schema_error <= self@.total_scanned
    }

    /// A fresh scan: nothing seen yet.
    pub fn new() -> (s: AuditStats)
        ensures
            s.inv(),
            s@.total_scanned == 0,
            s@.healthy == 0,
            s@.corrupted_blob == 0,
            s@.db_schema_error == 0,
    {
        AuditStats { total_scanned: 0, healthy: 0, corrupted_blob: 0, db_schema_error: 0 }
    }

    /// Counts one well-typed row whose blob either decoded or did not.
    ///
    /// Takes the decoder's verdict as an argument, so the counting is
    /// pinned for either answer.
    pub fn record_asset(&mut self, decodable: bool)
        requires
            old(self).inv(),
            old(self)@.total_scanned < u64::MAX,
        ensures
            final(self).inv(),
            final(self)@.total_scanned == old(self)@.total_scanned + 1,
            final(self)@.db_schema_error == old(self)@.db_schema_error,
            decodable ==> final(self)@.healthy == old(self)@.healthy + 1
                && final(self)@.corrupted_blob == old(self)@.corrupted_blob,
            !decodable ==> final(self)@.corrupted_blob == old(self)@.corrupted_blob + 1
                && final(self)@.healthy == old(self)@.healthy,
    {
        self.total_scanned = self.total_scanned + 1;
        if decodable {
            self.healthy = self.healthy + 1;
        } else {
            self.corrupted_blob = self.corrupted_blob + 1;
        }
    }

    /// Counts one scanned row.
    ///
    /// A well-typed blob is classified by the image decoder, a mistyped
    /// row as a schema error; a row that could not be read at all only
    /// counts as scanned.
    pub fn record_row(&mut self, row: &RowReading)
        requires
            old(self).inv(),
            old(self)@.total_scanned < u64::MAX,
        ensures
            final(self).inv(),
            final(self)@.total_scanned == old(self)@.total_scanned + 1,
            row matches RowReading::Asset(blob) && image_decodes(blob@)
                ==> final(self)@.healthy == old(self)@.healthy + 1
                && final(self)@.corrupted_blob == old(self)@.corrupted_blob
                && final(self)@.db_schema_error == old(self)@.db_schema_error,
            row matches RowReading::Asset(blob) && !image_decodes(blob@)
                ==> final(self)@.corrupted_blob == old(self)@.corrupted_blob + 1
                && final(self)@.healthy == old(self)@.healthy
                && final(self)@.db_schema_error == old(self)@.db_schema_error,
            row is SchemaMismatch
                ==> final(self)@.db_schema_error == old(self)@.db_schema_error + 1
                && final(self)@.healthy == old(self)@.healthy
                && final(self)@.corrupted_blob == old(self)@.corrupted_blob,
            row is ReadFailure
                ==> final(self)@.healthy == old(self)@.healthy
                && final(self)@.corrupted_blob == old(self)@.corrupted_blob
                && final(self)@.db_schema_error == old(self)@.db_schema_error,
    {
        match row {
            RowReading::Asset(blob) => {
                let ok = blob_decodes(blob.as_slice());
                self.record_asset(ok);
            },
            RowReading::SchemaMismatch => {
                self.total_scanned = self.total_scanned + 1;
                self.db_schema_error = self.db_schema_error + 1;
            },
            RowReading::ReadFailure => {
                self.total_scanned = self.total_scanned + 1;
            },
        }
    }

    /// The scan's overall answer: healthy exactly when both the
    /// corrupted-blob counter and the schema-error counter stand at zero.
    pub fn is_system_healthy(&self) -> (healthy: bool)
        ensures
            healthy <==> self@.corrupted_blob == 0 && self@.db_schema_error == 0,
    {
        self.corrupted_blob == 0 && self.db_schema_error == 0
    }

    /// Rows seen so far.
    pub fn total_scanned(&self) -> (n: u64)
        ensures
            n == self@.total_scanned,
    {
        self.total_scanned
    }

    /// Blobs that decoded as images.
    pub fn healthy(&self) -> (n: u64)
        ensures
            n == self@.healthy,
    {
        self.healthy
    }

    /// Blobs that did not decode.
    pub fn corrupted_blob(&self) -> (n: u64)
        ensures
            n == self@.corrupted_blob,
    {
        self.corrupted_blob
    }

    /// Rows whose columns had the wrong type.
    pub fn db_schema_error(&self) -> (n: u64)
        ensures
            n == self@.db_schema_error,
    {
        self.db_schema_error
    }
}

} // verus!
