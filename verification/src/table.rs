//! A profile blob as a table of fixed-size records.
//!
//! A blob packs `RECORD_COUNT` records of equal size back to back. Of each
//! record this crate reads two little-endian 32-bit fields, the clock-source
//! identifier and the rate in kHz; where they sit is given by a
//! `RecordLayout`. The rest of a record belongs to the training engine.

use vstd::prelude::*;
use vstd::slice::slice_subrange;

verus! {

/// The number of records in a profile blob.
pub const RECORD_COUNT: usize = 10;

/// Where the two fields that this crate reads sit inside a record.
#[derive(Debug, Copy, Clone, PartialEq, Eq, Structural)]
pub struct RecordLayout {
    /// Byte offset of the rate in kHz.
    pub rate_khz_offset: usize,
    /// Byte offset of the clock-source identifier.
    pub clk_src_emc_offset: usize,
}

/// What this crate reads of one record.
#[derive(Debug, Copy, Clone, PartialEq, Eq, Structural)]
pub struct ProfileRecord {
    /// The value of the clock-source register while the controller runs at
    /// this record's rate.
    pub clk_src_emc: u32,
    /// The rate in kHz.
    pub rate_khz: u32,
}

/// Why a blob was not accepted as a table.
#[derive(Debug, Copy, Clone, PartialEq, Eq, Structural)]
pub enum ProfileError {
    /// The blob does not split evenly into records, or a blob of the
    /// registry does not have the length of a profile.
    MalformedAsset,
    /// A field of the layout does not lie inside a record.
    FieldOutOfRecord,
}

/// The little-endian 32-bit value of the four bytes at `at`.
pub open spec fn le_u32(bytes: Seq<u8>, at: int) -> int
    recommends
        0 <= at,
        at + 4 <= bytes.len(),
{
    bytes[at] + 0x100 * bytes[at + 1] + 0x1_0000 * bytes[at + 2] + 0x100_0000 * bytes[at + 3]
}

/// The fields of a record, read from its bytes.
pub open spec fn decode_record(bytes: Seq<u8>, layout: RecordLayout) -> ProfileRecord
    recommends
        layout.fits(bytes.len() as int),
{
    ProfileRecord {
        clk_src_emc: le_u32(bytes, layout.clk_src_emc_offset as int) as u32,
        rate_khz: le_u32(bytes, layout.rate_khz_offset as int) as u32,
    }
}

/// The size of each record of a blob of `len` bytes.
pub open spec fn record_size_of(len: int) -> int {
    len / 10
}

/// The first byte of record `i`, where records have `size` bytes.
pub open spec fn record_start(size: int, i: int) -> int {
    i * size
}

/// The byte after the last of record `i`, where records have `size` bytes.
pub open spec fn record_end(size: int, i: int) -> int {
    i * size + size
}

/// The bytes of record `i` of `blob`.
pub open spec fn record_bytes(blob: Seq<u8>, i: int) -> Seq<u8>
    recommends
        blob.len() % 10 == 0,
        0 <= i < 10,
{
    let size = record_size_of(blob.len() as int);
    blob.subrange(record_start(size, i), record_end(size, i))
}

/// The records of `blob` as this crate reads them.
pub open spec fn decode_table(blob: Seq<u8>, layout: RecordLayout) -> Seq<ProfileRecord> {
    Seq::new(10, |i: int| decode_record(record_bytes(blob, i), layout))
}

/// Record `i` of a blob that splits evenly lies inside the blob.
pub proof fn lemma_record_bounds(len: int, i: int)
    requires
        0 <= len,
        len % 10 == 0,
        0 <= i < 10,
    ensures
        ({
            let size = record_size_of(len);
            &&& 0 <= size
            &&& 0 <= record_start(size, i)
            &&& record_start(size, i) + size == record_end(size, i)
            &&& record_end(size, i) <= len
        }),
{
    let size = record_size_of(len);
    assert(size * 10 == len);
    assert(0 <= i * size && i * size + size <= 10 * size) by (nonlinear_arith)
        requires
            0 <= i < 10,
            0 <= size,
    ;
}

/// The records of a blob that splits evenly have a tenth of its length each
/// and lie back to back, from the first byte of the blob to its last: each
/// ends where the next begins, and no two of them share a byte.
pub proof fn lemma_records_partition(len: int)
    requires
        0 <= len,
        len % 10 == 0,
    ensures
        ({
            let size = record_size_of(len);
            &&& size * 10 == len
            &&& record_start(size, 0) == 0
            &&& record_end(size, 9) == len
            &&& forall|i: int|
                0 <= i < 10 ==> #[trigger] record_end(size, i) - record_start(size, i) == size
            &&& forall|i: int|
                0 <= i < 9 ==> #[trigger] record_end(size, i) == record_start(size, i + 1)
            &&& forall|i: int, j: int|
                0 <= i < j < 10 ==> #[trigger] record_end(size, i) <= #[trigger] record_start(
                    size,
                    j,
                )
        }),
{
    let size = record_size_of(len);
    assert forall|i: int, j: int| 0 <= i < j < 10 implies #[trigger] record_end(size, i)
        <= #[trigger] record_start(size, j) by {
        assert(i * size + size <= j * size) by (nonlinear_arith)
            requires
                i + 1 <= j,
                0 <= size,
        ;
    }
    assert forall|i: int| 0 <= i < 9 implies #[trigger] record_end(size, i) == record_start(
        size,
        i + 1,
    ) by {
        assert(i * size + size == (i + 1) * size) by (nonlinear_arith);
    }
    assert(9 * size + size == len);
}

/// Every byte of a blob that splits evenly belongs to exactly one record:
/// the one whose index is the byte's position divided by the record size.
pub proof fn lemma_records_cover(blob: Seq<u8>, k: int)
    requires
        blob.len() % 10 == 0,
        0 <= k < blob.len(),
    ensures
        ({
            let size = record_size_of(blob.len() as int);
            let owner = k / size;
            &&& 0 <= owner < 10
            &&& record_start(size, owner) <= k < record_end(size, owner)
            &&& record_bytes(blob, owner)[k - record_start(size, owner)] == blob[k]
            &&& forall|i: int|
                0 <= i < 10 && #[trigger] record_start(size, i) <= k < record_end(size, i) ==> i
                    == owner
        }),
{
    let len = blob.len() as int;
    let size = record_size_of(len);
    assert(size * 10 == len);
    assert(size > 0);
    let owner = k / size;
    assert(0 <= owner < 10 && owner * size <= k < owner * size + size) by (nonlinear_arith)
        requires
            owner == k / size,
            size > 0,
            0 <= k < size * 10,
    ;
    lemma_record_bounds(len, owner);
    assert forall|i: int|
        0 <= i < 10 && #[trigger] record_start(size, i) <= k < record_end(size, i) implies i
        == owner by {
        assert(i == owner) by (nonlinear_arith)
            requires
                i * size <= k < i * size + size,
                owner * size <= k < owner * size + size,
                size > 0,
        ;
    }
}

impl ProfileRecord {
    /// The rate as a configuration holds it: the 32 bits of the field read
    /// as a signed number.
    pub open spec fn spec_rate(self) -> i32 {
        if self.rate_khz <= i32::MAX {
            self.rate_khz as i32
        } else {
            (self.rate_khz - 0x1_0000_0000) as i32
        }
    }

    /// The rate as a configuration holds it: the 32 bits of the field read
    /// as a signed number.
    pub fn rate(&self) -> (rate: i32)
        ensures
            rate == self.spec_rate(),
    {
        if self.rate_khz <= 0x7fff_ffff {
            self.rate_khz as i32
        } else {
            let low: u32 = self.rate_khz - 0x8000_0000;
            low as i32 + i32::MIN
        }
    }
}

impl RecordLayout {
    /// Both fields lie inside a record of `record_size` bytes.
    pub open spec fn fits(self, record_size: int) -> bool {
        self.rate_khz_offset + 4 <= record_size && self.clk_src_emc_offset + 4 <= record_size
    }

    /// Whether both fields lie inside a record of `record_size` bytes.
    pub fn fits_in(&self, record_size: usize) -> (fits: bool)
        ensures
            fits == self.fits(record_size as int),
    {
        record_size >= 4 && self.rate_khz_offset <= record_size - 4 && self.clk_src_emc_offset
            <= record_size - 4
    }
}

/// Reads the little-endian 32-bit value of the four bytes at `at`.
fn read_le_u32(bytes: &[u8], at: usize) -> (value: u32)
    requires
        at + 4 <= bytes@.len(),
    ensures
        value == le_u32(bytes@, at as int),
{
    let b0: u32 = bytes[at] as u32;
    let b1: u32 = bytes[at + 1] as u32;
    let b2: u32 = bytes[at + 2] as u32;
    let b3: u32 = bytes[at + 3] as u32;
    b0 + 0x100 * b1 + 0x1_0000 * b2 + 0x100_0000 * b3
}

/// A profile blob seen as its ten records. The blob is borrowed, not copied.
#[derive(Debug, Copy, Clone)]
pub struct ProfileTable<'a> {
    blob: &'a [u8],
    layout: RecordLayout,
}

impl<'a> ProfileTable<'a> {
    /// The bytes of the blob.
    pub closed spec fn spec_blob(self) -> Seq<u8> {
        self.blob@
    }

    /// The layout the records are read by.
    pub closed spec fn spec_layout(self) -> RecordLayout {
        self.layout
    }

    /// The blob splits evenly into records and each record holds both fields.
    pub open spec fn wf(self) -> bool {
        &&& self.spec_blob().len() % 10 == 0
        &&& self.spec_layout().fits(self.spec_record_size())
    }

    /// The size of each record.
    pub open spec fn spec_record_size(self) -> int {
        record_size_of(self.spec_blob().len() as int)
    }

    /// The ten records, in the order of the blob.
    pub open spec fn view(self) -> Seq<ProfileRecord> {
        decode_table(self.spec_blob(), self.spec_layout())
    }

    /// Splits `blob` into ten records of equal size.
    ///
    /// Fails with `MalformedAsset` exactly when the length of the blob is no
    /// multiple of ten, and with `FieldOutOfRecord` exactly when it is one
    /// but a record is too short for a field of `layout`.
    pub fn from_blob(blob: &'a [u8], layout: RecordLayout) -> (table: Result<
        ProfileTable<'a>,
        ProfileError,
    >)
        ensures
            blob@.len() % 10 != 0 ==> table == Err::<ProfileTable<'a>, ProfileError>(
                ProfileError::MalformedAsset,
            ),
            blob@.len() % 10 == 0 && !layout.fits(record_size_of(blob@.len() as int)) ==> table
                == Err::<ProfileTable<'a>, ProfileError>(ProfileError::FieldOutOfRecord),
            blob@.len() % 10 == 0 && layout.fits(record_size_of(blob@.len() as int))
                ==> table.is_ok() && table.unwrap().wf() && table.unwrap().spec_blob() == blob@
                && table.unwrap().spec_layout() == layout,
    {
        let len: usize = blob.len();
        if len % RECORD_COUNT != 0 {
            return Err(ProfileError::MalformedAsset);
        }
        if !layout.fits_in(len / RECORD_COUNT) {
            return Err(ProfileError::FieldOutOfRecord);
        }
        Ok(ProfileTable { blob, layout })
    }

    /// The blob this table is a view of.
    pub fn blob(&self) -> (blob: &'a [u8])
        ensures
            blob@ == self.spec_blob(),
    {
        self.blob
    }

    /// The layout the records are read by.
    pub fn layout(&self) -> (layout: RecordLayout)
        ensures
            layout == self.spec_layout(),
    {
        self.layout
    }

    /// The size of each record: a tenth of the blob.
    pub fn record_size(&self) -> (size: usize)
        ensures
            size == self.spec_record_size(),
            size * 10 == self.spec_blob().len() <==> self.spec_blob().len() % 10 == 0,
    {
        self.blob.len() / RECORD_COUNT
    }

    /// The bytes of record `index`.
    pub fn record_bytes(&self, index: usize) -> (bytes: &'a [u8])
        requires
            self.wf(),
            index < 10,
        ensures
            bytes@ == record_bytes(self.spec_blob(), index as int),
            bytes@.len() == self.spec_record_size(),
    {
        let len: usize = self.blob.len();
        let size: usize = len / RECORD_COUNT;
        proof {
            lemma_record_bounds(len as int, index as int);
        }
        let start: usize = index * size;
        slice_subrange(self.blob, start, start + size)
    }

    /// What this crate reads of record `index`.
    pub fn record(&self, index: usize) -> (record: ProfileRecord)
        requires
            self.wf(),
            index < 10,
        ensures
            record == self@[index as int],
    {
        let bytes = self.record_bytes(index);
        ProfileRecord {
            clk_src_emc: read_le_u32(bytes, self.layout.clk_src_emc_offset),
            rate_khz: read_le_u32(bytes, self.layout.rate_khz_offset),
        }
    }
}

} // verus!
