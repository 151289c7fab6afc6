//! The binary job file.
//!
//! A job file is a header, the records of its layers, an index and a
//! footer. The header holds the magic number, the format version and a
//! block of metadata. The index holds, for each layer, its number, its Z
//! height, the offset and the size of its record and the checksum of the
//! record. The footer holds the offset of the index, the number of its
//! entries and the checksum of the index, so that a reader finds any layer
//! without reading the layers before it.

use vstd::prelude::*;
use vstd::slice::slice_subrange;
use crate::checksum::{crc32, crc32_of};
use crate::firmware::scheduler::{StreamLayer, StreamLayerView};
use crate::gcode_types::{G4WCommand, Layer};
use crate::layer_codec::{
    decode_stream_layer, encode_record, lemma_stream_layer_round_trip,
    spec_stream_layer_from_bytes,
};
use crate::slicer::slicing::{HG4D_FORMAT_VERSION, HG4D_MAGIC};
use crate::wire::{
    Decoded, Reader, dec_i64, dec_u32, dec_u64, enc_i64, enc_u32, enc_u64, lemma_i64_round_trip,
    lemma_u32_round_trip, lemma_u64_round_trip, push_bytes, push_i64, put_u32, put_u64,
};

verus! {

/// Size of the fixed part of the header, in bytes.
pub const HEADER_SIZE: usize = 12;

/// Size of an index entry, in bytes.
pub const ENTRY_SIZE: usize = 28;

/// Size of the footer, in bytes.
pub const FOOTER_SIZE: usize = 16;

/// Where the record of a layer stands in the file.
#[derive(Debug, Clone, Copy, PartialEq, Eq, Structural)]
pub struct LayerIndexEntry {
    /// Number of the layer.
    pub layer_number: u32,
    /// Z height of the layer, in micrometres.
    pub z_height: i64,
    /// Offset of the record from the start of the file.
    pub file_offset: u64,
    /// Size of the record, in bytes.
    pub data_size: u32,
    /// CRC-32 checksum of the record.
    pub checksum: u32,
}

/// Why a job file cannot be written or read.
#[derive(Debug, Clone, Copy, PartialEq, Eq, Structural)]
pub enum JobFileError {
    /// The file is shorter than a header and a footer.
    TooShort,
    /// The file does not start with the magic number.
    BadMagic,
    /// The format version is not the supported one.
    UnsupportedVersion,
    /// The footer or the index contradicts the size of the file, or the
    /// layer numbers of the index do not increase.
    BadIndex,
    /// The checksum of the index is wrong.
    IndexChecksum,
    /// The file holds no layer of the number that was asked for.
    UnknownLayer,
    /// The checksum of the record is wrong.
    LayerChecksum,
    /// The record does not encode a layer.
    BadLayer,
    /// A length does not fit the field that holds it.
    TooLarge,
    /// The number of the layer does not follow the numbers before it.
    OutOfOrder,
}

/// The bytes of an index entry.
pub open spec fn enc_entry(e: LayerIndexEntry) -> Seq<u8> {
    enc_u32(e.layer_number) + enc_i64(e.z_height) + enc_u64(e.file_offset) + enc_u32(e.data_size)
        + enc_u32(e.checksum)
}

/// Reads an index entry.
pub open spec fn dec_entry(b: Seq<u8>) -> Decoded<LayerIndexEntry> {
    match dec_u32(b) {
        Some((layer_number, b1)) => match dec_i64(b1) {
            Some((z_height, b2)) => match dec_u64(b2) {
                Some((file_offset, b3)) => match dec_u32(b3) {
                    Some((data_size, b4)) => match dec_u32(b4) {
                        Some((checksum, b5)) => Some(
                            (
                                LayerIndexEntry {
                                    layer_number,
                                    z_height,
                                    file_offset,
                                    data_size,
                                    checksum,
                                },
                                b5,
                            ),
                        ),
                        None => None,
                    },
                    None => None,
                },
                None => None,
            },
            None => None,
        },
        None => None,
    }
}

/// The bytes of an index: its entries, one after the other.
pub open spec fn enc_index(es: Seq<LayerIndexEntry>) -> Seq<u8>
    decreases es.len(),
{
    if es.len() == 0 {
        Seq::empty()
    } else {
        enc_entry(es[0]) + enc_index(es.skip(1))
    }
}

/// Reads `n` index entries.
pub open spec fn dec_index(b: Seq<u8>, n: nat) -> Decoded<Seq<LayerIndexEntry>>
    decreases n,
{
    if n == 0 {
        Some((Seq::empty(), b))
    } else {
        match dec_entry(b) {
            Some((e, rest)) => match dec_index(rest, (n - 1) as nat) {
                Some((es, after)) => Some((seq![e] + es, after)),
                None => None,
            },
            None => None,
        }
    }
}

/// The bytes of a header with the given metadata.
pub open spec fn enc_header(metadata: Seq<u8>) -> Seq<u8> {
    enc_u32(HG4D_MAGIC) + enc_u32(HG4D_FORMAT_VERSION) + enc_u32(metadata.len() as u32) + metadata
}

/// The bytes of a footer.
pub open spec fn enc_footer(index_offset: u64, count: u32, checksum: u32) -> Seq<u8> {
    enc_u64(index_offset) + enc_u32(count) + enc_u32(checksum)
}

/// The record of every entry lies before `limit`, and the layer numbers
/// increase from entry to entry.
pub open spec fn index_sound(es: Seq<LayerIndexEntry>, limit: int) -> bool {
    &&& forall|i: int|
        0 <= i < es.len() ==> (#[trigger] es[i]).file_offset + es[i].data_size <= limit
    &&& forall|i: int, j: int|
        0 <= i < j < es.len() ==> (#[trigger] es[i]).layer_number < (
        #[trigger] es[j]).layer_number
}

/// The index of a job file, or why the file cannot be read. The checks
/// run in this order: the file holds a header and a footer; it starts with
/// the magic number; its version is the supported one; the index that the
/// footer names lies between the header and the footer and has the size of
/// its entries; the checksum of the index is right; the record of every
/// entry lies before the index, and the layer numbers increase.
pub open spec fn spec_open(b: Seq<u8>) -> Result<Seq<LayerIndexEntry>, JobFileError> {
    if b.len() < 28 {
        Err(JobFileError::TooShort)
    } else if dec_u32(b).unwrap().0 != HG4D_MAGIC {
        Err(JobFileError::BadMagic)
    } else if dec_u32(b.skip(4)).unwrap().0 != HG4D_FORMAT_VERSION {
        Err(JobFileError::UnsupportedVersion)
    } else {
        let footer = b.skip(b.len() - 16);
        let index_offset = dec_u64(footer).unwrap().0;
        let count = dec_u32(footer.skip(8)).unwrap().0;
        let checksum = dec_u32(footer.skip(12)).unwrap().0;
        if index_offset < 12 || index_offset > b.len() - 16 || b.len() - 16 - index_offset != 28
            * count {
            Err(JobFileError::BadIndex)
        } else {
            let region = b.subrange(index_offset as int, b.len() - 16);
            if crc32(region) != checksum {
                Err(JobFileError::IndexChecksum)
            } else {
                match dec_index(region, count as nat) {
                    Some((es, rest)) => if index_sound(es, index_offset as int) {
                        Ok(es)
                    } else {
                        Err(JobFileError::BadIndex)
                    },
                    None => Err(JobFileError::BadIndex),
                }
            }
        }
    }
}

/// The position in the index of the entry of a layer number.
pub open spec fn spec_find(es: Seq<LayerIndexEntry>, layer_number: u32, from: int) -> Option<int>
    decreases es.len() - from,
{
    if from < 0 || from >= es.len() {
        None
    } else if es[from].layer_number == layer_number {
        Some(from)
    } else {
        spec_find(es, layer_number, from + 1)
    }
}

/// The layer of the given number in a job file with the given index, with
/// its barriers, or why it cannot be read: the index holds no such layer,
/// the checksum of its record is wrong, or the record does not encode a
/// layer.
pub open spec fn spec_read_layer(b: Seq<u8>, es: Seq<LayerIndexEntry>, layer_number: u32) -> Result<
    StreamLayerView,
    JobFileError,
> {
    match spec_find(es, layer_number, 0) {
        Some(i) => {
            let e = es[i];
            let record = b.subrange(e.file_offset as int, e.file_offset + e.data_size);
            if crc32(record) != e.checksum {
                Err(JobFileError::LayerChecksum)
            } else {
                match spec_stream_layer_from_bytes(record) {
                    Some(l) => Ok(l),
                    None => Err(JobFileError::BadLayer),
                }
            }
        },
        None => Err(JobFileError::UnknownLayer),
    }
}

/// Reads job files.
pub struct HG4DReader<'a> {
    bytes: &'a [u8],
    index: Vec<LayerIndexEntry>,
}

/// What reading `n` entries gives, when the entries in `done` were read
/// already and `b` is what follows them.
pub open spec fn dec_more_entries(done: Seq<LayerIndexEntry>, b: Seq<u8>, n: nat) -> Decoded<
    Seq<LayerIndexEntry>,
> {
    match dec_index(b, n) {
        Some((es, after)) => Some((done + es, after)),
        None => None,
    }
}

fn read_entry(r: &mut Reader) -> (v: Option<LayerIndexEntry>)
    requires
        old(r).wf(),
    ensures
        final(r).wf(),
        match dec_entry(old(r).rest()) {
            Some((e, rest)) => v == Some(e) && final(r).rest() == rest,
            None => v.is_none(),
        },
{
    let layer_number = match r.u32() {
        Some(v) => v,
        None => {
            return None;
        },
    };
    let z_height = match r.i64() {
        Some(v) => v,
        None => {
            return None;
        },
    };
    let file_offset = match r.u64() {
        Some(v) => v,
        None => {
            return None;
        },
    };
    let data_size = match r.u32() {
        Some(v) => v,
        None => {
            return None;
        },
    };
    match r.u32() {
        Some(checksum) => Some(
            LayerIndexEntry { layer_number, z_height, file_offset, data_size, checksum },
        ),
        None => None,
    }
}

fn read_index(region: &[u8], count: u32) -> (v: Option<Vec<LayerIndexEntry>>)
    ensures
        match dec_index(region@, count as nat) {
            Some((es, rest)) => v is Some && v->Some_0@ == es,
            None => v.is_none(),
        },
{
    let mut r = Reader::new(region);
    let mut out: Vec<LayerIndexEntry> = Vec::new();
    let mut i: u32 = 0;
    proof {
        match dec_index(region@, count as nat) {
            Some((es, after)) => {
                assert(Seq::<LayerIndexEntry>::empty() + es =~= es);
            },
            None => {},
        }
    }
    while i < count
        invariant
            i <= count,
            r.wf(),
            dec_more_entries(out@, r.rest(), (count - i) as nat) == dec_index(
                region@,
                count as nat,
            ),
        decreases count - i,
    {
        let ghost here = r.rest();
        let ghost done = out@;
        match read_entry(&mut r) {
            Some(e) => {
                out.push(e);
                proof {
                    match dec_index(r.rest(), (count - i - 1) as nat) {
                        Some((es, after)) => {
                            assert(done.push(e) + es =~= done + (seq![e] + es));
                        },
                        None => {},
                    }
                }
            },
            None => {
                assert(dec_index(here, (count - i) as nat).is_none());
                return None;
            },
        }
        i = i + 1;
    }
    proof {
        assert(out@ + Seq::<LayerIndexEntry>::empty() =~= out@);
    }
    Some(out)
}

fn check_index(es: &Vec<LayerIndexEntry>, limit: u64) -> (ok: bool)
    ensures
        ok == index_sound(es@, limit as int),
{
    let mut i: usize = 0;
    while i < es.len()
        invariant
            i <= es@.len(),
            forall|a: int|
                0 <= a < i ==> (#[trigger] es@[a]).file_offset + es@[a].data_size <= limit,
            forall|a: int| 0 < a < i ==> (#[trigger] es@[a - 1]).layer_number < es@[a].layer_number,
        decreases es@.len() - i,
    {
        let e = es[i];
        if e.file_offset > limit || (e.data_size as u64) > limit - e.file_offset {
            return false;
        }
        if i > 0 && es[i - 1].layer_number >= e.layer_number {
            assert(!(es@[i as int - 1].layer_number < es@[i as int].layer_number));
            return false;
        }
        i = i + 1;
    }
    proof {
        lemma_increasing(es@);
    }
    true
}

/// Layer numbers that increase from each entry to the next increase from
/// each entry to every later one.
proof fn lemma_increasing(es: Seq<LayerIndexEntry>)
    requires
        forall|a: int| 0 < a < es.len() ==> (#[trigger] es[a - 1]).layer_number < es[a].layer_number,
    ensures
        forall|i: int, j: int|
            0 <= i < j < es.len() ==> (#[trigger] es[i]).layer_number < (
            #[trigger] es[j]).layer_number,
{
    assert forall|i: int, j: int| 0 <= i < j < es.len() implies (#[trigger] es[i]).layer_number < (
    #[trigger] es[j]).layer_number by {
        lemma_increasing_between(es, i, j);
    }
}

proof fn lemma_increasing_between(es: Seq<LayerIndexEntry>, i: int, j: int)
    requires
        forall|a: int| 0 < a < es.len() ==> (#[trigger] es[a - 1]).layer_number < es[a].layer_number,
        0 <= i < j < es.len(),
    ensures
        es[i].layer_number < es[j].layer_number,
    decreases j - i,
{
    assert(es[j - 1].layer_number < es[j].layer_number);
    if i < j - 1 {
        lemma_increasing_between(es, i, j - 1);
    }
}

impl<'a> HG4DReader<'a> {
    /// The bytes of the file.
    pub closed spec fn file(&self) -> Seq<u8> {
        self.bytes@
    }

    /// The index of the file.
    pub closed spec fn entries(&self) -> Seq<LayerIndexEntry> {
        self.index@
    }

    /// The index is the one that the file holds.
    pub closed spec fn wf(&self) -> bool {
        spec_open(self.bytes@) == Ok::<Seq<LayerIndexEntry>, JobFileError>(self.index@)
    }

    /// Opens a job file: checks the header, the footer and the index, and
    /// keeps the index for random access.
    pub fn open(bytes: &'a [u8]) -> (r: Result<HG4DReader<'a>, JobFileError>)
        ensures
            match spec_open(bytes@) {
                Ok(es) => r is Ok && r->Ok_0.wf() && r->Ok_0.file() == bytes@ && r->Ok_0.entries()
                    == es,
                Err(e) => r is Err && r->Err_0 == e,
            },
    {
        let len = bytes.len();
        if len < 28 {
            return Err(JobFileError::TooShort);
        }
        let mut head = Reader::new(bytes);
        let magic = match head.u32() {
            Some(v) => v,
            None => {
                return Err(JobFileError::TooShort);
            },
        };
        if magic != HG4D_MAGIC {
            return Err(JobFileError::BadMagic);
        }
        let version = match head.u32() {
            Some(v) => v,
            None => {
                return Err(JobFileError::TooShort);
            },
        };
        if version != HG4D_FORMAT_VERSION {
            return Err(JobFileError::UnsupportedVersion);
        }
        let footer = slice_subrange(bytes, len - 16, len);
        assert(footer@ =~= bytes@.skip(len - 16));
        let mut tail = Reader::new(footer);
        let index_offset = match tail.u64() {
            Some(v) => v,
            None => {
                return Err(JobFileError::TooShort);
            },
        };
        let count = match tail.u32() {
            Some(v) => v,
            None => {
                return Err(JobFileError::TooShort);
            },
        };
        let checksum = match tail.u32() {
            Some(v) => v,
            None => {
                return Err(JobFileError::TooShort);
            },
        };
        proof {
            assert(footer@.skip(8).skip(4) =~= footer@.skip(12));
        }
        if index_offset < 12 || index_offset > (len - 16) as u64 || (len - 16) as u64
            - index_offset != 28 * (count as u64) {
            return Err(JobFileError::BadIndex);
        }
        let region = slice_subrange(bytes, index_offset as usize, len - 16);
        if crc32_of(region) != checksum {
            return Err(JobFileError::IndexChecksum);
        }
        let index = match read_index(region, count) {
            Some(es) => es,
            None => {
                return Err(JobFileError::BadIndex);
            },
        };
        if !check_index(&index, index_offset) {
            return Err(JobFileError::BadIndex);
        }
        Ok(HG4DReader { bytes, index })
    }

    /// Number of layers in the file.
    pub fn layer_count(&self) -> (n: usize)
        ensures
            n == self.entries().len(),
    {
        self.index.len()
    }

    /// The index entry at a position.
    pub fn entry(&self, i: usize) -> (e: Option<LayerIndexEntry>)
        ensures
            i < self.entries().len() ==> e == Some(self.entries()[i as int]),
            i >= self.entries().len() ==> e.is_none(),
    {
        if i < self.index.len() {
            Some(self.index[i])
        } else {
            None
        }
    }

    /// Finds the position in the index of a layer number.
    pub fn locate(&self, layer_number: u32) -> (p: Option<usize>)
        ensures
            match spec_find(self.entries(), layer_number, 0) {
                Some(i) => 0 <= i < self.entries().len() && p == Some(i as usize),
                None => p.is_none(),
            },
    {
        let mut i: usize = 0;
        while i < self.index.len()
            invariant
                i <= self.index@.len(),
                spec_find(self.index@, layer_number, 0) == spec_find(
                    self.index@,
                    layer_number,
                    i as int,
                ),
            decreases self.index@.len() - i,
        {
            if self.index[i].layer_number == layer_number {
                assert(spec_find(self.index@, layer_number, i as int) == Some(i as int));
                return Some(i);
            }
            i = i + 1;
        }
        None
    }

    /// Reads the layer of the given number, with its barriers, wherever in
    /// the file it stands: its record is found through the index, checked
    /// against its checksum and decoded.
    pub fn read_layer(&self, layer_number: u32) -> (r: Result<StreamLayer, JobFileError>)
        requires
            self.wf(),
        ensures
            match spec_read_layer(self.file(), self.entries(), layer_number) {
                Ok(l) => r is Ok && r->Ok_0@ == l,
                Err(e) => r is Err && r->Err_0 == e,
            },
    {
        let count = self.index.len();
        let i = match self.locate(layer_number) {
            Some(i) => i,
            None => {
                return Err(JobFileError::UnknownLayer);
            },
        };
        assert(self.entries().len() == count);
        let e = self.index[i];
        let len = self.bytes.len();
        proof {
            assert(spec_open(self.bytes@)->Ok_0 == self.index@);
            lemma_open_bounds(self.bytes@, i as int);
            assert(e == self.index@[i as int]);
            assert(e.file_offset + e.data_size <= self.bytes@.len() - 16);
        }
        let start = e.file_offset as usize;
        let end = start + e.data_size as usize;
        let record = slice_subrange(self.bytes, start, end);
        proof {
            assert(spec_find(self.entries(), layer_number, 0) == Some(i as int));
            assert(self.entries()[i as int] == e);
            assert(record@ == self.file().subrange(
                e.file_offset as int,
                e.file_offset + e.data_size,
            ));
        }
        if crc32_of(record) != e.checksum {
            return Err(JobFileError::LayerChecksum);
        }
        match decode_stream_layer(record) {
            Some(l) => Ok(l),
            None => Err(JobFileError::BadLayer),
        }
    }
}

/// Opens a job file and reads the layer of the given number from it. A
/// file that does not open gives the error of the opening; a file that
/// opens gives what its reader gives for the layer.
pub fn read_layer_from(bytes: &[u8], layer_number: u32) -> (r: Result<StreamLayer, JobFileError>)
    ensures
        match spec_open(bytes@) {
            Ok(entries) => match spec_read_layer(bytes@, entries, layer_number) {
                Ok(l) => r is Ok && r->Ok_0@ == l,
                Err(e) => r is Err && r->Err_0 == e,
            },
            Err(e) => r is Err && r->Err_0 == e,
        },
{
    match HG4DReader::open(bytes) {
        Ok(reader) => reader.read_layer(layer_number),
        Err(e) => Err(e),
    }
}

/// In a file that opens, the record of every entry lies within the file.
pub proof fn lemma_open_bounds(b: Seq<u8>, i: int)
    requires
        spec_open(b) is Ok,
        0 <= i < spec_open(b)->Ok_0.len(),
    ensures
        spec_open(b)->Ok_0[i].file_offset + spec_open(b)->Ok_0[i].data_size <= b.len() - 16,
{
}

/// An index entry that was written is read back.
pub proof fn lemma_entry_round_trip(e: LayerIndexEntry, rest: Seq<u8>)
    ensures
        enc_entry(e).len() == 28,
        dec_entry(enc_entry(e) + rest) == Some((e, rest)),
{
    let f5 = enc_u32(e.checksum) + rest;
    let f4 = enc_u32(e.data_size) + f5;
    let f3 = enc_u64(e.file_offset) + f4;
    let f2 = enc_i64(e.z_height) + f3;
    assert(enc_entry(e) + rest =~= enc_u32(e.layer_number) + f2);
    lemma_u32_round_trip(e.layer_number, f2);
    lemma_i64_round_trip(e.z_height, f3);
    lemma_u64_round_trip(e.file_offset, f4);
    lemma_u32_round_trip(e.data_size, f5);
    lemma_u32_round_trip(e.checksum, rest);
}

/// An index that was written is read back, and takes 28 bytes for each
/// of its entries.
pub proof fn lemma_index_round_trip(es: Seq<LayerIndexEntry>, rest: Seq<u8>)
    ensures
        enc_index(es).len() == 28 * es.len(),
        dec_index(enc_index(es) + rest, es.len()) == Some((es, rest)),
    decreases es.len(),
{
    if es.len() == 0 {
        assert(enc_index(es) + rest =~= rest);
    } else {
        let tail = es.skip(1);
        let after = enc_index(tail) + rest;
        assert(enc_index(es) + rest =~= enc_entry(es[0]) + after);
        lemma_entry_round_trip(es[0], after);
        lemma_index_round_trip(tail, rest);
        assert(seq![es[0]] + tail =~= es);
    }
}

/// The bytes of an index with one more entry are the bytes of the index
/// followed by the bytes of the entry.
pub proof fn lemma_enc_index_push(es: Seq<LayerIndexEntry>, e: LayerIndexEntry)
    ensures
        enc_index(es.push(e)) == enc_index(es) + enc_entry(e),
    decreases es.len(),
{
    let longer = es.push(e);
    if es.len() == 0 {
        assert(longer.skip(1) =~= Seq::empty());
        assert(enc_index(longer.skip(1)) =~= Seq::empty());
        assert(longer[0] == e);
        assert(enc_index(longer) == enc_entry(e) + enc_index(longer.skip(1)));
        assert(enc_index(es) =~= Seq::empty());
        assert(enc_index(longer) =~= enc_index(es) + enc_entry(e));
    } else {
        assert(longer.skip(1) =~= es.skip(1).push(e));
        lemma_enc_index_push(es.skip(1), e);
        assert(longer[0] == es[0]);
        assert(enc_index(longer) == enc_entry(es[0]) + enc_index(longer.skip(1)));
        assert(enc_index(es) == enc_entry(es[0]) + enc_index(es.skip(1)));
        assert(enc_index(longer) =~= enc_index(es) + enc_entry(e));
    }
}

/// In an index whose layer numbers increase, the entry of a layer number
/// is found where it stands.
pub proof fn lemma_find_unique(es: Seq<LayerIndexEntry>, i: int, from: int)
    requires
        0 <= from <= i < es.len(),
        forall|a: int, b: int|
            0 <= a < b < es.len() ==> (#[trigger] es[a]).layer_number < (
            #[trigger] es[b]).layer_number,
    ensures
        spec_find(es, es[i].layer_number, from) == Some(i),
    decreases i - from,
{
    if from < i {
        assert(es[from].layer_number < es[i].layer_number);
        lemma_find_unique(es, i, from + 1);
    }
}

/// What a writer has produced so far: the header and the records, the
/// index, and the layers that the records encode.
pub struct Written {
    pub bytes: Seq<u8>,
    pub index: Seq<LayerIndexEntry>,
    pub layers: Seq<StreamLayerView>,
}

impl Written {
    /// The bytes start with the magic number and the version, the index
    /// has an entry for each layer, in the order of increasing layer
    /// numbers, and every entry names the record of its layer and holds
    /// its checksum.
    pub open spec fn wf(self) -> bool {
        &&& self.bytes.len() >= 12
        &&& self.bytes.len() <= u64::MAX
        &&& self.bytes.take(4) == enc_u32(HG4D_MAGIC)
        &&& self.bytes.subrange(4, 8) == enc_u32(HG4D_FORMAT_VERSION)
        &&& self.index.len() == self.layers.len()
        &&& self.index.len() <= u32::MAX
        &&& index_sound(self.index, self.bytes.len() as int)
        &&& forall|i: int|
            0 <= i < self.index.len() ==> {
                let e = #[trigger] self.index[i];
                let record = self.bytes.subrange(e.file_offset as int, e.file_offset + e.data_size);
                &&& record == self.layers[i].encoding()
                &&& self.layers[i].encodable()
                &&& e.checksum == crc32(record)
                &&& e.layer_number == self.layers[i].layer.layer_number
                &&& e.z_height == self.layers[i].layer.z_height
            }
    }

    /// The finished file: what was written, then the index and the
    /// footer.
    pub open spec fn finished(self) -> Seq<u8> {
        self.bytes + enc_index(self.index) + enc_footer(
            self.bytes.len() as u64,
            self.index.len() as u32,
            crc32(enc_index(self.index)),
        )
    }

    /// Whether a layer can be added, and if not, why: the index is full,
    /// the layer cannot be encoded or its record is too long, or its
    /// number does not follow the numbers before it.
    pub open spec fn refusal(self, layer: StreamLayerView) -> Option<JobFileError> {
        if self.index.len() >= u32::MAX || !layer.encodable() || layer.encoding().len() > u32::MAX
            || self.bytes.len() + layer.encoding().len() > u64::MAX {
            Some(JobFileError::TooLarge)
        } else if self.index.len() > 0 && self.index.last().layer_number
            >= layer.layer.layer_number {
            Some(JobFileError::OutOfOrder)
        } else {
            None
        }
    }

    /// What is written after a layer was added.
    pub open spec fn with_layer(self, layer: StreamLayerView) -> Written {
        Written {
            bytes: self.bytes + layer.encoding(),
            index: self.index.push(
                LayerIndexEntry {
                    layer_number: layer.layer.layer_number,
                    z_height: layer.layer.z_height,
                    file_offset: self.bytes.len() as u64,
                    data_size: layer.encoding().len() as u32,
                    checksum: crc32(layer.encoding()),
                },
            ),
            layers: self.layers.push(layer),
        }
    }
}

/// Adding a layer that is not refused keeps what is written well-formed.
pub proof fn lemma_with_layer_wf(w: Written, layer: StreamLayerView)
    requires
        w.wf(),
        w.refusal(layer).is_none(),
    ensures
        w.with_layer(layer).wf(),
{
    let after = w.with_layer(layer);
    assert(after.bytes.take(4) =~= w.bytes.take(4));
    assert(after.bytes.subrange(4, 8) =~= w.bytes.subrange(4, 8));
    assert forall|i: int| 0 <= i < after.index.len() implies {
        let e = #[trigger] after.index[i];
        let record = after.bytes.subrange(e.file_offset as int, e.file_offset + e.data_size);
        &&& record == after.layers[i].encoding()
        &&& after.layers[i].encodable()
        &&& e.checksum == crc32(record)
        &&& e.layer_number == after.layers[i].layer.layer_number
        &&& e.z_height == after.layers[i].layer.z_height
    } by {
        let e = after.index[i];
        if i < w.index.len() {
            assert(e == w.index[i]);
            assert(after.bytes.subrange(e.file_offset as int, e.file_offset + e.data_size)
                =~= w.bytes.subrange(e.file_offset as int, e.file_offset + e.data_size));
        } else {
            assert(after.bytes.subrange(e.file_offset as int, e.file_offset + e.data_size)
                =~= layer.encoding());
        }
    }
    assert forall|i: int, j: int| 0 <= i < j < after.index.len() implies (
    #[trigger] after.index[i]).layer_number < (#[trigger] after.index[j]).layer_number by {
        if j == w.index.len() {
            assert(after.index[j].layer_number == layer.layer.layer_number);
            assert(after.index[i] == w.index[i]);
            assert(w.index.last() == w.index[w.index.len() - 1]);
            if i < w.index.len() - 1 {
                assert(w.index[i].layer_number < w.index[w.index.len() - 1].layer_number);
            }
        } else {
            assert(after.index[i] == w.index[i]);
            assert(after.index[j] == w.index[j]);
        }
    }
    assert forall|i: int| 0 <= i < after.index.len() implies (
    #[trigger] after.index[i]).file_offset + after.index[i].data_size <= after.bytes.len() by {
        if i < w.index.len() {
            assert(after.index[i] == w.index[i]);
        }
    }
    assert(index_sound(after.index, after.bytes.len() as int));
    assert(after.index.len() == after.layers.len());
    assert(after.bytes.len() >= 12 && after.bytes.len() <= u64::MAX);
    assert(after.index.len() <= u32::MAX);
}

/// A finished file opens with the index that was written, and every layer
/// that was written is read back from it by its number.
pub proof fn lemma_finished_file_reads_back(w: Written, i: int)
    requires
        w.wf(),
    ensures
        spec_open(w.finished()) == Ok::<Seq<LayerIndexEntry>, JobFileError>(w.index),
        0 <= i < w.layers.len() ==> spec_read_layer(
            w.finished(),
            w.index,
            w.layers[i].layer.layer_number,
        ) == Ok::<StreamLayerView, JobFileError>(w.layers[i]),
{
    let b = w.finished();
    let index_bytes = enc_index(w.index);
    let offset = w.bytes.len() as u64;
    let count = w.index.len() as u32;
    let checksum = crc32(index_bytes);
    let footer = enc_footer(offset, count, checksum);
    lemma_index_round_trip(w.index, Seq::empty());
    assert(index_bytes + Seq::<u8>::empty() =~= index_bytes);
    lemma_u64_round_trip(offset, enc_u32(count) + enc_u32(checksum));
    lemma_u32_round_trip(count, enc_u32(checksum));
    lemma_u32_round_trip(checksum, Seq::empty());
    assert(footer =~= enc_u64(offset) + (enc_u32(count) + enc_u32(checksum)));
    assert(footer.len() == 16);
    assert(b.len() == w.bytes.len() + 28 * w.index.len() + 16);
    assert(b.skip(b.len() - 16) =~= footer);
    assert(footer.skip(8) =~= enc_u32(count) + enc_u32(checksum));
    assert(footer.skip(12) =~= enc_u32(checksum) + Seq::<u8>::empty());
    assert(b.subrange(offset as int, b.len() - 16) =~= index_bytes);
    // The header.
    lemma_u32_round_trip(HG4D_MAGIC, b.skip(4));
    assert(b =~= enc_u32(HG4D_MAGIC) + b.skip(4)) by {
        assert(b.take(4) =~= w.bytes.take(4));
        assert(b =~= b.take(4) + b.skip(4));
    }
    lemma_u32_round_trip(HG4D_FORMAT_VERSION, b.skip(8));
    assert(b.skip(4) =~= enc_u32(HG4D_FORMAT_VERSION) + b.skip(8)) by {
        assert(b.skip(4).take(4) =~= w.bytes.subrange(4, 8));
        assert(b.skip(4) =~= b.skip(4).take(4) + b.skip(4).skip(4));
        assert(b.skip(4).skip(4) =~= b.skip(8));
    }
    assert(spec_open(b) == Ok::<Seq<LayerIndexEntry>, JobFileError>(w.index));
    if 0 <= i < w.layers.len() {
        let e = w.index[i];
        lemma_find_unique(w.index, i, 0);
        assert(b.subrange(e.file_offset as int, e.file_offset + e.data_size) =~= w.bytes.subrange(
            e.file_offset as int,
            e.file_offset + e.data_size,
        ));
        lemma_stream_layer_round_trip(w.layers[i]);
    }
}

/// Writes job files into memory.
pub struct HG4DWriter {
    bytes: Vec<u8>,
    layer_index: Vec<LayerIndexEntry>,
    layers: Ghost<Seq<StreamLayerView>>,
}

impl HG4DWriter {
    /// What the writer has produced so far.
    pub closed spec fn written(&self) -> Written {
        Written { bytes: self.bytes@, index: self.layer_index@, layers: self.layers@ }
    }

    /// Starts a job file: writes the header with the given metadata.
    pub fn create(metadata: &[u8]) -> (r: Result<Self, JobFileError>)
        ensures
            metadata@.len() > u32::MAX ==> r is Err && r->Err_0 == JobFileError::TooLarge,
            metadata@.len() <= u32::MAX ==> r is Ok && r->Ok_0.written() == (Written {
                bytes: enc_header(metadata@),
                index: Seq::empty(),
                layers: Seq::empty(),
            }) && r->Ok_0.written().wf(),
    {
        if metadata.len() > u32::MAX as usize {
            return Err(JobFileError::TooLarge);
        }
        let mut bytes: Vec<u8> = Vec::new();
        put_u32(&mut bytes, HG4D_MAGIC);
        put_u32(&mut bytes, HG4D_FORMAT_VERSION);
        put_u32(&mut bytes, metadata.len() as u32);
        push_bytes(&mut bytes, metadata);
        proof {
            lemma_u32_round_trip(HG4D_MAGIC, Seq::empty());
            lemma_u32_round_trip(HG4D_FORMAT_VERSION, Seq::empty());
            lemma_u32_round_trip(metadata@.len() as u32, Seq::empty());
            assert(bytes@ =~= enc_header(metadata@));
            assert(bytes@.take(4) =~= enc_u32(HG4D_MAGIC));
            assert(bytes@.subrange(4, 8) =~= enc_u32(HG4D_FORMAT_VERSION));
        }
        Ok(HG4DWriter { bytes, layer_index: Vec::new(), layers: Ghost(Seq::empty()) })
    }

    fn write_record(&mut self, layer: &Layer, barriers: &Vec<G4WCommand>) -> (r: Result<
        (),
        JobFileError,
    >)
        requires
            old(self).written().wf(),
        ensures
            match old(self).written().refusal(
                StreamLayerView { layer: layer@, barriers: barriers@ },
            ) {
                Some(e) => r is Err && r->Err_0 == e && final(self).written() == old(
                    self,
                ).written(),
                None => r is Ok && final(self).written() == old(self).written().with_layer(
                    StreamLayerView { layer: layer@, barriers: barriers@ },
                ),
            },
            final(self).written().wf(),
    {
        let ghost view = StreamLayerView { layer: layer@, barriers: barriers@ };
        if self.layer_index.len() >= u32::MAX as usize {
            return Err(JobFileError::TooLarge);
        }
        let data = match encode_record(layer, barriers) {
            Some(d) => d,
            None => {
                return Err(JobFileError::TooLarge);
            },
        };
        if data.len() > u32::MAX as usize {
            return Err(JobFileError::TooLarge);
        }
        if self.bytes.len() as u64 > u64::MAX - data.len() as u64 {
            return Err(JobFileError::TooLarge);
        }
        let n = self.layer_index.len();
        if n > 0 && self.layer_index[n - 1].layer_number >= layer.layer_number {
            return Err(JobFileError::OutOfOrder);
        }
        proof {
            lemma_with_layer_wf(self.written(), view);
        }
        let entry = LayerIndexEntry {
            layer_number: layer.layer_number,
            z_height: layer.z_height,
            file_offset: self.bytes.len() as u64,
            data_size: data.len() as u32,
            checksum: crc32_of(data.as_slice()),
        };
        push_bytes(&mut self.bytes, data.as_slice());
        self.layer_index.push(entry);
        self.layers = Ghost(self.layers@.push(view));
        Ok(())
    }

    /// Adds a layer without barriers: appends its record and notes it in
    /// the index. A layer that is refused changes nothing.
    pub fn write_layer(&mut self, layer: &Layer) -> (r: Result<(), JobFileError>)
        requires
            old(self).written().wf(),
        ensures
            match old(self).written().refusal(
                StreamLayerView { layer: layer@, barriers: Seq::empty() },
            ) {
                Some(e) => r is Err && r->Err_0 == e && final(self).written() == old(
                    self,
                ).written(),
                None => r is Ok && final(self).written() == old(self).written().with_layer(
                    StreamLayerView { layer: layer@, barriers: Seq::empty() },
                ),
            },
            final(self).written().wf(),
    {
        let none: Vec<G4WCommand> = Vec::new();
        assert(none@ =~= Seq::empty());
        self.write_record(layer, &none)
    }

    /// Adds a layer of the stream, with its barriers: appends its record
    /// and notes it in the index. A layer that is refused changes nothing.
    pub fn write_stream_layer(&mut self, layer: &StreamLayer) -> (r: Result<(), JobFileError>)
        requires
            old(self).written().wf(),
        ensures
            match old(self).written().refusal(layer@) {
                Some(e) => r is Err && r->Err_0 == e && final(self).written() == old(
                    self,
                ).written(),
                None => r is Ok && final(self).written() == old(self).written().with_layer(layer@),
            },
            final(self).written().wf(),
    {
        self.write_record(&layer.layer, &layer.barriers)
    }

    /// Finishes the file: appends the index and the footer, and gives the
    /// bytes of the whole file.
    pub fn finalize(self) -> (file: Vec<u8>)
        requires
            self.written().wf(),
        ensures
            file@ == self.written().finished(),
    {
        let HG4DWriter { bytes, layer_index, layers } = self;
        let mut file = bytes;
        let offset = file.len() as u64;
        let mut index_bytes: Vec<u8> = Vec::new();
        let mut i: usize = 0;
        while i < layer_index.len()
            invariant
                i <= layer_index@.len(),
                index_bytes@ == enc_index(layer_index@.take(i as int)),
            decreases layer_index@.len() - i,
        {
            let e = layer_index[i];
            let ghost before = index_bytes@;
            put_u32(&mut index_bytes, e.layer_number);
            push_i64(&mut index_bytes, e.z_height);
            put_u64(&mut index_bytes, e.file_offset);
            put_u32(&mut index_bytes, e.data_size);
            put_u32(&mut index_bytes, e.checksum);
            proof {
                assert(index_bytes@ =~= before + enc_entry(e));
                lemma_enc_index_push(layer_index@.take(i as int), e);
                assert(layer_index@.take(i as int + 1) =~= layer_index@.take(i as int).push(e));
            }
            i = i + 1;
        }
        proof {
            assert(layer_index@.take(i as int) =~= layer_index@);
        }
        let checksum = crc32_of(index_bytes.as_slice());
        push_bytes(&mut file, index_bytes.as_slice());
        put_u64(&mut file, offset);
        put_u32(&mut file, layer_index.len() as u32);
        put_u32(&mut file, checksum);
        proof {
            assert(file@ =~= self.written().finished());
        }
        file
    }

    /// Calculates the checksum of a block of data.
    pub fn calculate_checksum(data: &[u8]) -> (c: u32)
        ensures
            c == crc32(data@),
    {
        crc32_of(data)
    }
}

} // verus!
