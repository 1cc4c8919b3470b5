//! The file driver: header validation, the record loop over the data region
//! with its table of local definitions, and the trailing CRC.
use vstd::prelude::*;
use vstd::slice::slice_subrange;
use crate::base::{Endian, read_u16, read_u32, uint_le};
use crate::crc::{crc, crc_of};
use crate::error::Error;
use crate::record::{
    ContentModel, DefinitionModel, Header, LocalDefinitions, Message, Record, RecordModel, empty_table,
    next_table, parse_record,
};

verus! {

/// The fields of a FIT file header.
#[derive(Debug, Clone, Copy, PartialEq, Eq, Structural)]
pub struct FileHeader {
    /// 12 or 14.
    pub header_size: u8,
    pub protocol_version: u8,
    pub profile_version: u16,
    /// Length of the records between the header and the trailing CRC.
    pub data_size: u32,
    /// The header CRC, present in a 14-byte header.
    pub crc: Option<u16>,
}

/// The ASCII signature `.FIT` at bytes 8..12 of the header.
pub open spec fn has_signature(b: Seq<u8>) -> bool {
    b[8] == 0x2E && b[9] == 0x46 && b[10] == 0x49 && b[11] == 0x54
}

/// The CRC stored in a 14-byte header.
pub open spec fn stored_header_crc(b: Seq<u8>) -> u16 {
    uint_le(b.subrange(12, 14)) as u16
}

/// What the file header at the start of `b` decodes to. A 14-byte header's
/// CRC is checked against the first 12 bytes unless it is zero.
pub open spec fn parse_header(b: Seq<u8>) -> Result<FileHeader, Error> {
    if b.len() < 12 {
        Err(Error::UnexpectedEof)
    } else if b[0] != 12 && b[0] != 14 {
        Err(Error::BadHeaderSize(b[0]))
    } else if !has_signature(b) {
        Err(Error::BadSignature)
    } else if b.len() < b[0] {
        Err(Error::UnexpectedEof)
    } else if b[0] == 14 && stored_header_crc(b) != 0 && stored_header_crc(b) != crc_of(b.take(12)) {
        Err(Error::BadCrc { expected: stored_header_crc(b), actual: crc_of(b.take(12)) })
    } else {
        Ok(
            FileHeader {
                header_size: b[0],
                protocol_version: b[1],
                profile_version: uint_le(b.subrange(2, 4)) as u16,
                data_size: uint_le(b.subrange(4, 8)) as u32,
                crc: if b[0] == 14 {
                    Some(stored_header_crc(b))
                } else {
                    None
                },
            },
        )
    }
}

impl FileHeader {
    /// Decodes and checks the file header at the start of `bytes`.
    pub fn decode(bytes: &[u8]) -> (r: Result<FileHeader, Error>)
        ensures
            r == parse_header(bytes@),
    {
        if bytes.len() < 12 {
            return Err(Error::UnexpectedEof);
        }
        let header_size = bytes[0];
        if header_size != 12 && header_size != 14 {
            return Err(Error::BadHeaderSize(header_size));
        }
        if !(bytes[8] == 0x2E && bytes[9] == 0x46 && bytes[10] == 0x49 && bytes[11] == 0x54) {
            return Err(Error::BadSignature);
        }
        if bytes.len() < header_size as usize {
            return Err(Error::UnexpectedEof);
        }
        let pv = slice_subrange(bytes, 2, 4);
        assert(pv@.take(2) =~= bytes@.subrange(2, 4));
        let ds = slice_subrange(bytes, 4, 8);
        assert(ds@.take(4) =~= bytes@.subrange(4, 8));
        let profile_version = read_u16(pv, Endian::Little);
        let data_size = read_u32(ds, Endian::Little);
        let mut stored: Option<u16> = None;
        if header_size == 14 {
            let hc = slice_subrange(bytes, 12, 14);
            assert(hc@.take(2) =~= bytes@.subrange(12, 14));
            let c = read_u16(hc, Endian::Little);
            let computed = crc(slice_subrange(bytes, 0, 12));
            assert(bytes@.subrange(0, 12) =~= bytes@.take(12));
            if c != 0 && c != computed {
                return Err(Error::BadCrc { expected: c, actual: computed });
            }
            stored = Some(c);
        }
        Ok(FileHeader { header_size, protocol_version: bytes[1], profile_version, data_size, crc: stored })
    }
}

/// The records that `b` holds from position `p` to its end, appended to
/// `acc`, given the definitions `table` in force, with the position where
/// decoding stopped.
pub open spec fn parse_records(b: Seq<u8>, p: int, table: Seq<Option<DefinitionModel>>, acc: Seq<RecordModel>) -> Result<(Seq<RecordModel>, int), Error>
    decreases b.len() - p,
{
    if p >= b.len() {
        Ok((acc, p))
    } else {
        match parse_record(b, p, table) {
            Err(x) => Err(x),
            Ok((r, q)) => if q <= p || q > b.len() {
                Err(Error::UnexpectedEof)
            } else {
                parse_records(b, q, next_table(table, r), acc.push(r))
            },
        }
    }
}

/// A decoded FIT file.
#[derive(Debug, Clone)]
pub struct File {
    pub header: FileHeader,
    pub records: Vec<Record>,
}

/// The content of a [`File`].
pub struct FileModel {
    pub header: FileHeader,
    pub records: Seq<RecordModel>,
}

/// The models of a list of records.
pub open spec fn record_models(rs: Seq<Record>) -> Seq<RecordModel> {
    rs.map_values(|r: Record| r@)
}

impl View for File {
    type V = FileModel;

    open spec fn view(&self) -> FileModel {
        FileModel { header: self.header, records: record_models(self.records@) }
    }
}

/// Where the data region that `h` announces ends.
pub open spec fn data_end(h: FileHeader) -> int {
    h.header_size + h.data_size
}

/// The trailing CRC stored after the data region.
pub open spec fn stored_file_crc(b: Seq<u8>, end: int) -> u16 {
    uint_le(b.subrange(end, end + 2)) as u16
}

/// What the bytes `b` of a FIT file decode to: the header, the records of
/// the data region read in stream order (each data record laid out by the
/// definition last seen on its local slot), and a check of the trailing CRC
/// against the CRC of every byte before it.
pub open spec fn parse_file(b: Seq<u8>) -> Result<FileModel, Error> {
    match parse_header(b) {
        Err(x) => Err(x),
        Ok(h) => {
            let end = data_end(h);
            if b.len() < end + 2 {
                Err(Error::UnexpectedEof)
            } else {
                match parse_records(b.take(end), h.header_size as int, empty_table(), Seq::empty()) {
                    Err(x) => Err(x),
                    Ok((rs, _)) => if stored_file_crc(b, end) != crc_of(b.take(end)) {
                        Err(Error::BadCrc { expected: stored_file_crc(b, end), actual: crc_of(b.take(end)) })
                    } else {
                        Ok(FileModel { header: h, records: rs })
                    },
                }
            }
        },
    }
}

impl File {
    /// Decodes a whole FIT file held in `bytes`. Bytes after the trailing CRC
    /// are not read.
    pub fn decode(bytes: &[u8]) -> (r: Result<File, Error>)
        ensures
            match r {
                Ok(f) => parse_file(bytes@) == Ok::<FileModel, Error>(f@),
                Err(x) => parse_file(bytes@) == Err::<FileModel, Error>(x),
            },
    {
        let header = match FileHeader::decode(bytes) {
            Ok(h) => h,
            Err(x) => {
                return Err(x);
            },
        };
        let end64: u64 = header.header_size as u64 + header.data_size as u64;
        if (bytes.len() as u64) < end64 + 2 {
            return Err(Error::UnexpectedEof);
        }
        let end = end64 as usize;
        let data = slice_subrange(bytes, 0, end);
        assert(data@ =~= bytes@.take(end as int));
        let mut table = LocalDefinitions::new();
        let mut records: Vec<Record> = Vec::new();
        let mut p: usize = header.header_size as usize;
        assert(record_models(records@) =~= Seq::<RecordModel>::empty());
        while p < data.len()
            invariant
                header.header_size as int <= p <= data@.len(),
                table.wf(),
                parse_header(bytes@) == Ok::<FileHeader, Error>(header),
                end == data_end(header),
                bytes@.len() >= end + 2,
                data@ == bytes@.take(end as int),
                parse_records(data@, header.header_size as int, empty_table(), Seq::empty())
                    == parse_records(data@, p as int, table@, record_models(records@)),
            decreases data@.len() - p,
        {
            match Record::decode(data, p, &table) {
                Err(x) => {
                    assert(parse_records(data@, p as int, table@, record_models(records@)) == Err::<(Seq<RecordModel>, int), Error>(x));
                    return Err(x);
                },
                Ok((rec, q)) => {
                    let ghost tb = table@;
                    proof {
                        lemma_local_below_16(data@[p as int]);
                    }
                    match &rec.content {
                        Message::Definition(d) => {
                            table.insert(rec.header.local_mesg_num(), d.duplicate());
                        },
                        _ => {},
                    }
                    assert(table@ == next_table(tb, rec@));
                    let ghost old_records = records@;
                    records.push(rec);
                    assert(record_models(records@) =~= record_models(old_records).push(rec@));
                    p = q;
                },
            }
        }
        let tail = slice_subrange(bytes, end, end + 2);
        assert(tail@.take(2) =~= bytes@.subrange(end as int, end + 2));
        let stored = read_u16(tail, Endian::Little);
        let computed = crc(data);
        if stored != computed {
            return Err(Error::BadCrc { expected: stored, actual: computed });
        }
        Ok(File { header, records })
    }
}

/// Every header byte names a local slot below 16.
proof fn lemma_local_below_16(byte: u8)
    ensures
        Header::from_byte(byte).local() < 16,
{
    assert(byte & 0x0Fu8 < 16 && (byte >> 5u8) & 0x03u8 < 16) by (bit_vector);
}

/// Whether `r` is a definition record on local slot `n`.
pub open spec fn is_definition_on(r: RecordModel, n: u8) -> bool {
    r.content is Definition && r.header.local() == n
}

/// Whether `r` is laid out by a definition: a data record, plain or behind a
/// compressed-timestamp header.
pub open spec fn needs_definition(r: RecordModel) -> bool {
    !(r.content is Definition)
}

/// The last definition that `rs` puts on slot `n`.
pub open spec fn last_definition(rs: Seq<RecordModel>, n: u8) -> Option<DefinitionModel>
    decreases rs.len(),
{
    if rs.len() == 0 {
        None
    } else if is_definition_on(rs.last(), n) {
        match rs.last().content {
            ContentModel::Definition(d) => Some(d),
            _ => None,
        }
    } else {
        last_definition(rs.drop_last(), n)
    }
}

spec fn table_tracks(table: Seq<Option<DefinitionModel>>, acc: Seq<RecordModel>) -> bool {
    &&& table.len() == 16
    &&& forall|n: u8| n < 16 ==> table[n as int] == last_definition(acc, n)
}

spec fn all_preceded(acc: Seq<RecordModel>) -> bool {
    forall|i: int|
        0 <= i < acc.len() && needs_definition(#[trigger] acc[i]) ==> last_definition(acc.take(i), acc[i].header.local()) is Some
}

proof fn lemma_records_preceded(b: Seq<u8>, p: int, table: Seq<Option<DefinitionModel>>, acc: Seq<RecordModel>)
    requires
        table_tracks(table, acc),
        all_preceded(acc),
        parse_records(b, p, table, acc) is Ok,
    ensures
        all_preceded(parse_records(b, p, table, acc)->Ok_0.0),
    decreases b.len() - p,
{
    if p < b.len() {
        let (r, q) = parse_record(b, p, table)->Ok_0;
        lemma_local_below_16(b[p]);
        assert(r.header == Header::from_byte(b[p]));
        let acc2 = acc.push(r);
        let t2 = next_table(table, r);
        assert(acc2.drop_last() =~= acc);
        assert forall|n: u8| n < 16 implies t2[n as int] == last_definition(acc2, n) by {
            assert(acc2.last() == r);
        }
        assert forall|i: int| 0 <= i < acc2.len() && needs_definition(#[trigger] acc2[i]) implies last_definition(
            acc2.take(i),
            acc2[i].header.local(),
        ) is Some by {
            if i < acc.len() {
                assert(acc2.take(i) =~= acc.take(i));
            } else {
                assert(acc2.take(i) =~= acc);
            }
        }
        if q > p && q <= b.len() {
            lemma_records_preceded(b, q, t2, acc2);
        }
    }
}

proof fn lemma_last_definition_witness(rs: Seq<RecordModel>, n: u8)
    requires
        last_definition(rs, n) is Some,
    ensures
        exists|j: int|
            0 <= j < rs.len() && is_definition_on(rs[j], n) && forall|k: int| j < k < rs.len() ==> !is_definition_on(
                #[trigger] rs[k],
                n,
            ),
    decreases rs.len(),
{
    if is_definition_on(rs.last(), n) {
        assert(is_definition_on(rs[rs.len() - 1], n));
    } else {
        let front = rs.drop_last();
        lemma_last_definition_witness(front, n);
        let j = choose|j: int|
            0 <= j < front.len() && is_definition_on(front[j], n) && forall|k: int| j < k < front.len() ==> !is_definition_on(
                #[trigger] front[k],
                n,
            );
        assert(rs[j] == front[j]);
        assert forall|k: int| j < k < rs.len() implies !is_definition_on(#[trigger] rs[k], n) by {
            if k < front.len() {
                assert(rs[k] == front[k]);
            }
        }
    }
}

/// Every data record of a decoded file, plain or behind a compressed
/// timestamp header, comes after a definition record on its local slot, with
/// no other definition on that slot in between.
pub proof fn lemma_data_follows_definition(b: Seq<u8>, i: int)
    requires
        parse_file(b) is Ok,
        0 <= i < parse_file(b)->Ok_0.records.len(),
        needs_definition(parse_file(b)->Ok_0.records[i]),
    ensures
        ({
            let rs = parse_file(b)->Ok_0.records;
            exists|j: int|
                0 <= j < i && is_definition_on(rs[j], rs[i].header.local()) && forall|k: int|
                    j < k < i ==> !is_definition_on(#[trigger] rs[k], rs[i].header.local())
        }),
{
    let h = parse_header(b)->Ok_0;
    let data = b.take(data_end(h));
    let rs = parse_file(b)->Ok_0.records;
    assert(table_tracks(empty_table(), Seq::empty()));
    lemma_records_preceded(data, h.header_size as int, empty_table(), Seq::empty());
    assert(needs_definition(rs[i]));
    let n = rs[i].header.local();
    let front = rs.take(i);
    lemma_last_definition_witness(front, n);
    let j = choose|j: int|
        0 <= j < front.len() && is_definition_on(front[j], n) && forall|k: int| j < k < front.len() ==> !is_definition_on(
            #[trigger] front[k],
            n,
        );
    assert(rs[j] == front[j]);
    assert forall|k: int| j < k < i implies !is_definition_on(#[trigger] rs[k], n) by {
        assert(rs[k] == front[k]);
    }
}

proof fn lemma_records_reach_end(b: Seq<u8>, p: int, table: Seq<Option<DefinitionModel>>, acc: Seq<RecordModel>)
    requires
        p <= b.len(),
        parse_records(b, p, table, acc) is Ok,
    ensures
        parse_records(b, p, table, acc)->Ok_0.1 == b.len(),
    decreases b.len() - p,
{
    if p < b.len() {
        let (r, q) = parse_record(b, p, table)->Ok_0;
        if q > p && q <= b.len() {
            lemma_records_reach_end(b, q, next_table(table, r), acc.push(r));
        }
    }
}

/// The records of a decoded file take up exactly the `data_size` bytes that
/// its header announces.
pub proof fn lemma_payload_consumed(b: Seq<u8>)
    requires
        parse_file(b) is Ok,
    ensures
        ({
            let h = parse_file(b)->Ok_0.header;
            let run = parse_records(b.take(data_end(h)), h.header_size as int, empty_table(), Seq::empty());
            run is Ok && run->Ok_0.1 - h.header_size == h.data_size
        }),
{
    let h = parse_header(b)->Ok_0;
    lemma_records_reach_end(b.take(data_end(h)), h.header_size as int, empty_table(), Seq::empty());
}

/// The trailing CRC of a decoded file equals the CRC of every byte before it,
/// header and records; a 14-byte header's non-zero CRC equals the CRC of its
/// first 12 bytes.
pub proof fn lemma_crc_checked(b: Seq<u8>)
    requires
        parse_file(b) is Ok,
    ensures
        ({
            let h = parse_file(b)->Ok_0.header;
            &&& stored_file_crc(b, data_end(h)) == crc_of(b.take(data_end(h)))
            &&& h.crc matches Some(c) ==> (c == 0 || c == crc_of(b.take(12)))
        }),
{
}

/// Decoding is a function of the bytes: equal inputs give equal files, so
/// decoding the same bytes again yields the same records.
pub proof fn lemma_decode_deterministic(b1: Seq<u8>, b2: Seq<u8>)
    requires
        b1 == b2,
    ensures
        parse_file(b1) == parse_file(b2),
{
}

/// Both header sizes are accepted: a 12-byte header, and a 14-byte one whose
/// CRC is zero or matches, both decode when the signature is in place.
pub proof fn lemma_header_sizes(b: Seq<u8>)
    requires
        b.len() >= 14,
        b[0] == 12 || b[0] == 14,
        has_signature(b),
        b[0] == 14 ==> stored_header_crc(b) == 0 || stored_header_crc(b) == crc_of(b.take(12)),
    ensures
        parse_header(b) is Ok,
        parse_header(b)->Ok_0.header_size == b[0],
        parse_header(b)->Ok_0.crc is Some <==> b[0] == 14,
{
}

} // verus!
