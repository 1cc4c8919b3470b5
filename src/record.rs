//! The record layer: record headers, definition records, data records and
//! compressed-timestamp records, each decoded from a byte slice at a position
//! and stated against a model of the wire format.
use vstd::prelude::*;
use vstd::slice::{slice_subrange, slice_to_vec};
use crate::base::{Endian, read_u16, uint_of};
use crate::bits::{bit_range, is_bit_not_set, is_bit_set, low_mask};
use crate::error::Error;
use crate::messages::{Message as ProfileMessage, MessageModel, decode_message_spec, developer_message};

verus! {

/// A record header: the first byte of every record.
#[derive(Debug, Clone, Copy, PartialEq, Eq, Structural)]
pub enum Header {
    Definition { local_mesg_num: u8, has_dev_fields: bool },
    Data { local_mesg_num: u8 },
    /// `time_offset` is in seconds.
    CompressedTimestamp { local_mesg_num: u8, time_offset: u8 },
}

impl Header {
    /// The header that `byte` encodes. Bit 7 clear: a normal header, whose
    /// bit 6 tells a definition from a data record, bit 5 flags developer
    /// fields and bits 3..0 give the local message number. Bit 7 set: a
    /// compressed-timestamp header with the local message number in bits 6..5
    /// and the time offset in bits 4..0.
    pub open spec fn from_byte(byte: u8) -> Header {
        if byte & 0x80 == 0 {
            if byte & 0x40 != 0 {
                Header::Definition { local_mesg_num: byte & 0x0F, has_dev_fields: byte & 0x20 != 0 }
            } else {
                Header::Data { local_mesg_num: byte & 0x0F }
            }
        } else {
            Header::CompressedTimestamp { local_mesg_num: (byte >> 5u8) & 0x03, time_offset: byte & 0x1F }
        }
    }

    pub open spec fn local(self) -> u8 {
        match self {
            Header::Definition { local_mesg_num, .. } => local_mesg_num,
            Header::Data { local_mesg_num } => local_mesg_num,
            Header::CompressedTimestamp { local_mesg_num, .. } => local_mesg_num,
        }
    }

    /// Decodes a record header byte.
    pub fn decode(byte: u8) -> (r: Header)
        ensures
            r == Self::from_byte(byte),
            r.local() < 16,
    {
        assert(((byte >> 7u8) & 1u8 == 0) == (byte & 0x80u8 == 0)) by (bit_vector);
        assert(((byte >> 6u8) & 1u8 == 1) == (byte & 0x40u8 != 0)) by (bit_vector);
        assert(((byte >> 5u8) & 1u8 == 1) == (byte & 0x20u8 != 0)) by (bit_vector);
        assert(low_mask(4) == 0x0F && low_mask(2) == 0x03 && low_mask(5) == 0x1F) by (bit_vector);
        assert((byte >> 0u8) == byte) by (bit_vector);
        assert(byte & 0x0Fu8 < 16 && (byte >> 5u8) & 0x03u8 < 16) by (bit_vector);
        if is_bit_not_set(byte, 7) {
            if is_bit_set(byte, 6) {
                Header::Definition { local_mesg_num: bit_range(byte, 0, 3), has_dev_fields: is_bit_set(byte, 5) }
            } else {
                Header::Data { local_mesg_num: bit_range(byte, 0, 3) }
            }
        } else {
            Header::CompressedTimestamp { local_mesg_num: bit_range(byte, 5, 6), time_offset: bit_range(byte, 0, 4) }
        }
    }

    /// The local message number, common to all header kinds.
    pub fn local_mesg_num(&self) -> (r: u8)
        ensures
            r == self.local(),
    {
        match self {
            Header::Definition { local_mesg_num, .. } => *local_mesg_num,
            Header::Data { local_mesg_num } => *local_mesg_num,
            Header::CompressedTimestamp { local_mesg_num, .. } => *local_mesg_num,
        }
    }
}

/// Byte order of a definition and of the data records that it governs.
#[derive(Debug, Clone, Copy, PartialEq, Eq, Structural)]
pub enum Architecture {
    LittleEndian,
    BigEndian,
}

impl Architecture {
    /// The architecture that byte `n` names: 0 little-endian, 1 big-endian.
    pub open spec fn from_byte(n: u8) -> Result<Architecture, Error> {
        if n == 0 {
            Ok(Architecture::LittleEndian)
        } else if n == 1 {
            Ok(Architecture::BigEndian)
        } else {
            Err(Error::UnknownArchitecture(n))
        }
    }

    pub open spec fn endian(self) -> Endian {
        match self {
            Architecture::LittleEndian => Endian::Little,
            Architecture::BigEndian => Endian::Big,
        }
    }

    pub fn try_from(n: u8) -> (r: Result<Architecture, Error>)
        ensures
            r == Self::from_byte(n),
    {
        if n == 0 {
            Ok(Architecture::LittleEndian)
        } else if n == 1 {
            Ok(Architecture::BigEndian)
        } else {
            Err(Error::UnknownArchitecture(n))
        }
    }

    pub fn byte_order(&self) -> (r: Endian)
        ensures
            r == self.endian(),
    {
        match self {
            Architecture::LittleEndian => Endian::Little,
            Architecture::BigEndian => Endian::Big,
        }
    }
}

/// One field definition: field number, size in bytes, and base type id. For
/// a developer field the third byte is the developer data index instead.
#[derive(Debug, Clone, Copy, PartialEq, Eq, Structural)]
pub struct FieldDefinition {
    pub num: u8,
    pub size: u8,
    pub base_type_num: u8,
}

/// The field definition stored at position `p` of `b`.
pub open spec fn field_def_at(b: Seq<u8>, p: int) -> FieldDefinition {
    FieldDefinition { num: b[p], size: b[p + 1], base_type_num: b[p + 2] }
}

/// The `n` field definitions stored from position `p` of `b`, three bytes each.
pub open spec fn field_defs_at(b: Seq<u8>, p: int, n: nat) -> Seq<FieldDefinition> {
    Seq::new(n, |i: int| field_def_at(b, p + 3 * i))
}

impl FieldDefinition {
    /// Decodes the three bytes of a field definition at `pos`.
    pub fn decode(bytes: &[u8], pos: usize) -> (r: Result<(FieldDefinition, usize), Error>)
        ensures
            match r {
                Ok((d, q)) => pos + 3 <= bytes@.len() && d == field_def_at(bytes@, pos as int) && q == pos + 3,
                Err(x) => pos + 3 > bytes@.len() && x == Error::UnexpectedEof,
            },
    {
        if pos > bytes.len() || bytes.len() - pos < 3 {
            return Err(Error::UnexpectedEof);
        }
        Ok((FieldDefinition { num: bytes[pos], size: bytes[pos + 1], base_type_num: bytes[pos + 2] }, pos + 3))
    }
}

/// Reads `n` field definitions from `pos`, which the caller knows to be in bounds.
fn read_field_defs(bytes: &[u8], pos: usize, n: u8) -> (r: Vec<FieldDefinition>)
    requires
        pos + 3 * n <= bytes@.len(),
    ensures
        r@ == field_defs_at(bytes@, pos as int, n as nat),
{
    let mut defs: Vec<FieldDefinition> = Vec::new();
    let mut i: u8 = 0;
    let mut p: usize = pos;
    while i < n
        invariant
            i <= n,
            p == pos + 3 * i,
            pos + 3 * n <= bytes@.len(),
            defs@ == field_defs_at(bytes@, pos as int, i as nat),
        decreases n - i,
    {
        match FieldDefinition::decode(bytes, p) {
            Ok((d, q)) => {
                defs.push(d);
                assert(defs@ =~= field_defs_at(bytes@, pos as int, (i + 1) as nat));
                p = q;
            },
            Err(_) => {
                assert(false);
            },
        }
        i = i + 1;
    }
    defs
}

/// A definition record: the layout of the data records on its local slot.
#[derive(Debug, Clone)]
pub struct Definition {
    pub arch: Architecture,
    pub global_mesg_num: u16,
    pub field_defs: Vec<FieldDefinition>,
    pub devfield_defs: Option<Vec<FieldDefinition>>,
}

/// The content of a [`Definition`].
pub struct DefinitionModel {
    pub arch: Architecture,
    pub global_mesg_num: u16,
    pub field_defs: Seq<FieldDefinition>,
    pub devfield_defs: Option<Seq<FieldDefinition>>,
}

impl View for Definition {
    type V = DefinitionModel;

    open spec fn view(&self) -> DefinitionModel {
        DefinitionModel {
            arch: self.arch,
            global_mesg_num: self.global_mesg_num,
            field_defs: self.field_defs@,
            devfield_defs: match &self.devfield_defs {
                Some(v) => Some(v@),
                None => None,
            },
        }
    }
}

/// What the definition record body at `p` of `b` decodes to, with the
/// position just after it: a reserved byte, the architecture byte, the
/// global message number in that byte order, a count `n` and `n` field
/// definitions; when `dev` is set, a second count and as many developer
/// field definitions.
pub open spec fn parse_definition(b: Seq<u8>, p: int, dev: bool) -> Result<(DefinitionModel, int), Error> {
    if p + 2 > b.len() {
        Err(Error::UnexpectedEof)
    } else {
        match Architecture::from_byte(b[p + 1]) {
            Err(x) => Err(x),
            Ok(arch) => if p + 5 > b.len() {
                Err(Error::UnexpectedEof)
            } else {
                let g = uint_of(b.subrange(p + 2, p + 4), arch.endian()) as u16;
                let n = b[p + 4];
                let q = p + 5 + 3 * n;
                if q > b.len() {
                    Err(Error::UnexpectedEof)
                } else if !dev {
                    Ok((DefinitionModel { arch, global_mesg_num: g, field_defs: field_defs_at(b, p + 5, n as nat), devfield_defs: None }, q))
                } else if q + 1 > b.len() {
                    Err(Error::UnexpectedEof)
                } else {
                    let m = b[q];
                    let q2 = q + 1 + 3 * m;
                    if q2 > b.len() {
                        Err(Error::UnexpectedEof)
                    } else {
                        Ok(
                            (
                                DefinitionModel {
                                    arch,
                                    global_mesg_num: g,
                                    field_defs: field_defs_at(b, p + 5, n as nat),
                                    devfield_defs: Some(field_defs_at(b, q + 1, m as nat)),
                                },
                                q2,
                            ),
                        )
                    }
                }
            },
        }
    }
}

impl Definition {
    /// Decodes a definition record body starting at `pos`.
    pub fn decode(bytes: &[u8], pos: usize, has_dev_fields: bool) -> (r: Result<(Definition, usize), Error>)
        requires
            pos <= bytes@.len(),
        ensures
            match r {
                Ok((d, q)) => pos < q <= bytes@.len() && parse_definition(bytes@, pos as int, has_dev_fields)
                    == Ok::<(DefinitionModel, int), Error>((d@, q as int)),
                Err(x) => parse_definition(bytes@, pos as int, has_dev_fields) == Err::<(DefinitionModel, int), Error>(x),
            },
    {
        let len = bytes.len();
        if len - pos < 2 {
            return Err(Error::UnexpectedEof);
        }
        let arch = match Architecture::try_from(bytes[pos + 1]) {
            Ok(a) => a,
            Err(x) => {
                return Err(x);
            },
        };
        if len - pos < 5 {
            return Err(Error::UnexpectedEof);
        }
        let num_bytes = slice_subrange(bytes, pos + 2, pos + 4);
        assert(num_bytes@.take(2) =~= bytes@.subrange(pos + 2, pos + 4));
        let global_mesg_num = read_u16(num_bytes, arch.byte_order());
        let n = bytes[pos + 4];
        if len - (pos + 5) < 3 * (n as usize) {
            return Err(Error::UnexpectedEof);
        }
        let field_defs = read_field_defs(bytes, pos + 5, n);
        let q = pos + 5 + 3 * (n as usize);
        if !has_dev_fields {
            return Ok((Definition { arch, global_mesg_num, field_defs, devfield_defs: None }, q));
        }
        if len - q < 1 {
            return Err(Error::UnexpectedEof);
        }
        let m = bytes[q];
        if len - (q + 1) < 3 * (m as usize) {
            return Err(Error::UnexpectedEof);
        }
        let devfield_defs = read_field_defs(bytes, q + 1, m);
        Ok((Definition { arch, global_mesg_num, field_defs, devfield_defs: Some(devfield_defs) }, q + 1 + 3 * (m as usize)))
    }

    /// A copy with the same content.
    pub fn duplicate(&self) -> (r: Definition)
        ensures
            r@ == self@,
    {
        let devfield_defs = match &self.devfield_defs {
            Some(v) => Some(slice_to_vec(v.as_slice())),
            None => None,
        };
        Definition {
            arch: self.arch,
            global_mesg_num: self.global_mesg_num,
            field_defs: slice_to_vec(self.field_defs.as_slice()),
            devfield_defs,
        }
    }
}

/// The message that the field run of definition `d` at `[p, p + d.size)`
/// decodes to: through the profile for a regular field, as raw bytes with
/// its developer data index for a developer field.
pub open spec fn field_message(b: Seq<u8>, p: int, d: FieldDefinition, mesg_num: u16, e: Endian, dev: bool) -> Result<MessageModel, Error> {
    let run = b.subrange(p, p + d.size);
    if dev {
        Ok(developer_message(mesg_num, d.base_type_num, d.num, run))
    } else {
        decode_message_spec(run, mesg_num, d.num, e)
    }
}

/// The messages that the runs of field definitions `defs`, read in order from
/// position `p` of `b`, decode to, with the position after the last run.
/// Each run is exactly the size its definition declares.
pub open spec fn parse_fields(b: Seq<u8>, p: int, defs: Seq<FieldDefinition>, mesg_num: u16, e: Endian, dev: bool) -> Result<(Seq<MessageModel>, int), Error>
    decreases defs.len(),
{
    if defs.len() == 0 {
        Ok((Seq::empty(), p))
    } else {
        match parse_fields(b, p, defs.drop_last(), mesg_num, e, dev) {
            Err(x) => Err(x),
            Ok((ms, q)) => {
                let d = defs.last();
                if q + d.size > b.len() {
                    Err(Error::UnexpectedEof)
                } else {
                    match field_message(b, q, d, mesg_num, e, dev) {
                        Ok(m) => Ok((ms.push(m), q + d.size)),
                        Err(x) => Err(x),
                    }
                }
            },
        }
    }
}

proof fn lemma_parse_fields_err(b: Seq<u8>, p: int, defs: Seq<FieldDefinition>, mesg_num: u16, e: Endian, dev: bool, k: int)
    requires
        0 <= k <= defs.len(),
        parse_fields(b, p, defs.take(k), mesg_num, e, dev) is Err,
    ensures
        parse_fields(b, p, defs, mesg_num, e, dev) == parse_fields(b, p, defs.take(k), mesg_num, e, dev),
    decreases defs.len(),
{
    if defs.len() == k {
        assert(defs.take(k) =~= defs);
    } else {
        assert(defs.drop_last().take(k) =~= defs.take(k));
        lemma_parse_fields_err(b, p, defs.drop_last(), mesg_num, e, dev, k);
    }
}

/// The models of a list of profile messages.
pub open spec fn models(ms: Seq<ProfileMessage>) -> Seq<MessageModel> {
    ms.map_values(|m: ProfileMessage| m.model())
}

/// Decodes the field runs of `defs` from `pos`, each into one message.
fn decode_fields(bytes: &[u8], pos: usize, defs: &Vec<FieldDefinition>, mesg_num: u16, e: Endian, dev: bool) -> (r: Result<(Vec<ProfileMessage>, usize), Error>)
    requires
        pos <= bytes@.len(),
    ensures
        match r {
            Ok((ms, q)) => pos <= q <= bytes@.len() && parse_fields(bytes@, pos as int, defs@, mesg_num, e, dev)
                == Ok::<(Seq<MessageModel>, int), Error>((models(ms@), q as int)),
            Err(x) => parse_fields(bytes@, pos as int, defs@, mesg_num, e, dev) == Err::<(Seq<MessageModel>, int), Error>(x),
        },
{
    let mut ms: Vec<ProfileMessage> = Vec::new();
    let mut p: usize = pos;
    let mut i: usize = 0;
    assert(defs@.take(0) =~= Seq::<FieldDefinition>::empty());
    assert(models(ms@) =~= Seq::<MessageModel>::empty());
    while i < defs.len()
        invariant
            0 <= i <= defs@.len(),
            pos <= p <= bytes@.len(),
            parse_fields(bytes@, pos as int, defs@.take(i as int), mesg_num, e, dev) == Ok::<(Seq<MessageModel>, int), Error>((models(ms@), p as int)),
        decreases defs@.len() - i,
    {
        let d = defs[i];
        assert(defs@.take(i + 1).drop_last() =~= defs@.take(i as int));
        assert(defs@.take(i + 1).last() == d);
        if bytes.len() - p < d.size as usize {
            proof {
                lemma_parse_fields_err(bytes@, pos as int, defs@, mesg_num, e, dev, i + 1);
            }
            return Err(Error::UnexpectedEof);
        }
        let run = slice_subrange(bytes, p, p + d.size as usize);
        let m = if dev {
            ProfileMessage::UnknownDeveloperField {
                data: slice_to_vec(run),
                mesg_num,
                developer_data_index: d.base_type_num,
                field_def_num: d.num,
            }
        } else {
            match ProfileMessage::decode(run, mesg_num, d.num, e) {
                Ok(m) => m,
                Err(x) => {
                    proof {
                        lemma_parse_fields_err(bytes@, pos as int, defs@, mesg_num, e, dev, i + 1);
                    }
                    return Err(x);
                },
            }
        };
        assert(field_message(bytes@, p as int, d, mesg_num, e, dev) == Ok::<MessageModel, Error>(m.model()));
        let ghost old_ms = ms@;
        ms.push(m);
        assert(models(ms@) =~= models(old_ms).push(m.model()));
        p = p + d.size as usize;
        i = i + 1;
    }
    assert(defs@.take(i as int) =~= defs@);
    Ok((ms, p))
}

/// A data record: one message per field run, developer fields last.
#[derive(Debug, Clone)]
pub struct Data(pub Vec<ProfileMessage>);

/// What the data record body at `p` of `b` decodes to under definition `d`,
/// with the position after it. Multi-byte values are read in the byte order
/// of `d` alone.
pub open spec fn parse_data(b: Seq<u8>, p: int, d: DefinitionModel) -> Result<(Seq<MessageModel>, int), Error> {
    let e = d.arch.endian();
    match parse_fields(b, p, d.field_defs, d.global_mesg_num, e, false) {
        Err(x) => Err(x),
        Ok((ms, q)) => match d.devfield_defs {
            None => Ok((ms, q)),
            Some(dd) => match parse_fields(b, q, dd, d.global_mesg_num, e, true) {
                Ok((ds, q2)) => Ok((ms + ds, q2)),
                Err(x) => Err(x),
            },
        },
    }
}

impl Data {
    /// Decodes a data record body at `pos` with the layout of `definition`.
    pub fn decode(bytes: &[u8], pos: usize, definition: &Definition) -> (r: Result<(Data, usize), Error>)
        requires
            pos <= bytes@.len(),
        ensures
            match r {
                Ok((d, q)) => pos <= q <= bytes@.len() && parse_data(bytes@, pos as int, definition@)
                    == Ok::<(Seq<MessageModel>, int), Error>((models(d.0@), q as int)),
                Err(x) => parse_data(bytes@, pos as int, definition@) == Err::<(Seq<MessageModel>, int), Error>(x),
            },
    {
        let e = definition.arch.byte_order();
        let (mut ms, q) = match decode_fields(bytes, pos, &definition.field_defs, definition.global_mesg_num, e, false) {
            Ok(x) => x,
            Err(x) => {
                return Err(x);
            },
        };
        match &definition.devfield_defs {
            None => Ok((Data(ms), q)),
            Some(dd) => {
                match decode_fields(bytes, q, dd, definition.global_mesg_num, e, true) {
                    Ok((mut ds, q2)) => {
                        let ghost a = ms@;
                        let ghost b = ds@;
                        ms.append(&mut ds);
                        assert(models(ms@) =~= models(a) + models(b));
                        Ok((Data(ms), q2))
                    },
                    Err(x) => Err(x),
                }
            },
        }
    }
}

/// What a record holds after its header.
#[derive(Debug, Clone)]
pub enum Message {
    Definition(Definition),
    Data(Data),
    /// The data record that follows a compressed-timestamp header, laid out by
    /// the definition on the header's local slot.
    CompressedTimestamp(Data),
}

/// The content of a record's [`Message`].
pub enum ContentModel {
    Definition(DefinitionModel),
    Data(Seq<MessageModel>),
    CompressedTimestamp(Seq<MessageModel>),
}

/// One record of a FIT file: its header and what follows it.
#[derive(Debug, Clone)]
pub struct Record {
    pub header: Header,
    pub content: Message,
}

/// The content of a [`Record`].
pub struct RecordModel {
    pub header: Header,
    pub content: ContentModel,
}

impl View for Record {
    type V = RecordModel;

    open spec fn view(&self) -> RecordModel {
        RecordModel {
            header: self.header,
            content: match &self.content {
                Message::Definition(d) => ContentModel::Definition(d@),
                Message::Data(d) => ContentModel::Data(models(d.0@)),
                Message::CompressedTimestamp(d) => ContentModel::CompressedTimestamp(models(d.0@)),
            },
        }
    }
}

/// The definitions in force, one slot for each local message number 0..15.
pub struct LocalDefinitions {
    pub slots: Vec<Option<Definition>>,
}

/// The model of one slot.
pub open spec fn slot_model(o: Option<Definition>) -> Option<DefinitionModel> {
    match o {
        Some(d) => Some(d@),
        None => None,
    }
}

impl View for LocalDefinitions {
    type V = Seq<Option<DefinitionModel>>;

    open spec fn view(&self) -> Seq<Option<DefinitionModel>> {
        self.slots@.map_values(|o: Option<Definition>| slot_model(o))
    }
}

/// The table of a stream that has not defined anything yet.
pub open spec fn empty_table() -> Seq<Option<DefinitionModel>> {
    Seq::new(16, |i: int| None)
}

impl LocalDefinitions {
    pub open spec fn wf(&self) -> bool {
        self.slots@.len() == 16
    }

    /// A table with every slot empty.
    pub fn new() -> (r: LocalDefinitions)
        ensures
            r.wf(),
            r@ == empty_table(),
    {
        let mut slots: Vec<Option<Definition>> = Vec::new();
        let mut i: usize = 0;
        while i < 16
            invariant
                i <= 16,
                slots@.len() == i,
                forall|j: int| 0 <= j < i ==> slots@[j] is None,
            decreases 16 - i,
        {
            slots.push(None);
            i = i + 1;
        }
        let r = LocalDefinitions { slots };
        assert(r@ =~= empty_table());
        r
    }

    /// Puts `d` on slot `local`, replacing what was there; other slots keep theirs.
    pub fn insert(&mut self, local: u8, d: Definition)
        requires
            old(self).wf(),
            local < 16,
        ensures
            final(self).wf(),
            final(self)@ == old(self)@.update(local as int, Some(d@)),
    {
        let ghost dm = d@;
        self.slots.set(local as usize, Some(d));
        assert(self@ =~= old(self)@.update(local as int, Some(dm)));
    }
}

/// What the record at position `p` of `b` decodes to, given the definitions
/// `table` in force, with the position after it.
pub open spec fn parse_record(b: Seq<u8>, p: int, table: Seq<Option<DefinitionModel>>) -> Result<(RecordModel, int), Error> {
    if p >= b.len() {
        Err(Error::UnexpectedEof)
    } else {
        let h = Header::from_byte(b[p]);
        match h {
            Header::Definition { local_mesg_num, has_dev_fields } => match parse_definition(b, p + 1, has_dev_fields) {
                Ok((d, q)) => Ok((RecordModel { header: h, content: ContentModel::Definition(d) }, q)),
                Err(x) => Err(x),
            },
            Header::Data { local_mesg_num } => match table[local_mesg_num as int] {
                None => Err(Error::MissingDefinition(local_mesg_num)),
                Some(d) => match parse_data(b, p + 1, d) {
                    Ok((ms, q)) => Ok((RecordModel { header: h, content: ContentModel::Data(ms) }, q)),
                    Err(x) => Err(x),
                },
            },
            Header::CompressedTimestamp { local_mesg_num, .. } => match table[local_mesg_num as int] {
                None => Err(Error::MissingDefinition(local_mesg_num)),
                Some(d) => match parse_data(b, p + 1, d) {
                    Ok((ms, q)) => Ok((RecordModel { header: h, content: ContentModel::CompressedTimestamp(ms) }, q)),
                    Err(x) => Err(x),
                },
            },
        }
    }
}

/// The definitions in force after record `r`.
pub open spec fn next_table(table: Seq<Option<DefinitionModel>>, r: RecordModel) -> Seq<Option<DefinitionModel>> {
    match r.content {
        ContentModel::Definition(d) => table.update(r.header.local() as int, Some(d)),
        _ => table,
    }
}

impl Record {
    /// Decodes the record at `pos`: its header, then a definition, or a data
    /// record laid out by the definition on the header's local slot.
    pub fn decode(bytes: &[u8], pos: usize, local_mesgs: &LocalDefinitions) -> (r: Result<(Record, usize), Error>)
        requires
            pos <= bytes@.len(),
            local_mesgs.wf(),
        ensures
            match r {
                Ok((rec, q)) => pos < q <= bytes@.len() && parse_record(bytes@, pos as int, local_mesgs@)
                    == Ok::<(RecordModel, int), Error>((rec@, q as int)),
                Err(x) => parse_record(bytes@, pos as int, local_mesgs@) == Err::<(RecordModel, int), Error>(x),
            },
    {
        if pos >= bytes.len() {
            return Err(Error::UnexpectedEof);
        }
        let header = Header::decode(bytes[pos]);
        match header {
            Header::Definition { local_mesg_num: _, has_dev_fields } => match Definition::decode(bytes, pos + 1, has_dev_fields) {
                Ok((d, q)) => Ok((Record { header, content: Message::Definition(d) }, q)),
                Err(x) => Err(x),
            },
            Header::Data { local_mesg_num } => {
                let slot = &local_mesgs.slots[local_mesg_num as usize];
                assert(local_mesgs@[local_mesg_num as int] == slot_model(*slot));
                match slot {
                    None => Err(Error::MissingDefinition(local_mesg_num)),
                    Some(definition) => match Data::decode(bytes, pos + 1, definition) {
                        Ok((d, q)) => Ok((Record { header, content: Message::Data(d) }, q)),
                        Err(x) => Err(x),
                    },
                }
            },
            Header::CompressedTimestamp { local_mesg_num, .. } => {
                let slot = &local_mesgs.slots[local_mesg_num as usize];
                assert(local_mesgs@[local_mesg_num as int] == slot_model(*slot));
                match slot {
                    None => Err(Error::MissingDefinition(local_mesg_num)),
                    Some(definition) => match Data::decode(bytes, pos + 1, definition) {
                        Ok((d, q)) => Ok((Record { header, content: Message::CompressedTimestamp(d) }, q)),
                        Err(x) => Err(x),
                    },
                }
            },
        }
    }
}

} // verus!
