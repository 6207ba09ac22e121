//! Programs, and the binary format they are read from and written to.
use crate::instruction::{
    fits_shape, lemma_operand_fits, shape, shape_of, with_bool, with_byte, with_float, with_int,
    with_text, with_uint, plain, Instruction, Operand, Shape,
};
use crate::opcodes::OP_LABEL;
use crate::table::{find_key, key_index, keyed, str_eq, unique_keys};
use crate::parser::{assemble, parse, AsmError};
use crate::text::{append, utf8_string};
use vstd::bytes::{
    lemma_auto_spec_u32_to_from_le_bytes, lemma_auto_spec_u64_to_from_le_bytes,
    spec_u32_from_le_bytes, spec_u32_to_le_bytes, spec_u64_from_le_bytes, spec_u64_to_le_bytes,
    u32_from_le_bytes, u32_to_le_bytes, u64_from_le_bytes, u64_to_le_bytes,
};
use vstd::prelude::*;
use vstd::slice::{slice_subrange, slice_to_vec};
use vstd::utf8::{
    decode_utf8, decode_utf8_encode_utf8, encode_utf8, encode_utf8_decode_utf8, encode_utf8_valid_utf8,
    valid_utf8,
};

verus! {

/// A decoded program: a dense sequence of instructions and a label table.
///
/// Each label maps a name to the address of the instruction that follows it;
/// an address equal to the number of instructions denotes the end.
#[derive(Debug, Clone)]
pub struct Program {
    pub instructions: Vec<Instruction>,
    pub labels: Vec<(String, usize)>,
}

/// What a program records: each instruction's opcode and operand, and the
/// label table with its names as character sequences.
pub struct Listing {
    pub code: Seq<(u8, Operand)>,
    pub labels: Seq<(Seq<char>, usize)>,
}

impl View for Program {
    type V = Listing;

    open spec fn view(&self) -> Listing {
        Listing {
            code: self.instructions@.map_values(|i: Instruction| i.model()),
            labels: keyed(self.labels@),
        }
    }
}

/// Why a byte buffer is not a program. `offset` is where the failing item's
/// opcode stands.
#[derive(Debug, Clone, Copy, PartialEq, Eq, Structural)]
pub enum DecodeError {
    /// A byte that is no opcode.
    UnknownOpcode { offset: usize, opcode: u8 },
    /// The buffer ends inside an item.
    Truncated { offset: usize },
    /// A string immediate is not valid UTF-8.
    InvalidUtf8 { offset: usize },
}

/// Why source text does not give a program.
#[derive(Debug, Clone, Copy, PartialEq, Eq, Structural)]
pub enum SourceError {
    /// The text does not assemble.
    Asm(AsmError),
    /// The assembled bytes do not decode.
    Decode(DecodeError),
}

/// One item of the binary format.
pub enum Item {
    /// An instruction, by opcode and operand.
    Op(u8, Operand),
    /// A label binding.
    Label(Seq<char>),
}

/// The little-endian `u64` at `at`.
pub open spec fn word_at(b: Seq<u8>, at: int) -> u64 {
    spec_u64_from_le_bytes(b.subrange(at, at + 8))
}

/// The text of `n` bytes at `at`, and the position after it.
pub open spec fn text_at(b: Seq<u8>, at: int, n: int, offset: usize) -> Result<(Seq<char>, int), DecodeError> {
    if at + n > b.len() {
        Err(DecodeError::Truncated { offset })
    } else if !valid_utf8(b.subrange(at, at + n)) {
        Err(DecodeError::InvalidUtf8 { offset })
    } else {
        Ok((decode_utf8(b.subrange(at, at + n)), at + n))
    }
}

/// The text after a one-byte length at `at`, and the position after it.
pub open spec fn name_at(b: Seq<u8>, at: int, offset: usize) -> Result<(Seq<char>, int), DecodeError> {
    if at + 1 > b.len() {
        Err(DecodeError::Truncated { offset })
    } else {
        text_at(b, at + 1, b[at] as int, offset)
    }
}

/// The item whose opcode stands at `pos`, and the position after it.
pub open spec fn read_item(b: Seq<u8>, pos: int) -> Result<(Item, int), DecodeError> {
    let op = b[pos];
    let at = pos + 1;
    let offset = pos as usize;
    match shape_of(op) {
        None => Err(DecodeError::UnknownOpcode { offset, opcode: op }),
        Some(Shape::Plain) => Ok((Item::Op(op, Operand::Nothing), at)),
        Some(Shape::Byte) => if at + 1 <= b.len() {
            Ok((Item::Op(op, Operand::Byte(b[at])), at + 1))
        } else {
            Err(DecodeError::Truncated { offset })
        },
        Some(Shape::Bool) => if at + 1 <= b.len() {
            Ok((Item::Op(op, Operand::Bool(b[at] != 0)), at + 1))
        } else {
            Err(DecodeError::Truncated { offset })
        },
        Some(Shape::Int) => if at + 8 <= b.len() {
            Ok((Item::Op(op, Operand::Int(word_at(b, at) as i64)), at + 8))
        } else {
            Err(DecodeError::Truncated { offset })
        },
        Some(Shape::UInt) => if at + 8 <= b.len() {
            Ok((Item::Op(op, Operand::UInt(word_at(b, at))), at + 8))
        } else {
            Err(DecodeError::Truncated { offset })
        },
        Some(Shape::Float) => if at + 8 <= b.len() {
            Ok((Item::Op(op, Operand::Float(word_at(b, at))), at + 8))
        } else {
            Err(DecodeError::Truncated { offset })
        },
        Some(Shape::LongText) => if at + 4 <= b.len() {
            let n = spec_u32_from_le_bytes(b.subrange(at, at + 4));
            match text_at(b, at + 4, n as int, offset) {
                Ok((t, next)) => Ok((Item::Op(op, Operand::Text(t)), next)),
                Err(e) => Err(e),
            }
        } else {
            Err(DecodeError::Truncated { offset })
        },
        Some(Shape::Name) => match name_at(b, at, offset) {
            Ok((t, next)) => Ok((Item::Op(op, Operand::Text(t)), next)),
            Err(e) => Err(e),
        },
        Some(Shape::Label) => match name_at(b, at, offset) {
            Ok((t, next)) => Ok((Item::Label(t), next)),
            Err(e) => Err(e),
        },
    }
}

/// Binds `name` to `addr`: an earlier binding of the name is dropped, and the
/// new one goes last, so the table stays in address order.
pub open spec fn bind_label(labels: Seq<(Seq<char>, usize)>, name: Seq<char>, addr: usize) -> Seq<(Seq<char>, usize)> {
    match key_index(labels, name) {
        Some(i) => labels.remove(i as int).push((name, addr)),
        None => labels.push((name, addr)),
    }
}

/// The listing after one more item: an instruction is appended; a label is
/// bound to the number of instructions so far.
pub open spec fn apply_item(l: Listing, item: Item) -> Listing {
    match item {
        Item::Op(op, o) => Listing { code: l.code.push((op, o)), labels: l.labels },
        Item::Label(name) => Listing {
            code: l.code,
            labels: bind_label(l.labels, name, l.code.len() as usize),
        },
    }
}

/// Decoding from `pos` on, with `acc` decoded before it.
pub open spec fn decode_from(b: Seq<u8>, pos: int, acc: Listing) -> Result<Listing, DecodeError>
    decreases b.len() - pos,
{
    if pos < 0 || pos >= b.len() {
        Ok(acc)
    } else {
        match read_item(b, pos) {
            Err(e) => Err(e),
            Ok((item, next)) => if pos < next <= b.len() {
                decode_from(b, next, apply_item(acc, item))
            } else {
                Ok(acc)
            },
        }
    }
}

/// The empty listing.
pub open spec fn empty_listing() -> Listing {
    Listing { code: Seq::empty(), labels: Seq::empty() }
}

/// What a byte buffer decodes to.
pub open spec fn decode(b: Seq<u8>) -> Result<Listing, DecodeError> {
    decode_from(b, 0, empty_listing())
}

/// The bytes after an opcode that carry its operand.
pub open spec fn operand_bytes(op: u8, o: Operand) -> Seq<u8> {
    match o {
        Operand::Nothing => Seq::empty(),
        Operand::Byte(v) => seq![v],
        Operand::Int(v) => spec_u64_to_le_bytes(v as u64),
        Operand::UInt(v) => spec_u64_to_le_bytes(v),
        Operand::Float(v) => spec_u64_to_le_bytes(v),
        Operand::Bool(v) => seq![if v { 1u8 } else { 0u8 }],
        Operand::Text(t) => if shape_of(op) == Some(Shape::LongText) {
            spec_u32_to_le_bytes(encode_utf8(t).len() as u32) + encode_utf8(t)
        } else {
            seq![encode_utf8(t).len() as u8] + encode_utf8(t)
        },
    }
}

/// The bytes of one instruction.
pub open spec fn instruction_bytes(c: (u8, Operand)) -> Seq<u8> {
    seq![c.0] + operand_bytes(c.0, c.1)
}

/// The bytes of a label binding.
pub open spec fn label_bytes(name: Seq<char>) -> Seq<u8> {
    seq![OP_LABEL, encode_utf8(name).len() as u8] + encode_utf8(name)
}

/// The encoding from instruction `i` and label `j` on: before each
/// instruction come the labels bound to its address, and labels bound to
/// the end come last.
pub open spec fn encode_from(l: Listing, i: int, j: int) -> Seq<u8>
    decreases l.code.len() - i + l.labels.len() - j,
{
    if i < 0 || j < 0 || i > l.code.len() || j > l.labels.len() {
        Seq::empty()
    } else if j < l.labels.len() && l.labels[j].1 <= i {
        label_bytes(l.labels[j].0) + encode_from(l, i, j + 1)
    } else if i < l.code.len() {
        instruction_bytes(l.code[i]) + encode_from(l, i + 1, j)
    } else if j < l.labels.len() {
        label_bytes(l.labels[j].0) + encode_from(l, i, j + 1)
    } else {
        Seq::empty()
    }
}

/// The bytecode of a listing.
pub open spec fn encode(l: Listing) -> Seq<u8> {
    encode_from(l, 0, 0)
}

/// Whether an instruction can be written in the binary format: its operand
/// has its opcode's shape, and a name fits in 255 bytes and a string in
/// `u32::MAX` bytes.
pub open spec fn encodable_instruction(c: (u8, Operand)) -> bool {
    &&& shape_of(c.0) matches Some(s) && s != Shape::Label && fits_shape(s, c.1)
    &&& (c.1 matches Operand::Text(t) ==> encode_utf8(t).len() <= if shape_of(c.0) == Some(Shape::LongText) {
        u32::MAX as int
    } else {
        255
    })
}

/// Whether a listing can be written in the binary format.
pub open spec fn encodable(l: Listing) -> bool {
    &&& forall|i: int| 0 <= i < l.code.len() ==> encodable_instruction(#[trigger] l.code[i])
    &&& forall|j: int| 0 <= j < l.labels.len() ==> encode_utf8((#[trigger] l.labels[j]).0).len() <= 255
}

/// The invariant of a label table: names are unique, addresses are at most
/// the number of instructions, and the table is in address order.
pub open spec fn well_formed(l: Listing) -> bool {
    &&& unique_keys(l.labels)
    &&& forall|j: int| 0 <= j < l.labels.len() ==> (#[trigger] l.labels[j]).1 <= l.code.len()
    &&& forall|j: int, k: int| 0 <= j <= k < l.labels.len() ==> l.labels[j].1 <= l.labels[k].1
}

proof fn lemma_bytes_at(b: Seq<u8>, pos: int, x: Seq<u8>, rest: Seq<u8>)
    requires
        0 <= pos <= b.len(),
        b.subrange(pos, b.len() as int) == x + rest,
    ensures
        pos + x.len() <= b.len(),
        forall|a: int, c: int| 0 <= a <= c <= x.len() ==> #[trigger] b.subrange(pos + a, pos + c) == x.subrange(a, c),
        forall|k: int| 0 <= k < x.len() ==> #[trigger] b[pos + k] == x[k],
        b.subrange(pos + x.len(), b.len() as int) == rest,
{
    let y = b.subrange(pos, b.len() as int);
    assert(y.len() == b.len() - pos);
    assert(y.len() == x.len() + rest.len());
    assert forall|k: int| 0 <= k < x.len() implies #[trigger] b[pos + k] == x[k] by {
        assert(y[k] == b[pos + k]);
        assert((x + rest)[k] == x[k]);
    }
    assert forall|a: int, c: int| 0 <= a <= c <= x.len() implies #[trigger] b.subrange(pos + a, pos + c) == x.subrange(a, c) by {
        assert forall|k: int| 0 <= k < c - a implies b.subrange(pos + a, pos + c)[k] == x.subrange(a, c)[k] by {
            assert(y[a + k] == b[pos + a + k]);
            assert((x + rest)[a + k] == x[a + k]);
        }
        assert(b.subrange(pos + a, pos + c) =~= x.subrange(a, c));
    }
    assert(b.subrange(pos + x.len(), b.len() as int) =~= rest) by {
        assert forall|k: int| 0 <= k < rest.len() implies b.subrange(pos + x.len(), b.len() as int)[k] == rest[k] by {
            assert(y[x.len() + k] == b[pos + x.len() + k]);
            assert((x + rest)[x.len() + k] == rest[k]);
        }
    }
}

proof fn lemma_read_text(b: Seq<u8>, at: int, t: Seq<char>, offset: usize)
    requires
        0 <= at,
        at + encode_utf8(t).len() <= b.len(),
        b.subrange(at, at + encode_utf8(t).len()) == encode_utf8(t),
    ensures
        text_at(b, at, encode_utf8(t).len() as int, offset) == Ok::<_, DecodeError>((t, at + encode_utf8(t).len())),
{
    encode_utf8_valid_utf8(t);
    encode_utf8_decode_utf8(t);
}

proof fn lemma_read_name(b: Seq<u8>, pos: int, t: Seq<char>, rest: Seq<u8>, offset: usize)
    requires
        0 <= pos <= b.len(),
        encode_utf8(t).len() <= 255,
        b.subrange(pos, b.len() as int) == (seq![encode_utf8(t).len() as u8] + encode_utf8(t)) + rest,
    ensures
        name_at(b, pos, offset) == Ok::<_, DecodeError>((t, pos + 1 + encode_utf8(t).len())),
{
    let e = encode_utf8(t);
    let x = seq![e.len() as u8] + e;
    lemma_bytes_at(b, pos, x, rest);
    assert(b[pos + 0] == x[0]);
    assert(b.subrange(pos + 1, pos + 1 + e.len()) == x.subrange(1, 1 + e.len() as int));
    assert(x.subrange(1, 1 + e.len() as int) =~= e);
    lemma_read_text(b, pos + 1, t, offset);
}

/// Reading the bytes of an instruction gives the instruction back.
proof fn lemma_read_instruction(b: Seq<u8>, pos: int, c: (u8, Operand), rest: Seq<u8>)
    requires
        0 <= pos <= b.len(),
        encodable_instruction(c),
        b.subrange(pos, b.len() as int) == instruction_bytes(c) + rest,
    ensures
        read_item(b, pos) == Ok::<_, DecodeError>((Item::Op(c.0, c.1), pos + instruction_bytes(c).len())),
{
    let x = instruction_bytes(c);
    let o = operand_bytes(c.0, c.1);
    lemma_bytes_at(b, pos, x, rest);
    assert(b[pos + 0] == x[0]);
    assert(b[pos] == c.0);
    assert(x.len() == 1 + o.len());
    lemma_auto_spec_u64_to_from_le_bytes();
    lemma_auto_spec_u32_to_from_le_bytes();
    assert(b.subrange(pos + 1, b.len() as int) =~= o + rest) by {
        assert(b.subrange(pos + 1, b.len() as int) =~= b.subrange(pos, b.len() as int).drop_first());
        assert((x + rest).drop_first() =~= o + rest);
    }
    match c.1 {
        Operand::Nothing => {
            assert(shape_of(c.0) == Some(Shape::Plain));
            assert(o =~= Seq::<u8>::empty());
        },
        Operand::Byte(v) => {
            assert(b[pos + 1] == x[1]);
        },
        Operand::Bool(v) => {
            assert(b[pos + 1] == x[1]);
        },
        Operand::Int(v) => {
            assert(b.subrange(pos + 1, pos + 9) == x.subrange(1, 9));
            assert(x.subrange(1, 9) =~= spec_u64_to_le_bytes(v as u64));
            assert(((v as u64) as i64) == v) by (bit_vector);
        },
        Operand::UInt(v) => {
            assert(b.subrange(pos + 1, pos + 9) == x.subrange(1, 9));
            assert(x.subrange(1, 9) =~= spec_u64_to_le_bytes(v));
        },
        Operand::Float(v) => {
            assert(b.subrange(pos + 1, pos + 9) == x.subrange(1, 9));
            assert(x.subrange(1, 9) =~= spec_u64_to_le_bytes(v));
        },
        Operand::Text(t) => {
            let e = encode_utf8(t);
            if shape_of(c.0) == Some(Shape::LongText) {
                assert(b.subrange(pos + 1, pos + 5) == x.subrange(1, 5));
                assert(x.subrange(1, 5) =~= spec_u32_to_le_bytes(e.len() as u32));
                assert(b.subrange(pos + 5, pos + 5 + e.len()) == x.subrange(5, 5 + e.len() as int));
                assert(x.subrange(5, 5 + e.len() as int) =~= e);
                lemma_read_text(b, pos + 5, t, pos as usize);
            } else {
                lemma_read_name(b, pos + 1, t, rest, pos as usize);
            }
        },
    }
}

/// Reading the bytes of a label binding gives the name back.
proof fn lemma_read_label(b: Seq<u8>, pos: int, name: Seq<char>, rest: Seq<u8>)
    requires
        0 <= pos <= b.len(),
        encode_utf8(name).len() <= 255,
        b.subrange(pos, b.len() as int) == label_bytes(name) + rest,
    ensures
        read_item(b, pos) == Ok::<_, DecodeError>((Item::Label(name), pos + label_bytes(name).len())),
{
    let x = label_bytes(name);
    let e = encode_utf8(name);
    lemma_bytes_at(b, pos, x, rest);
    assert(b[pos + 0] == x[0]);
    assert(b[pos] == OP_LABEL);
    assert(b.subrange(pos + 1, b.len() as int) =~= (seq![e.len() as u8] + e) + rest) by {
        assert(b.subrange(pos + 1, b.len() as int) =~= b.subrange(pos, b.len() as int).drop_first());
    }
    lemma_read_name(b, pos + 1, name, rest, pos as usize);
}

/// Decoding the rest of an encoding, from instruction `i` and label `j` on,
/// completes the listing.
proof fn lemma_decode_encoded(l: Listing, b: Seq<u8>, pos: int, i: int, j: int)
    requires
        encodable(l),
        well_formed(l),
        0 <= i <= l.code.len(),
        0 <= j <= l.labels.len(),
        forall|k: int| j <= k < l.labels.len() ==> (#[trigger] l.labels[k]).1 >= i,
        0 <= pos <= b.len(),
        b.subrange(pos, b.len() as int) == encode_from(l, i, j),
    ensures
        decode_from(b, pos, Listing { code: l.code.take(i), labels: l.labels.take(j) }) == Ok::<_, DecodeError>(l),
    decreases l.code.len() - i + l.labels.len() - j,
{
    let acc = Listing { code: l.code.take(i), labels: l.labels.take(j) };
    if j < l.labels.len() && l.labels[j].1 <= i {
        let name = l.labels[j].0;
        let rest = encode_from(l, i, j + 1);
        lemma_read_label(b, pos, name, rest);
        let next = pos + label_bytes(name).len();
        lemma_bytes_at(b, pos, label_bytes(name), rest);
        assert forall|k: int| 0 <= k < j implies acc.labels[k].0 != name by {
            assert(acc.labels[k] == l.labels[k]);
        }
        crate::table::lemma_key_index_none(acc.labels, name);
        assert(l.labels[j].1 == i);
        assert(acc.code.len() == i);
        assert(apply_item(acc, Item::Label(name)).labels =~= l.labels.take(j + 1));
        lemma_decode_encoded(l, b, next, i, j + 1);
        assert(apply_item(acc, Item::Label(name)) == Listing { code: l.code.take(i), labels: l.labels.take(j + 1) });
    } else if i < l.code.len() {
        let c = l.code[i];
        let rest = encode_from(l, i + 1, j);
        lemma_read_instruction(b, pos, c, rest);
        let next = pos + instruction_bytes(c).len();
        lemma_bytes_at(b, pos, instruction_bytes(c), rest);
        assert(apply_item(acc, Item::Op(c.0, c.1)).code =~= l.code.take(i + 1));
        assert forall|k: int| j <= k < l.labels.len() implies (#[trigger] l.labels[k]).1 >= i + 1 by {
            assert(l.labels[j].1 <= l.labels[k].1);
        }
        lemma_decode_encoded(l, b, next, i + 1, j);
        assert(apply_item(acc, Item::Op(c.0, c.1)) == Listing { code: l.code.take(i + 1), labels: l.labels.take(j) });
    } else if j < l.labels.len() {
        assert(l.labels[j].1 <= l.code.len());
    } else {
        assert(acc.code =~= l.code);
        assert(acc.labels =~= l.labels);
    }
}

/// Decoding the encoding of a well-formed, encodable listing gives the
/// listing back: the same instructions and the same label table.
pub proof fn lemma_round_trip(l: Listing)
    requires
        encodable(l),
        well_formed(l),
    ensures
        decode(encode(l)) == Ok::<_, DecodeError>(l),
{
    let b = encode(l);
    assert(b.subrange(0, b.len() as int) =~= b);
    lemma_decode_encoded(l, b, 0, 0, 0);
    assert(l.code.take(0) =~= Seq::<(u8, Operand)>::empty());
    assert(l.labels.take(0) =~= Seq::<(Seq<char>, usize)>::empty());
    assert(Listing { code: l.code.take(0), labels: l.labels.take(0) } == empty_listing());
}

/// What an item read from bytes holds can be written back.
proof fn lemma_read_item_encodable(b: Seq<u8>, pos: int)
    requires
        0 <= pos < b.len(),
    ensures
        read_item(b, pos) matches Ok((item, _)) ==> match item {
            Item::Op(op, o) => encodable_instruction((op, o)),
            Item::Label(name) => encode_utf8(name).len() <= 255,
        },
{
    let at = pos + 1;
    let op = b[pos];
    match shape_of(op) {
        Some(Shape::LongText) => {
            if at + 4 <= b.len() {
                let n = spec_u32_from_le_bytes(b.subrange(at, at + 4)) as int;
                if at + 4 + n <= b.len() && valid_utf8(b.subrange(at + 4, at + 4 + n)) {
                    decode_utf8_encode_utf8(b.subrange(at + 4, at + 4 + n));
                }
            }
        },
        Some(Shape::Name) | Some(Shape::Label) => {
            if at + 1 <= b.len() {
                let n = b[at] as int;
                if at + 1 + n <= b.len() && valid_utf8(b.subrange(at + 1, at + 1 + n)) {
                    decode_utf8_encode_utf8(b.subrange(at + 1, at + 1 + n));
                }
            }
        },
        _ => {},
    }
}

/// One more item keeps a listing well formed and encodable.
proof fn lemma_apply_well_formed(l: Listing, item: Item)
    requires
        l.code.len() < usize::MAX,
        well_formed(l),
        encodable(l),
        match item {
            Item::Op(op, o) => encodable_instruction((op, o)),
            Item::Label(name) => encode_utf8(name).len() <= 255,
        },
    ensures
        well_formed(apply_item(l, item)),
        encodable(apply_item(l, item)),
{
    let r = apply_item(l, item);
    match item {
        Item::Op(op, o) => {
            assert(forall|i: int| 0 <= i < l.code.len() ==> r.code[i] == l.code[i]);
        },
        Item::Label(name) => {
            let addr = l.code.len() as usize;
            crate::table::lemma_key_index(l.labels, name);
            let ri: int = match key_index(l.labels, name) {
                Some(i) => i as int,
                None => l.labels.len() as int,
            };
            let t = match key_index(l.labels, name) {
                Some(i) => l.labels.remove(i as int),
                None => l.labels,
            };
            assert(r.labels == t.push((name, addr)));
            assert forall|k: int| 0 <= k < t.len() implies #[trigger] t[k] == l.labels[if k < ri { k } else { k + 1 }]
                && t[k].0 != name by {
                let m = if k < ri { k } else { k + 1 };
                if key_index(l.labels, name) is Some {
                    assert(l.labels[ri].0 == name);
                    assert(m != ri);
                }
            }
            assert forall|x: int, y: int| 0 <= x < y < r.labels.len() implies r.labels[x].0 != r.labels[y].0 && r.labels[x].1 <= r.labels[y].1 by {
                let mx = if x < ri { x } else { x + 1 };
                assert(r.labels[x] == t[x]);
                if y < t.len() {
                    let my = if y < ri { y } else { y + 1 };
                    assert(r.labels[y] == t[y]);
                    assert(t[x] == l.labels[mx] && t[y] == l.labels[my]);
                } else {
                    assert(r.labels[y] == (name, addr));
                    assert(t[x] == l.labels[mx]);
                    assert(l.labels[mx].1 <= l.code.len());
                }
            }
            assert forall|j: int| 0 <= j < r.labels.len() implies (#[trigger] r.labels[j]).1 <= r.code.len()
                && encode_utf8(r.labels[j].0).len() <= 255 by {
                if j < t.len() {
                    let m = if j < ri { j } else { j + 1 };
                    assert(t[j] == l.labels[m]);
                }
            }
        },
    }
}

proof fn lemma_decode_from_well_formed(b: Seq<u8>, pos: int, acc: Listing)
    requires
        b.len() <= usize::MAX,
        0 <= pos,
        acc.code.len() <= pos,
        well_formed(acc),
        encodable(acc),
    ensures
        decode_from(b, pos, acc) matches Ok(l) ==> well_formed(l) && encodable(l),
    decreases b.len() - pos,
{
    if 0 <= pos < b.len() {
        match read_item(b, pos) {
            Err(_) => {},
            Ok((item, next)) => {
                if pos < next <= b.len() {
                    lemma_read_item_encodable(b, pos);
                    lemma_apply_well_formed(acc, item);
                    lemma_decode_from_well_formed(b, next, apply_item(acc, item));
                }
            },
        }
    }
}

/// A decoded program is well formed and can be written back, and writing it
/// back and decoding again gives it unchanged.
pub proof fn lemma_decode_round_trip(b: Seq<u8>)
    requires
        b.len() <= usize::MAX,
    ensures
        decode(b) matches Ok(l) ==> well_formed(l) && encodable(l) && decode(encode(l)) == Ok::<_, DecodeError>(l),
{
    lemma_decode_from_well_formed(b, 0, empty_listing());
    if let Ok(l) = decode(b) {
        lemma_round_trip(l);
    }
}

/// A decoded item.
enum Decoded {
    Op(Instruction),
    Label(String),
}

impl Decoded {
    spec fn item(&self) -> Item {
        match self {
            Decoded::Op(i) => Item::Op(i.opcode(), i.operand()),
            Decoded::Label(s) => Item::Label(s@),
        }
    }
}

fn read_word(b: &Vec<u8>, at: usize) -> (r: u64)
    requires
        at + 8 <= b.len(),
    ensures
        r == word_at(b@, at as int),
{
    u64_from_le_bytes(slice_subrange(b.as_slice(), at, at + 8))
}

fn read_text(b: &Vec<u8>, at: usize, n: usize, offset: usize) -> (r: Result<(String, usize), DecodeError>)
    requires
        at <= b@.len(),
    ensures
        match r {
            Ok((s, next)) => text_at(b@, at as int, n as int, offset) == Ok::<_, DecodeError>((s@, next as int)),
            Err(e) => text_at(b@, at as int, n as int, offset) == Err::<(Seq<char>, int), _>(e),
        },
{
    if n > b.len() - at {
        return Err(DecodeError::Truncated { offset });
    }
    let bytes = slice_to_vec(slice_subrange(b.as_slice(), at, at + n));
    match utf8_string(bytes) {
        Some(s) => Ok((s, at + n)),
        None => Err(DecodeError::InvalidUtf8 { offset }),
    }
}

fn read_name(b: &Vec<u8>, at: usize, offset: usize) -> (r: Result<(String, usize), DecodeError>)
    requires
        at <= b@.len(),
    ensures
        match r {
            Ok((s, next)) => name_at(b@, at as int, offset) == Ok::<_, DecodeError>((s@, next as int)),
            Err(e) => name_at(b@, at as int, offset) == Err::<(Seq<char>, int), _>(e),
        },
{
    if at >= b.len() {
        return Err(DecodeError::Truncated { offset });
    }
    read_text(b, at + 1, b[at] as usize, offset)
}

fn read_at(b: &Vec<u8>, pos: usize) -> (r: Result<(Decoded, usize), DecodeError>)
    requires
        pos < b.len(),
    ensures
        match r {
            Ok((d, next)) => read_item(b@, pos as int) == Ok::<_, DecodeError>((d.item(), next as int))
                && pos < next <= b@.len(),
            Err(e) => read_item(b@, pos as int) == Err::<(Item, int), _>(e),
        },
{
    let op = b[pos];
    let at = pos + 1;
    let offset = pos;
    match shape(op) {
        None => Err(DecodeError::UnknownOpcode { offset, opcode: op }),
        Some(Shape::Plain) => Ok((Decoded::Op(plain(op)), at)),
        Some(Shape::Byte) => {
            if at >= b.len() {
                return Err(DecodeError::Truncated { offset });
            }
            Ok((Decoded::Op(with_byte(op, b[at])), at + 1))
        },
        Some(Shape::Bool) => {
            if at >= b.len() {
                return Err(DecodeError::Truncated { offset });
            }
            Ok((Decoded::Op(with_bool(op, b[at] != 0)), at + 1))
        },
        Some(Shape::Int) => {
            if b.len() - at < 8 {
                return Err(DecodeError::Truncated { offset });
            }
            let w = read_word(b, at);
            Ok((Decoded::Op(with_int(op, #[verifier::truncate] (w as i64))), at + 8))
        },
        Some(Shape::UInt) => {
            if b.len() - at < 8 {
                return Err(DecodeError::Truncated { offset });
            }
            Ok((Decoded::Op(with_uint(op, read_word(b, at))), at + 8))
        },
        Some(Shape::Float) => {
            if b.len() - at < 8 {
                return Err(DecodeError::Truncated { offset });
            }
            Ok((Decoded::Op(with_float(op, read_word(b, at))), at + 8))
        },
        Some(Shape::LongText) => {
            if b.len() - at < 4 {
                return Err(DecodeError::Truncated { offset });
            }
            let n = u32_from_le_bytes(slice_subrange(b.as_slice(), at, at + 4));
            match read_text(b, at + 4, n as usize, offset) {
                Ok((s, next)) => Ok((Decoded::Op(with_text(op, s)), next)),
                Err(e) => Err(e),
            }
        },
        Some(Shape::Name) => match read_name(b, at, offset) {
            Ok((s, next)) => Ok((Decoded::Op(with_text(op, s)), next)),
            Err(e) => Err(e),
        },
        Some(Shape::Label) => match read_name(b, at, offset) {
            Ok((s, next)) => Ok((Decoded::Label(s), next)),
            Err(e) => Err(e),
        },
    }
}

/// Binds `name` to `addr` in an executable label table.
fn bind(labels: &mut Vec<(String, usize)>, name: String, addr: usize)
    ensures
        keyed(final(labels)@) == bind_label(keyed(old(labels)@), name@, addr),
{
    let ghost t = keyed(labels@);
    match find_key(labels, name.as_str()) {
        Some(i) => {
            labels.remove(i);
            assert(keyed(labels@) =~= t.remove(i as int));
            assert(key_index(t, name@) == Some(i as nat));
        },
        None => {
            assert(key_index(t, name@) is None);
        },
    }
    let ghost before = labels@;
    labels.push((name, addr));
    assert(keyed(labels@) =~= keyed(before).push((name@, addr)));
}

impl Program {
    /// Decodes a byte buffer. Decoding stops at the first unknown opcode,
    /// truncated item or invalid UTF-8 string, and then no program results.
    pub fn from_bytecode(source: Vec<u8>) -> (r: Result<Program, DecodeError>)
        ensures
            match r {
                Ok(p) => decode(source@) == Ok::<_, DecodeError>(p@) && well_formed(p@) && encodable(p@),
                Err(e) => decode(source@) == Err::<Listing, _>(e),
            },
    {
        proof {
            lemma_decode_round_trip(source@);
        }
        let mut instructions: Vec<Instruction> = Vec::new();
        let mut labels: Vec<(String, usize)> = Vec::new();
        let mut index: usize = 0;
        proof {
            assert(Program { instructions, labels }@.code =~= empty_listing().code);
            assert(Program { instructions, labels }@.labels =~= empty_listing().labels);
        }
        while index < source.len()
            invariant
                index <= source@.len(),
                decode(source@) == decode_from(source@, index as int, Program { instructions, labels }@),
            decreases source@.len() - index,
        {
            let ghost before = Program { instructions, labels }@;
            match read_at(&source, index) {
                Err(e) => return Err(e),
                Ok((Decoded::Op(i), next)) => {
                    instructions.push(i);
                    assert(Program { instructions, labels }@.code =~= before.code.push(i.model()));
                    index = next;
                },
                Ok((Decoded::Label(name), next)) => {
                    let count = instructions.len();
                    bind(&mut labels, name, count);
                    assert(Program { instructions, labels }@ =~= apply_item(before, Item::Label(name@)));
                    index = next;
                },
            }
        }
        Ok(Program { instructions, labels })
    }
}

fn write_instruction(out: &mut Vec<u8>, instr: &Instruction)
    requires
        encodable_instruction(instr.model()),
    ensures
        final(out)@ == old(out)@ + instruction_bytes(instr.model()),
{
    out.push(instr.tag());
    match instr {
        Instruction::ExitImmediate(v) => {
            out.push(*v);
        },
        Instruction::PushInt(v) | Instruction::AddI(v) | Instruction::SubI(v) | Instruction::MulI(v)
        | Instruction::DivI(v) | Instruction::ModI(v) | Instruction::ExpI(v) => {
            let w = u64_to_le_bytes(#[verifier::truncate] (*v as u64));
            append(out, w.as_slice());
        },
        Instruction::PushUInt(v) | Instruction::AddU(v) | Instruction::SubU(v) | Instruction::MulU(v)
        | Instruction::DivU(v) | Instruction::ModU(v) | Instruction::ExpU(v) | Instruction::PushFloat(v)
        | Instruction::AddF(v) | Instruction::SubF(v) | Instruction::MulF(v) | Instruction::DivF(v)
        | Instruction::ExpF(v) => {
            let w = u64_to_le_bytes(*v);
            append(out, w.as_slice());
        },
        Instruction::PushBool(v) => {
            out.push(if *v { 1u8 } else { 0u8 });
        },
        Instruction::PushString(t) => {
            let b = t.as_str().as_bytes();
            let w = u32_to_le_bytes(b.len() as u32);
            append(out, w.as_slice());
            append(out, b);
        },
        Instruction::LoadImm(t) | Instruction::StoreImm(t) | Instruction::FreeImm(t) | Instruction::Jump(t)
        | Instruction::JumpIf(t) | Instruction::Call(t) | Instruction::CallNative(t) => {
            let b = t.as_str().as_bytes();
            out.push(b.len() as u8);
            append(out, b);
        },
        _ => {},
    }
    assert(final(out)@ =~= old(out)@ + instruction_bytes(instr.model()));
}

fn write_label(out: &mut Vec<u8>, name: &String)
    requires
        encode_utf8(name@).len() <= 255,
    ensures
        final(out)@ == old(out)@ + label_bytes(name@),
{
    out.push(OP_LABEL);
    let b = name.as_str().as_bytes();
    out.push(b.len() as u8);
    append(out, b);
    assert(final(out)@ =~= old(out)@ + label_bytes(name@));
}

impl Program {
    /// Whether the program can be written in the binary format.
    pub fn is_encodable(&self) -> (r: bool)
        ensures
            r == encodable(self@),
    {
        let mut i: usize = 0;
        while i < self.instructions.len()
            invariant
                i <= self.instructions@.len(),
                forall|k: int| 0 <= k < i ==> encodable_instruction(#[trigger] self@.code[k]),
            decreases self.instructions@.len() - i,
        {
            let ok = match &self.instructions[i] {
                Instruction::PushString(t) => t.as_str().as_bytes().len() <= 0xffff_ffff,
                Instruction::LoadImm(t) | Instruction::StoreImm(t) | Instruction::FreeImm(t)
                | Instruction::Jump(t) | Instruction::JumpIf(t) | Instruction::Call(t)
                | Instruction::CallNative(t) => t.as_str().as_bytes().len() <= 255,
                _ => true,
            };
            proof {
                lemma_operand_fits(self.instructions@[i as int]);
            }
            assert(self@.code[i as int] == self.instructions@[i as int].model());
            if !ok {
                return false;
            }
            i = i + 1;
        }
        let mut j: usize = 0;
        while j < self.labels.len()
            invariant
                j <= self.labels@.len(),
                forall|k: int| 0 <= k < self@.code.len() ==> encodable_instruction(#[trigger] self@.code[k]),
                forall|k: int| 0 <= k < j ==> encode_utf8((#[trigger] self@.labels[k]).0).len() <= 255,
            decreases self.labels@.len() - j,
        {
            assert(self@.labels[j as int].0 == self.labels@[j as int].0@);
            if self.labels[j].0.as_str().as_bytes().len() > 255 {
                return false;
            }
            j = j + 1;
        }
        true
    }

    /// Whether the label table is well formed: unique names, addresses at
    /// most the number of instructions, in address order.
    pub fn is_well_formed(&self) -> (r: bool)
        ensures
            r == well_formed(self@),
    {
        let ghost l = self@;
        let n = self.instructions.len();
        let mut j: usize = 0;
        while j < self.labels.len()
            invariant
                l == self@,
                n == l.code.len(),
                j <= l.labels.len(),
                forall|a: int, b: int| 0 <= a < b < j ==> l.labels[a].0 != l.labels[b].0,
                forall|a: int| 0 <= a < j ==> (#[trigger] l.labels[a]).1 <= n,
                forall|a: int, b: int| 0 <= a <= b < j ==> l.labels[a].1 <= l.labels[b].1,
            decreases l.labels.len() - j,
        {
            assert(l.labels[j as int] == (self.labels@[j as int].0@, self.labels@[j as int].1));
            if self.labels[j].1 > n {
                return false;
            }
            if j > 0 && self.labels[j - 1].1 > self.labels[j].1 {
                assert(l.labels[j - 1] == (self.labels@[j - 1].0@, self.labels@[j - 1].1));
                return false;
            }
            let mut k: usize = 0;
            while k < j
                invariant
                    l == self@,
                    k <= j < l.labels.len(),
                    forall|a: int| 0 <= a < k ==> l.labels[a].0 != l.labels[j as int].0,
                decreases j - k,
            {
                assert(l.labels[k as int] == (self.labels@[k as int].0@, self.labels@[k as int].1));
                assert(l.labels[j as int] == (self.labels@[j as int].0@, self.labels@[j as int].1));
                if str_eq(self.labels[k].0.as_str(), self.labels[j].0.as_str()) {
                    return false;
                }
                k = k + 1;
            }
            if j > 0 {
                assert(l.labels[j - 1] == (self.labels@[j - 1].0@, self.labels@[j - 1].1));
            }
            j = j + 1;
        }
        true
    }

    /// Writes the program in the binary format, or `None` where a name or
    /// string is too long for it or the label table is not well formed.
    /// Before each instruction come the labels bound to its address; labels
    /// bound to the end come last. The bytes decode to the program again.
    pub fn to_bytecode(&self) -> (r: Option<Vec<u8>>)
        ensures
            match r {
                Some(b) => encodable(self@) && well_formed(self@) && b@ == encode(self@)
                    && decode(b@) == Ok::<_, DecodeError>(self@),
                None => !encodable(self@) || !well_formed(self@),
            },
    {
        if !self.is_encodable() || !self.is_well_formed() {
            return None;
        }
        proof {
            lemma_round_trip(self@);
        }
        let ghost l = self@;
        let n = self.instructions.len();
        let m = self.labels.len();
        let mut out: Vec<u8> = Vec::new();
        let mut i: usize = 0;
        let mut j: usize = 0;
        while i < n || j < m
            invariant
                l == self@,
                encodable(l),
                n == l.code.len(),
                m == l.labels.len(),
                i <= n,
                j <= m,
                out@ + encode_from(l, i as int, j as int) == encode(l),
            decreases (n - i) + (m - j),
        {
            let ghost before = out@;
            if j < m && self.labels[j].1 <= i {
                assert(l.labels[j as int] == (self.labels@[j as int].0@, self.labels@[j as int].1));
                write_label(&mut out, &self.labels[j].0);
                assert(out@ + encode_from(l, i as int, j + 1) =~= before + encode_from(l, i as int, j as int));
                j = j + 1;
            } else if i < n {
                assert(l.code[i as int] == self.instructions@[i as int].model());
                write_instruction(&mut out, &self.instructions[i]);
                assert(out@ + encode_from(l, i + 1, j as int) =~= before + encode_from(l, i as int, j as int));
                i = i + 1;
            } else {
                assert(l.labels[j as int] == (self.labels@[j as int].0@, self.labels@[j as int].1));
                write_label(&mut out, &self.labels[j].0);
                assert(out@ + encode_from(l, i as int, j + 1) =~= before + encode_from(l, i as int, j as int));
                j = j + 1;
            }
        }
        assert(out@ + Seq::<u8>::empty() =~= out@);
        Some(out)
    }
}

impl Program {
    /// Assembles source text (see [`parse`]) and decodes the bytes.
    pub fn from_source(source: &str, floats: &Vec<Option<u64>>) -> (r: Result<Program, SourceError>)
        ensures
            match assemble(source@, floats@) {
                Err(e) => r == Err::<Program, _>(SourceError::Asm(e)),
                Ok(b) => match decode(b) {
                    Ok(l) => r matches Ok(p) && p@ == l,
                    Err(e) => r == Err::<Program, _>(SourceError::Decode(e)),
                },
            },
    {
        match parse(source, floats) {
            Err(e) => Err(SourceError::Asm(e)),
            Ok(bytes) => match Program::from_bytecode(bytes) {
                Ok(p) => Ok(p),
                Err(e) => Err(SourceError::Decode(e)),
            },
        }
    }
}

} // verus!
