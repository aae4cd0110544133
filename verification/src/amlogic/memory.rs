//! Device memory: small control transfers and large block writes.
use vstd::prelude::*;
use vstd::utf8::*;

use super::{
    REQ_IDENTIFY_HOST, REQ_READ_MEM, REQ_RUN_IN_ADDR, REQ_WRITE_MEM, REQ_WR_LARGE_MEM,
};
use crate::bytes;
use crate::error;
use crate::error::Error;
use crate::text;

verus! {

/// Most bytes that one control transfer moves.
pub const SIMPLE_BYTES: usize = 64;

/// Bit of a run address that keeps the power on.
pub const FLAG_KEEP_POWER_ON: u32 = 0x10;

/// Bytes of an identify reply.
pub const IDENTIFY_BYTES: usize = 8;

/// A control transfer to the device.
pub struct ControlOut {
    pub request: u8,
    pub value: u16,
    pub index: u16,
    pub data: Vec<u8>,
}

/// A control transfer from the device.
#[derive(Clone, Copy)]
pub struct ControlIn {
    pub request: u8,
    pub value: u16,
    pub index: u16,
    pub length: usize,
}

/// Whether a control transfer has the given parts.
pub open spec fn sends(transfer: ControlOut, request: u8, value: int, index: int, data: Seq<u8>) -> bool {
    &&& transfer.request == request
    &&& transfer.value == value
    &&& transfer.index == index
    &&& transfer.data@ == data
}

/// The upper 16 bits of an address.
pub open spec fn upper_half(address: u32) -> int {
    address as int / 0x1_0000
}

/// The lower 16 bits of an address.
pub open spec fn lower_half(address: u32) -> int {
    address as int % 0x1_0000
}

/// Builds a control transfer that carries an address in its two fields.
fn addressed(request: u8, address: u32, data: Vec<u8>) -> (transfer: ControlOut)
    ensures
        sends(transfer, request, upper_half(address), lower_half(address), data@),
{
    ControlOut {
        request,
        value: (address / 0x1_0000) as u16,
        index: (address % 0x1_0000) as u16,
        data,
    }
}

/// The transfer that writes up to 64 bytes of memory; more are refused.
pub fn write_simple_memory(address: u32, data: &[u8]) -> (request: Result<ControlOut, Error>)
    ensures
        request is Ok <==> data@.len() <= 64,
        request matches Ok(transfer) ==> {
            &&& transfer.request == 0x01
            &&& 0x1_0000 * transfer.value + transfer.index == address
            &&& transfer.data@ == data@
        },
        request matches Ok(transfer) ==> sends(
            transfer,
            REQ_WRITE_MEM,
            upper_half(address),
            lower_half(address),
            data@,
        ),
        request matches Err(e) ==> error::is_invalid(e, "Maximum size of 64 bytes"@),
{
    if data.len() > SIMPLE_BYTES {
        return Err(error::invalid("Maximum size of 64 bytes"));
    }
    let copy = bytes::copy_between(data, 0, data.len());
    assert(copy@ =~= data@);
    Ok(addressed(REQ_WRITE_MEM, address, copy))
}

/// Where the piece that starts at byte `start` ends.
pub open spec fn piece_end(start: nat, length: nat) -> nat {
    if length - start > SIMPLE_BYTES {
        start + SIMPLE_BYTES as nat
    } else {
        length
    }
}

/// How many pieces of at most 64 bytes a run of bytes takes.
pub open spec fn piece_count(length: nat) -> nat {
    bytes::div_up(length, SIMPLE_BYTES as nat)
}

/// Whether every piece of a run of bytes starts at a 32-bit address.
pub open spec fn addresses_fit(address: u32, length: nat) -> bool {
    length > 0 ==> address + SIMPLE_BYTES * ((length - 1) / 64) < 0x1_0000_0000
}

/// The transfers that write any number of bytes of memory, in order: the data cut into pieces of at most 64 bytes,
/// each at the address where it belongs.
pub fn write_memory(address: u32, data: &[u8]) -> (pieces: Vec<ControlOut>)
    requires
        addresses_fit(address, data@.len()),
    ensures
        pieces@.len() == piece_count(data@.len()),
        forall|k: int| 0 <= k < pieces@.len() ==> #[trigger] is_write_piece(pieces@[k], address, data@, k),
        data@.len() <= 64 * pieces@.len() < data@.len() + 64,
        forall|k: int|
            #![trigger pieces@[k]]
            0 <= k < pieces@.len() ==> {
                &&& pieces@[k].request == 0x01
                &&& 0x1_0000 * pieces@[k].value + pieces@[k].index == address + 64 * k
                &&& pieces@[k].data@.len() == (if data@.len() - 64 * k > 64 {
                    64
                } else {
                    data@.len() - 64 * k
                })
                &&& pieces@[k].data@ == data@.subrange(64 * k, 64 * k + pieces@[k].data@.len())
            },
{
    let length: usize = data.len();
    let mut pieces: Vec<ControlOut> = Vec::new();
    let mut offset: usize = 0;
    while offset < length
        invariant
            length == data@.len(),
            addresses_fit(address, data@.len()),
            offset <= length,
            offset < length ==> offset == SIMPLE_BYTES * pieces@.len(),
            offset == length ==> pieces@.len() == piece_count(length as nat),
            forall|k: int| 0 <= k < pieces@.len() ==> #[trigger] is_write_piece(pieces@[k], address, data@, k),
        decreases length - offset,
    {
        let end: usize = if length - offset > SIMPLE_BYTES { offset + SIMPLE_BYTES } else { length };
        let piece = bytes::copy_between(data, offset, end);
        let at: u32 = address + offset as u32;
        let transfer = addressed(REQ_WRITE_MEM, at, piece);
        assert(is_write_piece(transfer, address, data@, pieces@.len() as int));
        pieces.push(transfer);
        offset = end;
    }
    proof {
        assert forall|k: int|
            #![trigger pieces@[k]]
            0 <= k < pieces@.len() implies {
            &&& pieces@[k].request == 0x01
            &&& 0x1_0000 * pieces@[k].value + pieces@[k].index == address + 64 * k
            &&& pieces@[k].data@.len() == (if data@.len() - 64 * k > 64 {
                64
            } else {
                data@.len() - 64 * k
            })
            &&& pieces@[k].data@ == data@.subrange(64 * k, 64 * k + pieces@[k].data@.len())
        } by {
            assert(is_write_piece(pieces@[k], address, data@, k));
        }
    }
    pieces
}

/// Whether a transfer writes piece `k` of the data.
pub open spec fn is_write_piece(transfer: ControlOut, address: u32, data: Seq<u8>, k: int) -> bool {
    let start = SIMPLE_BYTES * k;
    let at = (address + start) as u32;
    &&& 0 <= start < data.len()
    &&& sends(
        transfer,
        REQ_WRITE_MEM,
        upper_half(at),
        lower_half(at),
        data.subrange(start, piece_end(start as nat, data.len()) as int),
    )
}

/// The bytes that the first `count` transfers carry, end to end.
pub open spec fn carried(pieces: Seq<ControlOut>, count: nat) -> Seq<u8>
    decreases count,
{
    if count == 0 {
        Seq::empty()
    } else {
        carried(pieces, (count - 1) as nat) + pieces[count - 1].data@
    }
}

/// The pieces of a memory write, laid end to end, are the data.
pub proof fn pieces_make_up_the_data(pieces: Seq<ControlOut>, address: u32, data: Seq<u8>)
    requires
        pieces.len() == piece_count(data.len()),
        forall|k: int| 0 <= k < pieces.len() ==> #[trigger] is_write_piece(pieces[k], address, data, k),
    ensures
        carried(pieces, pieces.len()) == data,
{
    lemma_carried(pieces, address, data, pieces.len());
    if data.len() > 0 {
        assert(is_write_piece(pieces[pieces.len() - 1], address, data, pieces.len() - 1));
    }
    assert(carried(pieces, pieces.len()) =~= data);
}

proof fn lemma_carried(pieces: Seq<ControlOut>, address: u32, data: Seq<u8>, count: nat)
    requires
        count <= pieces.len() == piece_count(data.len()),
        forall|k: int| 0 <= k < pieces.len() ==> #[trigger] is_write_piece(pieces[k], address, data, k),
    ensures
        count == 0 ==> carried(pieces, count) == data.take(0),
        count > 0 ==> carried(pieces, count) == data.take(
            piece_end((SIMPLE_BYTES * (count - 1)) as nat, data.len()) as int,
        ),
    decreases count,
{
    if count > 0 {
        lemma_carried(pieces, address, data, (count - 1) as nat);
        assert(is_write_piece(pieces[count - 1], address, data, count - 1));
        assert(carried(pieces, count) =~= data.take(
            piece_end((SIMPLE_BYTES * (count - 1)) as nat, data.len()) as int,
        ));
    } else {
        assert(carried(pieces, count) =~= data.take(0));
    }
}

/// The transfer that reads up to 64 bytes of memory: none for no bytes, and more than 64 are refused.
pub fn read_simple_memory(address: u32, length: usize) -> (request: Result<Option<ControlIn>, Error>)
    ensures
        request is Ok <==> length <= 64,
        request matches Ok(transfer) ==> (transfer is None <==> length == 0),
        request matches Ok(Some(transfer)) ==> {
            &&& transfer.request == 0x02
            &&& 0x1_0000 * transfer.value + transfer.index == address
            &&& transfer.request == REQ_READ_MEM
            &&& transfer.value == upper_half(address)
            &&& transfer.index == lower_half(address)
            &&& transfer.length == length
        },
        request matches Err(e) ==> error::is_invalid(e, "Maximum size of 64 bytes"@),
{
    if length == 0 {
        return Ok(None);
    }
    if length > SIMPLE_BYTES {
        return Err(error::invalid("Maximum size of 64 bytes"));
    }
    Ok(
        Some(
            ControlIn {
                request: REQ_READ_MEM,
                value: (address / 0x1_0000) as u16,
                index: (address % 0x1_0000) as u16,
                length,
            },
        ),
    )
}

/// What a memory read gives back: the buffer, if the device filled all of it.
pub fn read_simple_memory_reply(buffer: Vec<u8>, read: usize) -> (reply: Result<Vec<u8>, Error>)
    ensures
        reply is Ok <==> read == buffer@.len(),
        reply matches Ok(data) ==> data@ == buffer@,
        reply matches Err(e) ==> error::is_invalid(e, "Incomplete read"@),
{
    if read != buffer.len() {
        return Err(error::invalid("Incomplete read"));
    }
    Ok(buffer)
}

/// A read of any number of bytes of memory, in pieces of at most 64.
pub struct MemoryRead {
    pub address: u32,
    pub length: usize,
    /// What was read so far.
    pub data: Vec<u8>,
}

/// One piece of a memory read.
#[derive(Clone, Copy)]
pub struct ReadPiece {
    pub address: u32,
    pub length: usize,
}

impl MemoryRead {
    /// Whether whole pieces were read, no more than asked for, and every address fits.
    pub open spec fn wf(self) -> bool {
        &&& self.data@.len() <= self.length
        &&& self.data@.len() % (SIMPLE_BYTES as nat) == 0 || self.data@.len() == self.length
        &&& addresses_fit(self.address, self.length as nat)
    }

    /// Starts a read.
    pub fn read_memory(address: u32, length: usize) -> (run: Self)
        requires
            addresses_fit(address, length as nat),
        ensures
            run.wf(),
            run.address == address,
            run.length == length,
            run.data@.len() == 0,
    {
        MemoryRead { address, length, data: Vec::new() }
    }

    /// The next piece to read, or nothing once all is read.
    pub fn next(&self) -> (piece: Option<ReadPiece>)
        requires
            self.wf(),
        ensures
            piece is None <==> self.data@.len() == self.length,
            piece matches Some(p) ==> {
                &&& p.address == self.address + self.data@.len()
                &&& p.length == piece_end(self.data@.len(), self.length as nat) - self.data@.len()
                &&& 0 < p.length <= 64
                &&& p.length == 64 || p.length == self.length - self.data@.len()
            },
    {
        let done: usize = self.data.len();
        if done == self.length {
            return None;
        }
        assert(done <= 64 * ((self.length - 1) / 64)) by {
            assert(done % 64 == 0);
            assert(done <= self.length - 1);
        }
        let left: usize = self.length - done;
        let length: usize = if left > SIMPLE_BYTES { SIMPLE_BYTES } else { left };
        Some(ReadPiece { address: self.address + done as u32, length })
    }

    /// Takes in a piece that was read.
    pub fn accept(&mut self, piece: &[u8])
        requires
            old(self).wf(),
            piece@.len() + old(self).data@.len() == piece_end(old(self).data@.len(), old(self).length as nat),
            old(self).data@.len() < old(self).length,
        ensures
            final(self).wf(),
            final(self).address == old(self).address,
            final(self).length == old(self).length,
            final(self).data@ == old(self).data@ + piece@,
    {
        self.data.extend_from_slice(piece);
        assert(self.data@ =~= old(self).data@ + piece@);
    }
}

/// The address word of a run request.
pub open spec fn run_word(address: u32, keep_power: Option<bool>) -> u32 {
    if keep_power == Some(false) {
        address
    } else {
        address | FLAG_KEEP_POWER_ON
    }
}

/// The transfer that runs the code at an address. The power stays on unless that is declined.
pub fn run(address: u32, keep_power: Option<bool>) -> (transfer: ControlOut)
    ensures
        sends(
            transfer,
            REQ_RUN_IN_ADDR,
            upper_half(address),
            lower_half(address),
            bytes::word_bytes(run_word(address, keep_power)),
        ),
        transfer.request == 0x05,
        0x1_0000 * transfer.value + transfer.index == address,
        transfer.data@.len() == 4,
        transfer.data@[0] + 0x100 * transfer.data@[1] + 0x1_0000 * transfer.data@[2] + 0x100_0000 * transfer.data@[3]
            == (if keep_power == Some(false) {
            address
        } else {
            address | 0x10
        }),
{
    let keep: bool = match keep_power {
        Some(keep) => keep,
        None => true,
    };
    let word: u32 = if keep { address | FLAG_KEEP_POWER_ON } else { address };
    let mut data: Vec<u8> = Vec::new();
    bytes::push_word(&mut data, word);
    assert(data@ =~= bytes::word_bytes(word));
    proof {
        bytes::words_are_little_endian(word);
        addresses_are_carried_in_halves(address);
    }
    let transfer = addressed(REQ_RUN_IN_ADDR, address, data);
    assert(transfer.data@ == bytes::word_bytes(word));
    transfer
}

/// The transfer that asks the device to identify itself.
pub fn identify() -> (transfer: ControlIn)
    ensures
        transfer.request == REQ_IDENTIFY_HOST,
        transfer.request == 0x20,
        transfer.value == 0,
        transfer.index == 0,
        transfer.length == IDENTIFY_BYTES,
        transfer.length == 8,
{
    ControlIn { request: REQ_IDENTIFY_HOST, value: 0, index: 0, length: IDENTIFY_BYTES }
}

/// The identification in an identify reply.
pub fn identify_reply(buffer: Vec<u8>, read: usize) -> (reply: Result<String, Error>)
    ensures
        reply is Ok <==> read == 8 && valid_utf8(buffer@),
        reply matches Ok(name) ==> name@ == decode_utf8(buffer@),
        reply matches Err(e) ==> if read != IDENTIFY_BYTES {
            error::is_invalid(e, "Failed to read identify data"@)
        } else {
            e is Utf8Error
        },
{
    if read != IDENTIFY_BYTES {
        return Err(error::invalid("Failed to read identify data"));
    }
    match text::from_utf8(buffer) {
        Ok(name) => Ok(name),
        Err(e) => Err(Error::Utf8Error(e)),
    }
}

/// A write of whole blocks: an announcement, and then the body block by block.
pub struct LargeWrite {
    pub header: ControlOut,
    pub body: Vec<u8>,
    pub block_length: usize,
}

/// The data with zeros behind it, up to a whole number of blocks.
pub open spec fn padded(data: Seq<u8>, block_length: nat) -> Seq<u8> {
    if data.len() % block_length == 0 {
        data
    } else {
        data + bytes::zeros((block_length - data.len() % block_length) as nat)
    }
}

/// The announcement of a large write: where it goes and how many bytes it has, then two empty words.
pub open spec fn large_header(address: u32, total: nat) -> Seq<u8> {
    bytes::word_bytes(address) + bytes::word_bytes((total % (bytes::WORD_SPAN as nat)) as u32) + bytes::word_bytes(0)
        + bytes::word_bytes(0)
}

impl LargeWrite {
    /// Whether the body is made of whole blocks.
    pub open spec fn wf(self) -> bool {
        &&& self.block_length > 0
        &&& self.body@.len() % (self.block_length as nat) == 0
    }

    /// Whether this is the large write of the given data.
    pub open spec fn writes(self, address: u32, data: Seq<u8>, block_length: usize) -> bool {
        let body = padded(data, block_length as nat);
        &&& self.wf()
        &&& self.block_length == block_length
        &&& self.body@ == body
        &&& sends(
            self.header,
            REQ_WR_LARGE_MEM,
            block_length as int % 0x1_0000,
            body.len() as int / block_length as int % 0x1_0000,
            large_header(address, body.len()),
        )
    }

    /// Plans a large write. Data that does not fill whole blocks is padded with zeros, or refused.
    pub fn write_large_memory(address: u32, data: &[u8], block_length: usize, append_zeros: bool) -> (plan: Result<
        Self,
        Error,
    >)
        requires
            block_length > 0,
            append_zeros ==> padded(data@, block_length as nat).len() <= usize::MAX,
        ensures
            plan is Ok <==> append_zeros || data@.len() % (block_length as nat) == 0,
            plan matches Ok(p) ==> p.writes(address, data@, block_length),
            plan matches Err(e) ==> error::is_invalid(e, "Large Data must be a multiple of block length"@),
    {
        let rest: usize = data.len() % block_length;
        if rest != 0 && !append_zeros {
            return Err(error::invalid("Large Data must be a multiple of block length"));
        }
        let mut body = bytes::copy_between(data, 0, data.len());
        assert(body@ =~= data@);
        if rest != 0 {
            bytes::push_zeros(&mut body, block_length - rest);
            proof {
                lemma_padded_length(data@, block_length as nat);
            }
        }
        assert(body@ =~= padded(data@, block_length as nat));
        let total: usize = body.len();
        let count: usize = total / block_length;
        let mut header: Vec<u8> = Vec::new();
        bytes::push_word(&mut header, address);
        bytes::push_word(&mut header, (total as u64 % bytes::WORD_SPAN) as u32);
        bytes::push_word(&mut header, 0);
        bytes::push_word(&mut header, 0);
        assert(header@ =~= large_header(address, total as nat));
        Ok(
            LargeWrite {
                header: ControlOut {
                    request: REQ_WR_LARGE_MEM,
                    value: (block_length % 0x1_0000) as u16,
                    index: (count % 0x1_0000) as u16,
                    data: header,
                },
                body,
                block_length,
            },
        )
    }

    /// The block of the body that starts at byte `offset`, or nothing at the end of the body.
    pub fn block(&self, offset: usize) -> (block: Option<&[u8]>)
        requires
            self.wf(),
            offset <= self.body@.len(),
            offset % self.block_length == 0,
        ensures
            block is None <==> offset == self.body@.len(),
            block matches Some(b) ==> {
                &&& offset + self.block_length <= self.body@.len()
                &&& b@ == self.body@.subrange(offset as int, offset + self.block_length)
            },
    {
        if offset == self.body.len() {
            return None;
        }
        proof {
            lemma_whole_blocks(offset as int, self.body@.len() as int, self.block_length as int);
        }
        Some(&self.body[offset..offset + self.block_length])
    }
}

/// Between two multiples of a block length there is room for a block.
proof fn lemma_whole_blocks(from: int, to: int, block: int)
    requires
        0 < block,
        0 <= from < to,
        from % block == 0,
        to % block == 0,
    ensures
        from + block <= to,
{
    vstd::arithmetic::div_mod::lemma_fundamental_div_mod(from, block);
    vstd::arithmetic::div_mod::lemma_fundamental_div_mod(to, block);
    let a = from / block;
    let b = to / block;
    assert(a < b) by (nonlinear_arith)
        requires
            block * a < block * b,
            0 < block,
    ;
    assert(block * a + block <= block * b) by (nonlinear_arith)
        requires
            a + 1 <= b,
            0 < block,
    ;
}

/// The padded data fills whole blocks.
proof fn lemma_padded_length(data: Seq<u8>, block_length: nat)
    requires
        block_length > 0,
    ensures
        padded(data, block_length).len() % block_length == 0,
{
    let n = data.len() as int;
    let b = block_length as int;
    if n % b != 0 {
        vstd::arithmetic::div_mod::lemma_fundamental_div_mod(n, b);
        let up = b - n % b;
        assert(n + up == b * (n / b + 1)) by (nonlinear_arith)
            requires
                n == b * (n / b) + n % b,
                up == b - n % b,
        ;
        vstd::arithmetic::div_mod::lemma_mod_multiples_basic(n / b + 1, b);
        assert(b * (n / b + 1) == (n / b + 1) * b) by (nonlinear_arith);
    }
}

/// A large write sends the data first, nothing but zeros behind it, and less than one block of those.
pub proof fn large_write_keeps_the_data(plan: LargeWrite, address: u32, data: Seq<u8>, block_length: usize)
    requires
        block_length > 0,
        plan.writes(address, data, block_length),
    ensures
        data.len() <= plan.body@.len() < data.len() + block_length,
        plan.body@.take(data.len() as int) == data,
        bytes::all_zero(plan.body@.skip(data.len() as int)),
{
    assert(plan.body@.take(data.len() as int) =~= data);
    vstd::arithmetic::div_mod::lemma_mod_bound(data.len() as int, block_length as int);
}

/// An address is carried in two halves that make it up again.
pub proof fn addresses_are_carried_in_halves(address: u32)
    ensures
        0 <= upper_half(address) < 0x1_0000,
        0 <= lower_half(address) < 0x1_0000,
        0x1_0000 * upper_half(address) + lower_half(address) == address,
{
}

/// A transfer that sends something has the request, the two fields and the data that are named, and no others.
pub proof fn transfers_are_what_they_send(transfer: ControlOut, request: u8, value: int, index: int, data: Seq<u8>)
    ensures
        sends(transfer, request, value, index, data) <==> transfer.request == request && transfer.value == value
            && transfer.index == index && transfer.data@ == data,
{
}

/// The announcement of a large write: sixteen bytes that give, as little-endian words, the address and the number of
/// bytes of the body, and then eight zeros. Its fields are the length and the number of the blocks.
pub proof fn large_writes_announce_their_body(plan: LargeWrite, address: u32, data: Seq<u8>, block_length: usize)
    requires
        block_length > 0,
        plan.writes(address, data, block_length),
    ensures
        ({
            let sent = plan.header.data@;
            &&& plan.header.request == 0x11
            &&& sent.len() == 16
            &&& sent[0] + 0x100 * sent[1] + 0x1_0000 * sent[2] + 0x100_0000 * sent[3] == address
            &&& sent[4] + 0x100 * sent[5] + 0x1_0000 * sent[6] + 0x100_0000 * sent[7] == plan.body@.len() as int
                % 0x1_0000_0000
            &&& forall|i: int| 8 <= i < 16 ==> sent[i] == 0
        }),
        plan.header.value == block_length as int % 0x1_0000,
        plan.block_length == block_length,
        plan.body@.len() < 0x1_0000 * block_length ==> plan.header.index * block_length == plan.body@.len(),
{
    let total = plan.body@.len();
    let sent = plan.header.data@;
    let shown = (total % 0x1_0000_0000) as u32;
    bytes::words_are_little_endian(address);
    bytes::words_are_little_endian(shown);
    bytes::words_are_little_endian(0);
    assert(sent.len() == 16);
    assert(sent[4] == bytes::word_bytes(shown)[0]);
    assert(sent[5] == bytes::word_bytes(shown)[1]);
    assert(sent[6] == bytes::word_bytes(shown)[2]);
    assert(sent[7] == bytes::word_bytes(shown)[3]);
    let b = block_length as int;
    let q = total as int / b;
    vstd::arithmetic::div_mod::lemma_fundamental_div_mod(total as int, b);
    if total < 0x1_0000 * b {
        assert(q < 0x1_0000) by (nonlinear_arith)
            requires
                b * q < 0x1_0000 * b,
                b > 0,
        ;
        assert(q >= 0) by (nonlinear_arith)
            requires
                b * q >= 0,
                b > 0,
        ;
        assert(q * b == b * q) by (nonlinear_arith);
    }
}

/// The body of a large write is the data and then zeros, in whole blocks, with less than a block of zeros.
pub proof fn bodies_are_the_data_in_whole_blocks(data: Seq<u8>, block_length: nat)
    requires
        block_length > 0,
    ensures
        padded(data, block_length).len() % block_length == 0,
        data.len() <= padded(data, block_length).len() < data.len() + block_length,
        forall|i: int| 0 <= i < data.len() ==> padded(data, block_length)[i] == data[i],
        forall|i: int| data.len() <= i < padded(data, block_length).len() ==> padded(data, block_length)[i] == 0,
{
    lemma_padded_length(data, block_length);
    vstd::arithmetic::div_mod::lemma_mod_bound(data.len() as int, block_length as int);
}

/// Memory is moved in pieces of 64 bytes; the last one may be shorter.
pub proof fn pieces_are_64_bytes(start: nat, length: nat, address: u32)
    requires
        start < length,
    ensures
        start < piece_end(start, length) <= length,
        piece_end(start, length) == start + 64 || piece_end(start, length) == length && length < start + 64,
        length <= 64 * piece_count(length) < length + 64,
        addresses_fit(address, length) <==> address + 64 * ((length - 1) / 64) <= 0xffff_ffff,
{
    bytes::rounding_up_is_tight(length, 64);
}

/// The word of a run request is the address, and keeps the power on by its bit 4 unless that is declined. For code at
/// a multiple of 32 that bit adds sixteen.
pub proof fn power_is_kept_by_a_bit(address: u32, keep_power: Option<bool>)
    ensures
        keep_power == Some(false) ==> run_word(address, keep_power) == address,
        keep_power != Some(false) ==> run_word(address, keep_power) == address | 0x10,
        keep_power != Some(false) && address % 32 == 0 ==> run_word(address, keep_power) == address + 16,
{
    assert(address % 32 == 0 ==> address | 0x10 == address + 16) by (bit_vector);
}

} // verus!
