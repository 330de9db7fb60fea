//! The chain of blocks, as far as clients ask for it.

use crate::electrum::hex;
use crate::electrum::hex::to_hex;
use vstd::prelude::*;
use vstd::string::StringExecFns;

verus! {

/// The header of a block.
#[derive(Debug, Clone, Copy, PartialEq, Eq)]
pub struct BlockHeader {
    pub version: i32,
    pub prev_blockhash: [u8; 32],
    pub merkle_root: [u8; 32],
    pub time: u32,
    pub bits: u32,
    pub nonce: u32,
}

/// A block: the text of its hash, and its header.
#[derive(Debug, PartialEq)]
pub struct ChainBlock {
    pub hash: String,
    pub header: BlockHeader,
}

/// What a `ChainBlock` is.
pub struct ChainBlockView {
    pub hash: Seq<char>,
    pub header: BlockHeader,
}

/// The blocks from the first one up to the tip; there is at least one.
#[derive(Debug)]
pub struct Chain {
    blocks: Vec<ChainBlock>,
}

/// At most so many headers are handed out at once.
pub const MAX_HEADERS: usize = 2016;

/// Four bytes of an integer, the low one first; a negative integer is in two's complement.
pub open spec fn low_byte_first(n: int) -> Seq<u8> {
    seq![
        (n % 256) as u8,
        (n / 0x100 % 256) as u8,
        (n / 0x1_0000 % 256) as u8,
        (n / 0x100_0000 % 256) as u8,
    ]
}

impl BlockHeader {
    /// The header as it is hashed: its fields in order, integers with the low byte first.
    pub open spec fn bytes(self) -> Seq<u8> {
        low_byte_first(self.version as int) + self.prev_blockhash@ + self.merkle_root@
            + low_byte_first(self.time as int) + low_byte_first(self.bits as int) + low_byte_first(
            self.nonce as int,
        )
    }

    /// The header in hexadecimal digits.
    pub open spec fn hex(self) -> Seq<char> {
        hex::hex_text(self.bytes())
    }

    /// Writes the header in hexadecimal digits.
    pub fn to_hex(&self) -> (text: String)
        ensures
            text@ == self.hex(),
    {
        to_hex(serialize_header(self).as_slice())
    }
}

/// `bitcoin::consensus::serialize` on a block header: its fields in order, integers with the low
/// byte first and hashes byte by byte.
#[verifier::external_body]
fn serialize_header(header: &BlockHeader) -> (bytes: Vec<u8>)
    ensures
        bytes@ == header.bytes(),
{
    bitcoin::consensus::serialize(
        &bitcoin::BlockHeader {
            version: header.version,
            prev_blockhash: bitcoin::hashes::Hash::from_inner(header.prev_blockhash),
            merkle_root: bitcoin::hashes::Hash::from_inner(header.merkle_root),
            time: header.time,
            bits: header.bits,
            nonce: header.nonce,
        },
    )
}

impl ChainBlock {
    /// What the block is.
    pub open spec fn view(&self) -> ChainBlockView {
        ChainBlockView { hash: self.hash@, header: self.header }
    }
}

/// What blocks are.
pub open spec fn blocks_view(blocks: Seq<ChainBlock>) -> Seq<ChainBlockView> {
    blocks.map_values(|block: ChainBlock| block@)
}

/// How many headers are handed out: no more than asked for, than are handed out at once, and than
/// there are from `start` up to the tip.
pub open spec fn window(height: nat, start: nat, count: nat) -> nat {
    let left = if height + 1 >= start {
        (height + 1 - start) as nat
    } else {
        0
    };
    let asked = if count <= MAX_HEADERS {
        count
    } else {
        MAX_HEADERS as nat
    };
    if asked <= left {
        asked
    } else {
        left
    }
}

/// Headers one behind another, in hexadecimal digits.
pub open spec fn headers_hex(blocks: Seq<ChainBlockView>, start: nat, count: nat) -> Seq<char>
    decreases count,
{
    if count == 0 {
        Seq::empty()
    } else {
        headers_hex(blocks, start, (count - 1) as nat) + blocks[start + count - 1].header.hex()
    }
}

/// The headers that are handed out are there: from `start` on, none lies behind the tip.
pub proof fn window_is_within_the_chain(height: nat, start: nat, count: nat, i: nat)
    ensures
        window(height, start, count) <= count,
        window(height, start, count) <= MAX_HEADERS,
        i < window(height, start, count) ==> start + i <= height,
        window(height, start, count) == 0 <==> count == 0 || start > height,
{
}

/// As many headers are handed out as the bounds allow: all that were asked for, or as many as are
/// handed out at once, or all from `start` up to the tip. Where `start` lies behind the tip there
/// are none.
pub proof fn window_is_as_wide_as_it_can_be(height: nat, start: nat, count: nat)
    ensures
        window(height, start, count) <= count,
        window(height, start, count) <= 2016,
        start <= height ==> start + window(height, start, count) <= height + 1,
        start > height ==> window(height, start, count) == 0,
        start <= height ==> {
            ||| window(height, start, count) == count
            ||| window(height, start, count) == 2016
            ||| start + window(height, start, count) == height + 1
        },
{
}

/// The integer whose four bytes are given, the low one first.
pub open spec fn from_low_byte_first(bytes: Seq<u8>) -> int {
    bytes[0] + bytes[1] * 0x100 + bytes[2] * 0x1_0000 + bytes[3] * 0x100_0000
}

proof fn bytes_make_up_the_integer(n: int)
    requires
        -0x8000_0000 <= n < 0x1_0000_0000,
    ensures
        low_byte_first(n).len() == 4,
        from_low_byte_first(low_byte_first(n)) == if n >= 0 {
            n
        } else {
            n + 0x1_0000_0000
        },
{
    assert(n == n % 256 + 256 * (n / 0x100 % 256) + 0x1_0000 * (n / 0x1_0000 % 256) + 0x100_0000 * (n
        / 0x100_0000 % 256) + 0x1_0000_0000 * (n / 0x1_0000_0000));
}

/// The fields of a header stand one behind another in its bytes: the version, the hash of the block
/// before, the root of the transactions, the time, the difficulty and the nonce.
pub proof fn header_holds_its_fields(header: BlockHeader)
    ensures
        header.bytes().len() == 80,
        from_low_byte_first(header.bytes().subrange(0, 4)) == if header.version >= 0 {
            header.version as int
        } else {
            header.version + 0x1_0000_0000
        },
        header.bytes().subrange(4, 36) == header.prev_blockhash@,
        header.bytes().subrange(36, 68) == header.merkle_root@,
        from_low_byte_first(header.bytes().subrange(68, 72)) == header.time,
        from_low_byte_first(header.bytes().subrange(72, 76)) == header.bits,
        from_low_byte_first(header.bytes().subrange(76, 80)) == header.nonce,
{
    let bytes = header.bytes();
    header_has_fixed_size(header);
    bytes_make_up_the_integer(header.version as int);
    bytes_make_up_the_integer(header.time as int);
    bytes_make_up_the_integer(header.bits as int);
    bytes_make_up_the_integer(header.nonce as int);
    assert(bytes.subrange(0, 4) =~= low_byte_first(header.version as int));
    assert(bytes.subrange(4, 36) =~= header.prev_blockhash@);
    assert(bytes.subrange(36, 68) =~= header.merkle_root@);
    assert(bytes.subrange(68, 72) =~= low_byte_first(header.time as int));
    assert(bytes.subrange(72, 76) =~= low_byte_first(header.bits as int));
    assert(bytes.subrange(76, 80) =~= low_byte_first(header.nonce as int));
}

/// Each header that is handed out is that of the block at its height, in the order of the heights.
#[verifier::spinoff_prover]
pub proof fn headers_come_in_order(blocks: Seq<ChainBlockView>, start: nat, count: nat, i: nat)
    requires
        i < count,
    ensures
        headers_hex(blocks, start, count).len() == 160 * count,
        headers_hex(blocks, start, count).subrange(160 * i as int, 160 * (i + 1) as int)
            == blocks[(start + i) as int].header.hex(),
        hex::hex_bytes(
            headers_hex(blocks, start, count).subrange(160 * i as int, 160 * (i + 1) as int),
        ) == Some(blocks[(start + i) as int].header.bytes()),
    decreases count,
{
    let front = headers_hex(blocks, start, (count - 1) as nat);
    let last = blocks[start + count - 1].header.hex();
    headers_have_fixed_size(blocks, start, (count - 1) as nat);
    headers_have_fixed_size(blocks, start, count);
    header_has_fixed_size(blocks[start + count - 1].header);
    hex::hex_round_trip(blocks[(start + i) as int].header.bytes());
    if i < count - 1 {
        headers_come_in_order(blocks, start, (count - 1) as nat, i);
        text_keeps_its_front(front, last, 160 * i as int, 160 * (i + 1) as int);
    } else {
        text_ends_with_what_is_added(front, last);
    }
}

proof fn text_keeps_its_front(front: Seq<char>, last: Seq<char>, from: int, to: int)
    requires
        0 <= from <= to <= front.len(),
    ensures
        (front + last).subrange(from, to) == front.subrange(from, to),
{
    assert((front + last).subrange(from, to) =~= front.subrange(from, to));
}

proof fn text_ends_with_what_is_added(front: Seq<char>, last: Seq<char>)
    ensures
        (front + last).subrange(front.len() as int, (front.len() + last.len()) as int) == last,
{
    assert((front + last).subrange(front.len() as int, (front.len() + last.len()) as int) =~= last);
}

/// A header takes up a fixed number of digits.
pub proof fn headers_have_fixed_size(blocks: Seq<ChainBlockView>, start: nat, count: nat)
    ensures
        headers_hex(blocks, start, count).len() == 160 * count,
    decreases count,
{
    if count > 0 {
        headers_have_fixed_size(blocks, start, (count - 1) as nat);
        header_has_fixed_size(blocks[start + count - 1].header);
    }
}

proof fn header_has_fixed_size(header: BlockHeader)
    ensures
        header.bytes().len() == 80,
        header.hex().len() == 160,
{
    assert(header.prev_blockhash@.len() == 32);
    assert(header.merkle_root@.len() == 32);
}

impl Chain {
    #[verifier::type_invariant]
    spec fn well_formed(self) -> bool {
        self.blocks@.len() > 0
    }

    /// The blocks, the first one first.
    pub closed spec fn view(&self) -> Seq<ChainBlockView> {
        blocks_view(self.blocks@)
    }

    /// The height of the tip.
    pub open spec fn top(&self) -> nat {
        (self@.len() - 1) as nat
    }

    /// Takes the blocks of a chain; no blocks are none.
    pub fn new(blocks: Vec<ChainBlock>) -> (chain: Option<Chain>)
        ensures
            match chain {
                Some(chain) => blocks@.len() > 0 && chain@ == blocks_view(blocks@),
                None => blocks@.len() == 0,
            },
    {
        if blocks.len() == 0 {
            None
        } else {
            Some(Chain { blocks })
        }
    }

    /// The height of the tip.
    pub fn height(&self) -> (height: usize)
        ensures
            height == self.top(),
            height < usize::MAX,
            self@.len() > 0,
    {
        proof {
            use_type_invariant(&*self);
        }
        self.blocks.len() - 1
    }

    /// The hash of the tip.
    pub fn tip(&self) -> (hash: String)
        ensures
            hash@ == self@.last().hash,
    {
        proof {
            use_type_invariant(&*self);
        }
        self.blocks[self.blocks.len() - 1].hash.clone()
    }

    /// The header of the block at a height.
    pub fn get_block_header(&self, height: usize) -> (header: Option<&BlockHeader>)
        ensures
            match header {
                Some(header) => height < self@.len() && *header == self@[height as int].header,
                None => height >= self@.len(),
            },
    {
        if height < self.blocks.len() {
            Some(&self.blocks[height].header)
        } else {
            None
        }
    }

    /// The hash of the block at a height.
    pub fn get_block_hash(&self, height: usize) -> (hash: Option<&String>)
        ensures
            match hash {
                Some(hash) => height < self@.len() && hash@ == self@[height as int].hash,
                None => height >= self@.len(),
            },
    {
        if height < self.blocks.len() {
            Some(&self.blocks[height].hash)
        } else {
            None
        }
    }

    /// Tells how many headers are handed out.
    pub fn window(&self, start_height: usize, count: usize) -> (len: usize)
        ensures
            len == window(self.top(), start_height as nat, count as nat),
            len <= count,
            len <= 2016,
            start_height < self@.len() ==> start_height + len <= self@.len(),
            start_height < self@.len() ==> len == count || len == 2016 || start_height + len
                == self@.len(),
            start_height >= self@.len() ==> len == 0,
    {
        let height: usize = self.height();
        let left: usize = (height + 1).saturating_sub(start_height);
        let asked: usize = if count <= MAX_HEADERS {
            count
        } else {
            MAX_HEADERS
        };
        if asked <= left {
            asked
        } else {
            left
        }
    }

    /// Writes headers one behind another, in hexadecimal digits.
    pub fn headers_hex(&self, start_height: usize, count: usize) -> (text: String)
        requires
            start_height + count <= self@.len(),
        ensures
            text@ == headers_hex(self@, start_height as nat, count as nat),
    {
        let mut text = String::new();
        let len: usize = self.blocks.len();
        for i in 0..count
            invariant
                start_height + count <= len,
                len == self.blocks@.len(),
                text@ == headers_hex(self@, start_height as nat, i as nat),
        {
            let header = self.blocks[start_height + i].header.to_hex();
            text.append(header.as_str());
        }
        text
    }
}

} // verus!
