//! A dry run of the decoder over a byte stream: the listing of the
//! instructions that the bytes encode, and the header of a cartridge image.
use vstd::prelude::*;
use vstd::slice::{slice_subrange, slice_to_vec};
use vstd::string::StringExecFns;
use crate::bitwise::{spec_word, word};
use crate::instructions::{decode, decode_prefixed, Instruction};
use crate::instructions::decode::{spec_decode, spec_decode_prefixed};
use crate::text::{
    decimal, hex, hex_address, hex_bytes, spec_decimal, spec_hex, spec_hex_address, spec_hex_bytes,
};

verus! {

/// The header of a cartridge image, which lies at `0x0100..0x0150`.
#[derive(Debug, Clone)]
pub struct DMGHeader {
    pub entry_point: Vec<u8>,
    pub logo: Vec<u8>,
    pub title: Vec<u8>,
    pub licensee: Vec<u8>,
    pub sgb_flag: u8,
    pub cartridge_type: u8,
    pub rom_size: u8,
    pub ram_size: u8,
    pub destination_code: u8,
    pub old_licensee_code: u8,
    pub mask_rom_version_number: u8,
    pub header_checksum: u8,
    pub global_checksum: u16,
}

impl DMGHeader {
    /// Whether the header holds the fields of the image `bytes`, each from
    /// its place; the global checksum is stored upper byte first.
    pub open spec fn spec_of(&self, bytes: Seq<u8>) -> bool {
        &&& self.entry_point@ == bytes.subrange(0x0100, 0x0104)
        &&& self.logo@ == bytes.subrange(0x0104, 0x0134)
        &&& self.title@ == bytes.subrange(0x0134, 0x0143)
        &&& self.licensee@ == bytes.subrange(0x0144, 0x0146)
        &&& self.sgb_flag == bytes[0x0146]
        &&& self.cartridge_type == bytes[0x0147]
        &&& self.rom_size == bytes[0x0148]
        &&& self.ram_size == bytes[0x0149]
        &&& self.destination_code == bytes[0x014A]
        &&& self.old_licensee_code == bytes[0x014B]
        &&& self.mask_rom_version_number == bytes[0x014C]
        &&& self.header_checksum == bytes[0x014D]
        &&& self.global_checksum == spec_word(bytes[0x014E], bytes[0x014F])
    }
}

/// The header of a cartridge image, or nothing where the image ends before
/// the end of the header.
pub fn parse_header(bytes: &[u8]) -> (header: Option<DMGHeader>)
    ensures
        header.is_some() == (bytes@.len() >= 0x0150),
        header.is_some() ==> header.unwrap().spec_of(bytes@),
{
    if bytes.len() < 0x0150 {
        return None;
    }
    Some(
        DMGHeader {
            entry_point: slice_to_vec(slice_subrange(bytes, 0x0100, 0x0104)),
            logo: slice_to_vec(slice_subrange(bytes, 0x0104, 0x0134)),
            title: slice_to_vec(slice_subrange(bytes, 0x0134, 0x0143)),
            licensee: slice_to_vec(slice_subrange(bytes, 0x0144, 0x0146)),
            sgb_flag: bytes[0x0146],
            cartridge_type: bytes[0x0147],
            rom_size: bytes[0x0148],
            ram_size: bytes[0x0149],
            destination_code: bytes[0x014A],
            old_licensee_code: bytes[0x014B],
            mask_rom_version_number: bytes[0x014C],
            header_checksum: bytes[0x014D],
            global_checksum: word(bytes[0x014E], bytes[0x014F]),
        },
    )
}

/// One line of a listing.
#[derive(Debug, Clone, Copy)]
pub enum Line {
    /// An instruction at `address`; `length` counts the bytes of its encoded
    /// form that the stream holds.
    Decoded { address: usize, instruction: Instruction, length: usize },
    /// A byte that names no instruction.
    Unknown { address: usize, opcode: u8 },
    /// A run of `count` equal filler bytes.
    Filler { address: usize, byte: u8, count: usize },
}

impl Line {
    /// The offset of the first byte that the line stands for.
    pub open spec fn spec_address(&self) -> usize {
        match *self {
            Line::Decoded { address, .. } => address,
            Line::Unknown { address, .. } => address,
            Line::Filler { address, .. } => address,
        }
    }

    /// The number of bytes that the line stands for.
    pub open spec fn spec_size(&self) -> usize {
        match *self {
            Line::Decoded { length, .. } => length,
            Line::Unknown { .. } => 1,
            Line::Filler { count, .. } => count,
        }
    }

    #[verifier::when_used_as_spec(spec_address)]
    pub fn address(&self) -> (a: usize)
        ensures
            a == self.spec_address(),
    {
        match *self {
            Line::Decoded { address, .. } => address,
            Line::Unknown { address, .. } => address,
            Line::Filler { address, .. } => address,
        }
    }

    #[verifier::when_used_as_spec(spec_size)]
    pub fn size(&self) -> (n: usize)
        ensures
            n == self.spec_size(),
    {
        match *self {
            Line::Decoded { length, .. } => length,
            Line::Unknown { .. } => 1,
            Line::Filler { count, .. } => count,
        }
    }
}

/// A line as text: the address and a colon; then for an instruction its
/// mnemonic and the bytes of its encoded form, for an unknown byte the byte
/// and `?`, for a run of filler bytes the byte and the length of the run
/// after `x`.
pub open spec fn spec_render(line: Line, bytes: Seq<u8>) -> Seq<char> {
    match line {
        Line::Decoded { address, instruction, length } => spec_hex_address(address as nat) + ": "@
            + instruction.mnemonic@ + spec_hex_bytes(
            bytes.subrange(address as int, address + length),
        ),
        Line::Unknown { address, opcode } => spec_hex_address(address as nat) + ": "@ + spec_hex(
            opcode,
        ) + " ?"@,
        Line::Filler { address, byte, count } => spec_hex_address(address as nat) + ": "@
            + spec_hex(byte) + " x"@ + spec_decimal(count as nat),
    }
}

impl Line {
    /// The line as text; `bytes` is the stream that the line belongs to.
    pub fn render(&self, bytes: &[u8]) -> (text: String)
        requires
            self.spec_address() + self.spec_size() <= bytes@.len(),
        ensures
            text@ == spec_render(*self, bytes@),
    {
        let total = bytes.len();
        match *self {
            Line::Decoded { address, instruction, length } => {
                assert(address + length <= total);
                let mut text = hex_address(address);
                text.append(": ");
                text.append(instruction.mnemonic);
                text.append(hex_bytes(slice_subrange(bytes, address, address + length)).as_str());
                text
            },
            Line::Unknown { address, opcode } => {
                let mut text = hex_address(address);
                text.append(": ");
                text.append(hex(opcode).as_str());
                text.append(" ?");
                text
            },
            Line::Filler { address, byte, count } => {
                let mut text = hex_address(address);
                text.append(": ");
                text.append(hex(byte).as_str());
                text.append(" x");
                text.append(decimal(count).as_str());
                text
            },
        }
    }
}

/// A listing: its lines in the order of their addresses, and the number of
/// bytes that name no instruction.
#[derive(Debug, Clone)]
pub struct Listing {
    pub lines: Vec<Line>,
    pub unknown: usize,
}

/// Whether a byte is one of the two that fill unused space.
pub open spec fn spec_is_filler(byte: u8) -> bool {
    byte == 0x00 || byte == 0xFF
}

/// Whether `line` is the line of the listing of `bytes` at its address.
///
/// In `minify` mode a filler byte starts a run: the line stands for it and
/// for all bytes equal to it that follow without a gap. Else the prefix
/// `0xCB` and the byte after it give a prefixed instruction, and any other
/// byte the unprefixed instruction that it names, with as many of its
/// operand bytes as the stream still holds. A byte that names no instruction,
/// and a prefix at the very end, is unknown.
pub open spec fn spec_describes(bytes: Seq<u8>, minify: bool, line: Line) -> bool {
    let at = line.spec_address() as int;
    let first = bytes[at];
    &&& at < bytes.len()
    &&& if minify && spec_is_filler(first) {
        match line {
            Line::Filler { address, byte, count } => {
                &&& byte == first
                &&& 1 <= count
                &&& at + count <= bytes.len()
                &&& forall|i: int| at <= i < at + count ==> bytes[i] == first
                &&& at + count == bytes.len() || bytes[at + count] != first
            },
            _ => false,
        }
    } else if first == 0xCB {
        if at + 1 < bytes.len() {
            match line {
                Line::Decoded { address, instruction, length } => {
                    &&& instruction.wf()
                    &&& instruction.spec_named()
                    &&& instruction.opcode == bytes[at + 1]
                    &&& instruction.handler == spec_decode_prefixed(bytes[at + 1])
                    &&& length == 2
                },
                _ => false,
            }
        } else {
            line == (Line::Unknown { address: line.spec_address(), opcode: first })
        }
    } else {
        match spec_decode(first) {
            Some(op) => match line {
                Line::Decoded { address, instruction, length } => {
                    &&& instruction.wf()
                    &&& instruction.spec_named()
                    &&& instruction.opcode == first
                    &&& instruction.handler == op
                    &&& length == if at + op.length() <= bytes.len() {
                        op.length() as int
                    } else {
                        bytes.len() - at
                    }
                },
                _ => false,
            },
            None => line == (Line::Unknown { address: line.spec_address(), opcode: first }),
        }
    }
}

/// Whether `lines` is the listing of `bytes`: the first line starts at
/// offset zero, each line starts where the one before it ends, the last one
/// ends with the stream, and each is the line for its address.
pub open spec fn spec_listing(bytes: Seq<u8>, minify: bool, lines: Seq<Line>) -> bool {
    &&& forall|k: int| 0 <= k < lines.len() ==> spec_describes(bytes, minify, #[trigger] lines[k])
    &&& forall|k: int|
        0 <= k < lines.len() ==> (#[trigger] lines[k]).spec_address() == (if k == 0 {
            0
        } else {
            lines[k - 1].spec_address() + lines[k - 1].spec_size()
        })
    &&& if lines.len() == 0 {
        bytes.len() == 0
    } else {
        lines.last().spec_address() + lines.last().spec_size() == bytes.len()
    }
}

/// The number of lines for bytes that name no instruction.
pub open spec fn spec_unknown(lines: Seq<Line>) -> nat
    decreases lines.len(),
{
    if lines.len() == 0 {
        0
    } else {
        spec_unknown(lines.drop_last()) + (if lines.last() is Unknown {
            1nat
        } else {
            0nat
        })
    }
}

/// The lines as text, each with a line feed after it.
pub open spec fn spec_render_all(lines: Seq<Line>, bytes: Seq<u8>) -> Seq<char>
    decreases lines.len(),
{
    if lines.len() == 0 {
        Seq::empty()
    } else {
        spec_render_all(lines.drop_last(), bytes) + spec_render(lines.last(), bytes) + "\n"@
    }
}

impl Listing {
    /// The listing as text, one line for each of its lines; `bytes` is the
    /// stream that was listed.
    pub fn render(&self, bytes: &[u8]) -> (text: String)
        requires
            forall|k: int|
                0 <= k < self.lines@.len() ==> (#[trigger] self.lines@[k]).spec_address()
                    + self.lines@[k].spec_size() <= bytes@.len(),
        ensures
            text@ == spec_render_all(self.lines@, bytes@),
    {
        let mut text = String::new();
        let mut k: usize = 0;
        while k < self.lines.len()
            invariant
                k <= self.lines@.len(),
                forall|j: int|
                    0 <= j < self.lines@.len() ==> (#[trigger] self.lines@[j]).spec_address()
                        + self.lines@[j].spec_size() <= bytes@.len(),
                text@ == spec_render_all(self.lines@.subrange(0, k as int), bytes@),
            decreases self.lines@.len() - k,
        {
            proof {
                let next = self.lines@.subrange(0, k + 1);
                assert(next.drop_last() =~= self.lines@.subrange(0, k as int));
                assert(next.last() == self.lines@[k as int]);
            }
            text.append(self.lines[k].render(bytes).as_str());
            text.append("\n");
            k += 1;
        }
        proof {
            assert(self.lines@.subrange(0, self.lines@.len() as int) =~= self.lines@);
        }
        text
    }
}

/// Every line of a listing lies within the stream that was listed.
pub proof fn lemma_listing_in_bounds(bytes: Seq<u8>, minify: bool, lines: Seq<Line>)
    requires
        spec_listing(bytes, minify, lines),
    ensures
        forall|k: int|
            0 <= k < lines.len() ==> (#[trigger] lines[k]).spec_address() + lines[k].spec_size()
                <= bytes.len(),
{
    assert forall|k: int| 0 <= k < lines.len() implies (#[trigger] lines[k]).spec_address()
        + lines[k].spec_size() <= bytes.len() by {
        assert(spec_describes(bytes, minify, lines[k]));
        match lines[k] {
            Line::Decoded { instruction, .. } => {
                instruction.handler.lemma_length();
            },
            _ => {},
        }
    }
}

/// The line of the listing of `bytes` at offset `at`.
fn line_at(bytes: &[u8], at: usize, minify: bool) -> (line: Line)
    requires
        at < bytes@.len(),
    ensures
        line.spec_address() == at,
        spec_describes(bytes@, minify, line),
        at + line.spec_size() <= bytes@.len(),
        line.spec_size() >= 1,
{
    let first = bytes[at];
    let total = bytes.len();
    let rest = total - at;
    if minify && (first == 0x00 || first == 0xFF) {
        let mut count: usize = 1;
        while count < rest && bytes[at + count] == first
            invariant
                1 <= count <= rest,
                total == bytes@.len(),
                rest == total - at,
                first == bytes@[at as int],
                forall|i: int| at <= i < at + count ==> bytes@[i] == first,
            decreases rest - count,
        {
            count += 1;
        }
        Line::Filler { address: at, byte: first, count }
    } else if first == 0xCB {
        if rest > 1 {
            Line::Decoded { address: at, instruction: decode_prefixed(bytes[at + 1]), length: 2 }
        } else {
            Line::Unknown { address: at, opcode: first }
        }
    } else {
        match decode(first) {
            Some(instruction) => {
                proof {
                    instruction.handler.lemma_length();
                }
                let wanted = instruction.length as usize;
                let length = if wanted <= rest {
                    wanted
                } else {
                    rest
                };
                Line::Decoded { address: at, instruction, length }
            },
            None => Line::Unknown { address: at, opcode: first },
        }
    }
}

/// The listing of `bytes` from offset zero to the end; in `minify` mode each
/// run of equal filler bytes (`0x00` or `0xFF`) takes one line.
pub fn disassemble(bytes: &[u8], minify: bool) -> (listing: Listing)
    ensures
        spec_listing(bytes@, minify, listing.lines@),
        listing.unknown == spec_unknown(listing.lines@),
        forall|k: int|
            0 <= k < listing.lines@.len() ==> (#[trigger] listing.lines@[k]).spec_address()
                + listing.lines@[k].spec_size() <= bytes@.len(),
{
    let mut lines: Vec<Line> = Vec::new();
    let mut unknown: usize = 0;
    let mut at: usize = 0;
    while at < bytes.len()
        invariant
            at <= bytes@.len(),
            forall|k: int|
                0 <= k < lines@.len() ==> spec_describes(bytes@, minify, #[trigger] lines@[k]),
            forall|k: int|
                0 <= k < lines@.len() ==> (#[trigger] lines@[k]).spec_address() == (if k == 0 {
                    0
                } else {
                    lines@[k - 1].spec_address() + lines@[k - 1].spec_size()
                }),
            forall|k: int| 0 <= k < lines@.len() ==> (#[trigger] lines@[k]).spec_size() >= 1,
            if lines@.len() == 0 {
                at == 0
            } else {
                lines@.last().spec_address() + lines@.last().spec_size() == at
            },
            lines@.len() <= at,
            unknown == spec_unknown(lines@),
            unknown <= lines@.len(),
        decreases bytes@.len() - at,
    {
        let line = line_at(bytes, at, minify);
        let ghost before = lines@;
        if let Line::Unknown { .. } = line {
            unknown += 1;
        }
        lines.push(line);
        proof {
            assert(lines@.drop_last() =~= before);
        }
        at += line.size();
    }
    proof {
        lemma_listing_in_bounds(bytes@, minify, lines@);
    }
    Listing { lines, unknown }
}

} // verus!
