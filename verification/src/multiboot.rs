//! The header by which a loader recognises the kernel image.
//!
//! The header starts with four 32-bit words: a magic value, an
//! architecture identifier, the byte length of the whole header, and a
//! checksum that makes the four words add up to zero modulo 2^32. Behind
//! them stand the requests that the image makes of the loader, closed by
//! an end record.

use vstd::prelude::*;

verus! {

/// The magic value that opens the header.
pub const MULTIBOOT2_MAGIC: u32 = 0xE85250D6;

/// The architecture identifier: 32-bit protected mode.
pub const MULTIBOOT2_ARCHITECTURE: u32 = 0;

/// The number of 32-bit words in the header.
pub const MULTIBOOT2_HEADER_WORDS: usize = 23;

/// The byte length of the header.
pub const MULTIBOOT2_HEADER_LENGTH: u32 = 23 * 4;

/// The checksum of the header.
pub const MULTIBOOT2_CHECKSUM: u32 = 0xFFFFFFFF - (MULTIBOOT2_MAGIC + MULTIBOOT2_ARCHITECTURE
    + MULTIBOOT2_HEADER_LENGTH) + 1;

/// The header as it stands in the image, word by word.
pub const MULTIBOOT2_HEADER: [u32; 23] = [
    MULTIBOOT2_MAGIC,
    MULTIBOOT2_ARCHITECTURE,
    MULTIBOOT2_HEADER_LENGTH,
    MULTIBOOT2_CHECKSUM,
    5,
    0,
    20,
    80,
    25,
    0,
    6,
    0,
    8,
    1,
    0,
    16,
    1,
    3,
    6,
    10,
    0,
    0,
    8,
];

/// Whether four header words add up to zero modulo 2^32.
pub open spec fn checksum_holds(
    magic: u32,
    architecture: u32,
    header_length: u32,
    checksum: u32,
) -> bool {
    (magic + architecture + header_length + checksum) % 0x1_0000_0000 == 0
}

/// The one checksum that goes with the three other words.
pub open spec fn spec_checksum_for(magic: u32, architecture: u32, header_length: u32) -> u32 {
    ((0x1_0000_0000 - (magic + architecture + header_length) % 0x1_0000_0000) % 0x1_0000_0000) as u32
}

/// Two words that each bring the same sum to zero modulo 2^32 are the same
/// word.
proof fn lemma_complement_unique(rest: int, first: u32, second: u32)
    requires
        (rest + first) % 0x1_0000_0000 == 0,
        (rest + second) % 0x1_0000_0000 == 0,
    ensures
        first == second,
{
    let m: int = 0x1_0000_0000;
    let p = (rest + first) / m;
    let q = (rest + second) / m;
    assert(rest + first == m * p);
    assert(rest + second == m * q);
    assert(first - second == m * (p - q));
    if p != q {
        assert(p - q >= 1 || p - q <= -1);
    }
}

/// Computes the checksum that goes with the three other words.
pub fn checksum_for(magic: u32, architecture: u32, header_length: u32) -> (checksum: u32)
    ensures
        checksum == spec_checksum_for(magic, architecture, header_length),
        checksum_holds(magic, architecture, header_length, checksum),
{
    let sum: u32 = magic.wrapping_add(architecture).wrapping_add(header_length);
    0u32.wrapping_sub(sum)
}

/// The four fixed words of a header.
#[derive(Debug, Clone, Copy, PartialEq, Eq, Structural)]
pub struct MultibootHeader {
    pub magic: u32,
    pub architecture: u32,
    pub header_length: u32,
    pub checksum: u32,
}

impl MultibootHeader {
    /// Whether the checksum goes with the other three words.
    pub open spec fn spec_is_valid(self) -> bool {
        checksum_holds(self.magic, self.architecture, self.header_length, self.checksum)
    }

    /// A header with the checksum that its three other words call for.
    pub fn new(magic: u32, architecture: u32, header_length: u32) -> (header: MultibootHeader)
        ensures
            header.magic == magic,
            header.architecture == architecture,
            header.header_length == header_length,
            header.checksum == spec_checksum_for(magic, architecture, header_length),
            header.spec_is_valid(),
    {
        MultibootHeader {
            magic,
            architecture,
            header_length,
            checksum: checksum_for(magic, architecture, header_length),
        }
    }

    /// The test that a loader makes: do the four words add up to zero
    /// modulo 2^32?
    pub fn is_valid(&self) -> (valid: bool)
        ensures
            valid == self.spec_is_valid(),
    {
        let sum: u32 = self.magic.wrapping_add(self.architecture).wrapping_add(
            self.header_length,
        ).wrapping_add(self.checksum);
        sum == 0
    }

    /// The header of this image.
    pub fn image() -> (header: MultibootHeader)
        ensures
            header.magic == MULTIBOOT2_MAGIC,
            header.architecture == MULTIBOOT2_ARCHITECTURE,
            header.header_length == MULTIBOOT2_HEADER_LENGTH,
            header.checksum == MULTIBOOT2_CHECKSUM,
            header.spec_is_valid(),
    {
        MultibootHeader {
            magic: MULTIBOOT2_MAGIC,
            architecture: MULTIBOOT2_ARCHITECTURE,
            header_length: MULTIBOOT2_HEADER_LENGTH,
            checksum: MULTIBOOT2_CHECKSUM,
        }
    }

    /// The checksum is determined by the other three words: a header is
    /// valid exactly if it holds the checksum computed from them.
    pub proof fn lemma_checksum_unique(self)
        ensures
            self.spec_is_valid() <==> self.checksum == spec_checksum_for(
                self.magic,
                self.architecture,
                self.header_length,
            ),
    {
        let rest = self.magic + self.architecture + self.header_length;
        let expected = spec_checksum_for(self.magic, self.architecture, self.header_length);
        assert((rest + expected) % 0x1_0000_0000 == 0);
        if self.spec_is_valid() {
            lemma_complement_unique(rest, self.checksum, expected);
        }
    }

    /// Changing any one word of a valid header, and leaving the other
    /// three as they are, makes the header invalid.
    pub proof fn lemma_mutation_detected(self, other: u32)
        requires
            self.spec_is_valid(),
        ensures
            other != self.magic ==> !(MultibootHeader { magic: other, ..self }).spec_is_valid(),
            other != self.architecture ==> !(MultibootHeader {
                architecture: other,
                ..self
            }).spec_is_valid(),
            other != self.header_length ==> !(MultibootHeader {
                header_length: other,
                ..self
            }).spec_is_valid(),
            other != self.checksum ==> !(MultibootHeader { checksum: other, ..self }).spec_is_valid(),
    {
        let (m, a, l, c) = (self.magic, self.architecture, self.header_length, self.checksum);
        if checksum_holds(other, a, l, c) {
            lemma_complement_unique(a + l + c, m, other);
        }
        if checksum_holds(m, other, l, c) {
            lemma_complement_unique(m + l + c, a, other);
        }
        if checksum_holds(m, a, other, c) {
            lemma_complement_unique(m + a + c, l, other);
        }
        if checksum_holds(m, a, l, other) {
            lemma_complement_unique(m + a + l, c, other);
        }
    }
}

/// The header of this image is valid: its first four words are the magic
/// value, the architecture, the byte length of all its words and the
/// checksum that goes with them, and its last three words are the end
/// record.
pub proof fn lemma_image_header_valid()
    ensures
        MULTIBOOT2_HEADER@.len() == MULTIBOOT2_HEADER_WORDS,
        MULTIBOOT2_HEADER@[0] == MULTIBOOT2_MAGIC,
        MULTIBOOT2_HEADER@[1] == MULTIBOOT2_ARCHITECTURE,
        MULTIBOOT2_HEADER@[2] == MULTIBOOT2_HEADER_LENGTH,
        MULTIBOOT2_HEADER@[2] == 4 * MULTIBOOT2_HEADER@.len(),
        MULTIBOOT2_HEADER@[3] == MULTIBOOT2_CHECKSUM,
        checksum_holds(
            MULTIBOOT2_HEADER@[0],
            MULTIBOOT2_HEADER@[1],
            MULTIBOOT2_HEADER@[2],
            MULTIBOOT2_HEADER@[3],
        ),
        MULTIBOOT2_HEADER@[20] == 0,
        MULTIBOOT2_HEADER@[21] == 0,
        MULTIBOOT2_HEADER@[22] == 8,
{
}

} // verus!
