use vstd::prelude::*;

verus! {

/// The name of the file which holds the [`TextureInfo`] of a cached texture.
pub const TEXTURE_INFO_FILE_NAME: &'static str = "info.toml";

/// The name of the file which holds the texels of a cached texture.
pub const TEXTURE_FILE_NAME: &'static str = "texture.raw";

/// The name of the file which holds the checksum of a cached texture.
pub const TEXTURE_CHECKSUM_FILE_NAME: &'static str = "texture.hash";

/// Information about the cached texture.
#[derive(Debug)]
pub struct TextureInfo {
    width: u32,
    height: u32,
    amount_row_padding_bytes: u32,
}

/// The bytes which fill a row of `width` texels of `texel_byte_size` bytes up
/// to the next multiple of `row_alignment`; a row that is already aligned
/// gets a whole `row_alignment` of padding.
pub open spec fn row_padding(width: int, texel_byte_size: int, row_alignment: int) -> int {
    row_alignment - (width * texel_byte_size) % row_alignment
}

/// A padded row is aligned, and its padding is at least one byte and at most
/// one alignment.
pub proof fn lemma_padded_row_is_aligned(width: int, texel_byte_size: int, row_alignment: int)
    requires
        row_alignment > 0,
    ensures
        (width * texel_byte_size + row_padding(width, texel_byte_size, row_alignment))
            % row_alignment == 0,
        0 < row_padding(width, texel_byte_size, row_alignment) <= row_alignment,
{
    let a = width * texel_byte_size;
    vstd::arithmetic::div_mod::lemma_fundamental_div_mod(a, row_alignment);
    assert(a + row_padding(width, texel_byte_size, row_alignment) == row_alignment * (a
        / row_alignment + 1) + 0) by (nonlinear_arith)
        requires
            a == row_alignment * (a / row_alignment) + a % row_alignment,
            row_padding(width, texel_byte_size, row_alignment) == row_alignment - a
                % row_alignment,
    ;
    vstd::arithmetic::div_mod::lemma_mod_multiples_vanish(a / row_alignment + 1, 0, row_alignment);
    assert(0 <= a % row_alignment < row_alignment) by {
        vstd::arithmetic::div_mod::lemma_mod_bound(a, row_alignment);
    }
}

impl TextureInfo {
    pub closed spec fn width_of(&self) -> u32 {
        self.width
    }

    pub closed spec fn height_of(&self) -> u32 {
        self.height
    }

    pub closed spec fn padding_of(&self) -> u32 {
        self.amount_row_padding_bytes
    }

    /// The information of a texture of `width` x `height` texels of
    /// `texel_byte_size` bytes each, whose rows are padded up to a multiple of
    /// `row_alignment` bytes.
    pub fn new(width: u32, height: u32, texel_byte_size: u32, row_alignment: u32) -> (info: Self)
        requires
            row_alignment > 0,
            width * texel_byte_size <= u32::MAX,
        ensures
            info.width_of() == width,
            info.height_of() == height,
            info.padding_of() == row_padding(
                width as int,
                texel_byte_size as int,
                row_alignment as int,
            ),
    {
        proof {
            lemma_padded_row_is_aligned(width as int, texel_byte_size as int, row_alignment as int);
        }
        let unpadded: u32 = width * texel_byte_size;
        TextureInfo { width, height, amount_row_padding_bytes: row_alignment - unpadded % row_alignment }
    }

    /// The information as it was read back from a cache.
    pub fn from_parts(width: u32, height: u32, amount_row_padding_bytes: u32) -> (info: Self)
        ensures
            info.width_of() == width,
            info.height_of() == height,
            info.padding_of() == amount_row_padding_bytes,
    {
        TextureInfo { width, height, amount_row_padding_bytes }
    }

    pub fn width(&self) -> (w: u32)
        ensures
            w == self.width_of(),
    {
        self.width
    }

    pub fn height(&self) -> (h: u32)
        ensures
            h == self.height_of(),
    {
        self.height
    }

    pub fn amount_row_padding_bytes(&self) -> (p: u32)
        ensures
            p == self.padding_of(),
    {
        self.amount_row_padding_bytes
    }

    /// The bytes of one row of texels without padding; also the bytes per row
    /// of the cached texels.
    pub fn unpadded_line_size(&self, texel_byte_size: u32) -> (n: u32)
        requires
            self.width_of() * texel_byte_size <= u32::MAX,
        ensures
            n == self.width_of() * texel_byte_size,
    {
        self.width * texel_byte_size
    }

    /// The bytes of one row of texels with its padding.
    pub fn padded_line_size(&self, texel_byte_size: u32) -> (n: u32)
        requires
            self.width_of() * texel_byte_size + self.padding_of() <= u32::MAX,
        ensures
            n == self.width_of() * texel_byte_size + self.padding_of(),
    {
        proof {
            assert(self.width * texel_byte_size <= u32::MAX);
        }
        self.width * texel_byte_size + self.amount_row_padding_bytes
    }

    /// The bytes of all padded rows, the size of the buffer the texture is
    /// copied into.
    pub fn padded_buffer_size(&self, texel_byte_size: u32) -> (n: u32)
        requires
            (self.width_of() * texel_byte_size + self.padding_of()) * self.height_of()
                <= u32::MAX,
        ensures
            n == (self.width_of() * texel_byte_size + self.padding_of()) * self.height_of(),
    {
        let padded: u32 = if self.height == 0 {
            0
        } else {
            proof {
                let p = self.width * texel_byte_size + self.amount_row_padding_bytes;
                assert(p <= p * self.height) by (nonlinear_arith)
                    requires
                        self.height >= 1,
                        p >= 0,
                ;
                assert(self.width * texel_byte_size <= p);
            }
            self.padded_line_size(texel_byte_size)
        };
        if self.height == 0 {
            proof {
                let p = self.width * texel_byte_size + self.amount_row_padding_bytes;
                assert(p * 0 == 0) by (nonlinear_arith);
            }
            0
        } else {
            padded * self.height
        }
    }
}

/// The big-endian number of eight bytes.
pub open spec fn be_u64(b: Seq<u8>) -> u64
    recommends
        b.len() == 8,
{
    ((b[0] as u64) << 56u64) | ((b[1] as u64) << 48u64) | ((b[2] as u64) << 40u64) | ((
    b[3] as u64) << 32u64) | ((b[4] as u64) << 24u64) | ((b[5] as u64) << 16u64) | ((
    b[6] as u64) << 8u64) | (b[7] as u64)
}

/// The eight bytes of `x`, most significant first.
pub open spec fn be_bytes(x: u64) -> Seq<u8> {
    seq![
        (x >> 56u64) as u8,
        (x >> 48u64) as u8,
        (x >> 40u64) as u8,
        (x >> 32u64) as u8,
        (x >> 24u64) as u8,
        (x >> 16u64) as u8,
        (x >> 8u64) as u8,
        x as u8,
    ]
}

/// A checksum is stored most significant byte first: the first byte is the
/// top eight bits of the number and the last byte its lowest eight bits.
pub proof fn lemma_checksum_most_significant_first(x: u64)
    ensures
        be_bytes(x).len() == 8,
        be_bytes(x)[0] == x / 0x100_0000_0000_0000,
        be_bytes(x)[7] == x % 0x100,
{
    assert((x >> 56u64) as u8 == x / 0x100_0000_0000_0000 && x as u8 == x % 0x100) by (bit_vector);
}

/// Writing a checksum and reading it back gives the checksum.
pub proof fn lemma_checksum_roundtrip(x: u64)
    ensures
        be_u64(be_bytes(x)) == x,
{
    let b = be_bytes(x);
    assert(b[0] == (x >> 56u64) as u8);
    assert(b[7] == x as u8);
    assert((((x >> 56u64) as u8 as u64) << 56u64) | (((x >> 48u64) as u8 as u64) << 48u64) | (((x
        >> 40u64) as u8 as u64) << 40u64) | (((x >> 32u64) as u8 as u64) << 32u64) | (((x
        >> 24u64) as u8 as u64) << 24u64) | (((x >> 16u64) as u8 as u64) << 16u64) | (((x
        >> 8u64) as u8 as u64) << 8u64) | (x as u8 as u64) == x) by (bit_vector);
}

/// Reading eight stored bytes as a checksum and writing it again gives the
/// bytes back.
pub proof fn lemma_bytes_roundtrip(b: Seq<u8>)
    requires
        b.len() == 8,
    ensures
        be_bytes(be_u64(b)) == b,
{
    let (b0, b1, b2, b3, b4, b5, b6, b7) = (b[0], b[1], b[2], b[3], b[4], b[5], b[6], b[7]);
    let x = be_u64(b);
    assert(x == ((b0 as u64) << 56u64) | ((b1 as u64) << 48u64) | ((b2 as u64) << 40u64) | ((
    b3 as u64) << 32u64) | ((b4 as u64) << 24u64) | ((b5 as u64) << 16u64) | ((b6 as u64)
        << 8u64) | (b7 as u64));
    assert((x >> 56u64) as u8 == b0 && (x >> 48u64) as u8 == b1 && (x >> 40u64) as u8 == b2
        && (x >> 32u64) as u8 == b3 && (x >> 24u64) as u8 == b4 && (x >> 16u64) as u8 == b5
        && (x >> 8u64) as u8 == b6 && x as u8 == b7) by (bit_vector)
        requires
            x == ((b0 as u64) << 56u64) | ((b1 as u64) << 48u64) | ((b2 as u64) << 40u64) | ((
            b3 as u64) << 32u64) | ((b4 as u64) << 24u64) | ((b5 as u64) << 16u64) | ((
            b6 as u64) << 8u64) | (b7 as u64),
    ;
    assert(be_bytes(x) =~= b);
}

/// Reads the checksum that a cache stores as eight big-endian bytes.
pub fn checksum_from_be_bytes(bytes: &[u8]) -> (checksum: u64)
    requires
        bytes@.len() == 8,
    ensures
        checksum == be_u64(bytes@),
{
    ((bytes[0] as u64) << 56u64) | ((bytes[1] as u64) << 48u64) | ((bytes[2] as u64) << 40u64)
        | ((bytes[3] as u64) << 32u64) | ((bytes[4] as u64) << 24u64) | ((bytes[5] as u64)
        << 16u64) | ((bytes[6] as u64) << 8u64) | (bytes[7] as u64)
}

/// The eight big-endian bytes that a cache stores for `checksum`.
pub fn checksum_to_be_bytes(checksum: u64) -> (bytes: [u8; 8])
    ensures
        bytes@ == be_bytes(checksum),
{
    let bytes: [u8; 8] = [
        (checksum >> 56u64) as u8,
        (checksum >> 48u64) as u8,
        (checksum >> 40u64) as u8,
        (checksum >> 32u64) as u8,
        (checksum >> 24u64) as u8,
        (checksum >> 16u64) as u8,
        (checksum >> 8u64) as u8,
        checksum as u8,
    ];
    assert(bytes@ =~= be_bytes(checksum));
    bytes
}

/// Whether the stored checksum bytes name the checksum of the texture as
/// it is now.
pub fn cache_is_up_to_date(stored_checksum: &[u8], checksum: u64) -> (up_to_date: bool)
    requires
        stored_checksum@.len() == 8,
    ensures
        up_to_date == (be_u64(stored_checksum@) == checksum),
{
    checksum_from_be_bytes(stored_checksum) == checksum
}

/// The first `unpadded` bytes of each row of `padded` bytes in `s`; the last
/// row may be shorter than `padded`.
pub open spec fn unpadded_rows(s: Seq<u8>, padded: nat, unpadded: nat) -> Seq<u8>
    decreases s.len(),
{
    if s.len() == 0 || padded == 0 {
        Seq::empty()
    } else if s.len() <= padded {
        s.take(unpadded as int)
    } else {
        s.take(unpadded as int) + unpadded_rows(s.skip(padded as int), padded, unpadded)
    }
}

/// Dropping the padding of `rows` full rows of `padded` bytes leaves
/// `rows` rows of `unpadded` bytes.
pub proof fn lemma_unpadded_rows_len(s: Seq<u8>, padded: nat, unpadded: nat, rows: nat)
    requires
        0 < padded,
        unpadded <= padded,
        s.len() == rows * padded,
    ensures
        unpadded_rows(s, padded, unpadded).len() == rows * unpadded,
    decreases rows,
{
    if rows == 0 {
        assert(s.len() == 0) by (nonlinear_arith)
            requires
                s.len() == rows * padded,
                rows == 0,
        ;
        assert(rows * unpadded == 0) by (nonlinear_arith)
            requires
                rows == 0,
        ;
    } else {
        assert(s.len() == (rows - 1) * padded + padded) by (nonlinear_arith)
            requires
                s.len() == rows * padded,
        ;
        assert(rows * unpadded == (rows - 1) * unpadded + unpadded) by (nonlinear_arith);
        if rows == 1 {
            assert((rows - 1) * padded == 0) by (nonlinear_arith)
                requires
                    rows == 1,
            ;
            assert((rows - 1) * unpadded == 0) by (nonlinear_arith)
                requires
                    rows == 1,
            ;
            assert(s.len() == padded);
            assert(unpadded_rows(s, padded, unpadded) == s.take(unpadded as int));
            assert(rows * unpadded == unpadded) by (nonlinear_arith)
                requires
                    rows == 1,
            ;
        } else {
            assert((rows - 1) * padded >= padded) by (nonlinear_arith)
                requires
                    rows >= 2,
            ;
            lemma_unpadded_rows_len(s.skip(padded as int), padded, unpadded, (rows - 1) as nat);
            assert(s.len() > padded);
            assert(unpadded_rows(s, padded, unpadded) == s.take(unpadded as int) + unpadded_rows(
                s.skip(padded as int),
                padded,
                unpadded,
            ));
        }
    }
}

/// Drops the padding at the end of each row: keeps the first
/// `unpadded_line_size` bytes of each chunk of `padded_line_size` bytes.
pub fn unpad_rows(padded: &[u8], padded_line_size: usize, unpadded_line_size: usize) -> (texels:
    Vec<u8>)
    requires
        0 < padded_line_size,
        unpadded_line_size <= padded_line_size,
        padded@.len() % (padded_line_size as nat) == 0 || padded@.len() % (
        padded_line_size as nat) >= unpadded_line_size,
    ensures
        texels@ == unpadded_rows(padded@, padded_line_size as nat, unpadded_line_size as nat),
{
    let ghost p = padded_line_size as nat;
    let ghost u = unpadded_line_size as nat;
    let mut texels: Vec<u8> = Vec::new();
    let mut start: usize = 0;
    let len: usize = padded.len();
    proof {
        assert(padded@.skip(0) =~= padded@);
    }
    while start < len
        invariant
            len == padded@.len(),
            0 < p,
            u <= p,
            p == padded_line_size,
            u == unpadded_line_size,
            start <= padded@.len(),
            (padded@.len() - start) % (p as int) == 0 || (padded@.len() - start) % (p as int)
                >= u as int,
            texels@ + unpadded_rows(padded@.skip(start as int), p, u) == unpadded_rows(
                padded@,
                p,
                u,
            ),
        decreases padded@.len() - start,
    {
        let ghost rest = padded@.skip(start as int);
        let rest_len: usize = len - start;
        let end: usize = if rest_len < padded_line_size {
            len
        } else {
            start + padded_line_size
        };
        proof {
            if rest_len < padded_line_size {
                assert(rest.len() % p == rest.len()) by {
                    vstd::arithmetic::div_mod::lemma_small_mod(rest.len(), p);
                }
            } else {
                vstd::arithmetic::div_mod::lemma_mod_sub_multiples_vanish(rest.len() as int, p as int);
            }
        }
        let ghost before = texels@;
        let mut j: usize = 0;
        while j < unpadded_line_size
            invariant
                j <= unpadded_line_size,
                len == padded@.len(),
                start + unpadded_line_size <= padded@.len(),
                texels@ == before + padded@.subrange(start as int, start + j),
            decreases unpadded_line_size - j,
        {
            texels.push(padded[start + j]);
            j = j + 1;
            assert(texels@ =~= before + padded@.subrange(start as int, start + j));
        }
        proof {
            assert(rest.take(u as int) =~= padded@.subrange(start as int, start + u));
            if rest.len() > p {
                assert(rest.skip(p as int) =~= padded@.skip(end as int));
            } else {
                assert(padded@.skip(end as int) =~= Seq::<u8>::empty());
            }
            assert(texels@ + unpadded_rows(padded@.skip(end as int), p, u) =~= before
                + unpadded_rows(rest, p, u));
        }
        start = end;
    }
    proof {
        assert(padded@.skip(start as int) =~= Seq::<u8>::empty());
        assert(texels@ + Seq::<u8>::empty() =~= texels@);
    }
    texels
}

} // verus!
