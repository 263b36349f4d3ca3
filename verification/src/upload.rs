//! The flash-image upload protocol.
//!
//! A filesystem image is streamed to the device in fixed-size blocks, each
//! followed by its CRC-32/MPEG-2 checksum in big-endian; the receiver
//! answers each block with a single acknowledgement byte. Any other byte, or
//! a checksum mismatch, aborts the transfer. The image is zero-padded to a
//! multiple of four bytes first, since the receiving side checksums 32-bit
//! words.
use vstd::prelude::*;

use crate::simplefs::be4;

verus! {

/// The acknowledgement byte for a block whose checksum matched.
pub const UPLOAD_ACK: u8 = 42;

/// The byte sent for a block whose checksum did not match.
pub const UPLOAD_NACK: u8 = 88;

/// Size of one transfer block.
pub const UPLOAD_BLOCK_LEN: usize = 4096;

/// The CRC-32/MPEG-2 checksum of a byte sequence.
pub uninterp spec fn crc32_of(bytes: Seq<u8>) -> u32;

/// Relies on crc's `Crc::<u32>::checksum` with the `CRC_32_MPEG_2`
/// algorithm: the checksum depends on the bytes alone.
#[verifier::external_body]
pub(crate) fn crc32_mpeg2(bytes: &Vec<u8>) -> (r: u32)
    ensures
        r == crc32_of(bytes@),
{
    crc::Crc::<u32>::new(&crc::CRC_32_MPEG_2).checksum(bytes.as_slice())
}

/// The sender's error: the receiver answered a block with something other
/// than the acknowledgement byte.
#[derive(Clone, Copy, Debug, PartialEq, Eq, Structural)]
pub enum SendError {
    /// The byte the receiver answered instead.
    InvalidAck(u8),
}

/// Zero-pad an image to a multiple of four bytes; an image already that
/// shape is left alone.
pub fn pad_image(image: &mut Vec<u8>)
    requires
        old(image)@.len() + 3 <= usize::MAX,
    ensures
        final(image)@.len() % 4 == 0,
        final(image)@.take(old(image)@.len() as int) == old(image)@,
        old(image)@.len() <= final(image)@.len() < old(image)@.len() + 4,
        forall|i: int| old(image)@.len() <= i < final(image)@.len() ==> final(image)@[i] == 0u8,
{
    let rem = image.len() % 4;
    if rem != 0 {
        let pad = 4 - rem;
        let mut k: usize = 0;
        while k < pad
            invariant
                pad <= 3,
                k <= pad,
                image@.len() == old(image)@.len() + k,
                (old(image)@.len() + pad) % 4 == 0,
                image@.take(old(image)@.len() as int) == old(image)@,
                forall|i: int| old(image)@.len() <= i < image@.len() ==> image@[i] == 0u8,
            decreases pad - k,
        {
            image.push(0);
            proof {
                assert(image@.take(old(image)@.len() as int) =~= old(image)@);
            }
            k = k + 1;
        }
    }
}

/// Frame one block for the wire: the block's bytes followed by its
/// big-endian CRC-32/MPEG-2 checksum.
pub fn frame_block(chunk: &Vec<u8>) -> (r: Vec<u8>)
    ensures
        r@ =~= chunk@ + be4(crc32_of(chunk@) as int),
{
    let crc = crc32_mpeg2(chunk);
    let mut framed: Vec<u8> = Vec::new();
    let n = chunk.len();
    let mut i: usize = 0;
    while i < n
        invariant
            i <= n,
            n == chunk@.len(),
            framed@ =~= chunk@.take(i as int),
        decreases n - i,
    {
        framed.push(chunk[i]);
        proof {
            assert(chunk@.take(i + 1 as int) =~= chunk@.take(i as int).push(chunk@[i as int]));
        }
        i = i + 1;
    }
    proof {
        assert(chunk@.take(n as int) =~= chunk@);
    }
    crate::simplefs::push_u32_be(&mut framed, crc);
    framed
}

/// The receiver's check of one block: whether the checksum it computed over
/// the block's bytes matches the one sent after them.
pub fn verify_block(data: &Vec<u8>, expected_crc: u32) -> (r: bool)
    ensures
        r == (crc32_of(data@) == expected_crc),
{
    crc32_mpeg2(data) == expected_crc
}

/// The byte the receiver answers a block with.
pub fn ack_byte(crc_matched: bool) -> (r: u8)
    ensures
        r == (if crc_matched {
            UPLOAD_ACK
        } else {
            UPLOAD_NACK
        }),
{
    if crc_matched {
        UPLOAD_ACK
    } else {
        UPLOAD_NACK
    }
}

/// The sender's check of the receiver's answer: anything but the
/// acknowledgement byte aborts the transfer.
pub fn check_ack(byte: u8) -> (r: Result<(), SendError>)
    ensures
        r == (if byte == UPLOAD_ACK {
            Ok::<(), SendError>(())
        } else {
            Err::<(), SendError>(SendError::InvalidAck(byte))
        }),
{
    if byte == UPLOAD_ACK {
        Ok(())
    } else {
        Err(SendError::InvalidAck(byte))
    }
}

/// How many blocks a transfer of `total_len` bytes takes, rounding the last
/// partial block up.
pub fn num_blocks(total_len: usize, block_len: usize) -> (r: usize)
    requires
        block_len > 0,
    ensures
        r == (total_len + block_len - 1) as int / (block_len as int),
{
    proof {
        assert((total_len + block_len - 1) as int / (block_len as int) == (total_len as int - 1)
            / (block_len as int) + 1) by (nonlinear_arith)
            requires
                block_len > 0,
                total_len >= 0,
        ;
    }
    if total_len == 0 {
        proof {
            assert((0 + block_len - 1) as int / (block_len as int) == 0) by (nonlinear_arith)
                requires
                    block_len > 0,
            ;
        }
        0
    } else {
        (total_len - 1) / block_len + 1
    }
}

/// Split an image into transfer blocks: every block is full-size except
/// possibly the last, and together they are exactly the image.
pub fn split_blocks(image: &Vec<u8>, block_len: usize) -> (r: Vec<Vec<u8>>)
    requires
        block_len > 0,
    ensures
        r@.len() == (image@.len() + block_len - 1) as int / (block_len as int),
        forall|i: int|
            0 <= i < r@.len() ==> (#[trigger] r@[i])@ =~= image@.subrange(
                i * block_len,
                if (i + 1) * block_len <= image@.len() {
                    (i + 1) * block_len
                } else {
                    image@.len() as int
                },
            ),
{
    let total = image.len();
    let count = num_blocks(total, block_len);
    proof {
        assert(count * block_len >= total && (count - 1) * block_len <= total) by (nonlinear_arith)
            requires
                block_len > 0,
                count == (total + block_len - 1) as int / (block_len as int),
                total >= 0,
        ;
    }
    let mut blocks: Vec<Vec<u8>> = Vec::new();
    let mut b: usize = 0;
    while b < count
        invariant
            total == image@.len(),
            block_len > 0,
            count == (total + block_len - 1) as int / (block_len as int),
            count * block_len >= total,
            (count - 1) * block_len <= total,
            b <= count,
            blocks@.len() == b,
            forall|i: int|
                0 <= i < b ==> (#[trigger] blocks@[i])@ == image@.subrange(
                    i * block_len,
                    if (i + 1) * block_len <= total {
                        (i + 1) * block_len
                    } else {
                        total as int
                    },
                ),
        decreases count - b,
    {
        proof {
            assert(b * block_len <= (count - 1) * block_len && (b + 1) * block_len <= count
                * block_len) by (nonlinear_arith)
                requires
                    b < count,
                    block_len > 0,
            ;
        }
        let start: usize = b * block_len;
        let end: usize = if total - start < block_len {
            total
        } else {
            start + block_len
        };
        let mut chunk: Vec<u8> = Vec::new();
        let mut j: usize = start;
        while j < end
            invariant
                start <= j <= end,
                end <= total,
                total == image@.len(),
                chunk@ =~= image@.subrange(start as int, j as int),
            decreases end - j,
        {
            chunk.push(image[j]);
            proof {
                assert(image@.subrange(start as int, j + 1 as int) =~= image@.subrange(
                    start as int,
                    j as int,
                ).push(image@[j as int]));
            }
            j = j + 1;
        }
        proof {
            assert((b + 1) * block_len == b * block_len + block_len) by (nonlinear_arith);
            assert(chunk@ =~= image@.subrange(
                b * block_len,
                if (b + 1) * block_len <= total {
                    (b + 1) * block_len as int
                } else {
                    total as int
                },
            ));
        }
        blocks.push(chunk);
        b = b + 1;
    }
    blocks
}

} // verus!
