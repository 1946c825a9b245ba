use vstd::prelude::*;

use crate::cartridge::{blake3_digest, blake3_hash, CartridgeId};
use crate::nes::{FrameCheckpoint, MachineCompatibility, MachineState, Nes};

verus! {

/// Every state image is exactly this long.
pub const STATE_IMAGE_SIZE: usize = 32768;

/// The header: magic, format version, emulation revision, cartridge id,
/// sample rate bits, payload length, checksum.
pub const HEADER_SIZE: usize = 88;

pub const FORMAT_VERSION: u16 = 1;

pub const EMULATION_REVISION: u16 = 1;

pub const FORMAT_VERSION_OFFSET: usize = 8;

pub const EMULATION_REVISION_OFFSET: usize = 10;

pub const CARTRIDGE_ID_OFFSET: usize = 12;

pub const SAMPLE_RATE_OFFSET: usize = 44;

pub const PAYLOAD_LENGTH_OFFSET: usize = 52;

pub const CHECKSUM_OFFSET: usize = 56;

/// Why a state image was refused.
#[derive(Debug, Clone, Copy, PartialEq, Eq, Structural)]
pub enum StateImageError {
    NotAtFrameBoundary,
    InvalidBufferSize { expected: usize, actual: usize },
    InvalidMagic,
    UnsupportedFormatVersion(u16),
    UnsupportedEmulationRevision(u16),
    IncompatibleMachine,
    InvalidPayloadLength(u32),
    ChecksumMismatch,
    PayloadTooLarge,
    DecodingFailed,
    TrailingPayload,
}

/// The eight bytes `SENSTATE` that open every image.
pub open spec fn magic() -> Seq<u8> {
    seq![0x53u8, 0x45, 0x4E, 0x53, 0x54, 0x41, 0x54, 0x45]
}

/// A little-endian 16-bit field at `off`.
pub open spec fn le16(s: Seq<u8>, off: int) -> int {
    s[off] + 256 * s[off + 1]
}

/// A little-endian 32-bit field at `off`.
pub open spec fn le32(s: Seq<u8>, off: int) -> int {
    le16(s, off) + 65536 * le16(s, off + 2)
}

/// A little-endian 64-bit field at `off`.
pub open spec fn le64(s: Seq<u8>, off: int) -> int {
    le32(s, off) + 4294967296 * le32(s, off + 4)
}

pub open spec fn bytes16(v: int) -> Seq<u8> {
    seq![(v % 256) as u8, ((v / 256) % 256) as u8]
}

pub open spec fn bytes32(v: int) -> Seq<u8> {
    bytes16(v % 65536) + bytes16((v / 65536) % 65536)
}

pub open spec fn bytes64(v: int) -> Seq<u8> {
    bytes32(v % 4294967296) + bytes32((v / 4294967296) % 4294967296)
}

/// The bytes the checksum covers: all but the checksum field itself.
pub open spec fn covered(image: Seq<u8>) -> Seq<u8> {
    image.subrange(0, 56) + image.subrange(88, image.len() as int)
}

/// The 32 bytes of the BLAKE3 digest of `data`.
pub open spec fn digest32(data: Seq<u8>) -> Seq<u8> {
    Seq::new(32, |i: int| blake3_digest(data)[i])
}

/// The header before its checksum is filled in (the checksum field zero).
pub open spec fn header_without_checksum(cartridge: Seq<u8>, sample_rate_bits: u64, payload_len: int) -> Seq<u8> {
    machine_header(cartridge, sample_rate_bits) + bytes32(payload_len) + crate::bytes::zeros(32)
}

/// The first 52 header bytes: magic, format version, emulation revision,
/// cartridge id and sample rate bits.
pub open spec fn machine_header(cartridge: Seq<u8>, sample_rate_bits: u64) -> Seq<u8> {
    magic() + bytes16(1) + bytes16(1) + cartridge + bytes64(sample_rate_bits as int)
}

/// The image before its checksum is filled in: header, payload, zero padding.
pub open spec fn image_without_checksum(cartridge: Seq<u8>, sample_rate_bits: u64, payload: Seq<u8>) -> Seq<u8> {
    header_without_checksum(cartridge, sample_rate_bits, payload.len() as int) + payload
        + crate::bytes::zeros((32768 - 88 - payload.len()) as nat)
}

/// The state image of `payload` for a machine running cartridge
/// `cartridge` at sample rate `sample_rate_bits`.
pub open spec fn spec_state_image(cartridge: Seq<u8>, sample_rate_bits: u64, payload: Seq<u8>) -> Seq<u8> {
    let body = image_without_checksum(cartridge, sample_rate_bits, payload);
    body.subrange(0, 56) + digest32(covered(body)) + body.subrange(88, body.len() as int)
}

/// What checking `input` against a machine gives: the payload length, or
/// the first fault in the order size, magic, format version, emulation
/// revision, machine, payload length, checksum.
pub open spec fn spec_check_state_image(input: Seq<u8>, cartridge: Seq<u8>, sample_rate_bits: u64) -> Result<
    usize,
    StateImageError,
> {
    if input.len() != 32768 {
        Err(StateImageError::InvalidBufferSize { expected: 32768, actual: input.len() as usize })
    } else if input.subrange(0, 8) != magic() {
        Err(StateImageError::InvalidMagic)
    } else if le16(input, 8) != 1 {
        Err(StateImageError::UnsupportedFormatVersion(le16(input, 8) as u16))
    } else if le16(input, 10) != 1 {
        Err(StateImageError::UnsupportedEmulationRevision(le16(input, 10) as u16))
    } else if input.subrange(12, 44) != cartridge || le64(input, 44) != sample_rate_bits {
        Err(StateImageError::IncompatibleMachine)
    } else if le32(input, 52) > 32768 - 88 {
        Err(StateImageError::InvalidPayloadLength(le32(input, 52) as u32))
    } else if input.subrange(56, 88) != digest32(covered(input)) {
        Err(StateImageError::ChecksumMismatch)
    } else {
        Ok(le32(input, 52) as usize)
    }
}

fn read_le16(input: &[u8], off: usize) -> (v: u16)
    requires
        off + 2 <= input@.len(),
    ensures
        v == le16(input@, off as int),
{
    input[off] as u16 + (input[off + 1] as u16) * 256
}

fn read_le32(input: &[u8], off: usize) -> (v: u32)
    requires
        off + 4 <= input@.len() <= usize::MAX,
    ensures
        v == le32(input@, off as int),
{
    read_le16(input, off) as u32 + (read_le16(input, off + 2) as u32) * 65536
}

fn read_le64(input: &[u8], off: usize) -> (v: u64)
    requires
        off + 8 <= input@.len() <= usize::MAX,
    ensures
        v == le64(input@, off as int),
{
    read_le32(input, off) as u64 + (read_le32(input, off + 4) as u64) * 4294967296
}

/// Whether `input[off..off + expected.len()]` equals `expected`.
fn matches_at(input: &[u8], off: usize, expected: &[u8]) -> (b: bool)
    requires
        off + expected@.len() <= input@.len() <= usize::MAX,
    ensures
        b == (input@.subrange(off as int, off + expected@.len()) == expected@),
{
    let mut i: usize = 0;
    while i < expected.len()
        invariant
            off + expected@.len() <= input@.len() <= usize::MAX,
            i <= expected@.len(),
            forall|j: int| 0 <= j < i ==> input@[off + j] == expected@[j],
        decreases expected@.len() - i,
    {
        if input[off + i] != expected[i] {
            assert(input@.subrange(off as int, off + expected@.len())[i as int] != expected@[i as int]);
            return false;
        }
        i += 1;
    }
    assert(input@.subrange(off as int, off + expected@.len()) =~= expected@);
    true
}

/// The BLAKE3 digest of everything in `image` but the checksum field.
fn state_checksum(image: &[u8]) -> (d: [u8; 32])
    requires
        image@.len() == 32768,
    ensures
        d@ == blake3_digest(covered(image@)),
{
    let mut bytes: Vec<u8> = Vec::with_capacity(32768 - 32);
    let mut i: usize = 0;
    while i < 32768
        invariant
            image@.len() == 32768,
            i <= 32768,
            i <= 56 ==> bytes@ == image@.subrange(0, i as int),
            i >= 88 ==> bytes@ == image@.subrange(0, 56) + image@.subrange(88, i as int),
            56 < i < 88 ==> bytes@ == image@.subrange(0, 56),
        decreases 32768 - i,
    {
        if i < 56 || i >= 88 {
            bytes.push(image[i]);
        }
        i += 1;
        proof {
            if i <= 56 {
                assert(bytes@ =~= image@.subrange(0, i as int));
            } else if i >= 88 {
                assert(bytes@ =~= image@.subrange(0, 56) + image@.subrange(88, i as int));
            }
        }
    }
    blake3_hash(bytes.as_slice())
}

fn push_le16(out: &mut Vec<u8>, v: u16)
    ensures
        final(out)@ == old(out)@ + bytes16(v as int),
{
    out.push((v % 256) as u8);
    out.push((v / 256) as u8);
    proof {
        assert(final(out)@ =~= old(out)@ + bytes16(v as int));
    }
}

fn push_le32(out: &mut Vec<u8>, v: u32)
    ensures
        final(out)@ == old(out)@ + bytes32(v as int),
{
    push_le16(out, (v % 65536) as u16);
    push_le16(out, (v / 65536) as u16);
    proof {
        assert(final(out)@ =~= old(out)@ + bytes32(v as int));
    }
}

fn push_le64(out: &mut Vec<u8>, v: u64)
    ensures
        final(out)@ == old(out)@ + bytes64(v as int),
{
    push_le32(out, (v % 4294967296) as u32);
    push_le32(out, (v / 4294967296) as u32);
    proof {
        let hi = v as int / 4294967296;
        assert(hi < 4294967296) by (nonlinear_arith)
            requires
                hi == v as int / 4294967296,
                v < 0x1_0000_0000_0000_0000,
        ;
        assert(hi % 4294967296 == hi);
        assert(final(out)@ =~= old(out)@ + bytes64(v as int));
    }
}

fn push_bytes(out: &mut Vec<u8>, src: &[u8])
    ensures
        final(out)@ == old(out)@ + src@,
{
    let mut i: usize = 0;
    while i < src.len()
        invariant
            i <= src@.len(),
            out@ == old(out)@ + src@.subrange(0, i as int),
        decreases src@.len() - i,
    {
        out.push(src[i]);
        i += 1;
        proof {
            assert(out@ =~= old(out)@ + src@.subrange(0, i as int));
        }
    }
    proof {
        assert(src@.subrange(0, i as int) =~= src@);
    }
}

fn push_zeros(out: &mut Vec<u8>, n: usize)
    ensures
        final(out)@ == old(out)@ + crate::bytes::zeros(n as nat),
{
    let mut i: usize = 0;
    while i < n
        invariant
            i <= n,
            out@ == old(out)@ + crate::bytes::zeros(i as nat),
        decreases n - i,
    {
        out.push(0);
        i += 1;
        proof {
            assert(out@ =~= old(out)@ + crate::bytes::zeros(i as nat));
        }
    }
}

fn copy_all(output: &mut [u8], src: &[u8])
    requires
        old(output)@.len() == src@.len(),
    ensures
        final(output)@ == src@,
{
    let mut i: usize = 0;
    while i < src.len()
        invariant
            output@.len() == src@.len(),
            i <= src@.len(),
            forall|j: int| 0 <= j < i ==> output@[j] == src@[j],
        decreases src@.len() - i,
    {
        output[i] = src[i];
        i += 1;
    }
    assert(output@ =~= src@);
}

/// Writes the state image of `payload` for a machine running `cartridge`
/// at sample rate `sample_rate_bits` into `output`, which must be exactly
/// `STATE_IMAGE_SIZE` bytes long. A buffer of another size is refused and
/// left as it was. A payload longer than the space after the header is
/// refused after the buffer has been cleared and the machine's part of the
/// header (up to the sample rate) written.
pub fn write_state_image(output: &mut [u8], cartridge: &CartridgeId, sample_rate_bits: u64, payload: &[u8]) -> (r: Result<
    (),
    StateImageError,
>)
    ensures
        old(output)@.len() != 32768 ==> r == Err::<(), StateImageError>(
            StateImageError::InvalidBufferSize { expected: 32768, actual: old(output)@.len() as usize },
        ) && final(output)@ == old(output)@,
        old(output)@.len() == 32768 && payload@.len() > 32768 - 88 ==> r == Err::<(), StateImageError>(
            StateImageError::PayloadTooLarge,
        ) && final(output)@ == machine_header(cartridge.0@, sample_rate_bits) + crate::bytes::zeros((32768 - 52) as nat),
        old(output)@.len() == 32768 && payload@.len() <= 32768 - 88 ==> r is Ok && final(output)@
            == spec_state_image(cartridge.0@, sample_rate_bits, payload@),
{
    if output.len() != STATE_IMAGE_SIZE {
        return Err(StateImageError::InvalidBufferSize { expected: STATE_IMAGE_SIZE, actual: output.len() });
    }
    let magic_bytes: [u8; 8] = [0x53, 0x45, 0x4E, 0x53, 0x54, 0x41, 0x54, 0x45];
    assert(magic_bytes@ =~= magic());
    let mut body: Vec<u8> = Vec::with_capacity(STATE_IMAGE_SIZE);
    push_bytes(&mut body, magic_bytes.as_slice());
    push_le16(&mut body, FORMAT_VERSION);
    push_le16(&mut body, EMULATION_REVISION);
    push_bytes(&mut body, cartridge.as_bytes().as_slice());
    push_le64(&mut body, sample_rate_bits);
    assert(body@ =~= machine_header(cartridge.0@, sample_rate_bits));
    if payload.len() > STATE_IMAGE_SIZE - HEADER_SIZE {
        push_zeros(&mut body, STATE_IMAGE_SIZE - 52);
        copy_all(output, body.as_slice());
        return Err(StateImageError::PayloadTooLarge);
    }
    push_le32(&mut body, payload.len() as u32);
    push_zeros(&mut body, 32);
    push_bytes(&mut body, payload);
    push_zeros(&mut body, STATE_IMAGE_SIZE - HEADER_SIZE - payload.len());
    let ghost expected_body = image_without_checksum(cartridge.0@, sample_rate_bits, payload@);
    assert(body@ =~= expected_body);
    let digest = state_checksum(body.as_slice());
    assert(digest@ =~= digest32(covered(body@)));
    let ghost target = spec_state_image(cartridge.0@, sample_rate_bits, payload@);
    assert(digest@.len() == 32);
    assert(target == body@.subrange(0, 56) + digest@ + body@.subrange(88, 32768));
    assert(target.len() == 32768);
    let mut i: usize = 0;
    while i < STATE_IMAGE_SIZE
        invariant
            output@.len() == 32768,
            body@ == expected_body,
            body@.len() == 32768,
            digest@ == blake3_digest(covered(body@)),
            target == spec_state_image(cartridge.0@, sample_rate_bits, payload@),
            target == body@.subrange(0, 56) + digest@ + body@.subrange(88, 32768),
            digest@.len() == 32,
            target.len() == 32768,
            i <= 32768,
            forall|j: int| 0 <= j < i ==> output@[j] == target[j],
        decreases 32768 - i,
    {
        let ghost k = i as int;
        if i < CHECKSUM_OFFSET || i >= HEADER_SIZE {
            output[i] = body[i];
            proof {
                if k < 56 {
                    assert(target[k] == (body@.subrange(0, 56) + digest@)[k]);
                } else {
                    assert(target[k] == body@.subrange(88, 32768)[k - 88]);
                }
            }
            assert(output@[k] == target[k]);
        } else {
            output[i] = digest[i - CHECKSUM_OFFSET];
            assert(target[k] == (body@.subrange(0, 56) + digest@)[k]);
            assert(output@[k] == target[k]);
        }
        i += 1;
    }
    assert(output@ =~= target);
    Ok(())
}

/// Checks a state image against the machine it is meant for and returns the
/// length of its payload, which starts at `HEADER_SIZE`.
pub fn check_state_image(input: &[u8], cartridge: &CartridgeId, sample_rate_bits: u64) -> (r: Result<
    usize,
    StateImageError,
>)
    ensures
        r == spec_check_state_image(input@, cartridge.0@, sample_rate_bits),
{
    if input.len() != STATE_IMAGE_SIZE {
        return Err(StateImageError::InvalidBufferSize { expected: STATE_IMAGE_SIZE, actual: input.len() });
    }
    let magic_bytes: [u8; 8] = [0x53, 0x45, 0x4E, 0x53, 0x54, 0x41, 0x54, 0x45];
    assert(magic_bytes@ =~= magic());
    if !matches_at(input, 0, magic_bytes.as_slice()) {
        return Err(StateImageError::InvalidMagic);
    }
    let format_version = read_le16(input, FORMAT_VERSION_OFFSET);
    if format_version != FORMAT_VERSION {
        return Err(StateImageError::UnsupportedFormatVersion(format_version));
    }
    let emulation_revision = read_le16(input, EMULATION_REVISION_OFFSET);
    if emulation_revision != EMULATION_REVISION {
        return Err(StateImageError::UnsupportedEmulationRevision(emulation_revision));
    }
    let same_cartridge = matches_at(input, CARTRIDGE_ID_OFFSET, cartridge.as_bytes().as_slice());
    if !same_cartridge || read_le64(input, SAMPLE_RATE_OFFSET) != sample_rate_bits {
        return Err(StateImageError::IncompatibleMachine);
    }
    let payload_len = read_le32(input, PAYLOAD_LENGTH_OFFSET);
    if payload_len as usize > STATE_IMAGE_SIZE - HEADER_SIZE {
        return Err(StateImageError::InvalidPayloadLength(payload_len));
    }
    let expected_checksum = state_checksum(input);
    assert(expected_checksum@ =~= digest32(covered(input@)));
    if !matches_at(input, CHECKSUM_OFFSET, expected_checksum.as_slice()) {
        return Err(StateImageError::ChecksumMismatch);
    }
    Ok(payload_len as usize)
}

impl Nes {
    /// The length of every state image.
    pub fn serialized_state_size(&self) -> (n: usize)
        ensures
            n == 32768,
    {
        STATE_IMAGE_SIZE
    }

    /// Writes a state image of this machine into `output`. `payload` is the
    /// encoded machine state that the image carries. The buffer's size is
    /// checked first, then that the machine stands at a frame boundary; on
    /// these errors `output` is left as it was. A payload too large for the
    /// image is refused after the buffer is cleared and the machine's part of
    /// the header written.
    pub fn serialize_state(&self, output: &mut [u8], payload: &[u8]) -> (r: Result<
        (),
        StateImageError,
    >)
        ensures
            old(output)@.len() != 32768 ==> r == Err::<(), StateImageError>(
                StateImageError::InvalidBufferSize { expected: 32768, actual: old(output)@.len() as usize },
            ) && final(output)@ == old(output)@,
            old(output)@.len() == 32768 && !self.at_frame_boundary ==> r == Err::<(), StateImageError>(
                StateImageError::NotAtFrameBoundary,
            ) && final(output)@ == old(output)@,
            old(output)@.len() == 32768 && self.at_frame_boundary && payload@.len() > 32768 - 88 ==> r
                == Err::<(), StateImageError>(StateImageError::PayloadTooLarge) && final(output)@
                == machine_header(self.bus.cartridge.id.0@, self.sample_rate_bits) + crate::bytes::zeros((32768 - 52) as nat),
            old(output)@.len() == 32768 && self.at_frame_boundary && payload@.len() <= 32768 - 88 ==> r is Ok
                && final(output)@ == spec_state_image(
                self.bus.cartridge.id.0@,
                self.sample_rate_bits,
                payload@,
            ),
    {
        if output.len() != STATE_IMAGE_SIZE {
            return Err(StateImageError::InvalidBufferSize { expected: STATE_IMAGE_SIZE, actual: output.len() });
        }
        if !self.at_frame_boundary {
            return Err(StateImageError::NotAtFrameBoundary);
        }
        write_state_image(output, &self.bus.cartridge.id, self.sample_rate_bits, payload)
    }

    /// Puts back the machine state that a state image carries. `decoded` is
    /// what decoding the image's payload gave: the state and the number of
    /// payload bytes the decoder used, or nothing where decoding failed. The
    /// image is checked first (size, magic, versions, machine, payload
    /// length, checksum); then a failed decoding, a payload with bytes left
    /// over, or a state the cartridge's board cannot take is refused. On any
    /// error the machine is left as it was.
    pub fn unserialize_state(&mut self, input: &[u8], decoded: Option<(MachineState, usize)>) -> (r:
        Result<(), StateImageError>)
        requires
            old(self).wf(),
            match decoded {
                Some((s, _)) => s.wf(),
                None => true,
            },
        ensures
            final(self).wf(),
            match spec_check_state_image(input@, old(self).bus.cartridge.id.0@, old(self).sample_rate_bits) {
                Err(e) => r == Err::<(), StateImageError>(e) && *final(self) == *old(self),
                Ok(len) => match decoded {
                    None => r == Err::<(), StateImageError>(StateImageError::DecodingFailed) && *final(self)
                        == *old(self),
                    Some((s, consumed)) => if consumed != len {
                        r == Err::<(), StateImageError>(StateImageError::TrailingPayload) && *final(self)
                            == *old(self)
                    } else if old(self).bus.cartridge.board.spec_fits(s.bus.board) {
                        r is Ok && *final(self) == old(self).with_machine_state(s)
                    } else {
                        r == Err::<(), StateImageError>(StateImageError::IncompatibleMachine) && *final(self)
                            == *old(self)
                    },
                },
            },
    {
        let payload_len = match check_state_image(input, &self.bus.cartridge.id, self.sample_rate_bits) {
            Ok(len) => len,
            Err(e) => return Err(e),
        };
        let (state, consumed) = match decoded {
            Some(d) => d,
            None => return Err(StateImageError::DecodingFailed),
        };
        if consumed != payload_len {
            return Err(StateImageError::TrailingPayload);
        }
        let checkpoint = FrameCheckpoint::from_parts(
            MachineCompatibility {
                cartridge: self.bus.cartridge.id,
                sample_rate_bits: self.sample_rate_bits,
            },
            state,
        );
        match self.restore_frame_checkpoint(&checkpoint) {
            Ok(()) => Ok(()),
            Err(_) => Err(StateImageError::IncompatibleMachine),
        }
    }
}

proof fn lemma_le16_of_bytes(s: Seq<u8>, off: int, v: int)
    requires
        0 <= v < 65536,
        0 <= off,
        off + 2 <= s.len(),
        s.subrange(off, off + 2) == bytes16(v),
    ensures
        le16(s, off) == v,
{
    assert(s[off] == bytes16(v)[0]);
    assert(s[off + 1] == bytes16(v)[1]);
}

#[verifier::spinoff_prover]
proof fn lemma_le32_of_bytes(s: Seq<u8>, off: int, v: int)
    requires
        0 <= v < 4294967296,
        0 <= off,
        off + 4 <= s.len(),
        s.subrange(off, off + 4) == bytes32(v),
    ensures
        le32(s, off) == v,
{
    let t = s.subrange(off, off + 4);
    let hi16 = bytes16((v / 65536) % 65536);
    assert(s[off + 2] == t[2] && t[2] == bytes32(v)[2] && bytes32(v)[2] == hi16[0]);
    assert(s[off + 3] == t[3] && t[3] == bytes32(v)[3] && bytes32(v)[3] == hi16[1]);
    assert(s[off] == t[0] && s[off + 1] == t[1]);
    assert(s.subrange(off, off + 2) =~= bytes16(v % 65536));
    assert(s.subrange(off + 2, off + 4) =~= bytes16((v / 65536) % 65536));
    lemma_le16_of_bytes(s, off, v % 65536);
    lemma_le16_of_bytes(s, off + 2, (v / 65536) % 65536);
}

#[verifier::spinoff_prover]
#[verifier::rlimit(40)]
proof fn lemma_le64_of_bytes(s: Seq<u8>, off: int, v: int)
    requires
        0 <= v < 0x1_0000_0000_0000_0000,
        0 <= off,
        off + 8 <= s.len(),
        s.subrange(off, off + 8) == bytes64(v),
    ensures
        le64(s, off) == v,
{
    let hi = v / 4294967296;
    assert(hi < 4294967296) by (nonlinear_arith)
        requires
            hi == v / 4294967296,
            v < 0x1_0000_0000_0000_0000,
    ;
    let t = s.subrange(off, off + 8);
    let hi32 = bytes32(hi % 4294967296);
    assert forall|i: int| 0 <= i < 4 implies #[trigger] s.subrange(off + 4, off + 8)[i] == hi32[i] by {
        assert(s.subrange(off + 4, off + 8)[i] == t[4 + i]);
        assert(t[4 + i] == bytes64(v)[4 + i]);
    }
    assert forall|i: int| 0 <= i < 4 implies #[trigger] s.subrange(off, off + 4)[i] == bytes32(v % 4294967296)[i] by {
        assert(s.subrange(off, off + 4)[i] == t[i]);
    }
    assert(s.subrange(off, off + 4) =~= bytes32(v % 4294967296));
    assert(s.subrange(off + 4, off + 8) =~= bytes32(hi % 4294967296));
    lemma_le32_of_bytes(s, off, v % 4294967296);
    lemma_le32_of_bytes(s, off + 4, hi % 4294967296);
}

/// A state image written for a payload passes the check for the machine it
/// was written for, which gives back the payload's length, and the payload
/// stands right after the header.
pub proof fn lemma_state_image_round_trip(cartridge: Seq<u8>, sample_rate_bits: u64, payload: Seq<u8>)
    requires
        cartridge.len() == 32,
        payload.len() <= 32768 - 88,
    ensures
        spec_check_state_image(spec_state_image(cartridge, sample_rate_bits, payload), cartridge, sample_rate_bits)
            == Ok::<usize, StateImageError>(payload.len() as usize),
        spec_state_image(cartridge, sample_rate_bits, payload).subrange(88, 88 + payload.len() as int) == payload,
{
    let body = image_without_checksum(cartridge, sample_rate_bits, payload);
    let img = spec_state_image(cartridge, sample_rate_bits, payload);
    let digest = digest32(covered(body));
    let header = header_without_checksum(cartridge, sample_rate_bits, payload.len() as int);
    assert(header.len() == 88);
    assert(body.len() == 32768);
    assert(body.subrange(0, 88) =~= header);
    // The checksum field is all that differs between the two.
    assert(img.subrange(0, 56) =~= body.subrange(0, 56));
    assert(img.subrange(88, 32768) =~= body.subrange(88, 32768));
    assert(covered(img) =~= covered(body));
    assert(img.subrange(0, 8) =~= magic());
    assert(img.subrange(8, 10) =~= bytes16(1));
    lemma_le16_of_bytes(img, 8, 1);
    assert(img.subrange(10, 12) =~= bytes16(1));
    lemma_le16_of_bytes(img, 10, 1);
    assert(img.subrange(12, 44) =~= cartridge);
    assert(img.subrange(44, 52) =~= bytes64(sample_rate_bits as int));
    lemma_le64_of_bytes(img, 44, sample_rate_bits as int);
    assert(img.subrange(52, 56) =~= bytes32(payload.len() as int));
    lemma_le32_of_bytes(img, 52, payload.len() as int);
    assert(img.subrange(56, 88) =~= digest);
    assert(img.subrange(88, 88 + payload.len() as int) =~= payload);
}

} // verus!
