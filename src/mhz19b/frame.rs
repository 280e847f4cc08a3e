//! Frame layout, checksum and response validation.

use vstd::prelude::*;

use crate::mhz19b::error::ErrorBase;

verus! {

/// Number of bytes in every request and response frame.
pub const FRAME_LEN: usize = 9;

/// Sum of the bytes of `f` at offsets `lo` up to (not including) `hi`.
pub open spec fn byte_sum(f: Seq<u8>, lo: int, hi: int) -> int
    decreases hi - lo,
{
    if hi <= lo {
        0
    } else {
        byte_sum(f, lo, hi - 1) + f[hi - 1]
    }
}

/// The checksum of a frame: the two's complement, modulo 256, of the sum of
/// the seven bytes at offsets 1 through 7.
pub open spec fn checksum_of(f: Seq<u8>) -> u8 {
    ((256 - byte_sum(f, 1, 8) % 256) % 256) as u8
}

/// Computes the checksum over bytes 1 through 7 of `packet`.
pub fn checksum(packet: &[u8]) -> (r: u8)
    requires
        packet@.len() >= 8,
    ensures
        r == checksum_of(packet@),
{
    let mut middle: u16 = 0;
    let mut i: usize = 1;
    while i < 8
        invariant
            1 <= i <= 8,
            packet@.len() >= 8,
            middle < 256,
            middle as int == byte_sum(packet@, 1, i as int) % 256,
        decreases 8 - i,
    {
        proof {
            vstd::arithmetic::div_mod::lemma_add_mod_noop(
                byte_sum(packet@, 1, i as int),
                packet@[i as int] as int,
                256,
            );
            vstd::arithmetic::div_mod::lemma_small_mod(packet@[i as int] as nat, 256);
        }
        middle = (middle + packet[i] as u16) % 256;
        i = i + 1;
    }
    ((0xffu16 - middle + 1u16) % 256) as u8
}

/// Whether the last byte of `response` is the checksum of its bytes 1 through 7.
pub fn checksum_ok(response: &[u8; 9]) -> (r: bool)
    ensures
        r == (response@[8] == checksum_of(response@)),
{
    response[8] == checksum(response)
}

/// Whether `f` begins with the bytes of `p`.
pub open spec fn has_prefix(f: Seq<u8>, p: Seq<u8>) -> bool {
    p.len() <= f.len() && f.subrange(0, p.len() as int) == p
}

/// The outcome of validating the response `f` against the expected prefix `p`:
/// the prefix is checked first, the checksum only once the prefix matches.
pub open spec fn response_check<IO>(f: Seq<u8>, p: Seq<u8>) -> Result<(), ErrorBase<IO>> {
    if !has_prefix(f, p) {
        Err(ErrorBase::InvalidResponse)
    } else if f[8] != checksum_of(f) {
        Err(ErrorBase::InvalidChecksum)
    } else {
        Ok(())
    }
}

/// The CO2 concentration carried by a reading response: bytes 2 and 3, big-endian.
pub open spec fn co2_of(f: Seq<u8>) -> u16 {
    (f[2] as int * 256 + f[3] as int) as u16
}

/// The prefix of a response to the read command.
pub open spec fn co2_prefix() -> Seq<u8> {
    seq![0xFFu8, 0x86u8]
}

/// The prefix of a response to the auto-correction command.
pub open spec fn auto_correction_prefix() -> Seq<u8> {
    seq![0xFFu8, 0x79u8, 0x01u8]
}

/// The result of a read exchange whose response was `f`.
pub open spec fn co2_outcome<IO>(f: Seq<u8>) -> Result<u16, ErrorBase<IO>> {
    match response_check::<IO>(f, co2_prefix()) {
        Ok(()) => Ok(co2_of(f)),
        Err(e) => Err(e),
    }
}

/// Whether `f` is a well-formed request: start byte, sensor number, the
/// command `cmd` with its argument `arg`, four zero bytes and the checksum.
pub open spec fn is_request(f: Seq<u8>, cmd: u8, arg: u8) -> bool {
    &&& f.len() == 9
    &&& f[0] == 0xFFu8
    &&& f[1] == 0x01u8
    &&& f[2] == cmd
    &&& f[3] == arg
    &&& f[4] == 0u8 && f[5] == 0u8 && f[6] == 0u8 && f[7] == 0u8
    &&& f[8] == checksum_of(f)
}

/// Builds the request frame for command `cmd` with argument `arg`; byte 8
/// is the checksum of bytes 1 through 7.
pub fn request(cmd: u8, arg: u8) -> (r: [u8; 9])
    ensures
        is_request(r@, cmd, arg),
{
    let mut frame: [u8; 9] = [0xFF, 0x01, cmd, arg, 0, 0, 0, 0, 0];
    let ghost unsigned = frame@;
    let sum = checksum(&frame);
    frame[8] = sum;
    proof {
        assert(frame@ == unsigned.update(8, checksum_of(unsigned)));
        lemma_checksum_symmetric(unsigned);
    }
    frame
}

/// The sum over `[lo, hi)` depends only on the bytes in that range.
pub proof fn lemma_byte_sum_same(s: Seq<u8>, t: Seq<u8>, lo: int, hi: int)
    requires
        forall|j: int| lo <= j < hi ==> s[j] == t[j],
    ensures
        byte_sum(s, lo, hi) == byte_sum(t, lo, hi),
    decreases hi - lo,
{
    if lo < hi {
        lemma_byte_sum_same(s, t, lo, hi - 1);
    }
}

/// Seven payload bytes that add up to a multiple of 256 have checksum zero.
pub proof fn lemma_checksum_of_zero_sum(f: Seq<u8>)
    requires
        f.len() == 9,
        byte_sum(f, 1, 8) % 256 == 0,
    ensures
        checksum_of(f) == 0,
{
}

/// A frame whose last byte is set to its checksum passes the checksum
/// validation applied to responses: the checksum reads the same bytes on
/// both sides.
pub proof fn lemma_checksum_symmetric(f: Seq<u8>)
    requires
        f.len() == 9,
    ensures
        ({
            let g = f.update(8, checksum_of(f));
            g[8] == checksum_of(g)
        }),
{
    let g = f.update(8, checksum_of(f));
    lemma_byte_sum_same(f, g, 1, 8);
}

/// A response with the wrong prefix is rejected as `InvalidResponse`
/// whatever its checksum byte `c` holds; one with the right prefix and a
/// wrong checksum byte is rejected as `InvalidChecksum`. The prefix is
/// shorter than a frame, as those of the sensor's commands are.
pub proof fn lemma_prefix_before_checksum<IO>(f: Seq<u8>, p: Seq<u8>, c: u8)
    requires
        f.len() == 9,
        p.len() < 9,
    ensures
        !has_prefix(f, p) ==> response_check::<IO>(f.update(8, c), p)
            == Err::<(), ErrorBase<IO>>(ErrorBase::InvalidResponse),
        has_prefix(f, p) && f[8] != checksum_of(f) ==> response_check::<IO>(f, p)
            == Err::<(), ErrorBase<IO>>(ErrorBase::InvalidChecksum),
{
    let g = f.update(8, c);
    if !has_prefix(f, p) && g.subrange(0, p.len() as int) == p {
        assert(f.subrange(0, p.len() as int) =~= g.subrange(0, p.len() as int));
    }
}

/// Validates `response` against `expected_start`, then its checksum.
pub fn check_response<IO>(response: &[u8; 9], expected_start: &[u8]) -> (r: Result<(), ErrorBase<IO>>)
    ensures
        r == response_check::<IO>(response@, expected_start@),
{
    let n = expected_start.len();
    let mut prefix_matches = n <= FRAME_LEN;
    let mut i: usize = 0;
    while prefix_matches && i < n
        invariant
            n == expected_start@.len(),
            prefix_matches ==> n <= 9,
            0 <= i <= n,
            prefix_matches ==> forall|j: int| 0 <= j < i ==> response@[j] == expected_start@[j],
            !prefix_matches ==> !has_prefix(response@, expected_start@),
        decreases n - i + (if prefix_matches { 1int } else { 0 }),
    {
        if response[i] != expected_start[i] {
            prefix_matches = false;
            assert(response@.subrange(0, n as int)[i as int] != expected_start@[i as int]);
        } else {
            i = i + 1;
        }
    }
    if !prefix_matches {
        return Err(ErrorBase::InvalidResponse);
    }
    assert(response@.subrange(0, n as int) =~= expected_start@);
    if !checksum_ok(response) {
        return Err(ErrorBase::InvalidChecksum);
    }
    Ok(())
}

/// Decodes the response to a read command: the concentration in ppm, once
/// the response's prefix and checksum are valid.
pub fn co2_from_response<IO>(response: &[u8; 9]) -> (r: Result<u16, ErrorBase<IO>>)
    ensures
        r == co2_outcome::<IO>(response@),
{
    let expected: [u8; 2] = [0xFF, 0x86];
    assert(expected@ == co2_prefix());
    match check_response(response, &expected) {
        Err(e) => Err(e),
        Ok(()) => Ok((response[2] as u16) * 256 + (response[3] as u16)),
    }
}

} // verus!
