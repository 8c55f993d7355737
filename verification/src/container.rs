//! Scanner for the box structure of a JPEG XL container file.
//!
//! A container file starts with a twelve-byte signature and a header of 32 bytes in
//! all. Length-prefixed boxes follow. The scanner walks them and hands each one out
//! with its four-byte type code and its payload.

use vstd::prelude::*;
use vstd::slice::slice_to_vec;

verus! {

/// Number of bytes of the container signature.
pub const SIGNATURE_LEN: usize = 12;

/// Number of bytes before the first box of a container file.
pub const CONTAINER_HEADER_SIZE: usize = 32;

/// Number of bytes of a box header with a 32-bit size.
pub const BOX_HEADER_LEN: usize = 8;

/// Number of bytes of a box header with a 64-bit extended size.
pub const LARGE_BOX_HEADER_LEN: usize = 16;

/// Why a box header is malformed.
#[derive(Clone, Copy, Debug, PartialEq, Eq, Structural)]
pub enum Malformation {
    /// The 32-bit size field holds a value from 2 to 7, which no box format uses.
    ReservedSize,
    /// The 64-bit extended size is smaller than the 16 bytes of its own header.
    LargeSizeBelowHeader,
    /// The 64-bit extended size does not fit the platform's `usize`.
    LargeSizeOutOfRange,
}

/// Failure of a scan.
#[derive(Clone, Copy, Debug, PartialEq, Eq, Structural)]
pub enum FormatError {
    /// The box header that starts at `position` has an invalid size encoding.
    MalformedContainer { position: usize, cause: Malformation },
}

/// One metadata box of a container file.
#[derive(Clone, Debug, PartialEq, Eq)]
pub struct JxlBox {
    /// The four-byte type code, taken over as it stands.
    pub box_type: [u8; 4],
    /// The bytes between the box header and the end of the box.
    pub data: Vec<u8>,
}

/// Mathematical model of a [`JxlBox`].
pub struct BoxModel {
    pub box_type: Seq<u8>,
    pub payload: Seq<u8>,
}

impl View for JxlBox {
    type V = BoxModel;

    open spec fn view(&self) -> BoxModel {
        BoxModel { box_type: self.box_type@, payload: self.data@ }
    }
}

/// What the scanner finds when it looks for a box header at some position.
pub enum Step {
    /// Fewer than eight bytes are left: the scan is complete.
    End,
    /// The header, or the length it declares, runs past the end of the buffer.
    Truncated,
    /// The size encoding is invalid.
    Malformed(Malformation),
    /// A whole box lies in the buffer.
    Found { header_len: int, box_len: int },
}

/// The twelve bytes that open every container file.
pub open spec fn container_signature() -> Seq<u8> {
    seq![
        0x00u8,
        0x00u8,
        0x00u8,
        0x0cu8,
        0x4au8,
        0x58u8,
        0x4cu8,
        0x20u8,
        0x0du8,
        0x0au8,
        0x87u8,
        0x0au8,
    ]
}

/// Whether `buf` starts with the container signature.
pub open spec fn has_signature(buf: Seq<u8>) -> bool {
    buf.len() >= 12 && buf.subrange(0, 12) =~= container_signature()
}

/// The big-endian number in the four bytes of `buf` from `at` on.
pub open spec fn be_u32(buf: Seq<u8>, at: int) -> int {
    buf[at] * 0x100_0000 + buf[at + 1] * 0x1_0000 + buf[at + 2] * 0x100 + buf[at + 3]
}

/// The big-endian number in the eight bytes of `buf` from `at` on.
pub open spec fn be_u64(buf: Seq<u8>, at: int) -> int {
    be_u32(buf, at) * 0x1_0000_0000 + be_u32(buf, at + 4)
}

/// The outcome of reading a box header of `buf` at `pos`.
pub open spec fn step_at(buf: Seq<u8>, pos: int) -> Step {
    let remaining = buf.len() - pos;
    if remaining < 8 {
        Step::End
    } else {
        let size = be_u32(buf, pos);
        if size == 1 {
            if remaining < 16 {
                Step::Truncated
            } else {
                let large = be_u64(buf, pos + 8);
                if large > usize::MAX {
                    Step::Malformed(Malformation::LargeSizeOutOfRange)
                } else if large < 16 {
                    Step::Malformed(Malformation::LargeSizeBelowHeader)
                } else if large > remaining {
                    Step::Truncated
                } else {
                    Step::Found { header_len: 16, box_len: large }
                }
            }
        } else if 2 <= size <= 7 {
            Step::Malformed(Malformation::ReservedSize)
        } else if size == 0 {
            Step::Found { header_len: 8, box_len: remaining }
        } else if size > remaining {
            Step::Truncated
        } else {
            Step::Found { header_len: 8, box_len: size }
        }
    }
}

/// The box of `buf` that starts at `pos`, with a header of `header_len` bytes and
/// `box_len` bytes in all.
pub open spec fn box_at(buf: Seq<u8>, pos: int, header_len: int, box_len: int) -> BoxModel {
    BoxModel {
        box_type: buf.subrange(pos + 4, pos + 8),
        payload: buf.subrange(pos + header_len, pos + box_len),
    }
}

/// `boxes` followed by what `rest` holds, or the error of `rest`.
pub open spec fn prepend(boxes: Seq<BoxModel>, rest: Result<Seq<BoxModel>, FormatError>) -> Result<
    Seq<BoxModel>,
    FormatError,
> {
    match rest {
        Ok(tail) => Ok(boxes + tail),
        Err(e) => Err(e),
    }
}

/// The result of scanning `buf` from the box header at `pos` on.
pub open spec fn scan_from(buf: Seq<u8>, pos: int) -> Result<Seq<BoxModel>, FormatError>
    decreases buf.len() - pos,
{
    match step_at(buf, pos) {
        Step::End => Ok(Seq::empty()),
        Step::Truncated => Ok(Seq::empty()),
        Step::Malformed(cause) => Err(
            FormatError::MalformedContainer { position: pos as usize, cause },
        ),
        Step::Found { header_len, box_len } => prepend(
            seq![box_at(buf, pos, header_len, box_len)],
            scan_from(buf, pos + box_len),
        ),
    }
}

/// The result of scanning the whole buffer `buf`.
pub open spec fn scan_boxes(buf: Seq<u8>) -> Result<Seq<BoxModel>, FormatError> {
    if has_signature(buf) {
        scan_from(buf, 32)
    } else {
        Ok(Seq::empty())
    }
}

/// The models of the boxes in `boxes`, in order.
pub open spec fn boxes_view(boxes: Seq<JxlBox>) -> Seq<BoxModel> {
    Seq::new(boxes.len(), |i: int| boxes[i]@)
}

/// The model of a scan result.
pub open spec fn result_view(result: Result<Vec<JxlBox>, FormatError>) -> Result<
    Seq<BoxModel>,
    FormatError,
> {
    match result {
        Ok(boxes) => Ok(boxes_view(boxes@)),
        Err(e) => Err(e),
    }
}

/// Tells whether `data` starts with the container signature.
pub fn starts_with_signature(data: &[u8]) -> (r: bool)
    ensures
        r == has_signature(data@),
{
    if data.len() < SIGNATURE_LEN {
        return false;
    }
    let signature: [u8; 12] = [
        0x00u8,
        0x00u8,
        0x00u8,
        0x0cu8,
        0x4au8,
        0x58u8,
        0x4cu8,
        0x20u8,
        0x0du8,
        0x0au8,
        0x87u8,
        0x0au8,
    ];
    assert(signature@ =~= container_signature());
    let mut i: usize = 0;
    while i < SIGNATURE_LEN
        invariant
            i <= 12,
            data@.len() >= 12,
            signature@ == container_signature(),
            forall|j: int| 0 <= j < i ==> data@[j] == container_signature()[j],
        decreases 12 - i,
    {
        if data[i] != signature[i] {
            assert(data@.subrange(0, 12)[i as int] != container_signature()[i as int]);
            return false;
        }
        i += 1;
    }
    true
}

/// Reads the big-endian `u32` in the four bytes of `data` from `at` on.
pub fn read_be_u32(data: &[u8], at: usize) -> (v: u32)
    requires
        at + 4 <= data.len(),
    ensures
        v == be_u32(data@, at as int),
{
    let b0: u32 = data[at] as u32;
    let b1: u32 = data[at + 1] as u32;
    let b2: u32 = data[at + 2] as u32;
    let b3: u32 = data[at + 3] as u32;
    b0 * 0x100_0000 + b1 * 0x1_0000 + b2 * 0x100 + b3
}

/// Reads the big-endian `u64` in the eight bytes of `data` from `at` on.
pub fn read_be_u64(data: &[u8], at: usize) -> (v: u64)
    requires
        at + 8 <= data.len(),
    ensures
        v == be_u64(data@, at as int),
{
    let high: u64 = read_be_u32(data, at) as u64;
    let low: u64 = read_be_u32(data, at + 4) as u64;
    high * 0x1_0000_0000 + low
}

/// Copies the box of `data` that starts at `pos` into a [`JxlBox`].
fn copy_box(data: &[u8], pos: usize, header_len: usize, box_len: usize) -> (b: JxlBox)
    requires
        8 <= header_len <= box_len,
        pos + box_len <= data.len(),
    ensures
        b@ == box_at(data@, pos as int, header_len as int, box_len as int),
{
    let box_type: [u8; 4] = [data[pos + 4], data[pos + 5], data[pos + 6], data[pos + 7]];
    let payload: Vec<u8> = slice_to_vec(&data[pos + header_len..pos + box_len]);
    assert(box_type@ =~= data@.subrange(pos + 4, pos + 8));
    JxlBox { box_type, data: payload }
}

/// Scans `data` for the boxes of a container file.
///
/// A buffer without the container signature is a bare codestream and has no boxes.
/// Otherwise the boxes that follow the 32-byte header come back in file order. A box
/// that runs past the end of the buffer ends the scan, and the boxes before it are
/// returned. An invalid size encoding fails the whole scan.
pub fn extract_boxes(data: &[u8]) -> (result: Result<Vec<JxlBox>, FormatError>)
    ensures
        result_view(result) == scan_boxes(data@),
        !has_signature(data@) ==> result_view(result) == Ok::<Seq<BoxModel>, FormatError>(
            Seq::empty(),
        ),
{
    let mut boxes: Vec<JxlBox> = Vec::new();
    if !starts_with_signature(data) {
        assert(boxes_view(boxes@) =~= Seq::empty());
        return Ok(boxes);
    }
    let len: usize = data.len();
    assert(boxes_view(boxes@) =~= Seq::empty());
    if len < CONTAINER_HEADER_SIZE + BOX_HEADER_LEN {
        return Ok(boxes);
    }
    let mut pos: usize = CONTAINER_HEADER_SIZE;
    assert(Seq::<BoxModel>::empty() + Seq::<BoxModel>::empty() =~= Seq::<BoxModel>::empty());
    while len - pos >= BOX_HEADER_LEN
        invariant
            len == data@.len(),
            has_signature(data@),
            32 <= pos <= len,
            scan_from(data@, 32) == prepend(boxes_view(boxes@), scan_from(data@, pos as int)),
        ensures
            result_view(Ok(boxes)) == scan_from(data@, 32),
        decreases len - pos,
    {
        let ghost prefix = boxes_view(boxes@);
        let box_size: u32 = read_be_u32(data, pos);
        let header_len: usize;
        let box_len: usize;
        if box_size == 1 {
            if len - pos < LARGE_BOX_HEADER_LEN {
                assert(prefix + Seq::<BoxModel>::empty() =~= prefix);
                break;
            }
            let large: u64 = read_be_u64(data, pos + 8);
            if large > usize::MAX as u64 {
                return Err(
                    FormatError::MalformedContainer {
                        position: pos,
                        cause: Malformation::LargeSizeOutOfRange,
                    },
                );
            }
            if large < 16 {
                return Err(
                    FormatError::MalformedContainer {
                        position: pos,
                        cause: Malformation::LargeSizeBelowHeader,
                    },
                );
            }
            header_len = LARGE_BOX_HEADER_LEN;
            box_len = large as usize;
        } else {
            if 2 <= box_size && box_size <= 7 {
                return Err(
                    FormatError::MalformedContainer {
                        position: pos,
                        cause: Malformation::ReservedSize,
                    },
                );
            }
            header_len = BOX_HEADER_LEN;
            box_len = if box_size == 0 {
                len - pos
            } else {
                box_size as usize
            };
        }
        if box_len > len - pos {
            assert(prefix + Seq::<BoxModel>::empty() =~= prefix);
            break;
        }
        let found: JxlBox = copy_box(data, pos, header_len, box_len);
        boxes.push(found);
        proof {
            let rest = scan_from(data@, pos + box_len);
            assert(boxes_view(boxes@) =~= prefix + seq![found@]);
            match rest {
                Ok(tail) => {
                    assert((prefix + seq![found@]) + tail =~= prefix + (seq![found@] + tail));
                },
                Err(_) => {},
            }
        }
        pos += box_len;
    }
    proof {
        if len - pos < 8 {
            assert(boxes_view(boxes@) + Seq::<BoxModel>::empty() =~= boxes_view(boxes@));
        }
    }
    Ok(boxes)
}

/// Whether the scan that starts at the box header at `from` arrives at the one at `pos`.
pub open spec fn reaches(buf: Seq<u8>, from: int, pos: int) -> bool
    decreases buf.len() - from,
{
    from == pos || match step_at(buf, from) {
        Step::Found { header_len, box_len } => reaches(buf, from + box_len, pos),
        _ => false,
    }
}

/// The boxes that the scan collects on its way from the box header at `from` to the
/// one at `pos`.
pub open spec fn boxes_between(buf: Seq<u8>, from: int, pos: int) -> Seq<BoxModel>
    decreases buf.len() - from,
{
    if from == pos {
        Seq::empty()
    } else {
        match step_at(buf, from) {
            Step::Found { header_len, box_len } => seq![box_at(buf, from, header_len, box_len)]
                + boxes_between(buf, from + box_len, pos),
            _ => Seq::empty(),
        }
    }
}

/// A position that the scan arrives at does not lie before the one it started from.
pub proof fn lemma_reaches_forward(buf: Seq<u8>, from: int, pos: int)
    requires
        reaches(buf, from, pos),
    ensures
        from <= pos,
    decreases buf.len() - from,
{
    if from != pos {
        match step_at(buf, from) {
            Step::Found { header_len, box_len } => {
                lemma_reaches_forward(buf, from + box_len, pos);
            },
            _ => {},
        }
    }
}

/// A scan that arrives at `pos` returns the boxes before `pos`, followed by what the
/// scan from `pos` returns, and fails where that one fails.
pub proof fn lemma_scan_split(buf: Seq<u8>, from: int, pos: int)
    requires
        reaches(buf, from, pos),
    ensures
        scan_from(buf, from) == prepend(boxes_between(buf, from, pos), scan_from(buf, pos)),
    decreases buf.len() - from,
{
    if from == pos {
        match scan_from(buf, pos) {
            Ok(tail) => {
                assert(Seq::<BoxModel>::empty() + tail =~= tail);
            },
            Err(_) => {},
        }
    } else {
        match step_at(buf, from) {
            Step::Found { header_len, box_len } => {
                lemma_scan_split(buf, from + box_len, pos);
                let first = seq![box_at(buf, from, header_len, box_len)];
                let middle = boxes_between(buf, from + box_len, pos);
                match scan_from(buf, pos) {
                    Ok(tail) => {
                        assert(first + (middle + tail) =~= (first + middle) + tail);
                    },
                    Err(_) => {},
                }
            },
            _ => {},
        }
    }
}

/// A buffer that does not start with the container signature has no boxes, and its
/// scan does not fail.
pub proof fn scan_without_signature(buf: Seq<u8>)
    requires
        !has_signature(buf),
    ensures
        scan_boxes(buf) == Ok::<Seq<BoxModel>, FormatError>(Seq::empty()),
{
}

/// A container that holds one box after its header, with a 32-bit size `n` of at
/// least 8 and fewer than eight bytes behind the box, scans to that one box: its type
/// is the four bytes behind the size field, and its payload is the `n - 8` bytes that
/// follow.
pub proof fn scan_single_box(buf: Seq<u8>, n: int)
    requires
        has_signature(buf),
        be_u32(buf, 32) == n,
        8 <= n,
        32 + n <= buf.len(),
        buf.len() - (32 + n) < 8,
    ensures
        scan_boxes(buf) == Ok::<Seq<BoxModel>, FormatError>(
            seq![BoxModel { box_type: buf.subrange(36, 40), payload: buf.subrange(40, 32 + n) }],
        ),
        buf.subrange(40, 32 + n).len() == n - 8,
{
    let only = seq![box_at(buf, 32, 8, n)];
    assert(step_at(buf, 32) == Step::Found { header_len: 8, box_len: n });
    assert(step_at(buf, 32 + n) == Step::End);
    assert(scan_from(buf, 32 + n) == Ok::<Seq<BoxModel>, FormatError>(Seq::empty()));
    assert(only + Seq::<BoxModel>::empty() =~= only);
}

/// Where the scan arrives at a box whose 32-bit size is 1 and whose extended size is
/// below 16, it fails with a malformed container at that box.
pub proof fn scan_rejects_short_large_size(buf: Seq<u8>, pos: int)
    requires
        has_signature(buf),
        reaches(buf, 32, pos),
        pos + 16 <= buf.len(),
        be_u32(buf, pos) == 1,
        be_u64(buf, pos + 8) < 16,
    ensures
        scan_boxes(buf) == Err::<Seq<BoxModel>, FormatError>(
            FormatError::MalformedContainer {
                position: pos as usize,
                cause: Malformation::LargeSizeBelowHeader,
            },
        ),
{
    lemma_scan_split(buf, 32, pos);
}

/// Where the scan arrives at a box whose 32-bit size is one of 2, 3, 4, 5, 6 and 7, it
/// fails with a malformed container at that box.
pub proof fn scan_rejects_reserved_size(buf: Seq<u8>, pos: int)
    requires
        has_signature(buf),
        reaches(buf, 32, pos),
        pos + 8 <= buf.len(),
        2 <= be_u32(buf, pos) <= 7,
    ensures
        scan_boxes(buf) == Err::<Seq<BoxModel>, FormatError>(
            FormatError::MalformedContainer {
                position: pos as usize,
                cause: Malformation::ReservedSize,
            },
        ),
{
    lemma_scan_split(buf, 32, pos);
}

/// Where the scan arrives at a box whose 32-bit size is 0, that box is the last one
/// and takes every byte from its start to the end of the buffer.
pub proof fn scan_zero_size_takes_rest(buf: Seq<u8>, pos: int)
    requires
        has_signature(buf),
        reaches(buf, 32, pos),
        pos + 8 <= buf.len(),
        be_u32(buf, pos) == 0,
    ensures
        scan_boxes(buf) == Ok::<Seq<BoxModel>, FormatError>(
            boxes_between(buf, 32, pos).push(
                BoxModel {
                    box_type: buf.subrange(pos + 4, pos + 8),
                    payload: buf.subrange(pos + 8, buf.len() as int),
                },
            ),
        ),
{
    lemma_reaches_forward(buf, 32, pos);
    lemma_scan_split(buf, 32, pos);
    let before = boxes_between(buf, 32, pos);
    let last = box_at(buf, pos, 8, buf.len() - pos);
    assert(step_at(buf, pos) == Step::Found { header_len: 8, box_len: buf.len() - pos });
    assert(step_at(buf, buf.len() as int) == Step::End);
    assert(scan_from(buf, buf.len() as int) == Ok::<Seq<BoxModel>, FormatError>(Seq::empty()));
    assert(seq![last] + Seq::<BoxModel>::empty() =~= seq![last]);
    assert(before + seq![last] =~= before.push(last));
}

/// Where the scan arrives at a box that runs past the end of the buffer, it stops
/// there without an error and returns the boxes that it found before.
pub proof fn scan_stops_at_truncated_box(buf: Seq<u8>, pos: int)
    requires
        has_signature(buf),
        reaches(buf, 32, pos),
        step_at(buf, pos) == Step::Truncated,
    ensures
        scan_boxes(buf) == Ok::<Seq<BoxModel>, FormatError>(boxes_between(buf, 32, pos)),
{
    lemma_scan_split(buf, 32, pos);
    let before = boxes_between(buf, 32, pos);
    assert(before + Seq::<BoxModel>::empty() =~= before);
}

/// Every box that a scan returns has a type of four bytes and lies inside the part of
/// the buffer that was scanned, and each box accounts for at least eight bytes of it.
pub proof fn scan_from_fits(buf: Seq<u8>, pos: int)
    requires
        0 <= pos,
        scan_from(buf, pos) is Ok,
    ensures
        8 * scan_from(buf, pos)->Ok_0.len() <= if pos <= buf.len() {
            buf.len() - pos
        } else {
            0
        },
        forall|i: int|
            0 <= i < scan_from(buf, pos)->Ok_0.len() ==> {
                &&& (#[trigger] scan_from(buf, pos)->Ok_0[i]).box_type.len() == 4
                &&& scan_from(buf, pos)->Ok_0[i].payload.len() + 8 <= buf.len() - pos
            },
    decreases buf.len() - pos,
{
    match step_at(buf, pos) {
        Step::Found { header_len, box_len } => {
            scan_from_fits(buf, pos + box_len);
            let first = box_at(buf, pos, header_len, box_len);
            let rest = scan_from(buf, pos + box_len)->Ok_0;
            let all = scan_from(buf, pos)->Ok_0;
            assert(all == seq![first] + rest);
            assert forall|i: int| 0 <= i < all.len() implies {
                &&& (#[trigger] all[i]).box_type.len() == 4
                &&& all[i].payload.len() + 8 <= buf.len() - pos
            } by {
                if i > 0 {
                    assert(all[i] == rest[i - 1]);
                }
            }
        },
        _ => {},
    }
}

} // verus!
