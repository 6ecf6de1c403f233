//! Little-endian fields of the messages that driver and device exchange.
use vstd::prelude::*;

verus! {

/// Byte `i` of a 32-bit number, counted from the least significant one.
pub open spec fn byte_of(v: u32, i: int) -> u8 {
    if i == 0 {
        (v % 0x100) as u8
    } else if i == 1 {
        (v / 0x100 % 0x100) as u8
    } else if i == 2 {
        (v / 0x1_0000 % 0x100) as u8
    } else {
        (v / 0x100_0000) as u8
    }
}

/// The four bytes of a 32-bit field, least significant first.
pub open spec fn le32(v: u32) -> Seq<u8> {
    Seq::new(4, |i: int| byte_of(v, i))
}

/// The eight bytes of a 64-bit field, least significant first.
pub open spec fn le64(v: u64) -> Seq<u8> {
    le32((v % 0x1_0000_0000) as u32) + le32((v / 0x1_0000_0000) as u32)
}

/// A run of `n` zero bytes.
pub open spec fn zeros(n: nat) -> Seq<u8> {
    Seq::new(n, |i: int| 0u8)
}

/// The byte at `at`; a message that ends before it reads as if zeros followed.
pub open spec fn byte_at(bytes: Seq<u8>, at: int) -> u8 {
    if 0 <= at < bytes.len() {
        bytes[at]
    } else {
        0
    }
}

/// The 32-bit field at `at`.
pub open spec fn u32_at(bytes: Seq<u8>, at: int) -> u32 {
    (byte_at(bytes, at) + 0x100 * byte_at(bytes, at + 1) + 0x1_0000 * byte_at(bytes, at + 2)
        + 0x100_0000 * byte_at(bytes, at + 3)) as u32
}

/// The 64-bit field at `at`.
pub open spec fn u64_at(bytes: Seq<u8>, at: int) -> u64 {
    (u32_at(bytes, at) + 0x1_0000_0000 * u32_at(bytes, at + 4)) as u64
}

/// The `n` bytes from `at` on.
pub open spec fn bytes_at(bytes: Seq<u8>, at: int, n: nat) -> Seq<u8> {
    Seq::new(n, |i: int| byte_at(bytes, at + i))
}

/// Whether `part` stands in `bytes` from `at` on.
pub open spec fn sits_at(bytes: Seq<u8>, at: int, part: Seq<u8>) -> bool {
    forall|k: int| 0 <= k < part.len() ==> byte_at(bytes, at + k) == #[trigger] part[k]
}

/// Where two parts stand one behind the other, each stands at its own place.
pub proof fn parts_sit_at(bytes: Seq<u8>, at: int, first: Seq<u8>, second: Seq<u8>)
    requires
        sits_at(bytes, at, first + second),
    ensures
        sits_at(bytes, at, first),
        sits_at(bytes, at + first.len(), second),
{
    let whole = first + second;
    assert forall|k: int| 0 <= k < first.len() implies byte_at(bytes, at + k)
        == #[trigger] first[k] by {
        assert(whole[k] == first[k]);
    }
    assert forall|k: int| 0 <= k < second.len() implies byte_at(bytes, at + first.len() + k)
        == #[trigger] second[k] by {
        assert(whole[first.len() + k] == second[k]);
    }
}

/// A 32-bit field reads back as the value that was written at its place.
pub proof fn u32_reads_back(bytes: Seq<u8>, at: int, v: u32)
    requires
        sits_at(bytes, at, le32(v)),
    ensures
        u32_at(bytes, at) == v,
{
    let b = le32(v);
    assert(byte_at(bytes, at + 0) == b[0]);
    assert(byte_at(bytes, at + 1) == b[1]);
    assert(byte_at(bytes, at + 2) == b[2]);
    assert(byte_at(bytes, at + 3) == b[3]);
}

/// A 64-bit field reads back as the value that was written at its place.
pub proof fn u64_reads_back(bytes: Seq<u8>, at: int, v: u64)
    requires
        sits_at(bytes, at, le64(v)),
    ensures
        u64_at(bytes, at) == v,
{
    let low = (v % 0x1_0000_0000) as u32;
    let high = (v / 0x1_0000_0000) as u32;
    parts_sit_at(bytes, at, le32(low), le32(high));
    u32_reads_back(bytes, at, low);
    u32_reads_back(bytes, at + 4, high);
}

/// Appends a 32-bit field.
pub fn push_u32(out: &mut Vec<u8>, v: u32)
    ensures
        final(out)@ == old(out)@ + le32(v),
{
    out.push((v % 0x100) as u8);
    out.push((v / 0x100 % 0x100) as u8);
    out.push((v / 0x1_0000 % 0x100) as u8);
    out.push((v / 0x100_0000) as u8);
    assert(out@ =~= old(out)@ + le32(v));
}

/// Appends a 64-bit field.
pub fn push_u64(out: &mut Vec<u8>, v: u64)
    ensures
        final(out)@ == old(out)@ + le64(v),
{
    push_u32(out, (v % 0x1_0000_0000) as u32);
    push_u32(out, (v / 0x1_0000_0000) as u32);
    assert(out@ =~= old(out)@ + le64(v));
}

/// Appends a field that is already made of bytes.
pub fn push_bytes(out: &mut Vec<u8>, bytes: &[u8])
    ensures
        final(out)@ == old(out)@ + bytes@,
{
    out.extend_from_slice(bytes);
    assert(out@ =~= old(out)@ + bytes@);
}

/// A buffer of `n` zero bytes.
pub fn zeroed(n: usize) -> (out: Vec<u8>)
    ensures
        out@ == zeros(n as nat),
{
    let out = vec![0u8; n];
    assert(out@ =~= zeros(n as nat));
    out
}

/// Reads the byte at `at`.
pub fn read_u8(bytes: &[u8], at: usize) -> (v: u8)
    ensures
        v == byte_at(bytes@, at as int),
{
    if at < bytes.len() {
        bytes[at]
    } else {
        0
    }
}

/// Reads the 32-bit field at `at`.
pub fn read_u32(bytes: &[u8], at: usize) -> (v: u32)
    requires
        at + 4 <= usize::MAX,
    ensures
        v == u32_at(bytes@, at as int),
{
    read_u8(bytes, at) as u32 + 0x100 * read_u8(bytes, at + 1) as u32 + 0x1_0000 * read_u8(
        bytes,
        at + 2,
    ) as u32 + 0x100_0000 * read_u8(bytes, at + 3) as u32
}

/// Reads the 64-bit field at `at`.
pub fn read_u64(bytes: &[u8], at: usize) -> (v: u64)
    requires
        at + 8 <= usize::MAX,
    ensures
        v == u64_at(bytes@, at as int),
{
    read_u32(bytes, at) as u64 + 0x1_0000_0000 * read_u32(bytes, at + 4) as u64
}

/// Reads the `N` bytes from `at` on.
pub fn read_array<const N: usize>(bytes: &[u8], at: usize) -> (v: [u8; N])
    requires
        at + N <= usize::MAX,
    ensures
        v@ == bytes_at(bytes@, at as int, N as nat),
{
    let mut v: [u8; N] = [0u8; N];
    let mut i: usize = 0;
    while i < N
        invariant
            i <= N,
            at + N <= usize::MAX,
            v@.len() == N,
            forall|k: int| 0 <= k < i ==> v@[k] == byte_at(bytes@, at + k),
        decreases N - i,
    {
        v[i] = read_u8(bytes, at + i);
        i += 1;
    }
    assert(v@ =~= bytes_at(bytes@, at as int, N as nat));
    v
}

} // verus!
