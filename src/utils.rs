use vstd::prelude::*;
use vstd::string::{StringExecFns, StringSliceAdditionalSpecFns};

verus! {

/// The class of a failure.
#[derive(Debug, Clone, Copy, PartialEq, Eq, Structural)]
pub enum ErrorKind {
    /// The caller's configuration breaks a structural limit.
    InvalidInput,
    /// A buffer that came from the kernel breaks an expected invariant.
    InvalidData,
    /// The ABI generation in use cannot express the request.
    Unsupported,
}

/// An error with its class and a short message.
#[derive(Debug, Clone, Copy)]
pub struct Error {
    pub kind: ErrorKind,
    pub message: &'static str,
}

pub type Result<T> = core::result::Result<T, Error>;

/// A kernel timestamp in nanoseconds.
#[derive(Debug, Clone, Copy, PartialEq, Eq, Structural)]
pub struct Time {
    pub nanos: u64,
}

impl Time {
    /// Nanoseconds since the clock's origin.
    pub fn as_nanos(&self) -> (r: u64)
        ensures
            r == self.nanos,
    {
        self.nanos
    }
}

/// Holds of an error of the given class and message.
pub open spec fn is_error(e: Error, kind: ErrorKind, message: &str) -> bool {
    e.kind == kind && e.message@ == message@
}

/// Time value from a count of nanoseconds.
pub fn time_from_nanos(nanos: u64) -> (r: Time)
    ensures
        r.nanos == nanos,
{
    Time { nanos }
}

/// Whether every bit of `flag` is set in `flags`.
pub fn is_set(flags: u64, flag: u64) -> (r: bool)
    ensures
        r == (flags & flag == flag),
{
    flags & flag == flag
}

/// Error of the class `InvalidInput`.
pub fn invalid_input(message: &'static str) -> (r: Error)
    ensures
        r.kind == ErrorKind::InvalidInput,
        r.message == message,
{
    Error { kind: ErrorKind::InvalidInput, message }
}

/// Error of the class `InvalidData`.
pub fn invalid_data(message: &'static str) -> (r: Error)
    ensures
        r.kind == ErrorKind::InvalidData,
        r.message == message,
{
    Error { kind: ErrorKind::InvalidData, message }
}

/// Error of the class `Unsupported`.
pub fn unsupported(message: &'static str) -> (r: Error)
    ensures
        r.kind == ErrorKind::Unsupported,
        r.message == message,
{
    Error { kind: ErrorKind::Unsupported, message }
}

/// Checks that a read returned exactly the size of the record.
pub fn check_size(len: usize, size: usize) -> (r: Result<()>)
    ensures
        r is Ok <==> len == size,
        r is Err ==> is_error(r->Err_0, ErrorKind::InvalidData, "Unexpected size"),
{
    if len == size {
        Ok(())
    } else {
        Err(invalid_data("Unexpected size"))
    }
}

/// Checks that the lines `items` fit into a fixed array of `capacity` entries.
pub fn check_len<V>(items: &[V], capacity: usize) -> (r: Result<()>)
    ensures
        r is Ok <==> items@.len() <= capacity,
        r is Err ==> is_error(r->Err_0, ErrorKind::InvalidInput, "Too many lines"),
{
    if items.len() <= capacity {
        Ok(())
    } else {
        Err(invalid_input("Too many lines"))
    }
}

/// Checks that `s` and its terminating NUL fit into a buffer of `capacity` bytes.
pub fn check_len_str(s: &str, capacity: usize) -> (r: Result<()>)
    ensures
        r is Ok <==> s.spec_bytes().len() < capacity,
        r is Err ==> is_error(r->Err_0, ErrorKind::InvalidInput, "String too long"),
{
    if s.as_bytes().len() < capacity {
        Ok(())
    } else {
        Err(invalid_input("String too long"))
    }
}

/// Copies `src` into `dst` followed by a NUL byte; the bytes after it are left as
/// they were.
pub fn safe_set_str<const N: usize>(dst: &mut [u8; N], src: &str) -> (r: Result<()>)
    ensures
        r is Ok <==> src.spec_bytes().len() < N,
        r is Err ==> is_error(r->Err_0, ErrorKind::InvalidInput, "String too long"),
        r is Err ==> final(dst)@ == old(dst)@,
        r is Ok ==> {
            let n = src.spec_bytes().len() as int;
            &&& final(dst)@.len() == N
            &&& final(dst)@.subrange(0, n) == src.spec_bytes()
            &&& final(dst)@[n] == 0u8
            &&& final(dst)@.subrange(n + 1, N as int) == old(dst)@.subrange(n + 1, N as int)
        },
{
    check_len_str(src, N)?;
    let bytes = src.as_bytes();
    let n = bytes.len();
    let mut i: usize = 0;
    while i < n
        invariant
            n == bytes@.len(),
            bytes@ == src.spec_bytes(),
            n < N,
            i <= n,
            dst@.len() == N,
            forall|k: int| 0 <= k < i ==> dst@[k] == bytes@[k],
            forall|k: int| i <= k < N ==> dst@[k] == old(dst)@[k],
        decreases n - i,
    {
        dst[i] = bytes[i];
        i = i + 1;
    }
    dst[n] = 0;
    assert(dst@.subrange(0, n as int) =~= src.spec_bytes());
    assert(dst@.subrange(n + 1, N as int) =~= old(dst)@.subrange(n + 1, N as int));
    Ok(())
}

/// The bytes of `s` up to, and without, its trailing run of NUL bytes.
pub open spec fn trim_nul(s: Seq<u8>) -> Seq<u8>
    decreases s.len(),
{
    if s.len() > 0 && s.last() == 0u8 {
        trim_nul(s.drop_last())
    } else {
        s
    }
}

/// Relies on `core::str::from_utf8`: succeeds exactly on valid UTF-8, and then views
/// the same bytes.
#[verifier::external_body]
fn str_from_utf8(b: &[u8]) -> (r: Option<&str>)
    ensures
        r is Some <==> vstd::utf8::valid_utf8(b@),
        r is Some ==> r->Some_0.spec_bytes() == b@,
{
    core::str::from_utf8(b).ok()
}

/// Reads a NUL-padded buffer as text, without its trailing NUL bytes.
pub fn safe_get_str(src: &[u8]) -> (r: Result<&str>)
    ensures
        r is Ok <==> vstd::utf8::valid_utf8(trim_nul(src@)),
        r is Ok ==> r->Ok_0.spec_bytes() == trim_nul(src@),
        r is Err ==> is_error(r->Err_0, ErrorKind::InvalidData, "Invalid UTF-8"),
{
    let mut end: usize = src.len();
    assert(src@.subrange(0, end as int) =~= src@);
    while end > 0 && src[end - 1] == 0
        invariant
            end <= src@.len(),
            trim_nul(src@) == trim_nul(src@.subrange(0, end as int)),
        decreases end,
    {
        assert(src@.subrange(0, end - 1) =~= src@.subrange(0, end as int).drop_last());
        end = end - 1;
    }
    assert(trim_nul(src@.subrange(0, end as int)) == src@.subrange(0, end as int));
    let head = vstd::slice::slice_subrange(src, 0, end);
    match str_from_utf8(head) {
        Some(s) => Ok(s),
        None => Err(invalid_data("Invalid UTF-8")),
    }
}

/// Major number of a device id, as the C library computes it.
pub fn major(dev: u64) -> (r: u64)
    ensures
        r == ((dev & 0x00000000000fff00u64) >> 8u64) | ((dev & 0xfffff00000000000u64) >> 32u64),
{
    let mut major: u64 = 0;
    major = major | ((dev & 0x00000000000fff00u64) >> 8u64);
    major = major | ((dev & 0xfffff00000000000u64) >> 32u64);
    assert(0u64 | ((dev & 0x00000000000fff00u64) >> 8u64) == ((dev & 0x00000000000fff00u64) >> 8u64)) by (bit_vector);
    major
}

/// Minor number of a device id, as the C library computes it.
pub fn minor(dev: u64) -> (r: u64)
    ensures
        r == (dev & 0x00000000000000ffu64) | ((dev & 0x00000ffffff00000u64) >> 12u64),
{
    let mut minor: u64 = 0;
    minor = minor | (dev & 0x00000000000000ffu64);
    minor = minor | ((dev & 0x00000ffffff00000u64) >> 12u64);
    assert(0u64 | (dev & 0x00000000000000ffu64) == (dev & 0x00000000000000ffu64)) by (bit_vector);
    minor
}


/// Little-endian `u32` at byte `at` of `b`.
pub open spec fn le_u32(b: Seq<u8>, at: int) -> u32 {
    (b[at] as u32) | ((b[at + 1] as u32) << 8u32) | ((b[at + 2] as u32) << 16u32) | ((b[at + 3] as u32) << 24u32)
}

/// Little-endian `u64` at byte `at` of `b`.
pub open spec fn le_u64(b: Seq<u8>, at: int) -> u64 {
    (le_u32(b, at) as u64) | ((le_u32(b, at + 4) as u64) << 32u64)
}

/// Reads the little-endian `u32` at byte `at`.
pub fn read_u32(b: &[u8], at: usize) -> (r: u32)
    requires
        at + 4 <= b@.len(),
    ensures
        r == le_u32(b@, at as int),
{
    (b[at] as u32) | ((b[at + 1] as u32) << 8u32) | ((b[at + 2] as u32) << 16u32) | ((b[at + 3] as u32) << 24u32)
}

/// Reads the little-endian `u64` at byte `at`.
pub fn read_u64(b: &[u8], at: usize) -> (r: u64)
    requires
        at + 8 <= b@.len(),
    ensures
        r == le_u64(b@, at as int),
{
    let n = b.len();
    let low = read_u32(b, at);
    let high = read_u32(b, at + 4);
    (low as u64) | ((high as u64) << 32u64)
}


/// Little-endian bytes of `x`.
pub open spec fn le_bytes_u32(x: u32) -> Seq<u8> {
    seq![
        (x & 0xffu32) as u8,
        ((x >> 8u32) & 0xffu32) as u8,
        ((x >> 16u32) & 0xffu32) as u8,
        ((x >> 24u32) & 0xffu32) as u8,
    ]
}

/// Little-endian bytes of `x`.
pub open spec fn le_bytes_u64(x: u64) -> Seq<u8> {
    le_bytes_u32((x & 0xffff_ffffu64) as u32) + le_bytes_u32((x >> 32u64) as u32)
}

/// Little-endian bytes of each item of `s`, in order.
pub open spec fn le_bytes_u32s(s: Seq<u32>) -> Seq<u8>
    decreases s.len(),
{
    if s.len() == 0 {
        Seq::empty()
    } else {
        le_bytes_u32s(s.drop_last()) + le_bytes_u32(s.last())
    }
}

/// Four bytes for each item.
pub proof fn lemma_le_bytes_u32s_len(s: Seq<u32>)
    ensures
        le_bytes_u32s(s).len() == 4 * s.len(),
    decreases s.len(),
{
    if s.len() > 0 {
        lemma_le_bytes_u32s_len(s.drop_last());
    }
}

/// `n` zero bytes.
pub open spec fn zeros(n: nat) -> Seq<u8> {
    Seq::new(n, |_i: int| 0u8)
}

/// Appends the little-endian bytes of `x`.
pub fn push_u32(out: &mut Vec<u8>, x: u32)
    ensures
        final(out)@ == old(out)@ + le_bytes_u32(x),
{
    assert((x & 0xffu32) <= 0xffu32 && ((x >> 8u32) & 0xffu32) <= 0xffu32 && ((x >> 16u32) & 0xffu32)
        <= 0xffu32 && ((x >> 24u32) & 0xffu32) <= 0xffu32) by (bit_vector);
    out.push((x & 0xffu32) as u8);
    out.push(((x >> 8u32) & 0xffu32) as u8);
    out.push(((x >> 16u32) & 0xffu32) as u8);
    out.push(((x >> 24u32) & 0xffu32) as u8);
    assert(out@ =~= old(out)@ + le_bytes_u32(x));
}

/// Appends the little-endian bytes of `x`.
pub fn push_u64(out: &mut Vec<u8>, x: u64)
    ensures
        final(out)@ == old(out)@ + le_bytes_u64(x),
{
    assert((x & 0xffff_ffffu64) <= 0xffff_ffffu64 && (x >> 32u64) <= 0xffff_ffffu64) by (bit_vector);
    push_u32(out, (x & 0xffff_ffffu64) as u32);
    push_u32(out, (x >> 32u64) as u32);
    assert(out@ =~= old(out)@ + le_bytes_u64(x));
}

/// Appends the little-endian bytes of each item of `s`.
pub fn push_u32s(out: &mut Vec<u8>, s: &[u32])
    ensures
        final(out)@ == old(out)@ + le_bytes_u32s(s@),
{
    let mut i: usize = 0;
    assert(s@.subrange(0, 0) =~= Seq::<u32>::empty());
    assert(out@ =~= old(out)@ + le_bytes_u32s(s@.subrange(0, 0)));
    while i < s.len()
        invariant
            i <= s@.len(),
            out@ == old(out)@ + le_bytes_u32s(s@.subrange(0, i as int)),
        decreases s@.len() - i,
    {
        push_u32(out, s[i]);
        assert(s@.subrange(0, i + 1).drop_last() =~= s@.subrange(0, i as int));
        i = i + 1;
        assert(out@ =~= old(out)@ + le_bytes_u32s(s@.subrange(0, i as int)));
    }
    assert(s@.subrange(0, s@.len() as int) =~= s@);
}

/// Appends the bytes of `s`.
pub fn push_bytes(out: &mut Vec<u8>, s: &[u8])
    ensures
        final(out)@ == old(out)@ + s@,
{
    let mut i: usize = 0;
    while i < s.len()
        invariant
            i <= s@.len(),
            out@ == old(out)@ + s@.subrange(0, i as int),
        decreases s@.len() - i,
    {
        out.push(s[i]);
        i = i + 1;
        assert(out@ =~= old(out)@ + s@.subrange(0, i as int));
    }
    assert(s@.subrange(0, s@.len() as int) =~= s@);
}

/// Appends `n` zero bytes.
pub fn push_zeros(out: &mut Vec<u8>, n: usize)
    ensures
        final(out)@ == old(out)@ + zeros(n as nat),
{
    let mut i: usize = 0;
    while i < n
        invariant
            i <= n,
            out@ == old(out)@ + zeros(i as nat),
        decreases n - i,
    {
        out.push(0u8);
        i = i + 1;
        assert(out@ =~= old(out)@ + zeros(i as nat));
    }
}

/// The `N` bytes of `b` from `at` on.
pub fn read_array<const N: usize>(b: &[u8], at: usize) -> (r: [u8; N])
    requires
        at + N <= b@.len(),
    ensures
        r@ == b@.subrange(at as int, at + N),
{
    let mut r = [0u8; N];
    let len = b.len();
    let mut i: usize = 0;
    while i < N
        invariant
            len == b@.len(),
            at + N <= len,
            i <= N,
            r@.len() == N,
            forall|k: int| 0 <= k < i ==> r@[k] == b@[at + k],
        decreases N - i,
    {
        r[i] = b[at + i];
        i = i + 1;
    }
    assert(r@ =~= b@.subrange(at as int, at + N));
    r
}


/// Decimal digit `d`.
pub open spec fn decimal_digit(d: nat) -> char {
    seq!['0', '1', '2', '3', '4', '5', '6', '7', '8', '9'][d as int]
}

/// Decimal rendering of `n`, without leading zeros.
pub open spec fn decimal(n: nat) -> Seq<char>
    decreases n,
{
    if n < 10 {
        seq![decimal_digit(n)]
    } else {
        decimal(n / 10).push(decimal_digit(n % 10))
    }
}

/// Relies on `String::push`: appends one character.
#[verifier::external_body]
pub(crate) fn push_char(s: &mut String, c: char)
    ensures
        final(s)@ == old(s)@.push(c),
{
    s.push(c)
}

/// Appends `t`.
pub fn push_text(s: &mut String, t: &str)
    ensures
        final(s)@ == old(s)@ + t@,
{
    s.append(t);
}

/// Appends the decimal rendering of `n`.
pub fn push_decimal(s: &mut String, n: u64)
    ensures
        final(s)@ == old(s)@ + decimal(n as nat),
    decreases n,
{
    if n >= 10 {
        push_decimal(s, n / 10);
    }
    let d = (n % 10) as usize;
    let digits = ['0', '1', '2', '3', '4', '5', '6', '7', '8', '9'];
    let c = digits[d];
    assert(digits@ == seq!['0', '1', '2', '3', '4', '5', '6', '7', '8', '9']);
    push_char(s, c);
    if n >= 10 {
        assert(final(s)@ =~= old(s)@ + decimal(n as nat));
    } else {
        assert(final(s)@ =~= old(s)@ + decimal(n as nat));
    }
}

/// Quoted and escaped form of a text, as Rust's `Debug` writes it.
pub uninterp spec fn debug_quoted(s: Seq<char>) -> Seq<char>;

/// Relies on the `Debug` formatting of `str`: the quoted, escaped text; it depends
/// on the characters alone.
#[verifier::external_body]
fn debug_quoted_text(t: &str) -> (r: String)
    ensures
        r@ == debug_quoted(t@),
{
    format!("{:?}", t)
}

/// Appends the quoted, escaped form of `t`.
pub fn push_debug_quoted(s: &mut String, t: &str)
    ensures
        final(s)@ == old(s)@ + debug_quoted(t@),
{
    let q = debug_quoted_text(t);
    push_text(s, q.as_str());
}

/// The items of `s` in decimal, separated by `, `.
pub open spec fn decimal_list(s: Seq<u32>) -> Seq<char>
    decreases s.len(),
{
    if s.len() == 0 {
        Seq::empty()
    } else if s.len() == 1 {
        decimal(s[0] as nat)
    } else {
        decimal_list(s.drop_last()) + ", "@ + decimal(s.last() as nat)
    }
}

/// Appends `[`, the items of `s` in decimal separated by `, `, and `]`.
pub fn push_decimal_list(out: &mut String, s: &[u32])
    ensures
        final(out)@ == old(out)@ + "["@ + decimal_list(s@) + "]"@,
{
    push_text(out, "[");
    let ghost head = out@;
    let mut i: usize = 0;
    assert(s@.subrange(0, 0) =~= Seq::<u32>::empty());
    assert(out@ =~= head + decimal_list(s@.subrange(0, 0)));
    while i < s.len()
        invariant
            i <= s@.len(),
            out@ == head + decimal_list(s@.subrange(0, i as int)),
        decreases s@.len() - i,
    {
        let ghost before = out@;
        if i > 0 {
            push_text(out, ", ");
        }
        push_decimal(out, s[i] as u64);
        let ghost t = s@.subrange(0, i + 1);
        assert(t.drop_last() =~= s@.subrange(0, i as int));
        if i == 0 {
            assert(t.len() == 1 && t[0] == s@[0]);
        }
        i = i + 1;
        assert(out@ =~= head + decimal_list(s@.subrange(0, i as int)));
    }
    assert(s@.subrange(0, s@.len() as int) =~= s@);
    push_text(out, "]");
}

} // verus!
