use crate::error::ParseError;
use scroll::IOread;
use vstd::prelude::*;

verus! {

/// `std::io::Error`, which reading from an in-memory stream returns when it runs out of bytes.
#[verifier::external_type_specification]
#[verifier::external_body]
pub struct ExIoError(std::io::Error);

/// The byte at `i`.
pub open spec fn u8_at(s: Seq<u8>, i: int) -> u8 {
    s[i]
}

/// The `n` bytes from `i` on.
pub open spec fn bytes_at(s: Seq<u8>, i: int, n: nat) -> Seq<u8> {
    Seq::new(n, |k: int| s[i + k])
}

/// The byte at `i`, read as a two's-complement `i8`.
pub open spec fn i8_at(s: Seq<u8>, i: int) -> i8 {
    s[i] as i8
}

/// The machine this runs on stores integers least significant byte first.
pub open spec fn host_is_little_endian() -> bool {
    vstd::endian::endianness() is Little
}

/// The little-endian `u16` stored at `i..i + 2`.
pub open spec fn u16_le_at(s: Seq<u8>, i: int) -> u16 {
    (s[i] + 256 * s[i + 1]) as u16
}

/// The big-endian `u16` stored at `i..i + 2`.
pub open spec fn u16_be_at(s: Seq<u8>, i: int) -> u16 {
    (256 * s[i] + s[i + 1]) as u16
}

/// The little-endian `u32` stored at `i..i + 4`.
pub open spec fn u32_le_at(s: Seq<u8>, i: int) -> u32 {
    (u16_le_at(s, i) + 65536 * u16_le_at(s, i + 2)) as u32
}

/// The big-endian `u32` stored at `i..i + 4`.
pub open spec fn u32_be_at(s: Seq<u8>, i: int) -> u32 {
    (65536 * u16_be_at(s, i) + u16_be_at(s, i + 2)) as u32
}

/// The little-endian `u64` stored at `i..i + 8`.
pub open spec fn u64_le_at(s: Seq<u8>, i: int) -> u64 {
    (u32_le_at(s, i) + 4294967296 * u32_le_at(s, i + 4)) as u64
}

/// The big-endian `u64` stored at `i..i + 8`.
pub open spec fn u64_be_at(s: Seq<u8>, i: int) -> u64 {
    (4294967296 * u32_be_at(s, i) + u32_be_at(s, i + 4)) as u64
}

/// The `u16` stored at `i..i + 2` in the machine's byte order.
pub open spec fn u16_at(s: Seq<u8>, i: int) -> u16 {
    if host_is_little_endian() {
        u16_le_at(s, i)
    } else {
        u16_be_at(s, i)
    }
}

/// The `u32` stored at `i..i + 4` in the machine's byte order.
pub open spec fn u32_at(s: Seq<u8>, i: int) -> u32 {
    if host_is_little_endian() {
        u32_le_at(s, i)
    } else {
        u32_be_at(s, i)
    }
}

/// The two's-complement `i32` stored at `i..i + 4` in the machine's byte order.
pub open spec fn i32_at(s: Seq<u8>, i: int) -> i32 {
    u32_at(s, i) as i32
}

/// The `u64` stored at `i..i + 8` in the machine's byte order.
pub open spec fn u64_at(s: Seq<u8>, i: int) -> u64 {
    if host_is_little_endian() {
        u64_le_at(s, i)
    } else {
        u64_be_at(s, i)
    }
}

/// `IOread::ioread::<u8>` of scroll, which reads in the machine's byte order, on a
/// `std::io::Cursor` over `data` placed at `pos`: it succeeds exactly when a byte is left there, and returns that byte.
#[verifier::external_body]
fn io_read_u8(data: &[u8], pos: usize) -> (r: Result<u8, std::io::Error>)
    ensures
        r is Ok <==> pos + 1 <= data@.len(),
        r matches Ok(v) ==> v == u8_at(data@, pos as int),
{
    let mut cursor = std::io::Cursor::new(data);
    cursor.set_position(pos as u64);
    cursor.ioread::<u8>()
}

/// `IOread::ioread::<i8>` of scroll, which reads in the machine's byte order, on a
/// `std::io::Cursor` over `data` placed at `pos`: it succeeds exactly when a byte is left there, and returns it as an `i8`.
#[verifier::external_body]
fn io_read_i8(data: &[u8], pos: usize) -> (r: Result<i8, std::io::Error>)
    ensures
        r is Ok <==> pos + 1 <= data@.len(),
        r matches Ok(v) ==> v == i8_at(data@, pos as int),
{
    let mut cursor = std::io::Cursor::new(data);
    cursor.set_position(pos as u64);
    cursor.ioread::<i8>()
}

/// `IOread::ioread::<u16>` of scroll, which reads in the machine's byte order, on a
/// `std::io::Cursor` over `data` placed at `pos`: it succeeds exactly when two bytes are left there, and decodes them.
#[verifier::external_body]
fn io_read_u16(data: &[u8], pos: usize) -> (r: Result<u16, std::io::Error>)
    ensures
        r is Ok <==> pos + 2 <= data@.len(),
        r matches Ok(v) ==> v == u16_at(data@, pos as int),
{
    let mut cursor = std::io::Cursor::new(data);
    cursor.set_position(pos as u64);
    cursor.ioread::<u16>()
}

/// `IOread::ioread::<u32>` of scroll, which reads in the machine's byte order, on a
/// `std::io::Cursor` over `data` placed at `pos`: it succeeds exactly when four bytes are left there, and decodes them.
#[verifier::external_body]
fn io_read_u32(data: &[u8], pos: usize) -> (r: Result<u32, std::io::Error>)
    ensures
        r is Ok <==> pos + 4 <= data@.len(),
        r matches Ok(v) ==> v == u32_at(data@, pos as int),
{
    let mut cursor = std::io::Cursor::new(data);
    cursor.set_position(pos as u64);
    cursor.ioread::<u32>()
}

/// `IOread::ioread::<i32>` of scroll, which reads in the machine's byte order, on a
/// `std::io::Cursor` over `data` placed at `pos`: it succeeds exactly when four bytes are left there, and decodes them.
#[verifier::external_body]
fn io_read_i32(data: &[u8], pos: usize) -> (r: Result<i32, std::io::Error>)
    ensures
        r is Ok <==> pos + 4 <= data@.len(),
        r matches Ok(v) ==> v == i32_at(data@, pos as int),
{
    let mut cursor = std::io::Cursor::new(data);
    cursor.set_position(pos as u64);
    cursor.ioread::<i32>()
}

/// `IOread::ioread::<u64>` of scroll, which reads in the machine's byte order, on a
/// `std::io::Cursor` over `data` placed at `pos`: it succeeds exactly when eight bytes are left there, and decodes them.
#[verifier::external_body]
fn io_read_u64(data: &[u8], pos: usize) -> (r: Result<u64, std::io::Error>)
    ensures
        r is Ok <==> pos + 8 <= data@.len(),
        r matches Ok(v) ==> v == u64_at(data@, pos as int),
{
    let mut cursor = std::io::Cursor::new(data);
    cursor.set_position(pos as u64);
    cursor.ioread::<u64>()
}

/// A read position over a byte slice, as a stream reader keeps it: each read takes the next
/// bytes and moves past them, or fails with `ParseError::UnexpectedEnd` and moves nowhere.
pub struct Cursor<'a> {
    data: &'a [u8],
    pos: usize,
}

impl<'a> Cursor<'a> {
    /// The bytes the cursor reads from.
    pub closed spec fn data(&self) -> Seq<u8> {
        self.data@
    }

    /// The offset of the next byte to read; it may lie past the end.
    pub closed spec fn pos(&self) -> int {
        self.pos as int
    }

    /// A cursor at the start of `data`.
    pub fn new(data: &'a [u8]) -> (c: Self)
        ensures
            c.data() == data@,
            c.pos() == 0,
    {
        Cursor { data, pos: 0 }
    }

    /// The position is a `usize`.
    pub proof fn lemma_pos_bounds(&self)
        ensures
            0 <= self.pos() <= usize::MAX,
    {
    }

    /// The offset of the next byte to read.
    pub fn position(&self) -> (p: usize)
        ensures
            p == self.pos(),
    {
        self.pos
    }

    /// The bytes the cursor reads from.
    pub fn get_ref(&self) -> (d: &'a [u8])
        ensures
            d@ == self.data(),
    {
        self.data
    }

    /// Moves the position `n` bytes forward, past the end if need be; a move whose target
    /// does not fit in `usize` is refused and leaves the position where it was.
    pub fn skip(&mut self, n: usize)
        ensures
            final(self).data() == old(self).data(),
            final(self).pos() == if old(self).pos() + n <= usize::MAX {
                old(self).pos() + n
            } else {
                old(self).pos()
            },
    {
        if let Some(p) = self.pos.checked_add(n) {
            self.pos = p;
        }
    }

    /// Reads the next `n` bytes, as `Read::read_exact` fills a buffer of that length: reading
    /// no bytes always succeeds.
    pub fn read_bytes(&mut self, n: usize) -> (r: Result<Vec<u8>, ParseError>)
        ensures
            final(self).data() == old(self).data(),
            n == 0 || old(self).pos() + n <= old(self).data().len() ==> r is Ok && r->Ok_0@
                == bytes_at(old(self).data(), old(self).pos(), n as nat) && final(self).pos()
                == old(self).pos() + n,
            n > 0 && old(self).pos() + n > old(self).data().len() ==> r == Err::<
                Vec<u8>,
                ParseError,
            >(ParseError::UnexpectedEnd) && final(self).pos() == old(self).pos(),
    {
        let len = self.data.len();
        if n == 0 {
            let out: Vec<u8> = Vec::new();
            assert(out@ =~= bytes_at(self.data@, self.pos as int, 0));
            return Ok(out);
        }
        if self.pos > len || len - self.pos < n {
            return Err(ParseError::UnexpectedEnd);
        }
        let start = self.pos;
        let mut out: Vec<u8> = Vec::with_capacity(n);
        let mut i: usize = 0;
        while i < n
            invariant
                start + n <= len,
                len == self.data@.len(),
                i <= n,
                out@ == bytes_at(self.data@, start as int, i as nat),
            decreases n - i,
        {
            out.push(self.data[start + i]);
            i = i + 1;
            assert(out@ =~= bytes_at(self.data@, start as int, i as nat));
        }
        self.pos = start + n;
        Ok(out)
    }

    /// Reads a byte.
    pub fn read_u8(&mut self) -> (r: Result<u8, ParseError>)
        ensures
            final(self).data() == old(self).data(),
            old(self).pos() + 1 <= old(self).data().len() ==> r == Ok::<u8, ParseError>(
                u8_at(old(self).data(), old(self).pos()),
            ) && final(self).pos() == old(self).pos() + 1,
            old(self).pos() + 1 > old(self).data().len() ==> r == Err::<u8, ParseError>(
                ParseError::UnexpectedEnd,
            ) && final(self).pos() == old(self).pos(),
    {
        match io_read_u8(self.data, self.pos) {
            Ok(v) => {
                proof {
                    assert(self.data@.len() == self.data.len());
                }
                self.pos = self.pos + 1;
                Ok(v)
            },
            Err(_) => Err(ParseError::UnexpectedEnd),
        }
    }

    /// Reads a byte as a two's-complement `i8`.
    pub fn read_i8(&mut self) -> (r: Result<i8, ParseError>)
        ensures
            final(self).data() == old(self).data(),
            old(self).pos() + 1 <= old(self).data().len() ==> r == Ok::<i8, ParseError>(
                i8_at(old(self).data(), old(self).pos()),
            ) && final(self).pos() == old(self).pos() + 1,
            old(self).pos() + 1 > old(self).data().len() ==> r == Err::<i8, ParseError>(
                ParseError::UnexpectedEnd,
            ) && final(self).pos() == old(self).pos(),
    {
        match io_read_i8(self.data, self.pos) {
            Ok(v) => {
                proof {
                    assert(self.data@.len() == self.data.len());
                }
                self.pos = self.pos + 1;
                Ok(v)
            },
            Err(_) => Err(ParseError::UnexpectedEnd),
        }
    }

    /// Reads a `u16` in the machine's byte order.
    pub fn read_u16(&mut self) -> (r: Result<u16, ParseError>)
        ensures
            final(self).data() == old(self).data(),
            old(self).pos() + 2 <= old(self).data().len() ==> r == Ok::<u16, ParseError>(
                u16_at(old(self).data(), old(self).pos()),
            ) && final(self).pos() == old(self).pos() + 2,
            old(self).pos() + 2 > old(self).data().len() ==> r == Err::<u16, ParseError>(
                ParseError::UnexpectedEnd,
            ) && final(self).pos() == old(self).pos(),
    {
        match io_read_u16(self.data, self.pos) {
            Ok(v) => {
                proof {
                    assert(self.data@.len() == self.data.len());
                }
                self.pos = self.pos + 2;
                Ok(v)
            },
            Err(_) => Err(ParseError::UnexpectedEnd),
        }
    }

    /// Reads a `u32` in the machine's byte order.
    pub fn read_u32(&mut self) -> (r: Result<u32, ParseError>)
        ensures
            final(self).data() == old(self).data(),
            old(self).pos() + 4 <= old(self).data().len() ==> r == Ok::<u32, ParseError>(
                u32_at(old(self).data(), old(self).pos()),
            ) && final(self).pos() == old(self).pos() + 4,
            old(self).pos() + 4 > old(self).data().len() ==> r == Err::<u32, ParseError>(
                ParseError::UnexpectedEnd,
            ) && final(self).pos() == old(self).pos(),
    {
        match io_read_u32(self.data, self.pos) {
            Ok(v) => {
                proof {
                    assert(self.data@.len() == self.data.len());
                }
                self.pos = self.pos + 4;
                Ok(v)
            },
            Err(_) => Err(ParseError::UnexpectedEnd),
        }
    }

    /// Reads a two's-complement `i32` in the machine's byte order.
    pub fn read_i32(&mut self) -> (r: Result<i32, ParseError>)
        ensures
            final(self).data() == old(self).data(),
            old(self).pos() + 4 <= old(self).data().len() ==> r == Ok::<i32, ParseError>(
                i32_at(old(self).data(), old(self).pos()),
            ) && final(self).pos() == old(self).pos() + 4,
            old(self).pos() + 4 > old(self).data().len() ==> r == Err::<i32, ParseError>(
                ParseError::UnexpectedEnd,
            ) && final(self).pos() == old(self).pos(),
    {
        match io_read_i32(self.data, self.pos) {
            Ok(v) => {
                proof {
                    assert(self.data@.len() == self.data.len());
                }
                self.pos = self.pos + 4;
                Ok(v)
            },
            Err(_) => Err(ParseError::UnexpectedEnd),
        }
    }

    /// Reads a `u64` in the machine's byte order.
    pub fn read_u64(&mut self) -> (r: Result<u64, ParseError>)
        ensures
            final(self).data() == old(self).data(),
            old(self).pos() + 8 <= old(self).data().len() ==> r == Ok::<u64, ParseError>(
                u64_at(old(self).data(), old(self).pos()),
            ) && final(self).pos() == old(self).pos() + 8,
            old(self).pos() + 8 > old(self).data().len() ==> r == Err::<u64, ParseError>(
                ParseError::UnexpectedEnd,
            ) && final(self).pos() == old(self).pos(),
    {
        match io_read_u64(self.data, self.pos) {
            Ok(v) => {
                proof {
                    assert(self.data@.len() == self.data.len());
                }
                self.pos = self.pos + 8;
                Ok(v)
            },
            Err(_) => Err(ParseError::UnexpectedEnd),
        }
    }
}

} // verus!
