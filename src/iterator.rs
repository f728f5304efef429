use vstd::prelude::*;
use vstd::slice::slice_subrange;
use vstd::arithmetic::div_mod::{
    lemma_fundamental_div_mod, lemma_mod_pos_bound, lemma_small_mod, lemma_mod_multiples_basic,
    lemma_add_mod_noop, lemma_mod_self_0,
};
use vstd::utf8::{decode_utf8, valid_utf8};
use crate::wire::{le_value, to_signed, le_u16, le_u32, le_u64, le_i16, le_i32, le_i64};
use crate::text::{utf16_scalars, scalars_of, utf8_to_string, utf16_to_string};

verus! {

/// Size of the pickle header: a `u32` that gives the payload's length.
pub const PICKLE_HEADER: usize = 4;

#[derive(Debug, Clone, Copy, PartialEq, Eq, Structural)]
pub enum PickleError {
    /// The header's payload length disagrees with the bytes given.
    InvalidPickleLength,
    /// A boolean field held neither 0 nor 1.
    InvalidBool,
    /// Fewer bytes remain than a read needs.
    IoError,
    /// A string field is not valid UTF-8.
    Utf8Error,
    Utf16ConversionError,
    /// A UTF-16 string field holds an unpaired surrogate.
    Utf16Error,
}

/// An absolute time, as microseconds since the Unix epoch.
#[derive(Debug, Clone, Copy, PartialEq, Eq, Structural)]
pub struct Timestamp {
    pub micros_since_epoch: u64,
}

/// The reader's state: the whole pickle (header included), the cursor and the
/// alignment that every read is padded to.
pub struct PickleView {
    pub bytes: Seq<u8>,
    pub pos: int,
    pub align: int,
}

/// The reader over `data` with its cursor after the header, when the header
/// gives the length of the rest.
pub open spec fn open_pickle(data: Seq<u8>, align: int) -> Result<PickleView, PickleError> {
    if data.len() < PICKLE_HEADER {
        Err(PickleError::IoError)
    } else if le_value(data.subrange(0, 4)) != data.len() - PICKLE_HEADER {
        Err(PickleError::InvalidPickleLength)
    } else {
        Ok(PickleView { bytes: data, pos: PICKLE_HEADER as int, align })
    }
}

/// Bytes skipped after a read of `n` bytes: none when `n` is already aligned.
pub open spec fn padding(n: int, align: int) -> int {
    (align - n % align) % align
}

/// Padding is less than one alignment step, none for an aligned length, and
/// brings every length to a multiple of the alignment.
pub proof fn lemma_padding(n: int, a: int)
    requires
        a > 0,
        n >= 0,
    ensures
        0 <= padding(n, a) < a,
        (n + padding(n, a)) % a == 0,
        n % a == 0 ==> padding(n, a) == 0,
{
    let r = n % a;
    let q = n / a;
    lemma_fundamental_div_mod(n, a);
    lemma_mod_pos_bound(n, a);
    if r == 0 {
        lemma_mod_self_0(a);
    } else {
        lemma_small_mod((a - r) as nat, a as nat);
        assert(n + padding(n, a) == (q + 1) * a) by (nonlinear_arith)
            requires n == a * q + r, padding(n, a) == a - r;
        lemma_mod_multiples_basic(q + 1, a);
    }
}

pub open spec fn reader_wf(r: PickleView) -> bool {
    &&& r.align > 0
    &&& PICKLE_HEADER <= r.pos <= r.bytes.len()
    &&& (r.pos - PICKLE_HEADER) % r.align == 0
}

/// With alignment 4, every read of `n` bytes leaves the cursor on a multiple
/// of 4; a length that is already a multiple of 4 gets no padding at all.
pub proof fn lemma_reads_stay_aligned(r: PickleView, n: int)
    requires
        reader_wf(r),
        r.align == 4,
    ensures
        r.pos % 4 == 0,
        reader_wf(step_bytes(r, n).1),
        step_bytes(r, n).1.pos % 4 == 0,
        step_bytes(r, n).0 is Ok && n % 4 == 0 ==> step_bytes(r, n).1.pos == r.pos + n,
{
    if 0 <= n {
        lemma_padding(n, 4);
        lemma_add_mod_noop(r.pos - PICKLE_HEADER, n + padding(n, 4), 4);
        lemma_small_mod(0, 4);
    }
}

/// A read of `n` raw bytes and its padding; on failure the cursor stays.
pub open spec fn step_bytes(r: PickleView, n: int) -> (Result<Seq<u8>, PickleError>, PickleView) {
    if 0 <= n && r.pos + n + padding(n, r.align) <= r.bytes.len() {
        (
            Ok(r.bytes.subrange(r.pos, r.pos + n)),
            PickleView { pos: r.pos + n + padding(n, r.align), ..r },
        )
    } else {
        (Err(PickleError::IoError), r)
    }
}

pub open spec fn step_u16(r: PickleView) -> (Result<u16, PickleError>, PickleView) {
    let (b, next) = step_bytes(r, 2);
    (
        match b {
            Ok(b) => Ok(le_value(b) as u16),
            Err(e) => Err(e),
        },
        next,
    )
}

pub open spec fn step_u32(r: PickleView) -> (Result<u32, PickleError>, PickleView) {
    let (b, next) = step_bytes(r, 4);
    (
        match b {
            Ok(b) => Ok(le_value(b) as u32),
            Err(e) => Err(e),
        },
        next,
    )
}

pub open spec fn step_u64(r: PickleView) -> (Result<u64, PickleError>, PickleView) {
    let (b, next) = step_bytes(r, 8);
    (
        match b {
            Ok(b) => Ok(le_value(b) as u64),
            Err(e) => Err(e),
        },
        next,
    )
}

pub open spec fn step_i16(r: PickleView) -> (Result<i16, PickleError>, PickleView) {
    let (b, next) = step_bytes(r, 2);
    (
        match b {
            Ok(b) => Ok(to_signed(le_value(b), 16) as i16),
            Err(e) => Err(e),
        },
        next,
    )
}

pub open spec fn step_i32(r: PickleView) -> (Result<i32, PickleError>, PickleView) {
    let (b, next) = step_bytes(r, 4);
    (
        match b {
            Ok(b) => Ok(to_signed(le_value(b), 32) as i32),
            Err(e) => Err(e),
        },
        next,
    )
}

pub open spec fn step_i64(r: PickleView) -> (Result<i64, PickleError>, PickleView) {
    let (b, next) = step_bytes(r, 8);
    (
        match b {
            Ok(b) => Ok(to_signed(le_value(b), 64) as i64),
            Err(e) => Err(e),
        },
        next,
    )
}

/// An `i32` that must be 0 or 1; the four bytes are consumed either way.
pub open spec fn step_bool(r: PickleView) -> (Result<bool, PickleError>, PickleView) {
    let (v, next) = step_i32(r);
    (
        match v {
            Ok(v) => if v == 0 {
                Ok(false)
            } else if v == 1 {
                Ok(true)
            } else {
                Err(PickleError::InvalidBool)
            },
            Err(e) => Err(e),
        },
        next,
    )
}

/// A `u32` byte count, then that many bytes of UTF-8.
pub open spec fn step_string(r: PickleView) -> (Result<Seq<char>, PickleError>, PickleView) {
    let (n, r1) = step_u32(r);
    match n {
        Err(e) => (Err(e), r1),
        Ok(n) => {
            let (b, r2) = step_bytes(r1, n as int);
            match b {
                Err(e) => (Err(e), r2),
                Ok(b) => (
                    if valid_utf8(b) {
                        Ok(decode_utf8(b))
                    } else {
                        Err(PickleError::Utf8Error)
                    },
                    r2,
                ),
            }
        },
    }
}

/// The UTF-16 code units held little-endian in `b`.
pub open spec fn le_units(b: Seq<u8>) -> Seq<u16> {
    Seq::new(b.len() / 2, |i: int| le_value(b.subrange(2 * i, 2 * i + 2)) as u16)
}

/// A `u32` count of UTF-16 code units, then twice that many bytes.
pub open spec fn step_string16(r: PickleView) -> (Result<Seq<u32>, PickleError>, PickleView) {
    let (n, r1) = step_u32(r);
    match n {
        Err(e) => (Err(e), r1),
        Ok(n) => {
            let (b, r2) = step_bytes(r1, 2 * n);
            match b {
                Err(e) => (Err(e), r2),
                Ok(b) => (
                    match utf16_scalars(le_units(b)) {
                        Some(s) => Ok(s),
                        None => Err(PickleError::Utf16Error),
                    },
                    r2,
                ),
            }
        },
    }
}

pub open spec fn step_datetime(r: PickleView) -> (Result<Timestamp, PickleError>, PickleView) {
    let (v, next) = step_u64(r);
    (
        match v {
            Ok(v) => Ok(Timestamp { micros_since_epoch: v }),
            Err(e) => Err(e),
        },
        next,
    )
}

pub open spec fn string_result(r: Result<String, PickleError>) -> Result<Seq<char>, PickleError> {
    match r {
        Ok(s) => Ok(s@),
        Err(e) => Err(e),
    }
}

pub open spec fn string16_result(r: Result<String, PickleError>) -> Result<Seq<u32>, PickleError> {
    match r {
        Ok(s) => Ok(scalars_of(s@)),
        Err(e) => Err(e),
    }
}

pub open spec fn bytes_result(r: Result<Vec<u8>, PickleError>) -> Result<Seq<u8>, PickleError> {
    match r {
        Ok(b) => Ok(b@),
        Err(e) => Err(e),
    }
}

/// A cursor over a pickle: a `u32` payload length, then fields, each padded to
/// the alignment.
#[derive(Debug)]
pub struct PickleIterator {
    data: Vec<u8>,
    pos: usize,
    alignment: usize,
}

impl View for PickleIterator {
    type V = PickleView;

    closed spec fn view(&self) -> PickleView {
        PickleView { bytes: self.data@, pos: self.pos as int, align: self.alignment as int }
    }
}

impl PickleIterator {
    pub open spec fn wf(&self) -> bool {
        reader_wf(self@)
    }

    /// Opens a pickle: its header must give the length of the rest.
    pub fn new(data: Vec<u8>, alignment: usize) -> (r: Result<Self, PickleError>)
        requires
            alignment > 0,
        ensures
            match r {
                Ok(it) => open_pickle(data@, alignment as int) == Ok::<PickleView, PickleError>(it@) && it.wf(),
                Err(e) => open_pickle(data@, alignment as int) == Err::<PickleView, PickleError>(e),
            },
    {
        if data.len() < PICKLE_HEADER {
            return Err(PickleError::IoError);
        }
        let head = data.as_slice();
        let length = le_u32(head);
        assert(head@ == data@);
        if data.len() - PICKLE_HEADER != length as usize {
            return Err(PickleError::InvalidPickleLength);
        }
        let it = PickleIterator { data, pos: PICKLE_HEADER, alignment };
        proof {
            lemma_small_mod(0, alignment as nat);
        }
        Ok(it)
    }

    /// Offset of the cursor from the start of the pickle, header included.
    pub fn position(&self) -> (r: usize)
        ensures
            r as int == self@.pos,
    {
        self.pos
    }

    /// Reads `length` raw bytes, then skips the padding up to the alignment.
    pub fn read_aligned(&mut self, length: usize) -> (r: Result<Vec<u8>, PickleError>)
        requires
            old(self).wf(),
        ensures
            final(self).wf(),
            (bytes_result(r), final(self)@) == step_bytes(old(self)@, length as int),
    {
        let remaining = self.data.len() - self.pos;
        if length > remaining {
            return Err(PickleError::IoError);
        }
        let pad = (self.alignment - length % self.alignment) % self.alignment;
        if pad > remaining - length {
            return Err(PickleError::IoError);
        }
        let start = self.pos;
        let end = start + length;
        let mut out: Vec<u8> = Vec::new();
        let mut i: usize = start;
        while i < end
            invariant
                start == self.pos,
                end == start + length,
                end <= self.data@.len(),
                start <= i <= end,
                out@ == self.data@.subrange(start as int, i as int),
            decreases end - i,
        {
            out.push(self.data[i]);
            i = i + 1;
            assert(out@ =~= self.data@.subrange(start as int, i as int));
        }
        proof {
            let a = self.alignment as int;
            let n = length as int;
            let before = self.pos as int - PICKLE_HEADER;
            lemma_padding(n, a);
            lemma_add_mod_noop(before, n + padding(n, a), a);
            lemma_small_mod(0, a as nat);
            assert(before + (n + padding(n, a)) == (self.pos + length + pad) - PICKLE_HEADER);
        }
        self.pos = self.pos + length + pad;
        Ok(out)
    }

    pub fn read_uint16(&mut self) -> (r: Result<u16, PickleError>)
        requires
            old(self).wf(),
        ensures
            final(self).wf(),
            (r, final(self)@) == step_u16(old(self)@),
    {
        let raw = match self.read_aligned(2) {
            Ok(raw) => raw,
            Err(e) => return Err(e),
        };
        let b = raw.as_slice();
        assert(b@.subrange(0, 2) =~= b@);
        Ok(le_u16(b))
    }

    pub fn read_uint32(&mut self) -> (r: Result<u32, PickleError>)
        requires
            old(self).wf(),
        ensures
            final(self).wf(),
            (r, final(self)@) == step_u32(old(self)@),
    {
        let raw = match self.read_aligned(4) {
            Ok(raw) => raw,
            Err(e) => return Err(e),
        };
        let b = raw.as_slice();
        assert(b@.subrange(0, 4) =~= b@);
        Ok(le_u32(b))
    }

    pub fn read_uint64(&mut self) -> (r: Result<u64, PickleError>)
        requires
            old(self).wf(),
        ensures
            final(self).wf(),
            (r, final(self)@) == step_u64(old(self)@),
    {
        let raw = match self.read_aligned(8) {
            Ok(raw) => raw,
            Err(e) => return Err(e),
        };
        let b = raw.as_slice();
        assert(b@.subrange(0, 8) =~= b@);
        Ok(le_u64(b))
    }

    pub fn read_int16(&mut self) -> (r: Result<i16, PickleError>)
        requires
            old(self).wf(),
        ensures
            final(self).wf(),
            (r, final(self)@) == step_i16(old(self)@),
    {
        let raw = match self.read_aligned(2) {
            Ok(raw) => raw,
            Err(e) => return Err(e),
        };
        let b = raw.as_slice();
        assert(b@.subrange(0, 2) =~= b@);
        Ok(le_i16(b))
    }

    pub fn read_int32(&mut self) -> (r: Result<i32, PickleError>)
        requires
            old(self).wf(),
        ensures
            final(self).wf(),
            (r, final(self)@) == step_i32(old(self)@),
    {
        let raw = match self.read_aligned(4) {
            Ok(raw) => raw,
            Err(e) => return Err(e),
        };
        let b = raw.as_slice();
        assert(b@.subrange(0, 4) =~= b@);
        Ok(le_i32(b))
    }

    pub fn read_int64(&mut self) -> (r: Result<i64, PickleError>)
        requires
            old(self).wf(),
        ensures
            final(self).wf(),
            (r, final(self)@) == step_i64(old(self)@),
    {
        let raw = match self.read_aligned(8) {
            Ok(raw) => raw,
            Err(e) => return Err(e),
        };
        let b = raw.as_slice();
        assert(b@.subrange(0, 8) =~= b@);
        Ok(le_i64(b))
    }

    /// An `i32` that must be 0 (false) or 1 (true).
    pub fn read_bool(&mut self) -> (r: Result<bool, PickleError>)
        requires
            old(self).wf(),
        ensures
            final(self).wf(),
            (r, final(self)@) == step_bool(old(self)@),
    {
        let raw = match self.read_int32() {
            Ok(raw) => raw,
            Err(e) => return Err(e),
        };
        if raw == 0 {
            Ok(false)
        } else if raw == 1 {
            Ok(true)
        } else {
            Err(PickleError::InvalidBool)
        }
    }

    /// A `u32` byte count, then that many bytes of UTF-8.
    pub fn read_string(&mut self) -> (r: Result<String, PickleError>)
        requires
            old(self).wf(),
        ensures
            final(self).wf(),
            (string_result(r), final(self)@) == step_string(old(self)@),
    {
        let length = match self.read_uint32() {
            Ok(n) => n,
            Err(e) => return Err(e),
        };
        let raw = match self.read_aligned(length as usize) {
            Ok(raw) => raw,
            Err(e) => return Err(e),
        };
        match utf8_to_string(raw) {
            Some(s) => Ok(s),
            None => Err(PickleError::Utf8Error),
        }
    }

    /// A `u32` count of UTF-16 code units, then the units, little-endian.
    pub fn read_string16(&mut self) -> (r: Result<String, PickleError>)
        requires
            old(self).wf(),
        ensures
            final(self).wf(),
            (string16_result(r), final(self)@) == step_string16(old(self)@),
    {
        let count = match self.read_uint32() {
            Ok(n) => n as usize,
            Err(e) => return Err(e),
        };
        if count > (self.data.len() - self.pos) / 2 {
            return Err(PickleError::IoError);
        }
        let raw = match self.read_aligned(2 * count) {
            Ok(raw) => raw,
            Err(e) => return Err(e),
        };
        let b = raw.as_slice();
        let mut units: Vec<u16> = Vec::new();
        let mut i: usize = 0;
        while i < count
            invariant
                b@ == raw@,
                b@.len() == 2 * count,
                2 * count <= usize::MAX,
                i <= count,
                units@ =~= le_units(b@).subrange(0, i as int),
            decreases count - i,
        {
            let pair = slice_subrange(b, 2 * i, 2 * i + 2);
            assert(pair@.subrange(0, 2) =~= b@.subrange(2 * i as int, 2 * i as int + 2));
            units.push(le_u16(pair));
            i = i + 1;
        }
        assert(units@ =~= le_units(raw@));
        match utf16_to_string(units.as_slice()) {
            Some(s) => Ok(s),
            None => Err(PickleError::Utf16Error),
        }
    }

    /// A `u64` count of microseconds since the Unix epoch.
    pub fn read_datetime(&mut self) -> (r: Result<Timestamp, PickleError>)
        requires
            old(self).wf(),
        ensures
            final(self).wf(),
            (r, final(self)@) == step_datetime(old(self)@),
    {
        match self.read_uint64() {
            Ok(v) => Ok(Timestamp { micros_since_epoch: v }),
            Err(e) => Err(e),
        }
    }
}

} // verus!
