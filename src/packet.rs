use vstd::prelude::*;
use vstd::arithmetic::div_mod::lemma_fundamental_div_mod_converse;

use crate::error::{error_of, Error};
use crate::rational::Rational;

verus! {

/// The "no timestamp" value of the engine.
pub const AV_NOPTS_VALUE: i64 = i64::MIN;

/// The largest buffer the engine allocates for a packet: `i32::MAX` less its
/// 64 bytes of padding, less one.
pub const MAX_PACKET_SIZE: usize = 0x7fff_ffff - 65;

/// Behaviour flags of a packet.
#[derive(Clone, Copy, Debug, PartialEq, Eq, Structural)]
pub struct Flags {
    bits: i32,
}

/// All flag bits that have a meaning.
pub open spec fn known_flag_bits() -> i32 {
    0x1f
}

impl View for Flags {
    type V = i32;

    closed spec fn view(&self) -> i32 {
        self.bits
    }
}

impl Flags {
    /// The packet holds a key frame.
    pub fn key() -> (r: Flags)
        ensures
            r@ == 0x1,
    {
        Flags { bits: 0x1 }
    }

    /// The packet content is corrupted.
    pub fn corrupt() -> (r: Flags)
        ensures
            r@ == 0x2,
    {
        Flags { bits: 0x2 }
    }

    /// The packet is needed to keep decoding going, but its output is to be discarded.
    pub fn discard() -> (r: Flags)
        ensures
            r@ == 0x4,
    {
        Flags { bits: 0x4 }
    }

    /// The packet comes from a trusted source.
    pub fn trusted() -> (r: Flags)
        ensures
            r@ == 0x8,
    {
        Flags { bits: 0x8 }
    }

    /// The packet holds frames that can be dropped by a decoder.
    pub fn disposable() -> (r: Flags)
        ensures
            r@ == 0x10,
    {
        Flags { bits: 0x10 }
    }

    pub fn empty() -> (r: Flags)
        ensures
            r@ == 0,
    {
        Flags { bits: 0 }
    }

    pub fn bits(&self) -> (r: i32)
        ensures
            r == self@,
    {
        self.bits
    }

    /// Keeps the bits that have a meaning and drops the others.
    pub fn from_bits_truncate(bits: i32) -> (r: Flags)
        ensures
            r@ == bits & known_flag_bits(),
    {
        Flags { bits: bits & 0x1f }
    }

    pub fn contains(&self, other: Flags) -> (r: bool)
        ensures
            r == (self@ & other@ == other@),
    {
        self.bits & other.bits == other.bits
    }

    pub fn union(self, other: Flags) -> (r: Flags)
        ensures
            r@ == self@ | other@,
    {
        Flags { bits: self.bits | other.bits }
    }
}

/// What a packet holds.
pub struct PacketView {
    /// The buffer's bytes; `None` where no buffer is allocated.
    pub data: Option<Seq<u8>>,
    pub stream_index: u32,
    /// Raw timestamps, `AV_NOPTS_VALUE` where absent.
    pub pts: i64,
    pub dts: i64,
    pub duration: i64,
    pub pos: i64,
    pub time_base: Rational,
    pub flags: i32,
}

impl PacketView {
    pub open spec fn size(self) -> nat {
        match self.data {
            Some(d) => d.len(),
            None => 0,
        }
    }
}

/// The timestamp a raw value stands for.
pub open spec fn timestamp(raw: i64) -> Option<i64> {
    if raw == AV_NOPTS_VALUE {
        None
    } else {
        Some(raw)
    }
}

/// `a * b / c`, rounded to the nearest integer with halves away from zero;
/// `i64::MIN` where `c <= 0`, `b < 0` or the result does not fit in 64 bits.
/// The magnitude of `i64::MIN` is taken as `i64::MAX`.
pub open spec fn rescale_rounded(a: int, b: int, c: int) -> int {
    if c <= 0 || b < 0 {
        i64::MIN as int
    } else {
        let m = if a < 0 {
            if a < -(i64::MAX as int) {
                i64::MAX as int
            } else {
                -a
            }
        } else {
            a
        };
        let q = (m * b + c / 2) / c;
        if q > i64::MAX {
            i64::MIN as int
        } else if a < 0 {
            -q
        } else {
            q
        }
    }
}

/// A timestamp `a` in time base `from`, expressed in time base `to`.
pub open spec fn rescale_q(a: int, from: (int, int), to: (int, int)) -> int {
    rescale_rounded(a, from.0 * to.1, to.0 * from.1)
}

/// The packet fields after rescaling from `from` to `to`: present
/// timestamps and a positive duration are rescaled, the rest is kept, and
/// `to` becomes the time base.
pub open spec fn rescaled_view(p: PacketView, from: Rational, to: Rational) -> PacketView {
    PacketView {
        pts: if p.pts == AV_NOPTS_VALUE {
            p.pts
        } else {
            rescale_q(p.pts as int, from@, to@) as i64
        },
        dts: if p.dts == AV_NOPTS_VALUE {
            p.dts
        } else {
            rescale_q(p.dts as int, from@, to@) as i64
        },
        duration: if p.duration > 0 {
            rescale_q(p.duration as int, from@, to@) as i64
        } else {
            p.duration
        },
        time_base: to,
        ..p
    }
}

/// An owned unit of encoded data with its stream index, timestamps,
/// duration, byte position, time base and flags.
pub struct Packet {
    buf: Option<Vec<u8>>,
    stream_index: u32,
    pts: i64,
    dts: i64,
    duration: i64,
    pos: i64,
    time_base: Rational,
    flags: i32,
}

impl View for Packet {
    type V = PacketView;

    closed spec fn view(&self) -> PacketView {
        PacketView {
            data: match self.buf {
                Some(v) => Some(v@),
                None => None,
            },
            stream_index: self.stream_index,
            pts: self.pts,
            dts: self.dts,
            duration: self.duration,
            pos: self.pos,
            time_base: self.time_base,
            flags: self.flags,
        }
    }
}

/// The fields of a packet that has just been created with the given buffer.
pub open spec fn fresh_view(data: Option<Seq<u8>>) -> PacketView {
    PacketView {
        data,
        stream_index: 0,
        pts: AV_NOPTS_VALUE,
        dts: AV_NOPTS_VALUE,
        duration: 0,
        pos: -1i64,
        time_base: Rational::spec_new(0, 1),
        flags: 0,
    }
}

fn zeros(n: usize) -> (r: Vec<u8>)
    ensures
        r@ == Seq::new(n as nat, |i: int| 0u8),
{
    let mut v: Vec<u8> = Vec::new();
    let mut i: usize = 0;
    while i < n
        invariant
            i <= n,
            v@ == Seq::new(i as nat, |j: int| 0u8),
        decreases n - i,
    {
        v.push(0u8);
        i = i + 1;
        assert(v@ =~= Seq::new(i as nat, |j: int| 0u8));
    }
    v
}

impl Packet {
    /// A packet with no buffer and default fields.
    pub fn empty() -> (r: Packet)
        ensures
            r@ == fresh_view(None),
    {
        Packet {
            buf: None,
            stream_index: 0,
            pts: AV_NOPTS_VALUE,
            dts: AV_NOPTS_VALUE,
            duration: 0,
            pos: -1,
            time_base: Rational::new(0, 1),
            flags: 0,
        }
    }

    /// A packet with a zero-filled buffer of `size` bytes.
    pub fn new(size: usize) -> (r: Packet)
        requires
            size <= MAX_PACKET_SIZE,
        ensures
            r@ == fresh_view(Some(Seq::new(size as nat, |i: int| 0u8))),
    {
        let mut p = Packet::empty();
        p.buf = Some(zeros(size));
        p
    }

    /// A packet whose buffer is a copy of `data`.
    pub fn from_slice(data: &[u8]) -> (r: Packet)
        requires
            data@.len() <= MAX_PACKET_SIZE,
        ensures
            r@ == fresh_view(Some(data@)),
    {
        let mut v: Vec<u8> = Vec::new();
        let mut i: usize = 0;
        while i < data.len()
            invariant
                i <= data@.len(),
                v@ == data@.subrange(0, i as int),
            decreases data@.len() - i,
        {
            v.push(data[i]);
            i = i + 1;
            assert(v@ =~= data@.subrange(0, i as int));
        }
        assert(v@ =~= data@);
        let mut p = Packet::empty();
        p.buf = Some(v);
        p
    }

    /// Trims the buffer to `size` bytes; a buffer that is not longer is kept.
    pub fn shrink(&mut self, size: usize)
        ensures
            final(self)@ == (PacketView {
                data: match old(self)@.data {
                    Some(d) => Some(if d.len() > size { d.subrange(0, size as int) } else { d }),
                    None => None,
                },
                ..old(self)@
            }),
    {
        if let Some(v) = &mut self.buf {
            if v.len() > size {
                v.truncate(size);
            }
        }
    }

    /// Lengthens the buffer by `additional` zero bytes, keeping its bytes; a
    /// packet without a buffer gets one.
    pub fn grow(&mut self, additional: usize)
        requires
            old(self)@.size() + additional <= MAX_PACKET_SIZE,
        ensures
            final(self)@ == (PacketView {
                data: Some(
                    match old(self)@.data {
                        Some(d) => d,
                        None => Seq::empty(),
                    } + Seq::new(additional as nat, |i: int| 0u8),
                ),
                ..old(self)@
            }),
    {
        let mut v = match self.buf.take() {
            Some(v) => v,
            None => Vec::new(),
        };
        let ghost start = v@;
        let mut i: usize = 0;
        while i < additional
            invariant
                i <= additional,
                start.len() + additional <= MAX_PACKET_SIZE,
                v@ == start + Seq::new(i as nat, |j: int| 0u8),
            decreases additional - i,
        {
            v.push(0u8);
            i = i + 1;
            assert(v@ =~= start + Seq::new(i as nat, |j: int| 0u8));
        }
        self.buf = Some(v);
    }

    pub fn stream_index(&self) -> (r: u32)
        ensures
            r == self@.stream_index,
    {
        self.stream_index
    }

    pub fn set_stream_index(&mut self, index: u32)
        ensures
            final(self)@ == (PacketView { stream_index: index, ..old(self)@ }),
    {
        self.stream_index = index;
    }

    pub fn pts(&self) -> (r: Option<i64>)
        ensures
            r == timestamp(self@.pts),
    {
        if self.pts == AV_NOPTS_VALUE {
            None
        } else {
            Some(self.pts)
        }
    }

    /// Sets the presentation timestamp; `None` stores the "no timestamp" value.
    pub fn set_pts(&mut self, pts: Option<i64>)
        ensures
            final(self)@ == (PacketView {
                pts: match pts {
                    Some(t) => t,
                    None => AV_NOPTS_VALUE,
                },
                ..old(self)@
            }),
    {
        self.pts = match pts {
            Some(t) => t,
            None => AV_NOPTS_VALUE,
        };
    }

    pub fn dts(&self) -> (r: Option<i64>)
        ensures
            r == timestamp(self@.dts),
    {
        if self.dts == AV_NOPTS_VALUE {
            None
        } else {
            Some(self.dts)
        }
    }

    /// Sets the decoding timestamp; `None` stores the "no timestamp" value.
    pub fn set_dts(&mut self, dts: Option<i64>)
        ensures
            final(self)@ == (PacketView {
                dts: match dts {
                    Some(t) => t,
                    None => AV_NOPTS_VALUE,
                },
                ..old(self)@
            }),
    {
        self.dts = match dts {
            Some(t) => t,
            None => AV_NOPTS_VALUE,
        };
    }

    pub fn time_base(&self) -> (r: Rational)
        ensures
            r == self@.time_base,
    {
        self.time_base
    }

    pub fn set_time_base(&mut self, time_base: Rational)
        ensures
            final(self)@ == (PacketView { time_base, ..old(self)@ }),
    {
        self.time_base = time_base;
    }

    pub fn duration(&self) -> (r: i64)
        ensures
            r == self@.duration,
    {
        self.duration
    }

    pub fn set_duration(&mut self, duration: i64)
        ensures
            final(self)@ == (PacketView { duration, ..old(self)@ }),
    {
        self.duration = duration;
    }

    /// Byte position in the stream, -1 where unknown.
    pub fn pos(&self) -> (r: i64)
        ensures
            r == self@.pos,
    {
        self.pos
    }

    pub fn set_pos(&mut self, pos: i64)
        ensures
            final(self)@ == (PacketView { pos, ..old(self)@ }),
    {
        self.pos = pos;
    }

    /// Converts the timestamps and duration from `source` (this packet's own
    /// time base where `None`) to `dest`, and makes `dest` the time base.
    pub fn rescale_ts(&mut self, source: Option<Rational>, dest: Rational)
        ensures
            final(self)@ == rescaled_view(
                old(self)@,
                match source {
                    Some(s) => s,
                    None => old(self)@.time_base,
                },
                dest,
            ),
    {
        let from = match source {
            Some(s) => s,
            None => self.time_base,
        };
        if self.pts != AV_NOPTS_VALUE {
            self.pts = rescale(self.pts, from, dest);
        }
        if self.dts != AV_NOPTS_VALUE {
            self.dts = rescale(self.dts, from, dest);
        }
        if self.duration > 0 {
            self.duration = rescale(self.duration, from, dest);
        }
        self.time_base = dest;
    }

    pub fn size(&self) -> (r: usize)
        ensures
            r == self@.size(),
    {
        match &self.buf {
            Some(v) => v.len(),
            None => 0,
        }
    }

    pub fn flags(&self) -> (r: Flags)
        ensures
            r@ == self@.flags & known_flag_bits(),
    {
        Flags::from_bits_truncate(self.flags)
    }

    pub fn set_flags(&mut self, flags: Flags)
        ensures
            final(self)@ == (PacketView { flags: flags@, ..old(self)@ }),
    {
        self.flags = flags.bits();
    }

    pub fn is_key(&self) -> (r: bool)
        ensures
            r == (self@.flags & 0x1 == 0x1),
    {
        let f = self.flags;
        assert((f & 0x1f) & 0x1 == f & 0x1) by (bit_vector);
        self.flags().contains(Flags::key())
    }

    pub fn is_corrupted(&self) -> (r: bool)
        ensures
            r == (self@.flags & 0x2 == 0x2),
    {
        let f = self.flags;
        assert((f & 0x1f) & 0x2 == f & 0x2) by (bit_vector);
        self.flags().contains(Flags::corrupt())
    }

    pub fn is_discard(&self) -> (r: bool)
        ensures
            r == (self@.flags & 0x4 == 0x4),
    {
        let f = self.flags;
        assert((f & 0x1f) & 0x4 == f & 0x4) by (bit_vector);
        self.flags().contains(Flags::discard())
    }

    pub fn is_trusted(&self) -> (r: bool)
        ensures
            r == (self@.flags & 0x8 == 0x8),
    {
        let f = self.flags;
        assert((f & 0x1f) & 0x8 == f & 0x8) by (bit_vector);
        self.flags().contains(Flags::trusted())
    }

    pub fn is_disposable(&self) -> (r: bool)
        ensures
            r == (self@.flags & 0x10 == 0x10),
    {
        let f = self.flags;
        assert((f & 0x1f) & 0x10 == f & 0x10) by (bit_vector);
        self.flags().contains(Flags::disposable())
    }

    /// The buffer's bytes, `None` where no buffer is allocated.
    pub fn data(&self) -> (r: Option<&[u8]>)
        ensures
            match r {
                Some(s) => self@.data == Some(s@),
                None => self@.data is None,
            },
    {
        match &self.buf {
            Some(v) => Some(v.as_slice()),
            None => None,
        }
    }

    /// Overwrites the byte at `index` of the buffer.
    pub fn set_data_byte(&mut self, index: usize, value: u8)
        requires
            index < old(self)@.size(),
        ensures
            final(self)@ == (PacketView {
                data: Some(old(self)@.data.unwrap().update(index as int, value)),
                ..old(self)@
            }),
    {
        match &mut self.buf {
            Some(v) => {
                v.set(index, value);
            },
            None => {},
        }
    }

    /// Whether the packet carries no data; such a packet is never written.
    pub fn is_empty(&self) -> (r: bool)
        ensures
            r == (self@.size() == 0),
    {
        self.size() == 0
    }

    /// The check made before a packet is handed to the engine for writing:
    /// an empty packet fails with `InvalidData`.
    pub fn check_writable(&self) -> (r: Result<(), Error>)
        ensures
            r == (if self@.size() == 0 {
                Err::<(), Error>(Error::InvalidData)
            } else {
                Ok(())
            }),
    {
        if self.is_empty() {
            Err(Error::InvalidData)
        } else {
            Ok(())
        }
    }

    /// The result of a direct write, from the engine's status: 1 means the
    /// data was flushed, 0 that it was written, anything else is an error.
    pub fn write_outcome(code: i32) -> (r: Result<bool, Error>)
        ensures
            code == 1 ==> r == Ok::<bool, Error>(true),
            code == 0 ==> r == Ok::<bool, Error>(false),
            code != 0 && code != 1 ==> r == Err::<bool, Error>(error_of(code)),
    {
        if code == 1 {
            Ok(true)
        } else if code == 0 {
            Ok(false)
        } else {
            Err(Error::from_ffmpeg_error_code(code))
        }
    }
}

impl Clone for Packet {
    /// A deep copy: the clone owns a buffer of its own with the same bytes.
    fn clone(&self) -> (r: Packet)
        ensures
            r@ == self@,
    {
        let buf = match &self.buf {
            Some(v) => {
                let c = v.clone();
                assert(c@ =~= v@);
                Some(c)
            },
            None => None,
        };
        Packet {
            buf,
            stream_index: self.stream_index,
            pts: self.pts,
            dts: self.dts,
            duration: self.duration,
            pos: self.pos,
            time_base: self.time_base,
            flags: self.flags,
        }
    }
}

proof fn lemma_rescale_bound(m: int, b: int)
    requires
        0 <= m <= i64::MAX,
        0 <= b <= 0x4000_0000_0000_0000,
    ensures
        m * b <= 0x2000_0000_0000_0000_0000_0000_0000_0000,
{
    assert(m * b <= 0x2000_0000_0000_0000_0000_0000_0000_0000) by (nonlinear_arith)
        requires
            0 <= m <= i64::MAX,
            0 <= b <= 0x4000_0000_0000_0000,
    ;
}

/// `a` in time base `from`, rescaled to time base `to`.
pub fn rescale(a: i64, from: Rational, to: Rational) -> (r: i64)
    ensures
        r == rescale_q(a as int, from@, to@),
{
    let from_n = from.num() as i128;
    let fd = from.den() as i128;
    let tn = to.num() as i128;
    let td = to.den() as i128;
    proof {
        assert(-0x4000_0000_0000_0000 <= from_n * td <= 0x4000_0000_0000_0000) by (nonlinear_arith)
            requires
                -0x8000_0000 <= from_n <= 0x7fff_ffff,
                -0x8000_0000 <= td <= 0x7fff_ffff,
        ;
        assert(-0x4000_0000_0000_0000 <= tn * fd <= 0x4000_0000_0000_0000) by (nonlinear_arith)
            requires
                -0x8000_0000 <= tn <= 0x7fff_ffff,
                -0x8000_0000 <= fd <= 0x7fff_ffff,
        ;
    }
    let b: i128 = from_n * td;
    let c: i128 = tn * fd;
    if c <= 0 || b < 0 {
        return i64::MIN;
    }
    let m: u128 = if a < 0 {
        if a == i64::MIN {
            i64::MAX as u128
        } else {
            (-a) as u128
        }
    } else {
        a as u128
    };
    let ub = b as u128;
    let uc = c as u128;
    proof {
        lemma_rescale_bound(m as int, ub as int);
    }
    let q = (m * ub + uc / 2) / uc;
    if q > i64::MAX as u128 {
        i64::MIN
    } else if a < 0 {
        -(q as i64)
    } else {
        q as i64
    }
}

proof fn lemma_exact_quotient(k: int, c: int)
    requires
        k >= 0,
        c > 0,
    ensures
        (k * c + c / 2) / c == k,
{
    assert(0 <= c / 2 < c);
    lemma_fundamental_div_mod_converse(k * c + c / 2, c, k, c / 2);
}

proof fn lemma_rescale_exact(a: int, x: int, b: int, c: int)
    requires
        b > 0,
        c > 0,
        -(i64::MAX as int) <= a <= i64::MAX,
        -(i64::MAX as int) <= x <= i64::MAX,
        a * b == x * c,
    ensures
        rescale_rounded(a, b, c) == x,
{
    if a < 0 {
        assert(x < 0) by (nonlinear_arith)
            requires
                a < 0,
                b > 0,
                c > 0,
                a * b == x * c,
        ;
        assert((-a) * b == (-x) * c) by (nonlinear_arith)
            requires
                a * b == x * c,
        ;
        lemma_exact_quotient(-x, c);
    } else {
        assert(x >= 0) by (nonlinear_arith)
            requires
                a >= 0,
                b > 0,
                c > 0,
                a * b == x * c,
        ;
        lemma_exact_quotient(x, c);
    }
}

/// Rescaling a timestamp from time base `a` to `b` and back gives it back,
/// where its duration is exactly representable in `b`: `ts * a` is a whole
/// multiple `x` of `b` (and neither `ts` nor `x` is the "no timestamp" value).
pub proof fn lemma_rescale_round_trip(ts: i64, a: Rational, b: Rational)
    requires
        a@.0 > 0,
        a@.1 > 0,
        b@.0 > 0,
        b@.1 > 0,
        ts != AV_NOPTS_VALUE,
        (ts * a@.0 * b@.1) % (b@.0 * a@.1) == 0,
        i64::MIN < (ts * a@.0 * b@.1) / (b@.0 * a@.1) <= i64::MAX,
    ensures
        rescale_q(ts as int, a@, b@) == (ts * a@.0 * b@.1) / (b@.0 * a@.1),
        rescale_q(rescale_q(ts as int, a@, b@), b@, a@) == ts,
{
    let p = a@.0 * b@.1;
    let q = b@.0 * a@.1;
    assert(p > 0 && q > 0) by (nonlinear_arith)
        requires
            a@.0 > 0,
            a@.1 > 0,
            b@.0 > 0,
            b@.1 > 0,
            p == a@.0 * b@.1,
            q == b@.0 * a@.1,
    ;
    let x = (ts * a@.0 * b@.1) / q;
    vstd::arithmetic::div_mod::lemma_fundamental_div_mod(ts * a@.0 * b@.1, q);
    assert(ts * p == x * q) by (nonlinear_arith)
        requires
            ts * a@.0 * b@.1 == q * x + 0,
            p == a@.0 * b@.1,
    ;
    lemma_rescale_exact(ts as int, x, p, q);
    assert(x * q == ts * p);
    lemma_rescale_exact(x, ts as int, q, p);
}

} // verus!
