use vstd::prelude::*;
use std::rc::Rc;

use crate::codec::{CodecFields, CodecFieldsView};
use crate::error::{check_status, error_of, Error, AVERROR_EOF};
use crate::packet::{rescaled_view, Packet, PacketView, AV_NOPTS_VALUE};
use crate::rational::{same_value, Rational};
use crate::stream::{Stream, StreamIter, StreamIterMut, StreamMut};

verus! {

/// Whether a container reads (demuxes) or writes (muxes).
#[derive(Clone, Copy, Debug, PartialEq, Eq, Structural)]
pub enum Mode {
    Input,
    Output,
}

/// The teardown handle of a container. Every aliased parameter set holds a
/// strong reference to it, so the container's storage is released only
/// after the last of them.
pub trait Destructor: Sized {
    fn mode() -> Mode;

    fn wrap() -> Self;
}

pub struct InputDestructor;

impl Destructor for InputDestructor {
    fn mode() -> Mode {
        Mode::Input
    }

    fn wrap() -> InputDestructor {
        InputDestructor
    }
}

pub struct OutputDestructor;

impl Destructor for OutputDestructor {
    fn mode() -> Mode {
        Mode::Output
    }

    fn wrap() -> OutputDestructor {
        OutputDestructor
    }
}

/// Lifecycle of a container: output containers go from `Opened` through
/// `HeaderWritten` to `Closed`; input containers stay `Opened`.
#[derive(Clone, Copy, Debug, PartialEq, Eq, Structural)]
pub enum State {
    Opened,
    HeaderWritten,
    Closed,
}

/// What a container knows of one of its streams.
pub struct StreamInfo {
    pub time_base: Rational,
    pub start_time: i64,
    pub duration: i64,
    pub nb_frames: i64,
    pub r_frame_rate: Rational,
    pub avg_frame_rate: Rational,
    pub parameters: CodecFields,
}

pub struct StreamView {
    pub time_base: Rational,
    pub start_time: i64,
    pub duration: i64,
    pub nb_frames: i64,
    pub r_frame_rate: Rational,
    pub avg_frame_rate: Rational,
    pub parameters: CodecFieldsView,
}

impl View for StreamInfo {
    type V = StreamView;

    open spec fn view(&self) -> StreamView {
        StreamView {
            time_base: self.time_base,
            start_time: self.start_time,
            duration: self.duration,
            nb_frames: self.nb_frames,
            r_frame_rate: self.r_frame_rate,
            avg_frame_rate: self.avg_frame_rate,
            parameters: self.parameters@,
        }
    }
}

/// A stream slot as the engine creates it for an output container, with the
/// given codec fields: time base 1/90000, no start time or duration, no
/// frames and unset frame rates.
pub open spec fn new_slot(parameters: CodecFieldsView) -> StreamView {
    StreamView {
        time_base: Rational::spec_new(1, 90000),
        start_time: AV_NOPTS_VALUE,
        duration: AV_NOPTS_VALUE,
        nb_frames: 0,
        r_frame_rate: Rational::spec_new(0, 0),
        avg_frame_rate: Rational::spec_new(0, 0),
        parameters,
    }
}

pub struct ContainerView {
    pub streams: Seq<StreamView>,
    pub state: State,
    pub url: Option<Seq<char>>,
    pub duration: i64,
    pub bit_rate: i64,
    pub nb_chapters: u32,
}

/// An engine operation that the output state machine asks for. The caller
/// performs it and reports the engine's status with `Container::record`.
#[derive(Clone, Copy, Debug, PartialEq, Eq, Structural)]
pub enum EngineOp {
    WriteHeader,
    WriteTrailer,
    WritePacket,
}

/// The next step of muxing a packet: write the header first (the packet is
/// handed back to be muxed again afterwards), or write the packet, which is
/// now in its stream's time base.
pub enum MuxStep {
    WriteHeader(Packet),
    WritePacket(Packet),
}

/// The state an output container is in after `op` finished with `code`.
pub open spec fn state_after(state: State, op: EngineOp, code: i32) -> State {
    if code < 0 {
        state
    } else {
        match op {
            EngineOp::WriteHeader => State::HeaderWritten,
            EngineOp::WriteTrailer => State::Closed,
            EngineOp::WritePacket => state,
        }
    }
}

/// The engine operation that `write_trailer` needs next; `None` once the
/// container is closed.
pub open spec fn trailer_step(state: State) -> Option<EngineOp> {
    match state {
        State::Opened => Some(EngineOp::WriteHeader),
        State::HeaderWritten => Some(EngineOp::WriteTrailer),
        State::Closed => None,
    }
}

/// A packet as it is written to a stream with time base `dest`: rescaled
/// from its own time base where the two differ.
pub open spec fn prepared_packet(p: PacketView, dest: Rational) -> PacketView {
    if same_value(p.time_base@, dest@) {
        p
    } else {
        rescaled_view(p, p.time_base, dest)
    }
}

pub open spec fn count_u32(n: nat) -> u32 {
    if n <= u32::MAX {
        n as u32
    } else {
        u32::MAX
    }
}

/// A media container: its streams, its lifecycle state and its metadata.
/// The engine resource itself is held by the caller, which performs the
/// engine operations this type decides on.
pub struct Container<D> {
    streams: Vec<StreamInfo>,
    dtor: Rc<D>,
    state: State,
    url: Option<String>,
    duration: i64,
    bit_rate: i64,
    nb_chapters: u32,
}

pub type InputContainer = Container<InputDestructor>;

pub type OutputContainer = Container<OutputDestructor>;

impl<D> View for Container<D> {
    type V = ContainerView;

    closed spec fn view(&self) -> ContainerView {
        ContainerView {
            streams: self.streams@.map_values(|s: StreamInfo| s@),
            state: self.state,
            url: match self.url {
                Some(u) => Some(u@),
                None => None,
            },
            duration: self.duration,
            bit_rate: self.bit_rate,
            nb_chapters: self.nb_chapters,
        }
    }
}

impl<D> Container<D> {
    /// A container that has just been opened or created, with the streams
    /// and metadata the engine reported.
    pub fn wrap(
        streams: Vec<StreamInfo>,
        url: Option<String>,
        duration: i64,
        bit_rate: i64,
        nb_chapters: u32,
    ) -> (r: Container<D>) where D: Destructor
        ensures
            r@ == (ContainerView {
                streams: streams@.map_values(|s: StreamInfo| s@),
                state: State::Opened,
                url: match url {
                    Some(u) => Some(u@),
                    None => None,
                },
                duration,
                bit_rate,
                nb_chapters,
            }),
    {
        Container { streams, dtor: Rc::new(D::wrap()), state: State::Opened, url, duration, bit_rate, nb_chapters }
    }

    pub(crate) fn destructor(&self) -> Rc<D> {
        Rc::clone(&self.dtor)
    }

    pub fn state(&self) -> (r: State)
        ensures
            r == self@.state,
    {
        self.state
    }

    /// The number of streams (saturating at `u32::MAX`, a count no engine
    /// reaches).
    pub fn nb_streams(&self) -> (r: u32)
        ensures
            r == count_u32(self@.streams.len()),
    {
        if self.streams.len() > u32::MAX as usize {
            u32::MAX
        } else {
            self.streams.len() as u32
        }
    }

    pub fn streams_len(&self) -> (r: usize)
        ensures
            r == self@.streams.len(),
    {
        self.streams.len()
    }

    /// The record of stream `index`.
    pub fn stream_info(&self, index: u32) -> (r: &StreamInfo)
        requires
            index < self@.streams.len(),
        ensures
            r@ == self@.streams[index as int],
    {
        &self.streams[index as usize]
    }

    /// A view of stream `index`, if there is one.
    pub fn stream(&self, index: u32) -> (r: Option<Stream<'_, D>>)
        ensures
            match r {
                Some(s) => index < self@.streams.len() && s.slot() == index && s.container() == *self,
                None => index >= self@.streams.len(),
            },
    {
        if (index as usize) < self.streams.len() {
            Some(Stream::wrap(self, index))
        } else {
            None
        }
    }

    pub fn streams(&self) -> (r: StreamIter<'_, D>)
        ensures
            r.container() == *self,
            r.position() == 0,
    {
        StreamIter::new(self)
    }

    /// A handle for changing stream `index`, if there is one.
    pub fn stream_mut(&self, index: u32) -> (r: Option<StreamMut>)
        ensures
            match r {
                Some(s) => index < self@.streams.len() && s@ == index,
                None => index >= self@.streams.len(),
            },
    {
        if (index as usize) < self.streams.len() {
            Some(StreamMut::wrap(index))
        } else {
            None
        }
    }

    pub fn streams_mut(&self) -> (r: StreamIterMut)
        ensures
            r@ == (0u32, count_u32(self@.streams.len())),
    {
        StreamIterMut::new(self)
    }

    pub fn nb_chapters(&self) -> (r: u32)
        ensures
            r == self@.nb_chapters,
    {
        self.nb_chapters
    }

    pub fn url(&self) -> (r: Option<&str>)
        ensures
            match r {
                Some(u) => self@.url == Some(u@),
                None => self@.url is None,
            },
    {
        match &self.url {
            Some(u) => Some(u.as_str()),
            None => None,
        }
    }

    pub fn duration(&self) -> (r: i64)
        ensures
            r == self@.duration,
    {
        self.duration
    }

    pub fn bit_rate(&self) -> (r: i64)
        ensures
            r == self@.bit_rate,
    {
        self.bit_rate
    }

    /// Applies a change to the record of stream `index`.
    pub(crate) fn update_stream(&mut self, index: u32, info: StreamInfo)
        requires
            index < old(self)@.streams.len(),
        ensures
            final(self)@ == (ContainerView {
                streams: old(self)@.streams.update(index as int, info@),
                ..old(self)@
            }),
    {
        let ghost before = self.streams@;
        self.streams.set(index as usize, info);
        proof {
            assert(self.streams@.map_values(|s: StreamInfo| s@) =~= before.map_values(
                |s: StreamInfo| s@,
            ).update(index as int, info@));
        }
    }
}

impl Container<OutputDestructor> {
    /// Adds a stream whose codec fields are copied from `source`, and returns
    /// a handle for changing it. Streams are added before the header.
    pub fn add_stream_like<E>(&mut self, source: &Stream<'_, E>) -> (r: StreamMut)
        requires
            old(self)@.state == State::Opened,
            old(self)@.streams.len() < u32::MAX,
        ensures
            final(self)@ == (ContainerView {
                streams: old(self)@.streams.push(new_slot(source.info().parameters)),
                ..old(self)@
            }),
            r@ == old(self)@.streams.len(),
    {
        let parameters = source.codec_fields();
        let info = StreamInfo {
            time_base: Rational::new(1, 90000),
            start_time: AV_NOPTS_VALUE,
            duration: AV_NOPTS_VALUE,
            nb_frames: 0,
            r_frame_rate: Rational::new(0, 0),
            avg_frame_rate: Rational::new(0, 0),
            parameters,
        };
        let index = self.streams.len() as u32;
        let ghost before = self.streams@;
        self.streams.push(info);
        proof {
            assert(self.streams@.map_values(|s: StreamInfo| s@) =~= before.map_values(
                |s: StreamInfo| s@,
            ).push(info@));
        }
        StreamMut::wrap(index)
    }

    /// The engine operation `write_header` needs: the header write in state
    /// `Opened`, none once the header is written (a success without effect).
    pub fn write_header(&self) -> (r: Option<EngineOp>)
        ensures
            r == (if self@.state == State::Opened {
                Some(EngineOp::WriteHeader)
            } else {
                None
            }),
    {
        if self.state == State::Opened {
            Some(EngineOp::WriteHeader)
        } else {
            None
        }
    }

    /// The engine operation `write_trailer` needs next: from `Opened` the
    /// header first, from `HeaderWritten` the trailer, from `Closed` none (a
    /// success without effect, never a second finalization).
    pub fn write_trailer(&self) -> (r: Option<EngineOp>)
        ensures
            r == trailer_step(self@.state),
    {
        match self.state {
            State::Opened => Some(EngineOp::WriteHeader),
            State::HeaderWritten => Some(EngineOp::WriteTrailer),
            State::Closed => None,
        }
    }

    /// Records the engine's status for an operation this container asked
    /// for: a negative status is the error it stands for and changes nothing;
    /// otherwise the header moves the container to `HeaderWritten` and the
    /// trailer to `Closed`.
    pub fn record(&mut self, op: EngineOp, code: i32) -> (r: Result<(), Error>)
        requires
            op == EngineOp::WriteHeader ==> old(self)@.state == State::Opened,
            op != EngineOp::WriteHeader ==> old(self)@.state == State::HeaderWritten,
        ensures
            r == (if code < 0 {
                Err(error_of(code))
            } else {
                Ok(())
            }),
            final(self)@ == (ContainerView {
                state: state_after(old(self)@.state, op, code),
                ..old(self)@
            }),
    {
        let r = check_status(code);
        if r.is_ok() {
            match op {
                EngineOp::WriteHeader => {
                    self.state = State::HeaderWritten;
                },
                EngineOp::WriteTrailer => {
                    self.state = State::Closed;
                },
                EngineOp::WritePacket => {},
            }
        }
        r
    }

    /// The next step of muxing `packet`. A packet without a time base fails
    /// with `MissingTimeBase`, any packet on a closed container with
    /// `WriteAfterClose`, an empty packet with `InvalidData`; none of these
    /// reaches the engine. In state `Opened` the header is written first.
    /// Then the packet's stream is looked up (`StreamNotFound` if it has
    /// none) and the packet is rescaled into the stream's time base.
    pub fn mux(&self, packet: Packet) -> (r: Result<MuxStep, Error>)
        ensures
            packet@.time_base@.0 == 0 ==> r == Err::<MuxStep, Error>(Error::MissingTimeBase),
            packet@.time_base@.0 != 0 && self@.state == State::Closed ==> r == Err::<MuxStep, Error>(
                Error::WriteAfterClose,
            ),
            packet@.time_base@.0 != 0 && self@.state != State::Closed && packet@.size() == 0 ==> r
                == Err::<MuxStep, Error>(Error::InvalidData),
            packet@.time_base@.0 != 0 && self@.state == State::Opened && packet@.size() != 0 ==> r
                is Ok && r->Ok_0 is WriteHeader && r->Ok_0->WriteHeader_0@ == packet@,
            packet@.time_base@.0 != 0 && self@.state == State::HeaderWritten && packet@.size() != 0
                ==> if packet@.stream_index < self@.streams.len() {
                r is Ok && r->Ok_0 is WritePacket && r->Ok_0->WritePacket_0@ == prepared_packet(
                    packet@,
                    self@.streams[packet@.stream_index as int].time_base,
                )
            } else {
                r == Err::<MuxStep, Error>(Error::StreamNotFound)
            },
    {
        let mut packet = packet;
        if packet.time_base().is_none() {
            return Err(Error::MissingTimeBase);
        }
        if self.state == State::Closed {
            return Err(Error::WriteAfterClose);
        }
        if packet.is_empty() {
            return Err(Error::InvalidData);
        }
        if self.state == State::Opened {
            return Ok(MuxStep::WriteHeader(packet));
        }
        let index = packet.stream_index();
        if index as usize >= self.streams.len() {
            return Err(Error::StreamNotFound);
        }
        let source = packet.time_base();
        let dest = self.streams[index as usize].time_base;
        if !(source == dest) {
            packet.rescale_ts(Some(source), dest);
        }
        Ok(MuxStep::WritePacket(packet))
    }

    /// Whether dropping the container must first write the trailer: only a
    /// container whose header is written and whose trailer is not.
    pub fn trailer_on_drop(&self) -> (r: bool)
        ensures
            r == (self@.state == State::HeaderWritten),
    {
        self.state == State::HeaderWritten
    }
}

impl Container<InputDestructor> {
    /// Starts a pass over the packets of this container.
    pub fn demux(&mut self) -> (r: PacketIter)
        ensures
            !r.is_done(),
            *final(self) == *old(self),
    {
        PacketIter::new()
    }
}

/// A forward-only pass over the packets of an input container. Each step
/// takes the outcome of one engine read; the pass ends at the end of the
/// input, and a read error is handed to the caller as an item of its own.
pub struct PacketIter {
    done: bool,
}

impl PacketIter {
    pub closed spec fn is_done(&self) -> bool {
        self.done
    }

    pub fn new() -> (r: PacketIter)
        ensures
            !r.is_done(),
    {
        PacketIter { done: false }
    }

    /// The item for one engine read: the packet with its stream, the
    /// packet's time base set to the stream's; `None` at the end of the
    /// input, and for ever after; the error of a failed read.
    pub fn next<'a>(
        &mut self,
        container: &'a Container<InputDestructor>,
        read: Result<Packet, i32>,
    ) -> (r: Option<Result<(Stream<'a, InputDestructor>, Packet), Error>>)
        ensures
            old(self).is_done() ==> r is None && final(self).is_done(),
            !old(self).is_done() ==> match read {
                Err(code) => if code == AVERROR_EOF {
                    r is None && final(self).is_done()
                } else {
                    r == Some(Err::<(Stream<'a, InputDestructor>, Packet), Error>(error_of(code)))
                        && !final(self).is_done()
                },
                Ok(p) => !final(self).is_done() && if p@.stream_index < container@.streams.len() {
                    r is Some && r->Some_0 is Ok && r->Some_0->Ok_0.0.container() == *container
                        && r->Some_0->Ok_0.0.slot() == p@.stream_index && r->Some_0->Ok_0.1@ == (
                    PacketView {
                        time_base: container@.streams[p@.stream_index as int].time_base,
                        ..p@
                    })
                } else {
                    r == Some(
                        Err::<(Stream<'a, InputDestructor>, Packet), Error>(Error::StreamNotFound),
                    )
                },
            },
    {
        if self.done {
            return None;
        }
        match read {
            Err(code) => {
                if code == AVERROR_EOF {
                    self.done = true;
                    None
                } else {
                    Some(Err(Error::from_ffmpeg_error_code(code)))
                }
            },
            Ok(packet) => {
                let mut packet = packet;
                match container.stream(packet.stream_index()) {
                    Some(stream) => {
                        packet.set_time_base(stream.time_base());
                        Some(Ok((stream, packet)))
                    },
                    None => Some(Err(Error::StreamNotFound)),
                }
            },
        }
    }
}

/// Once the trailer is written the container is closed, and a further
/// `write_trailer` asks for no engine operation and leaves the state alone.
pub proof fn lemma_trailer_written_once(state: State, code: i32)
    requires
        state != State::Closed,
        code >= 0,
    ensures
        trailer_step(state) == Some(EngineOp::WriteHeader) ==> state_after(state, EngineOp::WriteHeader, code) == State::HeaderWritten,
        trailer_step(state_after(State::HeaderWritten, EngineOp::WriteTrailer, code)) is None,
        state_after(State::Closed, EngineOp::WritePacket, code) == State::Closed,
{
}

} // verus!
