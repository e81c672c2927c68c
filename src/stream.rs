use vstd::prelude::*;

use crate::codec::{CodecFields, CodecParameters, ParametersView};
use crate::container::{count_u32, Container, ContainerView, StreamInfo, StreamView};
use crate::rational::Rational;

verus! {

/// A read-only view of one stream of a container. It owns nothing: every
/// accessor reads the container's current record of the stream.
pub struct Stream<'a, D> {
    container: &'a Container<D>,
    index: u32,
}

impl<'a, D> Stream<'a, D> {
    #[verifier::type_invariant]
    spec fn inv(&self) -> bool {
        (self.index as int) < self.container@.streams.len()
    }

    pub closed spec fn container(&self) -> Container<D> {
        *self.container
    }

    pub closed spec fn slot(&self) -> nat {
        self.index as nat
    }

    /// The container's record of this stream.
    pub open spec fn info(&self) -> StreamView {
        self.container()@.streams[self.slot() as int]
    }

    pub fn wrap(container: &'a Container<D>, index: u32) -> (r: Stream<'a, D>)
        requires
            index < container@.streams.len(),
        ensures
            r.container() == *container,
            r.slot() == index,
    {
        Stream { container, index }
    }

    /// The stream's slot, which is its index in the container.
    pub fn index(&self) -> (r: u32)
        ensures
            r == self.slot(),
    {
        self.index
    }

    /// The stream's parameters, aliasing the container's slot: they keep the
    /// container's storage alive and never free it themselves.
    pub fn parameters(&self) -> (r: CodecParameters<D>)
        ensures
            r@ == (ParametersView { fields: self.info().parameters, aliased: true }),
    {
        proof {
            use_type_invariant(self);
        }
        let fields = self.container.stream_info(self.index).parameters.copy();
        CodecParameters::wrap(fields, Some(self.container.destructor()))
    }

    /// An exclusively owned copy of the stream's codec fields.
    pub fn codec_fields(&self) -> (r: CodecFields)
        ensures
            r@ == self.info().parameters,
    {
        proof {
            use_type_invariant(self);
        }
        self.container.stream_info(self.index).parameters.copy()
    }

    pub fn time_base(&self) -> (r: Rational)
        ensures
            r == self.info().time_base,
    {
        proof {
            use_type_invariant(self);
        }
        self.container.stream_info(self.index).time_base
    }

    pub fn start_time(&self) -> (r: i64)
        ensures
            r == self.info().start_time,
    {
        proof {
            use_type_invariant(self);
        }
        self.container.stream_info(self.index).start_time
    }

    pub fn duration(&self) -> (r: i64)
        ensures
            r == self.info().duration,
    {
        proof {
            use_type_invariant(self);
        }
        self.container.stream_info(self.index).duration
    }

    pub fn nb_frames(&self) -> (r: i64)
        ensures
            r == self.info().nb_frames,
    {
        proof {
            use_type_invariant(self);
        }
        self.container.stream_info(self.index).nb_frames
    }

    /// The declared frame rate.
    pub fn r_frame_rate(&self) -> (r: Rational)
        ensures
            r == self.info().r_frame_rate,
    {
        proof {
            use_type_invariant(self);
        }
        self.container.stream_info(self.index).r_frame_rate
    }

    pub fn avg_frame_rate(&self) -> (r: Rational)
        ensures
            r == self.info().avg_frame_rate,
    {
        proof {
            use_type_invariant(self);
        }
        self.container.stream_info(self.index).avg_frame_rate
    }
}

/// A walk over the streams of a container, in index order.
pub struct StreamIter<'a, D> {
    container: &'a Container<D>,
    current: u32,
}

impl<'a, D> StreamIter<'a, D> {
    #[verifier::type_invariant]
    spec fn inv(&self) -> bool {
        (self.current as int) <= self.container@.streams.len()
    }

    pub closed spec fn container(&self) -> Container<D> {
        *self.container
    }

    pub closed spec fn position(&self) -> nat {
        self.current as nat
    }

    pub fn new(container: &'a Container<D>) -> (r: StreamIter<'a, D>)
        ensures
            r.container() == *container,
            r.position() == 0,
    {
        StreamIter { container, current: 0 }
    }

    /// The next stream, if any is left.
    pub fn next(&mut self) -> (r: Option<Stream<'a, D>>)
        ensures
            final(self).container() == old(self).container(),
            old(self).position() < count_u32(old(self).container()@.streams.len()) ==> r is Some
                && r->Some_0.slot() == old(self).position() && r->Some_0.container()
                == old(self).container() && final(self).position() == old(self).position() + 1,
            old(self).position() >= count_u32(old(self).container()@.streams.len()) ==> r is None
                && final(self).position() == old(self).position(),
    {
        proof {
            use_type_invariant(&*self);
        }
        if self.current < self.container.nb_streams() {
            let s = Stream::wrap(self.container, self.current);
            self.current = self.current + 1;
            Some(s)
        } else {
            None
        }
    }

    /// How many streams are left.
    pub fn remaining(&self) -> (r: usize)
        ensures
            r == self.container()@.streams.len() - self.position(),
    {
        proof {
            use_type_invariant(self);
        }
        self.container.streams_len() - self.current as usize
    }

    /// The stream the engine chose as best of a kind, from the index it
    /// returned: `None` where it found none (a negative index) or the index
    /// names no stream.
    pub fn chosen(self, index: i32) -> (r: Option<Stream<'a, D>>)
        ensures
            match r {
                Some(s) => 0 <= index < self.container()@.streams.len() && s.slot() == index
                    && s.container() == self.container(),
                None => index < 0 || index >= self.container()@.streams.len(),
            },
    {
        if index >= 0 && (index as usize) < self.container.streams_len() {
            Some(Stream::wrap(self.container, index as u32))
        } else {
            None
        }
    }
}

/// A handle for changing one stream of a container. It holds the index only;
/// each change takes the container at the point of use.
pub struct StreamMut {
    index: u32,
}

impl View for StreamMut {
    type V = u32;

    closed spec fn view(&self) -> u32 {
        self.index
    }
}

pub open spec fn with_slot(c: ContainerView, index: u32, slot: StreamView) -> ContainerView {
    ContainerView { streams: c.streams.update(index as int, slot), ..c }
}

impl StreamMut {
    pub fn wrap(index: u32) -> (r: StreamMut)
        ensures
            r@ == index,
    {
        StreamMut { index }
    }

    pub fn index(&self) -> (r: u32)
        ensures
            r == self@,
    {
        self.index
    }

    /// Copies the fields of `parameters` into this stream's slot; the source
    /// is not taken over.
    pub fn set_parameters<D, E>(&self, container: &mut Container<D>, parameters: &CodecParameters<E>)
        requires
            self@ < old(container)@.streams.len(),
        ensures
            final(container)@ == with_slot(
                old(container)@,
                self@,
                StreamView { parameters: parameters@.fields, ..old(container)@.streams[self@ as int] },
            ),
    {
        let info = container.stream_info(self.index);
        let next = StreamInfo {
            time_base: info.time_base,
            start_time: info.start_time,
            duration: info.duration,
            nb_frames: info.nb_frames,
            r_frame_rate: info.r_frame_rate,
            avg_frame_rate: info.avg_frame_rate,
            parameters: parameters.fields().copy(),
        };
        container.update_stream(self.index, next);
    }

    pub fn set_time_base<D>(&self, container: &mut Container<D>, time_base: Rational)
        requires
            self@ < old(container)@.streams.len(),
        ensures
            final(container)@ == with_slot(
                old(container)@,
                self@,
                StreamView { time_base, ..old(container)@.streams[self@ as int] },
            ),
    {
        let info = container.stream_info(self.index);
        let next = StreamInfo {
            time_base,
            start_time: info.start_time,
            duration: info.duration,
            nb_frames: info.nb_frames,
            r_frame_rate: info.r_frame_rate,
            avg_frame_rate: info.avg_frame_rate,
            parameters: info.parameters.copy(),
        };
        container.update_stream(self.index, next);
    }

    /// Sets the declared frame rate.
    pub fn set_r_frame_rate<D>(&self, container: &mut Container<D>, rate: Rational)
        requires
            self@ < old(container)@.streams.len(),
        ensures
            final(container)@ == with_slot(
                old(container)@,
                self@,
                StreamView { r_frame_rate: rate, ..old(container)@.streams[self@ as int] },
            ),
    {
        let info = container.stream_info(self.index);
        let next = StreamInfo {
            time_base: info.time_base,
            start_time: info.start_time,
            duration: info.duration,
            nb_frames: info.nb_frames,
            r_frame_rate: rate,
            avg_frame_rate: info.avg_frame_rate,
            parameters: info.parameters.copy(),
        };
        container.update_stream(self.index, next);
    }

    pub fn set_avg_frame_rate<D>(&self, container: &mut Container<D>, rate: Rational)
        requires
            self@ < old(container)@.streams.len(),
        ensures
            final(container)@ == with_slot(
                old(container)@,
                self@,
                StreamView { avg_frame_rate: rate, ..old(container)@.streams[self@ as int] },
            ),
    {
        let info = container.stream_info(self.index);
        let next = StreamInfo {
            time_base: info.time_base,
            start_time: info.start_time,
            duration: info.duration,
            nb_frames: info.nb_frames,
            r_frame_rate: info.r_frame_rate,
            avg_frame_rate: rate,
            parameters: info.parameters.copy(),
        };
        container.update_stream(self.index, next);
    }
}

/// A walk over the stream indices of a container, yielding a handle for
/// each; the container is taken at the point of each change.
pub struct StreamIterMut {
    current: u32,
    count: u32,
}

impl View for StreamIterMut {
    type V = (u32, u32);

    closed spec fn view(&self) -> (u32, u32) {
        (self.current, self.count)
    }
}

impl StreamIterMut {
    pub fn new<D>(container: &Container<D>) -> (r: StreamIterMut)
        ensures
            r@ == (0u32, count_u32(container@.streams.len())),
    {
        StreamIterMut { current: 0, count: container.nb_streams() }
    }

    pub fn next(&mut self) -> (r: Option<StreamMut>)
        ensures
            old(self)@.0 < old(self)@.1 ==> r is Some && r->Some_0@ == old(self)@.0 && final(self)@
                == ((old(self)@.0 + 1) as u32, old(self)@.1),
            old(self)@.0 >= old(self)@.1 ==> r is None && final(self)@ == old(self)@,
    {
        if self.current < self.count {
            let s = StreamMut::wrap(self.current);
            self.current = self.current + 1;
            Some(s)
        } else {
            None
        }
    }

    pub fn remaining(&self) -> (r: usize)
        ensures
            self@.0 <= self@.1 ==> r == self@.1 - self@.0,
            self@.0 > self@.1 ==> r == 0,
    {
        if self.current <= self.count {
            (self.count - self.current) as usize
        } else {
            0
        }
    }
}

} // verus!
