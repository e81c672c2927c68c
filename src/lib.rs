use vstd::prelude::*;

pub mod codec;
pub mod container;
pub mod error;
pub mod packet;
pub mod rational;
pub mod stream;

pub use codec::{CodecFields, CodecId, CodecParameters};
pub use container::{
    Container, Destructor, EngineOp, InputContainer, InputDestructor, MuxStep, OutputContainer, OutputDestructor,
    Mode, PacketIter, State, StreamInfo,
};
pub use error::Error;
pub use packet::{Flags, Packet};
pub use rational::{nearer, Rational};
pub use stream::{Stream, StreamIter, StreamIterMut, StreamMut};

verus! {

/// The kind of media a stream or codec carries.
#[derive(Clone, Copy, Debug, PartialEq, Eq, Structural)]
pub enum MediaType {
    Video,
    Audio,
    Data,
    Subtitle,
    Attachment,
    Nb,
    Unknown,
}

} // verus!
