use vstd::prelude::*;

verus! {
// Error codes of the media engine. Most are the negated little-endian
// four-byte tag shown beside them.
/// Engine code for "Bitstream filter not found" (tag 0xF8 'B' 'S' 'F').
pub const AVERROR_BSF_NOT_FOUND: i32 = -0x465342f8;
/// Engine code for "Internal bug, should not have happened" (tag 'B' 'U' 'G' '!').
pub const AVERROR_BUG: i32 = -0x21475542;
/// Engine code for "Internal bug, should not have happened (2)" (tag 'B' 'U' 'G' ' ').
pub const AVERROR_BUG2: i32 = -0x20475542;
/// Engine code for "Buffer too small" (tag 'B' 'U' 'F' 'S').
pub const AVERROR_BUFFER_TOO_SMALL: i32 = -0x53465542;
/// Engine code for "Decoder not found" (tag 0xF8 'D' 'E' 'C').
pub const AVERROR_DECODER_NOT_FOUND: i32 = -0x434544f8;
/// Engine code for "Demuxer not found" (tag 0xF8 'D' 'E' 'M').
pub const AVERROR_DEMUXER_NOT_FOUND: i32 = -0x4d4544f8;
/// Engine code for "Encoder not found" (tag 0xF8 'E' 'N' 'C').
pub const AVERROR_ENCODER_NOT_FOUND: i32 = -0x434e45f8;
/// Engine code for "End of file" (tag 'E' 'O' 'F' ' ').
pub const AVERROR_EOF: i32 = -0x20464f45;
/// Engine code for "Immediate exit requested" (tag 'E' 'X' 'I' 'T').
pub const AVERROR_EXIT: i32 = -0x54495845;
/// Engine code for "Generic error in an external library" (tag 'E' 'X' 'T' ' ').
pub const AVERROR_EXTERNAL: i32 = -0x20545845;
/// Engine code for "Filter not found" (tag 0xF8 'F' 'I' 'L').
pub const AVERROR_FILTER_NOT_FOUND: i32 = -0x4c4946f8;
/// Engine code for "Input changed".
pub const AVERROR_INPUT_CHANGED: i32 = -0x636e6701;
/// Engine code for "Invalid data found when processing input" (tag 'I' 'N' 'D' 'A').
pub const AVERROR_INVALIDDATA: i32 = -0x41444e49;
/// Engine code for "Muxer not found" (tag 0xF8 'M' 'U' 'X').
pub const AVERROR_MUXER_NOT_FOUND: i32 = -0x58554df8;
/// Engine code for "Option not found" (tag 0xF8 'O' 'P' 'T').
pub const AVERROR_OPTION_NOT_FOUND: i32 = -0x54504ff8;
/// Engine code for "Output changed".
pub const AVERROR_OUTPUT_CHANGED: i32 = -0x636e6702;
/// Engine code for "Not yet implemented in FFmpeg, patches welcome" (tag 'P' 'A' 'W' 'E').
pub const AVERROR_PATCHWELCOME: i32 = -0x45574150;
/// Engine code for "Protocol not found" (tag 0xF8 'P' 'R' 'O').
pub const AVERROR_PROTOCOL_NOT_FOUND: i32 = -0x4f5250f8;
/// Engine code for "Stream not found" (tag 0xF8 'S' 'T' 'R').
pub const AVERROR_STREAM_NOT_FOUND: i32 = -0x525453f8;
/// Engine code for "Unknown error occurred" (tag 'U' 'N' 'K' 'N').
pub const AVERROR_UNKNOWN: i32 = -0x4e4b4e55;
/// Engine code for "Requested feature is flagged experimental".
pub const AVERROR_EXPERIMENTAL: i32 = -0x2bb2afa8;
/// Engine code for "Server returned 400 Bad Request" (tag 0xF8 '4' '0' '0').
pub const AVERROR_HTTP_BAD_REQUEST: i32 = -0x303034f8;
/// Engine code for "Server returned 401 Unauthorized (authorization failed)" (tag 0xF8 '4' '0' '1').
pub const AVERROR_HTTP_UNAUTHORIZED: i32 = -0x313034f8;
/// Engine code for "Server returned 403 Forbidden (access denied)" (tag 0xF8 '4' '0' '3').
pub const AVERROR_HTTP_FORBIDDEN: i32 = -0x333034f8;
/// Engine code for "Server returned 404 Not Found" (tag 0xF8 '4' '0' '4').
pub const AVERROR_HTTP_NOT_FOUND: i32 = -0x343034f8;
/// Engine code for "Server returned 4XX Client Error, but not one of 40{0,1,3,4}" (tag 0xF8 '4' 'X' 'X').
pub const AVERROR_HTTP_OTHER_4XX: i32 = -0x585834f8;
/// Engine code for "Server returned 5XX Server Error reply" (tag 0xF8 '5' 'X' 'X').
pub const AVERROR_HTTP_SERVER_ERROR: i32 = -0x585835f8;

/// The errors of this library: the engine's error codes, one variant each,
/// and the library's own failures.
#[derive(Clone, Copy, Debug, PartialEq, Eq, Structural)]
pub enum Error {
    /// The path cannot be handed to the engine (not UTF-8, or it holds a NUL).
    InvalidPath,
    /// A packet was written to a container whose trailer is already written.
    WriteAfterClose,
    /// A packet without a time base was handed to `mux`.
    MissingTimeBase,
    /// Input and output changed together; the engine reports no code of its own for it.
    InputOutputChanged,
    /// An engine code that none of the other variants stands for, kept as it is.
    Unmapped(i32),
    /// Bitstream filter not found.
    BsfNotFound,
    /// Internal bug, should not have happened.
    Bug,
    /// Internal bug, should not have happened (2).
    Bug2,
    /// Buffer too small.
    BufferTooSmall,
    /// Decoder not found.
    DecoderNotFound,
    /// Demuxer not found.
    DemuxerNotFound,
    /// Encoder not found.
    EncoderNotFound,
    /// End of file.
    Eof,
    /// Immediate exit requested.
    Exit,
    /// Generic error in an external library.
    External,
    /// Filter not found.
    FilterNotFound,
    /// Input changed.
    InputChanged,
    /// Invalid data found when processing input.
    InvalidData,
    /// Muxer not found.
    MuxerNotFound,
    /// Option not found.
    OptionNotFound,
    /// Output changed.
    OutputChanged,
    /// Not yet implemented in FFmpeg, patches welcome.
    PatchWelcome,
    /// Protocol not found.
    ProtocolNotFound,
    /// Stream not found.
    StreamNotFound,
    /// Unknown error occurred.
    Unknown,
    /// Requested feature is flagged experimental.
    Experimental,
    /// Server returned 400 Bad Request.
    HttpBadRequest,
    /// Server returned 401 Unauthorized (authorization failed).
    HttpUnauthorized,
    /// Server returned 403 Forbidden (access denied).
    HttpForbidden,
    /// Server returned 404 Not Found.
    HttpNotFound,
    /// Server returned 4XX Client Error, but not one of 40{0,1,3,4}.
    HttpOther4xx,
    /// Server returned 5XX Server Error reply.
    HttpServerError,
}

/// The engine code that an error stands for; `None` for the library's own
/// failures.
pub open spec fn code_of(e: Error) -> Option<i32> {
    match e {
        Error::BsfNotFound => Some(AVERROR_BSF_NOT_FOUND),
        Error::Bug => Some(AVERROR_BUG),
        Error::Bug2 => Some(AVERROR_BUG2),
        Error::BufferTooSmall => Some(AVERROR_BUFFER_TOO_SMALL),
        Error::DecoderNotFound => Some(AVERROR_DECODER_NOT_FOUND),
        Error::DemuxerNotFound => Some(AVERROR_DEMUXER_NOT_FOUND),
        Error::EncoderNotFound => Some(AVERROR_ENCODER_NOT_FOUND),
        Error::Eof => Some(AVERROR_EOF),
        Error::Exit => Some(AVERROR_EXIT),
        Error::External => Some(AVERROR_EXTERNAL),
        Error::FilterNotFound => Some(AVERROR_FILTER_NOT_FOUND),
        Error::InputChanged => Some(AVERROR_INPUT_CHANGED),
        Error::InvalidData => Some(AVERROR_INVALIDDATA),
        Error::MuxerNotFound => Some(AVERROR_MUXER_NOT_FOUND),
        Error::OptionNotFound => Some(AVERROR_OPTION_NOT_FOUND),
        Error::OutputChanged => Some(AVERROR_OUTPUT_CHANGED),
        Error::PatchWelcome => Some(AVERROR_PATCHWELCOME),
        Error::ProtocolNotFound => Some(AVERROR_PROTOCOL_NOT_FOUND),
        Error::StreamNotFound => Some(AVERROR_STREAM_NOT_FOUND),
        Error::Unknown => Some(AVERROR_UNKNOWN),
        Error::Experimental => Some(AVERROR_EXPERIMENTAL),
        Error::HttpBadRequest => Some(AVERROR_HTTP_BAD_REQUEST),
        Error::HttpUnauthorized => Some(AVERROR_HTTP_UNAUTHORIZED),
        Error::HttpForbidden => Some(AVERROR_HTTP_FORBIDDEN),
        Error::HttpNotFound => Some(AVERROR_HTTP_NOT_FOUND),
        Error::HttpOther4xx => Some(AVERROR_HTTP_OTHER_4XX),
        Error::HttpServerError => Some(AVERROR_HTTP_SERVER_ERROR),
        Error::Unmapped(c) => Some(c),
        _ => None,
    }
}

/// Whether an engine code has a variant of its own.
pub open spec fn is_named_code(code: i32) -> bool {
    exists|e: Error| !(e is Unmapped) && #[trigger] code_of(e) == Some(code)
}

/// The error that an engine code stands for: the variant whose code it is,
/// or `Unmapped(code)` where no variant has it.
pub open spec fn error_of(code: i32) -> Error {
    choose|e: Error| code_of(e) == Some(code) && ((e is Unmapped) <==> !is_named_code(code))
}

impl Error {
    /// The error that an engine code stands for: the variant whose code it is,
    /// or `Unmapped(code)` where there is none, so that no code is lost.
    pub fn from_ffmpeg_error_code(code: i32) -> (r: Error)
        ensures
            r == error_of(code),
            code_of(r) == Some(code),
            (r is Unmapped) <==> !is_named_code(code),
    {
        let r = Error::from_code_table(code);
        proof {
            let e = error_of(code);
            lemma_code_determines_error(e, r);
        }
        r
    }

    fn from_code_table(code: i32) -> (r: Error)
        ensures
            code_of(r) == Some(code),
            (r is Unmapped) <==> !is_named_code(code),
    {
        if code == AVERROR_BSF_NOT_FOUND {
            Error::BsfNotFound
        } else if code == AVERROR_BUG {
            Error::Bug
        } else if code == AVERROR_BUG2 {
            Error::Bug2
        } else if code == AVERROR_BUFFER_TOO_SMALL {
            Error::BufferTooSmall
        } else if code == AVERROR_DECODER_NOT_FOUND {
            Error::DecoderNotFound
        } else if code == AVERROR_DEMUXER_NOT_FOUND {
            Error::DemuxerNotFound
        } else if code == AVERROR_ENCODER_NOT_FOUND {
            Error::EncoderNotFound
        } else if code == AVERROR_EOF {
            Error::Eof
        } else if code == AVERROR_EXIT {
            Error::Exit
        } else if code == AVERROR_EXTERNAL {
            Error::External
        } else if code == AVERROR_FILTER_NOT_FOUND {
            Error::FilterNotFound
        } else if code == AVERROR_INPUT_CHANGED {
            Error::InputChanged
        } else if code == AVERROR_INVALIDDATA {
            Error::InvalidData
        } else if code == AVERROR_MUXER_NOT_FOUND {
            Error::MuxerNotFound
        } else if code == AVERROR_OPTION_NOT_FOUND {
            Error::OptionNotFound
        } else if code == AVERROR_OUTPUT_CHANGED {
            Error::OutputChanged
        } else if code == AVERROR_PATCHWELCOME {
            Error::PatchWelcome
        } else if code == AVERROR_PROTOCOL_NOT_FOUND {
            Error::ProtocolNotFound
        } else if code == AVERROR_STREAM_NOT_FOUND {
            Error::StreamNotFound
        } else if code == AVERROR_UNKNOWN {
            Error::Unknown
        } else if code == AVERROR_EXPERIMENTAL {
            Error::Experimental
        } else if code == AVERROR_HTTP_BAD_REQUEST {
            Error::HttpBadRequest
        } else if code == AVERROR_HTTP_UNAUTHORIZED {
            Error::HttpUnauthorized
        } else if code == AVERROR_HTTP_FORBIDDEN {
            Error::HttpForbidden
        } else if code == AVERROR_HTTP_NOT_FOUND {
            Error::HttpNotFound
        } else if code == AVERROR_HTTP_OTHER_4XX {
            Error::HttpOther4xx
        } else if code == AVERROR_HTTP_SERVER_ERROR {
            Error::HttpServerError
        } else {
            proof {
                assert forall|e: Error| !(e is Unmapped) implies #[trigger] code_of(e) != Some(code) by {
                }
            }
            Error::Unmapped(code)
        }
    }

    /// The engine code that this error stands for, if it is one.
    pub fn code(&self) -> (r: Option<i32>)
        ensures
            r == code_of(*self),
    {
        match self {
            Error::BsfNotFound => Some(AVERROR_BSF_NOT_FOUND),
            Error::Bug => Some(AVERROR_BUG),
            Error::Bug2 => Some(AVERROR_BUG2),
            Error::BufferTooSmall => Some(AVERROR_BUFFER_TOO_SMALL),
            Error::DecoderNotFound => Some(AVERROR_DECODER_NOT_FOUND),
            Error::DemuxerNotFound => Some(AVERROR_DEMUXER_NOT_FOUND),
            Error::EncoderNotFound => Some(AVERROR_ENCODER_NOT_FOUND),
            Error::Eof => Some(AVERROR_EOF),
            Error::Exit => Some(AVERROR_EXIT),
            Error::External => Some(AVERROR_EXTERNAL),
            Error::FilterNotFound => Some(AVERROR_FILTER_NOT_FOUND),
            Error::InputChanged => Some(AVERROR_INPUT_CHANGED),
            Error::InvalidData => Some(AVERROR_INVALIDDATA),
            Error::MuxerNotFound => Some(AVERROR_MUXER_NOT_FOUND),
            Error::OptionNotFound => Some(AVERROR_OPTION_NOT_FOUND),
            Error::OutputChanged => Some(AVERROR_OUTPUT_CHANGED),
            Error::PatchWelcome => Some(AVERROR_PATCHWELCOME),
            Error::ProtocolNotFound => Some(AVERROR_PROTOCOL_NOT_FOUND),
            Error::StreamNotFound => Some(AVERROR_STREAM_NOT_FOUND),
            Error::Unknown => Some(AVERROR_UNKNOWN),
            Error::Experimental => Some(AVERROR_EXPERIMENTAL),
            Error::HttpBadRequest => Some(AVERROR_HTTP_BAD_REQUEST),
            Error::HttpUnauthorized => Some(AVERROR_HTTP_UNAUTHORIZED),
            Error::HttpForbidden => Some(AVERROR_HTTP_FORBIDDEN),
            Error::HttpNotFound => Some(AVERROR_HTTP_NOT_FOUND),
            Error::HttpOther4xx => Some(AVERROR_HTTP_OTHER_4XX),
            Error::HttpServerError => Some(AVERROR_HTTP_SERVER_ERROR),
            Error::Unmapped(c) => Some(*c),
            _ => None,
        }
    }
}

/// The outcome of an engine call from its status: a negative status is the
/// error it stands for, anything else is success.
pub fn check_status(code: i32) -> (r: Result<(), Error>)
    ensures
        r == (if code < 0 {
            Err(error_of(code))
        } else {
            Ok(())
        }),
{
    if code < 0 {
        Err(Error::from_ffmpeg_error_code(code))
    } else {
        Ok(())
    }
}

/// No two variants stand for the same engine code, so the contract of
/// `from_ffmpeg_error_code` names exactly one error for each code.
pub proof fn lemma_code_determines_error(a: Error, b: Error)
    requires
        code_of(a).is_some(),
        code_of(a) == code_of(b),
        (a is Unmapped) == (b is Unmapped),
    ensures
        a == b,
{
    match a {
        Error::Unmapped(_) => {},
        _ => {
            match b {
                Error::Unmapped(_) => {},
                _ => {},
            }
        },
    }
}

} // verus!
