use rsav::error::{
    check_status, AVERROR_BSF_NOT_FOUND, AVERROR_BUG, AVERROR_BUG2, AVERROR_EOF, AVERROR_EXPERIMENTAL,
    AVERROR_HTTP_NOT_FOUND, AVERROR_HTTP_OTHER_4XX, AVERROR_INPUT_CHANGED, AVERROR_INVALIDDATA,
    AVERROR_MUXER_NOT_FOUND, AVERROR_OUTPUT_CHANGED, AVERROR_STREAM_NOT_FOUND, AVERROR_UNKNOWN,
};
use rsav::Error;

#[test]
fn engine_codes_have_their_tag_values() {
    assert_eq!(AVERROR_EOF, -0x20464f45);
    assert_eq!(AVERROR_INVALIDDATA, -0x41444e49);
    assert_eq!(AVERROR_MUXER_NOT_FOUND, -0x58554df8);
    assert_eq!(AVERROR_EXPERIMENTAL, -0x2bb2afa8);
}

#[test]
fn codes_map_to_their_variants() {
    assert_eq!(Error::from_ffmpeg_error_code(AVERROR_EOF), Error::Eof);
    assert_eq!(Error::from_ffmpeg_error_code(AVERROR_INVALIDDATA), Error::InvalidData);
    assert_eq!(Error::from_ffmpeg_error_code(AVERROR_BSF_NOT_FOUND), Error::BsfNotFound);
    assert_eq!(Error::from_ffmpeg_error_code(AVERROR_BUG), Error::Bug);
    assert_eq!(Error::from_ffmpeg_error_code(AVERROR_BUG2), Error::Bug2);
    assert_eq!(Error::from_ffmpeg_error_code(AVERROR_STREAM_NOT_FOUND), Error::StreamNotFound);
    assert_eq!(Error::from_ffmpeg_error_code(AVERROR_UNKNOWN), Error::Unknown);
    assert_eq!(Error::from_ffmpeg_error_code(AVERROR_EXPERIMENTAL), Error::Experimental);
    assert_eq!(Error::from_ffmpeg_error_code(AVERROR_INPUT_CHANGED), Error::InputChanged);
    assert_eq!(Error::from_ffmpeg_error_code(AVERROR_OUTPUT_CHANGED), Error::OutputChanged);
    assert_eq!(Error::from_ffmpeg_error_code(AVERROR_HTTP_NOT_FOUND), Error::HttpNotFound);
    assert_eq!(Error::from_ffmpeg_error_code(AVERROR_HTTP_OTHER_4XX), Error::HttpOther4xx);
}

#[test]
fn unknown_codes_are_kept_not_misread() {
    assert_eq!(Error::from_ffmpeg_error_code(-2), Error::Unmapped(-2));
    assert_eq!(Error::from_ffmpeg_error_code(7), Error::Unmapped(7));
}

#[test]
fn code_round_trip() {
    let errors = [Error::Eof, Error::HttpServerError, Error::PatchWelcome, Error::Unmapped(-12)];
    for e in errors {
        let code = e.code().unwrap();
        assert_eq!(Error::from_ffmpeg_error_code(code), e);
    }
    assert_eq!(Error::WriteAfterClose.code(), None);
    assert_eq!(Error::MissingTimeBase.code(), None);
    assert_eq!(Error::InvalidPath.code(), None);
}

#[test]
fn status_codes() {
    assert_eq!(check_status(0), Ok(()));
    assert_eq!(check_status(1), Ok(()));
    assert_eq!(check_status(AVERROR_EOF), Err(Error::Eof));
    assert_eq!(check_status(-5), Err(Error::Unmapped(-5)));
}
