use rsav::codec::CodecFields;
use rsav::error::{AVERROR_EOF, AVERROR_INVALIDDATA, AVERROR_MUXER_NOT_FOUND};
use rsav::{
    CodecParameters, Destructor, EngineOp, Error, InputContainer, InputDestructor, MediaType, Mode,
    MuxStep, OutputContainer, OutputDestructor, Packet, Rational, State, StreamInfo,
};

fn slot(kind: MediaType, codec_id: u32, time_base: Rational) -> StreamInfo {
    StreamInfo {
        time_base,
        start_time: 0,
        duration: 1000,
        nb_frames: 40,
        r_frame_rate: Rational::new(25, 1),
        avg_frame_rate: Rational::new(25, 1),
        parameters: CodecFields { codec_type: kind, codec_id, extradata: vec![1, 2, 3] },
    }
}

fn sample_input() -> InputContainer {
    InputContainer::wrap(
        vec![
            slot(MediaType::Video, 27, Rational::new(1, 25)),
            slot(MediaType::Audio, 86018, Rational::new(1, 44100)),
        ],
        Some("sample.mov".to_string()),
        1_600_000,
        512_000,
        0,
    )
}

fn sample_output() -> OutputContainer {
    OutputContainer::wrap(Vec::new(), Some("out.mp4".to_string()), 0, 0, 0)
}

fn video_packet(pts: i64) -> Packet {
    let mut p = Packet::from_slice(&[0, 0, 1, 9]);
    p.set_stream_index(0);
    p.set_time_base(Rational::new(1, 25));
    p.set_pts(Some(pts));
    p.set_dts(Some(pts));
    p.set_duration(1);
    p
}

#[test]
fn input_container_streams() {
    let c = sample_input();
    assert_eq!(c.nb_streams(), 2);
    assert_eq!(c.url(), Some("sample.mov"));
    assert_eq!(c.duration(), 1_600_000);
    assert_eq!(c.bit_rate(), 512_000);
    assert_eq!(c.nb_chapters(), 0);
    assert_eq!(c.state(), State::Opened);
    assert!(c.stream(2).is_none());
    let s = c.stream(1).unwrap();
    assert_eq!(s.index(), 1);
    assert!(s.time_base() == Rational::new(1, 44100));
    assert_eq!(s.start_time(), 0);
    assert_eq!(s.duration(), 1000);
    assert_eq!(s.nb_frames(), 40);
    assert!(s.r_frame_rate() == Rational::new(25, 1));
    assert!(s.avg_frame_rate() == Rational::new(50, 2));
    assert_eq!(s.parameters().codec_type(), MediaType::Audio);
}

#[test]
fn stream_iteration_in_index_order() {
    let c = sample_input();
    let mut it = c.streams();
    assert_eq!(it.remaining(), 2);
    assert_eq!(it.next().unwrap().index(), 0);
    assert_eq!(it.next().unwrap().index(), 1);
    assert!(it.next().is_none());
    assert_eq!(it.remaining(), 0);
    assert_eq!(c.streams().chosen(1).unwrap().index(), 1);
    assert!(c.streams().chosen(-1381258232).is_none());
    assert!(c.streams().chosen(2).is_none());
    let mut handles = c.streams_mut();
    assert_eq!(handles.remaining(), 2);
    assert_eq!(handles.next().unwrap().index(), 0);
    assert_eq!(handles.next().unwrap().index(), 1);
    assert!(handles.next().is_none());
}

#[test]
fn aliased_parameters_clone_to_exclusive() {
    let c = sample_input();
    let aliased = c.stream(0).unwrap().parameters();
    assert!(!aliased.owns_storage());
    let copy = aliased.clone();
    assert!(copy.owns_storage());
    assert_eq!(copy.codec_type(), MediaType::Video);
    assert_eq!(copy.codec_id(), 27);
    assert_eq!(copy.extradata(), &[1u8, 2, 3][..]);
    drop(copy);
    assert_eq!(aliased.codec_id(), 27);
    assert_eq!(c.stream(0).unwrap().parameters().codec_id(), 27);
}

#[test]
fn fresh_parameters_are_exclusive_and_unset() {
    let p: CodecParameters<InputDestructor> = CodecParameters::new();
    assert!(p.owns_storage());
    assert_eq!(p.codec_type(), MediaType::Unknown);
    assert_eq!(p.codec_id(), 0);
    assert!(p.extradata().is_empty());
}

#[test]
fn stream_changes_through_handles() {
    let input = sample_input();
    let mut out = sample_output();
    let ost = out.add_stream_like(&input.stream(0).unwrap());
    assert!(out.stream_mut(1).is_none());
    ost.set_time_base(&mut out, Rational::new(1, 1000));
    ost.set_r_frame_rate(&mut out, Rational::new(30, 1));
    ost.set_avg_frame_rate(&mut out, Rational::new(29, 1));
    let audio = input.stream(1).unwrap().parameters();
    ost.set_parameters(&mut out, &audio);
    let s = out.stream(0).unwrap();
    assert!(s.time_base() == Rational::new(1, 1000));
    assert!(s.r_frame_rate() == Rational::new(30, 1));
    assert!(s.avg_frame_rate() == Rational::new(29, 1));
    assert_eq!(s.parameters().codec_type(), MediaType::Audio);
    assert_eq!(input.stream(0).unwrap().parameters().codec_type(), MediaType::Video);
}

#[test]
fn mux_sequence_closes_once() {
    let input = sample_input();
    let mut out = sample_output();
    let ost = out.add_stream_like(&input.stream(0).unwrap());
    assert_eq!(ost.index(), 0);
    assert_eq!(out.nb_streams(), 1);
    let added = out.stream(0).unwrap();
    assert_eq!(added.parameters().codec_id(), 27);
    assert!(added.time_base() == Rational::new(1, 90000));

    let packet = match out.mux(video_packet(10)) {
        Ok(MuxStep::WriteHeader(p)) => p,
        _ => panic!("the header comes first"),
    };
    assert_eq!(out.record(EngineOp::WriteHeader, 0), Ok(()));
    assert_eq!(out.state(), State::HeaderWritten);
    assert_eq!(out.write_header(), None);
    let written = match out.mux(packet) {
        Ok(MuxStep::WritePacket(p)) => p,
        _ => panic!("the packet is written once the header is"),
    };
    assert_eq!(written.pts(), Some(36000));
    assert_eq!(written.duration(), 3600);
    assert_eq!((written.time_base().num(), written.time_base().den()), (1, 90000));
    assert_eq!(out.record(EngineOp::WritePacket, 0), Ok(()));
    assert!(out.trailer_on_drop());

    assert_eq!(out.write_trailer(), Some(EngineOp::WriteTrailer));
    assert_eq!(out.record(EngineOp::WriteTrailer, 0), Ok(()));
    assert_eq!(out.state(), State::Closed);
    assert_eq!(out.write_trailer(), None);
    assert_eq!(out.state(), State::Closed);
    assert!(!out.trailer_on_drop());
}

#[test]
fn trailer_from_opened_writes_the_header_first() {
    let mut out = sample_output();
    assert!(!out.trailer_on_drop());
    assert_eq!(out.write_header(), Some(EngineOp::WriteHeader));
    assert_eq!(out.write_trailer(), Some(EngineOp::WriteHeader));
    assert_eq!(out.record(EngineOp::WriteHeader, 0), Ok(()));
    assert_eq!(out.write_trailer(), Some(EngineOp::WriteTrailer));
}

#[test]
fn failed_engine_operations_keep_the_state() {
    let mut out = sample_output();
    assert_eq!(out.record(EngineOp::WriteHeader, AVERROR_MUXER_NOT_FOUND), Err(Error::MuxerNotFound));
    assert_eq!(out.state(), State::Opened);
    assert_eq!(out.record(EngineOp::WriteHeader, 1), Ok(()));
    assert_eq!(out.record(EngineOp::WriteTrailer, AVERROR_INVALIDDATA), Err(Error::InvalidData));
    assert_eq!(out.state(), State::HeaderWritten);
}

#[test]
fn mux_after_close_fails() {
    let mut out = sample_output();
    assert_eq!(out.record(EngineOp::WriteHeader, 0), Ok(()));
    assert_eq!(out.record(EngineOp::WriteTrailer, 0), Ok(()));
    assert!(matches!(out.mux(video_packet(1)), Err(Error::WriteAfterClose)));
}

#[test]
fn mux_rejects_empty_packets_before_the_engine() {
    let out = sample_output();
    let mut p = Packet::empty();
    p.set_time_base(Rational::new(1, 25));
    assert!(matches!(out.mux(p), Err(Error::InvalidData)));
    assert_eq!(out.state(), State::Opened);
}

#[test]
fn mux_requires_a_time_base() {
    let out = sample_output();
    let mut p = video_packet(1);
    p.set_time_base(Rational::new(0, 1));
    assert!(matches!(out.mux(p), Err(Error::MissingTimeBase)));
}

#[test]
fn mux_to_a_missing_stream_fails() {
    let mut out = sample_output();
    assert_eq!(out.record(EngineOp::WriteHeader, 0), Ok(()));
    let mut p = video_packet(1);
    p.set_stream_index(3);
    assert!(matches!(out.mux(p), Err(Error::StreamNotFound)));
}

#[test]
fn mux_keeps_a_matching_time_base() {
    let input = sample_input();
    let mut out = sample_output();
    let ost = out.add_stream_like(&input.stream(0).unwrap());
    ost.set_time_base(&mut out, Rational::new(2, 50));
    assert_eq!(out.record(EngineOp::WriteHeader, 0), Ok(()));
    match out.mux(video_packet(7)) {
        Ok(MuxStep::WritePacket(p)) => {
            assert_eq!(p.pts(), Some(7));
            assert_eq!((p.time_base().num(), p.time_base().den()), (1, 25));
        },
        _ => panic!("the packet is written"),
    }
}

#[test]
fn demux_to_exhaustion() {
    let mut c = sample_input();
    let mut it = c.demux();
    let mut reads: Vec<Result<Packet, i32>> = Vec::new();
    for i in 0..3 {
        let mut p = Packet::from_slice(&[i as u8]);
        p.set_stream_index(i % 2);
        reads.push(Ok(p));
    }
    reads.push(Err(AVERROR_EOF));
    let mut items = 0;
    for read in reads {
        match it.next(&c, read) {
            Some(Ok((stream, packet))) => {
                assert_eq!(stream.index(), packet.stream_index());
                assert!(packet.time_base() == stream.time_base());
                items += 1;
            },
            Some(Err(e)) => panic!("unexpected error {:?}", e),
            None => {},
        }
    }
    assert_eq!(items, 3);
    assert!(it.next(&c, Ok(Packet::from_slice(&[1]))).is_none());
    assert!(it.next(&c, Err(AVERROR_INVALIDDATA)).is_none());
}

#[test]
fn demux_surfaces_read_errors_per_item() {
    let mut c = sample_input();
    let mut it = c.demux();
    assert!(matches!(it.next(&c, Err(AVERROR_INVALIDDATA)), Some(Err(Error::InvalidData))));
    let mut stray = Packet::from_slice(&[1]);
    stray.set_stream_index(5);
    assert!(matches!(it.next(&c, Ok(stray)), Some(Err(Error::StreamNotFound))));
    let mut p = Packet::from_slice(&[1]);
    p.set_stream_index(1);
    match it.next(&c, Ok(p)) {
        Some(Ok((stream, packet))) => {
            assert_eq!(stream.index(), 1);
            assert_eq!((packet.time_base().num(), packet.time_base().den()), (1, 44100));
        },
        _ => panic!("the packet comes through"),
    }
    assert!(it.next(&c, Err(AVERROR_EOF)).is_none());
}

#[test]
fn stream_changes_are_not_guarded_after_the_header() {
    let input = sample_input();
    let mut out = sample_output();
    let ost = out.add_stream_like(&input.stream(0).unwrap());
    assert_eq!(out.record(EngineOp::WriteHeader, 0), Ok(()));
    ost.set_time_base(&mut out, Rational::new(1, 1000));
    assert!(out.stream(0).unwrap().time_base() == Rational::new(1, 1000));
}

#[test]
fn destructor_modes() {
    assert_eq!(InputDestructor::mode(), Mode::Input);
    assert_eq!(OutputDestructor::mode(), Mode::Output);
}
