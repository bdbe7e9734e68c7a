use moonegg_core::backends::wav::{read_chunk_header, read_riff_header, read_wav_layout, WavDemuxer, FRAMES_PER_PACKET};
use moonegg_core::media::{AudioCodecId, MediaTime, TrackFormat};
use moonegg_core::ports::{DemuxError, Demuxer, ReadPacketResult};
use moonegg_core::wav::{parse_pcm_format, parse_wav_format, read_u16_le, read_u32_le, has_tag};

fn fmt_payload(format_tag: u16, channels: u16, rate: u32, bits: u16) -> Vec<u8> {
    let block_align = channels * bits / 8;
    let mut payload = Vec::new();
    payload.extend_from_slice(&format_tag.to_le_bytes());
    payload.extend_from_slice(&channels.to_le_bytes());
    payload.extend_from_slice(&rate.to_le_bytes());
    payload.extend_from_slice(&(rate * u32::from(block_align)).to_le_bytes());
    payload.extend_from_slice(&block_align.to_le_bytes());
    payload.extend_from_slice(&bits.to_le_bytes());
    payload
}

fn chunk(tag: &[u8; 4], payload: &[u8]) -> Vec<u8> {
    let mut bytes = Vec::new();
    bytes.extend_from_slice(tag);
    bytes.extend_from_slice(&(payload.len() as u32).to_le_bytes());
    bytes.extend_from_slice(payload);
    if payload.len() % 2 == 1 {
        bytes.push(0);
    }
    bytes
}

fn riff(chunks: &[Vec<u8>]) -> Vec<u8> {
    let body: Vec<u8> = chunks.iter().flatten().copied().collect();
    let mut bytes = Vec::new();
    bytes.extend_from_slice(b"RIFF");
    bytes.extend_from_slice(&((body.len() + 4) as u32).to_le_bytes());
    bytes.extend_from_slice(b"WAVE");
    bytes.extend_from_slice(&body);
    bytes
}

fn samples_bytes(samples: &[i16]) -> Vec<u8> {
    samples.iter().flat_map(|s| s.to_le_bytes()).collect()
}

fn wav(channels: u16, rate: u32, samples: &[i16]) -> Vec<u8> {
    riff(&[
        chunk(b"fmt ", &fmt_payload(1, channels, rate, 16)),
        chunk(b"data", &samples_bytes(samples)),
    ])
}

#[test]
fn reads_little_endian_fields_and_tags() {
    let data = [0x34, 0x12, 0x78, 0x56, 0x34, 0x12, b'd', b'a', b't', b'a'];
    assert_eq!(read_u16_le(&data, 0), 0x1234);
    assert_eq!(read_u32_le(&data, 2), 0x1234_5678);
    assert!(has_tag(&data, 6, b'd', b'a', b't', b'a'));
    assert!(!has_tag(&data, 5, b'd', b'a', b't', b'a'));
}

#[test]
fn parses_pcm_format_payloads() {
    let format = parse_pcm_format(&fmt_payload(1, 2, 48_000, 16)).unwrap();
    assert_eq!(format.sample_rate(), 48_000);
    assert_eq!(format.channel_count(), 2);
    assert_eq!(format.codec(), AudioCodecId::PcmS16Le);
    assert!(format.codec_config().is_empty());

    assert_eq!(parse_pcm_format(&fmt_payload(3, 2, 48_000, 16)).unwrap_err(), DemuxError::Unsupported);
    assert_eq!(parse_pcm_format(&fmt_payload(1, 2, 48_000, 24)).unwrap_err(), DemuxError::Unsupported);
    assert_eq!(parse_pcm_format(&fmt_payload(1, 0, 48_000, 16)).unwrap_err(), DemuxError::InvalidData);
    assert_eq!(parse_pcm_format(&fmt_payload(1, 3, 48_000, 16)).unwrap_err(), DemuxError::Unsupported);
    assert_eq!(parse_pcm_format(&fmt_payload(1, 1, 0, 16)).unwrap_err(), DemuxError::InvalidData);
    assert_eq!(parse_pcm_format(&[1, 0, 1, 0]).unwrap_err(), DemuxError::InvalidData);

    let mut bad_rate = fmt_payload(1, 1, 8_000, 16);
    bad_rate[8] = 0;
    assert_eq!(parse_pcm_format(&bad_rate).unwrap_err(), DemuxError::InvalidData);
    let mut bad_align = fmt_payload(1, 2, 8_000, 16);
    bad_align[12] = 2;
    assert_eq!(parse_pcm_format(&bad_align).unwrap_err(), DemuxError::InvalidData);
}

#[test]
fn parses_the_format_of_a_whole_file() {
    let bytes = wav(1, 8_000, &[1, 2, 3]);
    let format = parse_wav_format(&bytes).unwrap();
    assert_eq!(format.sample_rate(), 8_000);
    assert_eq!(format.channel_count(), 1);
    assert_eq!(parse_wav_format(b"RIFX").unwrap_err(), DemuxError::InvalidData);
}

#[test]
fn riff_header_and_chunk_headers() {
    let bytes = wav(1, 8_000, &[7, 8]);
    let riff_end = read_riff_header(&bytes).unwrap();
    assert_eq!(riff_end, bytes.len());
    let first = read_chunk_header(&bytes, 12, riff_end).unwrap().unwrap();
    assert!(first.is_fmt && !first.is_data);
    assert_eq!(first.payload_start, 20);
    assert_eq!(first.payload_end, 36);
    assert_eq!(first.next_offset, 36);
    let second = read_chunk_header(&bytes, 36, riff_end).unwrap().unwrap();
    assert!(second.is_data);
    assert_eq!(second.payload_end, 48);
    assert!(read_chunk_header(&bytes, riff_end, riff_end).unwrap().is_none());
    assert_eq!(read_chunk_header(&bytes, riff_end - 4, riff_end).unwrap_err(), DemuxError::InvalidData);

    assert_eq!(read_riff_header(b"RIFF\x04\x00\x00\x00WAVX").unwrap_err(), DemuxError::InvalidData);
    assert_eq!(read_riff_header(b"RIFF").unwrap_err(), DemuxError::InvalidData);
}

#[test]
fn layout_skips_unknown_chunks_and_odd_padding() {
    let bytes = riff(&[
        chunk(b"LIST", &[1, 2, 3]),
        chunk(b"fmt ", &fmt_payload(1, 2, 44_100, 16)),
        chunk(b"data", &samples_bytes(&[1, -1, 2, -2])),
    ]);
    let layout = read_wav_layout(&bytes).unwrap();
    assert_eq!(layout.frame_count(), 2);
    assert_eq!(layout.bytes_per_frame(), 4);
}

#[test]
fn layout_errors() {
    // No data chunk.
    let no_data = riff(&[chunk(b"fmt ", &fmt_payload(1, 1, 8_000, 16))]);
    assert_eq!(read_wav_layout(&no_data).unwrap_err(), DemuxError::InvalidData);
    // Two format chunks.
    let two_fmt = riff(&[
        chunk(b"fmt ", &fmt_payload(1, 1, 8_000, 16)),
        chunk(b"fmt ", &fmt_payload(1, 1, 8_000, 16)),
        chunk(b"data", &samples_bytes(&[1])),
    ]);
    assert_eq!(read_wav_layout(&two_fmt).unwrap_err(), DemuxError::Unsupported);
    // Partial frame in stereo data.
    let partial = riff(&[
        chunk(b"fmt ", &fmt_payload(1, 2, 8_000, 16)),
        chunk(b"data", &samples_bytes(&[1, 2, 3])),
    ]);
    assert_eq!(read_wav_layout(&partial).unwrap_err(), DemuxError::InvalidData);
    // Truncated: the chunk claims more than the file holds.
    let mut truncated = wav(1, 8_000, &[1, 2, 3, 4]);
    truncated.truncate(truncated.len() - 2);
    assert!(read_wav_layout(&truncated).is_err());
}

#[test]
fn demuxer_reads_packets_of_at_most_1024_frames() {
    let samples: Vec<i16> = (0..2_500).map(|i| i as i16).collect();
    let bytes = wav(1, 8_000, &samples);
    let mut demuxer = WavDemuxer::from_bytes(bytes).unwrap();
    let tracks = demuxer.tracks();
    assert_eq!(tracks.len(), 1);
    assert_eq!(tracks[0].id().value(), 0);
    assert_eq!(tracks[0].duration().unwrap().ticks(), 2_500);
    match tracks[0].format() {
        TrackFormat::Audio(format) => assert_eq!(format.sample_rate(), 8_000),
        other => panic!("unexpected {other:?}"),
    }

    let mut sizes = Vec::new();
    let mut starts = Vec::new();
    loop {
        match demuxer.read_packet().unwrap() {
            ReadPacketResult::Packet(packet) => {
                sizes.push(packet.data().len());
                starts.push(packet.pts().unwrap().ticks());
                assert_eq!(packet.dts().unwrap().ticks(), packet.pts().unwrap().ticks());
            }
            ReadPacketResult::EndOfStream => break,
            ReadPacketResult::NotReady => panic!("a file in memory is always ready"),
        }
    }
    assert_eq!(FRAMES_PER_PACKET, 1024);
    assert_eq!(sizes, vec![2048, 2048, 904]);
    assert_eq!(starts, vec![0, 1024, 2048]);
    assert!(matches!(demuxer.read_packet().unwrap(), ReadPacketResult::EndOfStream));
}

#[test]
fn seek_lands_on_the_frame_at_or_before_the_target() {
    let samples: Vec<i16> = (0..16_000).map(|i| (i % 100) as i16).collect();
    let mut demuxer = WavDemuxer::from_bytes(wav(1, 8_000, &samples)).unwrap();
    // 1.00005 s at 8 kHz is frame 8000.4: lands on frame 8000, at 1 s.
    let landed = demuxer.seek(MediaTime::from_nanoseconds(1_000_050_000)).unwrap();
    assert_eq!(landed.nanoseconds(), 1_000_000_000);
    match demuxer.read_packet().unwrap() {
        ReadPacketResult::Packet(packet) => assert_eq!(packet.pts().unwrap().ticks(), 8_000),
        _ => panic!("expected a packet"),
    }
    // Before the start clamps to the start; past the end to the end.
    assert_eq!(demuxer.seek(MediaTime::from_nanoseconds(-5)).unwrap().nanoseconds(), 0);
    assert_eq!(demuxer.seek(MediaTime::from_nanoseconds(9_000_000_000)).unwrap().nanoseconds(), 2_000_000_000);
    assert!(matches!(demuxer.read_packet().unwrap(), ReadPacketResult::EndOfStream));
}

#[test]
fn demuxer_refuses_invalid_files() {
    assert_eq!(WavDemuxer::from_bytes(Vec::new()).err().unwrap(), DemuxError::InvalidData);
    let float_wav = riff(&[
        chunk(b"fmt ", &fmt_payload(3, 1, 8_000, 32)),
        chunk(b"data", &[0, 0, 0, 0]),
    ]);
    assert_eq!(WavDemuxer::from_bytes(float_wav).err().unwrap(), DemuxError::Unsupported);
}
