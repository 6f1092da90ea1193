use wav2srt::decoder::classify_read_event;
use wav2srt::decoder::decode_wav_bytes;
use wav2srt::decoder::DecodeStep;
use wav2srt::decoder::ReadEvent;
use wav2srt::decoder::open_wav;
use wav2srt::decoder::parse_wav;
use wav2srt::decoder::DecodeError;
use wav2srt::decoder::ProfileField;
use wav2srt::normalizer::WavLengthPatcher;

/// Builds a minimal RIFF/WAVE byte stream: a 16-byte fmt chunk followed by a
/// data chunk declaring `data_len` bytes, with `data` appended after it.
fn make_wav(
    format_tag: u16,
    channels: u16,
    sample_rate: u32,
    bits_per_sample: u16,
    data_len: u32,
    data: &[u8],
) -> Vec<u8> {
    let block_align = channels * (bits_per_sample / 8);
    let byte_rate = block_align as u32 * sample_rate;
    let mut b: Vec<u8> = Vec::new();
    b.extend_from_slice(b"RIFF");
    b.extend_from_slice(&0xFFFF_FFF0u32.to_le_bytes());
    b.extend_from_slice(b"WAVE");
    b.extend_from_slice(b"fmt ");
    b.extend_from_slice(&16u32.to_le_bytes());
    b.extend_from_slice(&format_tag.to_le_bytes());
    b.extend_from_slice(&channels.to_le_bytes());
    b.extend_from_slice(&sample_rate.to_le_bytes());
    b.extend_from_slice(&byte_rate.to_le_bytes());
    b.extend_from_slice(&block_align.to_le_bytes());
    b.extend_from_slice(&bits_per_sample.to_le_bytes());
    b.extend_from_slice(b"data");
    b.extend_from_slice(&data_len.to_le_bytes());
    b.extend_from_slice(data);
    b
}

fn sample_bytes(samples: &[i16]) -> Vec<u8> {
    let mut b: Vec<u8> = Vec::new();
    for s in samples {
        b.extend_from_slice(&s.to_le_bytes());
    }
    b
}

#[test]
fn decodes_a_finite_stream_exactly() {
    let samples = [0i16, 1, -1, 32767, -32768];
    let bytes = make_wav(1, 1, 16000, 16, 10, &sample_bytes(&samples));
    let decoded = decode_wav_bytes(bytes).unwrap();
    assert_eq!(decoded, samples.to_vec());
}

#[test]
fn huge_declared_length_ends_cleanly_at_end_of_input() {
    // the declared data length is inflated far past the actual bytes, as a
    // normalized unbounded stream declares it; k = 0 trailing bytes
    let samples = [5i16, -6, 7];
    let bytes = make_wav(1, 1, 16000, 16, 0xFFFF_FFF0, &sample_bytes(&samples));
    let decoded = decode_wav_bytes(bytes).unwrap();
    assert_eq!(decoded, samples.to_vec());
}

#[test]
fn truncated_final_sample_is_benign() {
    // k = 1 trailing byte: too few bytes for one more whole sample
    let samples = [5i16, -6, 7];
    let mut data = sample_bytes(&samples);
    data.push(0xAB);
    let bytes = make_wav(1, 1, 16000, 16, 0xFFFF_FFF0, &data);
    let decoded = decode_wav_bytes(bytes).unwrap();
    assert_eq!(decoded, samples.to_vec());
}

#[test]
fn rejects_two_channels() {
    let bytes = make_wav(1, 2, 16000, 16, 0, &[]);
    let err = decode_wav_bytes(bytes).unwrap_err();
    assert!(matches!(err, DecodeError::Format(ProfileField::Channels)));
}

#[test]
fn rejects_float_encoding() {
    let bytes = make_wav(3, 1, 16000, 32, 0, &[]);
    let err = decode_wav_bytes(bytes).unwrap_err();
    assert!(matches!(err, DecodeError::Format(ProfileField::Encoding)));
}

#[test]
fn rejects_44100_hz_rate() {
    let bytes = make_wav(1, 1, 44100, 16, 0, &[]);
    let err = decode_wav_bytes(bytes).unwrap_err();
    assert!(matches!(err, DecodeError::Format(ProfileField::SampleRate)));
}

#[test]
fn rejects_8_bit_depth() {
    let bytes = make_wav(1, 1, 16000, 8, 0, &[]);
    let err = decode_wav_bytes(bytes).unwrap_err();
    assert!(matches!(err, DecodeError::Format(ProfileField::BitsPerSample)));
}

#[test]
fn rejects_a_header_that_is_not_wav() {
    let err = decode_wav_bytes(b"not a wav stream at all".to_vec()).unwrap_err();
    assert!(matches!(err, DecodeError::InvalidHeader(_)));
}

#[test]
fn open_then_parse_matches_whole_decode() {
    let samples = [9i16, 10, 11];
    let bytes = make_wav(1, 1, 16000, 16, 6, &sample_bytes(&samples));
    let reader = open_wav(bytes).unwrap();
    let decoded = parse_wav(reader).unwrap();
    assert_eq!(decoded, samples.to_vec());
}

/// The layout the unbounded producer emits: both 4-byte length fields hold
/// the 0xFF placeholder, with a skipped chunk placing the data chunk's
/// length field at absolute offset 74.
fn placeholder_stream(data: &[u8]) -> Vec<u8> {
    let mut b: Vec<u8> = Vec::new();
    b.extend_from_slice(b"RIFF");
    b.extend_from_slice(&[0xFF, 0xFF, 0xFF, 0xFF]);
    b.extend_from_slice(b"WAVE");
    b.extend_from_slice(b"fmt ");
    b.extend_from_slice(&16u32.to_le_bytes());
    b.extend_from_slice(&1u16.to_le_bytes());
    b.extend_from_slice(&1u16.to_le_bytes());
    b.extend_from_slice(&16000u32.to_le_bytes());
    b.extend_from_slice(&32000u32.to_le_bytes());
    b.extend_from_slice(&2u16.to_le_bytes());
    b.extend_from_slice(&16u16.to_le_bytes());
    b.extend_from_slice(b"LIST");
    b.extend_from_slice(&26u32.to_le_bytes());
    b.extend_from_slice(&[0u8; 26]);
    b.extend_from_slice(b"data");
    b.extend_from_slice(&[0xFF, 0xFF, 0xFF, 0xFF]);
    b.extend_from_slice(data);
    b
}

#[test]
fn normalized_unbounded_stream_decodes_end_to_end() {
    let samples = [100i16, -200, 300, -400];
    let mut bytes = placeholder_stream(&sample_bytes(&samples));
    assert_eq!(&bytes[70..74], b"data");
    let mut patcher = WavLengthPatcher::new();
    let mut patched = bytes.clone();
    patcher.patch(&mut patched).unwrap();
    let decoded = decode_wav_bytes(patched).unwrap();
    assert_eq!(decoded, samples.to_vec());
    // without patching, the reader must not be handed the placeholder: keep
    // the unpatched bytes around to show they differ only at the two offsets
    bytes[4] = 0xF0;
    bytes[74] = 0xF0;
    let again = decode_wav_bytes(bytes).unwrap();
    assert_eq!(again, samples.to_vec());
}

#[test]
fn truncation_is_recognised_by_error_content() {
    // the single benign failure, told apart by its text, not its kind
    let benign = ReadEvent::IoFailed("Failed to read enough bytes.".to_string());
    assert!(matches!(classify_read_event(benign), DecodeStep::Finish));
    let other = ReadEvent::IoFailed("Failed to read enough byte".to_string());
    match classify_read_event(other) {
        DecodeStep::Abort(DecodeError::Io(m)) => {
            assert_eq!(m, "Failed to read enough byte");
        }
        _ => panic!("a different I/O failure must abort"),
    }
}

#[test]
fn every_other_read_failure_aborts() {
    let ev = ReadEvent::FormatFailed("inconsistent fmt chunk".to_string());
    assert!(matches!(
        classify_read_event(ev),
        DecodeStep::Abort(DecodeError::Malformed(_))
    ));
    assert!(matches!(
        classify_read_event(ReadEvent::TooWide),
        DecodeStep::Abort(DecodeError::TooWide)
    ));
    assert!(matches!(
        classify_read_event(ReadEvent::UnfinishedSample),
        DecodeStep::Abort(DecodeError::UnfinishedSample)
    ));
    assert!(matches!(
        classify_read_event(ReadEvent::Unsupported),
        DecodeStep::Abort(DecodeError::Unsupported)
    ));
    assert!(matches!(
        classify_read_event(ReadEvent::InvalidSampleFormat),
        DecodeStep::Abort(DecodeError::InvalidSampleFormat)
    ));
    assert!(matches!(
        classify_read_event(ReadEvent::Sample(41)),
        DecodeStep::Append(41)
    ));
    assert!(matches!(classify_read_event(ReadEvent::End), DecodeStep::Finish));
}
