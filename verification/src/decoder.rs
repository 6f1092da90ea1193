use vstd::prelude::*;

verus! {

/// Whether samples are stored as integers or as IEEE floats.
#[derive(Clone, Copy, Debug, PartialEq, Eq, Structural)]
pub enum SampleEncoding {
    Integer,
    Float,
}

/// The audio profile a container header declares.
#[derive(Clone, Copy, Debug, PartialEq, Eq, Structural)]
pub struct AudioProfile {
    pub channel_count: u16,
    pub sample_encoding: SampleEncoding,
    pub sample_rate_hz: u32,
    pub bits_per_sample: u16,
}

/// The one profile that decoding accepts: mono, integer, 16 kHz, 16-bit.
pub open spec fn required_profile() -> AudioProfile {
    AudioProfile {
        channel_count: 1,
        sample_encoding: SampleEncoding::Integer,
        sample_rate_hz: 16000,
        bits_per_sample: 16,
    }
}

/// The profile field a format error names.
#[derive(Clone, Copy, Debug, PartialEq, Eq, Structural)]
pub enum ProfileField {
    Channels,
    Encoding,
    SampleRate,
    BitsPerSample,
}

/// A fatal decoding failure. The one benign read outcome - a truncated
/// final sample at end of input - is absorbed, never surfaced here.
#[derive(Debug)]
pub enum DecodeError {
    /// The container header was rejected; the payload is the reader's message.
    InvalidHeader(String),
    /// The declared profile deviates from the required one at this field.
    Format(ProfileField),
    /// An I/O failure while reading samples; the payload is its display text.
    Io(String),
    /// Ill-formed WAVE data was encountered; the payload is the reason.
    Malformed(String),
    /// A sample has more bits than the 16-bit destination.
    TooWide,
    /// The sample count is not a multiple of the channel count.
    UnfinishedSample,
    /// The container format is not supported.
    Unsupported,
    /// The stored sample format differs from the 16-bit integer destination.
    InvalidSampleFormat,
}

/// One outcome of reading a single sample from the container.
pub enum ReadEvent {
    /// One decoded sample.
    Sample(i16),
    /// The declared sample count was reached.
    End,
    /// An I/O failure; the payload is the error's display text.
    IoFailed(String),
    /// Ill-formed WAVE data; the payload is the reason.
    FormatFailed(String),
    /// The sample has more bits than the destination type.
    TooWide,
    /// The sample count is not a multiple of the channel count.
    UnfinishedSample,
    /// The container format is not supported.
    Unsupported,
    /// The stored sample format differs from the destination format.
    InvalidSampleFormat,
}

/// What the decode loop does with one read outcome.
pub enum DecodeStep {
    /// Append the sample and keep reading.
    Append(i16),
    /// A clean end of input: stop and return what was collected.
    Finish,
    /// A fatal failure: stop and return nothing.
    Abort(DecodeError),
}

/// The display text of the I/O error the container reader raises when too
/// few bytes remain for one more whole sample: the single benign failure.
pub open spec fn truncation_message() -> Seq<char> {
    "Failed to read enough bytes."@
}

/// How one read outcome drives the decode loop: a truncated final sample at
/// end of input - recognised by the error's content, not merely its kind -
/// ends decoding cleanly; every other failure is fatal.
pub open spec fn spec_decode_step(ev: ReadEvent) -> DecodeStep {
    match ev {
        ReadEvent::Sample(v) => DecodeStep::Append(v),
        ReadEvent::End => DecodeStep::Finish,
        ReadEvent::IoFailed(m) => if m@ == truncation_message() {
            DecodeStep::Finish
        } else {
            DecodeStep::Abort(DecodeError::Io(m))
        },
        ReadEvent::FormatFailed(m) => DecodeStep::Abort(DecodeError::Malformed(m)),
        ReadEvent::TooWide => DecodeStep::Abort(DecodeError::TooWide),
        ReadEvent::UnfinishedSample => DecodeStep::Abort(DecodeError::UnfinishedSample),
        ReadEvent::Unsupported => DecodeStep::Abort(DecodeError::Unsupported),
        ReadEvent::InvalidSampleFormat => DecodeStep::Abort(DecodeError::InvalidSampleFormat),
    }
}

/// Classifies one read outcome for the decode loop.
pub fn classify_read_event(ev: ReadEvent) -> (s: DecodeStep)
    ensures
        s == spec_decode_step(ev),
{
    match ev {
        ReadEvent::Sample(v) => DecodeStep::Append(v),
        ReadEvent::End => DecodeStep::Finish,
        ReadEvent::IoFailed(m) => {
            let benign: String = "Failed to read enough bytes.".to_owned();
            if m == benign {
                DecodeStep::Finish
            } else {
                DecodeStep::Abort(DecodeError::Io(m))
            }
        },
        ReadEvent::FormatFailed(m) => DecodeStep::Abort(DecodeError::Malformed(m)),
        ReadEvent::TooWide => DecodeStep::Abort(DecodeError::TooWide),
        ReadEvent::UnfinishedSample => DecodeStep::Abort(DecodeError::UnfinishedSample),
        ReadEvent::Unsupported => DecodeStep::Abort(DecodeError::Unsupported),
        ReadEvent::InvalidSampleFormat => DecodeStep::Abort(DecodeError::InvalidSampleFormat),
    }
}

/// The field check a profile must pass, in reporting order: channel count,
/// sample encoding, sample rate, bit depth.
pub open spec fn spec_validate_profile(p: AudioProfile) -> Result<(), ProfileField> {
    if p.channel_count != 1 {
        Err(ProfileField::Channels)
    } else if !(p.sample_encoding is Integer) {
        Err(ProfileField::Encoding)
    } else if p.sample_rate_hz != 16000 {
        Err(ProfileField::SampleRate)
    } else if p.bits_per_sample != 16 {
        Err(ProfileField::BitsPerSample)
    } else {
        Ok(())
    }
}

/// Accepts exactly the required profile; a deviation is a fatal format
/// error naming the first offending field.
pub fn validate_profile(p: &AudioProfile) -> (r: Result<(), DecodeError>)
    ensures
        r is Ok <==> *p == required_profile(),
        match spec_validate_profile(*p) {
            Ok(()) => r is Ok,
            Err(f) => r matches Err(e) && e matches DecodeError::Format(g) && g == f,
        },
{
    if p.channel_count != 1 {
        Err(DecodeError::Format(ProfileField::Channels))
    } else if !matches!(p.sample_encoding, SampleEncoding::Integer) {
        Err(DecodeError::Format(ProfileField::Encoding))
    } else if p.sample_rate_hz != 16000 {
        Err(DecodeError::Format(ProfileField::SampleRate))
    } else if p.bits_per_sample != 16 {
        Err(DecodeError::Format(ProfileField::BitsPerSample))
    } else {
        Ok(())
    }
}

#[verifier::external_type_specification]
#[verifier::external_body]
#[verifier::reject_recursive_types(T)]
pub struct ExCursor<T>(std::io::Cursor<T>);

#[verifier::external_type_specification]
#[verifier::external_body]
#[verifier::reject_recursive_types(R)]
pub struct ExWavReader<R>(hound::WavReader<R>);

#[verifier::external_type_specification]
#[verifier::external_body]
#[verifier::reject_recursive_types(R)]
#[verifier::reject_recursive_types(S)]
pub struct ExWavIntoSamples<R, S>(hound::WavIntoSamples<R, S>);

/// The profile that the container reader parses out of a byte buffer's
/// header, as (channel count, sample rate, bits per sample, is-integer),
/// or nothing when the reader rejects the header. A function of the bytes
/// alone.
pub uninterp spec fn wav_header_profile(bytes: Seq<u8>) -> Option<(u16, u32, u16, bool)>;

/// The profile a constructed container reader reports, in the same shape.
pub uninterp spec fn reader_profile(
    r: hound::WavReader<std::io::Cursor<Vec<u8>>>,
) -> (u16, u32, u16, bool);

/// What an in-memory byte buffer's sample stream holds, past the header:
/// the 16-bit samples its reader will decode before the first terminal read
/// outcome, and whether that terminal outcome is benign - the declared end
/// of the data, or the truncation I/O error raised when too few bytes
/// remain for one more whole sample. A function of the bytes alone.
pub uninterp spec fn wav_stream_content(bytes: Seq<u8>) -> (Seq<i16>, bool);

/// The same content, as a constructed reader will deliver it.
pub uninterp spec fn reader_content(
    r: hound::WavReader<std::io::Cursor<Vec<u8>>>,
) -> (Seq<i16>, bool);

/// The same content, from a sample iterator state on: the samples it will
/// still yield before its first terminal outcome, and whether that terminal
/// outcome is benign.
pub uninterp spec fn iter_content(
    it: hound::WavIntoSamples<std::io::Cursor<Vec<u8>>, i16>,
) -> (Seq<i16>, bool);

/// The reader's reported profile as an [`AudioProfile`].
pub open spec fn profile_of_reader(r: hound::WavReader<std::io::Cursor<Vec<u8>>>) -> AudioProfile {
    profile_of_parts(reader_profile(r))
}

/// Packs the plain profile parts into an [`AudioProfile`].
pub open spec fn profile_of_parts(t: (u16, u32, u16, bool)) -> AudioProfile {
    AudioProfile {
        channel_count: t.0,
        sample_encoding: if t.3 {
            SampleEncoding::Integer
        } else {
            SampleEncoding::Float
        },
        sample_rate_hz: t.1,
        bits_per_sample: t.2,
    }
}

/// Relies on hound::WavReader::new: parses the container header from an
/// in-memory byte buffer; acceptance, the parsed profile and the sample
/// stream behind the header depend on the bytes alone. On rejection the
/// payload is the error's display text.
#[verifier::external_body]
fn open_reader(bytes: Vec<u8>) -> (r: Result<
    hound::WavReader<std::io::Cursor<Vec<u8>>>,
    String,
>)
    ensures
        r is Ok <==> wav_header_profile(bytes@) is Some,
        (r matches Ok(reader) ==> wav_header_profile(bytes@) matches Some(t) && reader_profile(
            reader,
        ) == t),
        (r matches Ok(reader) ==> reader_content(reader) == wav_stream_content(bytes@)),
{
    hound::WavReader::new(std::io::Cursor::new(bytes)).map_err(|e| format!("{}", e))
}

/// Relies on hound::WavReader::spec: reports the profile parsed from the
/// header, a function of the reader value alone.
#[verifier::external_body]
fn read_profile(r: &hound::WavReader<std::io::Cursor<Vec<u8>>>) -> (p: AudioProfile)
    ensures
        p == profile_of_reader(*r),
{
    let s = r.spec();
    AudioProfile {
        channel_count: s.channels,
        sample_encoding: match s.sample_format {
            hound::SampleFormat::Int => SampleEncoding::Integer,
            hound::SampleFormat::Float => SampleEncoding::Float,
        },
        sample_rate_hz: s.sample_rate,
        bits_per_sample: s.bits_per_sample,
    }
}

/// Relies on hound::WavReader::into_samples: turns the reader into its
/// 16-bit sample iterator, leaving the samples it will yield untouched.
#[verifier::external_body]
fn into_sample_iter(r: hound::WavReader<std::io::Cursor<Vec<u8>>>) -> (it: hound::WavIntoSamples<
    std::io::Cursor<Vec<u8>>,
    i16,
>)
    ensures
        iter_content(it) == reader_content(r),
{
    r.into_samples::<i16>()
}

/// Relies on the Iterator impl of hound::WavIntoSamples: yields one sample,
/// the end of the declared data, or the failure hound reports, an I/O
/// failure carrying the error's display text. A yielded sample is the head
/// of the iterator's remaining content; every other outcome is the terminal
/// one, benign exactly for the declared end or the truncation I/O error.
#[verifier::external_body]
fn next_read_event(it: &mut hound::WavIntoSamples<std::io::Cursor<Vec<u8>>, i16>) -> (ev: ReadEvent)
    ensures
        match ev {
            ReadEvent::Sample(v) => {
                &&& iter_content(*old(it)).0 == seq![v] + iter_content(*final(it)).0
                &&& iter_content(*old(it)).1 == iter_content(*final(it)).1
            },
            ReadEvent::End => {
                &&& iter_content(*old(it)).0 == Seq::<i16>::empty()
                &&& iter_content(*old(it)).1
            },
            ReadEvent::IoFailed(m) => {
                &&& iter_content(*old(it)).0 == Seq::<i16>::empty()
                &&& (iter_content(*old(it)).1 <==> m@ == truncation_message())
            },
            _ => {
                &&& iter_content(*old(it)).0 == Seq::<i16>::empty()
                &&& !iter_content(*old(it)).1
            },
        },
{
    match it.next() {
        None => ReadEvent::End,
        Some(Ok(s)) => ReadEvent::Sample(s),
        Some(Err(hound::Error::IoError(e))) => ReadEvent::IoFailed(format!("{}", e)),
        Some(Err(hound::Error::FormatError(m))) => ReadEvent::FormatFailed(m.to_string()),
        Some(Err(hound::Error::TooWide)) => ReadEvent::TooWide,
        Some(Err(hound::Error::UnfinishedSample)) => ReadEvent::UnfinishedSample,
        Some(Err(hound::Error::Unsupported)) => ReadEvent::Unsupported,
        Some(Err(hound::Error::InvalidSampleFormat)) => ReadEvent::InvalidSampleFormat,
    }
}

/// Validates the declared profile and drains the sample sequence, returning
/// the stream's samples exactly and in order: a truncated final sample ends
/// decoding cleanly with the buffer collected so far, so the call succeeds
/// exactly when the stream ends benignly; any other read failure aborts. A
/// profile deviation is reported as a format error naming the first
/// offending field, and a format error is reported only then.
pub fn parse_wav(reader: hound::WavReader<std::io::Cursor<Vec<u8>>>) -> (r: Result<
    Vec<i16>,
    DecodeError,
>)
    ensures
        match spec_validate_profile(profile_of_reader(reader)) {
            Err(f) => r matches Err(e) && e matches DecodeError::Format(g) && g == f,
            Ok(()) => {
                &&& r is Ok <==> reader_content(reader).1
                &&& (r matches Ok(v) ==> v@ == reader_content(reader).0)
            },
        },
        !(r matches Err(e) && e is InvalidHeader),
{
    let profile = read_profile(&reader);
    match validate_profile(&profile) {
        Err(e) => Err(e),
        Ok(()) => {
            let mut it = into_sample_iter(reader);
            let mut samples: Vec<i16> = Vec::new();
            loop
                invariant
                    spec_validate_profile(profile_of_reader(reader)) is Ok,
                    samples@ + iter_content(it).0 == reader_content(reader).0,
                    iter_content(it).1 == reader_content(reader).1,
                decreases iter_content(it).0.len(),
            {
                let ghost pre_tail = iter_content(it);
                let ev = next_read_event(&mut it);
                let ghost gev = ev;
                match classify_read_event(ev) {
                    DecodeStep::Append(s) => {
                        proof {
                            assert(gev matches ReadEvent::Sample(v) && v == s);
                            assert(samples@ + seq![s] + iter_content(it).0 =~= samples@ + (seq![s]
                                + iter_content(it).0));
                            assert(samples@.push(s) =~= samples@ + seq![s]);
                        }
                        samples.push(s);
                    },
                    DecodeStep::Finish => {
                        proof {
                            assert(pre_tail.0 == Seq::<i16>::empty());
                            assert(samples@ + pre_tail.0 =~= samples@);
                        }
                        return Ok(samples);
                    },
                    DecodeStep::Abort(e) => {
                        proof {
                            assert(!pre_tail.1);
                        }
                        return Err(e);
                    },
                }
            }
        },
    }
}

/// Opens a container held whole in memory: the header is parsed and the
/// reader is returned positioned at the samples; a rejected header is the
/// fatal invalid-header error with the reader's message.
pub fn open_wav(bytes: Vec<u8>) -> (r: Result<
    hound::WavReader<std::io::Cursor<Vec<u8>>>,
    DecodeError,
>)
    ensures
        r is Ok <==> wav_header_profile(bytes@) is Some,
        (r matches Ok(reader) ==> wav_header_profile(bytes@) matches Some(t) && reader_profile(
            reader,
        ) == t),
        (r matches Ok(reader) ==> reader_content(reader) == wav_stream_content(bytes@)),
        (r matches Err(e) ==> e is InvalidHeader),
{
    match open_reader(bytes) {
        Ok(reader) => Ok(reader),
        Err(msg) => Err(DecodeError::InvalidHeader(msg)),
    }
}

/// Decodes a whole in-memory container: validates the header and the
/// declared profile, then collects the samples the stream holds, exactly
/// and in order, succeeding exactly when the stream ends benignly - at the
/// declared end of the data, or at a truncated final sample.
pub fn decode_wav_bytes(bytes: Vec<u8>) -> (r: Result<Vec<i16>, DecodeError>)
    ensures
        (r matches Err(e) && e is InvalidHeader) <==> wav_header_profile(bytes@) is None,
        (wav_header_profile(bytes@) matches Some(t) ==> match spec_validate_profile(
            profile_of_parts(t),
        ) {
            Err(f) => r matches Err(e) && e matches DecodeError::Format(g) && g == f,
            Ok(()) => {
                &&& r is Ok <==> wav_stream_content(bytes@).1
                &&& (r matches Ok(v) ==> v@ == wav_stream_content(bytes@).0)
            },
        }),
{
    match open_wav(bytes) {
        Ok(reader) => parse_wav(reader),
        Err(e) => Err(e),
    }
}

} // verus!
