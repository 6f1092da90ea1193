use vstd::prelude::*;
use vstd::string::StringExecFns;
use crate::timestamp::dec_digits;
use crate::timestamp::render_decimal_u64;
use crate::timestamp::segment_time_to_srt_time_string;
use crate::timestamp::spec_srt_clock;

verus! {

/// One timed span of transcribed text, as the engine delivers it:
/// start and end times in engine-native centiseconds, and the text.
#[derive(Debug)]
pub struct Segment {
    pub start_time: i64,
    pub end_time: i64,
    pub text: String,
}

/// The decimal rendering of a signed engine time, minus sign included.
pub open spec fn dec_i64(n: int) -> Seq<char> {
    if n < 0 {
        seq!['-'] + dec_digits((-n) as nat)
    } else {
        dec_digits(n as nat)
    }
}

/// One plain transcript line `[start - end]: text`, with the raw
/// (unformatted) integer times.
pub open spec fn spec_transcript_line(s: Segment) -> Seq<char> {
    seq!['['] + dec_i64(s.start_time as int) + seq![' ', '-', ' '] + dec_i64(s.end_time as int)
        + seq![']', ':', ' '] + s.text@
}

/// One SRT cue block under the 1-based sequence number `n`: the number, the
/// clock line, the text, and a trailing blank line.
pub open spec fn spec_srt_cue(n: nat, s: Segment) -> Seq<char> {
    dec_digits(n) + seq!['\n'] + spec_srt_clock(s.start_time as int) + seq![
        ' ',
        '-',
        '-',
        '>',
        ' ',
    ] + spec_srt_clock(s.end_time as int) + seq!['\n'] + s.text@ + seq!['\n', '\n']
}

/// The transcript file lines of a segment list, in engine order, each with
/// its trailing newline.
pub open spec fn spec_transcript_lines(segs: Seq<Segment>) -> Seq<Seq<char>> {
    Seq::new(segs.len(), |i: int| spec_transcript_line(segs[i]) + seq!['\n'])
}

/// The SRT cue blocks of a segment list, in engine order, numbered 1-based
/// by position.
pub open spec fn spec_srt_cues(segs: Seq<Segment>) -> Seq<Seq<char>> {
    Seq::new(segs.len(), |i: int| spec_srt_cue((i + 1) as nat, segs[i]))
}

/// Renders a signed engine time in decimal.
pub fn render_i64(n: i64) -> (s: String)
    ensures
        s@ == dec_i64(n as int),
{
    if n < 0 {
        let wide: i128 = -(n as i128);
        let mag: u64 = wide as u64;
        let mut s = "-".to_owned();
        let digits = render_decimal_u64(mag);
        s.append(digits.as_str());
        proof {
            reveal_strlit("-");
            assert(s@ =~= dec_i64(n as int));
        }
        s
    } else {
        render_decimal_u64(n as u64)
    }
}

/// Renders one segment as the plain transcript line `[start - end]: text`.
pub fn render_transcript_line(seg: &Segment) -> (r: String)
    ensures
        r@ == spec_transcript_line(*seg),
{
    let mut out = "[".to_owned();
    let start = render_i64(seg.start_time);
    out.append(start.as_str());
    out.append(" - ");
    let end = render_i64(seg.end_time);
    out.append(end.as_str());
    out.append("]: ");
    out.append(seg.text.as_str());
    proof {
        reveal_strlit("[");
        reveal_strlit(" - ");
        reveal_strlit("]: ");
        assert(out@ =~= spec_transcript_line(*seg));
    }
    out
}

/// Renders one segment as a whole SRT cue block; `position` is the
/// segment's 0-based place in the engine order.
pub fn render_srt_cue(position: usize, seg: &Segment) -> (r: String)
    requires
        position < usize::MAX,
    ensures
        r@ == spec_srt_cue((position + 1) as nat, *seg),
{
    let number: u64 = (position as u64) + 1;
    let mut out = render_decimal_u64(number);
    out.append("\n");
    let start_clock = segment_time_to_srt_time_string(seg.start_time);
    out.append(start_clock.as_str());
    out.append(" --> ");
    let end_clock = segment_time_to_srt_time_string(seg.end_time);
    out.append(end_clock.as_str());
    out.append("\n");
    out.append(seg.text.as_str());
    out.append("\n\n");
    proof {
        reveal_strlit("\n");
        reveal_strlit(" --> ");
        reveal_strlit("\n\n");
        assert(out@ =~= spec_srt_cue((position + 1) as nat, *seg));
    }
    out
}

/// Renders the plain timestamped transcript, one line per segment, in
/// engine order, with no reordering, filtering or deduplication.
pub fn assemble_transcript(segments: &Vec<Segment>) -> (r: Vec<String>)
    ensures
        r@.len() == segments@.len(),
        forall|i: int| 0 <= i < r@.len() ==> r@[i]@ == spec_transcript_lines(segments@)[i],
{
    let mut out: Vec<String> = Vec::new();
    let n = segments.len();
    let mut idx: usize = 0;
    while idx < n
        invariant
            n == segments@.len(),
            idx <= n,
            out@.len() == idx,
            forall|i: int| 0 <= i < idx ==> out@[i]@ == spec_transcript_lines(segments@)[i],
        decreases n - idx,
    {
        let mut line = render_transcript_line(&segments[idx]);
        line.append("\n");
        proof {
            reveal_strlit("\n");
            assert(line@ =~= spec_transcript_lines(segments@)[idx as int]);
        }
        out.push(line);
        idx += 1;
    }
    out
}

/// Renders the SRT document cue blocks, one per segment, in engine order,
/// numbered 1-based by position.
pub fn assemble_srt(segments: &Vec<Segment>) -> (r: Vec<String>)
    ensures
        r@.len() == segments@.len(),
        forall|i: int| 0 <= i < r@.len() ==> r@[i]@ == spec_srt_cues(segments@)[i],
{
    let mut out: Vec<String> = Vec::new();
    let n = segments.len();
    let mut idx: usize = 0;
    while idx < n
        invariant
            n == segments@.len(),
            idx <= n,
            out@.len() == idx,
            forall|i: int| 0 <= i < idx ==> out@[i]@ == spec_srt_cues(segments@)[i],
        decreases n - idx,
    {
        let cue = render_srt_cue(idx, &segments[idx]);
        out.push(cue);
        idx += 1;
    }
    out
}

/// Law: assembly is a pure rendering pass, so running it twice on the same
/// segment list yields character-identical transcript lines and cue blocks.
pub proof fn lemma_assembly_idempotent(
    segs: Seq<Segment>,
    lines_first: Seq<Seq<char>>,
    cues_first: Seq<Seq<char>>,
    lines_second: Seq<Seq<char>>,
    cues_second: Seq<Seq<char>>,
)
    requires
        lines_first == spec_transcript_lines(segs),
        cues_first == spec_srt_cues(segs),
        lines_second == spec_transcript_lines(segs),
        cues_second == spec_srt_cues(segs),
    ensures
        lines_first == lines_second,
        cues_first == cues_second,
{
}

} // verus!
