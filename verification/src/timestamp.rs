use vstd::prelude::*;
use vstd::string::StringExecFns;

verus! {

/// The character for one decimal digit.
pub open spec fn digit_char(d: int) -> char {
    if d == 0 {
        '0'
    } else if d == 1 {
        '1'
    } else if d == 2 {
        '2'
    } else if d == 3 {
        '3'
    } else if d == 4 {
        '4'
    } else if d == 5 {
        '5'
    } else if d == 6 {
        '6'
    } else if d == 7 {
        '7'
    } else if d == 8 {
        '8'
    } else {
        '9'
    }
}

/// The decimal digits of `n`, most significant first, with no leading
/// zeros (zero itself is the single digit "0").
pub open spec fn dec_digits(n: nat) -> Seq<char>
    decreases n,
{
    if n < 10 {
        seq![digit_char(n as int)]
    } else {
        dec_digits(n / 10).push(digit_char((n % 10) as int))
    }
}

/// `n` in decimal, zero-padded to at least two digits.
pub open spec fn padded2(n: nat) -> Seq<char> {
    if n < 10 {
        seq!['0'] + dec_digits(n)
    } else {
        dec_digits(n)
    }
}

/// `n` in decimal, zero-padded to at least three digits.
pub open spec fn padded3(n: nat) -> Seq<char> {
    if n < 10 {
        seq!['0', '0'] + dec_digits(n)
    } else if n < 100 {
        seq!['0'] + dec_digits(n)
    } else {
        dec_digits(n)
    }
}

/// The SRT clock string `HH:MM:SS,mmm` of a centisecond time. A negative
/// time is clamped to zero; hours are not wrapped and may exceed two digits.
pub open spec fn spec_srt_clock(t: int) -> Seq<char> {
    let ms = (if t < 0 {
        0
    } else {
        t
    }) * 10;
    padded2((ms / 1000 / 60 / 60) as nat) + seq![':'] + padded2((ms / 1000 / 60 % 60) as nat)
        + seq![':'] + padded2((ms / 1000 % 60) as nat) + seq![','] + padded3((ms % 1000) as nat)
}

/// The one-character string for a decimal digit.
fn digit_str(d: u64) -> (s: &'static str)
    requires
        d < 10,
    ensures
        s@ == seq![digit_char(d as int)],
{
    let s: &'static str = if d == 0 {
        "0"
    } else if d == 1 {
        "1"
    } else if d == 2 {
        "2"
    } else if d == 3 {
        "3"
    } else if d == 4 {
        "4"
    } else if d == 5 {
        "5"
    } else if d == 6 {
        "6"
    } else if d == 7 {
        "7"
    } else if d == 8 {
        "8"
    } else {
        "9"
    };
    proof {
        reveal_strlit("0");
        reveal_strlit("1");
        reveal_strlit("2");
        reveal_strlit("3");
        reveal_strlit("4");
        reveal_strlit("5");
        reveal_strlit("6");
        reveal_strlit("7");
        reveal_strlit("8");
        reveal_strlit("9");
        assert(s@ =~= seq![digit_char(d as int)]);
    }
    s
}

/// Renders `n` in decimal with no padding.
pub fn render_decimal_u64(n: u64) -> (s: String)
    ensures
        s@ == dec_digits(n as nat),
    decreases n,
{
    if n < 10 {
        digit_str(n).to_owned()
    } else {
        proof {
            vstd::arithmetic::div_mod::lemma_div_decreases(n as int, 10);
        }
        let mut s = render_decimal_u64(n / 10);
        s.append(digit_str(n % 10));
        proof {
            assert(s@ =~= dec_digits(n as nat));
        }
        s
    }
}

/// Renders `n` in decimal, zero-padded to at least two digits.
pub fn render_padded2_u64(n: u64) -> (s: String)
    ensures
        s@ == padded2(n as nat),
{
    if n < 10 {
        let mut s = "0".to_owned();
        s.append(digit_str(n));
        proof {
            reveal_strlit("0");
            assert(s@ =~= padded2(n as nat));
        }
        s
    } else {
        render_decimal_u64(n)
    }
}

/// Renders `n` in decimal, zero-padded to at least three digits.
pub fn render_padded3_u64(n: u64) -> (s: String)
    ensures
        s@ == padded3(n as nat),
{
    if n < 10 {
        let mut s = "00".to_owned();
        s.append(digit_str(n));
        proof {
            reveal_strlit("00");
            assert(s@ =~= padded3(n as nat));
        }
        s
    } else if n < 100 {
        let mut s = "0".to_owned();
        let rest = render_decimal_u64(n);
        s.append(rest.as_str());
        proof {
            reveal_strlit("0");
            assert(s@ =~= padded3(n as nat));
        }
        s
    } else {
        render_decimal_u64(n)
    }
}

/// Converts one engine-native centisecond time into the zero-padded SRT
/// clock string `HH:MM:SS,mmm`. Negative times render as time zero.
pub fn segment_time_to_srt_time_string(time: i64) -> (r: String)
    ensures
        r@ == spec_srt_clock(time as int),
{
    let clamped: u64 = if time < 0 {
        0
    } else {
        time as u64
    };
    let total_ms: u128 = (clamped as u128) * 10;
    let millis: u64 = (total_ms % 1000) as u64;
    let total_seconds: u128 = total_ms / 1000;
    let seconds: u64 = (total_seconds % 60) as u64;
    let total_minutes: u128 = total_seconds / 60;
    let minutes: u64 = (total_minutes % 60) as u64;
    let hours_wide: u128 = total_minutes / 60;
    proof {
        vstd::arithmetic::div_mod::lemma_div_is_ordered(
            total_ms as int,
            0x7fff_ffff_ffff_ffffi64 as int * 10,
            1000,
        );
        vstd::arithmetic::div_mod::lemma_div_nonincreasing(total_seconds as int, 60);
        vstd::arithmetic::div_mod::lemma_div_nonincreasing(total_minutes as int, 60);
        assert(hours_wide <= total_seconds);
        assert(total_seconds <= 0xffff_ffff_ffff_ffffu64);
    }
    let hours: u64 = hours_wide as u64;
    let mut out = render_padded2_u64(hours);
    out.append(":");
    let minutes_str = render_padded2_u64(minutes);
    out.append(minutes_str.as_str());
    out.append(":");
    let seconds_str = render_padded2_u64(seconds);
    out.append(seconds_str.as_str());
    out.append(",");
    let millis_str = render_padded3_u64(millis);
    out.append(millis_str.as_str());
    proof {
        reveal_strlit(":");
        reveal_strlit(",");
        assert(out@ =~= spec_srt_clock(time as int));
    }
    out
}

/// Law: every negative centisecond time renders as the zero clock.
pub proof fn lemma_negative_time_renders_zero(t: int)
    requires
        t < 0,
    ensures
        spec_srt_clock(t) == "00:00:00,000"@,
{
    reveal_strlit("00:00:00,000");
    assert(spec_srt_clock(t) =~= "00:00:00,000"@);
}

} // verus!
