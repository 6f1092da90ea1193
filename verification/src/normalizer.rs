use vstd::prelude::*;

verus! {

/// First absolute offset past the fixed-layout header region: sentinel
/// checking and patching never look beyond it.
pub const HEADER_REGION_END: u8 = 78;

/// Absolute header offsets holding the byte of a 4-byte length field that
/// gets patched from the 0xFF placeholder down to 0xF0, making the declared
/// length finite.
pub open spec fn is_length_patch_offset(off: int) -> bool {
    off == 4 || off == 74
}

/// Absolute header offsets holding the remaining three bytes of each length
/// field: required to be 0xFF, passed through unchanged.
pub open spec fn is_length_rest_offset(off: int) -> bool {
    off == 5 || off == 6 || off == 7 || off == 75 || off == 76 || off == 77
}

/// Absolute header offsets at which the unbounded-length producer is known
/// to emit the 0xFF placeholder.
pub open spec fn is_sentinel_offset(off: int) -> bool {
    is_length_patch_offset(off) || is_length_rest_offset(off)
}

/// Every sentinel offset covered by a buffer whose first byte sits at
/// absolute offset `pos` holds the 0xFF placeholder.
pub open spec fn sentinels_hold(pos: int, b: Seq<u8>) -> bool {
    forall|p: int| 0 <= p < b.len() && is_sentinel_offset(pos + p) ==> b[p] == 0xFF
}

/// The buffer with the covered length-field patch bytes replaced by 0xF0 and
/// every other byte unchanged.
pub open spec fn patched_bytes(pos: int, b: Seq<u8>) -> Seq<u8> {
    Seq::new(
        b.len(),
        |p: int|
            if is_length_patch_offset(pos + p) {
                0xF0u8
            } else {
                b[p]
            },
    )
}

/// Fatal: a header byte did not hold the expected 0xFF placeholder, so the
/// fixed header-layout assumption does not hold for this stream.
#[derive(Clone, Copy, Debug, PartialEq, Eq, Structural)]
pub struct StreamLayoutError {
    /// The absolute stream offset of the violating byte.
    pub offset: u8,
    /// The byte found there instead of 0xFF.
    pub found: u8,
}

/// Rewrites the two fixed 4-byte length fields of the container header so
/// that an unbounded byte stream declares a very large but finite length,
/// leaving every payload byte untouched. The running byte counter keeps
/// header fields split across read boundaries aligned.
pub struct WavLengthPatcher {
    /// Count of bytes forwarded so far, capped once past the header region.
    pos: u8,
}

impl WavLengthPatcher {
    /// The absolute offset that the next forwarded byte maps to (capped).
    pub closed spec fn cursor(&self) -> int {
        self.pos as int
    }

    pub fn new() -> (r: Self)
        ensures
            r.cursor() == 0,
    {
        WavLengthPatcher { pos: 0 }
    }

    /// If the absolute offset `off` falls inside a buffer starting at
    /// absolute offset `base`, reports the byte there when it is not the
    /// 0xFF placeholder.
    fn probe(base: u8, buf: &Vec<u8>, off: u8) -> (r: Option<u8>)
        ensures
            match r {
                Some(b) => base <= off < base + buf@.len() && buf@[off - base] == b && b != 0xFF,
                None => base <= off < base + buf@.len() ==> buf@[off - base] == 0xFF,
            },
    {
        if off >= base {
            let idx: usize = (off - base) as usize;
            if idx < buf.len() {
                let b = buf[idx];
                if b != 0xFF {
                    return Some(b);
                }
            }
        }
        None
    }

    /// Processes one read's worth of bytes: requires every covered sentinel
    /// offset to hold the 0xFF placeholder (else rejects, leaving state and
    /// buffer unchanged), overwrites the covered length patch bytes with
    /// 0xF0, and advances the byte counter by the forwarded count, capped at
    /// the header region length.
    pub fn patch(&mut self, buf: &mut Vec<u8>) -> (r: Result<(), StreamLayoutError>)
        ensures
            match r {
                Ok(()) => {
                    &&& old(self).cursor() <= final(self).cursor()
                    &&& sentinels_hold(old(self).cursor(), old(buf)@)
                    &&& final(buf)@ == patched_bytes(old(self).cursor(), old(buf)@)
                    &&& final(self).cursor() == if old(self).cursor() < HEADER_REGION_END as int {
                        old(self).cursor() + if old(buf)@.len() < HEADER_REGION_END as int {
                            old(buf)@.len() as int
                        } else {
                            HEADER_REGION_END as int
                        }
                    } else {
                        old(self).cursor()
                    }
                },
                Err(e) => {
                    &&& !sentinels_hold(old(self).cursor(), old(buf)@)
                    &&& final(buf)@ == old(buf)@
                    &&& final(self).cursor() == old(self).cursor()
                    &&& is_sentinel_offset(e.offset as int)
                    &&& old(self).cursor() <= e.offset < old(self).cursor() + old(buf)@.len()
                    &&& old(buf)@[e.offset - old(self).cursor()] == e.found
                    &&& e.found != 0xFF
                    &&& forall|q: int|
                        old(self).cursor() <= q < e.offset && is_sentinel_offset(q) ==> old(
                            buf,
                        )@[q - old(self).cursor()] == 0xFF
                },
            },
    {
        if self.pos >= HEADER_REGION_END {
            proof {
                assert(buf@ =~= patched_bytes(self.cursor(), buf@));
            }
            return Ok(());
        }
        let base = self.pos;
        if let Some(b) = Self::probe(base, buf, 4) {
            return Err(StreamLayoutError { offset: 4, found: b });
        }
        if let Some(b) = Self::probe(base, buf, 5) {
            return Err(StreamLayoutError { offset: 5, found: b });
        }
        if let Some(b) = Self::probe(base, buf, 6) {
            return Err(StreamLayoutError { offset: 6, found: b });
        }
        if let Some(b) = Self::probe(base, buf, 7) {
            return Err(StreamLayoutError { offset: 7, found: b });
        }
        if let Some(b) = Self::probe(base, buf, 74) {
            return Err(StreamLayoutError { offset: 74, found: b });
        }
        if let Some(b) = Self::probe(base, buf, 75) {
            return Err(StreamLayoutError { offset: 75, found: b });
        }
        if let Some(b) = Self::probe(base, buf, 76) {
            return Err(StreamLayoutError { offset: 76, found: b });
        }
        if let Some(b) = Self::probe(base, buf, 77) {
            return Err(StreamLayoutError { offset: 77, found: b });
        }
        let ghost prepatch = buf@;
        if base <= 4 && ((4 - base) as usize) < buf.len() {
            buf.set((4 - base) as usize, 0xF0);
        }
        if base <= 74 && ((74 - base) as usize) < buf.len() {
            buf.set((74 - base) as usize, 0xF0);
        }
        proof {
            assert(buf@ =~= patched_bytes(base as int, prepatch));
        }
        let n = buf.len();
        let step: u8 = if n >= HEADER_REGION_END as usize {
            HEADER_REGION_END
        } else {
            n as u8
        };
        self.pos = base + step;
        Ok(())
    }
}

/// Law: a stream whose byte at absolute offset 4 is not the 0xFF
/// placeholder violates the sentinel layout and is rejected.
pub proof fn lemma_rejects_non_placeholder_at_4(b: Seq<u8>)
    requires
        b.len() > 4,
        b[4] != 0xFF,
    ensures
        !sentinels_hold(0, b),
{
    assert(is_sentinel_offset(0int + 4));
}

/// The 4-byte little-endian unsigned integer stored at offset `off`.
pub open spec fn le_u32_at(b: Seq<u8>, off: int) -> int {
    b[off] + 0x100 * b[off + 1] + 0x1_0000 * b[off + 2] + 0x100_0000 * b[off + 3]
}

/// Law: patching a whole header whose sentinel bytes all hold 0xFF yields
/// declared lengths that parse as finite positive 32-bit integers, and
/// leaves every byte outside the two patched positions - in particular the
/// payload past the header region - unchanged.
pub proof fn lemma_patched_header_lengths_finite(b: Seq<u8>)
    requires
        b.len() >= 78,
        sentinels_hold(0, b),
    ensures
        le_u32_at(patched_bytes(0, b), 4) == 0xFFFF_FFF0,
        le_u32_at(patched_bytes(0, b), 74) == 0xFFFF_FFF0,
        0 < 0xFFFF_FFF0 < 0x1_0000_0000,
        forall|i: int| 0 <= i < b.len() && i != 4 && i != 74 ==> patched_bytes(0, b)[i] == b[i],
{
    assert(b[5] == 0xFF && b[6] == 0xFF && b[7] == 0xFF) by {
        assert(is_sentinel_offset(0int + 5));
        assert(is_sentinel_offset(0int + 6));
        assert(is_sentinel_offset(0int + 7));
    }
    assert(b[75] == 0xFF && b[76] == 0xFF && b[77] == 0xFF) by {
        assert(is_sentinel_offset(0int + 75));
        assert(is_sentinel_offset(0int + 76));
        assert(is_sentinel_offset(0int + 77));
    }
}

} // verus!
