//! The file-write tool: a bounded write under the root, decoding a
//! base64 payload, with optional POSIX mode bits parsed from an octal
//! string.

use vstd::prelude::*;
use crate::b64::{b64_decode_of, b64_decode};
use crate::config::Config;
use crate::errors::AppError;
use crate::security::opt_view;
use crate::text::rfind_char;
use crate::tools::{has_component, resolve_for_write, Resolved};

verus! {

/// The write tool: holds the jail root the paths are confined to.
pub struct FsWriteTool {
    pub root: String,
}

/// What a successful write returns.
pub struct FsWriteResult {
    pub bytes_written: usize,
}

/// Everything an admitted write needs: the confined destination, the
/// decoded bytes, and the mode bits if a valid octal string gave any.
pub struct WritePlan {
    pub dest: Resolved,
    pub bytes: Vec<u8>,
    pub mode: Option<u32>,
}

impl WritePlan {
    /// The directory that must exist before the write: everything of
    /// the destination up to its last separator.
    pub fn full_parent(&self) -> (r: Option<String>)
        ensures
            match r {
                Some(p) => exists|i: int|
                    0 <= i < self.dest.full@.len() && #[trigger] self.dest.full@[i] == '/' && (
                    forall|j: int|
                        i < j < self.dest.full@.len() ==> self.dest.full@[j] != '/') && (if i
                        == 0 {
                        p@ == "/"@
                    } else {
                        p@ == self.dest.full@.subrange(0, i)
                    }),
                None => !self.dest.full@.contains('/'),
            },
    {
        let full = self.dest.full.as_str();
        match rfind_char(full, '/') {
            Some(i) => {
                if i == 0 {
                    Some(String::from_str("/"))
                } else {
                    Some(String::from_str(full.substring_char(0, i)))
                }
            },
            None => None,
        }
    }
}

/// An octal digit.
pub open spec fn octal_digit(c: char) -> bool {
    48 <= c as u32 && c as u32 <= 55
}

/// The value of one digit character.
pub open spec fn dval(c: char) -> int {
    c as u32 - 48
}

/// The value of a run of octal digits.
pub open spec fn octal_val(s: Seq<char>) -> int
    decreases s.len(),
{
    if s.len() == 0 {
        0
    } else {
        octal_val(s.drop_last()) * 8 + dval(s.last())
    }
}

/// The number a nonempty all-digit octal string denotes, when it fits.
pub open spec fn octal_num(s: Seq<char>) -> Option<u32> {
    if s.len() > 0 && (forall|i: int| 0 <= i < s.len() ==> octal_digit(s[i])) && octal_val(s)
        <= u32::MAX {
        Some(octal_val(s) as u32)
    } else {
        None
    }
}

/// What parsing a mode string yields: an optional leading plus sign,
/// then octal digits, within `u32`.
pub open spec fn octal_of(s: Seq<char>) -> Option<u32> {
    if s.len() > 0 && s[0] == '+' {
        octal_num(s.subrange(1, s.len() as int))
    } else {
        octal_num(s)
    }
}

proof fn lemma_octal_val_nonneg(s: Seq<char>)
    requires
        forall|i: int| 0 <= i < s.len() ==> octal_digit(s[i]),
    ensures
        octal_val(s) >= 0,
    decreases s.len(),
{
    if s.len() > 0 {
        assert(octal_digit(s.last()));
        assert forall|i: int| 0 <= i < s.drop_last().len() implies octal_digit(
            s.drop_last()[i],
        ) by {
            assert(s.drop_last()[i] == s[i]);
        }
        lemma_octal_val_nonneg(s.drop_last());
        assert(dval(s.last()) >= 0);
    }
}

/// A prefix of an all-digit octal string never denotes more than the
/// whole string.
proof fn lemma_octal_prefix_le(s: Seq<char>, k: int)
    requires
        0 <= k <= s.len(),
        forall|i: int| 0 <= i < s.len() ==> octal_digit(s[i]),
    ensures
        octal_val(s.subrange(0, k)) <= octal_val(s),
    decreases s.len() - k,
{
    if k < s.len() {
        lemma_octal_prefix_le(s, k + 1);
        assert(s.subrange(0, k + 1).drop_last() =~= s.subrange(0, k));
        assert(s.subrange(0, k + 1).last() == s[k]);
        assert forall|i: int| 0 <= i < s.subrange(0, k).len() implies octal_digit(
            s.subrange(0, k)[i],
        ) by {
            assert(s.subrange(0, k)[i] == s[i]);
        }
        lemma_octal_val_nonneg(s.subrange(0, k));
        assert(octal_digit(s[k]));
        assert(dval(s[k]) >= 0);
        assert(octal_val(s.subrange(0, k + 1)) == octal_val(s.subrange(0, k)) * 8 + dval(s[k]));
        assert(octal_val(s.subrange(0, k + 1)) >= octal_val(s.subrange(0, k)));
    } else {
        assert(s.subrange(0, k) =~= s);
    }
}

/// Parse a mode string as octal, exactly as `octal_of` says.
pub fn parse_octal(s: &str) -> (r: Option<u32>)
    ensures
        r == octal_of(s@),
{
    let len = s.unicode_len();
    if len == 0 {
        return None;
    }
    let start: usize = if s.get_char(0) == '+' {
        1
    } else {
        0
    };
    let ghost digits = s@.subrange(start as int, s@.len() as int);
    if len == start {
        proof {
            assert(digits.len() == 0);
        }
        return None;
    }
    let mut acc: u32 = 0;
    let mut i: usize = start;
    while i < len
        invariant
            start <= i <= len,
            1 <= len == s@.len(),
            start <= 1,
            start == 1 ==> s@[0] == '+',
            start == 0 ==> s@[0] != '+',
            start < len,
            digits == s@.subrange(start as int, s@.len() as int),
            forall|j: int| start <= j < i ==> octal_digit(s@[j]),
            acc == octal_val(s@.subrange(start as int, i as int)),
        decreases len - i,
    {
        let c = s.get_char(i);
        let cu = c as u32;
        if !(48 <= cu && cu <= 55) {
            proof {
                assert(digits[i - start] == s@[i as int]);
                assert(!octal_digit(s@[i as int]));
                assert(!octal_digit(digits[i - start]));
                if start == 0 {
                    assert(digits =~= s@);
                }
            }
            return None;
        }
        let d = cu - 48;
        let next64 = (acc as u64) * 8 + (d as u64);
        proof {
            assert(s@.subrange(start as int, i as int + 1).drop_last() =~= s@.subrange(
                start as int,
                i as int,
            ));
            assert(s@.subrange(start as int, i as int + 1).last() == s@[i as int]);
        }
        if next64 > 0xFFFF_FFFFu64 {
            proof {
                assert(octal_val(s@.subrange(start as int, i as int + 1)) == acc * 8 + dval(
                    s@[i as int],
                ));
                if forall|j: int| 0 <= j < digits.len() ==> octal_digit(digits[j]) {
                    assert(digits.subrange(0, i as int + 1 - start) =~= s@.subrange(
                        start as int,
                        i as int + 1,
                    ));
                    lemma_octal_prefix_le(digits, i as int + 1 - start);
                    assert(octal_val(digits) > u32::MAX);
                }
                if start == 0 {
                    assert(digits =~= s@);
                }
            }
            return None;
        }
        acc = acc * 8 + d;
        i = i + 1;
    }
    proof {
        assert(digits =~= s@.subrange(start as int, i as int));
        assert forall|j: int| 0 <= j < digits.len() implies octal_digit(digits[j]) by {
            assert(digits[j] == s@[j + start]);
            assert(octal_digit(s@[j + start]));
        }
        assert(octal_val(digits) == acc);
        if start == 0 {
            assert(digits =~= s@);
        }
    }
    Some(acc)
}

impl FsWriteTool {
    /// Build the tool over the configured root.
    pub fn new(cfg: &Config) -> (r: Self)
        ensures
            r.root@ == cfg.root.root_dir@,
    {
        FsWriteTool { root: cfg.root.root_dir.clone() }
    }

    /// Decide the whole write: confine the path on the write side,
    /// decode the payload, parse the mode. The stored bytes are
    /// exactly what the payload decodes to.
    pub fn prepare(&self, path: &str, content_b64: &str, mode: Option<&str>) -> (r: Result<
        WritePlan,
        AppError,
    >)
        ensures
            r is Ok ==> r->Ok_0.dest.wf(),
            r is Ok ==> !has_component(r->Ok_0.dest.full@, ".."@),
            r is Ok ==> b64_decode_of(content_b64@) == Some(r->Ok_0.bytes@),
            r is Ok ==> r->Ok_0.mode == match opt_view(mode) {
                Some(m) => octal_of(m),
                None => None::<u32>,
            },
            r is Err ==> (r->Err_0 is PathOutsideRoot || (r->Err_0 matches AppError::ToolError(m)
                && m@ == "invalid base64"@)),
            (r matches Err(AppError::ToolError(_))) ==> b64_decode_of(content_b64@) is None,
            b64_decode_of(content_b64@) is None ==> r is Err,
    {
        let dest = match resolve_for_write(self.root.as_str(), path) {
            Ok(d) => d,
            Err(_) => {
                return Err(AppError::PathOutsideRoot);
            },
        };
        let bytes = match b64_decode(content_b64) {
            Some(b) => b,
            None => {
                return Err(AppError::ToolError(String::from_str("invalid base64")));
            },
        };
        let parsed_mode = match mode {
            Some(m) => parse_octal(m),
            None => None,
        };
        Ok(WritePlan { dest, bytes, mode: parsed_mode })
    }

    /// Package a completed write.
    pub fn finish(bytes_written: usize) -> (r: FsWriteResult)
        ensures
            r.bytes_written == bytes_written,
    {
        FsWriteResult { bytes_written }
    }
}

} // verus!
