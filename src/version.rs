use vstd::prelude::*;
use vstd::string::StringSliceAdditionalSpecFns;
use vstd::utf8::*;

use crate::error::ToolError;
use crate::utf8::decode;

verus! {

broadcast use group_utf8_lib;

/// The version the compiler reports, e.g. `1.12.0`.
#[derive(Debug)]
pub struct Version {
    version: String,
}

impl View for Version {
    type V = Seq<char>;

    closed spec fn view(&self) -> Seq<char> {
        self.version@
    }
}

impl Version {
    /// The version text.
    pub fn version(&self) -> (r: &str)
        ensures
            r@ == self@,
    {
        self.version.as_str()
    }
}

/// Index of the first `\n` in `b`, or its length when there is none.
pub open spec fn line_end(b: Seq<u8>) -> int
    decreases b.len(),
{
    if b.len() == 0 {
        0
    } else if b[0] == 10u8 {
        0
    } else {
        1 + line_end(b.drop_first())
    }
}

/// The first line of `b` without its line ending (`\n` or `\r\n`).
pub open spec fn first_line(b: Seq<u8>) -> Seq<u8> {
    let e = line_end(b);
    if e < b.len() && e > 0 && b[e - 1] == 13u8 {
        b.subrange(0, e - 1)
    } else {
        b.subrange(0, e)
    }
}

/// `flatc version `, what the first line of the version query starts with.
pub open spec fn version_prefix() -> Seq<u8> {
    seq![102u8, 108u8, 97u8, 116u8, 99u8, 32u8, 118u8, 101u8, 114u8, 115u8, 105u8, 111u8, 110u8, 32u8]
}

/// An ASCII decimal digit.
pub open spec fn is_digit(c: u8) -> bool {
    48u8 <= c <= 57u8
}

/// The bytes of the version reported by output `out` of the version query, or why
/// there is none.
pub open spec fn reported_version(out: Seq<u8>) -> Result<Seq<u8>, ToolError> {
    let line = first_line(out);
    let n = version_prefix().len();
    if !valid_utf8(out) {
        Err(ToolError::OutputNotUtf8)
    } else if out.len() == 0 {
        Err(ToolError::OutputEmpty)
    } else if line.len() < n || line.subrange(0, n as int) != version_prefix() {
        Err(ToolError::MissingPrefix)
    } else if line.len() == n {
        Err(ToolError::VersionEmpty)
    } else if !is_digit(line[n as int]) {
        Err(ToolError::VersionNotDigit)
    } else {
        Ok(line.subrange(n as int, line.len() as int))
    }
}

proof fn lemma_line_end(b: Seq<u8>, i: int)
    requires
        0 <= i <= b.len(),
        forall|j: int| 0 <= j < i ==> b[j] != 10u8,
        i == b.len() || b[i] == 10u8,
    ensures
        line_end(b) == i,
    decreases i,
{
    if i > 0 {
        let t = b.drop_first();
        assert forall|j: int| 0 <= j < i - 1 implies t[j] != 10u8 by {
            assert(t[j] == b[j + 1]);
        }
        lemma_line_end(t, i - 1);
    }
}

/// Reads the version from the output of `flatc --version`.
///
/// The output must be UTF-8, its first line must start with `flatc version `, and
/// the next character must be a decimal digit; the version is the rest of that line.
pub fn parse_version(out: &Vec<u8>) -> (r: Result<Version, ToolError>)
    ensures
        match r {
            Ok(v) => reported_version(out@) == Ok::<Seq<u8>, ToolError>(encode_utf8(v@)),
            Err(e) => reported_version(out@) == Err::<Seq<u8>, ToolError>(e),
        },
{
    let text = match decode(out.clone()) {
        Some(t) => t,
        None => {
            return Err(ToolError::OutputNotUtf8);
        },
    };
    if out.len() == 0 {
        return Err(ToolError::OutputEmpty);
    }
    let mut e: usize = 0;
    while e < out.len() && out[e] != 10u8
        invariant
            e <= out@.len(),
            forall|j: int| 0 <= j < e ==> out@[j] != 10u8,
        decreases out@.len() - e,
    {
        e = e + 1;
    }
    proof {
        lemma_line_end(out@, e as int);
    }
    let end: usize = if e < out.len() && e > 0 && out[e - 1] == 13u8 {
        e - 1
    } else {
        e
    };
    let ghost line = first_line(out@);
    assert(line =~= out@.subrange(0, end as int));

    let prefix: [u8; 14] = [102u8, 108u8, 97u8, 116u8, 99u8, 32u8, 118u8, 101u8, 114u8, 115u8, 105u8, 111u8, 110u8, 32u8];
    assert(prefix@ =~= version_prefix());
    if end < 14 {
        return Err(ToolError::MissingPrefix);
    }
    let mut k: usize = 0;
    while k < 14
        invariant
            k <= 14,
            end >= 14,
            end <= out@.len(),
            prefix@ == version_prefix(),
            line == out@.subrange(0, end as int),
            line == first_line(out@),
            valid_utf8(out@),
            out@.len() > 0,
            forall|j: int| 0 <= j < k ==> out@[j] == prefix@[j],
        decreases 14 - k,
    {
        if out[k] != prefix[k] {
            assert(line.subrange(0, 14)[k as int] != version_prefix()[k as int]);
            return Err(ToolError::MissingPrefix);
        }
        k = k + 1;
    }
    assert(line.subrange(0, 14) =~= version_prefix());
    if end == 14 {
        return Err(ToolError::VersionEmpty);
    }
    if !(48u8 <= out[14] && out[14] <= 57u8) {
        return Err(ToolError::VersionNotDigit);
    }

    let ghost b = out@;
    let s = text.as_str();
    assert(s.spec_bytes() == b);
    proof {
        is_char_boundary_iff_not_is_continuation_byte(b, 14);
    }
    let (_, rest) = s.split_at(14);
    let ghost rb = b.subrange(14, b.len() as int);
    assert(rest.spec_bytes() =~= rb);
    assert(valid_utf8(rb));
    let cut: usize = end - 14;
    if cut < rest.len() {
        assert(rb[cut as int] == b[end as int]);
        proof {
            is_char_boundary_iff_not_is_continuation_byte(rb, cut as int);
        }
    } else {
        proof {
            is_char_boundary_start_end_of_seq(rb);
        }
    }
    let (found, _) = rest.split_at(cut);
    assert(found.spec_bytes() =~= line.subrange(14, line.len() as int));
    let version = found.to_owned();
    Ok(Version { version })
}

} // verus!
