//! What the pipeline reads out of the toolchain's self-report: the
//! host target triple, taken from the line with the fixed field prefix.

use vstd::prelude::*;
use crate::text::{find_char_from, first_at, lemma_first_at_bounds, str_eq};

verus! {

/// Whether a line carries the host field.
pub open spec fn is_host_line(l: Seq<char>) -> bool {
    l.len() >= 6 && l.take(6) == "host: "@
}

/// The host triple found at or after `from`: the remainder of the
/// first line carrying the host field, if any line does.
pub open spec fn spec_host_from(s: Seq<char>, from: int) -> Option<Seq<char>>
    decreases s.len() - from,
    via spec_host_from_decreases
{
    if !(0 <= from <= s.len()) {
        None
    } else {
        let nl = first_at(s, from, '\n');
        let line = s.subrange(from, nl);
        if is_host_line(line) {
            Some(line.skip(6))
        } else if nl >= s.len() {
            None
        } else {
            spec_host_from(s, nl + 1)
        }
    }
}

#[via_fn]
proof fn spec_host_from_decreases(s: Seq<char>, from: int) {
    if 0 <= from <= s.len() {
        lemma_first_at_bounds(s, from, '\n');
    }
}

/// The host triple the self-report names, if any.
pub open spec fn spec_host_triple(s: Seq<char>) -> Option<Seq<char>> {
    spec_host_from(s, 0)
}

/// Extracts the host target triple from the toolchain's self-report:
/// the first line beginning `host: `, with that prefix removed. `None`
/// when no line carries the field.
pub fn parse_host_triple(out: &str) -> (r: Option<String>)
    ensures
        match r {
            Some(h) => spec_host_triple(out@) == Some(h@),
            None => spec_host_triple(out@) is None,
        },
{
    let n = out.unicode_len();
    let mut pos: usize = 0;
    loop
        invariant
            0 <= pos <= n,
            n == out@.len(),
            spec_host_from(out@, pos as int) == spec_host_triple(out@),
        decreases n - pos,
    {
        let nl = find_char_from(out, pos, '\n');
        proof {
            lemma_first_at_bounds(out@, pos as int, '\n');
        }
        let ghost line = out@.subrange(pos as int, nl as int);
        if nl - pos >= 6 {
            let prefix = out.substring_char(pos, pos + 6);
            if str_eq(prefix, "host: ") {
                let host = out.substring_char(pos + 6, nl);
                proof {
                    assert(line.take(6) =~= out@.subrange(pos as int, pos + 6 as int));
                    assert(is_host_line(line));
                    assert(line.skip(6) =~= out@.subrange(pos + 6 as int, nl as int));
                }
                return Some(String::from_str(host));
            }
            proof {
                assert(line.take(6) =~= out@.subrange(pos as int, pos + 6 as int));
                assert(!is_host_line(line));
            }
        }
        proof {
            if line.len() >= 6 {
                assert(line.take(6) =~= out@.subrange(pos as int, pos + 6 as int));
            }
            assert(!is_host_line(line));
        }
        if nl >= n {
            return None;
        }
        pos = nl + 1;
    }
}

} // verus!
