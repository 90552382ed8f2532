//! Recovers the produced image's identifier from the line-oriented output of
//! the external builder: the last line carrying the image-written marker is
//! scanned for the first whitespace-delimited token with the identifier
//! prefix, and the bare identifier behind the prefix is returned.

use vstd::prelude::*;
use vstd::string::StrSliceExecFns;
use vstd::string::StringExecFns;

use crate::errors::ProtocolFailure;
use crate::textops::contains_seq;
use crate::textops::has_prefix;
use crate::textops::spec_split;
use crate::textops::spec_trim;
use crate::textops::split_on;
use crate::textops::starts_with_str;
use crate::textops::str_contains;
use crate::textops::trim_str;

verus! {

/// The substring that marks the line reporting the written image.
pub open spec fn marker() -> Seq<char> {
    "writing image sha256:"@
}

/// The prefix that introduces an image identifier token.
pub open spec fn id_prefix() -> Seq<char> {
    "sha256:"@
}

/// The index of the last line that carries the marker, if any line does.
pub open spec fn last_marker_line(lines: Seq<Seq<char>>) -> Option<int>
    decreases lines.len(),
{
    if lines.len() == 0 {
        None
    } else if contains_seq(lines.last(), marker()) {
        Some(lines.len() - 1)
    } else {
        last_marker_line(lines.drop_last())
    }
}

/// The identifier carried by the first token whose trimmed form starts with
/// the identifier prefix, with that prefix stripped; `None` when no token
/// qualifies.
pub open spec fn first_id_token(tokens: Seq<Seq<char>>) -> Option<Seq<char>>
    decreases tokens.len(),
{
    if tokens.len() == 0 {
        None
    } else {
        let t = spec_trim(tokens[0]);
        if has_prefix(t, id_prefix()) {
            Some(t.skip(id_prefix().len() as int))
        } else {
            first_id_token(tokens.skip(1))
        }
    }
}

/// What extraction returns on the whole captured output: the identifier from
/// the last marker line, or the failure that rules it out.
pub open spec fn spec_extract(s: Seq<char>) -> Result<Seq<char>, ProtocolFailure> {
    let lines = spec_split(s, '\n');
    match last_marker_line(lines) {
        None => Err(ProtocolFailure::NoImage),
        Some(i) => match first_id_token(spec_split(lines[i], ' ')) {
            Some(h) => Ok(h),
            None => Err(ProtocolFailure::MalformedReference),
        },
    }
}

/// Whether the executable result agrees with the specified one.
pub open spec fn extract_agrees(
    r: Result<String, ProtocolFailure>,
    s: Result<Seq<char>, ProtocolFailure>,
) -> bool {
    match (r, s) {
        (Ok(h), Ok(sh)) => h@ == sh,
        (Err(e), Err(se)) => e == se,
        _ => false,
    }
}

/// The identifier token of one marker line, with the prefix stripped.
fn id_from_line(line: &str) -> (r: Option<String>)
    ensures
        r matches Some(h) ==> first_id_token(spec_split(line@, ' ')) == Some(h@),
        r is None ==> first_id_token(spec_split(line@, ' ')) is None,
{
    let tokens = split_on(line, ' ');
    let ghost tv = tokens.deep_view();
    proof {
        assert(tv.skip(0) =~~= tv);
    }
    let mut j: usize = 0;
    while j < tokens.len()
        invariant
            j <= tokens@.len(),
            tv == tokens.deep_view(),
            tv == spec_split(line@, ' '),
            tv.len() == tokens@.len(),
            first_id_token(tv) == first_id_token(tv.skip(j as int)),
        decreases tokens@.len() - j,
    {
        let t = trim_str(tokens[j].as_str());
        proof {
            assert(tv.skip(j as int)[0] == tv[j as int]);
            assert(tv[j as int] == tokens@[j as int]@);
        }
        if starts_with_str(t.as_str(), "sha256:") {
            proof {
                reveal_strlit("sha256:");
                assert(id_prefix().len() == 7);
                assert(has_prefix(spec_trim(tv.skip(j as int)[0]), id_prefix()));
            }
            let tlen = t.as_str().unicode_len();
            let h = String::from_str(t.as_str().substring_char(7, tlen));
            proof {
                assert(h@ =~= spec_trim(tv[j as int]).skip(id_prefix().len() as int));
                assert(first_id_token(tv.skip(j as int)) == Some(h@));
            }
            return Some(h);
        }
        proof {
            assert(tv.skip(j as int).skip(1) =~= tv.skip(j + 1));
        }
        j += 1;
    }
    proof {
        assert(tv.skip(tv.len() as int).len() == 0);
    }
    None
}

/// Scans the captured builder output and returns the bare image identifier
/// from the last marker line; fails when no line carries the marker, or when
/// the marker line carries no identifier token.
pub fn extract(output: &str) -> (r: Result<String, ProtocolFailure>)
    ensures
        extract_agrees(r, spec_extract(output@)),
{
    let lines = split_on(output, '\n');
    let ghost lv = lines.deep_view();
    proof {
        assert(lv.take(lv.len() as int) =~~= lv);
    }
    let mut i: usize = lines.len();
    while i > 0
        invariant
            i <= lines@.len(),
            lv == lines.deep_view(),
            lv == spec_split(output@, '\n'),
            lv.len() == lines@.len(),
            last_marker_line(lv) == last_marker_line(lv.take(i as int)),
        decreases i,
    {
        i -= 1;
        proof {
            assert(lv.take(i + 1).drop_last() =~~= lv.take(i as int));
            assert(lv.take(i + 1).last() == lv[i as int]);
        }
        if str_contains(lines[i].as_str(), "writing image sha256:") {
            proof {
                assert(lv[i as int] == lines@[i as int]@);
                assert(contains_seq(lv.take(i + 1).last(), marker()));
                assert(last_marker_line(lv) == Some(i as int));
            }
            let found = id_from_line(lines[i].as_str());
            match found {
                Some(h) => {
                    return Ok(h);
                },
                None => {
                    return Err(ProtocolFailure::MalformedReference);
                },
            }
        }
    }
    proof {
        assert(lv.take(0).len() == 0);
    }
    Err(ProtocolFailure::NoImage)
}

} // verus!
