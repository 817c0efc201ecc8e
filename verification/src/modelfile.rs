//! Directive extraction from a declarative model file.
//!
//! A model file is a line-oriented text file whose lines have the form
//! `KEYWORD argument`. The one directive this crate consults is `FROM`,
//! matched case-insensitively at the start of a line; its argument names the
//! base model. Lines without a space separator are skipped, and only the
//! first matching line counts.
use vstd::prelude::*;

use crate::bytes::eq_ignore_ascii_case;
use crate::bytes::lower_byte;
use crate::bytes::to_lower;
use crate::bytes::trim_range;
use crate::bytes::trim_spec;

verus! {

/// The directive keyword `FROM`, as bytes.
pub open spec fn from_keyword() -> Seq<u8> {
    seq![70u8, 82u8, 79u8, 77u8]
}

/// `i` is the index of the first space in `line`.
pub open spec fn is_first_space(line: Seq<u8>, i: int) -> bool {
    &&& 0 <= i < line.len()
    &&& line[i] == 32
    &&& forall|j: int| 0 <= j < i ==> line[j] != 32
}

/// `line` contains a space separator.
pub open spec fn has_space(line: Seq<u8>) -> bool {
    exists|i: int| is_first_space(line, i)
}

/// The argument a single line contributes: `Some` of the trimmed remainder
/// when the part before the first space is `FROM` (case-insensitively),
/// `None` when the line has no separator or names another directive.
pub open spec fn directive_argument(line: Seq<u8>) -> Option<Seq<u8>> {
    if has_space(line) {
        let i = choose|i: int| is_first_space(line, i);
        if eq_ignore_ascii_case(line.subrange(0, i), from_keyword()) {
            Some(trim_spec(line.subrange(i + 1, line.len() as int)))
        } else {
            None
        }
    } else {
        None
    }
}

/// The argument of the first `FROM` line, scanning in file order.
pub open spec fn first_directive_argument(lines: Seq<Seq<u8>>) -> Option<Seq<u8>>
    decreases lines.len(),
{
    if lines.len() == 0 {
        None
    } else if directive_argument(lines[0]) is Some {
        directive_argument(lines[0])
    } else {
        first_directive_argument(lines.subrange(1, lines.len() as int))
    }
}

/// The views of a sequence of byte vectors.
pub open spec fn views_of(lines: Seq<Vec<u8>>) -> Seq<Seq<u8>> {
    Seq::new(lines.len(), |i: int| lines[i]@)
}

/// A line has at most one first space.
proof fn lemma_first_space_unique(line: Seq<u8>, i: int, j: int)
    requires
        is_first_space(line, i),
        is_first_space(line, j),
    ensures
        i == j,
{
    if i < j {
        assert(line[i] != 32);
    } else if j < i {
        assert(line[j] != 32);
    }
}

/// Index of the first space in a line, if any.
fn find_first_space(line: &Vec<u8>) -> (r: Option<usize>)
    ensures
        match r {
            Some(i) => is_first_space(line@, i as int),
            None => !has_space(line@),
        },
{
    let mut i: usize = 0;
    while i < line.len()
        invariant
            i <= line@.len(),
            forall|j: int| 0 <= j < i ==> line@[j] != 32,
        decreases line@.len() - i,
    {
        if line[i] == 32 {
            return Some(i);
        }
        i += 1;
    }
    None
}

/// Scans one line for the `FROM` directive and returns its trimmed argument.
pub fn directive_line_argument(line: &Vec<u8>) -> (r: Option<Vec<u8>>)
    ensures
        match r {
            Some(arg) => directive_argument(line@) == Some(arg@),
            None => directive_argument(line@) is None,
        },
{
    match find_first_space(line) {
        None => None,
        Some(i) => {
            proof {
                let w = choose|w: int| is_first_space(line@, w);
                lemma_first_space_unique(line@, w, i as int);
            }
            let ghost prefix = line@.subrange(0, i as int);
            if i != 4 {
                proof {
                    assert(prefix.len() != from_keyword().len());
                }
                return None;
            }
            let c0 = to_lower(line[0]) == 102;
            let c1 = to_lower(line[1]) == 114;
            let c2 = to_lower(line[2]) == 111;
            let c3 = to_lower(line[3]) == 109;
            proof {
                assert(prefix[0] == line@[0] && prefix[1] == line@[1] && prefix[2] == line@[2]
                    && prefix[3] == line@[3]);
                assert(from_keyword()[0] == 70 && from_keyword()[1] == 82 && from_keyword()[2]
                    == 79 && from_keyword()[3] == 77);
                assert(lower_byte(70u8) == 102 && lower_byte(82u8) == 114 && lower_byte(79u8) == 111
                    && lower_byte(77u8) == 109);
            }
            if c0 && c1 && c2 && c3 {
                proof {
                    assert forall|k: int| 0 <= k < 4 implies lower_byte(prefix[k]) == lower_byte(
                        from_keyword()[k],
                    ) by {
                        if k == 0 {
                        } else if k == 1 {
                        } else if k == 2 {
                        } else {
                        }
                    }
                    assert(eq_ignore_ascii_case(prefix, from_keyword()));
                }
                Some(trim_range(line, i + 1, line.len()))
            } else {
                proof {
                    if c0 {
                        if c1 {
                            if c2 {
                                assert(lower_byte(prefix[3]) != lower_byte(from_keyword()[3]));
                            } else {
                                assert(lower_byte(prefix[2]) != lower_byte(from_keyword()[2]));
                            }
                        } else {
                            assert(lower_byte(prefix[1]) != lower_byte(from_keyword()[1]));
                        }
                    } else {
                        assert(lower_byte(prefix[0]) != lower_byte(from_keyword()[0]));
                    }
                    assert(!eq_ignore_ascii_case(prefix, from_keyword()));
                }
                None
            }
        },
    }
}

/// Returns the argument of the first line whose keyword case-insensitively
/// equals `FROM`, or `None` when no such line exists. Lines with no
/// separator, or with another keyword, are skipped without aborting the scan.
pub fn base_model_from_lines(lines: &Vec<Vec<u8>>) -> (r: Option<Vec<u8>>)
    ensures
        match r {
            Some(m) => first_directive_argument(views_of(lines@)) == Some(m@),
            None => first_directive_argument(views_of(lines@)) is None,
        },
{
    let ghost vs = views_of(lines@);
    proof {
        assert(vs.subrange(0, vs.len() as int) =~= vs);
    }
    let mut idx: usize = 0;
    while idx < lines.len()
        invariant
            idx <= lines@.len(),
            vs == views_of(lines@),
            vs.len() == lines@.len(),
            first_directive_argument(vs) == first_directive_argument(
                vs.subrange(idx as int, vs.len() as int),
            ),
        decreases lines@.len() - idx,
    {
        let line = &lines[idx];
        let ghost suffix = vs.subrange(idx as int, vs.len() as int);
        proof {
            assert(suffix[0] == lines@[idx as int]@);
        }
        match directive_line_argument(line) {
            Some(arg) => {
                proof {
                    assert(first_directive_argument(suffix) == Some(arg@));
                }
                return Some(arg);
            },
            None => {
                proof {
                    assert(suffix.subrange(1, suffix.len() as int) =~= vs.subrange(
                        idx + 1,
                        vs.len() as int,
                    ));
                }
                idx += 1;
            },
        }
    }
    proof {
        assert(vs.subrange(vs.len() as int, vs.len() as int).len() == 0);
    }
    None
}

} // verus!
