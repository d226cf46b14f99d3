//! Line patterns: a pattern is a list of parts, each of which matches in one
//! way only (a literal, or the longest run of a character class), so a
//! pattern matches at a position in at most one way. The match of a pattern
//! in a line is the one that starts leftmost.

use crate::text::{
    has_str_at,
    pieces,
    skip,
    slice_chars,
    span,
    starts_with_at,
    CharClass,
};
use vstd::prelude::*;

verus! {

/// One part of a line pattern.
#[derive(Clone, Copy, Debug)]
pub enum Part {
    /// The given text, literally.
    Lit(&'static str),
    /// One or more white-space characters.
    Spaces,
    /// One or more characters that are not white space; captured.
    Word,
    /// One or more digits, then optionally a full stop and further digits;
    /// captured.
    Number,
    /// One or more characters up to the end of the line; captured.
    Line,
}

impl Part {
    /// Whether what this part matches is handed out.
    pub open spec fn captures(self) -> bool {
        match self {
            Part::Lit(_) | Part::Spaces => false,
            Part::Word | Part::Number | Part::Line => true,
        }
    }

    pub fn is_capture(self) -> (b: bool)
        ensures
            b == self.captures(),
    {
        match self {
            Part::Lit(_) | Part::Spaces => false,
            Part::Word | Part::Number | Part::Line => true,
        }
    }

    /// Where this part ends if it matches at position `i`.
    pub open spec fn end(self, s: Seq<char>, i: int) -> Option<int> {
        if i < 0 || i > s.len() {
            None
        } else {
            match self {
                Part::Lit(l) => if starts_with_at(s, i, l@) {
                    Some(i + l@.len())
                } else {
                    None
                },
                Part::Spaces => if span(s, CharClass::Space, i) > i {
                    Some(span(s, CharClass::Space, i))
                } else {
                    None
                },
                Part::Word => if span(s, CharClass::NonSpace, i) > i {
                    Some(span(s, CharClass::NonSpace, i))
                } else {
                    None
                },
                Part::Line => if span(s, CharClass::Except('\n'), i) > i {
                    Some(span(s, CharClass::Except('\n'), i))
                } else {
                    None
                },
                Part::Number => {
                    let d = span(s, CharClass::Digit, i);
                    let p = if d < s.len() && s[d] == '.' {
                        d + 1
                    } else {
                        d
                    };
                    if d > i {
                        Some(span(s, CharClass::Digit, p))
                    } else {
                        None
                    }
                },
            }
        }
    }

    pub fn end_at(self, cs: &Vec<char>, i: usize) -> (r: Option<usize>)
        ensures
            match r {
                Some(e) => self.end(cs@, i as int) == Some(e as int) && i <= e <= cs.len(),
                None => self.end(cs@, i as int) is None,
            },
    {
        if i > cs.len() {
            return None;
        }
        match self {
            Part::Lit(l) => {
                if has_str_at(cs, i, l) {
                    let n: usize = l.unicode_len();
                    Some(i + n)
                } else {
                    None
                }
            },
            Part::Spaces => {
                let e: usize = skip(cs, CharClass::Space, i);
                if e > i {
                    Some(e)
                } else {
                    None
                }
            },
            Part::Word => {
                let e: usize = skip(cs, CharClass::NonSpace, i);
                if e > i {
                    Some(e)
                } else {
                    None
                }
            },
            Part::Line => {
                let e: usize = skip(cs, CharClass::Except('\n'), i);
                if e > i {
                    Some(e)
                } else {
                    None
                }
            },
            Part::Number => {
                let d: usize = skip(cs, CharClass::Digit, i);
                if d > i {
                    let p: usize = if d < cs.len() && cs[d] == '.' {
                        d + 1
                    } else {
                        d
                    };
                    Some(skip(cs, CharClass::Digit, p))
                } else {
                    None
                }
            },
        }
    }
}

/// `front` put before the captures of a match, where there is a match.
pub open spec fn prepend(front: Seq<Seq<char>>, rest: Option<Seq<Seq<char>>>) -> Option<
    Seq<Seq<char>>,
> {
    match rest {
        Some(r) => Some(front + r),
        None => None,
    }
}

/// The captures of the parts from the `k`-th on, matched one after another
/// from position `i`.
pub open spec fn match_from(s: Seq<char>, parts: Seq<Part>, k: int, i: int) -> Option<
    Seq<Seq<char>>,
>
    decreases parts.len() - k,
{
    if k < 0 || k >= parts.len() {
        Some(Seq::empty())
    } else {
        match parts[k].end(s, i) {
            None => None,
            Some(e) => prepend(
                if parts[k].captures() {
                    seq![s.subrange(i, e)]
                } else {
                    Seq::empty()
                },
                match_from(s, parts, k + 1, e),
            ),
        }
    }
}

/// The captures of the pattern matched at position `i`.
pub open spec fn match_at(s: Seq<char>, parts: Seq<Part>, i: int) -> Option<Seq<Seq<char>>> {
    match_from(s, parts, 0, i)
}

/// The captures of the leftmost match of the pattern that starts at or after
/// position `from`.
pub open spec fn find_match(s: Seq<char>, parts: Seq<Part>, from: int) -> Option<Seq<Seq<char>>>
    decreases s.len() - from + 1,
{
    if from < 0 || from > s.len() {
        None
    } else if match_at(s, parts, from) is Some {
        match_at(s, parts, from)
    } else {
        find_match(s, parts, from + 1)
    }
}

/// The captures of the pattern matched at position `i` of `cs`.
pub fn captures_at(cs: &Vec<char>, parts: &Vec<Part>, i: usize) -> (r: Option<Vec<Vec<char>>>)
    ensures
        match r {
            Some(caps) => match_at(cs@, parts@, i as int) == Some(pieces(caps@)),
            None => match_at(cs@, parts@, i as int) is None,
        },
{
    let mut caps: Vec<Vec<char>> = Vec::new();
    let mut at: usize = i;
    let mut k: usize = 0;
    proof {
        assert(pieces(caps@) =~= Seq::<Seq<char>>::empty());
        assert(prepend(pieces(caps@), match_from(cs@, parts@, 0, i as int)) =~= match_from(
            cs@,
            parts@,
            0,
            i as int,
        )) by {
            match match_from(cs@, parts@, 0, i as int) {
                Some(r) => {
                    assert(pieces(caps@) + r =~= r);
                },
                None => {},
            }
        }
    }
    while k < parts.len()
        invariant
            k <= parts.len(),
            at <= cs.len() || k == 0,
            match_at(cs@, parts@, i as int) == prepend(
                pieces(caps@),
                match_from(cs@, parts@, k as int, at as int),
            ),
        decreases parts.len() - k,
    {
        let part = parts[k];
        match part.end_at(cs, at) {
            None => {
                return None;
            },
            Some(e) => {
                let ghost before = pieces(caps@);
                let ghost rest = match_from(cs@, parts@, k + 1, e as int);
                if part.is_capture() {
                    let cap = slice_chars(cs, at, e);
                    caps.push(cap);
                    proof {
                        assert(pieces(caps@) =~= before.push(cs@.subrange(at as int, e as int)));
                        match rest {
                            Some(r) => {
                                assert(before + (seq![cs@.subrange(at as int, e as int)] + r)
                                    =~= pieces(caps@) + r);
                            },
                            None => {},
                        }
                    }
                } else {
                    proof {
                        match rest {
                            Some(r) => {
                                assert(before + (Seq::<Seq<char>>::empty() + r) =~= before + r);
                            },
                            None => {},
                        }
                    }
                }
                at = e;
                k = k + 1;
            },
        }
    }
    proof {
        assert(pieces(caps@) + Seq::<Seq<char>>::empty() =~= pieces(caps@));
    }
    Some(caps)
}

/// The captures of the leftmost match of the pattern in `cs`.
pub fn find_captures(cs: &Vec<char>, parts: &Vec<Part>) -> (r: Option<Vec<Vec<char>>>)
    ensures
        match r {
            Some(caps) => find_match(cs@, parts@, 0) == Some(pieces(caps@)),
            None => find_match(cs@, parts@, 0) is None,
        },
{
    let mut i: usize = 0;
    while i <= cs.len()
        invariant
            i <= cs.len() + 1,
            find_match(cs@, parts@, 0) == find_match(cs@, parts@, i as int),
        decreases cs.len() + 1 - i,
    {
        match captures_at(cs, parts, i) {
            Some(caps) => {
                return Some(caps);
            },
            None => {},
        }
        if i == cs.len() {
            proof {
                assert(find_match(cs@, parts@, i + 1) is None);
            }
            return None;
        }
        i = i + 1;
    }
    None
}

} // verus!
