//! The directive parser: raw literal tokens to a suffix list or a count.
//!
//! A directive is either a comma-separated list of literals, of which only
//! the string literals are kept (non-string entries are dropped silently,
//! by design, not rejected), or a single non-negative integer literal giving
//! a count. A missing, malformed or unrepresentable count is a hard parse
//! error; generation for that directive is abandoned.

use crate::name::bytes_clone;
use vstd::prelude::*;

verus! {

/// One already-lexed literal token of a directive's argument list. An
/// integer literal carries its non-negative value; a string literal carries
/// its text; any other literal (a float, a char, a byte string, a negative
/// or oversized number) is `OtherLit`.
#[derive(Debug, Clone, PartialEq, Eq)]
pub enum LitToken {
    IntLit(u64),
    StrLit(Vec<u8>),
    OtherLit,
}

/// Why a count directive was rejected.
#[derive(Clone, Copy, PartialEq, Eq, Structural, Debug)]
pub enum ParseError {
    /// The directive held no literal at all.
    MissingLiteral,
    /// The directive was not a single integer literal representable as a
    /// count.
    MalformedCount,
}

/// The string-literal texts of the argument list, in order: duplicates and
/// empty strings pass through, everything else is dropped.
pub open spec fn kept_suffixes(args: Seq<LitToken>) -> Seq<Seq<u8>>
    decreases args.len(),
{
    if args.len() == 0 {
        Seq::empty()
    } else {
        match args.last() {
            LitToken::StrLit(v) => kept_suffixes(args.drop_last()).push(v@),
            _ => kept_suffixes(args.drop_last()),
        }
    }
}

/// Parses a suffix-list directive: keeps the string literals, in their
/// original order, duplicates and empty strings unfiltered; drops the rest
/// silently.
pub fn parse_suffix_args(args: &Vec<LitToken>) -> (r: Vec<Vec<u8>>)
    ensures
        r.deep_view() == kept_suffixes(args@),
{
    let mut out: Vec<Vec<u8>> = Vec::new();
    let mut i: usize = 0;
    proof {
        assert(out.deep_view() =~~= kept_suffixes(args@.take(0)));
    }
    while i < args.len()
        invariant
            i <= args.len(),
            out.deep_view() == kept_suffixes(args@.take(i as int)),
        decreases args.len() - i,
    {
        proof {
            assert(args@.take(i + 1 as int).drop_last() =~= args@.take(i as int));
            assert(args@.take(i + 1 as int).last() == args@[i as int]);
        }
        match &args[i] {
            LitToken::StrLit(v) => {
                out.push(bytes_clone(v));
                proof {
                    assert(out.deep_view() =~~= kept_suffixes(args@.take(i + 1 as int)));
                }
            },
            _ => {},
        }
        i += 1;
    }
    proof {
        assert(args@.take(args@.len() as int) =~= args@);
    }
    out
}

/// Whether the argument list is a well-formed count directive: exactly one
/// integer literal whose value a count can hold.
pub open spec fn is_count_directive(args: Seq<LitToken>) -> bool {
    &&& args.len() == 1
    &&& args[0] matches LitToken::IntLit(v)
    &&& v <= usize::MAX
}

/// The count a well-formed count directive gives.
pub open spec fn directive_count(args: Seq<LitToken>) -> u64
    recommends
        is_count_directive(args),
{
    args[0]->IntLit_0
}

/// Parses a count directive: a single non-negative integer literal. An empty
/// directive is a missing literal; anything else that is not one
/// representable integer literal is a malformed count.
pub fn parse_count(args: &Vec<LitToken>) -> (r: Result<usize, ParseError>)
    ensures
        match r {
            Ok(count) => is_count_directive(args@) && count == directive_count(args@),
            Err(ParseError::MissingLiteral) => args@.len() == 0,
            Err(ParseError::MalformedCount) => args@.len() != 0 && !is_count_directive(args@),
        },
{
    if args.len() == 0 {
        return Err(ParseError::MissingLiteral);
    }
    if args.len() != 1 {
        return Err(ParseError::MalformedCount);
    }
    match &args[0] {
        LitToken::IntLit(v) => {
            if *v <= usize::MAX as u64 {
                Ok(*v as usize)
            } else {
                Err(ParseError::MalformedCount)
            }
        },
        _ => Err(ParseError::MalformedCount),
    }
}

} // verus!
