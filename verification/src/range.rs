//! The range literal: a value with more than one valid textual spelling.
//! Parsing accepts exactly `"."`, `"%"`, or a string of decimal digits;
//! emission is deliberately not the parser's inverse: the current
//! position emits the boolean `true`, not `"."`, which is what the host
//! side expects. Parse and emit are kept as two independent functions so
//! that neither is derived from the other.

use vstd::prelude::*;
use vstd::string::StrSliceExecFns;
use crate::object::{Object, ObjectKind, Ownership};
use crate::error::ParseError;
use crate::convert::ToObject;

verus! {

/// A range specifier: the current position, the whole extent, or a
/// count of units.
#[derive(Clone, Copy, PartialEq, Eq, Structural, Debug, Hash)]
pub enum CommandRange {
    CurrentLine,
    WholeFile,
    Count(u32),
}

/// Whether `c` is a decimal digit.
pub open spec fn is_digit(c: char) -> bool {
    48 <= (c as u32) <= 57
}

/// The value of the digit `c`.
pub open spec fn digit_val(c: char) -> nat {
    (((c as u32) - 48) as nat)
}

/// Whether every character of `s` is a decimal digit.
pub open spec fn all_digits(s: Seq<char>) -> bool {
    forall|i: int| 0 <= i < s.len() ==> is_digit(#[trigger] s[i])
}

/// The number a string of decimal digits denotes.
pub open spec fn digits_val(s: Seq<char>) -> nat
    decreases s,
{
    if s.len() == 0 {
        0
    } else {
        digits_val(s.drop_last()) * 10 + digit_val(s.last())
    }
}

/// What parsing owes on every input: `"."` is the current position,
/// `"%"` the whole extent, a non-empty digit string whose value fits
/// the count's width a count, and anything else is rejected.
pub open spec fn parse_spec(s: Seq<char>) -> Result<CommandRange, ParseError> {
    if s.len() == 1 && s[0] == '.' {
        Ok(CommandRange::CurrentLine)
    } else if s.len() == 1 && s[0] == '%' {
        Ok(CommandRange::WholeFile)
    } else if s.len() > 0 && all_digits(s) && digits_val(s) <= u32::MAX {
        Ok(CommandRange::Count(digits_val(s) as u32))
    } else {
        Err(ParseError {})
    }
}

/// The value of a digit-string prefix never exceeds the whole string's.
proof fn lemma_digits_val_prefix(s: Seq<char>, i: int)
    requires
        0 <= i <= s.len(),
    ensures
        digits_val(s.subrange(0, i)) <= digits_val(s.subrange(0, s.len() as int)),
    decreases s.len() - i,
{
    if i < s.len() {
        lemma_digits_val_prefix(s, i + 1);
        assert(s.subrange(0, i + 1).drop_last() =~= s.subrange(0, i));
        assert(s.subrange(0, i + 1).last() == s[i]);
        assert(digits_val(s.subrange(0, i + 1)) == digits_val(s.subrange(0, i)) * 10 + digit_val(
            s[i],
        ));
    }
}

impl CommandRange {
    /// Parses a textual range literal, accepting exactly the forms
    /// `parse_spec` lists and rejecting every other input with an error
    /// naming the accepted forms.
    pub fn parse(s: &str) -> (r: Result<CommandRange, ParseError>)
        ensures
            r == parse_spec(s@),
    {
        let n = s.unicode_len();
        if n == 1 {
            let c = s.get_char(0);
            if c == '.' {
                return Ok(CommandRange::CurrentLine);
            }
            if c == '%' {
                return Ok(CommandRange::WholeFile);
            }
        }
        if n == 0 {
            return Err(ParseError {});
        }
        let mut val: u64 = 0;
        let mut i: usize = 0;
        while i < n
            invariant
                n as nat == s@.len(),
                0 < n,
                i <= n,
                all_digits(s@.subrange(0, i as int)),
                val == digits_val(s@.subrange(0, i as int)),
                val <= u32::MAX,
                s@.len() == 1 ==> s@[0] != '.' && s@[0] != '%',
            decreases n - i,
        {
            let c = s.get_char(i);
            let u = c as u32;
            if u < 48 || u > 57 {
                proof {
                    assert(!is_digit(s@[i as int]));
                }
                return Err(ParseError {});
            }
            let d = (u - 48) as u64;
            let next = val * 10 + d;
            proof {
                assert(s@.subrange(0, i + 1).drop_last() =~= s@.subrange(0, i as int));
                assert(s@.subrange(0, i + 1).last() == s@[i as int]);
            }
            if next > u32::MAX as u64 {
                proof {
                    assert(digits_val(s@.subrange(0, i + 1)) > u32::MAX);
                    lemma_digits_val_prefix(s@, i + 1);
                    assert(s@.subrange(0, s@.len() as int) =~= s@);
                    assert(digits_val(s@) > u32::MAX);
                }
                return Err(ParseError {});
            }
            val = next;
            i += 1;
        }
        proof {
            assert(s@.subrange(0, n as int) =~= s@);
        }
        Ok(CommandRange::Count(val as u32))
    }
}

/// The decimal spelling of `n`, most significant digit first.
pub open spec fn dec_bytes(n: nat) -> Seq<u8>
    decreases n,
{
    if n < 10 {
        seq![(48 + n) as u8]
    } else {
        dec_bytes(n / 10).push((48 + n % 10) as u8)
    }
}

/// The decimal spelling of `m` as bytes.
fn digits_of(m: u32) -> (r: Vec<u8>)
    ensures
        r@ == dec_bytes(m as nat),
    decreases m,
{
    if m < 10 {
        let mut v: Vec<u8> = Vec::new();
        v.push(48 + m as u8);
        proof {
            assert(v@ =~= dec_bytes(m as nat));
        }
        v
    } else {
        let mut v = digits_of(m / 10);
        v.push(48 + (m % 10) as u8);
        proof {
            assert(v@ =~= dec_bytes(m as nat));
        }
        v
    }
}

impl ToObject for CommandRange {
    /// Emission is not the parser's inverse: the current position emits
    /// the boolean `true` rather than its own parse token `"."`; the
    /// whole extent emits `"%"`; a count emits its decimal text.
    open spec fn represents(&self, o: Object) -> bool {
        match self {
            CommandRange::CurrentLine => o == (Object {
                mode: Ownership::Owned,
                id: 0,
                kind: ObjectKind::Boolean(true),
            }),
            CommandRange::WholeFile => {
                &&& o.mode is Owned
                &&& o.id == 0
                &&& o.kind matches ObjectKind::Text(bs) && bs@ == seq![37u8]
            },
            CommandRange::Count(n) => {
                &&& o.mode is Owned
                &&& o.id == 0
                &&& o.kind matches ObjectKind::Text(bs) && bs@ == dec_bytes(*n as nat)
            },
        }
    }

    fn to_obj(&self) -> (r: Object) {
        match self {
            CommandRange::CurrentLine => Object::boolean(true),
            CommandRange::WholeFile => {
                let mut bs: Vec<u8> = Vec::new();
                bs.push(37);
                proof {
                    assert(bs@ =~= seq![37u8]);
                }
                Object::text(bs)
            },
            CommandRange::Count(n) => Object::text(digits_of(*n)),
        }
    }
}

} // verus!
