//! The text grammar of an address and its parser.
//!
//! An address is written as six fields separated by `:` or `-`; each field is
//! one or two hexadecimal digits, in either case.

use vstd::prelude::*;
use vstd::string::StringExecFns;
use crate::hex::{hex_digit, hex_value};
use crate::mac::MacAddr;

verus! {

/// Why a text is not an address.
#[derive(Clone, Copy, Debug, PartialEq, Eq, Structural)]
pub enum MacParseError {
    /// One of the first six fields is not one or two hexadecimal digits.
    InvalidDigit,
    /// The text has fewer or more than six fields.
    InvalidLength,
}

/// The message of an error.
pub open spec fn error_text(error: MacParseError) -> Seq<char> {
    match error {
        MacParseError::InvalidDigit => "invalid digit"@,
        MacParseError::InvalidLength => "invalid length"@,
    }
}

impl MacParseError {
    /// The message of this error, as it is shown to the user.
    pub fn to_string(&self) -> (text: String)
        ensures
            text@ == error_text(*self),
    {
        match self {
            MacParseError::InvalidDigit => String::from_str("invalid digit"),
            MacParseError::InvalidLength => String::from_str("invalid length"),
        }
    }
}

/// The two characters that separate fields.
pub open spec fn is_separator(c: char) -> bool {
    c == ':' || c == '-'
}

/// The position of the first separator in `s`, or `s.len()` if it has none.
pub open spec fn first_separator(s: Seq<char>) -> nat
    decreases s.len(),
{
    if s.len() == 0 || is_separator(s[0]) {
        0
    } else {
        1 + first_separator(s.skip(1))
    }
}

/// The fields of `s`: the runs of characters between separators, in order.
/// There is always at least one, and a field may be empty.
pub open spec fn split_fields(s: Seq<char>) -> Seq<Seq<char>>
    decreases s.len(),
{
    let k = first_separator(s) as int;
    if k >= s.len() {
        seq![s]
    } else {
        seq![s.take(k)] + split_fields(s.skip(k + 1))
    }
}

/// The octet that a field denotes: one or two hexadecimal digits, the high
/// digit first. Anything else, the empty field included, denotes none.
pub open spec fn field_value(field: Seq<char>) -> Option<u8> {
    if field.len() == 1 {
        hex_value(field[0])
    } else if field.len() == 2 {
        match (hex_value(field[0]), hex_value(field[1])) {
            (Some(high), Some(low)) => Some((16 * high + low) as u8),
            _ => None,
        }
    } else {
        None
    }
}

/// Some field among the first six denotes no octet.
pub open spec fn has_bad_field(fields: Seq<Seq<char>>) -> bool {
    exists|i: int| 0 <= i < fields.len() && i < 6 && #[trigger] field_value(fields[i]) is None
}

/// A text is an address when it has exactly six fields and each denotes an
/// octet.
pub open spec fn well_formed(s: Seq<char>) -> bool {
    split_fields(s).len() == 6 && !has_bad_field(split_fields(s))
}

/// What parsing `s` gives. The fields are taken from the left: a bad field
/// among the first six is reported as `InvalidDigit`; otherwise a count other
/// than six is reported as `InvalidLength`; otherwise the six octets are the
/// result.
pub open spec fn parse_outcome(s: Seq<char>) -> Result<Seq<u8>, MacParseError> {
    let fields = split_fields(s);
    if has_bad_field(fields) {
        Err(MacParseError::InvalidDigit)
    } else if fields.len() != 6 {
        Err(MacParseError::InvalidLength)
    } else {
        Ok(Seq::new(6, |i: int| field_value(fields[i]).unwrap()))
    }
}

/// `first_separator` is the one position with no separator before it that is
/// the end of the text or holds a separator.
pub proof fn lemma_first_separator(s: Seq<char>, k: int)
    requires
        0 <= k <= s.len(),
        forall|j: int| 0 <= j < k ==> !is_separator(#[trigger] s[j]),
        k < s.len() ==> is_separator(s[k]),
    ensures
        first_separator(s) == k,
    decreases s.len(),
{
    if k > 0 {
        let rest = s.skip(1);
        assert forall|j: int| 0 <= j < k - 1 implies !is_separator(#[trigger] rest[j]) by {
            assert(rest[j] == s[j + 1]);
        }
        lemma_first_separator(rest, k - 1);
    }
}

/// A text without separators is its own single field.
pub proof fn lemma_split_single(field: Seq<char>)
    requires
        forall|j: int| 0 <= j < field.len() ==> !is_separator(#[trigger] field[j]),
    ensures
        split_fields(field) == seq![field],
{
    lemma_first_separator(field, field.len() as int);
}

/// A separator ends the first field; the rest is split on its own.
pub proof fn lemma_split_leading(field: Seq<char>, sep: char, rest: Seq<char>)
    requires
        forall|j: int| 0 <= j < field.len() ==> !is_separator(#[trigger] field[j]),
        is_separator(sep),
    ensures
        split_fields(field + seq![sep] + rest) == seq![field] + split_fields(rest),
{
    let s = field + seq![sep] + rest;
    let k = field.len() as int;
    assert forall|j: int| 0 <= j < k implies !is_separator(#[trigger] s[j]) by {
        assert(s[j] == field[j]);
    }
    assert(s[k] == sep);
    lemma_first_separator(s, k);
    assert(s.take(k) =~= field);
    assert(s.skip(k + 1) =~= rest);
}

/// The end of the field that starts at `start`: the position of the next
/// separator, or the end of the text.
fn field_end(chars: &Vec<char>, start: usize) -> (end: usize)
    requires
        start <= chars.len(),
    ensures
        start <= end <= chars.len(),
        end - start == first_separator(chars@.skip(start as int)),
{
    let mut end = start;
    while end < chars.len() && chars[end] != ':' && chars[end] != '-'
        invariant
            start <= end <= chars.len(),
            forall|j: int| start <= j < end ==> !is_separator(#[trigger] chars@[j]),
        decreases chars.len() - end,
    {
        end += 1;
    }
    proof {
        let rest = chars@.skip(start as int);
        assert forall|j: int| 0 <= j < end - start implies !is_separator(#[trigger] rest[j]) by {
            assert(rest[j] == chars@[start + j]);
        }
        lemma_first_separator(rest, end - start);
    }
    end
}

/// Reads the field `chars[start..end]`.
fn field_octet(chars: &Vec<char>, start: usize, end: usize) -> (octet: Option<u8>)
    requires
        start <= end <= chars.len(),
    ensures
        octet == field_value(chars@.subrange(start as int, end as int)),
{
    let len = end - start;
    if len == 1 {
        hex_digit(chars[start])
    } else if len == 2 {
        match (hex_digit(chars[start]), hex_digit(chars[start + 1])) {
            (Some(high), Some(low)) => Some(16 * high + low),
            _ => None,
        }
    } else {
        None
    }
}

/// The characters of `text`, in order.
fn chars_of(text: &str) -> (chars: Vec<char>)
    ensures
        chars@ == text@,
{
    let mut chars: Vec<char> = Vec::new();
    for c in it: text.chars()
        invariant
            it.seq() == text@,
            chars@ == it.seq().take(it.index() as int),
    {
        chars.push(c);
    }
    chars
}

impl MacAddr {
    /// Parses an address from fields separated by `:` or `-`.
    ///
    /// The fields are read from the left, and the first fault found decides
    /// the error: a field among the first six that is not one or two
    /// hexadecimal digits gives `InvalidDigit`, a seventh field or the end of
    /// the text before the sixth gives `InvalidLength`.
    pub fn from_str(input: &str) -> (r: Result<MacAddr, MacParseError>)
        ensures
            match r {
                Ok(addr) => parse_outcome(input@) == Ok::<Seq<u8>, MacParseError>(addr@),
                Err(error) => parse_outcome(input@) == Err::<Seq<u8>, MacParseError>(error),
            },
            r is Ok <==> well_formed(input@),
            r == Err::<MacAddr, MacParseError>(MacParseError::InvalidDigit) <==> has_bad_field(
                split_fields(input@),
            ),
            r == Err::<MacAddr, MacParseError>(MacParseError::InvalidLength) <==> !has_bad_field(
                split_fields(input@),
            ) && split_fields(input@).len() != 6,
    {
        let chars = chars_of(input);
        let ghost fields = split_fields(chars@);
        let mut array = [0u8; 6];
        let mut nth: usize = 0;
        let mut start: usize = 0;
        proof {
            assert(chars@.skip(0) =~= chars@);
            assert(fields.skip(0) =~= fields);
        }
        loop
            invariant_except_break
                start <= chars.len(),
                nth < fields.len(),
                fields.skip(nth as int) == split_fields(chars@.skip(start as int)),
            invariant
                chars@ == input@,
                fields == split_fields(chars@),
                nth <= 6,
                forall|i: int| 0 <= i < nth ==> #[trigger] field_value(fields[i]) == Some(array@[i]),
            ensures
                nth == fields.len(),
            decreases chars.len() - start,
        {
            if nth == 6 {
                return Err(MacParseError::InvalidLength);
            }
            let end = field_end(&chars, start);
            proof {
                let rest = chars@.skip(start as int);
                let k = end - start;
                assert(fields[nth as int] == fields.skip(nth as int)[0]);
                assert(rest.take(k) =~= chars@.subrange(start as int, end as int));
                if k >= rest.len() {
                    assert(rest.take(k) =~= rest);
                    assert(fields.skip(nth as int).len() == 1);
                } else {
                    assert(rest.skip(k + 1) =~= chars@.skip(end + 1));
                    assert(fields.skip(nth as int + 1) =~= fields.skip(nth as int).skip(1));
                    assert((seq![rest.take(k)] + split_fields(rest.skip(k + 1))).skip(1)
                        =~= split_fields(rest.skip(k + 1)));
                }
            }
            match field_octet(&chars, start, end) {
                None => {
                    return Err(MacParseError::InvalidDigit);
                },
                Some(octet) => {
                    array[nth] = octet;
                },
            }
            nth += 1;
            if end >= chars.len() {
                break;
            }
            start = end + 1;
        }
        if nth != 6 {
            return Err(MacParseError::InvalidLength);
        }
        let addr = MacAddr::new(array);
        proof {
            assert(addr@ =~= Seq::new(6, |i: int| field_value(fields[i]).unwrap()));
        }
        Ok(addr)
    }
}

} // verus!
