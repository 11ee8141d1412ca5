//! The tokenizer: turns the UTF-8 source buffer into a stream of
//! classified tokens with byte-offset spans.
//!
//! Tokenization never fails by itself: bytes that start no token become
//! [`Token::Unknown`] and malformed numeric literals carry their
//! [`NumberError`], both surfacing as parse errors only when the parser
//! actually consumes them.

use vstd::prelude::*;

use crate::arena::Span;
use crate::token::{Number, NumberError, Token};

verus! {

/// Whether `b` may start an identifier or keyword.  Bytes outside
/// ASCII are accepted as identifier text, so any multi-byte UTF-8
/// character can appear in a name.
pub open spec fn is_word_start_spec(b: u8) -> bool {
    (97 <= b <= 122) || (65 <= b <= 90) || b == 95 || b >= 128
}

/// Whether `b` may continue an identifier or keyword.
pub open spec fn is_word_part_spec(b: u8) -> bool {
    is_word_start_spec(b) || (48 <= b <= 57)
}

fn is_word_start(b: u8) -> (r: bool)
    ensures
        r == is_word_start_spec(b),
{
    (97 <= b && b <= 122) || (65 <= b && b <= 90) || b == 95 || b >= 128
}

fn is_word_part(b: u8) -> (r: bool)
    ensures
        r == is_word_part_spec(b),
{
    is_word_start(b) || (48 <= b && b <= 57)
}

fn is_digit(b: u8) -> (r: bool)
    ensures
        r == (48 <= b <= 57),
{
    48 <= b && b <= 57
}

fn is_hex_digit(b: u8) -> (r: bool)
    ensures
        r == ((48 <= b <= 57) || (97 <= b <= 102) || (65 <= b <= 70)),
{
    (48 <= b && b <= 57) || (97 <= b && b <= 102) || (65 <= b && b <= 70)
}

fn is_digit_in_base(b: u8, base: u64) -> (r: bool)
    ensures
        r == (if base == 16 {
            (48 <= b <= 57) || (97 <= b <= 102) || (65 <= b <= 70)
        } else {
            48 <= b <= 57
        }),
{
    if base == 16 {
        is_hex_digit(b)
    } else {
        is_digit(b)
    }
}

/// The numeric value of one digit byte: `0`-`9`, `a`-`f` or `A`-`F`.
pub open spec fn digit_val(b: u8) -> int {
    if 48 <= b <= 57 {
        b - 48
    } else if 97 <= b <= 102 {
        b - 97 + 10
    } else {
        b - 65 + 10
    }
}

/// Whether `b` is a digit byte some base accepts.
pub open spec fn is_digit_byte(b: u8) -> bool {
    (48 <= b <= 57) || (97 <= b <= 102) || (65 <= b <= 70)
}

/// The value of a digit string read most-significant first.
pub open spec fn digits_val(s: Seq<u8>, base: int) -> int
    decreases s.len(),
{
    if s.len() == 0 {
        0
    } else {
        digits_val(s.drop_last(), base) * base + digit_val(s.last())
    }
}

/// A digit string's value is never negative.
proof fn lemma_digits_val_nonneg(s: Seq<u8>, base: int)
    requires
        base >= 1,
        forall|j: int| 0 <= j < s.len() ==> is_digit_byte(#[trigger] s[j]),
    ensures
        digits_val(s, base) >= 0,
    decreases s.len(),
{
    if s.len() > 0 {
        assert(forall|j: int|
            0 <= j < s.drop_last().len() ==> is_digit_byte(#[trigger] s.drop_last()[j]));
        lemma_digits_val_nonneg(s.drop_last(), base);
        assert(digit_val(s.last()) >= 0);
        assert(digits_val(s.drop_last(), base) * base >= 0) by (nonlinear_arith)
            requires
                digits_val(s.drop_last(), base) >= 0,
                base >= 1,
        ;
    }
}

/// Reading further digits never shrinks the value.
proof fn lemma_digits_val_prefix(s: Seq<u8>, k: int, base: int)
    requires
        base >= 1,
        0 <= k <= s.len(),
        forall|j: int| 0 <= j < s.len() ==> is_digit_byte(#[trigger] s[j]),
    ensures
        digits_val(s, base) >= digits_val(s.subrange(0, k), base),
    decreases s.len() - k,
{
    if k < s.len() {
        let t = s.subrange(0, k + 1);
        let p = s.subrange(0, k);
        assert(t.drop_last() =~= p);
        assert(forall|j: int| 0 <= j < t.len() ==> is_digit_byte(#[trigger] t[j]));
        assert(forall|j: int| 0 <= j < p.len() ==> is_digit_byte(#[trigger] p[j]));
        lemma_digits_val_nonneg(p, base);
        assert(digits_val(t, base) == digits_val(p, base) * base + digit_val(t.last()));
        assert(digits_val(p, base) * base >= digits_val(p, base)) by (nonlinear_arith)
            requires
                digits_val(p, base) >= 0,
                base >= 1,
        ;
        assert(digits_val(t, base) >= digits_val(p, base));
        lemma_digits_val_prefix(s, k + 1, base);
    } else {
        assert(s.subrange(0, k) =~= s);
    }
}

/// The numeric value of a hexadecimal digit byte.
fn hex_value(b: u8) -> (r: u8)
    requires
        (48 <= b <= 57) || (97 <= b <= 102) || (65 <= b <= 70),
    ensures
        r < 16,
        r == digit_val(b),
{
    if 48 <= b && b <= 57 {
        b - 48
    } else if 97 <= b && b <= 102 {
        b - 97 + 10
    } else {
        b - 65 + 10
    }
}

/// Reads the digits of an integer literal in the given base, already
/// scanned to lie in `source[start..end]`, into a value, reporting
/// overflow as [`NumberError::NotRepresentable`].
fn int_value(source: &[u8], start: usize, end: usize, base: u64) -> (r: Result<u64, NumberError>)
    requires
        start <= end <= source@.len(),
        base == 10 || base == 16,
        forall|j: int|
            #![trigger source@[j]]
            start <= j < end ==> is_digit_byte(source@[j]),
    ensures
        match r {
            Ok(v) => v == digits_val(source@.subrange(start as int, end as int), base as int),
            Err(e) => e == NumberError::NotRepresentable && digits_val(
                source@.subrange(start as int, end as int),
                base as int,
            ) > u64::MAX,
        },
{
    let ghost whole = source@.subrange(start as int, end as int);
    proof {
        assert(forall|j: int| 0 <= j < whole.len() ==> is_digit_byte(#[trigger] whole[j]));
        assert(whole.subrange(0, 0) =~= Seq::<u8>::empty());
    }
    let mut value: u64 = 0;
    let mut i: usize = start;
    while i < end
        invariant
            start <= i <= end <= source@.len(),
            base == 10 || base == 16,
            whole == source@.subrange(start as int, end as int),
            forall|j: int|
                #![trigger source@[j]]
                start <= j < end ==> is_digit_byte(source@[j]),
            forall|j: int| 0 <= j < whole.len() ==> is_digit_byte(#[trigger] whole[j]),
            value == digits_val(whole.subrange(0, i - start), base as int),
        decreases end - i,
    {
        let d = hex_value(source[i]) as u64;
        let ghost step = whole.subrange(0, i - start + 1);
        proof {
            assert(step.drop_last() =~= whole.subrange(0, i - start));
            assert(step.last() == source@[i as int]);
            assert(digits_val(step, base as int) == value * base + d);
        }
        if value > (u64::MAX - d) / base {
            proof {
                assert(value * base + d > u64::MAX) by (nonlinear_arith)
                    requires
                        value as int > (u64::MAX - d as int) / (base as int),
                        base == 10 || base == 16,
                        d < 16,
                ;
                lemma_digits_val_prefix(whole, i - start + 1, base as int);
            }
            return Err(NumberError::NotRepresentable);
        }
        proof {
            assert(value * base + d <= u64::MAX) by (nonlinear_arith)
                requires
                    value as int <= (u64::MAX - d as int) / (base as int),
                    base == 10 || base == 16,
                    d < 16,
            ;
        }
        value = value * base + d;
        i = i + 1;
    }
    proof {
        assert(whole.subrange(0, end - start) =~= whole);
    }
    Ok(value)
}

/// Reads the numeric literal starting at `pos` (which must begin with a
/// digit, or a period followed by a digit) and returns its token and the
/// position just past it.
fn lex_number(source: &[u8], pos: usize) -> (r: (Token, usize))
    requires
        pos < source@.len(),
    ensures
        pos < r.1 <= source@.len(),
        !(r.0 is End),
{
    let len = source.len();
    let start = pos;
    let mut i = pos;
    let mut base: u64 = 10;
    let mut digits_start = pos;
    let mut is_float = false;
    let mut leading_zero = false;

    if source[i] == 48 && i + 1 < len && (source[i + 1] == 120 || source[i + 1] == 88) {
        // hexadecimal: 0x or 0X
        base = 16;
        i = i + 2;
        digits_start = i;
        while i < len && is_hex_digit(source[i])
            invariant
                digits_start <= i <= len,
                len == source@.len(),
                forall|j: int|
                    #![trigger source@[j]]
                    digits_start <= j < i ==> ((48 <= source@[j] <= 57) || (97 <= source@[j]
                        <= 102) || (65 <= source@[j] <= 70)),
            decreases len - i,
        {
            i = i + 1;
        }
        if i == digits_start {
            // `0x` with no digits
            return (Token::Number(Err(NumberError::Invalid)), i);
        }
    } else {
        if source[i] == 48 {
            leading_zero = true;
        }
        while i < len && is_digit(source[i])
            invariant
                pos <= i <= len,
                len == source@.len(),
                forall|j: int| pos <= j < i ==> (48 <= #[trigger] source@[j] <= 57),
            decreases len - i,
        {
            i = i + 1;
        }
    }
    let digits_end = i;

    // fractional part
    if i < len && source[i] == 46 && i + 1 < len && is_digit_in_base(source[i + 1], base) {
        is_float = true;
        i = i + 1;
        while i < len && is_digit_in_base(source[i], base)
            invariant
                pos < i <= len,
                len == source@.len(),
            decreases len - i,
        {
            i = i + 1;
        }
    }

    // exponent part: e/E for decimal, p/P for hexadecimal
    if i < len && ((base == 10 && (source[i] == 101 || source[i] == 69)) || (base == 16 && (
    source[i] == 112 || source[i] == 80))) {
        let mut j = i + 1;
        if j < len && (source[j] == 43 || source[j] == 45) {
            j = j + 1;
        }
        if j < len && is_digit(source[j]) {
            is_float = true;
            i = j;
            while i < len && is_digit(source[i])
                invariant
                    pos < i <= len,
                    len == source@.len(),
                decreases len - i,
            {
                i = i + 1;
            }
        }
    }

    if digits_end == start && !is_float && base == 10 {
        // a lone period never reaches here; defensive
        return (Token::Number(Err(NumberError::Invalid)), start + 1);
    }

    // suffix
    let mut suffix: u8 = 0;
    if i < len && is_word_start(source[i]) {
        let s = source[i];
        if s == 105 || s == 117 || s == 102 || s == 104 {
            // i, u, f, h
            if i + 1 < len && is_word_part(source[i + 1]) {
                // e.g. `1if`: not a valid literal; swallow the word run
                while i < len && is_word_part(source[i])
                    invariant
                        pos < i <= len,
                        len == source@.len(),
                    decreases len - i,
                {
                    i = i + 1;
                }
                return (Token::Number(Err(NumberError::Invalid)), i);
            }
            suffix = s;
            i = i + 1;
        } else {
            while i < len && is_word_part(source[i])
                invariant
                    pos < i <= len,
                    len == source@.len(),
                decreases len - i,
            {
                i = i + 1;
            }
            return (Token::Number(Err(NumberError::Invalid)), i);
        }
    }

    if suffix == 104 {
        // `h`: 16-bit floats are not available
        return (Token::Number(Err(NumberError::UnimplementedF16)), i);
    }

    if is_float {
        if suffix == 105 || suffix == 117 {
            // an integer suffix on a float form
            return (Token::Number(Err(NumberError::Invalid)), i);
        }
        let text = crate::token::clone_bytes(slice_range(source, start, i));
        if suffix == 102 {
            return (Token::Number(Ok(Number::F32(text))), i);
        }
        return (Token::Number(Ok(Number::AbstractFloat(text))), i);
    }

    if base == 10 && leading_zero && digits_end > start + 1 {
        // decimal integers must not have leading zeros
        return (Token::Number(Err(NumberError::Invalid)), i);
    }

    let value = match int_value(source, digits_start, digits_end, base) {
        Ok(v) => v,
        Err(e) => {
            return (Token::Number(Err(e)), i);
        },
    };

    let tok = if suffix == 105 {
        if value > i32::MAX as u64 {
            Token::Number(Err(NumberError::NotRepresentable))
        } else {
            Token::Number(Ok(Number::I32(value as i32)))
        }
    } else if suffix == 117 {
        if value > u32::MAX as u64 {
            Token::Number(Err(NumberError::NotRepresentable))
        } else {
            Token::Number(Ok(Number::U32(value as u32)))
        }
    } else if suffix == 102 {
        let text = crate::token::clone_bytes(slice_range(source, start, i));
        Token::Number(Ok(Number::F32(text)))
    } else {
        if value > i64::MAX as u64 {
            Token::Number(Err(NumberError::NotRepresentable))
        } else {
            Token::Number(Ok(Number::AbstractInt(value as i64)))
        }
    };
    (tok, i)
}

/// The sub-slice `source[start..end]`.
fn slice_range(source: &[u8], start: usize, end: usize) -> (r: &[u8])
    requires
        start <= end <= source@.len(),
    ensures
        r@ =~= source@.subrange(start as int, end as int),
{
    &source[start..end]
}

/// Turns the whole source buffer into tokens with their spans.  The
/// result always ends with a single [`Token::End`] token, which is the
/// only `End` in the stream, and every span lies within the source.
pub fn tokenize(source: &[u8]) -> (r: (Vec<Token>, Vec<Span>))
    ensures
        r.0@.len() == r.1@.len(),
        r.0@.len() >= 1,
        r.0@.last() is End,
        forall|j: int| 0 <= j < r.0@.len() - 1 ==> !(#[trigger] r.0@[j] is End),
        forall|j: int|
            0 <= j < r.1@.len() ==> (#[trigger] r.1@[j]).start <= r.1@[j].end <= source@.len(),
        source@.len() == 0 ==> r.0@.len() == 1,
{
    let len = source.len();
    let mut toks: Vec<Token> = Vec::new();
    let mut spans: Vec<Span> = Vec::new();
    let mut pos: usize = 0;

    while pos < len
        invariant
            pos <= len,
            len == source@.len(),
            len == 0 ==> toks@.len() == 0,
            toks@.len() == spans@.len(),
            forall|j: int| 0 <= j < toks@.len() ==> !(#[trigger] toks@[j] is End),
            forall|j: int|
                0 <= j < spans@.len() ==> (#[trigger] spans@[j]).start <= spans@[j].end
                    <= source@.len(),
        decreases len - pos,
    {
        let b = source[pos];
        // whitespace
        if b == 32 || b == 9 || b == 10 || b == 13 {
            pos = pos + 1;
            continue;
        }
        // comments
        if b == 47 && pos + 1 < len && source[pos + 1] == 47 {
            // line comment
            let ghost entry_pos = pos as int;
            pos = pos + 2;
            while pos < len && source[pos] != 10
                invariant
                    entry_pos < pos <= len,
                    len == source@.len(),
                decreases len - pos,
            {
                pos = pos + 1;
            }
            continue;
        }
        if b == 47 && pos + 1 < len && source[pos + 1] == 42 {
            // block comment; these nest
            let ghost entry_pos = pos as int;
            pos = pos + 2;
            let mut depth: usize = 1;
            while pos < len && depth > 0
                invariant
                    entry_pos < pos <= len,
                    len == source@.len(),
                decreases len - pos,
            {
                if source[pos] == 47 && pos + 1 < len && source[pos + 1] == 42 {
                    if depth < usize::MAX {
                        depth = depth + 1;
                    }
                    pos = pos + 2;
                } else if source[pos] == 42 && pos + 1 < len && source[pos + 1] == 47 {
                    depth = depth - 1;
                    pos = pos + 2;
                } else {
                    pos = pos + 1;
                }
            }
            continue;
        }

        let start = pos;
        let (tok, next_pos): (Token, usize) = if is_word_start(b) {
            let mut i = pos + 1;
            while i < len && is_word_part(source[i])
                invariant
                    pos < i <= len,
                    len == source@.len(),
                decreases len - i,
            {
                i = i + 1;
            }
            (Token::Word(crate::token::clone_bytes(slice_range(source, pos, i))), i)
        } else if is_digit(b) || (b == 46 && pos + 1 < len && is_digit(source[pos + 1])) {
            lex_number(source, pos)
        } else if b == 59 || b == 58 || b == 44 || b == 46 {
            // ; : , .
            (Token::Separator(b), pos + 1)
        } else if b == 40 || b == 41 || b == 123 || b == 125 || b == 91 || b == 93 {
            // ( ) { } [ ]
            (Token::Paren(b), pos + 1)
        } else if b == 64 {
            (Token::Attribute, pos + 1)
        } else if b == 60 || b == 62 {
            // < or >
            if pos + 1 < len && source[pos + 1] == 61 {
                (Token::LogicalOperation(b), pos + 2)
            } else if pos + 1 < len && source[pos + 1] == b {
                if pos + 2 < len && source[pos + 2] == 61 {
                    (Token::AssignmentOperation(b), pos + 3)
                } else {
                    (Token::ShiftOperation(b), pos + 2)
                }
            } else {
                (Token::Paren(b), pos + 1)
            }
        } else if b == 38 || b == 124 {
            // & or |
            if pos + 1 < len && source[pos + 1] == b {
                (Token::LogicalOperation(b), pos + 2)
            } else if pos + 1 < len && source[pos + 1] == 61 {
                (Token::AssignmentOperation(b), pos + 2)
            } else {
                (Token::Operation(b), pos + 1)
            }
        } else if b == 61 {
            // =
            if pos + 1 < len && source[pos + 1] == 61 {
                (Token::LogicalOperation(b), pos + 2)
            } else {
                (Token::Operation(b), pos + 1)
            }
        } else if b == 33 {
            // !
            if pos + 1 < len && source[pos + 1] == 61 {
                (Token::LogicalOperation(b), pos + 2)
            } else {
                (Token::Operation(b), pos + 1)
            }
        } else if b == 43 {
            // +
            if pos + 1 < len && source[pos + 1] == 43 {
                (Token::IncrementOperation, pos + 2)
            } else if pos + 1 < len && source[pos + 1] == 61 {
                (Token::AssignmentOperation(b), pos + 2)
            } else {
                (Token::Operation(b), pos + 1)
            }
        } else if b == 45 {
            // -
            if pos + 1 < len && source[pos + 1] == 62 {
                (Token::Arrow, pos + 2)
            } else if pos + 1 < len && source[pos + 1] == 45 {
                (Token::DecrementOperation, pos + 2)
            } else if pos + 1 < len && source[pos + 1] == 61 {
                (Token::AssignmentOperation(b), pos + 2)
            } else {
                (Token::Operation(b), pos + 1)
            }
        } else if b == 42 || b == 47 || b == 37 || b == 94 {
            // * / % ^
            if pos + 1 < len && source[pos + 1] == 61 {
                (Token::AssignmentOperation(b), pos + 2)
            } else {
                (Token::Operation(b), pos + 1)
            }
        } else if b == 126 {
            // ~
            (Token::Operation(b), pos + 1)
        } else {
            (Token::Unknown(b), pos + 1)
        };

        let is_end = match &tok {
            Token::End => true,
            _ => false,
        };
        assert(!is_end);
        toks.push(tok);
        spans.push(Span { start, end: next_pos });
        pos = next_pos;
    }

    toks.push(Token::End);
    spans.push(Span { start: len, end: len });
    (toks, spans)
}

} // verus!
