//! The grade-list field: a text of comma-separated non-negative integers.

use vstd::prelude::*;

verus! {

/// Why a piece of a grade list is no integer.
#[derive(Clone, Copy, Debug, PartialEq, Eq, Structural)]
pub enum FieldFormatError {
    /// Nothing is left of the piece once it is trimmed.
    Empty,
    /// The piece holds a character that is no decimal digit, or is a lone sign.
    InvalidDigit,
    /// The digits spell a number beyond the largest `usize`.
    Overflow,
}

/// The code points with the Unicode property `White_Space`.
pub open spec fn is_whitespace(c: char) -> bool {
    let n = c as u32;
    ||| 0x09 <= n <= 0x0D
    ||| n == 0x20
    ||| n == 0x85
    ||| n == 0xA0
    ||| n == 0x1680
    ||| 0x2000 <= n <= 0x200A
    ||| n == 0x2028
    ||| n == 0x2029
    ||| n == 0x202F
    ||| n == 0x205F
    ||| n == 0x3000
}

/// Whether `c` is one of the ten decimal digits of ASCII.
pub open spec fn is_digit(c: char) -> bool {
    '0' as u32 <= c as u32 <= '9' as u32
}

/// The number that the digit `c` stands for.
pub open spec fn digit_value(c: char) -> nat
    recommends
        is_digit(c),
{
    (c as u32 - '0' as u32) as nat
}

/// `s` without the white space at its two ends.
pub open spec fn trimmed(s: Seq<char>) -> Seq<char>
    decreases s.len(),
{
    if s.len() > 0 && is_whitespace(s.first()) {
        trimmed(s.drop_first())
    } else if s.len() > 0 && is_whitespace(s.last()) {
        trimmed(s.drop_last())
    } else {
        s
    }
}

/// The pieces of `s` between its commas, read one character at a time: a
/// comma opens a new piece, any other character joins the piece that is open.
pub open spec fn segments(s: Seq<char>) -> Seq<Seq<char>>
    decreases s.len(),
{
    if s.len() == 0 {
        seq![Seq::<char>::empty()]
    } else {
        let before = segments(s.drop_last());
        if s.last() == ',' {
            before.push(Seq::<char>::empty())
        } else {
            before.drop_last().push(before.last().push(s.last()))
        }
    }
}

/// Whether `s` holds decimal digits and nothing else.
pub open spec fn all_digits(s: Seq<char>) -> bool {
    forall|i: int| 0 <= i < s.len() ==> is_digit(#[trigger] s[i])
}

/// The number that the decimal digits of `s` spell.
pub open spec fn decimal(s: Seq<char>) -> nat
    decreases s.len(),
{
    if s.len() == 0 {
        0
    } else {
        10 * decimal(s.drop_last()) + digit_value(s.last())
    }
}

/// `s` without the plus sign it may start with.
pub open spec fn unsigned_part(s: Seq<char>) -> Seq<char> {
    if s.len() > 0 && s.first() == '+' {
        s.drop_first()
    } else {
        s
    }
}

/// Whether some run of leading digits of `s` already spells more than a
/// `usize` holds.
pub open spec fn overflows(s: Seq<char>) -> bool {
    exists|n: int|
        0 <= n <= s.len() && all_digits(#[trigger] s.take(n)) && decimal(s.take(n)) > usize::MAX
}

/// The integer that `s` stands for: an optional plus sign, then at least one
/// decimal digit, the whole no larger than `usize::MAX`.
pub open spec fn integer_of(s: Seq<char>) -> Result<usize, FieldFormatError> {
    let body = unsigned_part(s);
    if s.len() == 0 {
        Err(FieldFormatError::Empty)
    } else if body.len() == 0 {
        Err(FieldFormatError::InvalidDigit)
    } else if overflows(body) {
        Err(FieldFormatError::Overflow)
    } else if !all_digits(body) {
        Err(FieldFormatError::InvalidDigit)
    } else {
        Ok(decimal(body) as usize)
    }
}

/// The integer of one piece of a grade list: white space round it is dropped.
pub open spec fn piece_value(piece: Seq<char>) -> Result<usize, FieldFormatError> {
    integer_of(trimmed(piece))
}

/// Whether `k` is the first piece of `pieces` that is no integer.
pub open spec fn is_first_failure(pieces: Seq<Seq<char>>, k: int) -> bool {
    &&& 0 <= k < pieces.len()
    &&& piece_value(pieces[k]) is Err
    &&& forall|j: int| 0 <= j < k ==> piece_value(#[trigger] pieces[j]) is Ok
}

/// What a grade list holds: the integer of each piece, in the order of the
/// text, or the fault of the first piece that is no integer.
pub open spec fn grades_of(s: Seq<char>) -> Result<Seq<usize>, FieldFormatError> {
    let pieces = segments(s);
    if forall|k: int| 0 <= k < pieces.len() ==> piece_value(#[trigger] pieces[k]) is Ok {
        Ok(Seq::new(pieces.len(), |k: int| piece_value(pieces[k])->Ok_0))
    } else {
        let k = choose|k: int| is_first_failure(pieces, k);
        Err(piece_value(pieces[k])->Err_0)
    }
}

/// Whether `c` has the Unicode property `White_Space`.
pub fn is_space(c: char) -> (r: bool)
    ensures
        r == is_whitespace(c),
{
    let n: u32 = c as u32;
    (0x09 <= n && n <= 0x0D) || n == 0x20 || n == 0x85 || n == 0xA0 || n == 0x1680 || (0x2000 <= n
        && n <= 0x200A) || n == 0x2028 || n == 0x2029 || n == 0x202F || n == 0x205F || n == 0x3000
}

/// The characters of `text`, one by one.
pub fn chars_of(text: &str) -> (chars: Vec<char>)
    ensures
        chars@ == text@,
{
    let mut chars: Vec<char> = Vec::new();
    for c in it: text.chars()
        invariant
            chars@ == it.seq().take(it.index() as int),
            it.seq() == text@,
    {
        chars.push(c);
    }
    chars
}

/// Where one piece of a grade list lies in its text: from `start` up to, not
/// including, `end`.
#[derive(Clone, Copy, Debug, PartialEq, Eq, Structural)]
pub struct Span {
    pub start: usize,
    pub end: usize,
}

impl Span {
    /// The characters of `text` that the span covers.
    pub open spec fn of(self, text: Seq<char>) -> Seq<char> {
        text.subrange(self.start as int, self.end as int)
    }

    /// Whether the span lies in `text`.
    pub open spec fn within(self, text: Seq<char>) -> bool {
        self.start <= self.end <= text.len()
    }
}

/// Splits `chars` at its commas: one span for each piece, in the order of the
/// text.
pub fn split_pieces(chars: &Vec<char>) -> (spans: Vec<Span>)
    ensures
        spans@.len() == segments(chars@).len(),
        forall|k: int|
            0 <= k < spans@.len() ==> (#[trigger] spans@[k]).within(chars@) && spans@[k].of(chars@)
                == segments(chars@)[k],
{
    let mut spans: Vec<Span> = Vec::new();
    let mut start: usize = 0;
    let mut i: usize = 0;
    assert(chars@.take(0) =~= Seq::<char>::empty());
    assert(chars@.subrange(0, 0) =~= Seq::<char>::empty());
    while i < chars.len()
        invariant
            start <= i <= chars.len(),
            segments(chars@.take(i as int)).len() == spans@.len() + 1,
            segments(chars@.take(i as int)).last() == chars@.subrange(start as int, i as int),
            forall|k: int|
                0 <= k < spans@.len() ==> (#[trigger] spans@[k]).within(chars@) && spans@[k].of(
                    chars@,
                ) == segments(chars@.take(i as int))[k],
        decreases chars.len() - i,
    {
        let ghost before = segments(chars@.take(i as int));
        assert(chars@.take(i + 1).drop_last() =~= chars@.take(i as int));
        assert(chars@.take(i + 1).last() == chars@[i as int]);
        if chars[i] == ',' {
            spans.push(Span { start, end: i });
            start = i + 1;
            assert(chars@.subrange(start as int, i + 1) =~= Seq::<char>::empty());
        } else {
            assert(chars@.subrange(start as int, i + 1) =~= chars@.subrange(
                start as int,
                i as int,
            ).push(chars@[i as int]));
        }
        i += 1;
    }
    assert(chars@.take(i as int) =~= chars@);
    spans.push(Span { start, end: i });
    spans
}

/// Narrows `span` until no white space is left at either end of it.
pub fn trim_span(chars: &Vec<char>, span: Span) -> (inner: Span)
    requires
        span.within(chars@),
    ensures
        inner.within(chars@),
        inner.of(chars@) == trimmed(span.of(chars@)),
{
    let mut from: usize = span.start;
    let mut to: usize = span.end;
    while from < to && is_space(chars[from])
        invariant
            span.start <= from <= to <= chars.len(),
            to == span.end,
            trimmed(chars@.subrange(from as int, to as int)) == trimmed(span.of(chars@)),
        decreases to - from,
    {
        assert(chars@.subrange(from as int, to as int).drop_first() =~= chars@.subrange(
            from + 1,
            to as int,
        ));
        from += 1;
    }
    while from < to && is_space(chars[to - 1])
        invariant
            from <= to <= chars.len(),
            from < to ==> !is_whitespace(chars@[from as int]),
            trimmed(chars@.subrange(from as int, to as int)) == trimmed(span.of(chars@)),
        decreases to - from,
    {
        assert(chars@.subrange(from as int, to as int).drop_last() =~= chars@.subrange(
            from as int,
            to - 1,
        ));
        to -= 1;
    }
    Span { start: from, end: to }
}

/// Reads the integer that the characters of `span` spell.
pub fn parse_integer(chars: &Vec<char>, span: Span) -> (r: Result<usize, FieldFormatError>)
    requires
        span.within(chars@),
    ensures
        r == integer_of(span.of(chars@)),
{
    let ghost whole = span.of(chars@);
    if span.start == span.end {
        return Err(FieldFormatError::Empty);
    }
    let first: usize = if chars[span.start] == '+' {
        span.start + 1
    } else {
        span.start
    };
    let ghost body = unsigned_part(whole);
    assert(body =~= chars@.subrange(first as int, span.end as int));
    if first == span.end {
        return Err(FieldFormatError::InvalidDigit);
    }
    let mut value: usize = 0;
    let mut i: usize = first;
    assert(body.take(0) =~= Seq::<char>::empty());
    while i < span.end
        invariant
            first <= i <= span.end <= chars.len(),
            first < span.end,
            span.of(chars@).len() > 0,
            body == unsigned_part(span.of(chars@)),
            body == chars@.subrange(first as int, span.end as int),
            all_digits(body.take(i - first)),
            value == decimal(body.take(i - first)),
            forall|n: int| 0 <= n <= i - first ==> decimal(#[trigger] body.take(n)) <= usize::MAX,
        decreases span.end - i,
    {
        let c: char = chars[i];
        let ghost seen = body.take(i - first);
        let ghost next = body.take(i - first + 1);
        assert(next.drop_last() =~= seen);
        assert(next.last() == c);
        let code: u32 = c as u32;
        if code < 0x30 || code > 0x39 {
            proof {
                assert(!is_digit(body[i - first]));
                assert forall|n: int|
                    0 <= n <= body.len() && all_digits(#[trigger] body.take(n)) implies decimal(
                    body.take(n),
                ) <= usize::MAX by {
                    if n > i - first {
                        assert(body.take(n)[i - first] == body[i - first]);
                    }
                }
            }
            return Err(FieldFormatError::InvalidDigit);
        }
        let digit: usize = (code - 0x30) as usize;
        assert(digit == digit_value(c));
        assert(all_digits(next)) by {
            assert forall|j: int| 0 <= j < next.len() implies is_digit(#[trigger] next[j]) by {
                if j < seen.len() {
                    assert(seen[j] == next[j]);
                }
            }
        }
        let grown: Option<usize> = match value.checked_mul(10) {
            Some(tens) => tens.checked_add(digit),
            None => None,
        };
        match grown {
            Some(sum) => {
                value = sum;
            },
            None => {
                assert(decimal(next) > usize::MAX);
                assert(overflows(body));
                return Err(FieldFormatError::Overflow);
            },
        }
        i += 1;
    }
    proof {
        assert(body.take(i - first) =~= body);
        assert forall|n: int|
            0 <= n <= body.len() && all_digits(#[trigger] body.take(n)) implies decimal(
            body.take(n),
        ) <= usize::MAX by {}
    }
    Ok(value)
}

/// Reads a grade list: splits `text` at its commas, trims each piece and reads
/// it as an integer. Gives the integers in the order of the text, or the
/// fault of the first piece that is none.
pub fn deserialize_array_usize(text: &str) -> (r: Result<Vec<usize>, FieldFormatError>)
    ensures
        match r {
            Ok(grades) => grades_of(text@) == Ok::<Seq<usize>, FieldFormatError>(grades@),
            Err(fault) => grades_of(text@) == Err::<Seq<usize>, FieldFormatError>(fault),
        },
{
    let chars = chars_of(text);
    let spans = split_pieces(&chars);
    let ghost pieces = segments(text@);
    let mut grades: Vec<usize> = Vec::new();
    let mut k: usize = 0;
    while k < spans.len()
        invariant
            k <= spans@.len(),
            chars@ == text@,
            pieces == segments(text@),
            spans@.len() == pieces.len(),
            forall|j: int|
                0 <= j < spans@.len() ==> (#[trigger] spans@[j]).within(chars@) && spans@[j].of(
                    chars@,
                ) == pieces[j],
            grades@.len() == k,
            forall|j: int|
                0 <= j < k ==> piece_value(#[trigger] pieces[j]) == Ok::<usize, FieldFormatError>(
                    grades@[j],
                ),
        decreases spans@.len() - k,
    {
        let span = spans[k];
        assert(spans@[k as int].within(chars@));
        let inner = trim_span(&chars, span);
        match parse_integer(&chars, inner) {
            Ok(grade) => {
                grades.push(grade);
            },
            Err(fault) => {
                proof {
                    assert(is_first_failure(pieces, k as int));
                    let first = choose|n: int| is_first_failure(pieces, n);
                    assert(first == k);
                }
                return Err(fault);
            },
        }
        k += 1;
    }
    assert(grades@ =~= Seq::new(pieces.len(), |j: int| piece_value(pieces[j])->Ok_0));
    Ok(grades)
}

impl FieldFormatError {
    /// The message of the fault, in the words of the integer parser of the
    /// standard library.
    pub open spec fn message_text(self) -> Seq<char> {
        match self {
            FieldFormatError::Empty => "cannot parse integer from empty string"@,
            FieldFormatError::InvalidDigit => "invalid digit found in string"@,
            FieldFormatError::Overflow => "number too large to fit in target type"@,
        }
    }

    /// The message of the fault.
    pub fn message(&self) -> (text: String)
        ensures
            text@ == self.message_text(),
    {
        match self {
            FieldFormatError::Empty => "cannot parse integer from empty string".to_owned(),
            FieldFormatError::InvalidDigit => "invalid digit found in string".to_owned(),
            FieldFormatError::Overflow => "number too large to fit in target type".to_owned(),
        }
    }
}

/// The pieces put back together, a comma between each two.
pub open spec fn joined(pieces: Seq<Seq<char>>) -> Seq<char>
    decreases pieces.len(),
{
    if pieces.len() == 0 {
        Seq::empty()
    } else if pieces.len() == 1 {
        pieces[0]
    } else {
        joined(pieces.drop_last()) + seq![','] + pieces.last()
    }
}

/// Whether `s` is a numeral that a `usize` holds: an optional plus sign, then
/// at least one decimal digit, the whole no larger than `usize::MAX`.
pub open spec fn is_numeral(s: Seq<char>) -> bool {
    let body = unsigned_part(s);
    body.len() > 0 && all_digits(body) && decimal(body) <= usize::MAX
}

/// A text always splits into at least one piece, no piece holds a comma, and
/// the pieces joined by commas are the text again.
pub proof fn law_segments_rejoin(s: Seq<char>)
    ensures
        segments(s).len() >= 1,
        joined(segments(s)) == s,
        forall|k: int, i: int|
            0 <= k < segments(s).len() && 0 <= i < segments(s)[k].len() ==> segments(s)[k][i]
                != ',',
    decreases s.len(),
{
    if s.len() == 0 {
        assert(joined(segments(s)) =~= s);
    } else {
        let shorter = s.drop_last();
        let before = segments(shorter);
        let pieces = segments(s);
        law_segments_rejoin(shorter);
        if s.last() == ',' {
            assert(pieces.drop_last() =~= before);
            assert(joined(pieces) =~= s);
        } else {
            let grown = before.last().push(s.last());
            assert(pieces.last() == grown);
            if before.len() == 1 {
                assert(joined(pieces) =~= s);
            } else {
                assert(pieces.drop_last() =~= before.drop_last());
                assert(joined(before) == joined(before.drop_last()) + seq![','] + before.last());
                assert(joined(pieces) == joined(pieces.drop_last()) + seq![','] + grown);
                assert(joined(pieces) =~= shorter.push(s.last()));
                assert(shorter.push(s.last()) =~= s);
            }
            assert forall|k: int, i: int|
                0 <= k < pieces.len() && 0 <= i < pieces[k].len() implies pieces[k][i] != ',' by {
                if k < pieces.len() - 1 {
                    assert(pieces[k] == before[k]);
                } else if i < before.last().len() {
                    assert(pieces[k][i] == before.last()[i]);
                }
            }
        }
    }
}

/// The digits read so far never spell more than all of them do.
pub proof fn lemma_decimal_grows(s: Seq<char>, n: int)
    requires
        0 <= n <= s.len(),
    ensures
        decimal(s.take(n)) <= decimal(s),
    decreases s.len() - n,
{
    if n < s.len() {
        assert(s.take(n + 1).drop_last() =~= s.take(n));
        lemma_decimal_grows(s, n + 1);
    } else {
        assert(s.take(n) =~= s);
    }
}

/// A text stands for an integer exactly when it is a numeral that a `usize`
/// holds, and the integer is then the number that its digits spell.
pub proof fn law_integer_of_numeral(s: Seq<char>)
    ensures
        integer_of(s) is Ok <==> is_numeral(s),
        is_numeral(s) ==> integer_of(s) == Ok::<usize, FieldFormatError>(
            decimal(unsigned_part(s)) as usize,
        ),
{
    let body = unsigned_part(s);
    if is_numeral(s) {
        assert forall|n: int| 0 <= n <= body.len() implies decimal(#[trigger] body.take(n))
            <= usize::MAX by {
            lemma_decimal_grows(body, n);
        }
    }
    if integer_of(s) is Ok {
        assert(body.take(body.len() as int) =~= body);
    }
}

/// A list whose every piece, once trimmed, is a numeral that a `usize` holds
/// is read in full: one integer for each piece, in the order of the text, each
/// the number that the digits of its piece spell.
pub proof fn law_list_of_numerals(s: Seq<char>)
    requires
        forall|k: int|
            0 <= k < segments(s).len() ==> is_numeral(trimmed(#[trigger] segments(s)[k])),
    ensures
        grades_of(s) matches Ok(grades) && grades.len() == segments(s).len() && forall|k: int|
            0 <= k < grades.len() ==> #[trigger] grades[k] == decimal(
                unsigned_part(trimmed(segments(s)[k])),
            ),
{
    let pieces = segments(s);
    assert forall|k: int| 0 <= k < pieces.len() implies piece_value(#[trigger] pieces[k])
        == Ok::<usize, FieldFormatError>(decimal(unsigned_part(trimmed(pieces[k]))) as usize) by {
        law_integer_of_numeral(trimmed(pieces[k]));
    }
}

/// A list with a piece that, once trimmed, is no numeral that a `usize`
/// holds (it is empty, or holds a character that is no digit, or spells too
/// large a number) is refused.
pub proof fn law_bad_piece_fails(s: Seq<char>, k: int)
    requires
        0 <= k < segments(s).len(),
        !is_numeral(trimmed(segments(s)[k])),
    ensures
        grades_of(s) is Err,
{
    law_integer_of_numeral(trimmed(segments(s)[k]));
    assert(piece_value(segments(s)[k]) is Err);
}

/// A list is read in full exactly when every piece of it, once trimmed, is a
/// numeral that a `usize` holds.
pub proof fn law_list_is_read_iff_all_numerals(s: Seq<char>)
    ensures
        grades_of(s) is Ok <==> forall|k: int|
            0 <= k < segments(s).len() ==> is_numeral(trimmed(#[trigger] segments(s)[k])),
{
    let pieces = segments(s);
    if grades_of(s) is Ok {
        assert forall|k: int| 0 <= k < pieces.len() implies is_numeral(
            trimmed(#[trigger] pieces[k]),
        ) by {
            assert(piece_value(pieces[k]) is Ok);
            law_integer_of_numeral(trimmed(pieces[k]));
        }
    }
    if forall|k: int| 0 <= k < pieces.len() ==> is_numeral(trimmed(#[trigger] pieces[k])) {
        law_list_of_numerals(s);
    }
}

/// What is trimmed off a text is white space, and what is left neither starts
/// nor ends with any: the trimmed text lies in the text from some `from` up to
/// some `to`, with nothing but white space before and after.
pub proof fn law_trimmed(s: Seq<char>) -> (ends: (int, int))
    ensures
        0 <= ends.0 <= ends.1 <= s.len(),
        trimmed(s) == s.subrange(ends.0, ends.1),
        forall|i: int| 0 <= i < ends.0 || ends.1 <= i < s.len() ==> is_whitespace(#[trigger] s[i]),
        trimmed(s).len() > 0 ==> !is_whitespace(trimmed(s).first()) && !is_whitespace(
            trimmed(s).last(),
        ),
    decreases s.len(),
{
    if s.len() > 0 && is_whitespace(s.first()) {
        let inner = law_trimmed(s.drop_first());
        assert(s.drop_first().subrange(inner.0, inner.1) =~= s.subrange(inner.0 + 1, inner.1 + 1));
        assert forall|i: int| 0 <= i < inner.0 + 1 || inner.1 + 1 <= i < s.len() implies is_whitespace(
            #[trigger] s[i],
        ) by {
            if i > 0 {
                assert(s[i] == s.drop_first()[i - 1]);
            }
        }
        (inner.0 + 1, inner.1 + 1)
    } else if s.len() > 0 && is_whitespace(s.last()) {
        let inner = law_trimmed(s.drop_last());
        assert(s.drop_last().subrange(inner.0, inner.1) =~= s.subrange(inner.0, inner.1));
        assert forall|i: int| 0 <= i < inner.0 || inner.1 <= i < s.len() implies is_whitespace(
            #[trigger] s[i],
        ) by {
            if i < s.len() - 1 {
                assert(s[i] == s.drop_last()[i]);
            }
        }
        inner
    } else {
        assert(s.subrange(0, s.len() as int) =~= s);
        (0, s.len() as int)
    }
}

} // verus!
