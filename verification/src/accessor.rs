//! Paths into a configuration tree.

use vstd::prelude::*;
use vstd::string::StrSliceExecFns;

verus! {

/// One segment of a path.
#[derive(Debug)]
pub enum AccessType {
    /// A key of a map.
    Key(String),
    /// A position in a list.
    Index(usize),
}

/// What a segment says, apart from how it is stored.
pub enum Segment {
    Key(Seq<char>),
    Index(nat),
}

impl View for AccessType {
    type V = Segment;

    open spec fn view(&self) -> Segment {
        match self {
            AccessType::Key(key) => Segment::Key(key@),
            AccessType::Index(index) => Segment::Index(*index as nat),
        }
    }
}

/// A parsed path together with a cursor that marks the segment to be used
/// next.
///
/// The cursor starts at the first segment and only ever moves forward while a
/// tree is descended.
#[derive(Debug)]
pub struct Accessor {
    stack: Vec<AccessType>,
    index: usize,
}

impl Accessor {
    /// The segments of the path, in order.
    pub closed spec fn path(&self) -> Seq<Segment> {
        self.stack@.map_values(|segment: AccessType| segment@)
    }

    /// The cursor: how many segments lie behind it.
    pub closed spec fn position(&self) -> nat {
        self.index as nat
    }

    /// The segments from the cursor on. Empty once the cursor has left the
    /// path.
    pub open spec fn remaining(&self) -> Seq<Segment> {
        if self.position() <= self.path().len() {
            self.path().skip(self.position() as int)
        } else {
            Seq::empty()
        }
    }

    /// An accessor over `stack` with the cursor on its first segment.
    pub fn new(stack: Vec<AccessType>) -> (accessor: Self)
        ensures
            accessor.path() == stack@.map_values(|segment: AccessType| segment@),
            accessor.position() == 0,
    {
        Self { stack, index: 0 }
    }

    /// The segment under the cursor, if the cursor is still on the path.
    pub fn current(&self) -> (segment: Option<&AccessType>)
        ensures
            segment is Some <==> self.position() < self.path().len(),
            segment is Some ==> segment->0@ == self.path()[self.position() as int],
            self.path().len() <= usize::MAX,
    {
        if self.index < self.stack.len() {
            Some(&self.stack[self.index])
        } else {
            None
        }
    }

    /// Moves the cursor forward by one segment. The cursor may leave the path;
    /// `current` then yields nothing.
    pub fn advance(&mut self)
        requires
            old(self).position() < usize::MAX,
        ensures
            final(self).path() == old(self).path(),
            final(self).position() == old(self).position() + 1,
    {
        self.index += 1;
    }

    /// Puts the cursor back on the first segment.
    pub fn rewind(&mut self)
        ensures
            final(self).path() == old(self).path(),
            final(self).position() == 0,
    {
        self.index = 0;
    }

    /// The number of segments of the path.
    pub fn len(&self) -> (n: usize)
        ensures
            n == self.path().len(),
    {
        self.stack.len()
    }
}

/// What can go wrong when a path is parsed.
///
/// The dotted syntax accepts every string, so the parsers of this crate never
/// return it; it is there for stricter parsers of custom accessors.
#[derive(Debug)]
pub enum AccessorParseError {
    /// The text is not a path.
    Malformed,
}

/// Whether `c` is one of the ten decimal digits.
pub open spec fn is_digit(c: char) -> bool {
    '0' <= c <= '9'
}

/// Whether `text` holds decimal digits only.
pub open spec fn all_digits(text: Seq<char>) -> bool {
    forall|i: int| 0 <= i < text.len() ==> is_digit(#[trigger] text[i])
}

/// The number that the decimal digits `digits` write.
pub open spec fn digits_value(digits: Seq<char>) -> nat
    decreases digits.len(),
{
    if digits.len() == 0 {
        0
    } else {
        (10 * digits_value(digits.drop_last()) + (digits.last() as nat - '0' as nat)) as nat
    }
}

/// The index that the token `token` writes, if it writes one: decimal
/// digits, at least one, with a `+` in front of them or without, whose
/// number fits a `usize`.
pub open spec fn index_of(token: Seq<char>) -> Option<nat> {
    let digits = if token.len() > 0 && token[0] == '+' {
        token.skip(1)
    } else {
        token
    };
    if digits.len() > 0 && all_digits(digits) && digits_value(digits) <= usize::MAX {
        Some(digits_value(digits))
    } else {
        None
    }
}

/// The segment that the token `token` stands for: an index where it writes
/// one, and else the key that is the token itself.
pub open spec fn segment_of(token: Seq<char>) -> Segment {
    match index_of(token) {
        Some(index) => Segment::Index(index),
        None => Segment::Key(token),
    }
}

/// The tokens of `text`: the pieces between its dots. A text without a dot
/// is one token, and so is the empty text; a dot at either end, or two dots
/// in a row, give an empty token.
pub open spec fn tokens(text: Seq<char>) -> Seq<Seq<char>>
    decreases text.len(),
{
    if text.len() == 0 {
        seq![Seq::empty()]
    } else {
        let before = tokens(text.drop_last());
        if text.last() == '.' {
            before.push(Seq::empty())
        } else {
            before.drop_last().push(before.last().push(text.last()))
        }
    }
}

/// The path that the dotted text `text` writes.
pub open spec fn parse_path(text: Seq<char>) -> Seq<Segment> {
    tokens(text).map_values(|token: Seq<char>| segment_of(token))
}

/// Every text writes a path of at least one segment, so a lookup by a
/// dotted text always has a segment to descend by.
pub proof fn lemma_parsed_path_is_not_empty(text: Seq<char>)
    ensures
        tokens(text).len() >= 1,
        parse_path(text).len() >= 1,
    decreases text.len(),
{
    if text.len() > 0 {
        lemma_parsed_path_is_not_empty(text.drop_last());
    }
}

/// The pieces of `pieces` in a row with a dot between each two of them.
pub open spec fn joined(pieces: Seq<Seq<char>>) -> Seq<char>
    decreases pieces.len(),
{
    if pieces.len() == 0 {
        Seq::empty()
    } else if pieces.len() == 1 {
        pieces[0]
    } else {
        joined(pieces.drop_last()) + seq!['.'] + pieces.last()
    }
}

/// The tokens of a text are its pieces between the dots: no token holds a
/// dot, and the tokens with a dot between each two of them are the text.
pub proof fn lemma_tokens_split_at_dots(text: Seq<char>)
    ensures
        forall|i: int, j: int|
            0 <= i < tokens(text).len() && 0 <= j < tokens(text)[i].len() ==> tokens(
                text,
            )[i][j] != '.',
        joined(tokens(text)) == text,
    decreases text.len(),
{
    if text.len() > 0 {
        let shorter = text.drop_last();
        let before = tokens(shorter);
        let c = text.last();
        lemma_tokens_split_at_dots(shorter);
        lemma_parsed_path_is_not_empty(shorter);
        if c == '.' {
            let after = before.push(Seq::<char>::empty());
            assert(after.drop_last() =~= before);
        } else {
            let after = before.drop_last().push(before.last().push(c));
            assert(after.drop_last() =~= before.drop_last());
            if before.len() > 1 {
                assert(joined(after) =~= joined(before).push(c));
            }
        }
    }
}

/// A dot joins two paths: the text of one path, a dot and the text of
/// another path write the segments of the first followed by those of the
/// second.
pub proof fn lemma_dot_joins_paths(first: Seq<char>, second: Seq<char>)
    ensures
        tokens(first + seq!['.'] + second) == tokens(first) + tokens(second),
        parse_path(first + seq!['.'] + second) == parse_path(first) + parse_path(second),
    decreases second.len(),
{
    let text = first + seq!['.'] + second;
    if second.len() == 0 {
        assert(text.drop_last() =~= first);
    } else {
        let shorter = second.drop_last();
        let before = first + seq!['.'] + shorter;
        assert(text.drop_last() =~= before);
        lemma_dot_joins_paths(first, shorter);
        lemma_parsed_path_is_not_empty(shorter);
        let left = tokens(first);
        let right = tokens(shorter);
        if second.last() == '.' {
            assert((left + right).push(Seq::<char>::empty()) =~= left + right.push(
                Seq::<char>::empty(),
            ));
        } else {
            assert((left + right.drop_last()).push(right.last().push(second.last())) =~= left
                + right.drop_last().push(right.last().push(second.last())));
        }
    }
}

/// The digits of a number write at least the number that fewer of them
/// write.
pub proof fn lemma_digits_value_grows(digits: Seq<char>, k: int)
    requires
        0 <= k <= digits.len(),
        all_digits(digits),
    ensures
        digits_value(digits.take(k)) <= digits_value(digits),
    decreases digits.len() - k,
{
    if k == digits.len() {
        assert(digits.take(k) =~= digits);
    } else {
        let shorter = digits.drop_last();
        assert(shorter.take(k) =~= digits.take(k));
        assert(all_digits(shorter));
        lemma_digits_value_grows(shorter, k);
    }
}

/// Reads `token` as an index, as `usize::from_str` reads it.
pub fn parse_index(token: &str) -> (index: Option<usize>)
    ensures
        match index_of(token@) {
            Some(value) => index == Some(value as usize),
            None => index is None,
        },
{
    let length = token.unicode_len();
    let mut i: usize = 0;
    if length > 0 && token.get_char(0) == '+' {
        i = 1;
    }
    let first = i;
    let ghost digits = token@.skip(first as int);
    if i == length {
        return None;
    }
    let mut value: usize = 0;
    while i < length
        invariant
            first <= i <= length,
            first < length,
            length == token@.len(),
            first == if token@[0] == '+' {
                1usize
            } else {
                0usize
            },
            digits == token@.skip(first as int),
            all_digits(digits.take(i - first)),
            value == digits_value(digits.take(i - first)),
        decreases length - i,
    {
        let c = token.get_char(i);
        let ghost seen = digits.take(i - first + 1);
        assert(seen.drop_last() =~= digits.take(i - first));
        if !('0' <= c && c <= '9') {
            return None;
        }
        assert(all_digits(seen));
        let digit: usize = (c as u32 - '0' as u32) as usize;
        if value > (usize::MAX - digit) / 10 {
            proof {
                assert(token@.skip(0) =~= token@);
                if all_digits(digits) {
                    lemma_digits_value_grows(digits, i - first + 1);
                }
            }
            return None;
        }
        value = value * 10 + digit;
        i += 1;
    }
    assert(digits.take(i - first) =~= digits);
    assert(token@.skip(0) =~= token@);
    Some(value)
}

/// The segment that `token` stands for.
pub fn parse_segment(token: &str) -> (segment: AccessType)
    ensures
        segment@ == segment_of(token@),
{
    match parse_index(token) {
        Some(index) => AccessType::Index(index),
        None => AccessType::Key(token.to_owned()),
    }
}

/// Splits `text` at its dots and reads every piece as a segment.
pub fn parse_dotted(text: &str) -> (accessor: Accessor)
    ensures
        accessor.path() == parse_path(text@),
        accessor.position() == 0,
{
    let length = text.unicode_len();
    let mut stack: Vec<AccessType> = Vec::new();
    let ghost mut done: Seq<Seq<char>> = Seq::empty();
    let mut start: usize = 0;
    let mut i: usize = 0;
    assert(text@.take(0) =~= Seq::<char>::empty());
    while i < length
        invariant
            start <= i <= length,
            length == text@.len(),
            tokens(text@.take(i as int)) == done.push(text@.subrange(start as int, i as int)),
            stack@.len() == done.len(),
            forall|j: int| 0 <= j < done.len() ==> (#[trigger] stack@[j])@ == segment_of(done[j]),
        decreases length - i,
    {
        let c = text.get_char(i);
        let ghost upto = text@.take(i + 1);
        let ghost piece = text@.subrange(start as int, i as int);
        assert(upto.drop_last() =~= text@.take(i as int));
        if c == '.' {
            let token = text.substring_char(start, i);
            let segment = parse_segment(token);
            stack.push(segment);
            start = i + 1;
            proof {
                done = done.push(piece);
            }
            assert(text@.subrange(start as int, i + 1) =~= Seq::<char>::empty());
        } else {
            assert(piece.push(c) =~= text@.subrange(start as int, i + 1));
        }
        i += 1;
    }
    assert(text@.take(i as int) =~= text@);
    let token = text.substring_char(start, length);
    let segment = parse_segment(token);
    stack.push(segment);
    Accessor::new(stack)
}

/// What can be read as a path.
///
/// `&str` and `String` are read as dotted paths: the text is split at its
/// dots, a piece that writes a number is an index into a list, and any other
/// piece is a key of a map. `"foo.5.bar"` is the key `foo`, the index 5 and
/// the key `bar`.
pub trait ParsableAccessor {
    /// The path that this value stands for, if it stands for one. An
    /// implementation states it; where it does not, nothing is known of it.
    open spec fn denotes(&self) -> Option<Seq<Segment>> {
        arbitrary()
    }

    /// The accessor for the path that this value stands for, with its cursor
    /// on the first segment.
    fn parse(&self) -> (parsed: Result<Accessor, AccessorParseError>)
        ensures
            match self.denotes() {
                Some(path) => parsed matches Ok(accessor) && accessor.path() == path
                    && accessor.position() == 0,
                None => parsed is Err,
            },
    ;
}

impl ParsableAccessor for &str {
    open spec fn denotes(&self) -> Option<Seq<Segment>> {
        Some(parse_path(self@))
    }

    fn parse(&self) -> (parsed: Result<Accessor, AccessorParseError>) {
        Ok(parse_dotted(self))
    }
}

impl ParsableAccessor for String {
    open spec fn denotes(&self) -> Option<Seq<Segment>> {
        Some(parse_path(self@))
    }

    fn parse(&self) -> (parsed: Result<Accessor, AccessorParseError>) {
        Ok(parse_dotted(self.as_str()))
    }
}

} // verus!
