//! How deep a TOML text nests.
//!
//! The parser for TOML descends by recursion into nested arrays and inline
//! tables, into the parts of a dotted key and into the parts of the name of a
//! table, and has no limit of its own. So a text is measured here before it
//! is handed over: how many brackets and parts of keys lie around one place
//! of the text at most.

use vstd::prelude::*;

verus! {

/// Where a walk through a TOML text stands with respect to strings and
/// comments.
#[derive(Clone, Copy, Debug, PartialEq, Eq, Structural)]
pub enum Lexing {
    /// Outside of strings and comments.
    Plain,
    /// In a comment, up to the end of the line.
    Comment,
    /// In a string between double quotes.
    Basic,
    /// Behind a backslash in a string between double quotes.
    BasicEscape,
    /// In a string between single quotes.
    Literal,
    /// In the three quotes that start a string of several lines, double
    /// quotes or single ones, with so many of them still to come.
    Opening(bool, u8),
    /// In a string of several lines, between double quotes or single ones,
    /// behind so many quotes in a row.
    Multi(bool, u8),
    /// Behind a backslash in a string of several lines between double
    /// quotes.
    MultiEscape,
    /// Behind the three quotes that end a string of several lines, double
    /// quotes or single ones: so many quotes in a row were passed, and up to
    /// five of them belong to the string.
    Closed(bool, u8),
    /// Behind a line end in a string of one line, where the text stops to be
    /// TOML: where strings end is not followed any further.
    Unknown,
}

/// The quote of a string: the double quote or the single one.
pub open spec fn quote(double: bool) -> u8 {
    if double {
        0x22
    } else {
        0x27
    }
}

/// What a walk through the first bytes of a TOML text has come to. Every
/// count is an upper bound for what it counts.
pub struct Walk {
    pub lexing: Lexing,
    /// For every bracket that is open, from the outermost on, the dots of
    /// the key whose value the bracket is part of; for the bracket of a list
    /// none.
    pub outer: Seq<usize>,
    /// The dots of the key whose value the walk is in, within the innermost
    /// open bracket.
    pub here: usize,
    /// The dots of all keys around where the walk is: those of `outer` and
    /// `here` together.
    pub total: usize,
    /// The largest value that the open brackets and `total` together have
    /// had.
    pub deepest: usize,
    /// The dots since the last byte that ends a key or a value.
    pub run: usize,
    /// The most dots in the name of a table.
    pub most_header: usize,
    /// Whether the statement that the walk is in has had an equals sign.
    pub assigned: bool,
}

/// A [`Walk`] as the scanner holds it.
pub struct Scan {
    pub lexing: Lexing,
    pub outer: Vec<usize>,
    pub here: usize,
    pub total: usize,
    pub deepest: usize,
    pub run: usize,
    pub most_header: usize,
    pub assigned: bool,
}

impl View for Scan {
    type V = Walk;

    open spec fn view(&self) -> Walk {
        Walk {
            lexing: self.lexing,
            outer: self.outer@,
            here: self.here,
            total: self.total,
            deepest: self.deepest,
            run: self.run,
            most_header: self.most_header,
            assigned: self.assigned,
        }
    }
}

/// `n + 1`, or `n` where that is the largest number.
pub open spec fn bump(n: usize) -> usize {
    if n < usize::MAX {
        (n + 1) as usize
    } else {
        n
    }
}

/// `a + b`, or the largest number where the sum is larger.
pub open spec fn sum(a: usize, b: usize) -> usize {
    if a <= usize::MAX - b {
        (a + b) as usize
    } else {
        usize::MAX
    }
}

/// `a - b`, or nothing where `b` is larger.
pub open spec fn less(a: usize, b: usize) -> usize {
    if a >= b {
        (a - b) as usize
    } else {
        0
    }
}

/// The larger of `a` and `b`.
pub open spec fn larger(a: usize, b: usize) -> usize {
    if a >= b {
        a
    } else {
        b
    }
}

/// Whether `byte` opens an array, an inline table or the name of a table.
pub open spec fn opens(byte: u8) -> bool {
    byte == 0x5b || byte == 0x7b
}

/// Whether `byte` closes what `opens` opens.
pub open spec fn closes(byte: u8) -> bool {
    byte == 0x5d || byte == 0x7d
}

/// Whether the byte at `i` and the two bytes behind it are the same: with a
/// quote at `i`, the start of a string that runs over several lines.
pub open spec fn tripled(bytes: Seq<u8>, i: int) -> bool {
    i + 2 < bytes.len() && bytes[i + 1] == bytes[i] && bytes[i + 2] == bytes[i]
}

/// How deep the walk is: the open brackets and the dots of the keys around
/// it together.
pub open spec fn depth(walk: Walk) -> usize {
    sum(walk.outer.len() as usize, walk.total)
}

/// The walk behind a byte that ends a run of dots without making it a key:
/// where the statement has no equals sign yet, the run may be the name of a
/// table.
pub open spec fn run_ended(before: Walk) -> Walk {
    Walk {
        run: 0,
        most_header: if before.assigned {
            before.most_header
        } else {
            larger(before.most_header, before.run)
        },
        ..before
    }
}

/// The walk behind the equals sign that makes a run of dots a key: the
/// value of the key lies as many tables deeper as the key has dots.
pub open spec fn key_ended(before: Walk) -> Walk {
    let grown = Walk {
        run: 0,
        here: sum(before.here, before.run),
        total: sum(before.total, before.run),
        assigned: true,
        ..before
    };
    Walk { deepest: larger(before.deepest, depth(grown)), ..grown }
}

/// The walk behind the end of the value of a key: the dots of the key count
/// no longer.
pub open spec fn value_ended(before: Walk) -> Walk {
    Walk { here: 0, total: less(before.total, before.here), ..before }
}

/// The walk behind a line end outside of strings: a statement ends there
/// unless a bracket is open.
pub open spec fn line_ended(before: Walk) -> Walk {
    let ended = run_ended(before);
    if ended.outer.len() == 0 {
        Walk { lexing: Lexing::Plain, assigned: false, ..value_ended(ended) }
    } else {
        Walk { lexing: Lexing::Plain, ..ended }
    }
}

/// The walk behind an opening bracket: what follows lies within the value
/// of the key that the walk was in.
pub open spec fn opened(before: Walk) -> Walk {
    let within = Walk { outer: before.outer.push(before.here), here: 0, ..before };
    Walk { deepest: larger(before.deepest, depth(within)), ..within }
}

/// The walk behind a closing bracket: the value of the key within the
/// bracket has ended, and the walk is back in the value that the bracket
/// was part of.
pub open spec fn closed(before: Walk) -> Walk {
    if before.outer.len() > 0 {
        Walk {
            outer: before.outer.drop_last(),
            here: before.outer.last(),
            ..value_ended(before)
        }
    } else {
        before
    }
}

/// The walk from where it no longer follows where strings end: the run of
/// dots counts as part of a key.
pub open spec fn lost(before: Walk) -> Walk {
    Walk { lexing: Lexing::Unknown, ..key_ended(before) }
}

/// The walk behind a dot of which it is not known whether it lies in a
/// string: it counts as a dot of a key.
pub open spec fn dotted(before: Walk) -> Walk {
    let grown = Walk { here: bump(before.here), total: bump(before.total), ..before };
    Walk { deepest: larger(before.deepest, depth(grown)), ..grown }
}

/// The walk one byte further outside of strings and comments.
///
/// An opening bracket is counted and a closing bracket takes one off the
/// count. Dots are counted in runs: a run that an equals sign ends is a key,
/// and its dots count until the value of the key ends, at a comma, at the
/// bracket that closes the table around it or at the end of the statement;
/// a run that anything else ends is a value, or the name of a table where
/// the statement has no equals sign yet. A statement ends at a line end at
/// which no bracket is open.
pub open spec fn plain_step(bytes: Seq<u8>, i: int, before: Walk) -> Walk {
    let byte = bytes[i];
    if opens(byte) {
        opened(run_ended(before))
    } else if closes(byte) {
        closed(run_ended(before))
    } else if byte == 0x2c {
        value_ended(run_ended(before))
    } else if byte == 0x3d {
        key_ended(before)
    } else if byte == 0x2e {
        Walk { run: bump(before.run), ..before }
    } else if byte == 0x0a {
        line_ended(before)
    } else if byte == 0x23 {
        Walk { lexing: Lexing::Comment, ..before }
    } else if byte == 0x22 {
        Walk {
            lexing: if tripled(bytes, i) {
                Lexing::Opening(true, 2)
            } else {
                Lexing::Basic
            },
            ..before
        }
    } else if byte == 0x27 {
        Walk {
            lexing: if tripled(bytes, i) {
                Lexing::Opening(false, 2)
            } else {
                Lexing::Literal
            },
            ..before
        }
    } else {
        before
    }
}

/// The walk one byte further: `before` is what the walk has come to in
/// front of the byte at `i`.
///
/// Outside of strings and comments the walk counts as `plain_step` says. In
/// a string and in a comment nothing is counted. A string of one line ends
/// at its quote, and a backslash between double quotes takes the byte behind
/// it along. A string of several lines ends at three of its quotes in a row
/// and takes up to two more quotes along; fewer than three quotes in a row
/// are part of it.
///
/// From a line end in a string of one line on, where the text stops to be
/// TOML, every opening bracket and every dot is counted and nothing is taken
/// off any more.
pub open spec fn scan_step(bytes: Seq<u8>, i: int, before: Walk) -> Walk {
    let byte = bytes[i];
    match before.lexing {
        Lexing::Plain => plain_step(bytes, i, before),
        Lexing::Comment => if byte == 0x0a {
            line_ended(before)
        } else {
            before
        },
        Lexing::Basic => if byte == 0x5c {
            Walk { lexing: Lexing::BasicEscape, ..before }
        } else if byte == 0x22 {
            Walk { lexing: Lexing::Plain, ..before }
        } else if byte == 0x0a {
            lost(before)
        } else {
            before
        },
        Lexing::BasicEscape => Walk { lexing: Lexing::Basic, ..before },
        Lexing::Literal => if byte == 0x27 {
            Walk { lexing: Lexing::Plain, ..before }
        } else if byte == 0x0a {
            lost(before)
        } else {
            before
        },
        Lexing::Opening(double, left) => Walk {
            lexing: if left > 1 {
                Lexing::Opening(double, 1)
            } else {
                Lexing::Multi(double, 0)
            },
            ..before
        },
        Lexing::Multi(double, quotes) => Walk {
            lexing: if byte == quote(double) {
                if quotes == 0 {
                    Lexing::Multi(double, 1)
                } else if quotes == 1 {
                    Lexing::Multi(double, 2)
                } else {
                    Lexing::Closed(double, 3)
                }
            } else if double && byte == 0x5c {
                Lexing::MultiEscape
            } else {
                Lexing::Multi(double, 0)
            },
            ..before
        },
        Lexing::MultiEscape => Walk { lexing: Lexing::Multi(true, 0), ..before },
        Lexing::Closed(double, quotes) => if byte == quote(double) {
            Walk {
                lexing: if quotes <= 3 {
                    Lexing::Closed(double, 4)
                } else {
                    Lexing::Plain
                },
                ..before
            }
        } else {
            plain_step(bytes, i, Walk { lexing: Lexing::Plain, ..before })
        },
        Lexing::Unknown => if opens(byte) {
            opened(before)
        } else if byte == 0x2e {
            dotted(before)
        } else {
            before
        },
    }
}

/// The walk in front of the first byte.
pub open spec fn scan_start() -> Walk {
    Walk {
        lexing: Lexing::Plain,
        outer: Seq::empty(),
        here: 0,
        total: 0,
        deepest: 0,
        run: 0,
        most_header: 0,
        assigned: false,
    }
}

/// What the walk through the first `n` bytes of `bytes` comes to.
pub open spec fn scanned(bytes: Seq<u8>, n: int) -> Walk
    decreases n,
{
    if n <= 0 {
        scan_start()
    } else {
        scan_step(bytes, n - 1, scanned(bytes, n - 1))
    }
}

/// An upper bound for how deep the TOML text `bytes` nests: the most that
/// the open brackets and the dots of the keys around one place come to
/// together, and the most dots in the name of a table on top of it.
pub open spec fn nesting(bytes: Seq<u8>) -> int {
    let end = scanned(bytes, bytes.len() as int);
    end.deepest + larger(end.most_header, if end.assigned {
        0
    } else {
        end.run
    })
}

fn bumped(n: usize) -> (m: usize)
    ensures
        m == bump(n),
{
    if n < usize::MAX {
        n + 1
    } else {
        n
    }
}

fn summed(a: usize, b: usize) -> (c: usize)
    ensures
        c == sum(a, b),
{
    if a <= usize::MAX - b {
        a + b
    } else {
        usize::MAX
    }
}

fn lessened(a: usize, b: usize) -> (c: usize)
    ensures
        c == less(a, b),
{
    if a >= b {
        a - b
    } else {
        0
    }
}

fn largest(a: usize, b: usize) -> (c: usize)
    ensures
        c == larger(a, b),
{
    if a >= b {
        a
    } else {
        b
    }
}

fn with_lexing(before: Scan, lexing: Lexing) -> (after: Scan)
    ensures
        after@ == (Walk { lexing, ..before@ }),
{
    let mut scan = before;
    scan.lexing = lexing;
    scan
}

fn deepen(before: Scan) -> (after: Scan)
    ensures
        after@ == (Walk { deepest: larger(before@.deepest, depth(before@)), ..before@ }),
{
    let mut scan = before;
    let now = summed(scan.outer.len(), scan.total);
    scan.deepest = largest(scan.deepest, now);
    scan
}

fn end_run(before: Scan) -> (after: Scan)
    ensures
        after@ == run_ended(before@),
{
    let mut scan = before;
    if !scan.assigned {
        scan.most_header = largest(scan.most_header, scan.run);
    }
    scan.run = 0;
    scan
}

fn end_key(before: Scan) -> (after: Scan)
    ensures
        after@ == key_ended(before@),
{
    let mut scan = before;
    scan.here = summed(scan.here, scan.run);
    scan.total = summed(scan.total, scan.run);
    scan.run = 0;
    scan.assigned = true;
    deepen(scan)
}

fn end_value(before: Scan) -> (after: Scan)
    ensures
        after@ == value_ended(before@),
{
    let mut scan = before;
    scan.total = lessened(scan.total, scan.here);
    scan.here = 0;
    scan
}

fn end_line(before: Scan) -> (after: Scan)
    ensures
        after@ == line_ended(before@),
{
    let ended = end_run(before);
    if ended.outer.len() == 0 {
        let mut scan = end_value(ended);
        scan.lexing = Lexing::Plain;
        scan.assigned = false;
        scan
    } else {
        with_lexing(ended, Lexing::Plain)
    }
}

fn open_one(before: Scan) -> (after: Scan)
    ensures
        after@ == opened(before@),
{
    let mut scan = before;
    scan.outer.push(scan.here);
    scan.here = 0;
    deepen(scan)
}

fn close_one(before: Scan) -> (after: Scan)
    ensures
        after@ == closed(before@),
{
    if before.outer.len() > 0 {
        let mut scan = end_value(before);
        match scan.outer.pop() {
            Some(around) => {
                scan.here = around;
            },
            None => {},
        }
        scan
    } else {
        before
    }
}

fn lose(before: Scan) -> (after: Scan)
    ensures
        after@ == lost(before@),
{
    with_lexing(end_key(before), Lexing::Unknown)
}

fn dot(before: Scan) -> (after: Scan)
    ensures
        after@ == dotted(before@),
{
    let mut scan = before;
    scan.here = bumped(scan.here);
    scan.total = bumped(scan.total);
    deepen(scan)
}

/// Takes the walk one byte further outside of strings and comments.
fn step_plain(bytes: &[u8], i: usize, before: Scan) -> (after: Scan)
    requires
        i < bytes@.len(),
    ensures
        after@ == plain_step(bytes@, i as int, before@),
{
    let byte = bytes[i];
    let three = bytes.len() - i > 2 && bytes[i + 1] == byte && bytes[i + 2] == byte;
    if byte == 0x5b || byte == 0x7b {
        open_one(end_run(before))
    } else if byte == 0x5d || byte == 0x7d {
        close_one(end_run(before))
    } else if byte == 0x2c {
        end_value(end_run(before))
    } else if byte == 0x3d {
        end_key(before)
    } else if byte == 0x2e {
        let mut scan = before;
        scan.run = bumped(scan.run);
        scan
    } else if byte == 0x0a {
        end_line(before)
    } else if byte == 0x23 {
        with_lexing(before, Lexing::Comment)
    } else if byte == 0x22 {
        if three {
            with_lexing(before, Lexing::Opening(true, 2))
        } else {
            with_lexing(before, Lexing::Basic)
        }
    } else if byte == 0x27 {
        if three {
            with_lexing(before, Lexing::Opening(false, 2))
        } else {
            with_lexing(before, Lexing::Literal)
        }
    } else {
        before
    }
}

/// Takes the walk one byte further.
fn step(bytes: &[u8], i: usize, before: Scan) -> (after: Scan)
    requires
        i < bytes@.len(),
    ensures
        after@ == scan_step(bytes@, i as int, before@),
{
    let byte = bytes[i];
    match before.lexing {
        Lexing::Plain => step_plain(bytes, i, before),
        Lexing::Comment => {
            if byte == 0x0a {
                end_line(before)
            } else {
                before
            }
        },
        Lexing::Basic => {
            if byte == 0x5c {
                with_lexing(before, Lexing::BasicEscape)
            } else if byte == 0x22 {
                with_lexing(before, Lexing::Plain)
            } else if byte == 0x0a {
                lose(before)
            } else {
                before
            }
        },
        Lexing::BasicEscape => with_lexing(before, Lexing::Basic),
        Lexing::Literal => {
            if byte == 0x27 {
                with_lexing(before, Lexing::Plain)
            } else if byte == 0x0a {
                lose(before)
            } else {
                before
            }
        },
        Lexing::Opening(double, left) => {
            if left > 1 {
                with_lexing(before, Lexing::Opening(double, 1))
            } else {
                with_lexing(before, Lexing::Multi(double, 0))
            }
        },
        Lexing::Multi(double, quotes) => {
            let ending: u8 = if double {
                0x22
            } else {
                0x27
            };
            let lexing = if byte == ending {
                if quotes == 0 {
                    Lexing::Multi(double, 1)
                } else if quotes == 1 {
                    Lexing::Multi(double, 2)
                } else {
                    Lexing::Closed(double, 3)
                }
            } else if double && byte == 0x5c {
                Lexing::MultiEscape
            } else {
                Lexing::Multi(double, 0)
            };
            with_lexing(before, lexing)
        },
        Lexing::MultiEscape => with_lexing(before, Lexing::Multi(true, 0)),
        Lexing::Closed(double, quotes) => {
            let ending: u8 = if double {
                0x22
            } else {
                0x27
            };
            if byte == ending {
                if quotes <= 3 {
                    with_lexing(before, Lexing::Closed(double, 4))
                } else {
                    with_lexing(before, Lexing::Plain)
                }
            } else {
                step_plain(bytes, i, with_lexing(before, Lexing::Plain))
            }
        },
        Lexing::Unknown => {
            if byte == 0x5b || byte == 0x7b {
                open_one(before)
            } else if byte == 0x2e {
                dot(before)
            } else {
                before
            }
        },
    }
}

/// Measures how deep the TOML text `bytes` nests. Where the depth is larger
/// than the largest number, that number is the result.
pub fn measure_nesting(bytes: &[u8]) -> (depth: usize)
    ensures
        depth == if nesting(bytes@) <= usize::MAX {
            nesting(bytes@)
        } else {
            usize::MAX as int
        },
{
    let mut scan = Scan {
        lexing: Lexing::Plain,
        outer: Vec::new(),
        here: 0,
        total: 0,
        deepest: 0,
        run: 0,
        most_header: 0,
        assigned: false,
    };
    let mut i: usize = 0;
    while i < bytes.len()
        invariant
            i <= bytes@.len(),
            scan@ == scanned(bytes@, i as int),
        decreases bytes@.len() - i,
    {
        scan = step(bytes, i, scan);
        i += 1;
    }
    let header = largest(
        scan.most_header,
        if scan.assigned {
            0
        } else {
            scan.run
        },
    );
    summed(scan.deepest, header)
}

} // verus!
