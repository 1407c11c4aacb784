//! The cardinal-direction grammar: deciding whether a tuple of one to
//! three primary directions spells one of the sixteen points of the
//! compass rose.

use vstd::prelude::*;
use vstd::string::StringExecFns;

verus! {

/// The cardinal direction enum, for NSEW.
#[derive(Debug, Clone, Copy, PartialEq, Eq, Structural)]
pub enum Direction {
    N,
    S,
    E,
    W,
}

/// A written compass bearing: one mandatory primary cardinal direction
/// followed by up to two optional ones. Covers forms like N, SW and
/// ESE. The raw and the validated representation share this shape; a
/// tuple certifies nothing until `validate_cardinal3` accepts it.
pub type Cardinal3 = (Direction, Option<Direction>, Option<Direction>);

/// The one-letter label a primary direction is written as.
pub open spec fn spec_label(d: Direction) -> Seq<char> {
    match d {
        Direction::N => seq!['N'],
        Direction::S => seq!['S'],
        Direction::E => seq!['E'],
        Direction::W => seq!['W'],
    }
}

impl Direction {
    /// The letter this direction is written as.
    pub fn to_string(&self) -> (s: String)
        ensures
            s@ == spec_label(*self),
    {
        match *self {
            Direction::N => {
                proof {
                    reveal_strlit("N");
                    assert("N"@ =~= seq!['N']);
                }
                String::from_str("N")
            },
            Direction::S => {
                proof {
                    reveal_strlit("S");
                    assert("S"@ =~= seq!['S']);
                }
                String::from_str("S")
            },
            Direction::E => {
                proof {
                    reveal_strlit("E");
                    assert("E"@ =~= seq!['E']);
                }
                String::from_str("E")
            },
            Direction::W => {
                proof {
                    reveal_strlit("W");
                    assert("W"@ =~= seq!['W']);
                }
                String::from_str("W")
            },
        }
    }
}

/// The letter sequence a tuple renders to: the labels of the elements
/// that are present, concatenated, stopping at the first absent
/// optional element.
pub open spec fn spec_c3_string(c: Cardinal3) -> Seq<char> {
    match c.1 {
        None => spec_label(c.0),
        Some(d1) => match c.2 {
            None => spec_label(c.0) + spec_label(d1),
            Some(d2) => spec_label(c.0) + spec_label(d1) + spec_label(d2),
        },
    }
}

/// Converts a `Cardinal3` to a `String`.
pub fn c3_to_string(direction: Cardinal3) -> (s: String)
    ensures
        s@ == spec_c3_string(direction),
{
    // Container for the string; push the first item, then handle the
    // optional directions.
    let mut string = String::new();
    let first = direction.0.to_string();
    string.append(first.as_str());
    match direction.1 {
        None => {
            proof {
                assert(string@ =~= spec_c3_string(direction));
            }
            string
        },
        Some(d1) => {
            let second = d1.to_string();
            string.append(second.as_str());
            match direction.2 {
                None => {
                    proof {
                        assert(string@ =~= spec_c3_string(direction));
                    }
                    string
                },
                Some(d2) => {
                    let third = d2.to_string();
                    string.append(third.as_str());
                    proof {
                        assert(string@ =~= spec_c3_string(direction));
                    }
                    string
                },
            }
        },
    }
}

/// Error: a direction tuple does not spell a realizable compass point.
#[derive(Debug, Clone)]
pub struct InvalidCardinal;

impl InvalidCardinal {
    /// A human-readable description of the error.
    pub fn message(&self) -> (s: String)
        ensures
            s@ == "Cardinal direction must be semantically valid."@,
    {
        String::from_str("Cardinal direction must be semantically valid.")
    }
}

/// Whether a direction lies on the north/south axis.
pub open spec fn spec_is_ns(d: Direction) -> bool {
    d == Direction::N || d == Direction::S
}

/// Whether a direction lies on the east/west axis.
pub open spec fn spec_is_ew(d: Direction) -> bool {
    d == Direction::E || d == Direction::W
}

/// Whether the tuple is well shaped: an element may be present only if
/// every earlier one is. A third element after an absent second is a
/// malformed input, never a silent skip.
pub open spec fn spec_shape_ok(c: Cardinal3) -> bool {
    c.2 is Some ==> c.1 is Some
}

/// Whether the tuple spells one of the sixteen compass-rose points.
///
/// A single primary direction always does. A pair does exactly when it
/// is an intercardinal turn from the north/south axis to the east/west
/// axis (NE, SE, SW, NW). A triple does exactly when it is a
/// secondary-intercardinal: either the first direction doubled and then
/// crossed (NNE, NNW, SSE, SSW), or an east/west direction around a
/// north/south one, closed by repeating the first (ENE, ESE, WNW, WSW).
pub open spec fn spec_is_compass_point(c: Cardinal3) -> bool {
    match (c.1, c.2) {
        (None, None) => true,
        (Some(d1), None) => spec_is_ns(c.0) && spec_is_ew(d1),
        (Some(d1), Some(d2)) => (spec_is_ns(c.0) && d1 == c.0 && spec_is_ew(d2)) || (spec_is_ew(
            c.0,
        ) && spec_is_ns(d1) && d2 == c.0),
        (None, Some(_)) => false,
    }
}

/// This validates a `Cardinal3` - if valid it returns the cardinal.
/// Else, an error. It accepts exactly the tuples that spell one of the
/// sixteen compass-rose labels, and rejects everything else, including
/// malformed shapes where a third element follows an absent second.
pub fn validate_cardinal3(direction: Cardinal3) -> (r: Result<Cardinal3, InvalidCardinal>)
    ensures
        r matches Ok(c) ==> c == direction,
        r is Ok <==> spec_is_compass_point(direction),
        r is Ok <==> (spec_shape_ok(direction) && spec_rose_labels().contains(
            spec_c3_string(direction),
        )),
{
    proof {
        lemma_compass_point_iff_rose_label(direction);
    }
    let (d0, o1, o2) = direction;
    let accepted: bool = match (o1, o2) {
        (None, None) => true,
        (Some(d1), None) => axis_ns(d0) && axis_ew(d1),
        (Some(d1), Some(d2)) => (axis_ns(d0) && d1 == d0 && axis_ew(d2)) || (axis_ew(d0) && axis_ns(
            d1,
        ) && d2 == d0),
        (None, Some(_)) => false,
    };
    if accepted {
        Ok(direction)
    } else {
        Err(InvalidCardinal)
    }
}

/// The sixteen legal compass-rose labels: the primary directions, the
/// intercardinals, and the secondary-intercardinals.
pub open spec fn spec_rose_labels() -> Set<Seq<char>> {
    set![
        seq!['N'],
        seq!['E'],
        seq!['S'],
        seq!['W'],
        seq!['N', 'E'],
        seq!['S', 'E'],
        seq!['S', 'W'],
        seq!['N', 'W'],
        seq!['N', 'N', 'E'],
        seq!['E', 'N', 'E'],
        seq!['E', 'S', 'E'],
        seq!['S', 'S', 'E'],
        seq!['S', 'S', 'W'],
        seq!['W', 'S', 'W'],
        seq!['W', 'N', 'W'],
        seq!['N', 'N', 'W'],
    ]
}

/// Law: a tuple is a compass point exactly when it is well shaped and
/// its rendered letter sequence is one of the sixteen compass-rose
/// labels. The shape condition cannot be dropped: a malformed tuple
/// whose third element follows an absent second still renders to its
/// first letter alone, which is a legal label, yet it is not accepted.
pub proof fn lemma_compass_point_iff_rose_label(c: Cardinal3)
    ensures
        spec_is_compass_point(c) <==> (spec_shape_ok(c) && spec_rose_labels().contains(
            spec_c3_string(c),
        )),
{
    assert(seq!['N'] + seq!['E'] =~= seq!['N', 'E']);
    assert(seq!['S'] + seq!['E'] =~= seq!['S', 'E']);
    assert(seq!['S'] + seq!['W'] =~= seq!['S', 'W']);
    assert(seq!['N'] + seq!['W'] =~= seq!['N', 'W']);
    assert(seq!['N'] + seq!['N'] + seq!['E'] =~= seq!['N', 'N', 'E']);
    assert(seq!['E'] + seq!['N'] + seq!['E'] =~= seq!['E', 'N', 'E']);
    assert(seq!['E'] + seq!['S'] + seq!['E'] =~= seq!['E', 'S', 'E']);
    assert(seq!['S'] + seq!['S'] + seq!['E'] =~= seq!['S', 'S', 'E']);
    assert(seq!['S'] + seq!['S'] + seq!['W'] =~= seq!['S', 'S', 'W']);
    assert(seq!['W'] + seq!['S'] + seq!['W'] =~= seq!['W', 'S', 'W']);
    assert(seq!['W'] + seq!['N'] + seq!['W'] =~= seq!['W', 'N', 'W']);
    assert(seq!['N'] + seq!['N'] + seq!['W'] =~= seq!['N', 'N', 'W']);
}

/// Whether a direction lies on the north/south axis.
fn axis_ns(d: Direction) -> (b: bool)
    ensures
        b == spec_is_ns(d),
{
    match d {
        Direction::N => true,
        Direction::S => true,
        _ => false,
    }
}

/// Whether a direction lies on the east/west axis.
fn axis_ew(d: Direction) -> (b: bool)
    ensures
        b == spec_is_ew(d),
{
    match d {
        Direction::E => true,
        Direction::W => true,
        _ => false,
    }
}

} // verus!
