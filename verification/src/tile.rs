//! The tile and group model: suits, group kinds, and the parser that
//! turns tile-group notation into a validated [`TileGroup`].
//!
//! Notation: one to four value characters (digits `1`-`9`, winds
//! `E`/`S`/`W`/`N`, dragons `r`/`g`/`w`), then a suit character
//! (`m`/`p`/`s`/`w`/`d`), then an optional trailing `o` marking an open
//! (called) group.

use vstd::prelude::*;

use crate::error::HandErr;

verus! {

/// A tile's suit: the three numbered suits and the two honor suits.
#[derive(Debug, Clone, Copy, PartialEq, Eq, Hash, Structural)]
pub enum Suit {
    Manzu,
    Pinzu,
    Souzu,
    Wind,
    Dragon,
}

/// The structural kind of a group, inferred from the value characters:
/// two values form a pair, three identical values a triplet, three
/// consecutive digits a sequence, four values a kan.  `Single` marks the
/// single reference tiles (winning tile, seat wind, round wind) that are
/// not part of any meld.
#[derive(Debug, Clone, Copy, PartialEq, Eq, Structural)]
pub enum GroupType {
    Sequence,
    Triplet,
    Kan,
    Pair,
    Single,
}

/// One parsed group of tiles: its lowest (for sequences) or sole face
/// value, its suit, whether it was openly called, its structural kind,
/// and whether it touches a terminal numeral.
#[derive(Debug, Clone, Copy, PartialEq, Eq, Structural)]
pub struct TileGroup {
    pub value: char,
    pub suit: Suit,
    pub isopen: bool,
    pub group_type: GroupType,
    pub isterminal: bool,
}

/// The digit a value character stands for, or 0 when it is not a digit.
pub open spec fn digit_of(c: char) -> nat {
    match c {
        '1' => 1,
        '2' => 2,
        '3' => 3,
        '4' => 4,
        '5' => 5,
        '6' => 6,
        '7' => 7,
        '8' => 8,
        '9' => 9,
        _ => 0,
    }
}

/// The characters allowed as tile values: digits and the honor letters.
pub open spec fn valid_tile_char(c: char) -> bool {
    ||| digit_of(c) >= 1
    ||| c == 'E'
    ||| c == 'S'
    ||| c == 'W'
    ||| c == 'N'
    ||| c == 'r'
    ||| c == 'g'
    ||| c == 'w'
}

/// The suit a suit character stands for, if any.
pub open spec fn suit_of_char(c: char) -> Option<Suit> {
    match c {
        's' => Some(Suit::Souzu),
        'p' => Some(Suit::Pinzu),
        'm' => Some(Suit::Manzu),
        'w' => Some(Suit::Wind),
        'd' => Some(Suit::Dragon),
        _ => Option::None,
    }
}

/// Whether a single reference tile's value is a terminal numeral or an
/// honor letter.
pub open spec fn terminal_or_honor_char(c: char) -> bool {
    ||| c == '1'
    ||| c == '9'
    ||| c == 'E'
    ||| c == 'S'
    ||| c == 'W'
    ||| c == 'N'
    ||| c == 'r'
    ||| c == 'g'
    ||| c == 'w'
}

/// Three strictly consecutive digits drawn from the seven valid runs
/// `123` through `789`.
pub open spec fn consecutive_run(a: char, b: char, c: char) -> bool {
    &&& 1 <= digit_of(a) <= 7
    &&& digit_of(b) == digit_of(a) + 1
    &&& digit_of(c) == digit_of(a) + 2
}

/// A group is terminal when a sequence starts at 1 or 7 (the run touches
/// 1 or 9) or any other kind has value 1 or 9.
pub open spec fn group_terminal(value: char, kind: GroupType) -> bool {
    if kind is Sequence {
        value == '1' || value == '7'
    } else {
        value == '1' || value == '9'
    }
}

/// The structural kind encoded by a notation string: the value part is
/// everything before the suit character (and open marker, when the
/// string contains one), and its length plus the value pattern decide
/// the kind.  Anything else is an invalid group.
pub open spec fn spec_group_kind(s: Seq<char>) -> Result<GroupType, HandErr> {
    if s.len() == 0 || (s.contains('o') && s.len() < 2) {
        Err(HandErr::InvalidGroup)
    } else {
        let count = if s.contains('o') {
            s.len() - 2
        } else {
            s.len() - 1
        };
        if exists|i: int| 0 <= i < count && !valid_tile_char(s[i]) {
            Err(HandErr::InvalidGroup)
        } else if count == 2 {
            Ok(GroupType::Pair)
        } else if count == 3 {
            if s[0] == s[1] && s[1] == s[2] {
                Ok(GroupType::Triplet)
            } else if consecutive_run(s[0], s[1], s[2]) {
                Ok(GroupType::Sequence)
            } else {
                Err(HandErr::InvalidGroup)
            }
        } else if count == 4 {
            Ok(GroupType::Kan)
        } else {
            Err(HandErr::InvalidGroup)
        }
    }
}

/// What parsing a whole group notation string yields: the trailing `o`
/// marks an open call, the character before it (or the last character)
/// is the suit, and the remaining prefix is the value pattern.  An
/// unknown suit character is reported before a bad value pattern.
pub open spec fn spec_parse_group(s: Seq<char>) -> Result<TileGroup, HandErr> {
    if s.len() == 0 {
        Err(HandErr::InvalidGroup)
    } else {
        let isopen = s.last() == 'o';
        if isopen && s.len() < 2 {
            Err(HandErr::InvalidGroup)
        } else {
            let suit_char = if isopen {
                s[s.len() - 2]
            } else {
                s.last()
            };
            match suit_of_char(suit_char) {
                Option::None => Err(HandErr::InvalidSuit),
                Some(suit) => match spec_group_kind(s) {
                    Err(e) => Err(e),
                    Ok(kind) => Ok(
                        TileGroup {
                            value: s[0],
                            suit,
                            isopen,
                            group_type: kind,
                            isterminal: group_terminal(s[0], kind),
                        },
                    ),
                },
            }
        }
    }
}

/// What parsing a single reference tile (winning tile, seat wind, round
/// wind) yields: the first character is the value, the second the suit;
/// anything shorter fails at the suit lookup.
pub open spec fn spec_parse_single(s: Seq<char>) -> Result<TileGroup, HandErr> {
    if s.len() < 2 {
        Err(HandErr::InvalidSuit)
    } else {
        match suit_of_char(s[1]) {
            Option::None => Err(HandErr::InvalidSuit),
            Some(suit) => Ok(
                TileGroup {
                    value: s[0],
                    suit,
                    isopen: false,
                    group_type: GroupType::Single,
                    isterminal: terminal_or_honor_char(s[0]),
                },
            ),
        }
    }
}

/// Exec mirror of [`digit_of`].
pub(crate) fn digit(c: char) -> (r: u8)
    ensures
        r as nat == digit_of(c),
        r <= 9,
{
    match c {
        '1' => 1,
        '2' => 2,
        '3' => 3,
        '4' => 4,
        '5' => 5,
        '6' => 6,
        '7' => 7,
        '8' => 8,
        '9' => 9,
        _ => 0,
    }
}

/// Exec mirror of [`valid_tile_char`].
fn is_valid_tile_char(c: char) -> (r: bool)
    ensures
        r == valid_tile_char(c),
{
    match c {
        '1' | '2' | '3' | '4' | '5' | '6' | '7' | '8' | '9' => true,
        'E' | 'S' | 'W' | 'N' | 'r' | 'g' | 'w' => true,
        _ => false,
    }
}

/// Exec mirror of [`terminal_or_honor_char`].
pub(crate) fn is_terminal_or_honor_char(c: char) -> (r: bool)
    ensures
        r == terminal_or_honor_char(c),
{
    match c {
        '1' | '9' | 'E' | 'S' | 'W' | 'N' | 'r' | 'g' | 'w' => true,
        _ => false,
    }
}

/// Exec mirror of [`suit_of_char`].
fn suit_from_char(c: char) -> (r: Option<Suit>)
    ensures
        r == suit_of_char(c),
{
    match c {
        's' => Some(Suit::Souzu),
        'p' => Some(Suit::Pinzu),
        'm' => Some(Suit::Manzu),
        'w' => Some(Suit::Wind),
        'd' => Some(Suit::Dragon),
        _ => None,
    }
}

/// Whether the string contains the character.
fn str_contains_char(s: &str, c: char) -> (r: bool)
    ensures
        r == s@.contains(c),
{
    let n = s.unicode_len();
    let mut i: usize = 0;
    while i < n
        invariant
            i <= n,
            n == s@.len(),
            forall|j: int| 0 <= j < i ==> s@[j] != c,
        decreases n - i,
    {
        if s.get_char(i) == c {
            assert(s@[i as int] == c);
            return true;
        }
        i += 1;
    }
    false
}

/// Whether the first `count` characters are all valid tile values.
fn all_valid_tile_chars(s: &str, count: usize) -> (r: bool)
    requires
        count <= s@.len(),
    ensures
        r == (forall|i: int| 0 <= i < count ==> valid_tile_char(s@[i])),
{
    let mut i: usize = 0;
    while i < count
        invariant
            i <= count,
            count <= s@.len(),
            forall|j: int| 0 <= j < i ==> valid_tile_char(s@[j]),
        decreases count - i,
    {
        if !is_valid_tile_char(s.get_char(i)) {
            return false;
        }
        i += 1;
    }
    true
}

/// The kind check shared by [`GroupType::group_type_from_string`] and
/// [`TileGroup::new`].
fn group_kind_of_str(s: &str) -> (r: Result<GroupType, HandErr>)
    ensures
        r == spec_group_kind(s@),
{
    let n = s.unicode_len();
    let has_open_marker = str_contains_char(s, 'o');
    if n == 0 || (has_open_marker && n < 2) {
        return Err(HandErr::InvalidGroup);
    }
    let count = if has_open_marker {
        n - 2
    } else {
        n - 1
    };
    if !all_valid_tile_chars(s, count) {
        return Err(HandErr::InvalidGroup);
    }
    if count == 2 {
        Ok(GroupType::Pair)
    } else if count == 3 {
        let a = s.get_char(0);
        let b = s.get_char(1);
        let c = s.get_char(2);
        if a == b && b == c {
            Ok(GroupType::Triplet)
        } else {
            let da = digit(a);
            let db = digit(b);
            let dc = digit(c);
            if 1 <= da && da <= 7 && db == da + 1 && dc == da + 2 {
                Ok(GroupType::Sequence)
            } else {
                Err(HandErr::InvalidGroup)
            }
        }
    } else if count == 4 {
        Ok(GroupType::Kan)
    } else {
        Err(HandErr::InvalidGroup)
    }
}

impl GroupType {
    /// Infer the structural kind of a group notation string from its
    /// length and value pattern alone.
    pub fn group_type_from_string(group: String) -> (r: Result<GroupType, HandErr>)
        ensures
            r == spec_group_kind(group@),
    {
        group_kind_of_str(group.as_str())
    }
}

impl Suit {
    /// Look a suit up from its one-character code.
    pub fn suit_from_string(suit: String) -> (r: Result<Suit, HandErr>)
        ensures
            (suit@.len() == 1 && suit_of_char(suit@[0]) is Some) ==> r == Ok::<Suit, HandErr>(
                suit_of_char(suit@[0]).unwrap(),
            ),
            !(suit@.len() == 1 && suit_of_char(suit@[0]) is Some) ==> r == Err::<Suit, HandErr>(
                HandErr::InvalidSuit,
            ),
    {
        let s = suit.as_str();
        if s.unicode_len() != 1 {
            return Err(HandErr::InvalidSuit);
        }
        match suit_from_char(s.get_char(0)) {
            Some(su) => Ok(su),
            None => Err(HandErr::InvalidSuit),
        }
    }
}

impl TileGroup {
    /// Parse one group notation string into a tile group.
    pub fn new(group: String) -> (r: Result<TileGroup, HandErr>)
        ensures
            r == spec_parse_group(group@),
    {
        let s = group.as_str();
        let n = s.unicode_len();
        if n == 0 {
            return Err(HandErr::InvalidGroup);
        }
        let isopen = s.get_char(n - 1) == 'o';
        if isopen && n < 2 {
            return Err(HandErr::InvalidGroup);
        }
        let suit_char = if isopen {
            s.get_char(n - 2)
        } else {
            s.get_char(n - 1)
        };
        let suit = match suit_from_char(suit_char) {
            Some(su) => su,
            None => {
                return Err(HandErr::InvalidSuit);
            },
        };
        let kind = match group_kind_of_str(s) {
            Ok(k) => k,
            Err(e) => {
                return Err(e);
            },
        };
        let value = s.get_char(0);
        let isterminal = if matches!(kind, GroupType::Sequence) {
            value == '1' || value == '7'
        } else {
            value == '1' || value == '9'
        };
        Ok(TileGroup { value, suit, isopen, group_type: kind, isterminal })
    }

    /// Parse a single reference tile: a value character followed by its
    /// suit character.
    pub(crate) fn new_single(s: &String) -> (r: Result<TileGroup, HandErr>)
        ensures
            r == spec_parse_single(s@),
    {
        let st = s.as_str();
        if st.unicode_len() < 2 {
            return Err(HandErr::InvalidSuit);
        }
        let suit = match suit_from_char(st.get_char(1)) {
            Some(su) => su,
            None => {
                return Err(HandErr::InvalidSuit);
            },
        };
        let value = st.get_char(0);
        Ok(
            TileGroup {
                value,
                suit,
                isopen: false,
                group_type: GroupType::Single,
                isterminal: is_terminal_or_honor_char(value),
            },
        )
    }
}

} // verus!
