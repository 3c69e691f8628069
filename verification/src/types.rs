use vstd::prelude::*;

verus! {

/// Background colour of the light palette, foreground of the dark one.
pub const LIGHT_COLOUR: &'static str = "#FBF6E2";

/// Background colour of the dark palette, foreground of the light one.
pub const DARK_COLOUR: &'static str = "#160c1c";

/// Highest fret value a chord may carry: every pixel coordinate computed
/// from a fret below this bound fits in an `i32`.
pub const MAX_FRET: i32 = 50_000_000;

/// A chord diagram request: per-string fret positions and finger labels,
/// optional display text, handedness, palette choice and barre frets.
#[derive(Hash)]
pub struct Chord {
    /// One entry per string, low to high pitch: `-1` skips the string,
    /// `0` plays it open, `n > 0` frets it at position `n`.
    pub frets: Vec<i32>,
    /// One label per string: `"x"` for a skipped string, `"0"` for an
    /// open one, otherwise a finger number.
    pub fingers: Vec<String>,
    pub title: Option<String>,
    pub hand: Hand,
    pub suffix: Option<String>,
    pub mode: Mode,
    pub use_background: bool,
    pub barres: Option<Vec<i32>>,
}

impl Default for Chord {
    /// An empty right-handed, light-mode chord with no text and no barres.
    fn default() -> (r: Chord)
        ensures
            r.frets@ == Seq::<i32>::empty(),
            r.fingers@ == Seq::<String>::empty(),
            r.title is None,
            r.hand is Right,
            r.suffix is None,
            r.mode is Light,
            !r.use_background,
            r.barres is None,
    {
        Chord {
            frets: Vec::new(),
            fingers: Vec::new(),
            title: None,
            hand: Hand::Right,
            suffix: None,
            mode: Mode::Light,
            use_background: false,
            barres: None,
        }
    }
}

/// The six strings of a standard-tuned guitar, low to high pitch.
#[derive(Debug)]
pub enum GuitarString {
    E,
    A,
    D,
    G,
    B,
    HighE,
}

/// The zero-based position of a string, low pitch first.
pub open spec fn string_index(s: GuitarString) -> int {
    match s {
        GuitarString::E => 0,
        GuitarString::A => 1,
        GuitarString::D => 2,
        GuitarString::G => 3,
        GuitarString::B => 4,
        GuitarString::HighE => 5,
    }
}

/// The string at a zero-based position; an out-of-range position falls
/// back to the lowest string.
pub open spec fn string_of_index(v: int) -> GuitarString {
    if v == 1 {
        GuitarString::A
    } else if v == 2 {
        GuitarString::D
    } else if v == 3 {
        GuitarString::G
    } else if v == 4 {
        GuitarString::B
    } else if v == 5 {
        GuitarString::HighE
    } else {
        GuitarString::E
    }
}

impl GuitarString {
    /// The zero-based position of this string.
    pub fn index(&self) -> (r: i32)
        ensures
            r == string_index(*self),
    {
        match self {
            GuitarString::E => 0,
            GuitarString::A => 1,
            GuitarString::D => 2,
            GuitarString::G => 3,
            GuitarString::B => 4,
            GuitarString::HighE => 5,
        }
    }
}

impl From<usize> for GuitarString {
    fn from(value: usize) -> (r: Self) {
        match value {
            1 => GuitarString::A,
            2 => GuitarString::D,
            3 => GuitarString::G,
            4 => GuitarString::B,
            5 => GuitarString::HighE,
            _ => GuitarString::E,
        }
    }
}

impl vstd::std_specs::convert::FromSpecImpl<usize> for GuitarString {
    open spec fn obeys_from_spec() -> bool {
        true
    }

    open spec fn from_spec(v: usize) -> GuitarString {
        string_of_index(v as int)
    }
}

/// Colour scheme of a diagram: a light or a dark two-colour palette.
#[derive(Hash, Copy, Clone)]
pub enum Mode {
    Light,
    Dark,
}

/// Orientation of a diagram: left-handed chords are mirrored.
#[derive(PartialEq, Eq, Structural, Hash)]
pub enum Hand {
    Right,
    Left,
}

impl std::str::FromStr for Hand {
    type Err = ();

    /// `"left"` selects the left hand; anything else defaults to right.
    fn from_str(s: &str) -> Result<Self, Self::Err> {
        if crate::utils::str_eq(s, "left") {
            Ok(Hand::Left)
        } else {
            Ok(Hand::Right)
        }
    }
}

/// The column at which string `i` is drawn: left-handed diagrams mirror
/// the strings horizontally, right-handed ones keep data order. An
/// out-of-range column falls back to the lowest string's column.
pub open spec fn spec_display_position(i: int, hand: Hand) -> int {
    let j = if hand is Left {
        5 - i
    } else {
        i
    };
    if 1 <= j <= 5 {
        j
    } else {
        0
    }
}

/// The string drawn at the column where data string `index` appears
/// under the given handedness.
pub fn display_position(index: usize, hand: &Hand) -> (r: GuitarString)
    requires
        index < 6,
    ensures
        string_index(r) == spec_display_position(index as int, *hand),
{
    match hand {
        Hand::Right => GuitarString::from(index),
        Hand::Left => GuitarString::from(5 - index),
    }
}

/// Mirroring law: for every string index, the left-handed display
/// position is the horizontal mirror of the right-handed one.
pub proof fn lemma_display_position_mirror(i: int)
    requires
        0 <= i < 6,
    ensures
        spec_display_position(i, Hand::Left) == 5 - spec_display_position(i, Hand::Right),
{
}

} // verus!
