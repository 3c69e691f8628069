//! Composes guitar chord descriptions into SVG drawing fragments: layout
//! policy (lowest fret, nut visibility, fret renormalisation), coordinate
//! mapping with handedness mirroring, barre detection and the assembly of
//! the final set of markup fragments.

pub mod digits;
pub mod svg;
pub mod types;
pub mod utils;

pub use types::{Chord, GuitarString, Hand, Mode, DARK_COLOUR, LIGHT_COLOUR, MAX_FRET};
pub use utils::{find_all, get_filename, get_note_coords, get_palette, Palette};

use svg::{
    spec_barre_svg, spec_bg_svg, spec_finger_svg, spec_min_fret_svg, spec_note_svg, spec_title_svg,
    svg_draw_barres, svg_draw_bg, svg_draw_finger, svg_draw_min_fret, svg_draw_note,
    svg_draw_title,
};
use types::{spec_display_position, display_position};
use utils::{chord_hash, spec_palette_bg, spec_palette_fg};
use vstd::prelude::*;
use vstd::string::StringExecFns;

verus! {

/// The minimum fret value strictly above the open position, below `n`.
pub open spec fn spec_lowest_fret_up_to(frets: Seq<i32>, n: int) -> i32
    decreases n,
{
    if n <= 0 {
        0
    } else {
        let prev = spec_lowest_fret_up_to(frets, n - 1);
        let f = frets[n - 1];
        if f > 0 && (prev == 0 || f < prev) {
            f
        } else {
            prev
        }
    }
}

/// The lowest fretted position of a chord: the minimum entry strictly
/// greater than zero, or zero when no string is fretted.
pub open spec fn spec_lowest_fret(frets: Seq<i32>) -> i32 {
    spec_lowest_fret_up_to(frets, frets.len() as int)
}

/// Computes the lowest fretted position of a chord.
pub fn lowest_fret(frets: &Vec<i32>) -> (r: i32)
    ensures
        r == spec_lowest_fret(frets@),
        0 <= r,
        r == 0 || frets@.contains(r),
{
    let mut low: i32 = 0;
    let mut i: usize = 0;
    while i < frets.len()
        invariant
            i <= frets@.len(),
            low == spec_lowest_fret_up_to(frets@, i as int),
            0 <= low,
            low == 0 || exists|j: int| 0 <= j < i && frets@[j] == low,
        decreases frets@.len() - i,
    {
        let f = frets[i];
        if f > 0 && (low == 0 || f < low) {
            low = f;
        }
        i += 1;
    }
    low
}

/// The lowest fret over a prefix is what its name says: zero exactly when
/// the prefix has no fretted entry, and otherwise a fretted entry no
/// larger than any other fretted entry of the prefix.
proof fn lemma_lowest_fret_up_to_minimum(frets: Seq<i32>, n: int)
    requires
        0 <= n <= frets.len(),
    ensures
        spec_lowest_fret_up_to(frets, n) == 0 ==> forall|i: int|
            0 <= i < n ==> #[trigger] frets[i] <= 0,
        spec_lowest_fret_up_to(frets, n) != 0 ==> {
            let low = spec_lowest_fret_up_to(frets, n);
            &&& low > 0
            &&& exists|i: int| 0 <= i < n && frets[i] == low
            &&& forall|i: int| 0 <= i < n && #[trigger] frets[i] > 0 ==> frets[i] >= low
        },
    decreases n,
{
    if n > 0 {
        lemma_lowest_fret_up_to_minimum(frets, n - 1);
    }
}

/// The lowest fret is the minimum fretted position: it is zero exactly
/// when no string is fretted above the open position, and otherwise a
/// fret some string plays that no fretted string plays below.
pub proof fn lemma_lowest_fret_minimum(frets: Seq<i32>)
    ensures
        spec_lowest_fret(frets) == 0 ==> forall|i: int|
            0 <= i < frets.len() ==> #[trigger] frets[i] <= 0,
        spec_lowest_fret(frets) != 0 ==> {
            let low = spec_lowest_fret(frets);
            &&& low > 0
            &&& frets.contains(low)
            &&& forall|i: int| 0 <= i < frets.len() && #[trigger] frets[i] > 0 ==> frets[i] >= low
        },
{
    lemma_lowest_fret_up_to_minimum(frets, frets.len() as int);
}

/// The nut is drawn only when the diagram genuinely starts at the nut:
/// some string is open and the chord sits low enough, or some string is
/// fretted at position one.
pub open spec fn spec_show_nut(frets: Seq<i32>, lowest: i32) -> bool {
    (frets.contains(0) && lowest < 3) || frets.contains(1)
}

/// Whether `frets` holds the value `v`.
fn contains_val(frets: &Vec<i32>, v: i32) -> (r: bool)
    ensures
        r == frets@.contains(v),
{
    let mut i: usize = 0;
    while i < frets.len()
        invariant
            i <= frets@.len(),
            forall|j: int| 0 <= j < i ==> frets@[j] != v,
        decreases frets@.len() - i,
    {
        if frets[i] == v {
            return true;
        }
        i += 1;
    }
    false
}

/// Decides whether the nut line is drawn for a chord with the given
/// lowest fretted position.
pub fn show_nut(frets: &Vec<i32>, lowest_fret: i32) -> (r: bool)
    ensures
        r == spec_show_nut(frets@, lowest_fret),
{
    (contains_val(frets, 0) && lowest_fret < 3) || contains_val(frets, 1)
}

/// A diagram starting above the nut needs a label naming its first fret;
/// otherwise it would be indistinguishable from one starting at fret one.
pub open spec fn spec_needs_min_fret_label(lowest: i32, show_nut: bool) -> bool {
    lowest > 2 || (lowest > 1 && !show_nut)
}

/// Decides whether the minimum-fret label is drawn.
pub fn needs_min_fret_label(lowest_fret: i32, show_nut: bool) -> (r: bool)
    ensures
        r == spec_needs_min_fret_label(lowest_fret, show_nut),
{
    lowest_fret > 2 || lowest_fret > 1 && !show_nut
}

/// The diagram row at which a fret is drawn (`spec_fret_offset`).
pub fn fret_offset(fret: i32, lowest_fret: i32) -> (r: i32)
    requires
        lowest_fret > 1 ==> i32::MIN <= fret - lowest_fret && fret - lowest_fret + 2 <= i32::MAX,
    ensures
        r == utils::spec_fret_offset(fret as int, lowest_fret as int),
{
    if lowest_fret > 1 {
        (fret - lowest_fret) + 2
    } else {
        fret
    }
}

/// A malformed chord shape: the fret and finger lists must each name all
/// six strings.
#[derive(Debug, PartialEq, Eq, Structural)]
pub enum ChordError {
    WrongFretCount { expected: usize, found: usize },
    WrongFingerCount { expected: usize, found: usize },
}

/// Every drawable fragment of one chord diagram, together with the
/// resolved palette and the nut's visual parameters. The fields carry the
/// markup a rendering backend substitutes into its document frame.
#[derive(Debug)]
pub struct Diagram {
    /// Title markup (`svg_draw_title`).
    pub name: String,
    /// Outer margin, in pixels.
    pub padding: i32,
    /// Stroke width of the nut line: thick at the nut, thin above it.
    pub nut_width: i32,
    /// Line-cap shape of the nut line: `round` at the nut, `butt` above.
    pub nut_shape: String,
    /// Finger labels, one text element per string.
    pub fingers: String,
    /// Note markers, one circle per fretted string.
    pub notes: String,
    /// Minimum-fret label, or empty when the diagram starts at the nut.
    pub min_fret: String,
    /// Foreground colour of the palette.
    pub foreground: String,
    /// Background panel, or empty when none was asked for.
    pub background: String,
    /// Barre curves, one per requested barre fret.
    pub barres: String,
}

/// All finger labels of a chord, drawn left to right in data order and
/// mirrored for left-handed players.
pub open spec fn spec_fingers_svg(
    fingers: Seq<Seq<char>>,
    hand: Hand,
    space: int,
    fg: Seq<char>,
    n: int,
) -> Seq<char>
    decreases n,
{
    if n <= 0 {
        Seq::empty()
    } else {
        spec_fingers_svg(fingers, hand, space, fg, n - 1) + spec_finger_svg(
            fingers[n - 1],
            spec_display_position(n - 1, hand),
            space,
            fg,
        )
    }
}

/// All note markers of a chord: one circle for every string fretted
/// strictly above the open position.
pub open spec fn spec_notes_svg(
    frets: Seq<i32>,
    hand: Hand,
    space: int,
    min_fret: int,
    fg: Seq<char>,
    n: int,
) -> Seq<char>
    decreases n,
{
    if n <= 0 {
        Seq::empty()
    } else {
        spec_notes_svg(frets, hand, space, min_fret, fg, n - 1) + (if frets[n - 1] != 0 {
            spec_note_svg(
                frets[n - 1] as int,
                spec_display_position(n - 1, hand),
                space,
                min_fret,
                fg,
            )
        } else {
            Seq::empty()
        })
    }
}

/// The barre curves of the first `n` requested barre frets.
pub open spec fn spec_barres_cat(
    bs: Seq<i32>,
    frets: Seq<i32>,
    space: int,
    min_fret: int,
    fg: Seq<char>,
    n: int,
) -> Seq<char>
    decreases n,
{
    if n <= 0 {
        Seq::empty()
    } else {
        spec_barres_cat(bs, frets, space, min_fret, fg, n - 1) + spec_barre_svg(
            bs[n - 1],
            frets,
            space,
            min_fret,
            fg,
        )
    }
}

/// The barre curves of a chord: one per requested barre fret, in order.
pub open spec fn spec_barres_svg(
    barres: Option<Seq<i32>>,
    frets: Seq<i32>,
    space: int,
    min_fret: int,
    fg: Seq<char>,
) -> Seq<char> {
    match barres {
        Some(bs) => spec_barres_cat(bs, frets, space, min_fret, fg, bs.len() as int),
        None => Seq::empty(),
    }
}

/// Every fret value is at least the skip marker and small enough that its
/// pixel coordinates fit in an `i32`.
pub open spec fn frets_in_range(frets: Seq<i32>) -> bool {
    forall|i: int| 0 <= i < frets.len() ==> -1 <= #[trigger] frets[i] <= MAX_FRET
}

/// The fret values and barre frets of a chord are drawable.
pub open spec fn chord_in_range(c: Chord) -> bool {
    &&& frets_in_range(c.frets@)
    &&& (c.barres matches Some(bs) ==> frets_in_range(bs@))
}

/// `d` is exactly the diagram of chord `c`: every fragment equals its
/// specification over `c`'s fields.
pub open spec fn composed_from(d: Diagram, c: Chord) -> bool {
    let frets = c.frets@;
    let lowest = spec_lowest_fret(frets);
    let nut = spec_show_nut(frets, lowest);
    let fg = spec_palette_fg(c.mode);
    let bg = spec_palette_bg(c.mode);
    &&& d.name@ == spec_title_svg(c.title.deep_view(), c.suffix.deep_view(), fg)
    &&& d.padding == 30
    &&& d.nut_width == (if nut {
        9int
    } else {
        2int
    })
    &&& d.nut_shape@ == (if nut {
        "round"@
    } else {
        "butt"@
    })
    &&& d.fingers@ == spec_fingers_svg(c.fingers.deep_view(), c.hand, 40, fg, 6)
    &&& d.notes@ == spec_notes_svg(frets, c.hand, 40, lowest as int, fg, 6)
    &&& d.min_fret@ == (if spec_needs_min_fret_label(lowest, nut) {
        spec_min_fret_svg(lowest as int, 40, fg)
    } else {
        Seq::<char>::empty()
    })
    &&& d.foreground@ == fg
    &&& d.background@ == spec_bg_svg(c.use_background, bg)
    &&& d.barres@ == spec_barres_svg(c.barres.deep_view(), frets, 40, lowest as int, fg)
}

/// Composes a chord into its diagram fragments. A chord whose fret or
/// finger list does not name all six strings is rejected with the error
/// naming the expected length.
pub fn compose(chord: &Chord) -> (r: Result<Diagram, ChordError>)
    requires
        chord_in_range(*chord),
    ensures
        r matches Ok(d) ==> chord.frets@.len() == 6 && chord.fingers@.len() == 6 && composed_from(
            d,
            *chord,
        ),
        r matches Err(e) ==> {
            &&& (chord.frets@.len() != 6 || chord.fingers@.len() != 6)
            &&& e == (if chord.frets@.len() != 6 {
                ChordError::WrongFretCount { expected: 6, found: chord.frets@.len() as usize }
            } else {
                ChordError::WrongFingerCount { expected: 6, found: chord.fingers@.len() as usize }
            })
        },
        (r matches Err(e)) <==> (chord.frets@.len() != 6 || chord.fingers@.len() != 6),
{
    if chord.frets.len() != 6 {
        return Err(ChordError::WrongFretCount { expected: 6, found: chord.frets.len() });
    }
    if chord.fingers.len() != 6 {
        return Err(ChordError::WrongFingerCount { expected: 6, found: chord.fingers.len() });
    }

    let string_space: i32 = 40;
    let margin: i32 = 30;
    let palette = get_palette(chord.mode);

    let lowest = lowest_fret(&chord.frets);
    proof {
        assert(0 <= lowest <= MAX_FRET);
    }

    let nut = show_nut(&chord.frets, lowest);
    let nut_width: i32 = if nut {
        9
    } else {
        2
    };
    let nut_shape = String::from_str(
        if nut {
            "round"
        } else {
            "butt"
        },
    );

    let ghost fg = spec_palette_fg(chord.mode);

    let mut fingers = String::new();
    let mut i: usize = 0;
    while i < 6
        invariant
            i <= 6,
            chord.fingers@.len() == 6,
            string_space == 40,
            palette.fg@ == fg,
            fingers@ == spec_fingers_svg(chord.fingers.deep_view(), chord.hand, 40, fg, i as int),
        decreases 6 - i,
    {
        let string = display_position(i, &chord.hand);
        let part = svg_draw_finger(chord.fingers[i].as_str(), string, &string_space, &palette);
        fingers.append(part.as_str());
        proof {
            assert(chord.fingers.deep_view()[i as int] == chord.fingers@[i as int]@);
            assert(fingers@ =~= spec_fingers_svg(
                chord.fingers.deep_view(),
                chord.hand,
                40,
                fg,
                i as int + 1,
            ));
        }
        i += 1;
    }

    let mut notes = String::new();
    let mut i: usize = 0;
    while i < 6
        invariant
            i <= 6,
            chord.frets@.len() == 6,
            frets_in_range(chord.frets@),
            0 <= lowest <= MAX_FRET,
            string_space == 40,
            palette.fg@ == fg,
            notes@ == spec_notes_svg(chord.frets@, chord.hand, 40, lowest as int, fg, i as int),
        decreases 6 - i,
    {
        let note = chord.frets[i];
        if note != 0 {
            let string = display_position(i, &chord.hand);
            let part = svg_draw_note(&note, string, &string_space, &lowest, &palette);
            notes.append(part.as_str());
        }
        proof {
            assert(notes@ =~= spec_notes_svg(
                chord.frets@,
                chord.hand,
                40,
                lowest as int,
                fg,
                i as int + 1,
            ));
        }
        i += 1;
    }

    let mut min_fret_marker = String::new();
    if needs_min_fret_label(lowest, nut) {
        min_fret_marker = svg_draw_min_fret(&lowest, &string_space, &palette);
    }

    let chord_title = svg_draw_title(chord, &palette);

    let mut barres_str = String::new();
    match &chord.barres {
        Some(bs) => {
            proof {
                assert(bs.deep_view() =~= bs@);
            }
            let mut j: usize = 0;
            while j < bs.len()
                invariant
                    j <= bs@.len(),
                    chord.frets@.len() == 6,
                    frets_in_range(bs@),
                    0 <= lowest <= MAX_FRET,
                    string_space == 40,
                    palette.fg@ == fg,
                    barres_str@ == spec_barres_cat(
                        bs@,
                        chord.frets@,
                        40,
                        lowest as int,
                        fg,
                        j as int,
                    ),
                decreases bs@.len() - j,
            {
                let part = svg_draw_barres(
                    &bs[j],
                    chord.frets.as_slice(),
                    &string_space,
                    &lowest,
                    &palette,
                );
                barres_str.append(part.as_str());
                proof {
                    assert(barres_str@ =~= spec_barres_cat(
                        bs@,
                        chord.frets@,
                        40,
                        lowest as int,
                        fg,
                        j as int + 1,
                    ));
                }
                j += 1;
            }
        },
        None => {},
    }

    let foreground = String::from_str(palette.fg);
    let background = svg_draw_bg(chord.use_background, &palette);

    Ok(
        Diagram {
            name: chord_title,
            padding: margin,
            nut_width,
            nut_shape,
            fingers,
            notes,
            min_fret: min_fret_marker,
            foreground,
            background,
            barres: barres_str,
        },
    )
}

/// No note markers for a silent chord: when every string is skipped, the
/// lowest fretted position is zero and the note fragment list is empty.
pub proof fn lemma_all_skipped_no_notes(
    frets: Seq<i32>,
    hand: Hand,
    space: int,
    min_fret: int,
    fg: Seq<char>,
    n: int,
)
    requires
        0 <= n <= frets.len(),
        forall|i: int| 0 <= i < frets.len() ==> frets[i] == -1,
    ensures
        spec_lowest_fret_up_to(frets, n) == 0,
        spec_notes_svg(frets, hand, space, min_fret, fg, n) == Seq::<char>::empty(),
    decreases n,
{
    if n > 0 {
        lemma_all_skipped_no_notes(frets, hand, space, min_fret, fg, n - 1);
        assert(spec_notes_svg(frets, hand, space, min_fret, fg, n) =~= Seq::<char>::empty());
    }
}

/// For a six-string chord that skips every string, the lowest fret is
/// zero and no note markers are produced.
pub proof fn lemma_all_skipped_chord(chord: Chord, fg: Seq<char>)
    requires
        chord.frets@.len() == 6,
        forall|i: int| 0 <= i < 6 ==> chord.frets@[i] == -1,
    ensures
        spec_lowest_fret(chord.frets@) == 0,
        spec_notes_svg(chord.frets@, chord.hand, 40, 0, fg, 6) == Seq::<char>::empty(),
{
    lemma_all_skipped_no_notes(chord.frets@, chord.hand, 40, 0, fg, 6);
}

/// Composition is a function of the chord value alone: two diagrams
/// composed from the same chord agree on every fragment, and two
/// identifiers derived from the same chord are equal.
pub proof fn lemma_compose_deterministic(c: Chord, d1: Diagram, d2: Diagram, id1: u64, id2: u64)
    requires
        composed_from(d1, c),
        composed_from(d2, c),
        id1 == chord_hash(
            c.frets@,
            c.fingers.deep_view(),
            c.title.deep_view(),
            c.hand is Left,
            c.suffix.deep_view(),
            c.mode is Dark,
            c.use_background,
            c.barres.deep_view(),
        ),
        id2 == chord_hash(
            c.frets@,
            c.fingers.deep_view(),
            c.title.deep_view(),
            c.hand is Left,
            c.suffix.deep_view(),
            c.mode is Dark,
            c.use_background,
            c.barres.deep_view(),
        ),
    ensures
        d1.name@ == d2.name@,
        d1.padding == d2.padding,
        d1.nut_width == d2.nut_width,
        d1.nut_shape@ == d2.nut_shape@,
        d1.fingers@ == d2.fingers@,
        d1.notes@ == d2.notes@,
        d1.min_fret@ == d2.min_fret@,
        d1.foreground@ == d2.foreground@,
        d1.background@ == d2.background@,
        d1.barres@ == d2.barres@,
        id1 == id2,
{
}

} // verus!
