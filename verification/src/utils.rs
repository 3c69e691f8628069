//! Coordinate mapping, palette selection, barre detection and chord
//! identifiers.

use crate::types::{Chord, GuitarString, Mode, string_index, DARK_COLOUR, LIGHT_COLOUR};
use std::hash::{DefaultHasher, Hash, Hasher};
use vstd::prelude::*;
use vstd::string::StrSliceExecFns;

verus! {

/// Character-wise string equality.
pub fn str_eq(a: &str, b: &str) -> (r: bool)
    ensures
        r == (a@ == b@),
{
    let n = a.unicode_len();
    if n != b.unicode_len() {
        return false;
    }
    let mut i: usize = 0;
    while i < n
        invariant
            i <= n,
            n == a@.len(),
            n == b@.len(),
            forall|j: int| 0 <= j < i ==> a@[j] == b@[j],
        decreases n - i,
    {
        if a.get_char(i) != b.get_char(i) {
            return false;
        }
        i += 1;
    }
    proof {
        assert(a@ =~= b@);
    }
    true
}

/// The two colours every primitive refers to: `fg` for strokes, text and
/// note markers, `bg` for the optional background panel.
#[derive(Debug)]
pub struct Palette<'a> {
    pub fg: &'a str,
    pub bg: &'a str,
}

impl<'a> PartialEq for Palette<'a> {
    fn eq(&self, other: &Self) -> (r: bool) {
        str_eq(self.fg, other.fg) && str_eq(self.bg, other.bg)
    }
}

impl<'a> vstd::std_specs::cmp::PartialEqSpecImpl for Palette<'a> {
    open spec fn obeys_eq_spec() -> bool {
        true
    }

    open spec fn eq_spec(&self, other: &Self) -> bool {
        self.fg@ == other.fg@ && self.bg@ == other.bg@
    }
}

/// Foreground colour of each mode: dark ink on the light palette, light
/// ink on the dark one.
pub open spec fn spec_palette_fg(mode: Mode) -> Seq<char> {
    if mode is Dark {
        "#FBF6E2"@
    } else {
        "#160c1c"@
    }
}

/// Background colour of each mode.
pub open spec fn spec_palette_bg(mode: Mode) -> Seq<char> {
    if mode is Dark {
        "#160c1c"@
    } else {
        "#FBF6E2"@
    }
}

/// The two-colour palette selected by a mode.
pub fn get_palette<'a>(mode: Mode) -> (r: Palette<'a>)
    ensures
        r.fg@ == spec_palette_fg(mode),
        r.bg@ == spec_palette_bg(mode),
{
    match mode {
        Mode::Light => Palette { fg: DARK_COLOUR, bg: LIGHT_COLOUR },
        Mode::Dark => Palette { fg: LIGHT_COLOUR, bg: DARK_COLOUR },
    }
}

/// The diagram row of a fret: when the chord starts above fret 1 the rows
/// are renormalised so that the lowest played fret sits at row 2, leaving
/// room for the minimum-fret label.
pub open spec fn spec_fret_offset(note: int, min_fret: int) -> int {
    if min_fret > 1 {
        note - min_fret + 2
    } else {
        note
    }
}

/// Horizontal pixel position of a string column.
pub open spec fn spec_note_x(string: int, space: int) -> int {
    50 + string * space
}

/// Vertical pixel position of a note: centred inside its fret row.
pub open spec fn spec_note_y(note: int, min_fret: int, space: int) -> int {
    spec_fret_offset(note, min_fret) * space + 50 - space / 2
}

/// The coordinate arithmetic stays inside `i32` for these arguments.
pub open spec fn coords_in_range(note: int, min_fret: int, space: int) -> bool {
    &&& 0 <= space
    &&& (min_fret > 1 ==> i32::MIN <= note - min_fret && note - min_fret + 2 <= i32::MAX)
    &&& i32::MIN <= spec_fret_offset(note, min_fret) * space
    &&& spec_fret_offset(note, min_fret) * space + 50 <= i32::MAX
    &&& 5 * space + 50 <= i32::MAX
    &&& i32::MIN <= spec_note_y(note, min_fret, space)
}

/// Pixel coordinates of a note marker on the given string.
pub fn get_note_coords(note: &i32, string: GuitarString, string_space: &i32, min_fret: &i32) -> (r:
    (i32, i32))
    requires
        coords_in_range(*note as int, *min_fret as int, *string_space as int),
    ensures
        r.0 == spec_note_x(string_index(string), *string_space as int),
        r.1 == spec_note_y(*note as int, *min_fret as int, *string_space as int),
{
    let offset_left: i32 = 50;
    let offset_top: i32 = 50;

    let mut offset_fret: i32 = *note;
    if *min_fret > 1 {
        offset_fret = (*note - *min_fret) + 2;
    }

    let idx: i32 = string.index();
    proof {
        assert(0 <= idx * *string_space <= 5 * *string_space) by (nonlinear_arith)
            requires
                0 <= idx <= 5,
                0 <= *string_space,
        ;
    }
    let x = offset_left + idx * *string_space;
    let y = offset_fret * *string_space + offset_top - *string_space / 2;
    (x, y)
}

/// String `i` joins the barre at `target` when it plays `target` and its
/// higher-pitched neighbour, if played at all, does not play a lower fret.
pub open spec fn barre_match(frets: Seq<i32>, target: i32, i: int) -> bool {
    &&& frets[i] == target
    &&& (i + 1 < frets.len() && frets[i + 1] != -1 ==> frets[i + 1] >= target)
}

/// The matching string indices below `n`, in ascending order.
pub open spec fn barre_strings_up_to(frets: Seq<i32>, target: i32, n: int) -> Seq<usize>
    decreases n,
{
    if n <= 0 {
        Seq::empty()
    } else {
        barre_strings_up_to(frets, target, n - 1) + (if barre_match(frets, target, n - 1) {
            seq![(n - 1) as usize]
        } else {
            Seq::empty()
        })
    }
}

/// All string indices that join the barre at `target`, ascending.
pub open spec fn barre_strings(frets: Seq<i32>, target: i32) -> Seq<usize> {
    barre_strings_up_to(frets, target, frets.len() as int)
}

/// Over a prefix, the matched strings are exactly the matching indices,
/// listed in strictly ascending order.
proof fn lemma_barre_strings_up_to_membership(frets: Seq<i32>, target: i32, n: int)
    requires
        0 <= n <= frets.len(),
        frets.len() <= usize::MAX,
    ensures
        forall|s: usize| #[trigger]
            barre_strings_up_to(frets, target, n).contains(s) <==> ((s as int) < n && barre_match(
                frets,
                target,
                s as int,
            )),
        forall|k1: int, k2: int|
            0 <= k1 < k2 < barre_strings_up_to(frets, target, n).len() ==> #[trigger] barre_strings_up_to(
                frets,
                target,
                n,
            )[k1] < #[trigger] barre_strings_up_to(frets, target, n)[k2],
        forall|k: int|
            0 <= k < barre_strings_up_to(frets, target, n).len() ==> #[trigger] barre_strings_up_to(
                frets,
                target,
                n,
            )[k] < n,
    decreases n,
{
    if n > 0 {
        lemma_barre_strings_up_to_membership(frets, target, n - 1);
        let prev = barre_strings_up_to(frets, target, n - 1);
        let cur = barre_strings_up_to(frets, target, n);
        if barre_match(frets, target, n - 1) {
            assert(cur == prev + seq![(n - 1) as usize]);
            assert(cur.len() == prev.len() + 1);
            assert(cur[prev.len() as int] == (n - 1) as usize);
            assert forall|k: int| 0 <= k < prev.len() implies cur[k] == prev[k] by {}
            assert forall|s: usize| #[trigger]
                cur.contains(s) <==> ((s as int) < n && barre_match(frets, target, s as int)) by {
                if cur.contains(s) {
                    let k = choose|k: int| 0 <= k < cur.len() && cur[k] == s;
                    if k < prev.len() {
                        assert(prev.contains(s));
                    } else {
                        assert(s == (n - 1) as usize);
                    }
                }
                if (s as int) < n && barre_match(frets, target, s as int) {
                    if (s as int) < n - 1 {
                        assert(prev.contains(s));
                        let k = choose|k: int| 0 <= k < prev.len() && prev[k] == s;
                        assert(cur[k] == s);
                    } else {
                        assert(cur[prev.len() as int] == s);
                    }
                }
            }
        } else {
            assert(cur =~= prev);
            assert forall|s: usize| #[trigger]
                cur.contains(s) <==> ((s as int) < n && barre_match(frets, target, s as int)) by {
                if (s as int) < n && barre_match(frets, target, s as int) {
                    assert((s as int) != n - 1);
                }
            }
        }
    }
}

/// Barre membership is exactly the lookahead rule: string `s` is covered
/// if and only if it plays `target` and its neighbour, when played, does
/// not play a lower fret; the covered strings are listed in strictly
/// ascending order.
pub proof fn lemma_barre_strings_membership(frets: Seq<i32>, target: i32)
    requires
        frets.len() <= usize::MAX,
    ensures
        forall|s: usize| #[trigger]
            barre_strings(frets, target).contains(s) <==> ((s as int) < frets.len() && barre_match(
                frets,
                target,
                s as int,
            )),
        forall|k1: int, k2: int|
            0 <= k1 < k2 < barre_strings(frets, target).len() ==> #[trigger] barre_strings(
                frets,
                target,
            )[k1] < #[trigger] barre_strings(frets, target)[k2],
{
    lemma_barre_strings_up_to_membership(frets, target, frets.len() as int);
}

/// The strings a barre at fret `search` covers, in ascending order: the
/// strings playing `search` whose next neighbour, when played, does not
/// play a lower fret.
pub fn find_all(frets: &[i32], search: &i32) -> (r: Vec<usize>)
    ensures
        r@ == barre_strings(frets@, *search),
{
    let n = frets.len();
    let mut r: Vec<usize> = Vec::new();
    let mut i: usize = 0;
    while i < n
        invariant
            i <= n,
            n == frets@.len(),
            r@ == barre_strings_up_to(frets@, *search, i as int),
        decreases n - i,
    {
        let fret = frets[i];
        let included = if i + 1 < n && frets[i + 1] != -1 {
            fret == *search && frets[i + 1] >= fret
        } else {
            fret == *search
        };
        if included {
            r.push(i);
        }
        proof {
            assert(r@ =~= barre_strings_up_to(frets@, *search, i as int + 1));
        }
        i += 1;
    }
    r
}

/// The stable identifier of a chord: a fixed function of every field.
pub uninterp spec fn chord_hash(
    frets: Seq<i32>,
    fingers: Seq<Seq<char>>,
    title: Option<Seq<char>>,
    hand_left: bool,
    suffix: Option<Seq<char>>,
    mode_dark: bool,
    use_background: bool,
    barres: Option<Seq<i32>>,
) -> u64;

/// Derives the identifier used to name a chord's output artifact.
///
/// Relies on std's `DefaultHasher` together with `Chord`'s derived `Hash`
/// impl: the digest is a fixed function of the field values alone, so
/// equal chords always receive equal identifiers.
#[verifier::external_body]
pub fn get_filename(chord: &Chord) -> (r: u64)
    ensures
        r == chord_hash(
            chord.frets@,
            chord.fingers.deep_view(),
            chord.title.deep_view(),
            chord.hand is Left,
            chord.suffix.deep_view(),
            chord.mode is Dark,
            chord.use_background,
            chord.barres.deep_view(),
        ),
{
    let mut s = DefaultHasher::new();
    chord.hash(&mut s);
    s.finish()
}

} // verus!
