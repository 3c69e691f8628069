//! The SVG markup fragments a diagram is assembled from: background
//! panel, finger labels, note markers, minimum-fret label, barre curves
//! and the title line.

use crate::digits::{dec_int, i32_to_string};
use crate::types::{string_index, string_of_index, Chord, GuitarString};
use crate::utils::{
    barre_strings, coords_in_range, find_all, get_note_coords, spec_note_x, spec_note_y, str_eq,
    Palette,
};
use vstd::prelude::*;
use vstd::string::StringExecFns;

verus! {

/// The background panel: a rounded rectangle in the background colour,
/// or nothing when no background was asked for.
pub open spec fn spec_bg_svg(use_background: bool, bg: Seq<char>) -> Seq<char> {
    if use_background {
        "<rect fill=\""@ + bg + "\" width=\"300\" height=\"310\" rx=\"10\" />"@
    } else {
        Seq::empty()
    }
}

/// Draws the optional background panel.
pub fn svg_draw_bg(use_background: bool, palette: &Palette) -> (r: String)
    ensures
        r@ == spec_bg_svg(use_background, palette.bg@),
{
    let mut s = String::new();
    if use_background {
        s.append("<rect fill=\"");
        s.append(palette.bg);
        s.append("\" width=\"300\" height=\"310\" rx=\"10\" />");
    }
    proof {
        assert(s@ =~= spec_bg_svg(use_background, palette.bg@));
    }
    s
}

/// A finger label: above the grid for open or skipped strings, below the
/// grid for fretted ones.
pub open spec fn spec_finger_svg(finger: Seq<char>, string: int, space: int, fg: Seq<char>) -> Seq<
    char,
> {
    let x = spec_note_x(string, space);
    let y: int = if finger == "0"@ || finger == "x"@ {
        35
    } else {
        265
    };
    "<text x=\""@ + dec_int(x) + "\" y=\""@ + dec_int(y)
        + "\" class=\"text\" dominant-baseline=\"middle\" text-anchor=\"middle\" font-size=\"16\" fill=\""@
        + fg + "\" font-weight=\"400\">"@ + finger + "</text>"@
}

/// Draws one finger label at the given string column.
pub fn svg_draw_finger(finger: &str, i: GuitarString, string_space: &i32, palette: &Palette) -> (r:
    String)
    requires
        0 <= *string_space,
        5 * *string_space + 50 <= i32::MAX,
    ensures
        r@ == spec_finger_svg(finger@, string_index(i), *string_space as int, palette.fg@),
{
    let idx: i32 = i.index();
    proof {
        assert(0 <= idx * *string_space <= 5 * *string_space) by (nonlinear_arith)
            requires
                0 <= idx <= 5,
                0 <= *string_space,
        ;
    }
    let x: i32 = 50 + idx * *string_space;
    let y: i32 = if str_eq(finger, "0") || str_eq(finger, "x") {
        35
    } else {
        265
    };

    let mut s = String::new();
    s.append("<text x=\"");
    let xs = i32_to_string(x);
    s.append(xs.as_str());
    s.append("\" y=\"");
    let ys = i32_to_string(y);
    s.append(ys.as_str());
    s.append(
        "\" class=\"text\" dominant-baseline=\"middle\" text-anchor=\"middle\" font-size=\"16\" fill=\"",
    );
    s.append(palette.fg);
    s.append("\" font-weight=\"400\">");
    s.append(finger);
    s.append("</text>");
    proof {
        assert(s@ =~= spec_finger_svg(finger@, string_index(i), *string_space as int, palette.fg@));
    }
    s
}

/// The minimum-fret label, left of the grid at the first note row.
pub open spec fn spec_min_fret_svg(min_fret: int, space: int, fg: Seq<char>) -> Seq<char> {
    let y = space * 2 + 50 - space / 2;
    "<text x=\"32\" y=\""@ + dec_int(y)
        + "\" class=\"text\" dominant-baseline=\"middle\" text-anchor=\"end\" font-size=\"16\" fill=\""@
        + fg + "\" font-weight=\"400\">"@ + dec_int(min_fret) + "</text>"@
}

/// Draws the minimum-fret label for a diagram that starts above the nut.
pub fn svg_draw_min_fret(min_fret: &i32, string_space: &i32, palette: &Palette) -> (r: String)
    requires
        0 <= *string_space,
        *string_space * 2 + 50 <= i32::MAX,
    ensures
        r@ == spec_min_fret_svg(*min_fret as int, *string_space as int, palette.fg@),
{
    let offset_top: i32 = 50;
    let y: i32 = *string_space * 2 + offset_top - *string_space / 2;

    let mut s = String::new();
    s.append("<text x=\"32\" y=\"");
    let ys = i32_to_string(y);
    s.append(ys.as_str());
    s.append(
        "\" class=\"text\" dominant-baseline=\"middle\" text-anchor=\"end\" font-size=\"16\" fill=\"",
    );
    s.append(palette.fg);
    s.append("\" font-weight=\"400\">");
    let fs = i32_to_string(*min_fret);
    s.append(fs.as_str());
    s.append("</text>");
    proof {
        assert(s@ =~= spec_min_fret_svg(*min_fret as int, *string_space as int, palette.fg@));
    }
    s
}

/// A note marker: a filled circle at the note's coordinates, or nothing
/// for an open or skipped string.
pub open spec fn spec_note_svg(
    note: int,
    string: int,
    space: int,
    min_fret: int,
    fg: Seq<char>,
) -> Seq<char> {
    if note <= 0 {
        Seq::empty()
    } else {
        "<circle cx=\""@ + dec_int(spec_note_x(string, space)) + "\" cy=\""@ + dec_int(
            spec_note_y(note, min_fret, space),
        ) + "\" r=\"13\" fill=\""@ + fg + "\" />"@
    }
}

/// Draws one note marker; open and skipped strings draw nothing.
pub fn svg_draw_note(
    note: &i32,
    string: GuitarString,
    string_space: &i32,
    min_fret: &i32,
    palette: &Palette,
) -> (r: String)
    requires
        *note > 0 ==> coords_in_range(*note as int, *min_fret as int, *string_space as int),
    ensures
        r@ == spec_note_svg(
            *note as int,
            string_index(string),
            *string_space as int,
            *min_fret as int,
            palette.fg@,
        ),
{
    if *note <= 0 {
        let r = String::new();
        proof {
            assert(r@ =~= spec_note_svg(
                *note as int,
                string_index(string),
                *string_space as int,
                *min_fret as int,
                palette.fg@,
            ));
        }
        return r;
    }
    let coords = get_note_coords(note, string, string_space, min_fret);

    let mut s = String::new();
    s.append("<circle cx=\"");
    let xs = i32_to_string(coords.0);
    s.append(xs.as_str());
    s.append("\" cy=\"");
    let ys = i32_to_string(coords.1);
    s.append(ys.as_str());
    s.append("\" r=\"13\" fill=\"");
    s.append(palette.fg);
    s.append("\" />");
    proof {
        assert(s@ =~= spec_note_svg(
            *note as int,
            string_index(string),
            *string_space as int,
            *min_fret as int,
            palette.fg@,
        ));
    }
    s
}

/// The barre curve for one requested fret: a shallow arc from the first
/// matched string to the last, or nothing when fewer than two strings
/// match.
pub open spec fn spec_barre_svg(
    barre_fret: i32,
    frets: Seq<i32>,
    space: int,
    min_fret: int,
    fg: Seq<char>,
) -> Seq<char> {
    let strings = barre_strings(frets, barre_fret);
    if strings.len() < 2 {
        Seq::empty()
    } else {
        let fx = spec_note_x(string_index(string_of_index(strings[0] as int)), space);
        let lx = spec_note_x(
            string_index(string_of_index(strings[strings.len() - 1] as int)),
            space,
        );
        let y = spec_note_y(barre_fret as int, min_fret, space);
        let y_offset: int = if barre_fret == 1 {
            27
        } else {
            23
        };
        let control_y_offset = y_offset + 10;
        "<path d=\"M "@ + dec_int(fx) + " "@ + dec_int(y - y_offset) + " C "@ + dec_int(fx + 8)
            + " "@ + dec_int(y - control_y_offset) + ", "@ + dec_int(lx - 8) + " "@ + dec_int(
            y - control_y_offset,
        ) + ", "@ + dec_int(lx) + " "@ + dec_int(y - y_offset) + "\" stroke=\""@ + fg
            + "\" stroke-width=\"3\" fill=\"transparent\" stroke-linecap=\"round\" />"@
    }
}

/// Draws the barre curve at `barre_fret`, spanning the strings that
/// `find_all` matches; fewer than two matches draw nothing.
pub fn svg_draw_barres(
    barre_fret: &i32,
    frets: &[i32],
    string_space: &i32,
    min_fret: &i32,
    palette: &Palette,
) -> (r: String)
    requires
        coords_in_range(*barre_fret as int, *min_fret as int, *string_space as int),
        5 * *string_space + 58 <= i32::MAX,
        i32::MIN + 37 <= spec_note_y(*barre_fret as int, *min_fret as int, *string_space as int),
    ensures
        r@ == spec_barre_svg(
            *barre_fret,
            frets@,
            *string_space as int,
            *min_fret as int,
            palette.fg@,
        ),
{
    let strings = find_all(frets, barre_fret);
    if strings.len() < 2 {
        let r = String::new();
        proof {
            assert(r@ =~= spec_barre_svg(
                *barre_fret,
                frets@,
                *string_space as int,
                *min_fret as int,
                palette.fg@,
            ));
        }
        return r;
    }

    let first_string = GuitarString::from(strings[0]);
    let last_string = GuitarString::from(strings[strings.len() - 1]);
    let first = get_note_coords(barre_fret, first_string, string_space, min_fret);
    let last = get_note_coords(barre_fret, last_string, string_space, min_fret);
    proof {
        assert(0 <= string_index(first_string) * *string_space <= 5 * *string_space)
            by (nonlinear_arith)
            requires
                0 <= string_index(first_string) <= 5,
                0 <= *string_space,
        ;
        assert(0 <= string_index(last_string) * *string_space <= 5 * *string_space)
            by (nonlinear_arith)
            requires
                0 <= string_index(last_string) <= 5,
                0 <= *string_space,
        ;
    }

    // move curve out of centre of frets
    let y_offset: i32 = if *barre_fret == 1 {
        27
    } else {
        23
    };

    // amount to move the controls; controls the angle of curve
    let control_y_offset: i32 = y_offset + 10;
    let control_x_offset: i32 = 8;

    let origin_control = (first.0 + control_x_offset, first.1 - control_y_offset);
    let end_control = (last.0 - control_x_offset, last.1 - control_y_offset);

    let mut s = String::new();
    s.append("<path d=\"M ");
    let t = i32_to_string(first.0);
    s.append(t.as_str());
    s.append(" ");
    let t = i32_to_string(first.1 - y_offset);
    s.append(t.as_str());
    s.append(" C ");
    let t = i32_to_string(origin_control.0);
    s.append(t.as_str());
    s.append(" ");
    let t = i32_to_string(origin_control.1);
    s.append(t.as_str());
    s.append(", ");
    let t = i32_to_string(end_control.0);
    s.append(t.as_str());
    s.append(" ");
    let t = i32_to_string(end_control.1);
    s.append(t.as_str());
    s.append(", ");
    let t = i32_to_string(last.0);
    s.append(t.as_str());
    s.append(" ");
    let t = i32_to_string(last.1 - y_offset);
    s.append(t.as_str());
    s.append("\" stroke=\"");
    s.append(palette.fg);
    s.append("\" stroke-width=\"3\" fill=\"transparent\" stroke-linecap=\"round\" />");
    proof {
        assert(s@ =~= spec_barre_svg(
            *barre_fret,
            frets@,
            *string_space as int,
            *min_fret as int,
            palette.fg@,
        ));
    }
    s
}

/// The title line: the chord title, with the suffix in smaller type when
/// present; nothing without a title.
pub open spec fn spec_title_svg(
    title: Option<Seq<char>>,
    suffix: Option<Seq<char>>,
    fg: Seq<char>,
) -> Seq<char> {
    match (title, suffix) {
        (Some(t), Some(sfx)) => "<text x=\"150px\" y=\"18\" class=\"text\" dominant-baseline=\"middle\"\n        text-anchor=\"middle\" font-size=\"24\" fill=\""@
            + fg + "\" font-weight=\"400\">"@ + t + "<tspan font-size=\"18\" fill=\""@ + fg
            + "\" font-weight=\"300\">"@ + sfx + "</tspan></text>"@,
        (Some(t), None) => "<text x=\"150px\" y=\"18\" class=\"text\" dominant-baseline=\"middle\"\n  text-anchor=\"middle\" font-size=\"24\" fill=\""@
            + fg + "\" font-weight=\"400\">"@ + t + "</text>"@,
        _ => Seq::empty(),
    }
}

/// Draws the title line of a chord.
pub fn svg_draw_title(chord_settings: &Chord, palette: &Palette) -> (r: String)
    ensures
        r@ == spec_title_svg(
            chord_settings.title.deep_view(),
            chord_settings.suffix.deep_view(),
            palette.fg@,
        ),
{
    let mut s = String::new();
    match (&chord_settings.title, &chord_settings.suffix) {
        (Some(title), Some(suffix)) => {
            s.append(
                "<text x=\"150px\" y=\"18\" class=\"text\" dominant-baseline=\"middle\"\n        text-anchor=\"middle\" font-size=\"24\" fill=\"",
            );
            s.append(palette.fg);
            s.append("\" font-weight=\"400\">");
            s.append(title.as_str());
            s.append("<tspan font-size=\"18\" fill=\"");
            s.append(palette.fg);
            s.append("\" font-weight=\"300\">");
            s.append(suffix.as_str());
            s.append("</tspan></text>");
        },
        (Some(title), None) => {
            s.append(
                "<text x=\"150px\" y=\"18\" class=\"text\" dominant-baseline=\"middle\"\n  text-anchor=\"middle\" font-size=\"24\" fill=\"",
            );
            s.append(palette.fg);
            s.append("\" font-weight=\"400\">");
            s.append(title.as_str());
            s.append("</text>");
        },
        _ => {},
    }
    proof {
        assert(s@ =~= spec_title_svg(
            chord_settings.title.deep_view(),
            chord_settings.suffix.deep_view(),
            palette.fg@,
        ));
    }
    s
}

} // verus!
