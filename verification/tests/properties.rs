use chord_gen::digits::i32_to_string;
use chord_gen::svg::{svg_draw_bg, svg_draw_finger, svg_draw_min_fret};
use chord_gen::types::display_position;
use chord_gen::{
    compose, find_all, get_filename, get_palette, lowest_fret, needs_min_fret_label, show_nut,
    Chord, ChordError, GuitarString, Hand, Mode, Palette,
};

fn strings(labels: [&str; 6]) -> Vec<String> {
    labels.iter().map(|l| l.to_string()).collect()
}

fn hendrix_chord() -> Chord {
    Chord {
        title: Some(String::from("Hendrix")),
        frets: vec![-1, 7, 6, 7, 8, -1],
        fingers: strings(["x", "2", "1", "3", "4", "x"]),
        ..Default::default()
    }
}

#[test]
fn all_skipped_strings_produce_nothing() {
    let frets = vec![-1, -1, -1, -1, -1, -1];
    assert_eq!(lowest_fret(&frets), 0);

    let chord = Chord {
        frets,
        fingers: strings(["x", "x", "x", "x", "x", "x"]),
        ..Default::default()
    };
    let diagram = compose(&chord).unwrap();
    assert_eq!(diagram.notes, "");
    assert_eq!(diagram.barres, "");
}

#[test]
fn nut_shown_only_near_the_nut() {
    // open strings and a first-fret note: the nut is drawn
    let frets = vec![0, 2, 2, 1, 0, 0];
    let lowest = lowest_fret(&frets);
    assert_eq!(lowest, 1);
    assert!(show_nut(&frets, lowest));

    // lowest fretted position 3 with an open string: nut suppressed,
    // minimum-fret label required
    let frets = vec![-1, 5, 3, 4, 5, 0];
    let lowest = lowest_fret(&frets);
    assert_eq!(lowest, 3);
    assert!(!show_nut(&frets, lowest));
    assert!(needs_min_fret_label(lowest, false));
}

#[test]
fn display_position_mirrors_for_left_hand() {
    for i in 0..6usize {
        let left = display_position(i, &Hand::Left).index();
        let right = display_position(i, &Hand::Right).index();
        assert_eq!(left, 5 - right);
    }
}

#[test]
fn barre_strings_respect_lookahead() {
    // two strings at fret 5; string 4's neighbour is skipped, so no exclusion
    assert_eq!(find_all(&vec![5, 7, 7, 6, 5, -1], &5), vec![0, 4]);
    // string 0 is excluded: its neighbour is played at a lower fret
    assert_eq!(find_all(&vec![2, 1, 2, 2, 4, 2], &2), vec![2, 3, 5]);
}

#[test]
fn composing_twice_is_identical() {
    let first = compose(&hendrix_chord()).unwrap();
    let second = compose(&hendrix_chord()).unwrap();
    assert_eq!(first.name, second.name);
    assert_eq!(first.padding, second.padding);
    assert_eq!(first.nut_width, second.nut_width);
    assert_eq!(first.nut_shape, second.nut_shape);
    assert_eq!(first.fingers, second.fingers);
    assert_eq!(first.notes, second.notes);
    assert_eq!(first.min_fret, second.min_fret);
    assert_eq!(first.foreground, second.foreground);
    assert_eq!(first.background, second.background);
    assert_eq!(first.barres, second.barres);

    assert_eq!(get_filename(&hendrix_chord()), get_filename(&hendrix_chord()));
}

#[test]
fn hendrix_end_to_end() {
    let diagram = compose(&hendrix_chord()).unwrap();

    // four note circles, strings 1 to 4
    assert_eq!(diagram.notes.matches("<circle").count(), 4);
    // lowest fret 6 > 2: a minimum-fret label naming fret 6
    assert!(diagram.min_fret.contains(">6</text>"));
    // no barre requested, no curve drawn
    assert_eq!(diagram.barres, "");
    // no open string and no first-fret note: thin, flat nut line
    assert_eq!(diagram.nut_width, 2);
    assert_eq!(diagram.nut_shape, "butt");
    // every string gets its finger label, and the title is drawn
    assert_eq!(diagram.fingers.matches("<text").count(), 6);
    assert!(diagram.name.contains(">Hendrix</text>"));
}

#[test]
fn barre_end_to_end() {
    let chord = Chord {
        frets: vec![-1, 9, 8, 9, 9, 9],
        fingers: strings(["x", "2", "1", "3", "3", "3"]),
        barres: Some(vec![9]),
        ..Default::default()
    };

    // string 1 plays fret 9 but its neighbour plays the lower fret 8,
    // so the barre covers strings 3 to 5
    assert_eq!(find_all(&chord.frets, &9), vec![3, 4, 5]);

    let diagram = compose(&chord).unwrap();
    // one curve from string 3 (x = 170) to string 5 (x = 250); fret 9 at
    // lowest fret 8 sits in row 3, y = 150, lifted by 23
    assert_eq!(
        diagram.barres,
        "<path d=\"M 170 127 C 178 117, 242 117, 250 127\" stroke=\"#160c1c\" stroke-width=\"3\" fill=\"transparent\" stroke-linecap=\"round\" />"
    );
    // the five played strings still get their own note circles
    assert_eq!(diagram.notes.matches("<circle").count(), 5);
}

#[test]
fn wrong_shape_is_rejected() {
    let chord = Chord {
        frets: vec![0, 0, 0, 0, 0],
        fingers: strings(["0", "0", "0", "0", "0", "0"]),
        ..Default::default()
    };
    assert_eq!(
        compose(&chord).unwrap_err(),
        ChordError::WrongFretCount {
            expected: 6,
            found: 5
        }
    );

    let chord = Chord {
        frets: vec![0, 0, 0, 0, 0, 0],
        fingers: strings(["0", "0", "0", "0", "0", "0"]).split_off(2),
        ..Default::default()
    };
    assert_eq!(
        compose(&chord).unwrap_err(),
        ChordError::WrongFingerCount {
            expected: 6,
            found: 4
        }
    );
}

#[test]
fn decimal_rendering_is_exact() {
    assert_eq!(i32_to_string(0), "0");
    assert_eq!(i32_to_string(7), "7");
    assert_eq!(i32_to_string(105), "105");
    assert_eq!(i32_to_string(-1), "-1");
    assert_eq!(i32_to_string(i32::MAX), "2147483647");
    assert_eq!(i32_to_string(i32::MIN), "-2147483648");
}

#[test]
fn finger_labels_sit_above_or_below() {
    let palette = get_palette(Mode::Light);
    // open and skipped labels sit above the grid
    assert!(svg_draw_finger("0", GuitarString::E, &40, &palette).contains("y=\"35\""));
    assert!(svg_draw_finger("x", GuitarString::A, &40, &palette).contains("y=\"35\""));
    // fretted labels sit below it
    assert_eq!(
        svg_draw_finger("2", GuitarString::A, &40, &palette),
        "<text x=\"90\" y=\"265\" class=\"text\" dominant-baseline=\"middle\" text-anchor=\"middle\" font-size=\"16\" fill=\"#160c1c\" font-weight=\"400\">2</text>"
    );
}

#[test]
fn out_of_range_string_position_falls_back_to_lowest() {
    assert_eq!(GuitarString::from(9).index(), 0);
    assert_eq!(GuitarString::from(5).index(), 5);
}

#[test]
fn min_fret_marker_is_exact() {
    let palette = get_palette(Mode::Light);
    assert_eq!(
        svg_draw_min_fret(&6, &40, &palette),
        "<text x=\"32\" y=\"110\" class=\"text\" dominant-baseline=\"middle\" text-anchor=\"end\" font-size=\"16\" fill=\"#160c1c\" font-weight=\"400\">6</text>"
    );
}

#[test]
fn background_panel_follows_flag_and_mode() {
    let light = get_palette(Mode::Light);
    assert_eq!(svg_draw_bg(false, &light), "");
    assert_eq!(
        svg_draw_bg(true, &light),
        "<rect fill=\"#FBF6E2\" width=\"300\" height=\"310\" rx=\"10\" />"
    );

    let dark = get_palette(Mode::Dark);
    assert_eq!(
        svg_draw_bg(true, &dark),
        "<rect fill=\"#160c1c\" width=\"300\" height=\"310\" rx=\"10\" />"
    );
}

#[test]
fn dark_mode_swaps_the_palette() {
    let chord = Chord {
        frets: vec![-1, 6, 5, 6, -1, -1],
        fingers: strings(["x", "2", "1", "3", "x", "x"]),
        mode: Mode::Dark,
        use_background: true,
        ..Default::default()
    };
    let diagram = compose(&chord).unwrap();
    assert_eq!(diagram.foreground, "#FBF6E2");
    assert!(diagram.background.contains("#160c1c"));

    let palette = get_palette(Mode::Dark);
    assert_eq!(
        palette,
        Palette {
            fg: "#FBF6E2",
            bg: "#160c1c"
        }
    );
}
