use chord_gen::svg::{svg_draw_barres, svg_draw_note, svg_draw_title};
use chord_gen::{
    find_all, get_filename, get_note_coords, get_palette, Chord, GuitarString, Hand, Mode, Palette,
    DARK_COLOUR, LIGHT_COLOUR,
};

#[test]
fn should_render_note() {
    let palette = Palette {
        fg: "#fff",
        bg: "#111",
    };
    let note = svg_draw_note(&6, GuitarString::D, &10, &0, &palette);
    let expected = "<circle cx=\"70\" cy=\"105\" r=\"13\" fill=\"#fff\" />";
    assert_eq!(note, expected);

    let note = svg_draw_note(&2, GuitarString::E, &12, &1, &palette);
    let expected = "<circle cx=\"50\" cy=\"68\" r=\"13\" fill=\"#fff\" />";
    assert_eq!(note, expected);

    let note = svg_draw_note(&7, GuitarString::A, &14, &2, &palette);
    let expected = "<circle cx=\"64\" cy=\"141\" r=\"13\" fill=\"#fff\" />";
    assert_eq!(note, expected);

    let note = svg_draw_note(&4, GuitarString::G, &20, &3, &palette);
    let expected = "<circle cx=\"110\" cy=\"100\" r=\"13\" fill=\"#fff\" />";
    assert_eq!(note, expected);

    let note = svg_draw_note(&9, GuitarString::B, &30, &5, &palette);
    let expected = "<circle cx=\"170\" cy=\"215\" r=\"13\" fill=\"#fff\" />";
    assert_eq!(note, expected);

    let note = svg_draw_note(&12, GuitarString::HighE, &32, &10, &palette);
    let expected = "<circle cx=\"210\" cy=\"162\" r=\"13\" fill=\"#fff\" />";
    assert_eq!(note, expected);

    let palette = Palette {
        fg: "#111",
        bg: "#333",
    };
    let note = svg_draw_note(&6, GuitarString::D, &10, &0, &palette);
    let expected = "<circle cx=\"70\" cy=\"105\" r=\"13\" fill=\"#111\" />";
    assert_eq!(note, expected);

    let note = svg_draw_note(&2, GuitarString::E, &12, &1, &palette);
    let expected = "<circle cx=\"50\" cy=\"68\" r=\"13\" fill=\"#111\" />";
    assert_eq!(note, expected);

    let note = svg_draw_note(&7, GuitarString::A, &14, &2, &palette);
    let expected = "<circle cx=\"64\" cy=\"141\" r=\"13\" fill=\"#111\" />";
    assert_eq!(note, expected);

    let note = svg_draw_note(&4, GuitarString::G, &20, &3, &palette);
    let expected = "<circle cx=\"110\" cy=\"100\" r=\"13\" fill=\"#111\" />";
    assert_eq!(note, expected);

    let note = svg_draw_note(&9, GuitarString::B, &30, &5, &palette);
    let expected = "<circle cx=\"170\" cy=\"215\" r=\"13\" fill=\"#111\" />";
    assert_eq!(note, expected);

    let note = svg_draw_note(&12, GuitarString::HighE, &32, &10, &palette);
    let expected = "<circle cx=\"210\" cy=\"162\" r=\"13\" fill=\"#111\" />";
    assert_eq!(note, expected);
}

#[test]
fn should_draw_barre() {
    let palette = Palette {
        fg: "#efe",
        bg: "#333",
    };

    let barre = svg_draw_barres(&5, &vec![5, 7, 7, 6, 5, -1], &40, &5, &palette);
    let expected = "<path d=\"M 50 87 C 58 77, 202 77, 210 87\" stroke=\"#efe\" stroke-width=\"3\" fill=\"transparent\" stroke-linecap=\"round\" />";
    assert_eq!(barre, expected);
}

#[test]
fn should_draw_titke() {
    let palette = Palette {
        fg: "#efe",
        bg: "#333",
    };

    let title = String::from("C");
    let suffix = String::from("aug9");

    let chord = Chord {
        title: Some(title.clone()),
        ..Default::default()
    };
    // no suffix
    assert_eq!(
        svg_draw_title(&chord, &palette),
        "<text x=\"150px\" y=\"18\" class=\"text\" dominant-baseline=\"middle\"\n  text-anchor=\"middle\" font-size=\"24\" fill=\"#efe\" font-weight=\"400\">C</text>",
    );

    //  with suffix
    let chord = Chord {
        title: Some(title),
        suffix: Some(suffix),
        ..Default::default()
    };
    assert_eq!(
        svg_draw_title(&chord, &palette),
        "<text x=\"150px\" y=\"18\" class=\"text\" dominant-baseline=\"middle\"\n        text-anchor=\"middle\" font-size=\"24\" fill=\"#efe\" font-weight=\"400\">C<tspan font-size=\"18\" fill=\"#efe\" font-weight=\"300\">aug9</tspan></text>"
    );
}

#[test]
fn should_get_note_coords() {
    assert_eq!(get_note_coords(&5, GuitarString::A, &40, &3), (90, 190));
    assert_eq!(get_note_coords(&5, GuitarString::E, &40, &3), (50, 190));
    assert_eq!(get_note_coords(&5, GuitarString::D, &40, &3), (130, 190));
    assert_eq!(get_note_coords(&5, GuitarString::G, &40, &3), (170, 190));
    assert_eq!(get_note_coords(&5, GuitarString::B, &40, &3), (210, 190));
    assert_eq!(
        get_note_coords(&5, GuitarString::HighE, &40, &3),
        (250, 190)
    );
}

#[test]
fn shoud_get_palette() {
    assert_eq!(
        get_palette(Mode::Light),
        Palette {
            fg: DARK_COLOUR,
            bg: LIGHT_COLOUR
        }
    );
    assert_eq!(
        get_palette(Mode::Dark),
        Palette {
            fg: LIGHT_COLOUR,
            bg: DARK_COLOUR
        }
    );
}

#[test]
fn check_find_all() {
    assert_eq!(find_all(&vec![2, 1, 3], &1), vec![1]);
    let empty_expected: Vec<usize> = vec![];
    assert_eq!(find_all(&vec![2, 2, 2], &1), empty_expected);
    assert_eq!(find_all(&vec![2, 2, 2], &2), vec![0, 1, 2]);
    assert_eq!(find_all(&vec![2, 2, 2, 3, 4, 2], &2), vec![0, 1, 2, 5]);

    // not if there's a lower neighbour later on - E9
    assert_eq!(find_all(&vec![2, 1, 2, 2, 4, 2], &2), vec![2, 3, 5]);
}

#[test]
fn filenames_should_use_chord_hash() {
    let title = String::from("");
    let chord = Chord {
        title: Some(title),
        frets: vec![-1, -1, -1, -1, -1, -1],
        fingers: vec![
            "x".to_string(),
            "x".to_string(),
            "x".to_string(),
            "x".to_string(),
            "x".to_string(),
            "x".to_string(),
        ],
        hand: Hand::Right,
        ..Default::default()
    };
    let filename = get_filename(&chord);
    assert_eq!(filename, 3459505358187650210);

    let title = String::from("Hendrix\u{266e}");
    let chord = Chord {
        title: Some(title),
        frets: vec![-1, 7, 6, 7, 8, -1],
        fingers: vec![
            "x".to_string(),
            "2".to_string(),
            "1".to_string(),
            "3".to_string(),
            "4".to_string(),
            "x".to_string(),
        ],
        ..Default::default()
    };
    let filename = get_filename(&chord);
    assert_eq!(filename, 10698197080569506319);

    let title = String::from("Hendrix");
    let chord = Chord {
        title: Some(title),
        frets: vec![-1, 7, 6, 7, 8, -1],
        fingers: vec![
            "x".to_string(),
            "2".to_string(),
            "1".to_string(),
            "3".to_string(),
            "4".to_string(),
            "x".to_string(),
        ],
        hand: Hand::Left,
        ..Default::default()
    };
    let filename = get_filename(&chord);
    assert_eq!(filename, 12438538594686784945);
}
