use unmake::ast::{find_line, parse_posix, Gem, Mk, Ore, Span, Traceable};
use unmake::lines::line_index;
use unmake::locate::Places;
use unmake::warnings::{mock_md, Warning};

fn gem(o: usize, l: usize) -> Gem {
    Gem {
        o,
        l,
        n: Ore::Ex {
            e: "$(X)".to_string(),
        },
    }
}

fn index_of(s: &str) -> Vec<Span> {
    let src: Vec<char> = s.chars().collect();
    let places = Places::new(&src, s.len());
    line_index(&src, &places)
}

#[test]
fn test_accessors() {
    let mut g = gem(3, 0);
    assert_eq!((g.get_offset(), g.get_line()), (3, 0));
    g.set_offset(7);
    g.set_line(2);
    assert_eq!((g.get_offset(), g.get_line()), (7, 2));
    assert_eq!(g, gem(7, 2));

    let mut mk = Mk::new(vec![gem(1, 1)]);
    assert_eq!((mk.get_offset(), mk.get_line()), (0, 1));
    mk.set_offset(4);
    mk.set_line(9);
    assert_eq!((mk.get_offset(), mk.get_line()), (4, 9));
    assert_eq!(mk.ns, vec![gem(1, 1)]);
}

#[test]
fn test_update() {
    let index = vec![
        Span {
            start: 0,
            end: 4,
            line: 1,
        },
        Span {
            start: 4,
            end: 9,
            line: 2,
        },
        Span {
            start: 2,
            end: 20,
            line: 7,
        },
    ];
    assert_eq!(find_line(&index, 0), Some(1));
    assert_eq!(find_line(&index, 3), Some(1));
    assert_eq!(find_line(&index, 4), Some(2));
    assert_eq!(find_line(&index, 9), Some(7));
    assert_eq!(find_line(&index, 20), None);
    assert_eq!(find_line(&Vec::new(), 0), None);

    let mut g = gem(5, 0);
    g.update(&index);
    assert_eq!(g, gem(5, 2));
    let mut g = gem(50, 3);
    g.update(&index);
    assert_eq!(g, gem(50, 3));

    let mut mk = Mk::new(vec![gem(0, 0), gem(8, 0), gem(10, 0), gem(99, 0)]);
    mk.update(&index);
    assert_eq!((mk.o, mk.l), (0, 1));
    assert_eq!(mk.ns, vec![gem(0, 1), gem(8, 2), gem(10, 7), gem(99, 0)]);
}

#[test]
fn test_line_index() {
    let span = |start: usize, end: usize, line: usize| Span { start, end, line };
    assert_eq!(index_of(""), vec![span(0, 0, 1)]);
    assert_eq!(index_of("abc"), vec![span(0, 3, 1)]);
    assert_eq!(index_of("a\nbc\n"), vec![span(0, 1, 1), span(1, 4, 2), span(4, 5, 3)]);
    assert_eq!(index_of("\n\n"), vec![span(0, 0, 1), span(0, 1, 2), span(1, 2, 3)]);
    assert_eq!(index_of("é\nü"), vec![span(0, 2, 1), span(2, 5, 2)]);
}

#[test]
fn test_index_agrees_with_parse() {
    let source = "# é\nA=1\n\nall: a\n\techo ü\nB=2";
    let index = index_of(source);
    let mk = parse_posix("-", source).unwrap();
    for g in &mk.ns {
        assert_eq!(find_line(&index, g.o), Some(g.l));
        assert_eq!(
            g.l,
            1 + source.as_bytes()[..g.o].iter().filter(|b| **b == b'\n').count()
        );
    }
}

#[test]
fn test_places_tables() {
    let src: Vec<char> = "é\nab".chars().collect();
    let places = Places::new(&src, 5);
    assert_eq!(places.offsets, vec![0, 2, 3, 4, 5]);
    assert_eq!(places.counts, vec![0, 0, 1, 1, 1]);
}

#[test]
fn test_warning_text() {
    let w = Warning::new();
    assert_eq!((w.path, w.line, w.message), ("-", 0, ""));
    assert_eq!(w.render(), "warning: -: ");
    assert_eq!(Warning::default(), w);
    let w = Warning {
        path: "a/makefile",
        line: 12,
        message: "M: text",
    };
    assert_eq!(w.render(), "warning: a/makefile:12: M: text");
    let w = Warning {
        path: "makefile",
        line: 0,
        message: "M: text",
    };
    assert_eq!(w.render(), "warning: makefile: M: text");
}

#[test]
fn test_mock_md() {
    let md = mock_md("x.mk");
    assert_eq!(md.path, "x.mk");
    assert_eq!(md.filename, "x.mk");
    assert!(md.is_makefile);
    assert_eq!(md.build_system, "make");
    assert!(!md.is_machine_generated);
    assert!(!md.is_include_file);
    assert!(md.is_empty);
    assert_eq!(md.lines, 0);
    assert!(!md.has_final_eol);
}
