use unmake::ast::{parse, parse_posix, Gem, Mk, Ore};

fn ores(s: &str) -> Vec<Ore> {
    parse_posix("-", s)
        .unwrap()
        .ns
        .into_iter()
        .map(|e| e.n)
        .collect::<Vec<Ore>>()
}

fn strings(v: &[&str]) -> Vec<String> {
    v.iter().map(|e| e.to_string()).collect()
}

fn rule(ts: &[&str], ps: &[&str], cs: &[&str]) -> Ore {
    Ore::Ru {
        ts: strings(ts),
        ps: strings(ps),
        cs: strings(cs),
    }
}

fn definition(n: &str, v: &str) -> Ore {
    Ore::Mc {
        n: n.to_string(),
        v: v.to_string(),
    }
}

/// Writes a directive back as makefile text.
fn unparse(ore: &Ore) -> String {
    match ore {
        Ore::Ru { ts, ps, cs } => {
            let mut out = format!("{}:", ts.join(" "));
            for p in ps {
                out.push(' ');
                out.push_str(p);
            }
            out.push('\n');
            for c in cs {
                out.push('\t');
                out.push_str(c);
                out.push('\n');
            }
            out
        }
        Ore::Mc { n, v } => format!("{}={}\n", n, v),
        Ore::In { ps } => format!("include {}\n", ps.join(" ")),
        Ore::Ex { e } => format!("{}\n", e),
    }
}

#[test]
fn test_tab_strictness() {
    assert!(parse_posix("-", "all:\n echo hi\n").is_err());
    assert_eq!(
        ores("all:\n\techo hi\n"),
        vec![rule(&["all"], &[], &["echo hi"])]
    );
}

#[test]
fn test_special_target_restriction() {
    assert!(parse_posix("-", ".WAIT: foo\n").is_err());
    assert_eq!(ores(".POSIX:\n"), vec![rule(&[".POSIX"], &[], &[])]);
    assert!(parse_posix("-", ".POSIX:\n\techo hi\n").is_err());
    assert!(parse_posix("-", ".PHONY: all\n\techo hi\n").is_err());
    assert!(parse_posix("-", ".DEFAULT: all\n").is_err());
    assert_eq!(
        ores(".DEFAULT:\n\techo hi\n"),
        vec![rule(&[".DEFAULT"], &[], &["echo hi"])]
    );
    assert_eq!(
        ores(".PHONY: all clean\n"),
        vec![rule(&[".PHONY"], &["all", "clean"], &[])]
    );
    assert_eq!(ores(".SUFFIXES:\n"), vec![rule(&[".SUFFIXES"], &[], &[])]);
}

#[test]
fn test_multiple_targets_and_prerequisites() {
    assert_eq!(
        ores("a.out b.out: a.c b.c\n\tcc -o a.out a.c\n"),
        vec![rule(&["a.out", "b.out"], &["a.c", "b.c"], &["cc -o a.out a.c"])]
    );
}

#[test]
fn test_parse_twice() {
    let source = "# twice\n.POSIX:\nCC = cc\ninclude a.mk\nall: a ; echo\n\t@echo done\n$(X) y\n";
    assert_eq!(parse_posix("-", source), parse_posix("-", source));
    let broken = "all:\n echo hi\n";
    assert_eq!(parse_posix("-", broken), parse_posix("-", broken));
    assert_eq!(parse(broken), parse(broken));
}

#[test]
fn test_round_trip() {
    let sources = [
        ".POSIX:\n",
        "CC=cc\nCFLAGS=-O2 -Wall\n",
        "include a.mk b.mk\n",
        "all: a.out\n\t./a.out\na.out: a.c\n\t$(CC) -o a.out a.c\n",
        ".POSIX:\n.PHONY: all clean\nall: hello\nhello: hello.c\n\tcc -o hello hello.c\nclean:\n\t-rm -f hello\n",
        "$(LOAD) extra.mk\n",
    ];

    for source in sources {
        let mk: Mk = parse_posix("-", source).unwrap();
        let text: String = mk.ns.iter().map(|e| unparse(&e.n)).collect();
        assert_eq!(text, source);
    }

    let commented = "# build\n\nCC = cc # compiler\n\n# rules\nall:\n\n# say hello\n\techo hello\n\n# end\n";
    let mk: Mk = parse_posix("-", commented).unwrap();
    let text: String = mk.ns.iter().map(|e| unparse(&e.n)).collect();
    assert_eq!(text, "CC=cc \nall:\n\techo hello\n");
}

#[test]
fn test_rejection() {
    let sources = [
        " \n",
        "all:\n",
        "all\n",
        "all:\n    echo hi\n",
        "all: ;\n  echo\n",
        "A = b\\ c\n",
        "A = b\rc\n",
        "# comment\r\n",
        "include\n",
        "includeabc\n",
        "=b\n",
        "$(X\n",
        ".WAIT: a\n",
        "all:\n\techo \\\n",
        "A=b\\\n",
    ];

    for source in sources {
        assert!(parse_posix("-", source).is_err(), "failed to reject {:?}", source);
    }
}

#[test]
fn test_empty_sources() {
    assert_eq!(parse_posix("-", "").unwrap(), Mk::new(Vec::new()));
    assert_eq!(parse_posix("-", "\n\n").unwrap(), Mk::default());
    assert_eq!(parse_posix("-", "# only\n# comments").unwrap().ns, vec![]);
    let mk = parse_posix("-", "").unwrap();
    assert_eq!((mk.o, mk.l), (0, 1));
}

#[test]
fn test_inline_commands() {
    assert_eq!(ores("all:;\n"), vec![rule(&["all"], &[], &[])]);
    assert_eq!(ores("all: ; echo hi\n"), vec![rule(&["all"], &[], &["echo hi"])]);
    assert_eq!(
        ores("all: a b; echo hi\n\techo ho\n"),
        vec![rule(&["all"], &["a", "b"], &["echo hi", "echo ho"])]
    );
    assert_eq!(
        ores("all: a;\n\techo ho\n"),
        vec![rule(&["all"], &["a"], &["echo ho"])]
    );
}

#[test]
fn test_prerequisites_without_commands() {
    assert_eq!(
        ores("port: cross-compile archive\n"),
        vec![rule(&["port"], &["cross-compile", "archive"], &[])]
    );
    assert_eq!(
        ores("test: a .WAIT b\n"),
        vec![rule(&["test"], &["a", ".WAIT", "b"], &[])]
    );
}

#[test]
fn test_command_continuation() {
    assert_eq!(
        ores("all:\n\tcc \\\n\t\t-o a \\\na.c\n"),
        vec![rule(&["all"], &[], &["cc \\\n\t-o a \\\na.c"])]
    );
    assert_eq!(
        ores("all:\n\techo a\\tb \\\\ c\n"),
        vec![rule(&["all"], &[], &["echo a\\tb \\\\ c"])]
    );
}

#[test]
fn test_operators() {
    for op in ["=", "+=", "!=", "?=", "::=", ":::="] {
        assert_eq!(
            ores(&format!("A {} b\n", op)),
            vec![definition("A", "b")],
            "operator {}",
            op
        );
    }
    assert!(parse_posix("-", "A := b\n").is_err());
    assert!(parse_posix("-", "A :::: = b\n").is_err());
}

#[test]
fn test_macro_values() {
    assert_eq!(ores("A=b # c\n"), vec![definition("A", "b ")]);
    assert_eq!(ores("A=\n"), vec![definition("A", "")]);
    assert_eq!(ores("A=b"), vec![definition("A", "b")]);
    assert_eq!(ores("A = a \\\n  \\\n\tb\n"), vec![definition("A", "a  b")]);
    assert_eq!(ores("A=a\\\\b\\\"c\n"), vec![definition("A", "a\\\\b\\\"c")]);
    assert_eq!(ores("$(A)=b\n"), vec![definition("$(A)", "b")]);
    assert_eq!(ores("${A.b_1}=$(c)\n"), vec![definition("${A.b_1}", "$(c)")]);
    assert_eq!(ores("A=é\\ü\n"), vec![definition("A", "é\\ü")]);
}

#[test]
fn test_includes() {
    assert_eq!(
        ores("include a.mk $(B) ${C}\n"),
        vec![Ore::In {
            ps: strings(&["a.mk", "$(B)", "${C}"])
        }]
    );
    assert_eq!(
        ores("-include a.mk\n"),
        vec![Ore::In {
            ps: strings(&["a.mk"])
        }]
    );
    assert_eq!(
        ores("include = a.mk\n"),
        vec![Ore::In {
            ps: strings(&["=", "a.mk"])
        }]
    );
    assert_eq!(ores("include=a.mk\n"), vec![definition("include", "a.mk")]);
    assert_eq!(
        ores("include a.mk \\\n b.mk\n"),
        vec![Ore::In {
            ps: strings(&["a.mk", "b.mk"])
        }]
    );
}

#[test]
fn test_general_expressions() {
    assert_eq!(
        ores("$(I) a.mk\n"),
        vec![Ore::Ex {
            e: "$(I) a.mk".to_string()
        }]
    );
    assert_eq!(
        ores("$(I)"),
        vec![Ore::Ex {
            e: "$(I)".to_string()
        }]
    );
    assert_eq!(
        ores("${$(A)} b \\\n c\n"),
        vec![Ore::Ex {
            e: "${$(A)} b  c".to_string()
        }]
    );
}

#[test]
fn test_special_names_among_targets() {
    assert!(parse_posix("-", "all .PHONY: a\n\techo\n").is_err());
    assert_eq!(
        ores(".POSIXLY: a\n\techo\n"),
        vec![rule(&[".POSIXLY"], &["a"], &["echo"])]
    );
    assert!(parse_posix("-", "all: .PHONY\n").is_err());
    assert_eq!(
        ores("all: .PHONYish\n"),
        vec![rule(&["all"], &[".PHONYish"], &[])]
    );
}

#[test]
fn test_places() {
    let mk = parse_posix("-", "# é\nA=1\n\nall: a\n\techo ü\nB=2").unwrap();
    let places: Vec<(usize, usize)> = mk.ns.iter().map(|e| (e.o, e.l)).collect();
    assert_eq!(places, vec![(5, 2), (10, 4), (26, 6)]);
    assert_eq!(
        mk.ns,
        vec![
            Gem {
                o: 5,
                l: 2,
                n: definition("A", "1")
            },
            Gem {
                o: 10,
                l: 4,
                n: rule(&["all"], &["a"], &["echo ü"])
            },
            Gem {
                o: 26,
                l: 6,
                n: definition("B", "2")
            },
        ]
    );
}

#[test]
fn test_commands_are_never_empty() {
    for source in ["all:;\n", "all: a;\n", "all: ; \n\techo\n", "a:;\nb:;\n"] {
        for gem in parse_posix("-", source).unwrap().ns {
            match gem.n {
                Ore::Ru { ts, ps: _, cs } => {
                    assert!(!ts.is_empty());
                    assert!(cs.iter().all(|e| !e.is_empty()));
                }
                _ => unreachable!(),
            }
        }
    }
}
