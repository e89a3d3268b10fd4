use unmake::inspect::{
    extension_implementation, name_implementation, parent_of, Metadata, DEFAULT_BUILD_SYSTEM,
};

#[test]
fn test_new_metadata() {
    let md = Metadata::new();
    assert_eq!(
        md,
        Metadata {
            path: String::new(),
            filename: String::new(),
            is_makefile: false,
            build_system: String::new(),
            is_machine_generated: false,
            is_include_file: false,
            is_empty: true,
            lines: 0,
            has_final_eol: false,
        }
    );
    assert_eq!(Metadata::default(), md);
}

#[test]
fn test_tables() {
    assert_eq!(name_implementation("makefile"), Some("make"));
    assert_eq!(name_implementation("bsdmakefile"), Some("bmake"));
    assert_eq!(name_implementation("gnumakefile"), Some("gmake"));
    assert_eq!(name_implementation("mk"), None);
    assert_eq!(name_implementation("Makefile"), None);
    assert_eq!(extension_implementation("mk"), Some("make"));
    assert_eq!(extension_implementation("makefile"), Some("make"));
    assert_eq!(extension_implementation("gnumakefile"), Some("gmake"));
    assert_eq!(extension_implementation("c"), None);
    assert_eq!(parent_of("cmakelists.txt"), Some("cmake"));
    assert_eq!(parent_of("configure"), Some("autotools"));
    assert_eq!(parent_of(".gyp"), Some("gyp"));
    assert_eq!(parent_of("makefile.pl"), Some("perl"));
    assert_eq!(parent_of("makefile"), None);
    assert_eq!(DEFAULT_BUILD_SYSTEM, "make");
}

#[test]
fn test_identify() {
    let md = Metadata::identify("src/Makefile", "Makefile", "");
    assert_eq!(md.path, "src/Makefile");
    assert_eq!(md.filename, "Makefile");
    assert!(md.is_makefile);
    assert_eq!(md.build_system, "make");
    assert!(md.is_plain_makefile());
    assert!(md.is_empty);

    let md = Metadata::identify("GNUmakefile", "GNUmakefile", "");
    assert!(md.is_makefile);
    assert_eq!(md.build_system, "gmake");
    assert!(!md.is_plain_makefile());

    let md = Metadata::identify("a/BSDmakefile.MK", "BSDmakefile.MK", "MK");
    assert!(md.is_makefile);
    assert_eq!(md.build_system, "make");

    let md = Metadata::identify("bsdmakefile", "bsdmakefile", "");
    assert_eq!(md.build_system, "bmake");

    let md = Metadata::identify("foo.gnumakefile", "foo.gnumakefile", "gnumakefile");
    assert_eq!(md.build_system, "gmake");

    let md = Metadata::identify("main.c", "main.c", "c");
    assert!(!md.is_makefile);
    assert_eq!(md.build_system, "");
    assert!(!md.is_plain_makefile());
    assert_eq!(
        md,
        Metadata {
            path: "main.c".to_string(),
            filename: "main.c".to_string(),
            ..Metadata::new()
        }
    );
}

#[test]
fn test_adopt() {
    let mut md = Metadata::identify("makefile", "makefile", "");
    assert!(!md.adopt("main.c"));
    assert!(!md.adopt("makefile"));
    assert_eq!(md, Metadata::identify("makefile", "makefile", ""));
    assert!(md.adopt("CMakeLists.txt"));
    assert!(md.is_machine_generated);
    assert_eq!(md.build_system, "cmake");
    assert!(md.is_makefile);
    assert!(!md.is_plain_makefile());

    let mut md = Metadata::identify("makefile", "makefile", "");
    assert!(md.adopt("Makefile.PL"));
    assert_eq!(md.build_system, "perl");
    let mut md = Metadata::identify("makefile", "makefile", "");
    assert!(md.adopt("configure"));
    assert_eq!(md.build_system, "autotools");
}

#[test]
fn test_measure() {
    let mut md = Metadata::identify("makefile", "makefile", "");
    md.measure("");
    assert!(md.is_empty);
    assert_eq!(md.lines, 0);
    assert!(!md.has_final_eol);
    assert!(!md.is_include_file);

    md.measure("all:\n\techo\n");
    assert!(!md.is_empty);
    assert_eq!(md.lines, 3);
    assert!(md.has_final_eol);

    md.measure("all:\n\techo");
    assert_eq!(md.lines, 2);
    assert!(!md.has_final_eol);

    md.measure("é");
    assert_eq!(md.lines, 1);
    assert!(!md.has_final_eol);

    md.measure("\n");
    assert_eq!(md.lines, 2);
    assert!(md.has_final_eol);

    for (name, included) in [
        ("sys.mk", true),
        ("foo.include.mk", true),
        (".include.mk", true),
        ("sys.mk.bak", false),
        ("asys.mk", false),
        ("sysxmk", false),
        ("foo.mk", false),
        ("include.mk", false),
    ] {
        let mut md = Metadata::identify(name, name, "mk");
        md.measure("A=1\n");
        assert_eq!(md.is_include_file, included, "{}", name);
    }
}
