use unmake::ast::parse_posix;
use unmake::inspect::Metadata;
use unmake::warnings::{
    check_ub_late_posix_marker, lint, mock_md, Warning, BLANK_COMMAND, COMMAND_COMMENT, CURDIR_ASSIGNMENT_NOP, GLOBAL_IGNORE, IMPLEMENTATTION_DEFINED_TARGET, MAKEFILE_PRECEDENCE, MISSING_FINAL_EOL, NO_RULES, PHONY_NOP, PHONY_TARGET, REDUNDANT_IGNORE_MINUS, REDUNDANT_NOTPARALLEL_WAIT, REDUNDANT_SILENT_AT, REPEATED_COMMAND_PREFIX, RULE_ALL, SIMPLIFY_AT, SIMPLIFY_MINUS, STRICT_POSIX, UB_AMBIGUOUS_INCLUDE, UB_LATE_POSIX_MARKER, UB_MAKEFLAGS_ASSIGNMENT, UB_SHELL_MACRO, WAIT_NOP, WD_NOP, WHITESPACE_LEADING_COMMAND,
};

#[test]
fn test_late_posix_marker() {
    assert!(lint(&mock_md("-"), "PKG=curl\n.POSIX:\n")
        .unwrap()
        .into_iter()
        .map(|e| e.message)
        .collect::<Vec<&'static str>>()
        .contains(&UB_LATE_POSIX_MARKER));

    assert!(!lint(&mock_md("-"), "# strict posix\n.POSIX:\nPKG=curl\n")
        .unwrap()
        .into_iter()
        .map(|e| e.message)
        .collect::<Vec<&'static str>>()
        .contains(&UB_LATE_POSIX_MARKER));

    assert!(!lint(&mock_md("-"), ".POSIX:\nPKG=curl\n")
        .unwrap()
        .into_iter()
        .map(|e| e.message)
        .collect::<Vec<&'static str>>()
        .contains(&UB_LATE_POSIX_MARKER));

    let mut md_include = mock_md("provision.include.mk");
    md_include.is_include_file = true;

    assert!(lint(&md_include, ".POSIX:\nPKG=curl\n")
        .unwrap()
        .into_iter()
        .map(|e| e.message)
        .collect::<Vec<&'static str>>()
        .contains(&UB_LATE_POSIX_MARKER));

    assert!(!lint(&md_include, "PKG=curl\n")
        .unwrap()
        .into_iter()
        .map(|e| e.message)
        .collect::<Vec<&'static str>>()
        .contains(&UB_LATE_POSIX_MARKER));

    assert!(lint(&mock_md("-"), ".POSIX:\ninclude =foo.mk\n")
        .unwrap()
        .into_iter()
        .map(|e| e.message)
        .collect::<Vec<&'static str>>()
        .contains(&UB_AMBIGUOUS_INCLUDE));
}

#[test]
fn test_ub_ambiguous_include() {
    assert!(lint(&mock_md("-"), ".POSIX:\ninclude = foo.mk\n")
        .unwrap()
        .into_iter()
        .map(|e| e.message)
        .collect::<Vec<&'static str>>()
        .contains(&UB_AMBIGUOUS_INCLUDE));

    assert!(lint(&mock_md("-"), ".POSIX:\ninclude =foo.mk\n")
        .unwrap()
        .into_iter()
        .map(|e| e.message)
        .collect::<Vec<&'static str>>()
        .contains(&UB_AMBIGUOUS_INCLUDE));

    assert!(!lint(&mock_md("-"), ".POSIX:\ninclude=foo.mk\n")
        .unwrap()
        .into_iter()
        .map(|e| e.message)
        .collect::<Vec<&'static str>>()
        .contains(&UB_AMBIGUOUS_INCLUDE));
}

#[test]
fn test_ub_makeflags_assignment() {
    assert!(
        lint(&mock_md("-"), ".POSIX:\nMAKEFLAGS ?= -j\nMAKEFLAGS = -j\nMAKEFLAGS ::= -j\nMAKEFLAGS :::= -j\nMAKEFLAGS += -j\nMAKEFLAGS != echo \"-j\"\n")
            .unwrap()
            .into_iter()
            .map(|e| e.message)
            .collect::<Vec<&'static str>>().contains(&UB_MAKEFLAGS_ASSIGNMENT));

    assert!(!lint(&mock_md("-"), ".POSIX:\nPKG = curl\n")
        .unwrap()
        .into_iter()
        .map(|e| e.message)
        .collect::<Vec<&'static str>>()
        .contains(&UB_MAKEFLAGS_ASSIGNMENT));
}

#[test]
fn test_ub_shell_macro() {
    assert!(lint(
        &mock_md("-"),
        ".POSIX:\nSHELL ?= sh\nSHELL = sh\nSHELL ::= sh\nSHELL :::= sh\nSHELL += sh\nSHELL != sh\n"
    )
    .unwrap()
    .into_iter()
    .map(|e| e.message)
    .collect::<Vec<&'static str>>()
    .contains(&UB_SHELL_MACRO));

    assert!(!lint(&mock_md("-"), ".POSIX:\nPKG = curl\n")
        .unwrap()
        .into_iter()
        .map(|e| e.message)
        .collect::<Vec<&'static str>>()
        .contains(&UB_SHELL_MACRO));
}

#[test]
fn test_makefile_precedence() {
    assert!(lint(&mock_md("Makefile"), ".POSIX:\nPKG=curl\n")
        .unwrap()
        .into_iter()
        .map(|e| e.message)
        .collect::<Vec<&'static str>>()
        .contains(&MAKEFILE_PRECEDENCE));

    assert!(!lint(&mock_md("makefile"), ".POSIX:\nPKG=curl\n")
        .unwrap()
        .into_iter()
        .map(|e| e.message)
        .collect::<Vec<&'static str>>()
        .contains(&MAKEFILE_PRECEDENCE));

    assert!(!lint(&mock_md("foo.mk"), ".POSIX:\nPKG=curl\n")
        .unwrap()
        .into_iter()
        .map(|e| e.message)
        .collect::<Vec<&'static str>>()
        .contains(&MAKEFILE_PRECEDENCE));

    assert!(!lint(&mock_md("foo.Makefile"), ".POSIX:\nPKG=curl\n")
        .unwrap()
        .into_iter()
        .map(|e| e.message)
        .collect::<Vec<&'static str>>()
        .contains(&MAKEFILE_PRECEDENCE));

    assert!(!lint(&mock_md("foo.makefile"), ".POSIX:\nPKG=curl\n")
        .unwrap()
        .into_iter()
        .map(|e| e.message)
        .collect::<Vec<&'static str>>()
        .contains(&MAKEFILE_PRECEDENCE));
}

#[test]
fn test_curdir_assignment_nop() {
    assert!(lint(&mock_md("-"), ".POSIX:\nCURDIR = build\n")
        .unwrap()
        .into_iter()
        .map(|e| e.message)
        .collect::<Vec<&'static str>>()
        .contains(&CURDIR_ASSIGNMENT_NOP));

    assert!(!lint(&mock_md("-"), ".POSIX:\n")
        .unwrap()
        .into_iter()
        .map(|e| e.message)
        .collect::<Vec<&'static str>>()
        .contains(&CURDIR_ASSIGNMENT_NOP));
}

#[test]
fn test_wd_nop() {
    assert!(lint(
        &mock_md("-"),
        ".POSIX:\n.PHONY: all\nall:\n\tcd foo\n\n\tpushd bar\n\tpopd\n"
    )
    .unwrap()
    .into_iter()
    .map(|e| e.message)
    .collect::<Vec<&'static str>>()
    .contains(&WD_NOP));

    assert!(!lint(
        &mock_md("-"),
        ".POSIX:\n.PHONY: all\nall:\n\ttar -C foo czvf foo.tgz .\n"
    )
    .unwrap()
    .into_iter()
    .map(|e| e.message)
    .collect::<Vec<&'static str>>()
    .contains(&WD_NOP));
}

#[test]
fn test_wait_nop() {
    assert!(lint(&mock_md("-"), ".POSIX:\n.WAIT:\n")
        .unwrap()
        .into_iter()
        .map(|e| e.message)
        .collect::<Vec<&'static str>>()
        .contains(&WAIT_NOP));

    assert!(
        !lint(&mock_md("-"), ".POSIX:\n.PHONY: test test-1 test-2\ntest: test-1 .WAIT test-2\ntest-1:\n\techo \"Hello World!\"\ntest-2:\n\techo \"Hi World!\"\n")
            .unwrap()
            .into_iter()
            .map(|e| e.message)
            .collect::<Vec<&'static str>>().contains(&WAIT_NOP));
}

#[test]
fn test_phony_nop() {
    assert!(lint(
        &mock_md("-"),
        ".POSIX:\n.PHONY:\nfoo: foo.c\n\tgcc -o foo foo.c\n"
    )
    .unwrap()
    .into_iter()
    .map(|e| e.message)
    .collect::<Vec<&'static str>>()
    .contains(&PHONY_NOP));

    assert!(!lint(
        &mock_md("-"),
        ".POSIX:\n.PHONY: test\ntest:\n\techo \"Hello World!\"\n"
    )
    .unwrap()
    .into_iter()
    .map(|e| e.message)
    .collect::<Vec<&'static str>>()
    .contains(&PHONY_NOP));
}

#[test]
fn test_redundant_nonparallel_wait() {
    assert!(
        lint(&mock_md("-"), ".POSIX:\n.NOTPARALLEL:\n.PHONY: test test-1 test-2\ntest: test-1 .WAIT test-2\ntest-1:\n\techo \"Hello World!\"\ntest-2:\n\techo \"Hi World!\"\n")
            .unwrap()
            .into_iter()
            .map(|e| e.message)
            .collect::<Vec<&'static str>>().contains(&REDUNDANT_NOTPARALLEL_WAIT));

    assert!(
        !lint(&mock_md("-"), ".POSIX:\n.PHONY: test test-1 test-2\ntest: test-1 .WAIT test-2\ntest-1:\n\techo \"Hello World!\"\ntest-2:\n\techo \"Hi World!\"\n")
            .unwrap()
            .into_iter()
            .map(|e| e.message)
            .collect::<Vec<&'static str>>()
            .contains(&REDUNDANT_NOTPARALLEL_WAIT));

    assert!(
        !lint(&mock_md("-"), ".POSIX:\n.NOTPARALLEL:\n.PHONY: test test-1 test-2\ntest: test-1 test-2\ntest-1:\n\techo \"Hello World!\"\ntest-2:\n\techo \"Hi World!\"\n")
            .unwrap()
            .into_iter()
            .map(|e| e.message)
            .collect::<Vec<&'static str>>()
            .contains(&REDUNDANT_NOTPARALLEL_WAIT));
}

#[test]
fn test_redundant_silent_at() {
    assert!(lint(
        &mock_md("-"),
        ".POSIX:\n.PHONY: lint\n.SILENT:\nlint:\n\t@unmake .\n"
    )
    .unwrap()
    .into_iter()
    .map(|e| e.message)
    .collect::<Vec<&'static str>>()
    .contains(&REDUNDANT_SILENT_AT));

    assert!(lint(
        &mock_md("-"),
        ".POSIX:\n.PHONY: lint\n.SILENT: lint\nlint:\n\t@unmake .\n"
    )
    .unwrap()
    .into_iter()
    .map(|e| e.message)
    .collect::<Vec<&'static str>>()
    .contains(&REDUNDANT_SILENT_AT));

    assert!(!lint(
        &mock_md("-"),
        ".POSIX:\n.PHONY: lint\n.SILENT: lint\nlint:\n\tunmake .\n"
    )
    .unwrap()
    .into_iter()
    .map(|e| e.message)
    .collect::<Vec<&'static str>>()
    .contains(&REDUNDANT_SILENT_AT));

    assert!(
        !lint(&mock_md("-"), ".POSIX:\n.PHONY: lint\nlint:\n\t@unmake .\n")
            .unwrap()
            .into_iter()
            .map(|e| e.message)
            .collect::<Vec<&'static str>>()
            .contains(&REDUNDANT_SILENT_AT)
    );
}

#[test]
fn test_redundant_ignore_minus() {
    assert!(lint(
        &mock_md("-"),
        ".POSIX:\n.PHONY: clean\n.IGNORE: clean\nclean:\n\t-rm -rf bin\n"
    )
    .unwrap()
    .into_iter()
    .map(|e| e.message)
    .collect::<Vec<&'static str>>()
    .contains(&REDUNDANT_IGNORE_MINUS));

    assert!(!lint(
        &mock_md("-"),
        ".POSIX:\n.PHONY: clean\nclean:\n\t-rm -rf bin\n"
    )
    .unwrap()
    .into_iter()
    .map(|e| e.message)
    .collect::<Vec<&'static str>>()
    .contains(&REDUNDANT_IGNORE_MINUS));
}

#[test]
fn test_global_ignore() {
    assert!(lint(&mock_md("-"), ".POSIX:\n.IGNORE:\n")
        .unwrap()
        .into_iter()
        .map(|e| e.message)
        .collect::<Vec<&'static str>>()
        .contains(&GLOBAL_IGNORE));

    assert!(!lint(
        &mock_md("-"),
        ".POSIX:\n.PHONY: clean\n.IGNORE: clean\nclean:\n\trm -rf bin"
    )
    .unwrap()
    .into_iter()
    .map(|e| e.message)
    .collect::<Vec<&'static str>>()
    .contains(&GLOBAL_IGNORE));

    assert!(!lint(
        &mock_md("-"),
        ".POSIX:\n.PHONY: clean\nclean:\n\t-rm -rf bin"
    )
    .unwrap()
    .into_iter()
    .map(|e| e.message)
    .collect::<Vec<&'static str>>()
    .contains(&GLOBAL_IGNORE));
}

#[test]
fn test_simplify_at() {
    assert!(lint(
        &mock_md("-"),
        ".POSIX:\nwelcome:\n\t@echo foo\n\t@echo bar\n\t@echo baz\n"
    )
    .unwrap()
    .into_iter()
    .map(|e| e.message)
    .collect::<Vec<&'static str>>()
    .contains(&SIMPLIFY_AT));

    assert!(!lint(
        &mock_md("-"),
        ".POSIX:\nwelcome:\n\t@echo foo\n\t@echo bar\n\techo baz\n"
    )
    .unwrap()
    .into_iter()
    .map(|e| e.message)
    .collect::<Vec<&'static str>>()
    .contains(&SIMPLIFY_AT));

    assert!(!lint(
        &mock_md("-"),
        ".POSIX:\n.SILENT: welcome\nwelcome:\n\techo foo\n\techo bar\n\techo baz\n"
    )
    .unwrap()
    .into_iter()
    .map(|e| e.message)
    .collect::<Vec<&'static str>>()
    .contains(&SIMPLIFY_AT));
}

#[test]
fn test_simplify_minus() {
    assert!(lint(
        &mock_md("-"),
        ".POSIX:\nwelcome:\n\t-echo foo\n\t-echo bar\n\t-echo baz\n"
    )
    .unwrap()
    .into_iter()
    .map(|e| e.message)
    .collect::<Vec<&'static str>>()
    .contains(&SIMPLIFY_MINUS));

    assert!(!lint(
        &mock_md("-"),
        ".POSIX:\nwelcome:\n\t-echo foo\n\t-echo bar\n\techo baz\n"
    )
    .unwrap()
    .into_iter()
    .map(|e| e.message)
    .collect::<Vec<&'static str>>()
    .contains(&SIMPLIFY_MINUS));

    assert!(!lint(
        &mock_md("-"),
        ".POSIX:\n.IGNORE: welcome\nwelcome:\n\techo foo\n\techo bar\n\techo baz\n"
    )
    .unwrap()
    .into_iter()
    .map(|e| e.message)
    .collect::<Vec<&'static str>>()
    .contains(&SIMPLIFY_MINUS));
}

#[test]
fn test_strict_posix() {
    let md_stdin: Metadata = mock_md("-");

    assert!(lint(&md_stdin, "PKG = curl\n")
        .unwrap()
        .into_iter()
        .map(|e| e.message)
        .collect::<Vec<&'static str>>()
        .contains(&STRICT_POSIX));

    assert!(!lint(&md_stdin, ".POSIX:\nPKG = curl\n")
        .unwrap()
        .into_iter()
        .map(|e| e.message)
        .collect::<Vec<&'static str>>()
        .contains(&STRICT_POSIX));

    let mut md_sys: Metadata = mock_md("sys.mk");
    md_sys.is_include_file = true;

    assert!(!lint(&md_sys, "PKG = curl\n")
        .unwrap()
        .into_iter()
        .map(|e| e.message)
        .collect::<Vec<&'static str>>()
        .contains(&STRICT_POSIX));

    let mut md_include_mk: Metadata = mock_md("foo.include.mk");
    md_include_mk.is_include_file = true;

    assert!(!lint(&md_include_mk, "PKG = curl\n")
        .unwrap()
        .into_iter()
        .map(|e| e.message)
        .collect::<Vec<&'static str>>()
        .contains(&STRICT_POSIX));
}

#[test]
fn test_implementation_defined_target() {
    assert!(lint(
        &mock_md("-"),
        ".POSIX:\n.PHONY: all\nall: foo%\nfoo%: foo.c\n\tgcc -o foo% foo.c\n"
    )
    .unwrap()
    .into_iter()
    .map(|e| e.message)
    .collect::<Vec<&'static str>>()
    .contains(&IMPLEMENTATTION_DEFINED_TARGET));

    assert!(lint(
        &mock_md("-"),
        ".POSIX:\n.PHONY: all\nall: \"foo\"\n\"foo\": foo.c\n\tgcc -o \"foo\" foo.c\n"
    )
    .unwrap()
    .into_iter()
    .map(|e| e.message)
    .collect::<Vec<&'static str>>()
    .contains(&IMPLEMENTATTION_DEFINED_TARGET));

    assert!(!lint(
        &mock_md("-"),
        ".POSIX:\n.PHONY: all\nall: foo\nfoo: foo.c\n\tgcc -o foo foo.c\n"
    )
    .unwrap()
    .into_iter()
    .map(|e| e.message)
    .collect::<Vec<&'static str>>()
    .contains(&IMPLEMENTATTION_DEFINED_TARGET));
}

#[test]
fn test_command_comment() {
    assert!(lint(
        &mock_md("-"),
        ".POSIX:\nfoo: foo.c\n\t#build foo\n\tgcc -o foo foo.c\n"
    )
    .unwrap()
    .into_iter()
    .map(|e| e.message)
    .collect::<Vec<&'static str>>()
    .contains(&COMMAND_COMMENT));

    assert!(
        lint(&mock_md("-"), ".POSIX:\nfoo: foo.c\n\t@#gcc -o foo foo.c\n")
            .unwrap()
            .into_iter()
            .map(|e| e.message)
            .collect::<Vec<&'static str>>()
            .contains(&COMMAND_COMMENT)
    );

    assert!(
        lint(&mock_md("-"), ".POSIX:\nfoo: foo.c\n\t-#gcc -o foo foo.c\n")
            .unwrap()
            .into_iter()
            .map(|e| e.message)
            .collect::<Vec<&'static str>>()
            .contains(&COMMAND_COMMENT)
    );

    assert!(
        lint(&mock_md("-"), ".POSIX:\nfoo: foo.c\n\t+#gcc -o foo foo.c\n")
            .unwrap()
            .into_iter()
            .map(|e| e.message)
            .collect::<Vec<&'static str>>()
            .contains(&COMMAND_COMMENT)
    );

    assert!(lint(
        &mock_md("-"),
        ".POSIX:\nfoo: foo.c\n\tgcc \\\n#output file \\\n\t\t-o foo \\\n\t\tfoo.c\n"
    )
    .unwrap()
    .into_iter()
    .map(|e| e.message)
    .collect::<Vec<&'static str>>()
    .contains(&COMMAND_COMMENT));

    assert!(!lint(
        &mock_md("-"),
        ".POSIX:\nfoo: foo.c\n#build foo\n\tgcc -o foo foo.c\n"
    )
    .unwrap()
    .into_iter()
    .map(|e| e.message)
    .collect::<Vec<&'static str>>()
    .contains(&COMMAND_COMMENT));
}

#[test]
fn test_repeated_command_prefix() {
    assert!(lint(
        &mock_md("-"),
        ".POSIX:\n.PHONY: test\ntest:\n\t@@echo \"Hello World!\"\n"
    )
    .unwrap()
    .into_iter()
    .map(|e| e.message)
    .collect::<Vec<&'static str>>()
    .contains(&REPEATED_COMMAND_PREFIX));

    assert!(lint(
        &mock_md("-"),
        ".POSIX:\n.PHONY: test\ntest:\n\t--echo \"Hello World!\"\n"
    )
    .unwrap()
    .into_iter()
    .map(|e| e.message)
    .collect::<Vec<&'static str>>()
    .contains(&REPEATED_COMMAND_PREFIX));

    assert!(lint(
        &mock_md("-"),
        ".POSIX:\n.PHONY: test\ntest:\n\t@-@echo \"Hello World!\"\n"
    )
    .unwrap()
    .into_iter()
    .map(|e| e.message)
    .collect::<Vec<&'static str>>()
    .contains(&REPEATED_COMMAND_PREFIX));

    assert!(!lint(
        &mock_md("-"),
        ".POSIX:\n.PHONY: test\ntest:\n\t@+-echo \"Hello World!\"\n"
    )
    .unwrap()
    .into_iter()
    .map(|e| e.message)
    .collect::<Vec<&'static str>>()
    .contains(&REPEATED_COMMAND_PREFIX));
}

#[test]
fn test_blank_command() {
    assert!(lint(&mock_md("-"), ".POSIX:\n.PHONY: test\ntest:\n\t@\n")
        .unwrap()
        .into_iter()
        .map(|e| e.message)
        .collect::<Vec<&'static str>>()
        .contains(&BLANK_COMMAND));

    assert!(lint(&mock_md("-"), ".POSIX:\n.PHONY: test\ntest:\n\t-\n")
        .unwrap()
        .into_iter()
        .map(|e| e.message)
        .collect::<Vec<&'static str>>()
        .contains(&BLANK_COMMAND));

    assert!(lint(&mock_md("-"), ".POSIX:\n.PHONY: test\ntest:\n\t+\n")
        .unwrap()
        .into_iter()
        .map(|e| e.message)
        .collect::<Vec<&'static str>>()
        .contains(&BLANK_COMMAND));

    assert!(
        lint(&mock_md("-"), ".POSIX:\n.PHONY: test\ntest:\n\t@+- \n")
            .unwrap()
            .into_iter()
            .map(|e| e.message)
            .collect::<Vec<&'static str>>()
            .contains(&BLANK_COMMAND)
    );

    assert!(!lint(
        &mock_md("-"),
        ".POSIX:\n.PHONY: test\ntest:\n\techo \"Hello World!\"\n"
    )
    .unwrap()
    .into_iter()
    .map(|e| e.message)
    .collect::<Vec<&'static str>>()
    .contains(&BLANK_COMMAND));
}

#[test]
fn test_whitespace_leading_command() {
    assert!(lint(&mock_md("-"), "foo:\n\t gcc -o foo foo.c\n")
        .unwrap()
        .into_iter()
        .map(|e| e.message)
        .collect::<Vec<&'static str>>()
        .contains(&WHITESPACE_LEADING_COMMAND));

    assert!(lint(&mock_md("-"), "foo:\n\t\tgcc -o foo foo.c\n")
        .unwrap()
        .into_iter()
        .map(|e| e.message)
        .collect::<Vec<&'static str>>()
        .contains(&WHITESPACE_LEADING_COMMAND));

    assert!(lint(&mock_md("-"), "foo:\n\t@+- gcc -o foo foo.c\n")
        .unwrap()
        .into_iter()
        .map(|e| e.message)
        .collect::<Vec<&'static str>>()
        .contains(&WHITESPACE_LEADING_COMMAND));

    assert!(!lint(&mock_md("-"), "foo:\n\tgcc -o foo foo.c\n")
        .unwrap()
        .into_iter()
        .map(|e| e.message)
        .collect::<Vec<&'static str>>()
        .contains(&WHITESPACE_LEADING_COMMAND));

    assert!(!lint(&mock_md("-"), "foo:\n\t@+-gcc -o foo foo.c\n")
        .unwrap()
        .into_iter()
        .map(|e| e.message)
        .collect::<Vec<&'static str>>()
        .contains(&WHITESPACE_LEADING_COMMAND));

    assert!(
        !lint(&mock_md("-"), "foo:\n\tgcc \\\n\t\t-o \\\n\t\tfoo foo.c\n")
            .unwrap()
            .into_iter()
            .map(|e| e.message)
            .collect::<Vec<&'static str>>()
            .contains(&WHITESPACE_LEADING_COMMAND)
    );
}

#[test]
fn test_final_eol() {
    let mf_pkg: &str = ".POSIX:\nPKG = curl";
    let mut md_pkg: Metadata = mock_md("-");
    md_pkg.is_empty = &mf_pkg.len() == &0;
    md_pkg.has_final_eol = &mf_pkg.chars().last().unwrap_or(' ') == &'\n';

    assert!(lint(&md_pkg, &mf_pkg)
        .unwrap()
        .into_iter()
        .map(|e| e.message)
        .collect::<Vec<&'static str>>()
        .contains(&MISSING_FINAL_EOL));

    let mf_pkg_final_eol: &str = ".POSIX:\nPKG = curl\n";
    let mut md_pkg_final_eol: Metadata = mock_md("-");
    md_pkg_final_eol.is_empty = &mf_pkg_final_eol.len() == &0;
    md_pkg_final_eol.has_final_eol = &mf_pkg_final_eol.chars().last().unwrap_or(' ') == &'\n';

    assert!(!lint(&md_pkg_final_eol, &mf_pkg_final_eol)
        .unwrap()
        .into_iter()
        .map(|e| e.message)
        .collect::<Vec<&'static str>>()
        .contains(&MISSING_FINAL_EOL));

    let mf_empty: &str = "";
    let mut md_empty: Metadata = mock_md("-");
    md_empty.is_empty = &mf_empty.len() == &0;
    md_empty.has_final_eol = &mf_empty.chars().last().unwrap_or(' ') == &'\n';

    assert!(!lint(&md_empty, &mf_empty)
        .unwrap()
        .into_iter()
        .map(|e| e.message)
        .collect::<Vec<&'static str>>()
        .contains(&MISSING_FINAL_EOL));
}

#[test]
fn test_phony_target() {
    assert!(
        lint(&mock_md("-"), ".POSIX:\nall:\n\techo \"Hello World!\"\n")
            .unwrap()
            .into_iter()
            .map(|e| e.message)
            .collect::<Vec<&'static str>>()
            .contains(&PHONY_TARGET)
    );

    assert!(lint(
        &mock_md("-"),
        ".POSIX:\nlint:;\ninstall:;\nuninstall:;\npublish:;\n"
    )
    .unwrap()
    .into_iter()
    .map(|e| e.message)
    .collect::<Vec<&'static str>>()
    .contains(&PHONY_TARGET));

    assert!(!lint(
        &mock_md("-"),
        ".POSIX:\n.PHONY: all\nall:\n\techo \"Hello World!\"\n"
    )
    .unwrap()
    .into_iter()
    .map(|e| e.message)
    .collect::<Vec<&'static str>>()
    .contains(&PHONY_TARGET));

    assert!(
        lint(
            &mock_md("-"),
            ".POSIX:\ntest: test-1 test-2\ntest-1:\n\techo \"Hello World!\"\ntest-2:\n\techo \"Hi World!\"\n"
        )
        .unwrap()
        .into_iter()
        .map(|e| e.message)
        .collect::<Vec<&'static str>>()
        .contains(&PHONY_TARGET));

    assert!(
        !lint(
            &mock_md("-"),
            ".POSIX:\n.PHONY: test test-1 test-2\ntest: test-1 test-2\ntest-1:\n\techo \"Hello World!\"\ntest-2:\n\techo \"Hi World!\"\n"
        )
        .unwrap()
        .into_iter()
        .map(|e| e.message)
        .collect::<Vec<&'static str>>()
        .contains(&PHONY_TARGET));

    assert!(
        !lint(
            &mock_md("-"),
            ".POSIX:\n.PHONY: test\ntest: test-1 test-2\n.PHONY: test-1\ntest-1:\n\techo \"Hello World!\"\n.PHONY: test-2\ntest-2:\n\techo \"Hi World!\"\n"
        )
        .unwrap()
        .into_iter()
        .map(|e| e.message)
        .collect::<Vec<&'static str>>()
        .contains(&PHONY_TARGET));

    assert!(lint(&mock_md("-"), ".POSIX:\nclean:\n\t-rm -rf bin\n")
        .unwrap()
        .into_iter()
        .map(|e| e.message)
        .collect::<Vec<&'static str>>()
        .contains(&PHONY_TARGET));

    assert!(!lint(
        &mock_md("-"),
        ".POSIX:\n.PHONY: clean\nclean:\n\t-rm -rf bin\n"
    )
    .unwrap()
    .into_iter()
    .map(|e| e.message)
    .collect::<Vec<&'static str>>()
    .contains(&PHONY_TARGET));

    assert!(
        lint(&mock_md("-"), ".POSIX:\nport: cross-compile archive\n")
            .unwrap()
            .into_iter()
            .map(|e| e.message)
            .collect::<Vec<&'static str>>()
            .contains(&PHONY_TARGET)
    );

    assert!(!lint(
        &mock_md("-"),
        ".POSIX:\n.PHONY: port\nport: cross-compile archive\n"
    )
    .unwrap()
    .into_iter()
    .map(|e| e.message)
    .collect::<Vec<&'static str>>()
    .contains(&PHONY_TARGET));

    assert!(lint(&mock_md("-"), ".POSIX:\nempty:;\n")
        .unwrap()
        .into_iter()
        .map(|e| e.message)
        .collect::<Vec<&'static str>>()
        .contains(&PHONY_TARGET));

    // Ensure that absent targets do not trigger a PHONY_TARGET warning,
    // unlike some makefile linters in the past.
    assert!(!lint(&mock_md("-"), ".POSIX:\nPKG = curl\n")
        .unwrap()
        .into_iter()
        .map(|e| e.message)
        .collect::<Vec<&'static str>>()
        .contains(&PHONY_TARGET));
}

#[test]
fn test_no_rules() {
    let md_stdin: Metadata = mock_md("-");

    assert!(lint(&md_stdin, ".POSIX:\nPKG = curl\n")
        .unwrap()
        .into_iter()
        .map(|e| e.message)
        .collect::<Vec<&'static str>>()
        .contains(&NO_RULES));

    let mut md_include: Metadata = mock_md("foo.include.mk");
    md_include.is_include_file = true;

    assert!(!lint(&md_include, "PKG = curl\n")
        .unwrap()
        .into_iter()
        .map(|e| e.message)
        .collect::<Vec<&'static str>>()
        .contains(&NO_RULES));

    assert!(!lint(&md_stdin, "all:\n\techo \"Hello World!\"\n")
        .unwrap()
        .into_iter()
        .map(|e| e.message)
        .collect::<Vec<&'static str>>()
        .contains(&NO_RULES));
}

#[test]
fn test_rule_all() {
    assert!(lint(&mock_md("-"), "build:\n\techo \"Hello World!\"\n")
        .unwrap()
        .into_iter()
        .map(|e| e.message)
        .collect::<Vec<&'static str>>()
        .contains(&RULE_ALL));

    assert!(!lint(&mock_md("-"), "all:\n\techo \"Hello World!\"\n")
        .unwrap()
        .into_iter()
        .map(|e| e.message)
        .collect::<Vec<&'static str>>()
        .contains(&RULE_ALL));

    assert!(!lint(
        &mock_md("-"),
        "all: build\nbuild:\n\techo \"Hello World!\"\n"
    )
    .unwrap()
    .into_iter()
    .map(|e| e.message)
    .collect::<Vec<&'static str>>()
    .contains(&RULE_ALL));

    assert!(!lint(&mock_md("-"), "PKG = curl\n")
        .unwrap()
        .into_iter()
        .map(|e| e.message)
        .collect::<Vec<&'static str>>()
        .contains(&RULE_ALL));

    let mut md_include = mock_md("foo.include.mk");
    md_include.is_include_file = true;

    assert!(!lint(&md_include, "build:\n\techo \"Hello World!\"\n")
        .unwrap()
        .into_iter()
        .map(|e| e.message)
        .collect::<Vec<&'static str>>()
        .contains(&RULE_ALL));
}

#[test]
fn test_line_numbers() {
    let md: Metadata = mock_md("-");

    assert_eq!(
        check_ub_late_posix_marker(
            &md,
            &parse_posix(md.path.as_str(), "PKG=curl\n.POSIX:\n")
                .unwrap()
                .ns
        ),
        vec![Warning {
            path: "-",
            line: 2,
            message: UB_LATE_POSIX_MARKER,
        },]
    );
}
