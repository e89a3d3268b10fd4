//! Recommendations on a parsed makefile.

use vstd::prelude::*;
use crate::ast::{outcome, parse_posix, texts, Gem, GemView, Ore, OreView};
use crate::diagnostic::{decimal, message, push_decimal};
use crate::grammar::is_special;
use crate::inspect::{blank, Metadata, MetadataView, DEFAULT_BUILD_SYSTEM};
use crate::pattern::{group, is_match, regex_group, regex_match};
use crate::text::{
    first_word, has_char, has_first, has_repeated, leading_word, lowercase, repeats,
    same, starts_with,
};

verus! {

/// The regular expression that the names of common targets that make no file
/// match, in lower case.
pub const LOWER_CONVENTIONAL_PHONY_TARGETS_PATTERN: &'static str =
    "^all|lint|install|uninstall|publish|(test.*)|(clean.*)$";

/// The regular expression that matches the prefix of a command.
pub const COMMAND_PREFIX_PATTERN: &'static str = "^(?P<prefix>[-+@]+)";

/// The regular expression that matches a command that holds nothing but a
/// prefix.
pub const BLANK_COMMAND_PATTERN: &'static str = "^[-+@]+\\s*$";

/// The regular expression that matches a command that starts with
/// whitespace, after its prefix if it has one.
pub const WHITESPACE_LEADING_COMMAND_PATTERN: &'static str = "^[-+@]*\\s+";

/// A `.POSIX:` rule that is not the first directive, or stands in an include file.
pub const UB_LATE_POSIX_MARKER: &'static str =
    "UB_LATE_POSIX_MARKER: the special rule \".POSIX:\" should be the first uncommented instruction in POSIX makefiles, or else absent from *.include.mk files";

/// An include line that could as well be a macro definition.
pub const UB_AMBIGUOUS_INCLUDE: &'static str =
    "UB_AMBIGUOUS_INCLUDE: unclear whether include line or macro definition";

/// A definition of the macro `MAKEFLAGS`.
pub const UB_MAKEFLAGS_ASSIGNMENT: &'static str =
    "UB_MAKEFLAGS_MACRO: do not modify MAKEFLAGS macro";

/// A definition of the macro `SHELL`.
pub const UB_SHELL_MACRO: &'static str =
    "UB_SHELL_MACRO: do not use or modify SHELL macro";

/// A makefile without the `.POSIX:` rule.
pub const STRICT_POSIX: &'static str =
    "STRICT_POSIX: lead makefiles with the \".POSIX:\" compliance marker, or else rename include files to *.include.mk";

/// A percent sign or a double quote in a target or a prerequisite.
pub const IMPLEMENTATTION_DEFINED_TARGET: &'static str =
    "IMPLEMENTATTION_DEFINED_TARGET: non-portable percent (%) or double-quote (\") in target or prerequisite";

/// A makefile named `Makefile`.
pub const MAKEFILE_PRECEDENCE: &'static str =
    "MAKEFILE_PRECEDENCE: lowercase Makefile to makefile for launch speed";

/// A definition of the macro `CURDIR`.
pub const CURDIR_ASSIGNMENT_NOP: &'static str =
    "CURDIR_ASSIGNMENT_NOP: CURDIR assignment does not change the make working directory";

/// A command that changes the working directory.
pub const WD_NOP: &'static str =
    "WD_NOP: change directory commands may not persist across successive commands or rules";

/// A rule for the target `.WAIT`.
pub const WAIT_NOP: &'static str =
    "WAIT_NOP: .WAIT as a target has no effect";

/// A `.PHONY:` rule without prerequisites.
pub const PHONY_NOP: &'static str =
    "PHONY_NOP: empty .PHONY has no effect";

/// A `.WAIT` prerequisite in a makefile that has a `.NOTPARALLEL:` rule.
pub const REDUNDANT_NOTPARALLEL_WAIT: &'static str =
    "REDUNDANT_NOTPARALLEL_WAIT: .NOTPARALLEL with .WAIT is redundant and superfluous";

/// A command that starts with `@` in a rule that `.SILENT` silences already.
pub const REDUNDANT_SILENT_AT: &'static str =
    "REDUNDANT_SILENT_AT: .SILENT with @ is redundant and superfluous";

/// A command that starts with `-` in a rule that `.IGNORE` covers already.
pub const REDUNDANT_IGNORE_MINUS: &'static str =
    "REDUNDANT_IGNORE_MINUS: .IGNORE with - is redundant and superfluous";

/// An `.IGNORE:` rule without prerequisites.
pub const GLOBAL_IGNORE: &'static str =
    "GLOBAL_IGNORE: .IGNORE without prerequisites may corrupt artifacts";

/// A rule of several commands that all start with `@`.
pub const SIMPLIFY_AT: &'static str =
    "SIMPLIFY_AT: replace individual at (@) signs with .SILENT target declaration(s)";

/// A rule of several commands that all start with `-`.
pub const SIMPLIFY_MINUS: &'static str =
    "SIMPLIFY_MINUS: replace individual hyphen-minus (-) signs with .IGNORE target declaration(s)";

/// A `#` in a command.
pub const COMMAND_COMMENT: &'static str =
    "COMMAND_COMMENT: comment embedded inside commands will forward to the shell interpreter";

/// A rule that makes no file and is not marked `.PHONY`.
pub const PHONY_TARGET: &'static str =
    "PHONY_TARGET: mark common artifactless rules as .PHONY";

/// A command whose prefix repeats `@`, `+` or `-`.
pub const REPEATED_COMMAND_PREFIX: &'static str =
    "REPEATED_COMMAND_PREFIX: redundant prefixes are superfluous";

/// A command that holds nothing but a prefix.
pub const BLANK_COMMAND: &'static str =
    "BLANK_COMMAND: indeterminate behavior when empty commands are sent to assorted shell interpreters";

/// A command that starts with whitespace.
pub const WHITESPACE_LEADING_COMMAND: &'static str =
    "WHITESPACE_LEADING_COMMAND: questionable whitespace detected at the start of a command";

/// A makefile without a rule for an ordinary target.
pub const NO_RULES: &'static str =
    "NO_RULES: declare at least one non-special rule, or else rename to *.include.mk";

/// A makefile whose first ordinary rule is not for `all`.
pub const RULE_ALL: &'static str =
    "RULE_ALL: makefiles conventionally name the first non-special, default rule \"all\", excepting certain *.include.mk files";

/// A file that does not end with a line feed.
pub const MISSING_FINAL_EOL: &'static str =
    "MISSING_FINAL_EOL: UNIX text files may process poorly without a final LF";

/// A recommendation on a makefile.
#[derive(Debug, PartialEq)]
pub struct Warning<'a> {
    /// The path of the file.
    pub path: &'a str,
    /// The line that the recommendation is about; 0 where it is about the
    /// whole file.
    pub line: usize,
    /// The recommendation.
    pub message: &'static str,
}

/// The mathematical value of a [`Warning`].
pub struct WarningView {
    pub path: Seq<char>,
    pub line: nat,
    pub message: Seq<char>,
}

impl<'a> View for Warning<'a> {
    type V = WarningView;

    open spec fn view(&self) -> WarningView {
        WarningView { path: self.path@, line: self.line as nat, message: self.message@ }
    }
}

/// The views of a list of warnings.
pub open spec fn views<'a>(v: Seq<Warning<'a>>) -> Seq<WarningView> {
    v.map_values(|w: Warning<'a>| w@)
}

/// How a warning reads: the path, the line where there is one, and the
/// message.
pub open spec fn rendered(w: WarningView) -> Seq<char> {
    if w.line > 0 {
        "warning: "@ + w.path + ":"@ + decimal(w.line) + ":"@ + " "@ + w.message
    } else {
        "warning: "@ + w.path + ":"@ + " "@ + w.message
    }
}

impl<'a> Warning<'a> {
    /// A warning about nothing, on the path `-`.
    pub fn new() -> (w: Warning<'a>)
        ensures
            w@ == (WarningView { path: "-"@, line: 0, message: ""@ }),
    {
        Warning { path: "-", line: 0, message: "" }
    }

    /// The warning as one line of text.
    pub fn render(&self) -> (out: String)
        ensures
            out@ == rendered(self@),
    {
        let mut out = String::new();
        out.append("warning: ");
        out.append(self.path);
        out.append(":");
        if self.line > 0 {
            push_decimal(&mut out, self.line);
            out.append(":");
        }
        out.append(" ");
        out.append(self.message);
        proof {
            assert(out@ =~= rendered(self@));
        }
        out
    }
}

impl Default for Warning<'_> {
    /// A warning about nothing, on the path `-`.
    fn default() -> (w: Self)
        ensures
            w@ == (WarningView { path: "-"@, line: 0, message: ""@ }),
    {
        Warning::new()
    }
}

/// What would be known of a plain makefile at `pth` that was not looked at.
pub fn mock_md(pth: &str) -> (md: Metadata)
    ensures
        md@ == (MetadataView {
            path: pth@,
            filename: pth@,
            is_makefile: true,
            build_system: DEFAULT_BUILD_SYSTEM@,
            ..blank()
        }),
{
    Metadata {
        path: pth.to_owned(),
        filename: pth.to_owned(),
        is_makefile: true,
        build_system: DEFAULT_BUILD_SYSTEM.to_owned(),
        is_machine_generated: false,
        is_include_file: false,
        is_empty: true,
        lines: 0,
        has_final_eol: false,
    }
}

/// What can be asked of one target, prerequisite, path or command.
#[derive(Clone, Copy, Debug)]
pub enum Test {
    /// It is this text.
    Is(&'static str),
    /// It starts with this character.
    First(char),
    /// It holds this character.
    Holds(char),
    /// Its first word is `cd`, `pushd` or `popd`.
    ChangesDirectory,
    /// This regular expression matches it.
    Matches(&'static str),
    /// It is a command whose prefix repeats `@`, `+` or `-`.
    RepeatsPrefix,
    /// It is the name of a special target.
    Special,
    /// It is a prerequisite of a rule for this special target.
    Marked(&'static str),
    /// It is, in lower case, the name of a common target that makes no file.
    Conventional,
}

/// Whether the prefix of a command repeats `@`, `+` or `-`.
pub open spec fn prefix_repeats(prefix: Seq<char>) -> bool {
    repeats(prefix, '@') || repeats(prefix, '+') || repeats(prefix, '-')
}

/// Whether `s` is a command that holds more than a prefix, in which the
/// prefix repeats `@`, `+` or `-`.
pub open spec fn repeats_prefix(s: Seq<char>) -> bool {
    regex_match(BLANK_COMMAND_PATTERN@, s) != Some(true) && prefix_repeats(
        match regex_group(COMMAND_PREFIX_PATTERN@, "prefix"@, s) {
            Some(p) => p,
            None => Seq::empty(),
        },
    )
}

/// Whether `g` is a rule that has `name` among its targets.
pub open spec fn declares(g: GemView, name: Seq<char>) -> bool {
    g.n is Ru && g.n->ts.contains(name)
}

/// Whether some rule of `gems` has `name` among its targets.
pub open spec fn declared(gems: Seq<GemView>, name: Seq<char>) -> bool {
    exists|i: int| 0 <= i < gems.len() && declares(#[trigger] gems[i], name)
}

/// Whether some rule of `gems` has `name` among its targets and is without
/// prerequisites, so that it speaks of all targets.
pub open spec fn declared_for_all(gems: Seq<GemView>, name: Seq<char>) -> bool {
    exists|i: int|
        0 <= i < gems.len() && declares(#[trigger] gems[i], name) && gems[i].n->Ru_ps.len() == 0
}

/// Whether some rule of `gems` has `name` among its targets and `s` among its
/// prerequisites.
pub open spec fn marked(gems: Seq<GemView>, name: Seq<char>, s: Seq<char>) -> bool {
    exists|i: int|
        0 <= i < gems.len() && declares(#[trigger] gems[i], name) && gems[i].n->Ru_ps.contains(s)
}

/// Whether `s` passes the test `t` in a makefile of the directives `gems`.
pub open spec fn passes(t: Test, gems: Seq<GemView>, s: Seq<char>) -> bool {
    match t {
        Test::Is(lit) => s == lit@,
        Test::First(c) => starts_with(s, c),
        Test::Holds(c) => s.contains(c),
        Test::ChangesDirectory => first_word(s) == "cd"@ || first_word(s) == "pushd"@
            || first_word(s) == "popd"@,
        Test::Matches(p) => regex_match(p@, s) == Some(true),
        Test::RepeatsPrefix => repeats_prefix(s),
        Test::Special => is_special(s),
        Test::Marked(name) => marked(gems, name@, s),
        Test::Conventional => regex_match(LOWER_CONVENTIONAL_PHONY_TARGETS_PATTERN@, lowercase(s))
            == Some(true),
    }
}

/// Whether some text of `v` passes the test `t`.
pub open spec fn some(v: Seq<Seq<char>>, t: Test, gems: Seq<GemView>) -> bool {
    exists|k: int| 0 <= k < v.len() && passes(t, gems, #[trigger] v[k])
}

/// Whether every text of `v` passes the test `t`.
pub open spec fn each(v: Seq<Seq<char>>, t: Test, gems: Seq<GemView>) -> bool {
    forall|k: int| 0 <= k < v.len() ==> passes(t, gems, #[trigger] v[k])
}

/// Whether `lit` is among the texts of `v`.
pub fn list_has(v: &Vec<String>, lit: &str) -> (r: bool)
    ensures
        r == texts(v@).contains(lit@),
{
    let mut k: usize = 0;
    while k < v.len()
        invariant
            k <= v.len(),
            forall|j: int| 0 <= j < k ==> texts(v@)[j] != lit@,
        decreases v.len() - k,
    {
        if same(v[k].as_str(), lit) {
            assert(texts(v@)[k as int] == lit@);
            return true;
        }
        k += 1;
    }
    false
}

/// Whether the directive `g` is a rule that has `name` among its targets.
pub fn rule_declares(g: &Gem, name: &str) -> (r: bool)
    ensures
        r == declares(g@, name@),
{
    match &g.n {
        Ore::Ru { ts, ps: _, cs: _ } => list_has(ts, name),
        _ => false,
    }
}

/// Whether some rule of `gems` has `name` among its targets.
pub fn is_declared(gems: &[Gem], name: &str) -> (r: bool)
    ensures
        r == declared(crate::ast::gems(gems@), name@),
{
    let mut i: usize = 0;
    while i < gems.len()
        invariant
            i <= gems.len(),
            forall|j: int| 0 <= j < i ==> !declares(#[trigger] crate::ast::gems(gems@)[j], name@),
        decreases gems.len() - i,
    {
        if rule_declares(&gems[i], name) {
            assert(declares(crate::ast::gems(gems@)[i as int], name@));
            return true;
        }
        i += 1;
    }
    false
}

/// Whether the directive `g` is a rule without prerequisites.
pub fn lacks_prerequisites(g: &Gem) -> (r: bool)
    ensures
        r == (g@.n is Ru && g@.n->Ru_ps.len() == 0),
{
    match &g.n {
        Ore::Ru { ts: _, ps, cs: _ } => ps.len() == 0,
        _ => false,
    }
}

/// Whether some rule of `gems` has `name` among its targets and is without
/// prerequisites.
pub fn is_declared_for_all(gems: &[Gem], name: &str) -> (r: bool)
    ensures
        r == declared_for_all(crate::ast::gems(gems@), name@),
{
    let mut i: usize = 0;
    while i < gems.len()
        invariant
            i <= gems.len(),
            forall|j: int|
                0 <= j < i ==> !(declares(#[trigger] crate::ast::gems(gems@)[j], name@)
                    && crate::ast::gems(gems@)[j].n->Ru_ps.len() == 0),
        decreases gems.len() - i,
    {
        if rule_declares(&gems[i], name) && lacks_prerequisites(&gems[i]) {
            assert(declares(crate::ast::gems(gems@)[i as int], name@));
            return true;
        }
        i += 1;
    }
    false
}

/// Whether the directive `g` is a rule that has `s` among its prerequisites.
pub fn requires_text(g: &Gem, s: &str) -> (r: bool)
    ensures
        r == (g@.n is Ru && g@.n->Ru_ps.contains(s@)),
{
    match &g.n {
        Ore::Ru { ts: _, ps, cs: _ } => list_has(ps, s),
        _ => false,
    }
}

/// Whether some rule of `gems` has `name` among its targets and `s` among its
/// prerequisites.
pub fn is_marked(gems: &[Gem], name: &str, s: &str) -> (r: bool)
    ensures
        r == marked(crate::ast::gems(gems@), name@, s@),
{
    let mut i: usize = 0;
    while i < gems.len()
        invariant
            i <= gems.len(),
            forall|j: int|
                0 <= j < i ==> !(declares(#[trigger] crate::ast::gems(gems@)[j], name@)
                    && crate::ast::gems(gems@)[j].n->Ru_ps.contains(s@)),
        decreases gems.len() - i,
    {
        if rule_declares(&gems[i], name) && requires_text(&gems[i], s) {
            assert(declares(crate::ast::gems(gems@)[i as int], name@));
            return true;
        }
        i += 1;
    }
    false
}

/// Whether the prefix of a command repeats `@`, `+` or `-`.
pub fn has_repeated_prefix(prefix: &str) -> (r: bool)
    ensures
        r == prefix_repeats(prefix@),
{
    has_repeated(prefix, '@') || has_repeated(prefix, '+') || has_repeated(prefix, '-')
}

/// Whether `s` is the name of a special target.
pub fn is_special_name(s: &str) -> (r: bool)
    ensures
        r == is_special(s@),
{
    same(s, ".POSIX") || same(s, ".DEFAULT") || same(s, ".IGNORE") || same(s, ".NOTPARALLEL")
        || same(s, ".PHONY") || same(s, ".PRECIOUS") || same(s, ".SCCS_GET") || same(s, ".SILENT")
        || same(s, ".SUFFIXES") || same(s, ".WAIT")
}

/// Whether the regular expression `pattern` matches `s`.
pub fn matches_pattern(pattern: &str, s: &str) -> (r: bool)
    ensures
        r == (regex_match(pattern@, s@) == Some(true)),
{
    match is_match(pattern, s) {
        Some(b) => b,
        None => false,
    }
}

/// Whether `s` passes the test `t` in a makefile of the directives `gems`.
pub fn holds(t: Test, gems: &[Gem], s: &str) -> (r: bool)
    ensures
        r == passes(t, crate::ast::gems(gems@), s@),
{
    match t {
        Test::Is(lit) => same(s, lit),
        Test::First(c) => has_first(s, c),
        Test::Holds(c) => has_char(s, c),
        Test::ChangesDirectory => {
            let w = leading_word(s);
            same(w.as_str(), "cd") || same(w.as_str(), "pushd") || same(w.as_str(), "popd")
        },
        Test::Matches(p) => matches_pattern(p, s),
        Test::RepeatsPrefix => {
            if matches_pattern(BLANK_COMMAND_PATTERN, s) {
                false
            } else {
                match group(COMMAND_PREFIX_PATTERN, "prefix", s) {
                    Some(p) => has_repeated_prefix(p.as_str()),
                    None => {
                        proof {
                            reveal_strlit("");
                            assert(""@ =~= Seq::<char>::empty());
                        }
                        has_repeated_prefix("")
                    },
                }
            }
        },
        Test::Special => is_special_name(s),
        Test::Marked(name) => is_marked(gems, name, s),
        Test::Conventional => {
            let lower = s.to_lowercase();
            matches_pattern(LOWER_CONVENTIONAL_PHONY_TARGETS_PATTERN, lower.as_str())
        },
    }
}

/// Whether some text of `v` passes the test `t`.
pub fn any_passes(v: &Vec<String>, t: Test, gems: &[Gem]) -> (r: bool)
    ensures
        r == some(texts(v@), t, crate::ast::gems(gems@)),
{
    let mut k: usize = 0;
    while k < v.len()
        invariant
            k <= v.len(),
            forall|j: int|
                0 <= j < k ==> !passes(t, crate::ast::gems(gems@), #[trigger] texts(v@)[j]),
        decreases v.len() - k,
    {
        if holds(t, gems, v[k].as_str()) {
            assert(passes(t, crate::ast::gems(gems@), texts(v@)[k as int]));
            return true;
        }
        k += 1;
    }
    false
}

/// Whether every text of `v` passes the test `t`.
pub fn all_pass(v: &Vec<String>, t: Test, gems: &[Gem]) -> (r: bool)
    ensures
        r == each(texts(v@), t, crate::ast::gems(gems@)),
{
    let mut k: usize = 0;
    while k < v.len()
        invariant
            k <= v.len(),
            forall|j: int|
                0 <= j < k ==> passes(t, crate::ast::gems(gems@), #[trigger] texts(v@)[j]),
        decreases v.len() - k,
    {
        if !holds(t, gems, v[k].as_str()) {
            assert(!passes(t, crate::ast::gems(gems@), texts(v@)[k as int]));
            return false;
        }
        k += 1;
    }
    true
}

/// What a check looks for in each directive.
#[derive(Clone, Copy, Debug, PartialEq, Eq, Structural)]
pub enum Quirk {
    LatePosixMarker,
    AmbiguousInclude,
    MakeflagsAssignment,
    ShellMacro,
    ImplementationDefinedTarget,
    CurdirAssignmentNop,
    WdNop,
    WaitNop,
    PhonyNop,
    RedundantNotparallelWait,
    RedundantSilentAt,
    RedundantIgnoreMinus,
    GlobalIgnore,
    SimplifyAt,
    SimplifyMinus,
    CommandComment,
    PhonyTarget,
    RepeatedCommandPrefix,
    BlankCommand,
    WhitespaceLeadingCommand,
}

/// The message of the warnings about `q`.
pub open spec fn message_of(q: Quirk) -> Seq<char> {
    match q {
        Quirk::LatePosixMarker => UB_LATE_POSIX_MARKER@,
        Quirk::AmbiguousInclude => UB_AMBIGUOUS_INCLUDE@,
        Quirk::MakeflagsAssignment => UB_MAKEFLAGS_ASSIGNMENT@,
        Quirk::ShellMacro => UB_SHELL_MACRO@,
        Quirk::ImplementationDefinedTarget => IMPLEMENTATTION_DEFINED_TARGET@,
        Quirk::CurdirAssignmentNop => CURDIR_ASSIGNMENT_NOP@,
        Quirk::WdNop => WD_NOP@,
        Quirk::WaitNop => WAIT_NOP@,
        Quirk::PhonyNop => PHONY_NOP@,
        Quirk::RedundantNotparallelWait => REDUNDANT_NOTPARALLEL_WAIT@,
        Quirk::RedundantSilentAt => REDUNDANT_SILENT_AT@,
        Quirk::RedundantIgnoreMinus => REDUNDANT_IGNORE_MINUS@,
        Quirk::GlobalIgnore => GLOBAL_IGNORE@,
        Quirk::SimplifyAt => SIMPLIFY_AT@,
        Quirk::SimplifyMinus => SIMPLIFY_MINUS@,
        Quirk::CommandComment => COMMAND_COMMENT@,
        Quirk::PhonyTarget => PHONY_TARGET@,
        Quirk::RepeatedCommandPrefix => REPEATED_COMMAND_PREFIX@,
        Quirk::BlankCommand => BLANK_COMMAND@,
        Quirk::WhitespaceLeadingCommand => WHITESPACE_LEADING_COMMAND@,
    }
}

/// The message of the warnings about `q`.
pub fn quirk_message(q: Quirk) -> (m: &'static str)
    ensures
        m@ == message_of(q),
{
    match q {
        Quirk::LatePosixMarker => UB_LATE_POSIX_MARKER,
        Quirk::AmbiguousInclude => UB_AMBIGUOUS_INCLUDE,
        Quirk::MakeflagsAssignment => UB_MAKEFLAGS_ASSIGNMENT,
        Quirk::ShellMacro => UB_SHELL_MACRO,
        Quirk::ImplementationDefinedTarget => IMPLEMENTATTION_DEFINED_TARGET,
        Quirk::CurdirAssignmentNop => CURDIR_ASSIGNMENT_NOP,
        Quirk::WdNop => WD_NOP,
        Quirk::WaitNop => WAIT_NOP,
        Quirk::PhonyNop => PHONY_NOP,
        Quirk::RedundantNotparallelWait => REDUNDANT_NOTPARALLEL_WAIT,
        Quirk::RedundantSilentAt => REDUNDANT_SILENT_AT,
        Quirk::RedundantIgnoreMinus => REDUNDANT_IGNORE_MINUS,
        Quirk::GlobalIgnore => GLOBAL_IGNORE,
        Quirk::SimplifyAt => SIMPLIFY_AT,
        Quirk::SimplifyMinus => SIMPLIFY_MINUS,
        Quirk::CommandComment => COMMAND_COMMENT,
        Quirk::PhonyTarget => PHONY_TARGET,
        Quirk::RepeatedCommandPrefix => REPEATED_COMMAND_PREFIX,
        Quirk::BlankCommand => BLANK_COMMAND,
        Quirk::WhitespaceLeadingCommand => WHITESPACE_LEADING_COMMAND,
    }
}

/// What the makefile as a whole says on `q`: whether it sets all targets
/// apart at once, by a rule for `.NOTPARALLEL`, or by a rule for `.SILENT`
/// or `.IGNORE` without prerequisites.
pub open spec fn sweeping(q: Quirk, gems: Seq<GemView>) -> bool {
    match q {
        Quirk::RedundantNotparallelWait => declared(gems, ".NOTPARALLEL"@),
        Quirk::RedundantSilentAt => declared_for_all(gems, ".SILENT"@),
        Quirk::SimplifyAt => declared_for_all(gems, ".SILENT"@),
        Quirk::SimplifyMinus => declared_for_all(gems, ".IGNORE"@),
        _ => false,
    }
}

/// Whether a rule with these targets, prerequisites and commands, the
/// `i`-th directive of `gems`, shows the quirk `q`.
pub open spec fn rule_shows(
    q: Quirk,
    include_file: bool,
    gems: Seq<GemView>,
    i: int,
    ts: Seq<Seq<char>>,
    ps: Seq<Seq<char>>,
    cs: Seq<Seq<char>>,
) -> bool {
    match q {
        Quirk::LatePosixMarker => (include_file || i > 0) && ts == seq![".POSIX"@],
        Quirk::ImplementationDefinedTarget => some(ps, Test::Holds('%'), gems) || some(
            ps,
            Test::Holds('"'),
            gems,
        ) || some(ts, Test::Holds('%'), gems) || some(ts, Test::Holds('"'), gems),
        Quirk::WdNop => some(cs, Test::ChangesDirectory, gems),
        Quirk::WaitNop => ts.contains(".WAIT"@),
        Quirk::PhonyNop => ts.contains(".PHONY"@) && ps.len() == 0,
        Quirk::RedundantNotparallelWait => sweeping(q, gems) && ps.contains(".WAIT"@),
        Quirk::RedundantSilentAt => some(cs, Test::First('@'), gems) && (sweeping(q, gems)
            || some(ts, Test::Marked(".SILENT"), gems)),
        Quirk::RedundantIgnoreMinus => some(cs, Test::First('-'), gems) && some(
            ts,
            Test::Marked(".IGNORE"),
            gems,
        ),
        Quirk::GlobalIgnore => ts.contains(".IGNORE"@) && ps.len() == 0,
        Quirk::SimplifyAt => !sweeping(q, gems) && cs.len() > 1 && each(
            cs,
            Test::First('@'),
            gems,
        ) && !some(ts, Test::Marked(".SILENT"), gems),
        Quirk::SimplifyMinus => !sweeping(q, gems) && cs.len() > 1 && each(
            cs,
            Test::First('-'),
            gems,
        ) && !some(ts, Test::Marked(".IGNORE"), gems),
        Quirk::CommandComment => some(cs, Test::Holds('#'), gems),
        Quirk::PhonyTarget => !some(ts, Test::Special, gems) && !each(
            ts,
            Test::Marked(".PHONY"),
            gems,
        ) && (some(ts, Test::Conventional, gems) || cs.len() == 0),
        Quirk::RepeatedCommandPrefix => some(cs, Test::RepeatsPrefix, gems),
        Quirk::BlankCommand => some(cs, Test::Matches(BLANK_COMMAND_PATTERN), gems),
        Quirk::WhitespaceLeadingCommand => some(
            cs,
            Test::Matches(WHITESPACE_LEADING_COMMAND_PATTERN),
            gems,
        ),
        _ => false,
    }
}

/// Whether the `i`-th directive of `gems` shows the quirk `q`.
pub open spec fn shows(q: Quirk, include_file: bool, gems: Seq<GemView>, i: int) -> bool {
    match gems[i].n {
        OreView::Ru { ts, ps, cs } => rule_shows(q, include_file, gems, i, ts, ps, cs),
        OreView::Mc { n, v } => match q {
            Quirk::MakeflagsAssignment => n == "MAKEFLAGS"@,
            Quirk::ShellMacro => n == "SHELL"@,
            Quirk::CurdirAssignmentNop => n == "CURDIR"@,
            _ => false,
        },
        OreView::In { ps } => q == Quirk::AmbiguousInclude && some(ps, Test::First('='), gems),
        OreView::Ex { e } => false,
    }
}

/// Whether the list of texts `v` is `lit` alone.
pub fn is_only(v: &Vec<String>, lit: &str) -> (r: bool)
    ensures
        r == (texts(v@) == seq![lit@]),
{
    if v.len() == 1 && same(v[0].as_str(), lit) {
        assert(texts(v@) =~= seq![lit@]);
        true
    } else {
        assert(texts(v@) != seq![lit@]) by {
            if texts(v@) == seq![lit@] {
                assert(texts(v@).len() == 1);
                assert(texts(v@)[0] == lit@);
            }
        }
        false
    }
}

/// What the makefile as a whole says on `q`.
pub fn is_sweeping(q: Quirk, gems: &[Gem]) -> (r: bool)
    ensures
        r == sweeping(q, crate::ast::gems(gems@)),
{
    match q {
        Quirk::RedundantNotparallelWait => is_declared(gems, ".NOTPARALLEL"),
        Quirk::RedundantSilentAt => is_declared_for_all(gems, ".SILENT"),
        Quirk::SimplifyAt => is_declared_for_all(gems, ".SILENT"),
        Quirk::SimplifyMinus => is_declared_for_all(gems, ".IGNORE"),
        _ => false,
    }
}

/// Whether a rule with these targets, prerequisites and commands, the
/// `i`-th directive of `gems`, shows the quirk `q`.
pub fn rule_has_quirk(
    q: Quirk,
    include_file: bool,
    gems: &[Gem],
    sweep: bool,
    i: usize,
    ts: &Vec<String>,
    ps: &Vec<String>,
    cs: &Vec<String>,
) -> (r: bool)
    requires
        sweep == sweeping(q, crate::ast::gems(gems@)),
    ensures
        r == rule_shows(
            q,
            include_file,
            crate::ast::gems(gems@),
            i as int,
            texts(ts@),
            texts(ps@),
            texts(cs@),
        ),
{
    match q {
        Quirk::LatePosixMarker => (include_file || i > 0) && is_only(ts, ".POSIX"),
        Quirk::ImplementationDefinedTarget => any_passes(ps, Test::Holds('%'), gems) || any_passes(
            ps,
            Test::Holds('"'),
            gems,
        ) || any_passes(ts, Test::Holds('%'), gems) || any_passes(ts, Test::Holds('"'), gems),
        Quirk::WdNop => any_passes(cs, Test::ChangesDirectory, gems),
        Quirk::WaitNop => list_has(ts, ".WAIT"),
        Quirk::PhonyNop => list_has(ts, ".PHONY") && ps.len() == 0,
        Quirk::RedundantNotparallelWait => sweep && list_has(ps, ".WAIT"),
        Quirk::RedundantSilentAt => any_passes(cs, Test::First('@'), gems) && (sweep || any_passes(
            ts,
            Test::Marked(".SILENT"),
            gems,
        )),
        Quirk::RedundantIgnoreMinus => any_passes(cs, Test::First('-'), gems) && any_passes(
            ts,
            Test::Marked(".IGNORE"),
            gems,
        ),
        Quirk::GlobalIgnore => list_has(ts, ".IGNORE") && ps.len() == 0,
        Quirk::SimplifyAt => !sweep && cs.len() > 1 && all_pass(cs, Test::First('@'), gems)
            && !any_passes(ts, Test::Marked(".SILENT"), gems),
        Quirk::SimplifyMinus => !sweep && cs.len() > 1 && all_pass(cs, Test::First('-'), gems)
            && !any_passes(ts, Test::Marked(".IGNORE"), gems),
        Quirk::CommandComment => any_passes(cs, Test::Holds('#'), gems),
        Quirk::PhonyTarget => !any_passes(ts, Test::Special, gems) && !all_pass(
            ts,
            Test::Marked(".PHONY"),
            gems,
        ) && (any_passes(ts, Test::Conventional, gems) || cs.len() == 0),
        Quirk::RepeatedCommandPrefix => any_passes(cs, Test::RepeatsPrefix, gems),
        Quirk::BlankCommand => any_passes(cs, Test::Matches(BLANK_COMMAND_PATTERN), gems),
        Quirk::WhitespaceLeadingCommand => any_passes(
            cs,
            Test::Matches(WHITESPACE_LEADING_COMMAND_PATTERN),
            gems,
        ),
        _ => false,
    }
}

/// Whether the `i`-th directive of `gems` shows the quirk `q`.
pub fn has_quirk(q: Quirk, include_file: bool, gems: &[Gem], sweep: bool, i: usize) -> (r: bool)
    requires
        i < gems.len(),
        sweep == sweeping(q, crate::ast::gems(gems@)),
    ensures
        r == shows(q, include_file, crate::ast::gems(gems@), i as int),
{
    match &gems[i].n {
        Ore::Ru { ts, ps, cs } => rule_has_quirk(q, include_file, gems, sweep, i, ts, ps, cs),
        Ore::Mc { n, v: _ } => match q {
            Quirk::MakeflagsAssignment => same(n.as_str(), "MAKEFLAGS"),
            Quirk::ShellMacro => same(n.as_str(), "SHELL"),
            Quirk::CurdirAssignmentNop => same(n.as_str(), "CURDIR"),
            _ => false,
        },
        Ore::In { ps } => match q {
            Quirk::AmbiguousInclude => any_passes(ps, Test::First('='), gems),
            _ => false,
        },
        Ore::Ex { e: _ } => false,
    }
}

/// One warning for each of the first `k` directives of `gems` that is
/// flagged, in their order, each at the line of its directive.
pub open spec fn flagged(
    path: Seq<char>,
    message: Seq<char>,
    gems: Seq<GemView>,
    flags: Seq<bool>,
    k: int,
) -> Seq<WarningView>
    decreases k,
{
    if k <= 0 {
        Seq::empty()
    } else if flags[k - 1] {
        flagged(path, message, gems, flags, k - 1).push(
            WarningView { path, line: gems[k - 1].l, message },
        )
    } else {
        flagged(path, message, gems, flags, k - 1)
    }
}

/// The warnings about the quirk `q` in a makefile of the directives `gems`:
/// one for each directive that shows it, in their order.
pub open spec fn found(q: Quirk, md: MetadataView, gems: Seq<GemView>) -> Seq<WarningView> {
    flagged(
        md.path,
        message_of(q),
        gems,
        Seq::new(gems.len(), |i: int| shows(q, md.is_include_file, gems, i)),
        gems.len() as int,
    )
}

/// One warning for each directive of `gems` that is flagged.
pub fn flag_warnings<'a>(
    metadata: &'a Metadata,
    gems: &[Gem],
    flags: &Vec<bool>,
    message: &'static str,
) -> (out: Vec<Warning<'a>>)
    requires
        flags.len() == gems.len(),
    ensures
        views(out@) == flagged(
            metadata.path@,
            message@,
            crate::ast::gems(gems@),
            flags@,
            gems.len() as int,
        ),
{
    let mut out: Vec<Warning<'a>> = Vec::new();
    let mut k: usize = 0;
    proof {
        assert(views(out@) =~= Seq::<WarningView>::empty());
    }
    while k < gems.len()
        invariant
            k <= gems.len(),
            flags.len() == gems.len(),
            views(out@) == flagged(
                metadata.path@,
                message@,
                crate::ast::gems(gems@),
                flags@,
                k as int,
            ),
        decreases gems.len() - k,
    {
        if flags[k] {
            let w = Warning { path: metadata.path.as_str(), line: gems[k].l, message };
            proof {
                assert(views(out@.push(w)) =~= views(out@).push(w@));
            }
            out.push(w);
        }
        k += 1;
    }
    out
}

/// The warnings about the quirk `q` in a makefile of the directives `gems`.
pub fn survey<'a>(q: Quirk, metadata: &'a Metadata, gems: &[Gem]) -> (out: Vec<Warning<'a>>)
    ensures
        views(out@) == found(q, metadata@, crate::ast::gems(gems@)),
{
    let sweep = is_sweeping(q, gems);
    let mut flags: Vec<bool> = Vec::new();
    let mut i: usize = 0;
    while i < gems.len()
        invariant
            i <= gems.len(),
            flags.len() == i,
            sweep == sweeping(q, crate::ast::gems(gems@)),
            forall|j: int|
                0 <= j < i ==> flags[j] == shows(
                    q,
                    metadata.is_include_file,
                    crate::ast::gems(gems@),
                    j,
                ),
        decreases gems.len() - i,
    {
        flags.push(has_quirk(q, metadata.is_include_file, gems, sweep, i));
        i += 1;
    }
    proof {
        assert(flags@ =~= Seq::new(
            crate::ast::gems(gems@).len(),
            |i: int| shows(q, metadata.is_include_file, crate::ast::gems(gems@), i),
        ));
    }
    flag_warnings(metadata, gems, &flags, quirk_message(q))
}

/// One warning about the file as a whole where `cond` holds, and none where
/// it does not.
pub open spec fn single(cond: bool, path: Seq<char>, line: nat, message: Seq<char>) -> Seq<
    WarningView,
> {
    if cond {
        seq![WarningView { path, line, message }]
    } else {
        Seq::empty()
    }
}

/// One warning about the file as a whole where `cond` holds.
pub fn warn_if<'a>(cond: bool, metadata: &'a Metadata, line: usize, message: &'static str) -> (out:
    Vec<Warning<'a>>)
    ensures
        views(out@) == single(cond, metadata.path@, line as nat, message@),
{
    let mut out: Vec<Warning<'a>> = Vec::new();
    if cond {
        let w = Warning { path: metadata.path.as_str(), line, message };
        out.push(w);
        proof {
            assert(views(out@) =~= seq![w@]);
        }
    } else {
        proof {
            assert(views(out@) =~= Seq::<WarningView>::empty());
        }
    }
    out
}

/// Whether `g` is a rule with a target that is not special.
pub open spec fn is_ordinary(g: GemView, gems: Seq<GemView>) -> bool {
    g.n is Ru && !each(g.n->ts, Test::Special, gems)
}

/// Whether some directive of `gems` is a rule with a target that is not
/// special.
pub open spec fn has_ordinary_rule(gems: Seq<GemView>) -> bool {
    exists|i: int| 0 <= i < gems.len() && is_ordinary(#[trigger] gems[i], gems)
}

/// Whether `g` is a rule with targets none of which is special.
pub open spec fn is_plain(g: GemView, gems: Seq<GemView>) -> bool {
    g.n is Ru && g.n->ts.len() > 0 && !some(g.n->ts, Test::Special, gems)
}

/// The first target of the first of the directives `gems[k..]` that is a rule
/// with targets none of which is special.
pub open spec fn default_target(gems: Seq<GemView>, k: int) -> Option<Seq<char>>
    decreases gems.len() - k,
{
    if k < 0 || k >= gems.len() {
        None
    } else if is_plain(gems[k], gems) {
        Some(gems[k].n->ts[0])
    } else {
        default_target(gems, k + 1)
    }
}

/// The warning on a makefile that is no include file and has no rule for
/// `.POSIX`: one, at line 1.
pub open spec fn strict_posix(md: MetadataView, gems: Seq<GemView>) -> Seq<WarningView> {
    single(!md.is_include_file && !declared(gems, ".POSIX"@), md.path, 1, STRICT_POSIX@)
}

/// The warning on a makefile named `Makefile`: one, on the whole file.
pub open spec fn makefile_precedence(md: MetadataView) -> Seq<WarningView> {
    single(md.filename == "Makefile"@, md.path, 0, MAKEFILE_PRECEDENCE@)
}

/// The warning on a makefile that is no include file and has no rule with
/// an ordinary target: one, on the whole file.
pub open spec fn no_rules(md: MetadataView, gems: Seq<GemView>) -> Seq<WarningView> {
    single(!md.is_include_file && !has_ordinary_rule(gems), md.path, 0, NO_RULES@)
}

/// The warning on a makefile that is no include file and whose first rule
/// with ordinary targets only is not for `all`: one, on the whole file.
pub open spec fn rule_all(md: MetadataView, gems: Seq<GemView>) -> Seq<WarningView> {
    single(
        !md.is_include_file && default_target(gems, 0) is Some && default_target(gems, 0)
            != Some("all"@),
        md.path,
        0,
        RULE_ALL@,
    )
}

/// The warning on a file that is not empty and does not end with a line
/// feed: one, at the last line.
pub open spec fn final_eol(md: MetadataView) -> Seq<WarningView> {
    single(!md.is_empty && !md.has_final_eol, md.path, md.lines, MISSING_FINAL_EOL@)
}

/// All the warnings on a makefile, check after check.
pub open spec fn all_warnings(md: MetadataView, gems: Seq<GemView>) -> Seq<WarningView> {
    found(Quirk::LatePosixMarker, md, gems) + found(Quirk::AmbiguousInclude, md, gems) + found(
        Quirk::MakeflagsAssignment,
        md,
        gems,
    ) + found(Quirk::ShellMacro, md, gems) + strict_posix(md, gems) + found(
        Quirk::ImplementationDefinedTarget,
        md,
        gems,
    ) + makefile_precedence(md) + found(Quirk::CurdirAssignmentNop, md, gems) + found(
        Quirk::WdNop,
        md,
        gems,
    ) + found(Quirk::WaitNop, md, gems) + found(Quirk::PhonyNop, md, gems) + found(
        Quirk::RedundantNotparallelWait,
        md,
        gems,
    ) + found(Quirk::RedundantSilentAt, md, gems) + found(Quirk::RedundantIgnoreMinus, md, gems)
        + found(Quirk::GlobalIgnore, md, gems) + found(Quirk::SimplifyAt, md, gems) + found(
        Quirk::SimplifyMinus,
        md,
        gems,
    ) + found(Quirk::CommandComment, md, gems) + found(Quirk::PhonyTarget, md, gems) + found(
        Quirk::RepeatedCommandPrefix,
        md,
        gems,
    ) + found(Quirk::BlankCommand, md, gems) + found(Quirk::WhitespaceLeadingCommand, md, gems)
        + no_rules(md, gems) + rule_all(md, gems) + final_eol(md)
}

/// Whether some directive of `gems` is a rule with a target that is not
/// special.
pub fn any_ordinary_rule(gems: &[Gem]) -> (r: bool)
    ensures
        r == has_ordinary_rule(crate::ast::gems(gems@)),
{
    let mut i: usize = 0;
    while i < gems.len()
        invariant
            i <= gems.len(),
            forall|j: int|
                0 <= j < i ==> !is_ordinary(
                    #[trigger] crate::ast::gems(gems@)[j],
                    crate::ast::gems(gems@),
                ),
        decreases gems.len() - i,
    {
        let hit = match &gems[i].n {
            Ore::Ru { ts, ps: _, cs: _ } => !all_pass(ts, Test::Special, gems),
            _ => false,
        };
        if hit {
            assert(is_ordinary(crate::ast::gems(gems@)[i as int], crate::ast::gems(gems@)));
            return true;
        }
        i += 1;
    }
    false
}

/// Whether the makefile has a first rule with targets none of which is
/// special, and the first target of that rule is not `all`.
pub fn default_is_not_all(gems: &[Gem]) -> (r: bool)
    ensures
        r == (default_target(crate::ast::gems(gems@), 0) is Some && default_target(
            crate::ast::gems(gems@),
            0,
        ) != Some("all"@)),
{
    let mut i: usize = 0;
    while i < gems.len()
        invariant
            i <= gems.len(),
            default_target(crate::ast::gems(gems@), 0) == default_target(
                crate::ast::gems(gems@),
                i as int,
            ),
        decreases gems.len() - i,
    {
        match &gems[i].n {
            Ore::Ru { ts, ps: _, cs: _ } => {
                if ts.len() > 0 && !any_passes(ts, Test::Special, gems) {
                    assert(texts(ts@)[0] == ts@[0]@);
                    return !same(ts[0].as_str(), "all");
                }
            },
            _ => {},
        }
        i += 1;
    }
    false
}

/// Reports `UB_LATE_POSIX_MARKER`.
pub fn check_ub_late_posix_marker<'a>(metadata: &'a Metadata, gems: &[Gem]) -> (out: Vec<
    Warning<'a>,
>)
    ensures
        views(out@) == found(
            Quirk::LatePosixMarker,
            metadata@,
            crate::ast::gems(gems@),
        ),
{
    survey(Quirk::LatePosixMarker, metadata, gems)
}

/// Reports `UB_AMBIGUOUS_INCLUDE`.
pub fn check_ub_ambiguous_include<'a>(metadata: &'a Metadata, gems: &[Gem]) -> (out: Vec<
    Warning<'a>,
>)
    ensures
        views(out@) == found(
            Quirk::AmbiguousInclude,
            metadata@,
            crate::ast::gems(gems@),
        ),
{
    survey(Quirk::AmbiguousInclude, metadata, gems)
}

/// Reports `UB_MAKEFLAGS_ASSIGNMENT`.
pub fn check_ub_makeflags_assignment<'a>(metadata: &'a Metadata, gems: &[Gem]) -> (out: Vec<
    Warning<'a>,
>)
    ensures
        views(out@) == found(
            Quirk::MakeflagsAssignment,
            metadata@,
            crate::ast::gems(gems@),
        ),
{
    survey(Quirk::MakeflagsAssignment, metadata, gems)
}

/// Reports `UB_SHELL_MACRO`.
pub fn check_ub_shell_macro<'a>(metadata: &'a Metadata, gems: &[Gem]) -> (out: Vec<Warning<'a>>)
    ensures
        views(out@) == found(
            Quirk::ShellMacro,
            metadata@,
            crate::ast::gems(gems@),
        ),
{
    survey(Quirk::ShellMacro, metadata, gems)
}

/// Reports `STRICT_POSIX`.
pub fn check_strict_posix<'a>(metadata: &'a Metadata, gems: &[Gem]) -> (out: Vec<Warning<'a>>)
    ensures
        views(out@) == strict_posix(metadata@, crate::ast::gems(gems@)),
{
    let cond = !metadata.is_include_file && !is_declared(gems, ".POSIX");
    warn_if(cond, metadata, 1, STRICT_POSIX)
}

/// Reports `IMPLEMENTATTION_DEFINED_TARGET`.
pub fn check_implementation_defined_target<'a>(metadata: &'a Metadata, gems: &[Gem]) -> (out: Vec<
    Warning<'a>,
>)
    ensures
        views(out@) == found(
            Quirk::ImplementationDefinedTarget,
            metadata@,
            crate::ast::gems(gems@),
        ),
{
    survey(Quirk::ImplementationDefinedTarget, metadata, gems)
}

/// Reports `MAKEFILE_PRECEDENCE`.
pub fn check_makefile_precedence<'a>(metadata: &'a Metadata, gems: &[Gem]) -> (out: Vec<
    Warning<'a>,
>)
    ensures
        views(out@) == makefile_precedence(metadata@),
{
    let cond = same(metadata.filename.as_str(), "Makefile");
    warn_if(cond, metadata, 0, MAKEFILE_PRECEDENCE)
}

/// Reports `CURDIR_ASSIGNMENT_NOP`.
pub fn check_curdir_assignment_nop<'a>(metadata: &'a Metadata, gems: &[Gem]) -> (out: Vec<
    Warning<'a>,
>)
    ensures
        views(out@) == found(
            Quirk::CurdirAssignmentNop,
            metadata@,
            crate::ast::gems(gems@),
        ),
{
    survey(Quirk::CurdirAssignmentNop, metadata, gems)
}

/// Reports `WD_NOP`.
pub fn check_wd_nop<'a>(metadata: &'a Metadata, gems: &[Gem]) -> (out: Vec<Warning<'a>>)
    ensures
        views(out@) == found(
            Quirk::WdNop,
            metadata@,
            crate::ast::gems(gems@),
        ),
{
    survey(Quirk::WdNop, metadata, gems)
}

/// Reports `WAIT_NOP`.
pub fn check_wait_nop<'a>(metadata: &'a Metadata, gems: &[Gem]) -> (out: Vec<Warning<'a>>)
    ensures
        views(out@) == found(
            Quirk::WaitNop,
            metadata@,
            crate::ast::gems(gems@),
        ),
{
    survey(Quirk::WaitNop, metadata, gems)
}

/// Reports `PHONY_NOP`.
pub fn check_phony_nop<'a>(metadata: &'a Metadata, gems: &[Gem]) -> (out: Vec<Warning<'a>>)
    ensures
        views(out@) == found(
            Quirk::PhonyNop,
            metadata@,
            crate::ast::gems(gems@),
        ),
{
    survey(Quirk::PhonyNop, metadata, gems)
}

/// Reports `REDUNDANT_NOTPARALLEL_WAIT`.
pub fn check_redundant_notparallel_wait<'a>(metadata: &'a Metadata, gems: &[Gem]) -> (out: Vec<
    Warning<'a>,
>)
    ensures
        views(out@) == found(
            Quirk::RedundantNotparallelWait,
            metadata@,
            crate::ast::gems(gems@),
        ),
{
    survey(Quirk::RedundantNotparallelWait, metadata, gems)
}

/// Reports `REDUNDANT_SILENT_AT`.
pub fn check_redundant_silent_at<'a>(metadata: &'a Metadata, gems: &[Gem]) -> (out: Vec<
    Warning<'a>,
>)
    ensures
        views(out@) == found(
            Quirk::RedundantSilentAt,
            metadata@,
            crate::ast::gems(gems@),
        ),
{
    survey(Quirk::RedundantSilentAt, metadata, gems)
}

/// Reports `REDUNDANT_IGNORE_MINUS`.
pub fn check_redundant_ignore_minus<'a>(metadata: &'a Metadata, gems: &[Gem]) -> (out: Vec<
    Warning<'a>,
>)
    ensures
        views(out@) == found(
            Quirk::RedundantIgnoreMinus,
            metadata@,
            crate::ast::gems(gems@),
        ),
{
    survey(Quirk::RedundantIgnoreMinus, metadata, gems)
}

/// Reports `GLOBAL_IGNORE`.
pub fn check_global_ignore<'a>(metadata: &'a Metadata, gems: &[Gem]) -> (out: Vec<Warning<'a>>)
    ensures
        views(out@) == found(
            Quirk::GlobalIgnore,
            metadata@,
            crate::ast::gems(gems@),
        ),
{
    survey(Quirk::GlobalIgnore, metadata, gems)
}

/// Reports `SIMPLIFY_AT`.
pub fn check_simplify_at<'a>(metadata: &'a Metadata, gems: &[Gem]) -> (out: Vec<Warning<'a>>)
    ensures
        views(out@) == found(
            Quirk::SimplifyAt,
            metadata@,
            crate::ast::gems(gems@),
        ),
{
    survey(Quirk::SimplifyAt, metadata, gems)
}

/// Reports `SIMPLIFY_MINUS`.
pub fn check_simplify_minus<'a>(metadata: &'a Metadata, gems: &[Gem]) -> (out: Vec<Warning<'a>>)
    ensures
        views(out@) == found(
            Quirk::SimplifyMinus,
            metadata@,
            crate::ast::gems(gems@),
        ),
{
    survey(Quirk::SimplifyMinus, metadata, gems)
}

/// Reports `COMMAND_COMMENT`.
pub fn check_command_comment<'a>(metadata: &'a Metadata, gems: &[Gem]) -> (out: Vec<Warning<'a>>)
    ensures
        views(out@) == found(
            Quirk::CommandComment,
            metadata@,
            crate::ast::gems(gems@),
        ),
{
    survey(Quirk::CommandComment, metadata, gems)
}

/// Reports `PHONY_TARGET`.
pub fn check_phony_target<'a>(metadata: &'a Metadata, gems: &[Gem]) -> (out: Vec<Warning<'a>>)
    ensures
        views(out@) == found(
            Quirk::PhonyTarget,
            metadata@,
            crate::ast::gems(gems@),
        ),
{
    survey(Quirk::PhonyTarget, metadata, gems)
}

/// Reports `REPEATED_COMMAND_PREFIX`.
pub fn check_repeated_command_prefix<'a>(metadata: &'a Metadata, gems: &[Gem]) -> (out: Vec<
    Warning<'a>,
>)
    ensures
        views(out@) == found(
            Quirk::RepeatedCommandPrefix,
            metadata@,
            crate::ast::gems(gems@),
        ),
{
    survey(Quirk::RepeatedCommandPrefix, metadata, gems)
}

/// Reports `BLANK_COMMAND`.
pub fn check_blank_command<'a>(metadata: &'a Metadata, gems: &[Gem]) -> (out: Vec<Warning<'a>>)
    ensures
        views(out@) == found(
            Quirk::BlankCommand,
            metadata@,
            crate::ast::gems(gems@),
        ),
{
    survey(Quirk::BlankCommand, metadata, gems)
}

/// Reports `WHITESPACE_LEADING_COMMAND`.
pub fn check_whitespace_leading_command<'a>(metadata: &'a Metadata, gems: &[Gem]) -> (out: Vec<
    Warning<'a>,
>)
    ensures
        views(out@) == found(
            Quirk::WhitespaceLeadingCommand,
            metadata@,
            crate::ast::gems(gems@),
        ),
{
    survey(Quirk::WhitespaceLeadingCommand, metadata, gems)
}

/// Reports `NO_RULES`.
pub fn check_no_rules<'a>(metadata: &'a Metadata, gems: &[Gem]) -> (out: Vec<Warning<'a>>)
    ensures
        views(out@) == no_rules(metadata@, crate::ast::gems(gems@)),
{
    let cond = !metadata.is_include_file && !any_ordinary_rule(gems);
    warn_if(cond, metadata, 0, NO_RULES)
}

/// Reports `RULE_ALL`.
pub fn check_rule_all<'a>(metadata: &'a Metadata, gems: &[Gem]) -> (out: Vec<Warning<'a>>)
    ensures
        views(out@) == rule_all(metadata@, crate::ast::gems(gems@)),
{
    let cond = !metadata.is_include_file && default_is_not_all(gems);
    warn_if(cond, metadata, 0, RULE_ALL)
}

/// Reports `MISSING_FINAL_EOL`.
pub fn check_final_eol<'a>(metadata: &'a Metadata, gems: &[Gem]) -> (out: Vec<Warning<'a>>)
    ensures
        views(out@) == final_eol(metadata@),
{
    let cond = !metadata.is_empty && !metadata.has_final_eol;
    warn_if(cond, metadata, metadata.lines, MISSING_FINAL_EOL)
}

/// Moves the warnings `more` to the end of `out`.
pub fn add_warnings<'a>(out: &mut Vec<Warning<'a>>, more: Vec<Warning<'a>>)
    ensures
        views(final(out)@) == views(old(out)@) + views(more@),
{
    let mut rest = more;
    out.append(&mut rest);
    proof {
        assert(views(out@) =~= views(old(out)@) + views(more@));
    }
}

/// The warnings of all checks on the directives `gems`, check after check.
pub fn check_all<'a>(metadata: &'a Metadata, gems: &[Gem]) -> (out: Vec<Warning<'a>>)
    ensures
        views(out@) == all_warnings(metadata@, crate::ast::gems(gems@)),
{
    let mut out: Vec<Warning<'a>> = check_ub_late_posix_marker(metadata, gems);
    add_warnings(&mut out, check_ub_ambiguous_include(metadata, gems));
    add_warnings(&mut out, check_ub_makeflags_assignment(metadata, gems));
    add_warnings(&mut out, check_ub_shell_macro(metadata, gems));
    add_warnings(&mut out, check_strict_posix(metadata, gems));
    add_warnings(&mut out, check_implementation_defined_target(metadata, gems));
    add_warnings(&mut out, check_makefile_precedence(metadata, gems));
    add_warnings(&mut out, check_curdir_assignment_nop(metadata, gems));
    add_warnings(&mut out, check_wd_nop(metadata, gems));
    add_warnings(&mut out, check_wait_nop(metadata, gems));
    add_warnings(&mut out, check_phony_nop(metadata, gems));
    add_warnings(&mut out, check_redundant_notparallel_wait(metadata, gems));
    add_warnings(&mut out, check_redundant_silent_at(metadata, gems));
    add_warnings(&mut out, check_redundant_ignore_minus(metadata, gems));
    add_warnings(&mut out, check_global_ignore(metadata, gems));
    add_warnings(&mut out, check_simplify_at(metadata, gems));
    add_warnings(&mut out, check_simplify_minus(metadata, gems));
    add_warnings(&mut out, check_command_comment(metadata, gems));
    add_warnings(&mut out, check_phony_target(metadata, gems));
    add_warnings(&mut out, check_repeated_command_prefix(metadata, gems));
    add_warnings(&mut out, check_blank_command(metadata, gems));
    add_warnings(&mut out, check_whitespace_leading_command(metadata, gems));
    add_warnings(&mut out, check_no_rules(metadata, gems));
    add_warnings(&mut out, check_rule_all(metadata, gems));
    add_warnings(&mut out, check_final_eol(metadata, gems));
    out
}

/// The warnings on the makefile `makefile`, of which `metadata` is known.
///
/// Yields the warnings of all checks, check after check, or else one line of
/// text that reports why the makefile does not parse.
pub fn lint<'a>(metadata: &'a Metadata, makefile: &str) -> (r: Result<Vec<Warning<'a>>, String>)
    ensures
        match r {
            Ok(ws) => outcome(makefile@) is Ok && views(ws@) == all_warnings(
                metadata@,
                outcome(makefile@)->Ok_0,
            ),
            Err(text) => outcome(makefile@) is Err && text@ == message(
                metadata.path@,
                outcome(makefile@)->Err_0,
            ),
        },
{
    match parse_posix(metadata.path.as_str(), makefile) {
        Ok(mk) => Ok(check_all(metadata, mk.ns.as_slice())),
        Err(text) => Err(text),
    }
}

} // verus!
