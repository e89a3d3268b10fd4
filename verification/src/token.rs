//! The names a failed parse can report, and the record of how far a parse got.

use vstd::prelude::*;

verus! {

/// A kind of input the grammar was looking for when it could not go on.
///
/// The variants are declared in the order in which their names sort, so that
/// walking them in declaration order lists the names sorted.
#[derive(Clone, Copy, Debug, PartialEq, Eq, Structural)]
pub enum Token {
    Colon,
    Backslash,
    Tab,
    Eof,
    Lf,
    AssignmentOperator,
    CStyleEscape,
    Command,
    Comment,
    EscapedLf,
    IncludeOpening,
    IncludeValueLiteral,
    InlineCommand,
    MacroExpansion,
    MacroNameLiteral,
    MacroValueLiteral,
    Target,
    WaitPrerequisiteMarker,
    Whitespace,
}

/// A set of tokens, one flag for each.
#[derive(Clone, Copy, Debug, PartialEq, Eq, Structural)]
pub struct TokenSet {
    pub colon: bool,
    pub backslash: bool,
    pub tab: bool,
    pub eof: bool,
    pub lf: bool,
    pub assignment_operator: bool,
    pub c_style_escape: bool,
    pub command: bool,
    pub comment: bool,
    pub escaped_lf: bool,
    pub include_opening: bool,
    pub include_value_literal: bool,
    pub inline_command: bool,
    pub macro_expansion: bool,
    pub macro_name_literal: bool,
    pub macro_value_literal: bool,
    pub target: bool,
    pub wait_prerequisite_marker: bool,
    pub whitespace: bool,
}

impl TokenSet {
    /// Whether `t` is in the set.
    pub open spec fn has(self, t: Token) -> bool {
        match t {
            Token::Colon => self.colon,
            Token::Backslash => self.backslash,
            Token::Tab => self.tab,
            Token::Eof => self.eof,
            Token::Lf => self.lf,
            Token::AssignmentOperator => self.assignment_operator,
            Token::CStyleEscape => self.c_style_escape,
            Token::Command => self.command,
            Token::Comment => self.comment,
            Token::EscapedLf => self.escaped_lf,
            Token::IncludeOpening => self.include_opening,
            Token::IncludeValueLiteral => self.include_value_literal,
            Token::InlineCommand => self.inline_command,
            Token::MacroExpansion => self.macro_expansion,
            Token::MacroNameLiteral => self.macro_name_literal,
            Token::MacroValueLiteral => self.macro_value_literal,
            Token::Target => self.target,
            Token::WaitPrerequisiteMarker => self.wait_prerequisite_marker,
            Token::Whitespace => self.whitespace,
        }
    }

    /// The empty set.
    pub open spec fn none() -> TokenSet {
        TokenSet {
            colon: false,
            backslash: false,
            tab: false,
            eof: false,
            lf: false,
            assignment_operator: false,
            c_style_escape: false,
            command: false,
            comment: false,
            escaped_lf: false,
            include_opening: false,
            include_value_literal: false,
            inline_command: false,
            macro_expansion: false,
            macro_name_literal: false,
            macro_value_literal: false,
            target: false,
            wait_prerequisite_marker: false,
            whitespace: false,
        }
    }

    /// The set `{t}`.
    pub open spec fn only(t: Token) -> TokenSet {
        TokenSet {
            colon: t == Token::Colon,
            backslash: t == Token::Backslash,
            tab: t == Token::Tab,
            eof: t == Token::Eof,
            lf: t == Token::Lf,
            assignment_operator: t == Token::AssignmentOperator,
            c_style_escape: t == Token::CStyleEscape,
            command: t == Token::Command,
            comment: t == Token::Comment,
            escaped_lf: t == Token::EscapedLf,
            include_opening: t == Token::IncludeOpening,
            include_value_literal: t == Token::IncludeValueLiteral,
            inline_command: t == Token::InlineCommand,
            macro_expansion: t == Token::MacroExpansion,
            macro_name_literal: t == Token::MacroNameLiteral,
            macro_value_literal: t == Token::MacroValueLiteral,
            target: t == Token::Target,
            wait_prerequisite_marker: t == Token::WaitPrerequisiteMarker,
            whitespace: t == Token::Whitespace,
        }
    }

    /// The set of the tokens in either.
    pub open spec fn or(self, other: TokenSet) -> TokenSet {
        TokenSet {
            colon: self.colon || other.colon,
            backslash: self.backslash || other.backslash,
            tab: self.tab || other.tab,
            eof: self.eof || other.eof,
            lf: self.lf || other.lf,
            assignment_operator: self.assignment_operator || other.assignment_operator,
            c_style_escape: self.c_style_escape || other.c_style_escape,
            command: self.command || other.command,
            comment: self.comment || other.comment,
            escaped_lf: self.escaped_lf || other.escaped_lf,
            include_opening: self.include_opening || other.include_opening,
            include_value_literal: self.include_value_literal || other.include_value_literal,
            inline_command: self.inline_command || other.inline_command,
            macro_expansion: self.macro_expansion || other.macro_expansion,
            macro_name_literal: self.macro_name_literal || other.macro_name_literal,
            macro_value_literal: self.macro_value_literal || other.macro_value_literal,
            target: self.target || other.target,
            wait_prerequisite_marker: self.wait_prerequisite_marker
                || other.wait_prerequisite_marker,
            whitespace: self.whitespace || other.whitespace,
        }
    }

    /// The empty set.
    pub fn empty() -> (out: TokenSet)
        ensures
            out == TokenSet::none(),
    {
        TokenSet {
            colon: false,
            backslash: false,
            tab: false,
            eof: false,
            lf: false,
            assignment_operator: false,
            c_style_escape: false,
            command: false,
            comment: false,
            escaped_lf: false,
            include_opening: false,
            include_value_literal: false,
            inline_command: false,
            macro_expansion: false,
            macro_name_literal: false,
            macro_value_literal: false,
            target: false,
            wait_prerequisite_marker: false,
            whitespace: false,
        }
    }

    /// Whether `t` is in the set.
    pub fn contains(&self, t: Token) -> (out: bool)
        ensures
            out == self.has(t),
    {
        match t {
            Token::Colon => self.colon,
            Token::Backslash => self.backslash,
            Token::Tab => self.tab,
            Token::Eof => self.eof,
            Token::Lf => self.lf,
            Token::AssignmentOperator => self.assignment_operator,
            Token::CStyleEscape => self.c_style_escape,
            Token::Command => self.command,
            Token::Comment => self.comment,
            Token::EscapedLf => self.escaped_lf,
            Token::IncludeOpening => self.include_opening,
            Token::IncludeValueLiteral => self.include_value_literal,
            Token::InlineCommand => self.inline_command,
            Token::MacroExpansion => self.macro_expansion,
            Token::MacroNameLiteral => self.macro_name_literal,
            Token::MacroValueLiteral => self.macro_value_literal,
            Token::Target => self.target,
            Token::WaitPrerequisiteMarker => self.wait_prerequisite_marker,
            Token::Whitespace => self.whitespace,
        }
    }

    /// The set `{t}`.
    pub fn single(t: Token) -> (out: TokenSet)
        ensures
            out == TokenSet::only(t),
    {
        TokenSet {
            colon: matches!(t, Token::Colon),
            backslash: matches!(t, Token::Backslash),
            tab: matches!(t, Token::Tab),
            eof: matches!(t, Token::Eof),
            lf: matches!(t, Token::Lf),
            assignment_operator: matches!(t, Token::AssignmentOperator),
            c_style_escape: matches!(t, Token::CStyleEscape),
            command: matches!(t, Token::Command),
            comment: matches!(t, Token::Comment),
            escaped_lf: matches!(t, Token::EscapedLf),
            include_opening: matches!(t, Token::IncludeOpening),
            include_value_literal: matches!(t, Token::IncludeValueLiteral),
            inline_command: matches!(t, Token::InlineCommand),
            macro_expansion: matches!(t, Token::MacroExpansion),
            macro_name_literal: matches!(t, Token::MacroNameLiteral),
            macro_value_literal: matches!(t, Token::MacroValueLiteral),
            target: matches!(t, Token::Target),
            wait_prerequisite_marker: matches!(t, Token::WaitPrerequisiteMarker),
            whitespace: matches!(t, Token::Whitespace),
        }
    }

    /// The union of the two sets.
    pub fn union(self, other: TokenSet) -> (out: TokenSet)
        ensures
            out == self.or(other),
    {
        TokenSet {
            colon: self.colon || other.colon,
            backslash: self.backslash || other.backslash,
            tab: self.tab || other.tab,
            eof: self.eof || other.eof,
            lf: self.lf || other.lf,
            assignment_operator: self.assignment_operator || other.assignment_operator,
            c_style_escape: self.c_style_escape || other.c_style_escape,
            command: self.command || other.command,
            comment: self.comment || other.comment,
            escaped_lf: self.escaped_lf || other.escaped_lf,
            include_opening: self.include_opening || other.include_opening,
            include_value_literal: self.include_value_literal || other.include_value_literal,
            inline_command: self.inline_command || other.inline_command,
            macro_expansion: self.macro_expansion || other.macro_expansion,
            macro_name_literal: self.macro_name_literal || other.macro_name_literal,
            macro_value_literal: self.macro_value_literal || other.macro_value_literal,
            target: self.target || other.target,
            wait_prerequisite_marker: self.wait_prerequisite_marker
                || other.wait_prerequisite_marker,
            whitespace: self.whitespace || other.whitespace,
        }
    }
}

/// How far a parse got before it had to give up, and what it was looking for
/// there: the furthest position at which some piece of the grammar did not
/// match, and the tokens that were tried at that position.
pub struct Fail {
    pub far: int,
    pub toks: TokenSet,
}

impl Fail {
    /// Nothing failed.
    pub open spec fn none() -> Fail {
        Fail { far: 0, toks: TokenSet::none() }
    }

    /// Token `t` did not match at position `p`.
    pub open spec fn at(p: int, t: Token) -> Fail {
        Fail { far: p, toks: TokenSet::only(t) }
    }

    /// This record with the failure of `t` at `p` added.
    pub open spec fn and(self, p: int, t: Token) -> Fail {
        self.join(Fail::at(p, t))
    }

    /// Both records together: the further position wins, and at equal
    /// positions the tokens are united.
    #[verifier::opaque]
    pub open spec fn join(self, other: Fail) -> Fail {
        if self.far > other.far {
            self
        } else if other.far > self.far {
            other
        } else {
            Fail { far: self.far, toks: self.toks.or(other.toks) }
        }
    }
}

/// The executable form of [`Fail`].
#[derive(Clone, Copy, Debug, PartialEq, Eq)]
pub struct Marks {
    pub far: usize,
    pub toks: TokenSet,
}

impl View for Marks {
    type V = Fail;

    open spec fn view(&self) -> Fail {
        Fail { far: self.far as int, toks: self.toks }
    }
}

impl Marks {
    /// Nothing failed.
    pub fn new() -> (out: Marks)
        ensures
            out@ == Fail::none(),
    {
        Marks { far: 0, toks: TokenSet::empty() }
    }

    /// Token `t` did not match at position `p`.
    pub fn at(p: usize, t: Token) -> (out: Marks)
        ensures
            out@ == Fail::at(p as int, t),
    {
        Marks { far: p, toks: TokenSet::single(t) }
    }

    /// This record with the failure of `t` at `p` added.
    pub fn and(self, p: usize, t: Token) -> (out: Marks)
        ensures
            out@ == self@.and(p as int, t),
            out.far == self.far || out.far == p,
    {
        self.join(Marks::at(p, t))
    }

    /// Both records together.
    pub fn join(self, other: Marks) -> (out: Marks)
        ensures
            out@ == self@.join(other@),
            out.far == self.far || out.far == other.far,
    {
        proof {
            reveal(Fail::join);
        }
        if self.far > other.far {
            self
        } else if other.far > self.far {
            other
        } else {
            Marks { far: self.far, toks: self.toks.union(other.toks) }
        }
    }
}

} // verus!
