//! What can be said of a file before it is parsed: whether it looks like a
//! makefile, which build system it belongs to, and a few facts on its text.

use vstd::prelude::*;
use crate::locate::{newlines, Places};
use crate::pattern::{is_match, regex_match};
use crate::text::{chars_of, lowercase, same};

verus! {

/// The build system of a plain POSIX makefile.
pub const DEFAULT_BUILD_SYSTEM: &'static str = "make";

/// The regular expression that the names of makefiles meant for inclusion
/// match: `sys.mk`, and what ends in `.include.mk`.
pub const INCLUDE_FILENAME_PATTERN: &'static str = "^(sys\\.mk|(.*\\.include\\.mk))$";

/// What is known of a file path as a candidate POSIX makefile.
///
/// Fields keep their first values where the file turns out not to be one.
#[derive(Debug, PartialEq)]
pub struct Metadata {
    /// The file path.
    pub path: String,
    /// The last component of the path.
    pub filename: String,
    /// Whether the file appears to be a makefile.
    pub is_makefile: bool,
    /// The build system: "make", "bmake", "gmake", "autotools", "cmake",
    /// "perl" and the like.
    pub build_system: String,
    /// Whether the file was likely written by another build system.
    pub is_machine_generated: bool,
    /// Whether the makefile is meant to be included by others.
    pub is_include_file: bool,
    /// Whether the file holds no data.
    pub is_empty: bool,
    /// The number of lines of the file.
    pub lines: usize,
    /// Whether the file ends with a line feed.
    pub has_final_eol: bool,
}

/// The mathematical value of a [`Metadata`].
pub struct MetadataView {
    pub path: Seq<char>,
    pub filename: Seq<char>,
    pub is_makefile: bool,
    pub build_system: Seq<char>,
    pub is_machine_generated: bool,
    pub is_include_file: bool,
    pub is_empty: bool,
    pub lines: nat,
    pub has_final_eol: bool,
}

impl View for Metadata {
    type V = MetadataView;

    open spec fn view(&self) -> MetadataView {
        MetadataView {
            path: self.path@,
            filename: self.filename@,
            is_makefile: self.is_makefile,
            build_system: self.build_system@,
            is_machine_generated: self.is_machine_generated,
            is_include_file: self.is_include_file,
            is_empty: self.is_empty,
            lines: self.lines as nat,
            has_final_eol: self.has_final_eol,
        }
    }
}

/// What is known of a file before anything was found out.
pub open spec fn blank() -> MetadataView {
    MetadataView {
        path: Seq::empty(),
        filename: Seq::empty(),
        is_makefile: false,
        build_system: Seq::empty(),
        is_machine_generated: false,
        is_include_file: false,
        is_empty: true,
        lines: 0,
        has_final_eol: false,
    }
}

/// The make implementation that a file name in lower case stands for.
pub open spec fn implementation_of_name(lower: Seq<char>) -> Option<Seq<char>> {
    if lower == "bsdmakefile"@ {
        Some("bmake"@)
    } else if lower == "gnumakefile"@ {
        Some("gmake"@)
    } else if lower == "makefile"@ {
        Some("make"@)
    } else {
        None
    }
}

/// The make implementation that a file extension in lower case stands for.
pub open spec fn implementation_of_extension(lower: Seq<char>) -> Option<Seq<char>> {
    if lower == "mk"@ {
        Some("make"@)
    } else {
        implementation_of_name(lower)
    }
}

/// The build system that writes makefiles where a file of this name, in
/// lower case, lies beside them.
pub open spec fn parent_build_system(lower: Seq<char>) -> Option<Seq<char>> {
    if lower == "cmakelists.txt"@ {
        Some("cmake"@)
    } else if lower == "configure"@ {
        Some("autotools"@)
    } else if lower == ".gyp"@ {
        Some("gyp"@)
    } else if lower == "makefile.pl"@ {
        Some("perl"@)
    } else {
        None
    }
}

/// What the path, the file name and the extension of a file tell: a makefile
/// is known by its extension or by its name, and the name decides where the
/// two disagree.
pub open spec fn identified(path: Seq<char>, filename: Seq<char>, extension: Seq<char>)
    -> MetadataView {
    let by_extension = implementation_of_extension(lowercase(extension));
    let by_name = implementation_of_name(lowercase(filename));
    MetadataView {
        path,
        filename,
        is_makefile: by_extension is Some || by_name is Some,
        build_system: if by_name is Some {
            by_name->0
        } else if by_extension is Some {
            by_extension->0
        } else {
            Seq::empty()
        },
        ..blank()
    }
}

/// The number of lines of a text that is not empty: one more than it has
/// line feeds.
pub open spec fn line_count(content: Seq<char>) -> nat {
    1 + newlines(content)
}

/// What the text of the file adds to what is known of it.
pub open spec fn measured(md: MetadataView, content: Seq<char>) -> MetadataView {
    MetadataView {
        is_include_file: regex_match(INCLUDE_FILENAME_PATTERN@, md.filename) == Some(true),
        is_empty: content.len() == 0,
        lines: if content.len() == 0 {
            md.lines
        } else {
            line_count(content)
        },
        has_final_eol: if content.len() == 0 {
            md.has_final_eol
        } else {
            content.last() == '\n'
        },
        ..md
    }
}

/// The make implementation that a file name in lower case stands for.
pub fn name_implementation(lower: &str) -> (r: Option<&'static str>)
    ensures
        match r {
            Some(b) => implementation_of_name(lower@) == Some(b@),
            None => implementation_of_name(lower@) is None,
        },
{
    if same(lower, "bsdmakefile") {
        Some("bmake")
    } else if same(lower, "gnumakefile") {
        Some("gmake")
    } else if same(lower, "makefile") {
        Some("make")
    } else {
        None
    }
}

/// The make implementation that a file extension in lower case stands for.
pub fn extension_implementation(lower: &str) -> (r: Option<&'static str>)
    ensures
        match r {
            Some(b) => implementation_of_extension(lower@) == Some(b@),
            None => implementation_of_extension(lower@) is None,
        },
{
    if same(lower, "mk") {
        Some("make")
    } else {
        name_implementation(lower)
    }
}

/// The build system that writes makefiles where a file of this name, in
/// lower case, lies beside them.
pub fn parent_of(lower: &str) -> (r: Option<&'static str>)
    ensures
        match r {
            Some(b) => parent_build_system(lower@) == Some(b@),
            None => parent_build_system(lower@) is None,
        },
{
    if same(lower, "cmakelists.txt") {
        Some("cmake")
    } else if same(lower, "configure") {
        Some("autotools")
    } else if same(lower, ".gyp") {
        Some("gyp")
    } else if same(lower, "makefile.pl") {
        Some("perl")
    } else {
        None
    }
}

impl Metadata {
    /// What is known of a file before anything was found out.
    pub fn new() -> (md: Metadata)
        ensures
            md@ == blank(),
    {
        Metadata {
            path: String::new(),
            filename: String::new(),
            is_makefile: false,
            build_system: String::new(),
            is_machine_generated: false,
            is_include_file: false,
            is_empty: true,
            lines: 0,
            has_final_eol: false,
        }
    }

    /// What the path of a file, its last component and its extension tell.
    pub fn identify(path: &str, filename: &str, extension: &str) -> (md: Metadata)
        ensures
            md@ == identified(path@, filename@, extension@),
    {
        let mut md = Metadata::new();
        md.path = path.to_owned();
        md.filename = filename.to_owned();
        let filename_lower = filename.to_lowercase();
        let extension_lower = extension.to_lowercase();
        match extension_implementation(extension_lower.as_str()) {
            Some(b) => {
                md.is_makefile = true;
                md.build_system = b.to_owned();
            },
            None => {},
        }
        match name_implementation(filename_lower.as_str()) {
            Some(b) => {
                md.is_makefile = true;
                md.build_system = b.to_owned();
            },
            None => {},
        }
        md
    }

    /// Whether the file is a plain makefile as far as its name tells, so that
    /// the files around it and its text are worth a look.
    pub fn is_plain_makefile(&self) -> (r: bool)
        ensures
            r == (self.is_makefile && self.build_system@ == DEFAULT_BUILD_SYSTEM@),
    {
        self.is_makefile && same(self.build_system.as_str(), DEFAULT_BUILD_SYSTEM)
    }

    /// Takes note of a file that lies in the makefile's directory or in the
    /// one above: where its name is that of another build system's file, the
    /// makefile counts as written by that build system. Says whether it does.
    pub fn adopt(&mut self, entry: &str) -> (found: bool)
        ensures
            found == parent_build_system(lowercase(entry@)) is Some,
            found ==> final(self)@ == (MetadataView {
                is_machine_generated: true,
                build_system: parent_build_system(lowercase(entry@))->0,
                ..old(self)@
            }),
            !found ==> final(self)@ == old(self)@,
    {
        let lower = entry.to_lowercase();
        match parent_of(lower.as_str()) {
            Some(b) => {
                self.is_machine_generated = true;
                self.build_system = b.to_owned();
                true
            },
            None => false,
        }
    }

    /// Takes note of the text of the file: whether its name is that of an
    /// include file, whether it is empty, and, where it is not, the number
    /// of its lines and whether it ends with a line feed.
    pub fn measure(&mut self, content: &str)
        ensures
            final(self)@ == measured(old(self)@, content@),
    {
        self.is_include_file = match is_match(INCLUDE_FILENAME_PATTERN, self.filename.as_str()) {
            Some(b) => b,
            None => false,
        };
        let src = chars_of(content);
        self.is_empty = src.len() == 0;
        if src.len() > 0 {
            let places = Places::new(&src, content.as_bytes().len());
            proof {
                assert(src@.take(src.len() as int) =~= src@);
            }
            self.lines = places.counts[src.len()] + 1;
            self.has_final_eol = src[src.len() - 1] == '\n';
        }
    }
}

impl Default for Metadata {
    /// What is known of a file before anything was found out.
    fn default() -> (md: Metadata)
        ensures
            md@ == blank(),
    {
        Metadata::new()
    }
}

} // verus!
