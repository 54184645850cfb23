//! What the editor keeps for syntax highlighting: which syntax goes with
//! which file type, and the highlighted lines it has already worked out.

use vstd::prelude::*;
use crate::text::str_eq;

verus! {

/// The name under which the syntax definitions know the syntax of a file
/// type, where it is known to differ or to be the same; `None` for a file
/// type without an entry, whose own name is then tried.
pub open spec fn syntax_name(filetype: Seq<char>) -> Option<Seq<char>> {
    if filetype == "Rust"@ {
        Some("Rust"@)
    } else if filetype == "Python"@ {
        Some("Python"@)
    } else if filetype == "JavaScript"@ {
        Some("JavaScript"@)
    } else if filetype == "JavaScript (React)"@ {
        Some("JavaScript (JSX)"@)
    } else if filetype == "TypeScript"@ {
        Some("TypeScript"@)
    } else if filetype == "TypeScript (React)"@ {
        Some("TypeScriptReact"@)
    } else if filetype == "C"@ {
        Some("C"@)
    } else if filetype == "C++"@ {
        Some("C++"@)
    } else if filetype == "Java"@ {
        Some("Java"@)
    } else if filetype == "Go"@ {
        Some("Go"@)
    } else if filetype == "Ruby"@ {
        Some("Ruby"@)
    } else if filetype == "PHP"@ {
        Some("PHP"@)
    } else if filetype == "Swift"@ {
        Some("Swift"@)
    } else if filetype == "Kotlin"@ {
        Some("Kotlin"@)
    } else if filetype == "Scala"@ {
        Some("Scala"@)
    } else if filetype == "C#"@ {
        Some("C#"@)
    } else if filetype == "F#"@ {
        Some("F#"@)
    } else if filetype == "Haskell"@ {
        Some("Haskell"@)
    } else if filetype == "OCaml"@ {
        Some("OCaml"@)
    } else if filetype == "Elixir"@ {
        Some("Elixir"@)
    } else if filetype == "Erlang"@ {
        Some("Erlang"@)
    } else if filetype == "Clojure"@ {
        Some("Clojure"@)
    } else if filetype == "Lua"@ {
        Some("Lua"@)
    } else if filetype == "Perl"@ {
        Some("Perl"@)
    } else if filetype == "R"@ {
        Some("R"@)
    } else if filetype == "Shell"@ {
        Some("Bourne Again Shell (bash)"@)
    } else if filetype == "PowerShell"@ {
        Some("PowerShell"@)
    } else if filetype == "SQL"@ {
        Some("SQL"@)
    } else if filetype == "HTML"@ {
        Some("HTML"@)
    } else if filetype == "CSS"@ {
        Some("CSS"@)
    } else if filetype == "SCSS"@ {
        Some("SCSS"@)
    } else if filetype == "Less"@ {
        Some("Less"@)
    } else if filetype == "JSON"@ {
        Some("JSON"@)
    } else if filetype == "YAML"@ {
        Some("YAML"@)
    } else if filetype == "TOML"@ {
        Some("TOML"@)
    } else if filetype == "XML"@ {
        Some("XML"@)
    } else if filetype == "Markdown"@ {
        Some("Markdown"@)
    } else if filetype == "reStructuredText"@ {
        Some("reStructuredText"@)
    } else if filetype == "LaTeX"@ {
        Some("LaTeX"@)
    } else if filetype == "Makefile"@ {
        Some("Makefile"@)
    } else {
        None
    }
}

/// The text of an optional string slice.
pub open spec fn name_text(name: Option<&'static str>) -> Option<Seq<char>> {
    match name {
        Some(n) => Some(n@),
        None => None,
    }
}

/// The name of the syntax that goes with a file type.
pub fn syntax_name_for_filetype(filetype: &str) -> (name: Option<&'static str>)
    ensures
        name_text(name) == syntax_name(filetype@),
{
    if str_eq(filetype, "Rust") {
        Some("Rust")
    } else if str_eq(filetype, "Python") {
        Some("Python")
    } else if str_eq(filetype, "JavaScript") {
        Some("JavaScript")
    } else if str_eq(filetype, "JavaScript (React)") {
        Some("JavaScript (JSX)")
    } else if str_eq(filetype, "TypeScript") {
        Some("TypeScript")
    } else if str_eq(filetype, "TypeScript (React)") {
        Some("TypeScriptReact")
    } else if str_eq(filetype, "C") {
        Some("C")
    } else if str_eq(filetype, "C++") {
        Some("C++")
    } else if str_eq(filetype, "Java") {
        Some("Java")
    } else if str_eq(filetype, "Go") {
        Some("Go")
    } else if str_eq(filetype, "Ruby") {
        Some("Ruby")
    } else if str_eq(filetype, "PHP") {
        Some("PHP")
    } else if str_eq(filetype, "Swift") {
        Some("Swift")
    } else if str_eq(filetype, "Kotlin") {
        Some("Kotlin")
    } else if str_eq(filetype, "Scala") {
        Some("Scala")
    } else if str_eq(filetype, "C#") {
        Some("C#")
    } else if str_eq(filetype, "F#") {
        Some("F#")
    } else if str_eq(filetype, "Haskell") {
        Some("Haskell")
    } else if str_eq(filetype, "OCaml") {
        Some("OCaml")
    } else if str_eq(filetype, "Elixir") {
        Some("Elixir")
    } else if str_eq(filetype, "Erlang") {
        Some("Erlang")
    } else if str_eq(filetype, "Clojure") {
        Some("Clojure")
    } else if str_eq(filetype, "Lua") {
        Some("Lua")
    } else if str_eq(filetype, "Perl") {
        Some("Perl")
    } else if str_eq(filetype, "R") {
        Some("R")
    } else if str_eq(filetype, "Shell") {
        Some("Bourne Again Shell (bash)")
    } else if str_eq(filetype, "PowerShell") {
        Some("PowerShell")
    } else if str_eq(filetype, "SQL") {
        Some("SQL")
    } else if str_eq(filetype, "HTML") {
        Some("HTML")
    } else if str_eq(filetype, "CSS") {
        Some("CSS")
    } else if str_eq(filetype, "SCSS") {
        Some("SCSS")
    } else if str_eq(filetype, "Less") {
        Some("Less")
    } else if str_eq(filetype, "JSON") {
        Some("JSON")
    } else if str_eq(filetype, "YAML") {
        Some("YAML")
    } else if str_eq(filetype, "TOML") {
        Some("TOML")
    } else if str_eq(filetype, "XML") {
        Some("XML")
    } else if str_eq(filetype, "Markdown") {
        Some("Markdown")
    } else if str_eq(filetype, "reStructuredText") {
        Some("reStructuredText")
    } else if str_eq(filetype, "LaTeX") {
        Some("LaTeX")
    } else if str_eq(filetype, "Makefile") {
        Some("Makefile")
    } else {
        None
    }
}

/// A color by its red, green and blue parts.
#[derive(Debug, Clone, Copy, PartialEq, Eq, Structural)]
pub struct Rgb {
    pub r: u8,
    pub g: u8,
    pub b: u8,
}

/// Simplified highlight style
#[derive(Debug, Clone, Copy, PartialEq, Eq, Structural)]
pub struct HighlightStyle {
    pub fg: Option<Rgb>,
    pub bg: Option<Rgb>,
    pub bold: bool,
    pub italic: bool,
    pub underline: bool,
}

impl HighlightStyle {
    /// No colors and no emphasis.
    pub open spec fn plain() -> HighlightStyle {
        HighlightStyle { fg: None, bg: None, bold: false, italic: false, underline: false }
    }
}

impl Default for HighlightStyle {
    fn default() -> (style: HighlightStyle)
        ensures
            style == HighlightStyle::plain(),
    {
        HighlightStyle { fg: None, bg: None, bold: false, italic: false, underline: false }
    }
}

/// A styled span of text for rendering
#[derive(Debug, Clone)]
pub struct StyledSpan {
    pub text: String,
    pub style: HighlightStyle,
}

impl Default for StyledSpan {
    fn default() -> (span: StyledSpan)
        ensures
            span.text@.len() == 0,
            span.style == HighlightStyle::plain(),
    {
        StyledSpan { text: String::new(), style: HighlightStyle::default() }
    }
}

/// Per-line highlighting cache for a document
#[derive(Debug)]
pub struct LineHighlightCache {
    /// Cached highlighted spans per line
    pub lines: Vec<Option<Vec<StyledSpan>>>,
    /// Dirty flags per line (true = needs re-highlighting)
    pub dirty: Vec<bool>,
    /// The syntax being used (name, for invalidation)
    pub syntax_name: String,
    /// The theme being used (for invalidation)
    pub theme_name: String,
}

/// The flags of `dirty` with every line from `line` on marked.
pub open spec fn marked_from(dirty: Seq<bool>, line: int) -> Seq<bool> {
    Seq::new(dirty.len(), |i: int| i >= line || dirty[i])
}

/// `items` cut or filled with `fill` to the length `len`.
pub open spec fn resized<T>(items: Seq<T>, len: nat, fill: T) -> Seq<T> {
    Seq::new(
        len,
        |i: int|
            if i < items.len() {
                items[i]
            } else {
                fill
            },
    )
}

impl LineHighlightCache {
    /// There is one flag for every line.
    pub open spec fn wf(&self) -> bool {
        self.lines@.len() == self.dirty@.len()
    }

    /// The highlighted form of a line, if the cache holds one that is
    /// still good.
    pub open spec fn cached(&self, line: int) -> Option<Vec<StyledSpan>> {
        if 0 <= line < self.lines@.len() && line < self.dirty@.len() && !self.dirty@[line] {
            self.lines@[line]
        } else {
            None
        }
    }

    /// A cache for `line_count` lines, none of them highlighted yet.
    pub fn new(line_count: usize, syntax_name: &str, theme_name: &str) -> (cache: LineHighlightCache)
        ensures
            cache.wf(),
            cache.lines@.len() == line_count,
            forall|i: int| 0 <= i < line_count ==> (#[trigger] cache.lines@[i]).is_none(),
            forall|i: int| 0 <= i < line_count ==> #[trigger] cache.dirty@[i],
            cache.syntax_name@ == syntax_name@,
            cache.theme_name@ == theme_name@,
    {
        let mut lines: Vec<Option<Vec<StyledSpan>>> = Vec::new();
        let mut dirty: Vec<bool> = Vec::new();
        let mut i: usize = 0;
        while i < line_count
            invariant
                i <= line_count,
                lines@.len() == i,
                dirty@.len() == i,
                forall|k: int| 0 <= k < i ==> (#[trigger] lines@[k]).is_none(),
                forall|k: int| 0 <= k < i ==> #[trigger] dirty@[k],
            decreases line_count - i,
        {
            lines.push(None);
            dirty.push(true);
            i += 1;
        }
        LineHighlightCache {
            lines,
            dirty,
            syntax_name: syntax_name.to_string(),
            theme_name: theme_name.to_string(),
        }
    }

    /// Mark a line as dirty (needs re-highlighting), and with it every
    /// line below, whose highlighting can depend on it
    pub fn mark_dirty(&mut self, line: usize)
        ensures
            final(self).dirty@ == marked_from(old(self).dirty@, line as int),
            final(self).lines == old(self).lines,
            final(self).syntax_name == old(self).syntax_name,
            final(self).theme_name == old(self).theme_name,
    {
        let len = self.dirty.len();
        let mut i: usize = line;
        while i < len
            invariant
                len == self.dirty@.len(),
                len == old(self).dirty@.len(),
                line <= i,
                forall|k: int| 0 <= k < len && k < line ==> self.dirty@[k] == old(self).dirty@[k],
                forall|k: int| line <= k < i && k < len ==> self.dirty@[k],
                forall|k: int| i <= k < len ==> self.dirty@[k] == old(self).dirty@[k],
                self.lines == old(self).lines,
                self.syntax_name == old(self).syntax_name,
                self.theme_name == old(self).theme_name,
            decreases len - i,
        {
            self.dirty.set(i, true);
            i += 1;
        }
    }

    /// Mark all lines as dirty
    pub fn mark_all_dirty(&mut self)
        ensures
            final(self).dirty@ == marked_from(old(self).dirty@, 0),
            final(self).lines == old(self).lines,
            final(self).syntax_name == old(self).syntax_name,
            final(self).theme_name == old(self).theme_name,
    {
        self.mark_dirty(0);
    }

    /// Check if theme/syntax changed and invalidate if needed
    pub fn check_invalidation(&mut self, syntax_name: &str, theme_name: &str)
        ensures
            final(self).lines == old(self).lines,
            final(self).syntax_name@ == syntax_name@,
            final(self).theme_name@ == theme_name@,
            final(self).dirty@ == if old(self).syntax_name@ != syntax_name@ || old(self).theme_name@ != theme_name@ {
                marked_from(old(self).dirty@, 0)
            } else {
                old(self).dirty@
            },
    {
        if !str_eq(self.syntax_name.as_str(), syntax_name) || !str_eq(
            self.theme_name.as_str(),
            theme_name,
        ) {
            self.syntax_name = syntax_name.to_string();
            self.theme_name = theme_name.to_string();
            self.mark_all_dirty();
        }
    }

    /// Resize the cache for a new line count: lines at the end are
    /// dropped, or added without highlighting
    pub fn resize(&mut self, new_line_count: usize)
        ensures
            final(self).lines@ == resized(old(self).lines@, new_line_count as nat, None),
            final(self).dirty@ == resized(old(self).dirty@, new_line_count as nat, true),
            final(self).syntax_name == old(self).syntax_name,
            final(self).theme_name == old(self).theme_name,
            final(self).wf(),
    {
        self.lines.truncate(new_line_count);
        while self.lines.len() < new_line_count
            invariant
                self.lines@.len() <= new_line_count,
                self.lines@.len() >= old(self).lines@.len() || self.lines@.len() == new_line_count,
                forall|k: int|
                    0 <= k < self.lines@.len() && k < old(self).lines@.len() ==> #[trigger] self.lines@[k]
                        == old(self).lines@[k],
                forall|k: int|
                    old(self).lines@.len() <= k < self.lines@.len() ==> #[trigger] self.lines@[k]
                        == None::<Vec<StyledSpan>>,
                self.dirty == old(self).dirty,
                self.syntax_name == old(self).syntax_name,
                self.theme_name == old(self).theme_name,
            decreases new_line_count - self.lines@.len(),
        {
            self.lines.push(None);
        }
        self.dirty.truncate(new_line_count);
        while self.dirty.len() < new_line_count
            invariant
                self.dirty@.len() <= new_line_count,
                self.dirty@.len() >= old(self).dirty@.len() || self.dirty@.len() == new_line_count,
                forall|k: int|
                    0 <= k < self.dirty@.len() && k < old(self).dirty@.len() ==> #[trigger] self.dirty@[k]
                        == old(self).dirty@[k],
                forall|k: int|
                    old(self).dirty@.len() <= k < self.dirty@.len() ==> #[trigger] self.dirty@[k],
                self.lines@ == resized(old(self).lines@, new_line_count as nat, None),
                self.syntax_name == old(self).syntax_name,
                self.theme_name == old(self).theme_name,
            decreases new_line_count - self.dirty@.len(),
        {
            self.dirty.push(true);
        }
    }

    /// Get cached line if available and not dirty
    pub fn get(&self, line: usize) -> (spans: Option<&Vec<StyledSpan>>)
        ensures
            spans.is_some() == self.cached(line as int).is_some(),
            spans matches Some(s) ==> self.cached(line as int) == Some(*s),
    {
        if line < self.lines.len() && line < self.dirty.len() && !self.dirty[line] {
            self.lines[line].as_ref()
        } else {
            None
        }
    }

    /// Store highlighted line
    pub fn set(&mut self, line: usize, spans: Vec<StyledSpan>)
        ensures
            line < old(self).lines@.len() && line < old(self).dirty@.len() ==> final(self).lines@
                == old(self).lines@.update(line as int, Some(spans)) && final(self).dirty@ == old(self).dirty@.update(line as int, false),
            !(line < old(self).lines@.len() && line < old(self).dirty@.len()) ==> *final(self)
                == *old(self),
            final(self).syntax_name == old(self).syntax_name,
            final(self).theme_name == old(self).theme_name,
    {
        if line < self.lines.len() && line < self.dirty.len() {
            self.lines.set(line, Some(spans));
            self.dirty.set(line, false);
        }
    }
}

} // verus!
