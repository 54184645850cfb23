//! The editor pane: which document position lies under a screen cell.

use vstd::prelude::*;
use crate::highlighting::{HighlightStyle, Rgb, StyledSpan};
use crate::theme::Theme;
use crate::app::pointer::editor_position_under;
use crate::app::App;

verus! {

/// Get the document position from screen coordinates
pub fn position_from_screen(app: &App, x: u16, y: u16) -> (pos: Option<(usize, usize)>)
    ensures
        pos == editor_position_under(*app, x, y),
{
    app.get_editor_position_at(x, y)
}

/// How one cell of the editor is drawn.
#[derive(Debug, Clone, Copy, PartialEq, Eq, Structural)]
pub struct CellStyle {
    pub fg: Rgb,
    pub bg: Rgb,
    pub bold: bool,
    pub italic: bool,
}

/// `color`, or `fallback` where there is none.
pub open spec fn color_or(color: Option<Rgb>, fallback: Rgb) -> Rgb {
    match color {
        Some(c) => c,
        None => fallback,
    }
}

/// How a cell of the editor is drawn.
///
/// The cursor shows in the cursor color. Selected text keeps the color of
/// its syntax on the selection background. The line of the cursor keeps
/// color and emphasis of its syntax on the highlight background. Any other
/// cell is drawn as its syntax says, on the editor background where the
/// syntax names none.
pub open spec fn spec_cell_style(
    theme: Theme,
    syntax: HighlightStyle,
    is_cursor: bool,
    is_selected: bool,
    is_current_line: bool,
) -> CellStyle {
    if is_cursor {
        CellStyle { fg: theme.editor_bg, bg: theme.cursor, bold: false, italic: false }
    } else if is_selected {
        CellStyle {
            fg: color_or(syntax.fg, theme.fg),
            bg: theme.selection_bg,
            bold: false,
            italic: false,
        }
    } else if is_current_line {
        CellStyle {
            fg: color_or(syntax.fg, theme.fg),
            bg: theme.line_highlight,
            bold: syntax.bold,
            italic: syntax.italic,
        }
    } else {
        CellStyle {
            fg: color_or(syntax.fg, theme.fg),
            bg: color_or(syntax.bg, theme.editor_bg),
            bold: syntax.bold,
            italic: syntax.italic,
        }
    }
}

/// How a cell of the editor is drawn.
pub fn cell_style(
    theme: &Theme,
    syntax: HighlightStyle,
    is_cursor: bool,
    is_selected: bool,
    is_current_line: bool,
) -> (style: CellStyle)
    ensures
        style == spec_cell_style(*theme, syntax, is_cursor, is_selected, is_current_line),
{
    let fg = match syntax.fg {
        Some(c) => c,
        None => theme.fg,
    };
    if is_cursor {
        CellStyle { fg: theme.editor_bg, bg: theme.cursor, bold: false, italic: false }
    } else if is_selected {
        CellStyle { fg, bg: theme.selection_bg, bold: false, italic: false }
    } else if is_current_line {
        CellStyle { fg, bg: theme.line_highlight, bold: syntax.bold, italic: syntax.italic }
    } else {
        let bg = match syntax.bg {
            Some(c) => c,
            None => theme.editor_bg,
        };
        CellStyle { fg, bg, bold: syntax.bold, italic: syntax.italic }
    }
}

/// The styles of the characters of the first `n` spans, one style for
/// each character, in order.
pub open spec fn styles_of_spans(spans: Seq<StyledSpan>, n: int) -> Seq<HighlightStyle>
    decreases n,
{
    if n <= 0 {
        Seq::empty()
    } else {
        styles_of_spans(spans, n - 1) + Seq::new(
            spans[n - 1].text@.len(),
            |i: int| spans[n - 1].style,
        )
    }
}

/// The style of each of the first `len` characters of a line that was
/// highlighted as `spans`: the style of the span the character lies in,
/// and no style for a character behind the last span.
pub open spec fn spec_char_styles(spans: Seq<StyledSpan>, len: nat) -> Seq<HighlightStyle> {
    let known = styles_of_spans(spans, spans.len() as int);
    Seq::new(
        len,
        |i: int|
            if i < known.len() {
                known[i]
            } else {
                HighlightStyle::plain()
            },
    )
}

/// The style of each of the first `len` characters of a highlighted line.
pub fn char_styles(spans: &Vec<StyledSpan>, len: usize) -> (styles: Vec<HighlightStyle>)
    ensures
        styles@ == spec_char_styles(spans@, len as nat),
{
    let mut known: Vec<HighlightStyle> = Vec::new();
    let mut i: usize = 0;
    while i < spans.len()
        invariant
            i <= spans@.len(),
            known@ == styles_of_spans(spans@, i as int),
        decreases spans@.len() - i,
    {
        let ghost before = known@;
        let count = spans[i].text.as_str().unicode_len();
        let style = spans[i].style;
        let mut k: usize = 0;
        while k < count
            invariant
                k <= count,
                known@ == before + Seq::new(k as nat, |j: int| style),
            decreases count - k,
        {
            known.push(style);
            k += 1;
        }
        i += 1;
    }
    let mut styles: Vec<HighlightStyle> = Vec::new();
    let mut j: usize = 0;
    while j < len
        invariant
            j <= len,
            styles@.len() == j,
            forall|n: int|
                0 <= n < j ==> #[trigger] styles@[n] == if n < known@.len() {
                    known@[n]
                } else {
                    HighlightStyle::plain()
                },
        decreases len - j,
    {
        let style = if j < known.len() {
            known[j]
        } else {
            HighlightStyle::default()
        };
        styles.push(style);
        j += 1;
    }
    styles
}

} // verus!
