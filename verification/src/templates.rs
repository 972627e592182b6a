//! The two documents that a theme is rendered into.
//!
//! Both list the roles of the table in table order, one line per role. The
//! style sheet scopes its lines to the root selector and opens with a comment
//! that records the source colour; the status-bar palette is the bare list.

use vstd::prelude::*;
use vstd::string::*;

use crate::color::{hex_code, Rgb};
use crate::error::ThemeError;
use crate::roles::{role_name, role_name_at, ROLE_COUNT};
use crate::theme::{covers_roles, Theme};

verus! {

/// The format of a rendered document.
#[derive(Clone, Copy, Debug, PartialEq, Eq, Structural)]
pub enum Format {
    /// Custom properties in a block scoped to the root selector.
    StyleSheet,
    /// A flat list of colour definitions.
    StatusBar,
}

impl Format {
    /// What a line starts with, before the role's name.
    pub open spec fn line_prefix(self) -> Seq<char> {
        match self {
            Format::StyleSheet => "  --"@,
            Format::StatusBar => "@define-color "@,
        }
    }

    /// What stands between the role's name and its colour.
    pub open spec fn line_separator(self) -> Seq<char> {
        match self {
            Format::StyleSheet => ": "@,
            Format::StatusBar => " "@,
        }
    }

    /// What follows the last line.
    pub open spec fn footer(self) -> Seq<char> {
        match self {
            Format::StyleSheet => "}"@,
            Format::StatusBar => Seq::empty(),
        }
    }

    /// What precedes the first line.
    pub open spec fn header(self, source: Rgb) -> Seq<char> {
        match self {
            Format::StyleSheet => "# Source: "@ + hex_code(source) + "\n:root {\n"@,
            Format::StatusBar => Seq::empty(),
        }
    }

    fn prefix_str(self) -> (text: &'static str)
        ensures
            text@ == self.line_prefix(),
    {
        match self {
            Format::StyleSheet => "  --",
            Format::StatusBar => "@define-color ",
        }
    }

    fn separator_str(self) -> (text: &'static str)
        ensures
            text@ == self.line_separator(),
    {
        match self {
            Format::StyleSheet => ": ",
            Format::StatusBar => " ",
        }
    }
}

/// The line that binds the role `name` to `color`.
pub open spec fn declaration(format: Format, name: Seq<char>, color: Rgb) -> Seq<char> {
    format.line_prefix() + name + format.line_separator() + hex_code(color) + ";\n"@
}

/// The lines of the first `count` roles of the table, in table order.
pub open spec fn declarations(format: Format, scheme: Map<Seq<char>, Rgb>, count: nat) -> Seq<
    char,
>
    decreases count,
{
    if count == 0 {
        Seq::empty()
    } else {
        let last = role_name_at(count - 1);
        declarations(format, scheme, (count - 1) as nat) + declaration(format, last, scheme[last])
    }
}

/// The whole document for a scheme that covers the table.
pub open spec fn document(format: Format, source: Rgb, scheme: Map<Seq<char>, Rgb>) -> Seq<char> {
    format.header(source) + declarations(format, scheme, ROLE_COUNT as nat) + format.footer()
}

/// The index of the first role at or after `from` that `scheme` has no entry
/// for; the length of the table if there is none.
pub open spec fn first_missing_from(scheme: Map<Seq<char>, Rgb>, from: int) -> int
    decreases ROLE_COUNT - from,
{
    if from < 0 || from >= ROLE_COUNT {
        ROLE_COUNT as int
    } else if !scheme.contains_key(role_name_at(from)) {
        from
    } else {
        first_missing_from(scheme, from + 1)
    }
}

/// What rendering yields: the document where the scheme covers the table,
/// else the first role that it lacks.
pub open spec fn rendered(format: Format, source: Rgb, scheme: Map<Seq<char>, Rgb>) -> Result<
    Seq<char>,
    ThemeError,
> {
    if covers_roles(scheme) {
        Ok(document(format, source, scheme))
    } else {
        Err(ThemeError::MissingRole(first_missing_from(scheme, 0) as usize))
    }
}

/// The text of a rendering result, where there is one.
pub open spec fn text_of(result: Result<String, ThemeError>) -> Result<Seq<char>, ThemeError> {
    match result {
        Ok(text) => Ok(text@),
        Err(error) => Err(error),
    }
}

/// Where the roles from `from` up to `index` are present and the one at
/// `index` is not, `index` is the first missing role from `from` on.
proof fn lemma_first_missing(scheme: Map<Seq<char>, Rgb>, from: int, index: int)
    requires
        0 <= from <= index < ROLE_COUNT,
        forall|j: int| from <= j < index ==> scheme.contains_key(#[trigger] role_name_at(j)),
        !scheme.contains_key(role_name_at(index)),
    ensures
        first_missing_from(scheme, from) == index,
    decreases index - from,
{
    if from < index {
        assert(scheme.contains_key(role_name_at(from)));
        lemma_first_missing(scheme, from + 1, index);
    }
}

/// The first missing role from `from` on is missing, and no role between
/// `from` and it is.
proof fn lemma_first_missing_from(scheme: Map<Seq<char>, Rgb>, from: int)
    requires
        0 <= from <= ROLE_COUNT,
    ensures
        from <= first_missing_from(scheme, from) <= ROLE_COUNT,
        first_missing_from(scheme, from) < ROLE_COUNT ==> !scheme.contains_key(
            role_name_at(first_missing_from(scheme, from)),
        ),
        forall|j: int|
            from <= j < first_missing_from(scheme, from) ==> scheme.contains_key(
                #[trigger] role_name_at(j),
            ),
    decreases ROLE_COUNT - from,
{
    if from < ROLE_COUNT && scheme.contains_key(role_name_at(from)) {
        lemma_first_missing_from(scheme, from + 1);
    }
}

/// Rendering fails exactly where the scheme lacks a role of the table, and
/// the role it then reports is the first one lacking: the scheme has no entry
/// for it and has one for every role before it.
pub proof fn lemma_missing_role_is_reported(format: Format, source: Rgb, scheme: Map<Seq<char>, Rgb>)
    ensures
        rendered(format, source, scheme) is Ok <==> covers_roles(scheme),
        !covers_roles(scheme) ==> {
            let index = first_missing_from(scheme, 0);
            &&& 0 <= index < ROLE_COUNT
            &&& rendered(format, source, scheme) == Err::<Seq<char>, ThemeError>(
                ThemeError::MissingRole(index as usize),
            )
            &&& !scheme.contains_key(role_name_at(index))
            &&& forall|j: int| 0 <= j < index ==> scheme.contains_key(#[trigger] role_name_at(j))
        },
{
    lemma_first_missing_from(scheme, 0);
}

/// Two renderings agree where the themes agree in their source colour and
/// in the mapping of the selected scheme, however the entries of the schemes
/// were made: the same text, or the same missing role.
pub proof fn lemma_rendering_is_deterministic(
    format: Format,
    first_theme: Theme,
    second_theme: Theme,
    is_dark: bool,
    first: Result<String, ThemeError>,
    second: Result<String, ThemeError>,
)
    requires
        first_theme.source == second_theme.source,
        first_theme.selected(is_dark)@ == second_theme.selected(is_dark)@,
        text_of(first) == rendered(format, first_theme.source, first_theme.selected(is_dark)@),
        text_of(second) == rendered(format, second_theme.source, second_theme.selected(is_dark)@),
    ensures
        text_of(first) == text_of(second),
{
}

/// The lines of the first `count` roles open the lines of any `total` roles
/// that are at least as many.
proof fn lemma_declarations_prefix(
    format: Format,
    scheme: Map<Seq<char>, Rgb>,
    count: nat,
    total: nat,
)
    requires
        count <= total,
    ensures
        declarations(format, scheme, count).len() <= declarations(format, scheme, total).len(),
        declarations(format, scheme, total).subrange(
            0,
            declarations(format, scheme, count).len() as int,
        ) == declarations(format, scheme, count),
    decreases total,
{
    let head = declarations(format, scheme, count);
    if count < total {
        lemma_declarations_prefix(format, scheme, count, (total - 1) as nat);
        let shorter = declarations(format, scheme, (total - 1) as nat);
        assert(declarations(format, scheme, total).subrange(0, head.len() as int) =~= shorter.subrange(
            0,
            head.len() as int,
        ));
    } else {
        assert(head.subrange(0, head.len() as int) =~= head);
    }
}

/// Where a document begins the line of the role at `index`: behind the
/// header and the lines of the roles before it.
pub open spec fn line_start(
    format: Format,
    source: Rgb,
    scheme: Map<Seq<char>, Rgb>,
    index: int,
) -> int {
    (format.header(source).len() + declarations(format, scheme, index as nat).len()) as int
}

/// A document holds the line of every role of the table, each right behind
/// the line of the role before it, the first right behind the header.
pub proof fn lemma_document_holds_line(
    format: Format,
    source: Rgb,
    scheme: Map<Seq<char>, Rgb>,
    index: int,
)
    requires
        0 <= index < ROLE_COUNT,
    ensures
        ({
            let name = role_name_at(index);
            let line = declaration(format, name, scheme[name]);
            let start = line_start(format, source, scheme, index);
            &&& start + line.len() <= document(format, source, scheme).len()
            &&& document(format, source, scheme).subrange(start, start + line.len()) == line
            &&& line_start(format, source, scheme, index + 1) == start + line.len()
        }),
{
    let name = role_name_at(index);
    let line = declaration(format, name, scheme[name]);
    let upto = declarations(format, scheme, (index + 1) as nat);
    let lines = declarations(format, scheme, ROLE_COUNT as nat);
    let start = line_start(format, source, scheme, index);
    lemma_declarations_prefix(format, scheme, (index + 1) as nat, ROLE_COUNT as nat);
    assert(upto == declarations(format, scheme, index as nat) + line);
    assert(lines.subrange(0, upto.len() as int) == upto);
    assert forall|k: int| 0 <= k < line.len() implies document(format, source, scheme)[start + k]
        == line[k] by {
        let at = declarations(format, scheme, index as nat).len() + k;
        assert(lines.subrange(0, upto.len() as int)[at] == lines[at]);
        assert(upto[at] == line[k]);
    }
    assert(document(format, source, scheme).subrange(start, start + line.len()) =~= line);
}

/// The status-bar palette is its lines and nothing else: no comment, no
/// selector, no braces around them.
pub proof fn lemma_status_bar_is_bare(source: Rgb, scheme: Map<Seq<char>, Rgb>)
    ensures
        document(Format::StatusBar, source, scheme) == declarations(
            Format::StatusBar,
            scheme,
            ROLE_COUNT as nat,
        ),
        line_start(Format::StatusBar, source, scheme, 0) == 0,
{
    assert(document(Format::StatusBar, source, scheme) =~= declarations(
        Format::StatusBar,
        scheme,
        ROLE_COUNT as nat,
    ));
}

/// Renders the selected scheme of `theme` in `format`.
///
/// The lines follow the role table, never the order of the scheme's entries.
/// A role that the scheme lacks is an error, not a line left out.
pub fn render(format: Format, theme: &Theme, is_dark: bool) -> (result: Result<String, ThemeError>)
    ensures
        text_of(result) == rendered(format, theme.source, theme.selected(is_dark)@),
{
    let scheme = theme.scheme(is_dark);
    let mut out = String::new();
    match format {
        Format::StyleSheet => {
            let source = theme.source.to_hex();
            out.append("# Source: ");
            out.append(source.as_str());
            out.append("\n:root {\n");
        },
        Format::StatusBar => {},
    }
    assert(out@ =~= format.header(theme.source));
    let mut i: usize = 0;
    while i < ROLE_COUNT
        invariant
            i <= ROLE_COUNT,
            *scheme == theme.selected(is_dark),
            out@ == format.header(theme.source) + declarations(format, scheme@, i as nat),
            forall|j: int| 0 <= j < i ==> scheme@.contains_key(#[trigger] role_name_at(j)),
        decreases ROLE_COUNT - i,
    {
        let name = role_name(i);
        match scheme.get(name) {
            None => {
                proof {
                    lemma_first_missing(scheme@, 0, i as int);
                }
                return Err(ThemeError::MissingRole(i));
            },
            Some(color) => {
                let ghost before = out@;
                let hex = color.to_hex();
                out.append(format.prefix_str());
                out.append(name);
                out.append(format.separator_str());
                out.append(hex.as_str());
                out.append(";\n");
                assert(out@ =~= before + declaration(format, name@, color));
                assert(out@ =~= format.header(theme.source) + declarations(
                    format,
                    scheme@,
                    (i + 1) as nat,
                ));
            },
        }
        i += 1;
    }
    let ghost lines = out@;
    match format {
        Format::StyleSheet => {
            out.append("}");
        },
        Format::StatusBar => {},
    }
    assert(out@ =~= lines + format.footer());
    Ok(out)
}

/// Renders the style sheet: a comment with the source colour, then a block
/// scoped to the root selector with one custom property per role.
pub fn theme_to_css(theme: &Theme, is_dark: bool) -> (result: Result<String, ThemeError>)
    ensures
        text_of(result) == rendered(Format::StyleSheet, theme.source, theme.selected(is_dark)@),
{
    render(Format::StyleSheet, theme, is_dark)
}

/// Renders the status-bar palette: one colour definition per role, with
/// nothing before or after them.
pub fn theme_to_waybar_css(theme: &Theme, is_dark: bool) -> (result: Result<String, ThemeError>)
    ensures
        text_of(result) == rendered(Format::StatusBar, theme.source, theme.selected(is_dark)@),
{
    render(Format::StatusBar, theme, is_dark)
}

} // verus!
