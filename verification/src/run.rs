//! One pass from a source colour to the files to be written.

use vstd::prelude::*;
use vstd::string::*;

use crate::color::Rgb;
use crate::error::ThemeError;
use crate::generate::{generate, Generated};
use crate::templates::{rendered, theme_to_css, theme_to_waybar_css, Format};
use crate::theme::{covers_roles, Theme};
use crate::variant::Variant;

verus! {

/// The name of the file, in the working directory, that holds the serialized
/// theme.
pub const THEME_FILE: &'static str = "theme.json";

/// A file to be written.
pub struct OutputFile {
    pub path: String,
    pub contents: String,
}

/// The three files of a run: the serialized theme and the two rendered
/// documents.
pub struct Outputs {
    pub theme_json: OutputFile,
    pub style_sheet: OutputFile,
    pub status_bar: OutputFile,
}

/// A file to be written, as plain values.
pub struct OutputFileView {
    pub path: Seq<char>,
    pub contents: Seq<char>,
}

/// The three files of a run, as plain values.
pub struct OutputsView {
    pub theme_json: OutputFileView,
    pub style_sheet: OutputFileView,
    pub status_bar: OutputFileView,
}

impl View for OutputFile {
    type V = OutputFileView;

    open spec fn view(&self) -> OutputFileView {
        OutputFileView { path: self.path@, contents: self.contents@ }
    }
}

impl View for Outputs {
    type V = OutputsView;

    open spec fn view(&self) -> OutputsView {
        OutputsView {
            theme_json: self.theme_json@,
            style_sheet: self.style_sheet@,
            status_bar: self.status_bar@,
        }
    }
}

/// Where the style sheet goes under `output_dir`.
pub open spec fn style_sheet_path(output_dir: Seq<char>) -> Seq<char> {
    output_dir + "/vesktop/themes/Actual Material design colors/colors.css"@
}

/// Where the status-bar palette goes under `output_dir`.
pub open spec fn status_bar_path(output_dir: Seq<char>) -> Seq<char> {
    output_dir + "/waybar/colors.css"@
}

/// The files of a run: the serialized theme `json` under its fixed name, and
/// the scheme rendered into the two documents under `output_dir`; or the
/// first role that the scheme lacks.
pub open spec fn outputs_of(
    source: Rgb,
    scheme: Map<Seq<char>, Rgb>,
    json: Seq<char>,
    output_dir: Seq<char>,
) -> Result<OutputsView, ThemeError> {
    match rendered(Format::StatusBar, source, scheme) {
        Err(error) => Err(error),
        Ok(palette) => match rendered(Format::StyleSheet, source, scheme) {
            Err(error) => Err(error),
            Ok(sheet) => Ok(
                OutputsView {
                    theme_json: OutputFileView { path: THEME_FILE@, contents: json },
                    style_sheet: OutputFileView {
                        path: style_sheet_path(output_dir),
                        contents: sheet,
                    },
                    status_bar: OutputFileView {
                        path: status_bar_path(output_dir),
                        contents: palette,
                    },
                },
            ),
        },
    }
}

/// The outputs of a result as plain values.
pub open spec fn outputs_view(result: Result<Outputs, ThemeError>) -> Result<
    OutputsView,
    ThemeError,
> {
    match result {
        Ok(outputs) => Ok(outputs@),
        Err(error) => Err(error),
    }
}

/// `base` followed by `tail`.
fn joined(base: &str, tail: &str) -> (path: String)
    ensures
        path@ == base@ + tail@,
{
    let mut path = String::from_str(base);
    path.append(tail);
    path
}

/// Lays out the files of a run: the serialized theme `json`, and the
/// selected scheme of `theme` rendered into the two documents that go under
/// `output_dir`.
pub fn render_outputs(theme: &Theme, json: String, output_dir: &str, is_dark: bool) -> (result:
    Result<Outputs, ThemeError>)
    ensures
        outputs_view(result) == outputs_of(
            theme.source,
            theme.selected(is_dark)@,
            json@,
            output_dir@,
        ),
{
    let palette = match theme_to_waybar_css(theme, is_dark) {
        Ok(text) => text,
        Err(error) => {
            return Err(error);
        },
    };
    let sheet = match theme_to_css(theme, is_dark) {
        Ok(text) => text,
        Err(error) => {
            return Err(error);
        },
    };
    Ok(
        Outputs {
            theme_json: OutputFile { path: String::from_str(THEME_FILE), contents: json },
            style_sheet: OutputFile {
                path: joined(
                    output_dir,
                    "/vesktop/themes/Actual Material design colors/colors.css",
                ),
                contents: sheet,
            },
            status_bar: OutputFile {
                path: joined(output_dir, "/waybar/colors.css"),
                contents: palette,
            },
        },
    )
}

/// Derives the theme of `source` in the style of `variant`, and lays out the
/// files of the run: the theme serialized, and its light or dark scheme
/// rendered into the two documents that go under `config_dir`. The three
/// files are of one and the same theme.
///
/// The derived scheme covers the role table, so rendering cannot fail; the
/// run fails only where the theme cannot be serialized. The serialized text
/// is never empty. Which colours the files hold is for the colour science to
/// say.
pub fn run(source: Rgb, config_dir: &str, is_dark: bool, variant: Variant) -> (result: Result<
    Outputs,
    ThemeError,
>)
    ensures
        result is Err ==> result == Err::<Outputs, ThemeError>(ThemeError::GenerationFailure),
        result is Ok ==> exists|scheme: Map<Seq<char>, Rgb>, json: Seq<char>|
            covers_roles(scheme) && json.len() > 0 && outputs_view(result) == #[trigger] outputs_of(
                source,
                scheme,
                json,
                config_dir@,
            ),
{
    let Generated { theme, serialized } = generate(source, variant);
    let json = match serialized {
        Ok(text) => text,
        Err(error) => {
            return Err(error);
        },
    };
    let result = render_outputs(&theme, json, config_dir, is_dark);
    assert(covers_roles(theme.selected(is_dark)@));
    assert(outputs_view(result) == outputs_of(
        source,
        theme.selected(is_dark)@,
        json@,
        config_dir@,
    ));
    result
}

} // verus!
