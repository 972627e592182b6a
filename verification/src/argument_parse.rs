//! From the raw arguments of an invocation to its configuration.

use vstd::prelude::*;
use vstd::string::*;

use crate::error::{PathFault, ThemeError};
use crate::notice::Notice;
use crate::text::same_text;
use crate::variant::{parsed_variant, resolve_variant, Variant};

verus! {

/// The arguments of an invocation, as given.
pub struct Arguments {
    /// The path of the image. It is required.
    pub image: Option<String>,
    /// The name of the style variant.
    pub variant: Option<String>,
    /// `light` or `dark`.
    pub scheme: Option<String>,
    /// The directory under which the output files go.
    pub waybar_conf_dir: Option<String>,
}

/// The configuration of a run. It is resolved once and not changed after.
pub struct Config {
    pub image_path: String,
    pub variant: Variant,
    pub is_dark: bool,
    pub output_dir: String,
}

/// A configuration as plain values.
pub struct ConfigView {
    pub image_path: Seq<char>,
    pub variant: Variant,
    pub is_dark: bool,
    pub output_dir: Seq<char>,
}

impl View for Config {
    type V = ConfigView;

    open spec fn view(&self) -> ConfigView {
        ConfigView {
            image_path: self.image_path@,
            variant: self.variant,
            is_dark: self.is_dark,
            output_dir: self.output_dir@,
        }
    }
}

/// What resolving the arguments came to: the notices for the user, in the
/// order in which they arose, and the configuration or the failure.
pub struct Resolution {
    pub notices: Vec<Notice>,
    pub outcome: Result<Config, ThemeError>,
}

/// A scheme choice as parsed from its name.
#[derive(Clone, Copy, Debug, PartialEq, Eq, Structural)]
pub struct ParsedScheme {
    /// Whether the dark scheme is selected.
    pub is_dark: bool,
    /// The notice that the name was not recognised, if it was not.
    pub notice: Option<Notice>,
}

/// The text of an optional string.
pub open spec fn text_of(value: Option<String>) -> Option<Seq<char>> {
    match value {
        Some(text) => Some(text@),
        None => None,
    }
}

/// Whether a file with this extension is taken for an image.
pub open spec fn is_image_extension(extension: Seq<char>) -> bool {
    ||| extension == "jpg"@
    ||| extension == "jpeg"@
    ||| extension == "png"@
    ||| extension == "webp"@
}

/// The verdict on a path, given whether it is a directory, whether anything
/// exists at it, and its extension if it has one.
pub open spec fn image_verdict(is_dir: bool, exists: bool, extension: Option<Seq<char>>) -> Result<
    bool,
    ThemeError,
> {
    if is_dir {
        Err(ThemeError::NotAnImage(PathFault::Directory))
    } else if !exists {
        Err(ThemeError::NotAnImage(PathFault::Missing))
    } else {
        match extension {
            None => Err(ThemeError::UnreadablePath),
            Some(extension) => if is_image_extension(extension) {
                Ok(true)
            } else {
                Err(ThemeError::NotAnImage(PathFault::Extension))
            },
        }
    }
}

/// What a scheme argument selects: the light scheme for `light` exactly, the
/// dark one for anything else and for no argument. A name other than `light`
/// and `dark` comes with a notice.
pub open spec fn parsed_scheme(text: Option<Seq<char>>) -> ParsedScheme {
    match text {
        Some(text) => if text == "light"@ {
            ParsedScheme { is_dark: false, notice: None }
        } else if text == "dark"@ {
            ParsedScheme { is_dark: true, notice: None }
        } else {
            ParsedScheme { is_dark: true, notice: Some(Notice::DefaultScheme) }
        },
        None => ParsedScheme { is_dark: true, notice: None },
    }
}

/// Only the text `light`, letter for letter, selects the light scheme.
pub proof fn lemma_only_light_is_light(text: Option<Seq<char>>)
    ensures
        parsed_scheme(text).is_dark <==> text != Some("light"@),
{
    reveal_strlit("light");
    reveal_strlit("dark");
    assert("light"@[0] != "dark"@[0]);
}

/// A file that exists, is no directory and bears one of the four image
/// extensions is an image; a directory and a path that leads nowhere are
/// turned down whatever their extension; a file without an extension cannot
/// be read.
pub proof fn lemma_image_verdicts(is_dir: bool, exists: bool, extension: Option<Seq<char>>)
    ensures
        !is_dir && exists && (extension == Some("jpg"@) || extension == Some("jpeg"@) || extension
            == Some("png"@) || extension == Some("webp"@)) ==> image_verdict(
            is_dir,
            exists,
            extension,
        ) == Ok::<bool, ThemeError>(true),
        is_dir ==> image_verdict(is_dir, exists, extension) == Err::<bool, ThemeError>(
            ThemeError::NotAnImage(PathFault::Directory),
        ),
        !is_dir && !exists ==> image_verdict(is_dir, exists, extension) == Err::<bool, ThemeError>(
            ThemeError::NotAnImage(PathFault::Missing),
        ),
        !is_dir && exists && extension is None ==> image_verdict(is_dir, exists, extension) == Err::<
            bool,
            ThemeError,
        >(ThemeError::UnreadablePath),
        image_verdict(is_dir, exists, extension) != Ok::<bool, ThemeError>(false),
{
}

/// The output directory used where none is given: the configuration
/// directory in the home of `username`.
pub open spec fn default_output_dir(username: Seq<char>) -> Seq<char> {
    "/home/"@ + username + "/.config"@
}

/// The notices that the variant and scheme arguments give rise to, the
/// variant's first.
pub open spec fn resolved_notices(variant: Option<Seq<char>>, scheme: Option<Seq<char>>) -> Seq<
    Notice,
> {
    let of_variant = match parsed_variant(variant).notice {
        Some(notice) => seq![notice],
        None => Seq::empty(),
    };
    let of_scheme = match parsed_scheme(scheme).notice {
        Some(notice) => seq![notice],
        None => Seq::empty(),
    };
    of_variant + of_scheme
}

/// The configuration that the arguments resolve to for the image at `image`.
pub open spec fn resolved_config(
    image: Seq<char>,
    variant: Option<Seq<char>>,
    scheme: Option<Seq<char>>,
    output_dir: Option<Seq<char>>,
    username: Seq<char>,
) -> ConfigView {
    ConfigView {
        image_path: image,
        variant: parsed_variant(variant).variant,
        is_dark: parsed_scheme(scheme).is_dark,
        output_dir: match output_dir {
            Some(dir) => dir,
            None => default_output_dir(username),
        },
    }
}

/// Whether `resolution` is what `arguments` resolve to for the user
/// `username`, where the check of the image path came to `image_check`.
///
/// Without an image path nothing else is looked at. With one, the notices
/// are owed whatever the check says; a failed check is the outcome, and so
/// is a path that was judged to be no image.
pub open spec fn resolves_to(
    arguments: Arguments,
    username: Seq<char>,
    image_check: Result<bool, ThemeError>,
    resolution: Resolution,
) -> bool {
    match arguments.image {
        None => {
            &&& resolution.notices@ == Seq::<Notice>::empty()
            &&& resolution.outcome == Err::<Config, ThemeError>(ThemeError::InvalidArgument)
        },
        Some(image) => {
            &&& resolution.notices@ == resolved_notices(
                text_of(arguments.variant),
                text_of(arguments.scheme),
            )
            &&& match image_check {
                Ok(true) => {
                    &&& resolution.outcome is Ok
                    &&& resolution.outcome->Ok_0@ == resolved_config(
                        image@,
                        text_of(arguments.variant),
                        text_of(arguments.scheme),
                        text_of(arguments.waybar_conf_dir),
                        username,
                    )
                },
                Ok(false) => resolution.outcome == Err::<Config, ThemeError>(
                    ThemeError::NotAnImage(PathFault::Extension),
                ),
                Err(error) => resolution.outcome == Err::<Config, ThemeError>(error),
            }
        },
    }
}

/// The extension of the file that `path` names, as
/// `std::path::Path::extension` finds it. Nothing is claimed of the result:
/// what counts as a file name depends on the platform's path syntax.
#[verifier::external_body]
fn path_extension(path: &str) -> (extension: Option<String>) {
    let extension = std::path::Path::new(path).extension()?;
    Some(extension.to_str()?.to_owned())
}

/// Judges a path by what is known of it: whether it is a directory, whether
/// anything exists at it, and its extension if it has one.
pub fn judge_image(is_dir: bool, exists: bool, extension: Option<&str>) -> (verdict: Result<
    bool,
    ThemeError,
>)
    ensures
        verdict == image_verdict(
            is_dir,
            exists,
            match extension {
                Some(text) => Some(text@),
                None => None,
            },
        ),
{
    if is_dir {
        Err(ThemeError::NotAnImage(PathFault::Directory))
    } else if !exists {
        Err(ThemeError::NotAnImage(PathFault::Missing))
    } else {
        match extension {
            None => Err(ThemeError::UnreadablePath),
            Some(text) => {
                if same_text(text, "jpg") || same_text(text, "jpeg") || same_text(text, "png")
                    || same_text(text, "webp") {
                    Ok(true)
                } else {
                    Err(ThemeError::NotAnImage(PathFault::Extension))
                }
            },
        }
    }
}

/// Judges whether `path` leads to an image. The caller says whether the path
/// is a directory and whether anything exists at it; the extension is read
/// off the path.
pub fn is_image(path: &str, is_dir: bool, exists: bool) -> (verdict: Result<bool, ThemeError>)
    ensures
        exists|extension: Option<Seq<char>>|
            verdict == #[trigger] image_verdict(is_dir, exists, extension),
        is_dir ==> verdict == Err::<bool, ThemeError>(ThemeError::NotAnImage(PathFault::Directory)),
        !is_dir && !exists ==> verdict == Err::<bool, ThemeError>(
            ThemeError::NotAnImage(PathFault::Missing),
        ),
{
    let extension = path_extension(path);
    let verdict = match &extension {
        Some(text) => judge_image(is_dir, exists, Some(text.as_str())),
        None => judge_image(is_dir, exists, None),
    };
    assert(verdict == image_verdict(is_dir, exists, text_of(extension)));
    verdict
}

/// Parses the scheme argument.
pub fn parse_scheme(scheme: Option<&str>) -> (parsed: ParsedScheme)
    ensures
        parsed == parsed_scheme(
            match scheme {
                Some(text) => Some(text@),
                None => None,
            },
        ),
{
    match scheme {
        Some(text) => {
            if same_text(text, "light") {
                ParsedScheme { is_dark: false, notice: None }
            } else if same_text(text, "dark") {
                ParsedScheme { is_dark: true, notice: None }
            } else {
                ParsedScheme { is_dark: true, notice: Some(Notice::DefaultScheme) }
            }
        },
        None => ParsedScheme { is_dark: true, notice: None },
    }
}

/// Resolves the arguments into a configuration, given what the check of the
/// image path came to.
pub fn resolve_config(arguments: Arguments, username: &str, image_check: Result<
    bool,
    ThemeError,
>) -> (resolution: Resolution)
    ensures
        resolves_to(arguments, username@, image_check, resolution),
{
    let Arguments { image, variant, scheme, waybar_conf_dir } = arguments;
    let mut notices: Vec<Notice> = Vec::new();
    let image_path = match image {
        Some(path) => path,
        None => {
            return Resolution { notices, outcome: Err(ThemeError::InvalidArgument) };
        },
    };
    let parsed = resolve_variant(variant);
    if let Some(notice) = parsed.notice {
        notices.push(notice);
    }
    let chosen = match &scheme {
        Some(text) => parse_scheme(Some(text.as_str())),
        None => parse_scheme(None),
    };
    if let Some(notice) = chosen.notice {
        notices.push(notice);
    }
    assert(notices@ =~= resolved_notices(text_of(variant), text_of(scheme)));
    let outcome = match image_check {
        Ok(true) => {
            let output_dir = match waybar_conf_dir {
                Some(dir) => dir,
                None => {
                    let mut dir = String::from_str("/home/");
                    dir.append(username);
                    dir.append("/.config");
                    dir
                },
            };
            Ok(Config { image_path, variant: parsed.variant, is_dark: chosen.is_dark, output_dir })
        },
        Ok(false) => Err(ThemeError::NotAnImage(PathFault::Extension)),
        Err(error) => Err(error),
    };
    Resolution { notices, outcome }
}

/// Resolves the arguments of an invocation for the user `username`. The
/// caller says whether the image path is a directory and whether anything
/// exists at it.
pub fn check_args(arguments: Arguments, username: &str, is_dir: bool, exists: bool) -> (resolution:
    Resolution)
    ensures
        exists|extension: Option<Seq<char>>|
            resolves_to(
                arguments,
                username@,
                #[trigger] image_verdict(is_dir, exists, extension),
                resolution,
            ),
{
    let image_check = match &arguments.image {
        Some(path) => is_image(path.as_str(), is_dir, exists),
        None => Err(ThemeError::InvalidArgument),
    };
    let resolution = resolve_config(arguments, username, image_check);
    proof {
        if arguments.image is None {
            assert(resolves_to(
                arguments,
                username@,
                image_verdict(is_dir, exists, None),
                resolution,
            ));
        }
    }
    resolution
}

} // verus!
