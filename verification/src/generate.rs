//! Deriving a theme from a source colour. The colour science is the work of
//! the `material_colors` crate; this module hands it the colour and the
//! variant, files what comes back under the role names, and has `serde_json`
//! write the same theme down.

use vstd::prelude::*;
use vstd::string::*;

use material_colors::color::Argb;
use material_colors::dynamic_color::Variant as Style;
use material_colors::theme::ThemeBuilder;

use crate::color::Rgb;
use crate::error::ThemeError;
use crate::roles::{role_name_at, ROLE_COUNT};
use crate::theme::{covers_roles, entries_map, Scheme, Theme};
use crate::variant::Variant;

verus! {

/// The theme builder of `material_colors`. A value of it is only handed from
/// one call to the next.
#[verifier::external_type_specification]
#[verifier::external_body]
pub struct ExThemeBuilder(material_colors::theme::ThemeBuilder);

/// The error of `serde_json`. A value of it is only told from success.
#[verifier::external_type_specification]
#[verifier::external_body]
pub struct ExJsonError(serde_json::Error);

/// Whether the entries bear the names of the role table, in table order.
pub open spec fn follows_table(entries: Seq<(String, Rgb)>) -> bool {
    &&& entries.len() == ROLE_COUNT
    &&& forall|i: int| 0 <= i < ROLE_COUNT ==> (#[trigger] entries[i]).0@ == role_name_at(i)
}

/// Sets up a `material_colors::theme::ThemeBuilder` with `source`, fully
/// opaque, as its source colour (`ThemeBuilder::with_source`) and with the
/// variant of the same name (`ThemeBuilder::variant`).
#[verifier::external_body]
fn theme_builder(source: Rgb, variant: Variant) -> material_colors::theme::ThemeBuilder {
    let seed = Argb::new(255, source.red, source.green, source.blue);
    ThemeBuilder::with_source(seed).variant(
        match variant {
            Variant::Content => Style::Content,
            Variant::Expressive => Style::Expressive,
            Variant::Monochrome => Style::Monochrome,
            Variant::Neutral => Style::Neutral,
            Variant::TonalSpot => Style::TonalSpot,
            Variant::Vibrant => Style::Vibrant,
            Variant::Fidelity => Style::Fidelity,
            Variant::FruitSalad => Style::FruitSalad,
            Variant::Rainbow => Style::Rainbow,
        },
    )
}

/// Builds the theme (`ThemeBuilder::build`), writes it down as pretty-printed
/// JSON (`serde_json::to_string_pretty`), and hands out the entries of its
/// light and of its dark scheme, as `Scheme::into_iter` lists them. The text
/// and the entries are of one and the same theme.
///
/// Claimed of the outside code: each list has one entry per field of the
/// scheme, named after the field, in the order of the role table. Nothing is
/// claimed of the colours, which come out of floating-point arithmetic, nor
/// of the text or of whether there is one.
#[verifier::external_body]
fn build_theme(builder: material_colors::theme::ThemeBuilder) -> (built: (
    Result<String, serde_json::Error>,
    Vec<(String, Rgb)>,
    Vec<(String, Rgb)>,
))
    ensures
        follows_table(built.1@),
        follows_table(built.2@),
{
    let theme = builder.build();
    let json = serde_json::to_string_pretty(&theme);
    let entry = |(name, color): (String, Argb)| {
        (name, Rgb { red: color.red, green: color.green, blue: color.blue })
    };
    let light = theme.schemes.light.into_iter().map(entry).collect();
    let dark = theme.schemes.dark.into_iter().map(entry).collect();
    (json, light, dark)
}

/// Every name among the entries is a key of the mapping that the entries
/// stand for.
proof fn lemma_entry_names_are_keys(entries: Seq<(String, Rgb)>, index: int)
    requires
        0 <= index < entries.len(),
    ensures
        entries_map(entries).contains_key(entries[index].0@),
    decreases entries.len(),
{
    if index < entries.len() - 1 {
        lemma_entry_names_are_keys(entries.drop_last(), index);
    }
}

/// Entries that follow the role table stand for a scheme that covers it.
pub proof fn lemma_table_entries_cover_roles(entries: Seq<(String, Rgb)>)
    requires
        follows_table(entries),
    ensures
        covers_roles(entries_map(entries)),
{
    assert forall|i: int| 0 <= i < ROLE_COUNT implies entries_map(entries).contains_key(
        #[trigger] role_name_at(i),
    ) by {
        lemma_entry_names_are_keys(entries, i);
    }
}

/// A theme as it was derived, together with what became of writing it down.
pub struct Generated {
    /// The theme under the role names.
    pub theme: Theme,
    /// The theme as JSON, with all that the colour science derives: schemes,
    /// palettes and source; or the failure to write it down.
    pub serialized: Result<String, ThemeError>,
}

/// What an attempt to serialize the theme comes to: the text where one was
/// written and is not empty, else a failure to generate.
pub open spec fn serialization_outcome(text: Option<Seq<char>>) -> Result<Seq<char>, ThemeError> {
    match text {
        Some(text) => if text.len() > 0 {
            Ok(text)
        } else {
            Err(ThemeError::GenerationFailure)
        },
        None => Err(ThemeError::GenerationFailure),
    }
}

/// Settles an attempt to serialize the theme: a text is handed on as it is;
/// an empty text, which serializes nothing, and any error of the serializer
/// count as a failure to generate.
pub fn settle_serialization(attempt: Result<String, serde_json::Error>) -> (result: Result<
    String,
    ThemeError,
>)
    ensures
        crate::templates::text_of(result) == serialization_outcome(
            match attempt {
                Ok(text) => Some(text@),
                Err(_) => None,
            },
        ),
{
    match attempt {
        Ok(text) => {
            if text.as_str().is_empty() {
                Err(ThemeError::GenerationFailure)
            } else {
                Ok(text)
            }
        },
        Err(_) => Err(ThemeError::GenerationFailure),
    }
}

/// Derives the theme of `source` in the style of `variant`, once, and writes
/// that same theme down as JSON.
///
/// Both schemes of the theme cover the role table. The serialized text, where
/// there is one, is not empty; where there is none, the failure is one to
/// generate.
pub fn generate(source: Rgb, variant: Variant) -> (generated: Generated)
    ensures
        generated.theme.source == source,
        generated.theme.light.covers_roles(),
        generated.theme.dark.covers_roles(),
        generated.serialized is Ok ==> generated.serialized->Ok_0@.len() > 0,
        generated.serialized is Err ==> generated.serialized == Err::<String, ThemeError>(
            ThemeError::GenerationFailure,
        ),
{
    let (json, light, dark) = build_theme(theme_builder(source, variant));
    proof {
        lemma_table_entries_cover_roles(light@);
        lemma_table_entries_cover_roles(dark@);
    }
    Generated {
        theme: Theme::new(source, Scheme::from_entries(light), Scheme::from_entries(dark)),
        serialized: settle_serialization(json),
    }
}

/// Derives the theme of `source` in the style of `variant`. Both of its
/// schemes cover the role table.
pub fn generate_theme(source: Rgb, variant: Variant) -> (theme: Theme)
    ensures
        theme.source == source,
        theme.light.covers_roles(),
        theme.dark.covers_roles(),
{
    generate(source, variant).theme
}

/// Writes the theme of `source` in the style of `variant` down as JSON, with
/// all that the colour science derives: schemes, palettes and source. A text
/// that comes back is not empty; a failure is one to generate.
pub fn serialize_theme(source: Rgb, variant: Variant) -> (result: Result<String, ThemeError>)
    ensures
        result is Ok ==> result->Ok_0@.len() > 0,
        result is Err ==> result == Err::<String, ThemeError>(ThemeError::GenerationFailure),
{
    generate(source, variant).serialized
}

} // verus!
