//! The style variants, and the names by which the command line selects them.

use vstd::prelude::*;
use vstd::string::*;
use vstd::utf8::*;

use crate::notice::Notice;
use crate::text::{folds_to, to_lower};

verus! {

/// A style of deriving a colour scheme from one source colour.
#[derive(Clone, Copy, Debug, PartialEq, Eq, Structural)]
pub enum Variant {
    Content,
    Expressive,
    Monochrome,
    Neutral,
    TonalSpot,
    Vibrant,
    Fidelity,
    FruitSalad,
    Rainbow,
}

/// A variant as parsed from its name.
#[derive(Clone, Copy, Debug, PartialEq, Eq, Structural)]
pub struct ParsedVariant {
    /// The variant that was named, or the default.
    pub variant: Variant,
    /// The notice that the default was fallen back to, if it was.
    pub notice: Option<Notice>,
}

/// The variant that is used where none is named.
pub const DEFAULT_VARIANT: Variant = Variant::TonalSpot;

impl Variant {
    /// The name that selects this variant, in lower case. `expresive` is
    /// spelt with one `s`.
    pub open spec fn name_text(self) -> Seq<char> {
        match self {
            Variant::Content => "content"@,
            Variant::Expressive => "expresive"@,
            Variant::Monochrome => "monochrome"@,
            Variant::Neutral => "neutral"@,
            Variant::TonalSpot => "tonal_spot"@,
            Variant::Vibrant => "vibrant"@,
            Variant::Fidelity => "fidelity"@,
            Variant::FruitSalad => "fruit_salad"@,
            Variant::Rainbow => "rainbow"@,
        }
    }

    /// The name that selects this variant, in lower case.
    pub fn name(self) -> (name: &'static str)
        ensures
            name@ == self.name_text(),
    {
        match self {
            Variant::Content => "content",
            Variant::Expressive => "expresive",
            Variant::Monochrome => "monochrome",
            Variant::Neutral => "neutral",
            Variant::TonalSpot => "tonal_spot",
            Variant::Vibrant => "vibrant",
            Variant::Fidelity => "fidelity",
            Variant::FruitSalad => "fruit_salad",
            Variant::Rainbow => "rainbow",
        }
    }
}

/// The variant whose name `text` is, whatever the case of its letters.
pub open spec fn named_variant(text: Seq<char>) -> Option<Variant> {
    let folded = to_lower(text);
    if folded == Variant::Content.name_text() {
        Some(Variant::Content)
    } else if folded == Variant::Expressive.name_text() {
        Some(Variant::Expressive)
    } else if folded == Variant::Monochrome.name_text() {
        Some(Variant::Monochrome)
    } else if folded == Variant::Neutral.name_text() {
        Some(Variant::Neutral)
    } else if folded == Variant::TonalSpot.name_text() {
        Some(Variant::TonalSpot)
    } else if folded == Variant::Vibrant.name_text() {
        Some(Variant::Vibrant)
    } else if folded == Variant::Fidelity.name_text() {
        Some(Variant::Fidelity)
    } else if folded == Variant::FruitSalad.name_text() {
        Some(Variant::FruitSalad)
    } else if folded == Variant::Rainbow.name_text() {
        Some(Variant::Rainbow)
    } else {
        None
    }
}

/// What parsing yields for a name, or for none: the variant it names, else
/// the default together with a notice.
pub open spec fn parsed_variant(text: Option<Seq<char>>) -> ParsedVariant {
    match text {
        Some(text) => match named_variant(text) {
            Some(variant) => ParsedVariant { variant, notice: None },
            None => ParsedVariant {
                variant: DEFAULT_VARIANT,
                notice: Some(Notice::DefaultVariant),
            },
        },
        None => ParsedVariant { variant: DEFAULT_VARIANT, notice: Some(Notice::DefaultVariant) },
    }
}

/// The names of the variants are made of lower-case ASCII letters and
/// underscores, and no two of them are the same.
pub proof fn lemma_variant_names(a: Variant, b: Variant)
    ensures
        is_ascii_chars(a.name_text()),
        to_lower(a.name_text()) == a.name_text(),
        a.name_text() == b.name_text() ==> a == b,
{
    reveal_strlit("content");
    reveal_strlit("expresive");
    reveal_strlit("monochrome");
    reveal_strlit("neutral");
    reveal_strlit("tonal_spot");
    reveal_strlit("vibrant");
    reveal_strlit("fidelity");
    reveal_strlit("fruit_salad");
    reveal_strlit("rainbow");
    assert(to_lower(a.name_text()) =~= a.name_text());
    if a != b && a.name_text().len() == b.name_text().len() {
        assert(a.name_text()[0] != b.name_text()[0]);
    }
}

/// A text names a variant exactly where, with its capitals folded, it reads
/// as the variant's name; so every variant is found by its name in any case
/// of the letters, and by no other text.
pub proof fn lemma_named_variant(text: Seq<char>, variant: Variant)
    ensures
        named_variant(text) == Some(variant) <==> to_lower(text) == variant.name_text(),
{
    lemma_variant_names(variant, Variant::Content);
    lemma_variant_names(variant, Variant::Expressive);
    lemma_variant_names(variant, Variant::Monochrome);
    lemma_variant_names(variant, Variant::Neutral);
    lemma_variant_names(variant, Variant::TonalSpot);
    lemma_variant_names(variant, Variant::Vibrant);
    lemma_variant_names(variant, Variant::Fidelity);
    lemma_variant_names(variant, Variant::FruitSalad);
    lemma_variant_names(variant, Variant::Rainbow);
}

/// Parsing a text yields the variant that it names, without a notice; where
/// it names none, the default variant with the notice. No text at all counts
/// as one that names none.
pub proof fn lemma_parsed_variant(text: Option<Seq<char>>)
    ensures
        forall|variant: Variant|
            text is Some && to_lower(text->0) == #[trigger] variant.name_text() ==> parsed_variant(
                text,
            ) == (ParsedVariant { variant, notice: None }),
        text is None || (forall|variant: Variant|
            to_lower(text->0) != #[trigger] variant.name_text()) ==> parsed_variant(text) == (
        ParsedVariant { variant: Variant::TonalSpot, notice: Some(Notice::DefaultVariant) }),
{
    if text is Some {
        assert forall|variant: Variant|
            to_lower(text->0) == #[trigger] variant.name_text() implies parsed_variant(text) == (
        ParsedVariant { variant, notice: None }) by {
            lemma_named_variant(text->0, variant);
        }
    }
}

/// Parses the name of a variant, whatever the case of its letters. A text
/// that names none falls back to the default variant, with a notice.
pub fn parse_variant(variant_string: String) -> (parsed: ParsedVariant)
    ensures
        parsed == parsed_variant(Some(variant_string@)),
{
    let text = variant_string.as_str();
    let candidates = [
        Variant::Content,
        Variant::Expressive,
        Variant::Monochrome,
        Variant::Neutral,
        Variant::TonalSpot,
        Variant::Vibrant,
        Variant::Fidelity,
        Variant::FruitSalad,
        Variant::Rainbow,
    ];
    let mut i: usize = 0;
    while i < 9
        invariant
            i <= 9,
            text@ == variant_string@,
            candidates@ == seq![
                Variant::Content,
                Variant::Expressive,
                Variant::Monochrome,
                Variant::Neutral,
                Variant::TonalSpot,
                Variant::Vibrant,
                Variant::Fidelity,
                Variant::FruitSalad,
                Variant::Rainbow,
            ],
            forall|k: int| 0 <= k < i ==> to_lower(text@) != (#[trigger] candidates@[k]).name_text(),
        decreases 9 - i,
    {
        let candidate = candidates[i];
        proof {
            lemma_variant_names(candidate, candidate);
        }
        if folds_to(text, candidate.name()) {
            proof {
                lemma_named_variant(text@, candidate);
            }
            return ParsedVariant { variant: candidate, notice: None };
        }
        i += 1;
    }
    proof {
        assert forall|variant: Variant| to_lower(text@) != #[trigger] variant.name_text() by {
            let k: int = match variant {
                Variant::Content => 0,
                Variant::Expressive => 1,
                Variant::Monochrome => 2,
                Variant::Neutral => 3,
                Variant::TonalSpot => 4,
                Variant::Vibrant => 5,
                Variant::Fidelity => 6,
                Variant::FruitSalad => 7,
                Variant::Rainbow => 8,
            };
            assert(candidates@[k] == variant);
        }
    }
    ParsedVariant { variant: DEFAULT_VARIANT, notice: Some(Notice::DefaultVariant) }
}

/// Resolves the variant of a run from the argument that may name it. No
/// argument is treated as a name that is not recognised.
pub fn resolve_variant(argument: Option<String>) -> (parsed: ParsedVariant)
    ensures
        parsed == parsed_variant(
            match argument {
                Some(text) => Some(text@),
                None => None,
            },
        ),
{
    match argument {
        Some(text) => parse_variant(text),
        None => ParsedVariant { variant: DEFAULT_VARIANT, notice: Some(Notice::DefaultVariant) },
    }
}

} // verus!
