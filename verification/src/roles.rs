//! The colour role table: the fixed, ordered list of role names that every
//! scheme is expected to cover and that every rendered document follows.

use vstd::prelude::*;

verus! {

/// The number of roles in the table.
pub const ROLE_COUNT: usize = 49;

/// The role names, in the order in which documents list them.
pub const ROLE_TABLE: [&'static str; 49] = [
    "primary",
    "on_primary",
    "primary_container",
    "on_primary_container",
    "inverse_primary",
    "primary_fixed",
    "primary_fixed_dim",
    "on_primary_fixed",
    "on_primary_fixed_variant",
    "secondary",
    "on_secondary",
    "secondary_container",
    "on_secondary_container",
    "secondary_fixed",
    "secondary_fixed_dim",
    "on_secondary_fixed",
    "on_secondary_fixed_variant",
    "tertiary",
    "on_tertiary",
    "tertiary_container",
    "on_tertiary_container",
    "tertiary_fixed",
    "tertiary_fixed_dim",
    "on_tertiary_fixed",
    "on_tertiary_fixed_variant",
    "error",
    "on_error",
    "error_container",
    "on_error_container",
    "surface_dim",
    "surface",
    "surface_tint",
    "surface_bright",
    "surface_container_lowest",
    "surface_container_low",
    "surface_container",
    "surface_container_high",
    "surface_container_highest",
    "on_surface",
    "on_surface_variant",
    "outline",
    "outline_variant",
    "inverse_surface",
    "inverse_on_surface",
    "surface_variant",
    "background",
    "on_background",
    "shadow",
    "scrim",
];

/// The name of the role at `index` of the table.
pub open spec fn role_name_at(index: int) -> Seq<char> {
    ROLE_TABLE@[index]@
}

/// The name of the role at `index` of the table.
pub fn role_name(index: usize) -> (name: &'static str)
    requires
        index < ROLE_COUNT,
    ensures
        name@ == role_name_at(index as int),
{
    ROLE_TABLE[index]
}

} // verus!
