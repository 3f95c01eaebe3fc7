//! The closed set of composite variants and their names.

use vstd::prelude::*;
use vstd::string::*;

verus! {

/// One of the four colour composites that can be derived from a product.
#[derive(Clone, Copy, Debug, PartialEq, Eq, Structural)]
pub enum FilterVariant {
    TrueColor,
    FalseColor,
    Ndwi,
    Swir,
}

/// The name under which a variant is requested and stored.
pub open spec fn name_of(v: FilterVariant) -> Seq<char> {
    match v {
        FilterVariant::TrueColor => "True Color"@,
        FilterVariant::FalseColor => "False Color"@,
        FilterVariant::Ndwi => "NDWI"@,
        FilterVariant::Swir => "SWIR"@,
    }
}

/// The variant that a name asks for: the true-colour composite unless the
/// name is that of another variant.
pub open spec fn variant_named(name: Seq<char>) -> FilterVariant {
    if name == "False Color"@ {
        FilterVariant::FalseColor
    } else if name == "NDWI"@ {
        FilterVariant::Ndwi
    } else if name == "SWIR"@ {
        FilterVariant::Swir
    } else {
        FilterVariant::TrueColor
    }
}

/// The four variants in the order in which they are listed.
pub open spec fn all_variants() -> Seq<FilterVariant> {
    seq![
        FilterVariant::TrueColor,
        FilterVariant::FalseColor,
        FilterVariant::Ndwi,
        FilterVariant::Swir,
    ]
}

/// The variants other than `v`, in the order in which they are listed.
pub open spec fn siblings_of(v: FilterVariant) -> Seq<FilterVariant> {
    match v {
        FilterVariant::TrueColor => seq![
            FilterVariant::FalseColor,
            FilterVariant::Ndwi,
            FilterVariant::Swir,
        ],
        FilterVariant::FalseColor => seq![
            FilterVariant::TrueColor,
            FilterVariant::Ndwi,
            FilterVariant::Swir,
        ],
        FilterVariant::Ndwi => seq![
            FilterVariant::TrueColor,
            FilterVariant::FalseColor,
            FilterVariant::Swir,
        ],
        FilterVariant::Swir => seq![
            FilterVariant::TrueColor,
            FilterVariant::FalseColor,
            FilterVariant::Ndwi,
        ],
    }
}

impl FilterVariant {
    /// The name under which the variant is requested and stored.
    pub fn name(self) -> (r: &'static str)
        ensures
            r@ == name_of(self),
    {
        match self {
            FilterVariant::TrueColor => "True Color",
            FilterVariant::FalseColor => "False Color",
            FilterVariant::Ndwi => "NDWI",
            FilterVariant::Swir => "SWIR",
        }
    }

    /// The variant that a name asks for. A name that is not the name of a
    /// variant asks for the true-colour composite.
    pub fn from_name(name: &str) -> (r: FilterVariant)
        ensures
            r == variant_named(name@),
    {
        let given = String::from_str(name);
        if given == String::from_str("False Color") {
            FilterVariant::FalseColor
        } else if given == String::from_str("NDWI") {
            FilterVariant::Ndwi
        } else if given == String::from_str("SWIR") {
            FilterVariant::Swir
        } else {
            FilterVariant::TrueColor
        }
    }

    /// The four variants in the order in which they are listed.
    pub fn all() -> (r: Vec<FilterVariant>)
        ensures
            r@ == all_variants(),
    {
        let mut r: Vec<FilterVariant> = Vec::with_capacity(4);
        r.push(FilterVariant::TrueColor);
        r.push(FilterVariant::FalseColor);
        r.push(FilterVariant::Ndwi);
        r.push(FilterVariant::Swir);
        r
    }

    /// The variants other than this one, in the order in which they are
    /// listed.
    pub fn siblings(self) -> (r: Vec<FilterVariant>)
        ensures
            r@ == siblings_of(self),
    {
        let (a, b, c) = match self {
            FilterVariant::TrueColor => (
                FilterVariant::FalseColor,
                FilterVariant::Ndwi,
                FilterVariant::Swir,
            ),
            FilterVariant::FalseColor => (
                FilterVariant::TrueColor,
                FilterVariant::Ndwi,
                FilterVariant::Swir,
            ),
            FilterVariant::Ndwi => (
                FilterVariant::TrueColor,
                FilterVariant::FalseColor,
                FilterVariant::Swir,
            ),
            FilterVariant::Swir => (
                FilterVariant::TrueColor,
                FilterVariant::FalseColor,
                FilterVariant::Ndwi,
            ),
        };
        let mut r: Vec<FilterVariant> = Vec::with_capacity(3);
        r.push(a);
        r.push(b);
        r.push(c);
        r
    }
}

/// Each variant is the one that its own name asks for.
pub proof fn lemma_name_round_trip(v: FilterVariant)
    ensures
        variant_named(name_of(v)) == v,
{
    reveal_strlit("True Color");
    reveal_strlit("False Color");
    reveal_strlit("NDWI");
    reveal_strlit("SWIR");
    assert("True Color"@.len() == 10);
    assert("False Color"@.len() == 11);
    assert("NDWI"@[0] == 'N');
}

/// The siblings of a variant are the three other variants: every variant but
/// the one itself is among them, and the one itself is not.
pub proof fn lemma_siblings(v: FilterVariant, w: FilterVariant)
    ensures
        siblings_of(v).len() == 3,
        siblings_of(v).contains(w) <==> w != v,
{
}

} // verus!
