//! The planet entity model owned by the planets service.
//!
//! A planet carries an opaque string identifier, a name, a closed type
//! enumeration and a polymorphic `details` payload: a tagged union whose two
//! variants both expose `mean_radius` and `mass` through the shared details
//! interface, while `population` exists only on the inhabited variant. The
//! variant is fixed at creation and never migrates.
use vstd::prelude::*;

use crate::numtext::text_eq;
use crate::scalar::{BigDecimal, BigInt};

verus! {

/// The closed enumeration of planet kinds, from an astronomical point of
/// view. Stored as text at the persistence boundary; the two mappings below
/// are the single bidirectional table for it.
#[derive(Clone, Copy, PartialEq, Eq, Structural, Debug)]
pub enum PlanetType {
    TerrestrialPlanet,
    GasGiant,
    IceGiant,
    DwarfPlanet,
}

/// The text each planet kind is stored as.
pub open spec fn spec_planet_type_text(t: PlanetType) -> Seq<char> {
    match t {
        PlanetType::TerrestrialPlanet => "TerrestrialPlanet"@,
        PlanetType::GasGiant => "GasGiant"@,
        PlanetType::IceGiant => "IceGiant"@,
        PlanetType::DwarfPlanet => "DwarfPlanet"@,
    }
}

/// The planet kind a stored text denotes, if any.
pub open spec fn spec_planet_type_from(s: Seq<char>) -> Option<PlanetType> {
    if s == "TerrestrialPlanet"@ {
        Some(PlanetType::TerrestrialPlanet)
    } else if s == "GasGiant"@ {
        Some(PlanetType::GasGiant)
    } else if s == "IceGiant"@ {
        Some(PlanetType::IceGiant)
    } else if s == "DwarfPlanet"@ {
        Some(PlanetType::DwarfPlanet)
    } else {
        None
    }
}

impl PlanetType {
    /// Renders the kind as the text it is stored under.
    pub fn as_text(&self) -> (r: String)
        ensures
            r@ == spec_planet_type_text(*self),
    {
        match self {
            PlanetType::TerrestrialPlanet => "TerrestrialPlanet".to_owned(),
            PlanetType::GasGiant => "GasGiant".to_owned(),
            PlanetType::IceGiant => "IceGiant".to_owned(),
            PlanetType::DwarfPlanet => "DwarfPlanet".to_owned(),
        }
    }

    /// Reads a stored text back as a kind; an unrecognized text is refused
    /// loudly (`None`), never defaulted.
    pub fn from_text(s: &str) -> (r: Option<PlanetType>)
        ensures
            r == spec_planet_type_from(s@),
    {
        if text_eq(s, "TerrestrialPlanet") {
            Some(PlanetType::TerrestrialPlanet)
        } else if text_eq(s, "GasGiant") {
            Some(PlanetType::GasGiant)
        } else if text_eq(s, "IceGiant") {
            Some(PlanetType::IceGiant)
        } else if text_eq(s, "DwarfPlanet") {
            Some(PlanetType::DwarfPlanet)
        } else {
            None
        }
    }
}

/// Law (enum-text round trip): reading back the text a kind is stored under
/// yields that kind again, for every kind.
pub proof fn lemma_planet_type_text_round_trip(t: PlanetType)
    ensures
        spec_planet_type_from(spec_planet_type_text(t)) == Some(t),
{
    reveal_strlit("TerrestrialPlanet");
    reveal_strlit("GasGiant");
    reveal_strlit("IceGiant");
    reveal_strlit("DwarfPlanet");
    assert("TerrestrialPlanet"@.len() == 17);
    assert("GasGiant"@.len() == 8);
    assert("IceGiant"@.len() == 8);
    assert("DwarfPlanet"@.len() == 11);
    assert("GasGiant"@[0] == 'G' && "IceGiant"@[0] == 'I');
}

/// Details of a planet with no known life: the shared interface fields only.
pub struct UninhabitedPlanetDetails {
    pub mean_radius: BigDecimal,
    pub mass: BigInt,
}

impl UninhabitedPlanetDetails {
    pub fn mean_radius(&self) -> (r: &BigDecimal)
        ensures
            *r == self.mean_radius,
    {
        &self.mean_radius
    }

    pub fn mass(&self) -> (r: &BigInt)
        ensures
            *r == self.mass,
    {
        &self.mass
    }
}

/// Details of an inhabited planet: the shared interface fields and the
/// population, expressed in billions.
pub struct InhabitedPlanetDetails {
    pub mean_radius: BigDecimal,
    pub mass: BigInt,
    /// In billions.
    pub population: BigDecimal,
}

impl InhabitedPlanetDetails {
    pub fn mean_radius(&self) -> (r: &BigDecimal)
        ensures
            *r == self.mean_radius,
    {
        &self.mean_radius
    }

    pub fn mass(&self) -> (r: &BigInt)
        ensures
            *r == self.mass,
    {
        &self.mass
    }

    /// In billions. Exists only on this variant: reaching a population
    /// through the details interface is impossible by construction.
    pub fn population(&self) -> (r: &BigDecimal)
        ensures
            *r == self.population,
    {
        &self.population
    }
}

/// The polymorphic details payload: a tagged union of two mutually exclusive
/// variants. Interface reads dispatch on the tag, so a caller going through
/// the interface never needs the concrete variant to read radius or mass.
pub enum Details {
    InhabitedPlanetDetails(InhabitedPlanetDetails),
    UninhabitedPlanetDetails(UninhabitedPlanetDetails),
}

impl Details {
    /// The mean radius either variant exposes.
    pub open spec fn spec_mean_radius(self) -> BigDecimal {
        match self {
            Details::InhabitedPlanetDetails(d) => d.mean_radius,
            Details::UninhabitedPlanetDetails(d) => d.mean_radius,
        }
    }

    /// The mass either variant exposes.
    pub open spec fn spec_mass(self) -> BigInt {
        match self {
            Details::InhabitedPlanetDetails(d) => d.mass,
            Details::UninhabitedPlanetDetails(d) => d.mass,
        }
    }

    /// Interface read of the mean radius, dispatching on the variant tag.
    pub fn mean_radius(&self) -> (r: &BigDecimal)
        ensures
            *r == self.spec_mean_radius(),
    {
        match self {
            Details::InhabitedPlanetDetails(d) => &d.mean_radius,
            Details::UninhabitedPlanetDetails(d) => &d.mean_radius,
        }
    }

    /// Interface read of the mass, dispatching on the variant tag.
    pub fn mass(&self) -> (r: &BigInt)
        ensures
            *r == self.spec_mass(),
    {
        match self {
            Details::InhabitedPlanetDetails(d) => &d.mass,
            Details::UninhabitedPlanetDetails(d) => &d.mass,
        }
    }
}

/// Law (details interface): reading radius and mass through the interface
/// yields the same values as reading the inhabited concrete variant
/// directly.
pub proof fn lemma_details_interface_inhabited(d: InhabitedPlanetDetails)
    ensures
        Details::InhabitedPlanetDetails(d).spec_mean_radius() == d.mean_radius,
        Details::InhabitedPlanetDetails(d).spec_mass() == d.mass,
{
}

/// Law (details interface): the same agreement for the uninhabited variant.
pub proof fn lemma_details_interface_uninhabited(d: UninhabitedPlanetDetails)
    ensures
        Details::UninhabitedPlanetDetails(d).spec_mean_radius() == d.mean_radius,
        Details::UninhabitedPlanetDetails(d).spec_mass() == d.mass,
{
}

/// A planet owned by the planets service. The details variant is fixed at
/// creation and never changes shape.
pub struct Planet {
    pub id: String,
    pub name: String,
    pub planet_type: PlanetType,
    pub details: Details,
}

impl Planet {
    pub fn id(&self) -> (r: &String)
        ensures
            *r == self.id,
    {
        &self.id
    }

    pub fn name(&self) -> (r: &String)
        ensures
            *r == self.name,
    {
        &self.name
    }

    /// From an astronomical point of view.
    pub fn planet_type(&self) -> (r: &PlanetType)
        ensures
            *r == self.planet_type,
    {
        &self.planet_type
    }

    /// Deprecated: now it is not in doubt; do not use this field. Kept for
    /// backward schema compatibility, and still a contract surface: it
    /// returns true for every planet, regardless of any other field value.
    pub fn is_rotating_around_sun(&self) -> (r: bool)
        ensures
            r == true,
    {
        true
    }

    pub fn details(&self) -> (r: &Details)
        ensures
            *r == self.details,
    {
        &self.details
    }
}

/// Client input for a mass in scientific-notation style. The significand is
/// an IEEE single-precision value, carried here by its bit pattern so the
/// input shape stays plain data; the exponent is a signed power of ten.
/// Used only as input; never appears as output.
#[derive(Clone, Copy, PartialEq, Eq, Structural, Debug)]
pub struct MassInput {
    pub number_bits: u32,
    pub ten_power: i8,
}

/// Client-supplied payload for creating or updating details. Only defines
/// the accepted shape; persistence wiring is an external concern.
pub struct DetailsInput {
    pub mean_radius: BigDecimal,
    pub mass: MassInput,
    pub population: Option<BigDecimal>,
}

} // verus!
