//! The records that the generators produce, and what holds of every one of them.
use vstd::prelude::*;
use vstd::string::*;

verus! {

/// Whether the mainworld is a planet of the primary or a satellite of such a planet.
#[derive(Clone, Copy, Debug, PartialEq, Eq, Structural)]
pub enum MainWorldType {
    Planet,
    /// A satellite in one of the close orbits, 1 to 11, around its planet.
    CloseSatellite(u8),
    /// A satellite in one of the far orbits, 14 to 24, around its planet.
    FarSatellite(u8),
}

/// A base that a world may host.
#[derive(Clone, Copy, Debug, PartialEq, Eq, Structural)]
pub enum Base {
    Naval,
    Scout,
}

/// How safe it is to travel to a world.
#[derive(Clone, Copy, Debug, PartialEq, Eq, Structural)]
pub enum TravelZone {
    Green,
    Amber,
    Red,
}

/// The code of a starport class: its letter and nothing else.
pub open spec fn port_code(class: char) -> Seq<char> {
    seq![class]
}

/// Whether `port` is the code of starport class `class`.
pub open spec fn is_port_code(port: Seq<char>, class: char) -> bool {
    port.len() == 1 && port[0] == class
}

/// Tells whether `port` is the code of starport class `class`.
pub fn is_port(port: &str, class: char) -> (same: bool)
    ensures
        same == is_port_code(port@, class),
        same == (port@ == port_code(class)),
{
    let same = port.unicode_len() == 1 && port.get_char(0) == class;
    assert(same == (port@ =~= port_code(class)));
    same
}

/// The travel zone of a world with this starport, government and law level: red
/// without a starport or where government and law level come to 22 up to 32, amber where
/// they come to 20 or 21, and green otherwise.
pub open spec fn travel_zone_of(port: Seq<char>, government: int, law: int) -> TravelZone {
    if is_port_code(port, 'X') || 22 <= government + law <= 32 {
        TravelZone::Red
    } else if government + law == 20 || government + law == 21 {
        TravelZone::Amber
    } else {
        TravelZone::Green
    }
}

/// One generated world.
#[derive(Clone, Debug, PartialEq, Eq)]
pub struct World {
    pub mainworld_type: MainWorldType,
    /// By how much the world lies off the habitable zone of its star.
    pub hz_variance: i32,
    /// The orbit around the star, counted from 0.
    pub orbit: i32,
    /// The code of the starport class: A, the best, to E, or X where there is none.
    pub port: String,
    /// The bases, each at most once, the naval base first.
    pub bases: Vec<Base>,
    /// 0 for an asteroid belt, else 1 to 15.
    pub size: i32,
    pub atmosphere: i32,
    pub hydrographics: i32,
    pub population: i32,
    /// A digit from 1 to 9 that is drawn apart from the population, or 0 for an empty world.
    pub population_digit: i32,
    pub government: i32,
    pub law: i32,
    pub tech: i32,
    pub travel_zone: TravelZone,
}

/// A world as a mathematical value.
pub struct WorldView {
    pub mainworld_type: MainWorldType,
    pub hz_variance: int,
    pub orbit: int,
    pub port: Seq<char>,
    pub bases: Seq<Base>,
    pub size: int,
    pub atmosphere: int,
    pub hydrographics: int,
    pub population: int,
    pub population_digit: int,
    pub government: int,
    pub law: int,
    pub tech: int,
    pub travel_zone: TravelZone,
}

impl View for World {
    type V = WorldView;

    open spec fn view(&self) -> WorldView {
        WorldView {
            mainworld_type: self.mainworld_type,
            hz_variance: self.hz_variance as int,
            orbit: self.orbit as int,
            port: self.port@,
            bases: self.bases@,
            size: self.size as int,
            atmosphere: self.atmosphere as int,
            hydrographics: self.hydrographics as int,
            population: self.population as int,
            population_digit: self.population_digit as int,
            government: self.government as int,
            law: self.law as int,
            tech: self.tech as int,
            travel_zone: self.travel_zone,
        }
    }
}

impl WorldView {
    /// What holds of every generated world.
    pub open spec fn well_formed(self) -> bool {
        &&& match self.mainworld_type {
            MainWorldType::Planet => true,
            MainWorldType::CloseSatellite(orbit) => 1 <= orbit <= 11,
            MainWorldType::FarSatellite(orbit) => 14 <= orbit <= 24,
        }
        &&& self.orbit >= 0
        &&& (is_port_code(self.port, 'A') || is_port_code(self.port, 'B') || is_port_code(
            self.port,
            'C',
        ) || is_port_code(self.port, 'D') || is_port_code(self.port, 'E') || is_port_code(
            self.port,
            'X',
        ))
        &&& (self.bases == Seq::<Base>::empty() || self.bases == seq![Base::Naval] || self.bases
            == seq![Base::Scout] || self.bases == seq![Base::Naval, Base::Scout])
        &&& (self.bases.contains(Base::Naval) ==> is_port_code(self.port, 'A') || is_port_code(
            self.port,
            'B',
        ))
        &&& (self.bases.contains(Base::Scout) ==> !is_port_code(self.port, 'E') && !is_port_code(
            self.port,
            'X',
        ))
        &&& 0 <= self.size <= 15
        &&& 0 <= self.atmosphere <= 15
        &&& 0 <= self.hydrographics <= 10
        &&& 0 <= self.population <= 15
        &&& 0 <= self.population_digit <= 9
        &&& 0 <= self.government <= 15
        &&& 0 <= self.law <= 18
        &&& 0 <= self.tech <= 33
        &&& (self.size == 0 ==> self.atmosphere == 0)
        &&& (self.size <= 1 ==> self.hydrographics == 0)
        &&& (self.population == 0 ==> self.population_digit == 0 && self.government == 0
            && self.law == 0)
        &&& (self.population > 0 ==> self.population_digit >= 1)
        &&& self.travel_zone == travel_zone_of(self.port, self.government, self.law)
    }
}

/// One generated star system. What a star is is left to whoever generates the stars.
#[derive(Clone, Debug, PartialEq, Eq)]
pub struct System<S> {
    pub stars: Vec<S>,
    pub mainworld: World,
    /// The number of asteroid belts, 0 to 3.
    pub belts: i32,
    /// The number of gas giants, 0 to 4.
    pub gas_giants: i32,
}

} // verus!
