//! Star systems: the dice tables that roll one, its profile, and the profile's text code.

use crate::draws::DiceSource;
use crate::text::{decimal, is_digit, lemma_decimal_shape, push_char, push_decimal};
use crate::util::{
    clamp, clamped, dice, grew_by, lemma_roll_total_bounds, lemma_roll_total_same, roll_total,
    same_draws,
};
use std::collections::HashMap;
use vstd::prelude::*;
use vstd::relations::injective_on;
use vstd::set_lib::lemma_map_size;

verus! {

/// Index into a star map: row first, then column, both counted from 1.
pub type RowCol = (usize, usize);

/// What a star system is, as numbers: the model that contracts speak of.
pub struct Profile {
    pub size: int,
    pub atmosphere: int,
    pub hydrographics: int,
    pub population: int,
    pub government: int,
    pub law_level: int,
    pub technology: int,
    pub starport: char,
}

/// A generated star system. Its attributes are fixed once it is rolled.
#[derive(Clone, Copy, Debug)]
pub struct StarSystem {
    size: isize,
    atmosphere: isize,
    hydrographics: isize,
    population: isize,
    government: isize,
    law_level: isize,
    technology: isize,
    starport: char,
}

/// One of the six starport classes.
pub open spec fn is_starport_class(c: char) -> bool {
    c == 'A' || c == 'B' || c == 'C' || c == 'D' || c == 'E' || c == 'X'
}

/// Every attribute lies in the range that the world tables give it.
pub open spec fn in_range(p: Profile) -> bool {
    &&& 0 <= p.size <= 10
    &&& 0 <= p.atmosphere <= 15
    &&& 0 <= p.hydrographics <= 10
    &&& 0 <= p.population <= 10
    &&& 0 <= p.government <= 13
    &&& 0 <= p.law_level <= 15
    &&& 0 <= p.technology <= 99
    &&& is_starport_class(p.starport)
}

/// The starport table, one row for each throw from 2 to 11, ordered by throw.
pub open spec fn starport_rows() -> Seq<(usize, char)> {
    seq![
        (2usize, 'X'),
        (3usize, 'E'),
        (4usize, 'E'),
        (5usize, 'D'),
        (6usize, 'D'),
        (7usize, 'C'),
        (8usize, 'C'),
        (9usize, 'B'),
        (10usize, 'B'),
        (11usize, 'A'),
    ]
}

/// The starport class for a throw: 2 and below gives X, 3 and 4 give E, 5 and 6 give D,
/// 7 and 8 give C, 9 and 10 give B, 11 and above gives A.
pub open spec fn starport_for(throw: int) -> char {
    if throw <= 2 {
        'X'
    } else if throw <= 4 {
        'E'
    } else if throw <= 6 {
        'D'
    } else if throw <= 8 {
        'C'
    } else if throw <= 10 {
        'B'
    } else {
        'A'
    }
}

/// How good a starport is, from none (X) up to the best (A).
pub open spec fn starport_rank(class: char) -> int {
    if class == 'A' {
        5
    } else if class == 'B' {
        4
    } else if class == 'C' {
        3
    } else if class == 'D' {
        2
    } else if class == 'E' {
        1
    } else {
        0
    }
}

/// A higher throw never gives a worse starport, every throw gives one of the six classes,
/// and each row of the table holds the class of its throw.
pub proof fn lemma_starport_table(low: int, high: int)
    requires
        low <= high,
    ensures
        starport_rank(starport_for(low)) <= starport_rank(starport_for(high)),
        is_starport_class(starport_for(low)),
        forall|i: int|
            0 <= i < starport_rows().len() ==> starport_for((#[trigger] starport_rows()[i]).0 as int)
                == starport_rows()[i].1,
{
    assert forall|i: int| 0 <= i < starport_rows().len() implies starport_for(
        (#[trigger] starport_rows()[i]).0 as int,
    ) == starport_rows()[i].1 by {
        assert(starport_rows()[i].0 == i + 2);
    }
}

/// What the starport adds to the technology throw.
pub open spec fn starport_bonus(starport: char) -> int {
    if starport == 'A' {
        6
    } else if starport == 'B' {
        4
    } else if starport == 'C' {
        2
    } else {
        0
    }
}

/// What the size adds to the technology throw.
pub open spec fn size_bonus(size: int) -> int {
    if size == 0 || size == 1 {
        2
    } else if 2 <= size <= 4 {
        1
    } else {
        0
    }
}

/// What the atmosphere adds to the technology throw.
pub open spec fn atmosphere_bonus(atmosphere: int) -> int {
    if 0 <= atmosphere <= 3 || 10 <= atmosphere <= 15 {
        1
    } else {
        0
    }
}

/// What the hydrographics add to the technology throw.
pub open spec fn hydrographics_bonus(hydrographics: int) -> int {
    if hydrographics == 0 || hydrographics == 9 {
        1
    } else if hydrographics == 10 {
        2
    } else {
        0
    }
}

/// What the population adds to the technology throw.
pub open spec fn population_bonus(population: int) -> int {
    if 1 <= population <= 5 || population == 9 {
        1
    } else if population == 10 {
        2
    } else if population == 11 {
        3
    } else if population == 12 {
        4
    } else {
        0
    }
}

/// What the government adds to the technology throw, or takes from it.
pub open spec fn government_bonus(government: int) -> int {
    if government == 0 || government == 5 {
        1
    } else if government == 7 {
        2
    } else if government == 13 || government == 14 {
        -2
    } else {
        0
    }
}

/// What the attributes of a world add to its technology throw.
pub open spec fn technology_modifier(
    starport: char,
    size: int,
    atmosphere: int,
    hydrographics: int,
    population: int,
    government: int,
) -> int {
    starport_bonus(starport) + size_bonus(size) + atmosphere_bonus(atmosphere)
        + hydrographics_bonus(hydrographics) + population_bonus(population) + government_bonus(
        government,
    )
}

/// The technology level: one die plus the modifiers, kept between 0 and 99.
pub open spec fn technology_for(
    throw: int,
    starport: char,
    size: int,
    atmosphere: int,
    hydrographics: int,
    population: int,
    government: int,
) -> int {
    clamped(
        throw + technology_modifier(
            starport,
            size,
            atmosphere,
            hydrographics,
            population,
            government,
        ),
        0,
        99,
    )
}

/// A world this small, or this small and airless, holds no water: nothing is rolled for it.
pub open spec fn hydrographics_is_fixed(size: int, atmosphere: int) -> bool {
    size == 0 || (size == 1 && atmosphere == 0)
}

/// What size and atmosphere add to the hydrographics throw.
pub open spec fn hydrographics_modifier(size: int, atmosphere: int) -> int {
    if atmosphere == 0 || atmosphere == 1 || 10 <= atmosphere <= 12 {
        -7 + size - 4
    } else {
        -7 + size
    }
}

/// How many faces a system takes from the stream when `drawn` holds them from `at` on.
pub open spec fn rolled_draws(drawn: Seq<int>, at: int) -> int {
    let size = clamped(roll_total(drawn, at, 2) - 2, 0, 10);
    let atmosphere = clamped(roll_total(drawn, at + 2, 2) - 7 + size, 0, 15);
    if hydrographics_is_fixed(size, atmosphere) {
        13
    } else {
        15
    }
}

/// The system that comes of the faces that `drawn` holds from `at` on.
pub open spec fn rolled_profile(drawn: Seq<int>, at: int) -> Profile {
    let size = clamped(roll_total(drawn, at, 2) - 2, 0, 10);
    let atmosphere = clamped(roll_total(drawn, at + 2, 2) - 7 + size, 0, 15);
    let fixed = hydrographics_is_fixed(size, atmosphere);
    let hydrographics = if fixed {
        0
    } else {
        clamped(
            roll_total(drawn, at + 4, 2) + hydrographics_modifier(size, atmosphere),
            0,
            10,
        )
    };
    let next = if fixed {
        at + 4
    } else {
        at + 6
    };
    let population = clamped(roll_total(drawn, next, 2) - 2, 0, 10);
    let government = clamped(roll_total(drawn, next + 2, 2) - 7 + population, 0, 13);
    let law_level = clamped(roll_total(drawn, next + 4, 2) - 7 + government, 0, 15);
    let starport = starport_for(clamped(roll_total(drawn, next + 6, 2), 2, 11));
    let technology = technology_for(
        roll_total(drawn, next + 8, 1),
        starport,
        size,
        atmosphere,
        hydrographics,
        population,
        government,
    );
    Profile {
        size,
        atmosphere,
        hydrographics,
        population,
        government,
        law_level,
        technology,
        starport,
    }
}

/// The text code of a profile: starport, a dash, the six world attributes in decimal one
/// after the other, a dash, and the technology level.
pub open spec fn encoded(p: Profile) -> Seq<char> {
    seq![p.starport, '-'] + decimal(p.size as nat) + decimal(p.atmosphere as nat) + decimal(
        p.hydrographics as nat,
    ) + decimal(p.population as nat) + decimal(p.government as nat) + decimal(p.law_level as nat)
        + seq!['-'] + decimal(p.technology as nat)
}

/// Whatever the dice show, every attribute of the system they give lies in its range.
pub proof fn lemma_rolled_profile_in_range(drawn: Seq<int>, at: int)
    ensures
        in_range(rolled_profile(drawn, at)),
        rolled_draws(drawn, at) == 13 || rolled_draws(drawn, at) == 15,
        rolled_profile(drawn, at).size == 0 ==> {
            &&& rolled_profile(drawn, at).hydrographics == 0
            &&& rolled_draws(drawn, at) == 13
        },
{
}

/// The attributes of a world move its technology throw down by at most 2 and up by at most 17.
pub proof fn lemma_technology_modifier_bounds(
    starport: char,
    size: int,
    atmosphere: int,
    hydrographics: int,
    population: int,
    government: int,
)
    ensures
        -2 <= technology_modifier(
            starport,
            size,
            atmosphere,
            hydrographics,
            population,
            government,
        ) <= 17,
{
}

/// A system reads only its own faces: histories that agree on them give the same system and
/// take the same number of faces.
pub proof fn lemma_rolled_profile_same(a: Seq<int>, b: Seq<int>, at: int)
    requires
        same_draws(a, b, at, at + rolled_draws(a, at)),
    ensures
        rolled_draws(b, at) == rolled_draws(a, at),
        rolled_profile(b, at) == rolled_profile(a, at),
{
    lemma_roll_total_same(a, b, at, 2);
    lemma_roll_total_same(a, b, at + 2, 2);
    let next = at + rolled_draws(a, at) - 9;
    if rolled_draws(a, at) == 15 {
        lemma_roll_total_same(a, b, at + 4, 2);
    }
    lemma_roll_total_same(a, b, next, 2);
    lemma_roll_total_same(a, b, next + 2, 2);
    lemma_roll_total_same(a, b, next + 4, 2);
    lemma_roll_total_same(a, b, next + 6, 2);
    lemma_roll_total_same(a, b, next + 8, 1);
}

/// While every world attribute stays below ten, the text code is a starport letter, a dash,
/// six single digits, a dash, and one or two digits of technology level.
pub proof fn lemma_encoded_shape(p: Profile)
    requires
        in_range(p),
        p.size <= 9,
        p.atmosphere <= 9,
        p.hydrographics <= 9,
        p.population <= 9,
        p.government <= 9,
        p.law_level <= 9,
    ensures
        encoded(p).len() == 9 + decimal(p.technology as nat).len(),
        encoded(p).len() == if p.technology < 10 { 10int } else { 11int },
        encoded(p)[0] == p.starport,
        is_starport_class(encoded(p)[0]),
        encoded(p)[1] == '-',
        forall|i: int| 2 <= i < 8 ==> is_digit(#[trigger] encoded(p)[i]),
        encoded(p)[8] == '-',
        forall|i: int| 9 <= i < encoded(p).len() ==> is_digit(#[trigger] encoded(p)[i]),
{
    lemma_decimal_shape(p.size as nat);
    lemma_decimal_shape(p.atmosphere as nat);
    lemma_decimal_shape(p.hydrographics as nat);
    lemma_decimal_shape(p.population as nat);
    lemma_decimal_shape(p.government as nat);
    lemma_decimal_shape(p.law_level as nat);
    lemma_decimal_shape(p.technology as nat);
    let e = encoded(p);
    let tech = decimal(p.technology as nat);
    assert(e[2] == decimal(p.size as nat)[0]);
    assert(e[3] == decimal(p.atmosphere as nat)[0]);
    assert(e[4] == decimal(p.hydrographics as nat)[0]);
    assert(e[5] == decimal(p.population as nat)[0]);
    assert(e[6] == decimal(p.government as nat)[0]);
    assert(e[7] == decimal(p.law_level as nat)[0]);
    assert forall|i: int| 9 <= i < e.len() implies is_digit(#[trigger] e[i]) by {
        assert(e[i] == tech[i - 9]);
    }
}

/// Finds the row of an ordered table whose throw is `key`.
fn search_rows(table: &[(usize, char)], key: usize) -> (found: Option<usize>)
    requires
        forall|i: int, j: int| 0 <= i < j < table@.len() ==> table@[i].0 < table@[j].0,
    ensures
        found matches Some(at) ==> at < table@.len() && table@[at as int].0 == key,
        found is None ==> forall|i: int| 0 <= i < table@.len() ==> table@[i].0 != key,
{
    let mut low: usize = 0;
    let mut high: usize = table.len();
    while low < high
        invariant
            low <= high <= table@.len(),
            forall|i: int, j: int| 0 <= i < j < table@.len() ==> table@[i].0 < table@[j].0,
            forall|i: int| 0 <= i < low ==> table@[i].0 < key,
            forall|i: int| high <= i < table@.len() ==> table@[i].0 > key,
        decreases high - low,
    {
        let middle = low + (high - low) / 2;
        let throw = table[middle].0;
        if throw == key {
            return Some(middle);
        } else if throw < key {
            low = middle + 1;
        } else {
            high = middle;
        }
    }
    None
}

/// The starport class for a throw of two dice, looked up in the ordered table. A throw
/// outside the table counts as its nearest row, so a 12 is read as an 11. Every throw from
/// 2 to 11 has a row, so the search always finds one.
pub fn starport_class(throw: isize) -> (class: char)
    ensures
        class == starport_for(clamped(throw as int, 2, 11)),
        class == starport_for(throw as int),
        is_starport_class(class),
{
    let key = clamp(throw, 2, 11) as usize;
    let table: [(usize, char); 10] = [
        (2, 'X'),
        (3, 'E'),
        (4, 'E'),
        (5, 'D'),
        (6, 'D'),
        (7, 'C'),
        (8, 'C'),
        (9, 'B'),
        (10, 'B'),
        (11, 'A'),
    ];
    assert(table@ =~= starport_rows());
    let found = search_rows(table.as_slice(), key);
    assert(found == Some((key - 2) as usize)) by {
        assert(table@[key - 2].0 == key);
    }
    match found {
        Some(at) => table[at].1,
        None => 'X',
    }
}

fn bonus_for_starport(starport: char) -> (bonus: isize)
    ensures
        bonus == starport_bonus(starport),
{
    if starport == 'A' {
        6
    } else if starport == 'B' {
        4
    } else if starport == 'C' {
        2
    } else {
        0
    }
}

fn bonus_for_size(size: isize) -> (bonus: isize)
    ensures
        bonus == size_bonus(size as int),
{
    if size == 0 || size == 1 {
        2
    } else if 2 <= size && size <= 4 {
        1
    } else {
        0
    }
}

fn bonus_for_atmosphere(atmosphere: isize) -> (bonus: isize)
    ensures
        bonus == atmosphere_bonus(atmosphere as int),
{
    if (0 <= atmosphere && atmosphere <= 3) || (10 <= atmosphere && atmosphere <= 15) {
        1
    } else {
        0
    }
}

fn bonus_for_hydrographics(hydrographics: isize) -> (bonus: isize)
    ensures
        bonus == hydrographics_bonus(hydrographics as int),
{
    if hydrographics == 0 || hydrographics == 9 {
        1
    } else if hydrographics == 10 {
        2
    } else {
        0
    }
}

fn bonus_for_population(population: isize) -> (bonus: isize)
    ensures
        bonus == population_bonus(population as int),
{
    if (1 <= population && population <= 5) || population == 9 {
        1
    } else if population == 10 {
        2
    } else if population == 11 {
        3
    } else if population == 12 {
        4
    } else {
        0
    }
}

fn bonus_for_government(government: isize) -> (bonus: isize)
    ensures
        bonus == government_bonus(government as int),
{
    if government == 0 || government == 5 {
        1
    } else if government == 7 {
        2
    } else if government == 13 || government == 14 {
        -2
    } else {
        0
    }
}

/// The technology level of a world from one die and the attributes rolled before it.
pub fn technology_level(
    throw: isize,
    starport: char,
    size: isize,
    atmosphere: isize,
    hydrographics: isize,
    population: isize,
    government: isize,
) -> (level: isize)
    requires
        isize::MIN <= throw + technology_modifier(
            starport,
            size as int,
            atmosphere as int,
            hydrographics as int,
            population as int,
            government as int,
        ) <= isize::MAX,
    ensures
        level == technology_for(
            throw as int,
            starport,
            size as int,
            atmosphere as int,
            hydrographics as int,
            population as int,
            government as int,
        ),
        0 <= level <= 99,
{
    let from_starport = bonus_for_starport(starport);
    let from_size = bonus_for_size(size);
    let from_atmosphere = bonus_for_atmosphere(atmosphere);
    let from_hydrographics = bonus_for_hydrographics(hydrographics);
    let from_population = bonus_for_population(population);
    let from_government = bonus_for_government(government);
    let modifier = from_starport + from_size + from_atmosphere + from_hydrographics
        + from_population + from_government;
    clamp(throw + modifier, 0, 99)
}

/// The hydrographics of a world of the given size and atmosphere. A world of size 0, or of
/// size 1 without atmosphere, has none, and no die is thrown for it; any other throws two
/// dice, and the result is kept between 0 and 10.
pub fn hydrographics<D: DiceSource>(size: isize, atmosphere: isize, rng: &mut D) -> (level: isize)
    requires
        0 <= size <= 10,
        0 <= atmosphere <= 15,
    ensures
        0 <= level <= 10,
        hydrographics_is_fixed(size as int, atmosphere as int) ==> {
            &&& level == 0
            &&& final(rng).drawn() == old(rng).drawn()
        },
        !hydrographics_is_fixed(size as int, atmosphere as int) ==> {
            &&& grew_by(old(rng).drawn(), final(rng).drawn(), 2)
            &&& level == clamped(
                roll_total(final(rng).drawn(), old(rng).drawn().len() as int, 2)
                    + hydrographics_modifier(size as int, atmosphere as int),
                0,
                10,
            )
        },
{
    if size == 0 || (size == 1 && atmosphere == 0) {
        0
    } else if atmosphere == 0 || atmosphere == 1 || (10 <= atmosphere && atmosphere <= 12) {
        clamp(dice(2, -7 + size - 4, rng), 0, 10)
    } else {
        clamp(dice(2, -7 + size, rng), 0, 10)
    }
}

impl View for StarSystem {
    type V = Profile;

    closed spec fn view(&self) -> Profile {
        Profile {
            size: self.size as int,
            atmosphere: self.atmosphere as int,
            hydrographics: self.hydrographics as int,
            population: self.population as int,
            government: self.government as int,
            law_level: self.law_level as int,
            technology: self.technology as int,
            starport: self.starport,
        }
    }
}

impl StarSystem {
    #[verifier::type_invariant]
    spec fn inv(self) -> bool {
        in_range(self@)
    }

    /// Rolls a star system: size, atmosphere, hydrographics, population, government, law
    /// level, starport and technology level, in that order, each from the ones before it.
    pub fn generate<D: DiceSource>(rng: &mut D) -> (system: StarSystem)
        ensures
            grew_by(
                old(rng).drawn(),
                final(rng).drawn(),
                rolled_draws(final(rng).drawn(), old(rng).drawn().len() as int),
            ),
            system@ == rolled_profile(final(rng).drawn(), old(rng).drawn().len() as int),
            in_range(system@),
    {
        let ghost at = rng.drawn().len() as int;
        let size = clamp(dice(2, -2, rng), 0, 10);
        let ghost after_size = rng.drawn();
        let atmosphere = clamp(dice(2, -7 + size, rng), 0, 15);
        let ghost after_atmosphere = rng.drawn();
        let hydrographics = hydrographics(size, atmosphere, rng);
        let ghost after_hydrographics = rng.drawn();
        let ghost next = after_hydrographics.len() as int;
        let population = clamp(dice(2, -2, rng), 0, 10);
        let ghost after_population = rng.drawn();
        let government = clamp(dice(2, -7 + population, rng), 0, 13);
        let ghost after_government = rng.drawn();
        let law_level = clamp(dice(2, -7 + government, rng), 0, 15);
        let ghost after_law = rng.drawn();
        let starport = starport_class(dice(2, 0, rng));
        let ghost after_starport = rng.drawn();
        let throw = dice(1, 0, rng);
        proof {
            lemma_roll_total_bounds(rng.drawn(), next + 8, 1);
            lemma_technology_modifier_bounds(
                starport,
                size as int,
                atmosphere as int,
                hydrographics as int,
                population as int,
                government as int,
            );
        }
        let technology = technology_level(
            throw,
            starport,
            size,
            atmosphere,
            hydrographics,
            population,
            government,
        );
        proof {
            let all = rng.drawn();
            lemma_roll_total_same(after_size, all, at, 2);
            lemma_roll_total_same(after_atmosphere, all, at + 2, 2);
            if !hydrographics_is_fixed(size as int, atmosphere as int) {
                lemma_roll_total_same(after_hydrographics, all, at + 4, 2);
            }
            lemma_roll_total_same(after_population, all, next, 2);
            lemma_roll_total_same(after_government, all, next + 2, 2);
            lemma_roll_total_same(after_law, all, next + 4, 2);
            lemma_roll_total_same(after_starport, all, next + 6, 2);
        }
        StarSystem {
            size,
            atmosphere,
            hydrographics,
            population,
            government,
            law_level,
            technology,
            starport,
        }
    }

    /// Universal World Profile: the text code of this system.
    pub fn uwp(&self) -> (text: String)
        ensures
            text@ == encoded(self@),
    {
        proof {
            use_type_invariant(self);
        }
        let mut text = String::new();
        push_char(&mut text, self.starport);
        push_char(&mut text, '-');
        push_decimal(&mut text, self.size as usize);
        push_decimal(&mut text, self.atmosphere as usize);
        push_decimal(&mut text, self.hydrographics as usize);
        push_decimal(&mut text, self.population as usize);
        push_decimal(&mut text, self.government as usize);
        push_decimal(&mut text, self.law_level as usize);
        push_char(&mut text, '-');
        push_decimal(&mut text, self.technology as usize);
        text
    }

    /// The size of the world, from 0 to 10.
    pub fn size(&self) -> (value: isize)
        ensures
            value == self@.size,
            0 <= value <= 10,
    {
        proof {
            use_type_invariant(self);
        }
        self.size
    }

    /// The atmosphere of the world, from 0 to 15.
    pub fn atmosphere(&self) -> (value: isize)
        ensures
            value == self@.atmosphere,
            0 <= value <= 15,
    {
        proof {
            use_type_invariant(self);
        }
        self.atmosphere
    }

    /// The hydrographics of the world, from 0 to 10.
    pub fn hydrographics(&self) -> (value: isize)
        ensures
            value == self@.hydrographics,
            0 <= value <= 10,
    {
        proof {
            use_type_invariant(self);
        }
        self.hydrographics
    }

    /// The population of the world, from 0 to 10.
    pub fn population(&self) -> (value: isize)
        ensures
            value == self@.population,
            0 <= value <= 10,
    {
        proof {
            use_type_invariant(self);
        }
        self.population
    }

    /// The government of the world, from 0 to 13.
    pub fn government(&self) -> (value: isize)
        ensures
            value == self@.government,
            0 <= value <= 13,
    {
        proof {
            use_type_invariant(self);
        }
        self.government
    }

    /// The law level of the world, from 0 to 15.
    pub fn law_level(&self) -> (value: isize)
        ensures
            value == self@.law_level,
            0 <= value <= 15,
    {
        proof {
            use_type_invariant(self);
        }
        self.law_level
    }

    /// The technology level of the world, from 0 to 99.
    pub fn technology(&self) -> (value: isize)
        ensures
            value == self@.technology,
            0 <= value <= 99,
    {
        proof {
            use_type_invariant(self);
        }
        self.technology
    }

    /// The starport class of the world: A, B, C, D, E or X.
    pub fn starport(&self) -> (class: char)
        ensures
            class == self@.starport,
            is_starport_class(class),
    {
        proof {
            use_type_invariant(self);
        }
        self.starport
    }
}

/// The number under which a cell is filed: the row in the upper 64 bits, the column below.
pub open spec fn cell_key(row: int, col: int) -> int {
    row * 0x1_0000_0000_0000_0000 + col
}

/// The cell that is filed under `key`.
pub open spec fn key_cell(key: u128) -> (int, int) {
    (key as int / 0x1_0000_0000_0000_0000, key as int % 0x1_0000_0000_0000_0000)
}

/// A coordinate that a map can hold: both parts fit in 64 bits.
pub open spec fn is_cell(at: (int, int)) -> bool {
    0 <= at.0 <= u64::MAX && 0 <= at.1 <= u64::MAX
}

/// The star systems of a sector, each under the row and column of its hex. No hex holds
/// more than one, and the map keeps no order of its own.
pub struct StarMap {
    cells: HashMap<u128, StarSystem>,
}

impl View for StarMap {
    type V = Map<(int, int), Profile>;

    closed spec fn view(&self) -> Map<(int, int), Profile> {
        Map::new(
            |at: (int, int)| is_cell(at) && self.cells@.contains_key(cell_key(at.0, at.1) as u128),
            |at: (int, int)| self.cells@[cell_key(at.0, at.1) as u128]@,
        )
    }
}

fn key_of(at: RowCol) -> (key: u128)
    ensures
        key == cell_key(at.0 as int, at.1 as int),
        key_cell(key) == (at.0 as int, at.1 as int),
{
    (at.0 as u128) * 0x1_0000_0000_0000_0000u128 + (at.1 as u128)
}

impl StarMap {
    /// A map without any star system.
    pub fn new() -> (map: StarMap)
        ensures
            map@ == Map::<(int, int), Profile>::empty(),
    {
        let map = StarMap { cells: HashMap::new() };
        assert(map@ =~= Map::<(int, int), Profile>::empty());
        map
    }

    /// Puts `system` at `at`, in place of whatever was there.
    pub fn insert(&mut self, at: RowCol, system: StarSystem)
        ensures
            final(self)@ == old(self)@.insert((at.0 as int, at.1 as int), system@),
    {
        broadcast use vstd::std_specs::hash::group_hash_axioms;

        let key = key_of(at);
        self.cells.insert(key, system);
        assert(self@ =~= old(self)@.insert((at.0 as int, at.1 as int), system@)) by {
            assert forall|c: (int, int)| is_cell(c) implies ((cell_key(c.0, c.1) as u128 == key)
                <==> c == (at.0 as int, at.1 as int)) by {}
        }
    }

    /// The system at `at`, if the hex holds one.
    pub fn get(&self, at: RowCol) -> (found: Option<&StarSystem>)
        ensures
            found.is_some() <==> self@.contains_key((at.0 as int, at.1 as int)),
            found matches Some(system) ==> system@ == self@[(at.0 as int, at.1 as int)],
    {
        broadcast use vstd::std_specs::hash::group_hash_axioms;

        let key = key_of(at);
        self.cells.get(&key)
    }

    /// How many hexes hold a star system.
    pub fn len(&self) -> (count: usize)
        ensures
            self@.dom().finite(),
            count == self@.len(),
    {
        broadcast use vstd::std_specs::hash::group_hash_axioms;

        proof {
            let keys = self.cells@.dom();
            let cell = |key: u128| key_cell(key);
            assert(injective_on(cell, keys)) by {
                assert forall|a: u128, b: u128|
                    keys.contains(a) && keys.contains(b) && #[trigger] cell(a) == #[trigger] cell(
                        b,
                    ) implies a == b by {}
            }
            assert(keys.map(cell) =~= self@.dom()) by {
                assert forall|c: (int, int)| self@.dom().contains(c) implies keys.map(
                    cell,
                ).contains(c) by {
                    let key = cell_key(c.0, c.1) as u128;
                    assert(keys.contains(key) && cell(key) == c);
                }
                assert forall|c: (int, int)| keys.map(cell).contains(c) implies self@.dom().contains(
                    c,
                ) by {
                    let key = choose|key: u128| keys.contains(key) && cell(key) == c;
                    assert(cell_key(c.0, c.1) as u128 == key);
                }
            }
            lemma_map_size(keys, self@.dom(), cell);
        }
        self.cells.len()
    }

    /// Whether no hex holds a star system.
    pub fn is_empty(&self) -> (empty: bool)
        ensures
            empty <==> self@ == Map::<(int, int), Profile>::empty(),
    {
        broadcast use vstd::std_specs::hash::group_hash_axioms;

        let empty = self.cells.is_empty();
        proof {
            if empty {
                assert(self@ =~= Map::<(int, int), Profile>::empty());
            } else {
                let key = choose|key: u128| self.cells@.dom().contains(key);
                let c = key_cell(key);
                assert(cell_key(c.0, c.1) as u128 == key);
                assert(self@.contains_key(c));
            }
        }
        empty
    }
}

} // verus!
