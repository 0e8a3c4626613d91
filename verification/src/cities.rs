//! Cities, the geographic lookup table and the location filter.
//!
//! A city id packs a (county, federal subject, city) triple: the county
//! key sits in the high bits, the subject key in the middle byte. The
//! lookup table itself is loaded once at startup by the caller; all
//! logic here works against whatever table it is handed.

use vstd::prelude::*;
use crate::util::str_eq;

verus! {

/// Immutable geographic lookup table: id-to-name tables for counties
/// (federal districts), federal subjects and cities.
pub struct Gazetteer {
    pub counties: Vec<(i32, String)>,
    pub subjects: Vec<(i32, String)>,
    pub cities: Vec<(i32, String)>,
}

/// Name stored under `key`, first match first.
pub open spec fn table_get(t: Seq<(i32, String)>, key: int) -> Option<Seq<char>>
    decreases t.len(),
{
    if t.len() == 0 {
        None
    } else if t[0].0 == key {
        Some(t[0].1@)
    } else {
        table_get(t.drop_first(), key)
    }
}

/// True when some entry carries `name`.
pub open spec fn table_has_name(t: Seq<(i32, String)>, name: Seq<char>) -> bool {
    exists|i: int| 0 <= i < t.len() && t[i].1@ == name
}

/// County key of a city id: its high 16 bits.
pub open spec fn county_key(id: i32) -> int {
    ((id as u32) >> 16u32) as int
}

/// Federal-subject key of a city id: its middle byte.
pub open spec fn subject_key(id: i32) -> int {
    (((id as u32) >> 8u32) & 0xFFu32) as int
}

/// Looks a key up in an id-to-name table.
fn lookup(t: &Vec<(i32, String)>, key: i32) -> (r: Option<String>)
    ensures
        r matches Some(s) ==> table_get(t@, key as int) == Some(s@),
        r is None ==> table_get(t@, key as int) is None,
{
    let n = t.len();
    let mut i: usize = 0;
    proof {
        assert(t@.skip(0) =~= t@);
    }
    while i < n
        invariant
            n == t@.len(),
            0 <= i <= n,
            table_get(t@.skip(i as int), key as int) == table_get(t@, key as int),
        decreases n - i,
    {
        proof {
            assert(t@.skip(i as int).drop_first() =~= t@.skip(i as int + 1));
            assert(t@.skip(i as int)[0] == t@[i as int]);
        }
        if t[i].0 == key {
            return Some(t[i].1.clone());
        }
        i = i + 1;
    }
    proof {
        assert(t@.skip(n as int) =~= Seq::<(i32, String)>::empty());
    }
    None
}

/// Tests whether a name occurs in an id-to-name table.
fn has_name(t: &Vec<(i32, String)>, name: &str) -> (r: bool)
    ensures
        r == table_has_name(t@, name@),
{
    let n = t.len();
    let mut i: usize = 0;
    while i < n
        invariant
            n == t@.len(),
            0 <= i <= n,
            forall|j: int| 0 <= j < i ==> t@[j].1@ != name@,
        decreases n - i,
    {
        if str_eq(t[i].1.as_str(), name) {
            return true;
        }
        i = i + 1;
    }
    false
}

/// County (federal district) name for a city id.
pub fn county_by_id(g: &Gazetteer, id: i32) -> (r: Option<String>)
    ensures
        r matches Some(s) ==> table_get(g.counties@, county_key(id)) == Some(s@),
        r is None ==> table_get(g.counties@, county_key(id)) is None,
{
    let key = ((id as u32) >> 16u32) as i32;
    proof {
        let u = id as u32;
        assert((u >> 16u32) <= 0xFFFFu32) by (bit_vector);
    }
    lookup(&g.counties, key)
}

/// Federal-subject name for a city id.
pub fn subject_by_id(g: &Gazetteer, id: i32) -> (r: Option<String>)
    ensures
        r matches Some(s) ==> table_get(g.subjects@, subject_key(id)) == Some(s@),
        r is None ==> table_get(g.subjects@, subject_key(id)) is None,
{
    let key = (((id as u32) >> 8u32) & 0xFFu32) as i32;
    proof {
        let u = id as u32;
        assert(((u >> 8u32) & 0xFFu32) <= 0xFFu32) by (bit_vector);
    }
    lookup(&g.subjects, key)
}

/// City name for a city id.
pub fn city_by_id(g: &Gazetteer, id: i32) -> (r: Option<String>)
    ensures
        r matches Some(s) ==> table_get(g.cities@, id as int) == Some(s@),
        r is None ==> table_get(g.cities@, id as int) is None,
{
    lookup(&g.cities, id)
}

/// True when a county of that name exists.
pub fn county_exists(g: &Gazetteer, name: &str) -> (r: bool)
    ensures
        r == table_has_name(g.counties@, name@),
{
    has_name(&g.counties, name)
}

/// True when a federal subject of that name exists.
pub fn subject_exists(g: &Gazetteer, name: &str) -> (r: bool)
    ensures
        r == table_has_name(g.subjects@, name@),
{
    has_name(&g.subjects, name)
}

/// True when a city of that name exists.
pub fn city_exists(g: &Gazetteer, name: &str) -> (r: bool)
    ensures
        r == table_has_name(g.cities@, name@),
{
    has_name(&g.cities, name)
}

/// Error of decoding a city id against the lookup table.
#[derive(Clone, Copy, Debug, PartialEq, Eq, Structural)]
pub enum CityError {
    CountyNotFound,
    SubjectNotFound,
    CityNotFound,
}

/// A resolved city, identified by its packed id.
#[derive(Clone, Copy, Debug, PartialEq, Eq, Structural)]
pub struct City {
    pub id: i32,
}

impl City {
    /// All three components of the id resolve in the table.
    pub open spec fn valid(self, g: &Gazetteer) -> bool {
        &&& table_get(g.counties@, county_key(self.id)) is Some
        &&& table_get(g.subjects@, subject_key(self.id)) is Some
        &&& table_get(g.cities@, self.id as int) is Some
    }

    /// Decodes a persisted id, checking that every component resolves.
    pub fn from_id(g: &Gazetteer, id: i32) -> (r: Result<City, CityError>)
        ensures
            r is Ok <==> (City { id }).valid(g),
            r is Ok ==> r->Ok_0 == (City { id }),
            r == Err::<City, CityError>(CityError::CountyNotFound) <==> table_get(
                g.counties@,
                county_key(id),
            ) is None,
            r == Err::<City, CityError>(CityError::SubjectNotFound) <==> table_get(
                g.counties@,
                county_key(id),
            ) is Some && table_get(g.subjects@, subject_key(id)) is None,
    {
        if county_by_id(g, id).is_none() {
            return Err(CityError::CountyNotFound);
        }
        if subject_by_id(g, id).is_none() {
            return Err(CityError::SubjectNotFound);
        }
        if city_by_id(g, id).is_none() {
            return Err(CityError::CityNotFound);
        }
        Ok(City { id })
    }

    /// The city's own name.
    pub fn city(&self, g: &Gazetteer) -> (r: Option<String>)
        ensures
            r matches Some(s) ==> table_get(g.cities@, self.id as int) == Some(s@),
            r is None ==> table_get(g.cities@, self.id as int) is None,
    {
        city_by_id(g, self.id)
    }

    /// The city's federal-subject name.
    pub fn subject(&self, g: &Gazetteer) -> (r: Option<String>)
        ensures
            r matches Some(s) ==> table_get(g.subjects@, subject_key(self.id)) == Some(s@),
            r is None ==> table_get(g.subjects@, subject_key(self.id)) is None,
    {
        subject_by_id(g, self.id)
    }

    /// The city's county (federal district) name.
    pub fn county(&self, g: &Gazetteer) -> (r: Option<String>)
        ensures
            r matches Some(s) ==> table_get(g.counties@, county_key(self.id)) == Some(s@),
            r is None ==> table_get(g.counties@, county_key(self.id)) is None,
    {
        county_by_id(g, self.id)
    }
}

/// Display text of a valid city: the county with a "ФО" mark, then the
/// subject unless it repeats the city name, then the city.
pub open spec fn city_text_spec(g: &Gazetteer, id: i32) -> Seq<char> {
    let county = table_get(g.counties@, county_key(id))->0;
    let subject = table_get(g.subjects@, subject_key(id))->0;
    let city = table_get(g.cities@, id as int)->0;
    if subject == city {
        county + " ФО, "@ + city
    } else {
        county + " ФО, "@ + subject + ", "@ + city
    }
}

impl City {
    /// Renders the city line of a profile.
    pub fn to_text(&self, g: &Gazetteer) -> (r: String)
        requires
            self.valid(g),
        ensures
            r@ == city_text_spec(g, self.id),
    {
        let county = match self.county(g) {
            Some(s) => s,
            None => {
                assert(false);
                String::new()
            },
        };
        let subject = match self.subject(g) {
            Some(s) => s,
            None => {
                assert(false);
                String::new()
            },
        };
        let city = match self.city(g) {
            Some(s) => s,
            None => {
                assert(false);
                String::new()
            },
        };
        let mut out = county;
        out.append(" ФО, ");
        if str_eq(subject.as_str(), city.as_str()) {
            out.append(city.as_str());
        } else {
            out.append(subject.as_str());
            out.append(", ");
            out.append(city.as_str());
        }
        out
    }
}

/// A user's city: possibly left unspecified.
#[derive(Clone, Copy, Debug, PartialEq, Eq, Structural)]
pub struct UserCity {
    pub city: Option<City>,
}

impl UserCity {
    /// Every present city resolves in the table.
    pub open spec fn valid(self, g: &Gazetteer) -> bool {
        self.city matches Some(c) ==> c.valid(g)
    }

    /// The city, when one was specified.
    pub fn get_city(self) -> (r: Option<City>)
        ensures
            r == self.city,
    {
        self.city
    }

    /// The explicit "no city given" value.
    pub fn unspecified() -> (r: Self)
        ensures
            r.city is None,
    {
        UserCity { city: None }
    }

    /// Wraps a resolved city.
    pub fn of_city(c: City) -> (r: Self)
        ensures
            r.city == Some(c),
    {
        UserCity { city: Some(c) }
    }

    /// Decodes a persisted optional id.
    pub fn from_id(g: &Gazetteer, id: Option<i32>) -> (r: Result<UserCity, CityError>)
        ensures
            id is None ==> r == Ok::<UserCity, CityError>(UserCity { city: None }),
            id matches Some(v) ==> {
                &&& r is Ok <==> (City { id: v }).valid(g)
                &&& r is Ok ==> r->Ok_0 == (UserCity { city: Some(City { id: v }) })
            },
    {
        match id {
            None => Ok(UserCity { city: None }),
            Some(v) => match City::from_id(g, v) {
                Ok(c) => Ok(UserCity { city: Some(c) }),
                Err(e) => Err(e),
            },
        }
    }

    /// The persisted optional id.
    pub fn to_id(self) -> (r: Option<i32>)
        ensures
            r == match self.city {
                Some(c) => Some(c.id),
                None => None::<i32>,
            },
    {
        match self.city {
            Some(c) => Some(c.id),
            None => None,
        }
    }

    /// Renders the location line of a profile.
    pub fn to_text(&self, g: &Gazetteer) -> (r: String)
        requires
            self.valid(g),
        ensures
            r@ == match self.city {
                Some(c) => city_text_spec(g, c.id),
                None => "Город не указан"@,
            },
    {
        match &self.city {
            Some(c) => c.to_text(g),
            None => "Город не указан".to_owned(),
        }
    }
}

/// Geographic scope restricting the candidate search.
#[derive(Clone, Copy, Debug, PartialEq, Eq, Structural)]
pub enum LocationFilter {
    City,
    Subject,
    County,
    Country,
}

/// `t` without its last three characters (a " ФО" suffix), or empty when
/// shorter than that.
pub open spec fn strip_county_suffix(t: Seq<char>) -> Seq<char> {
    if t.len() >= 3 {
        t.subrange(0, t.len() - 3)
    } else {
        Seq::empty()
    }
}

/// What parsing a location-filter reply yields: the whole-country
/// literal first, then a county name (stripped of its suffix), then a
/// federal-subject name, then a city name; first match wins.
pub open spec fn parse_location_filter_spec(t: Seq<char>, g: &Gazetteer) -> Option<
    LocationFilter,
> {
    if t == "Вся Россия"@ {
        Some(LocationFilter::Country)
    } else if table_has_name(g.counties@, strip_county_suffix(t)) {
        Some(LocationFilter::County)
    } else if table_has_name(g.subjects@, t) {
        Some(LocationFilter::Subject)
    } else if table_has_name(g.cities@, t) {
        Some(LocationFilter::City)
    } else {
        None
    }
}

/// Parses a location-filter reply against the lookup table.
pub fn parse_location_filter(t: &str, g: &Gazetteer) -> (r: Option<LocationFilter>)
    ensures
        r == parse_location_filter_spec(t@, g),
{
    if str_eq(t, "Вся Россия") {
        return Some(LocationFilter::Country);
    }
    let n = t.unicode_len();
    let stripped = if n >= 3 {
        t.substring_char(0, n - 3)
    } else {
        t.substring_char(0, 0)
    };
    proof {
        assert(stripped@ == strip_county_suffix(t@));
    }
    if county_exists(g, stripped) {
        Some(LocationFilter::County)
    } else if subject_exists(g, t) {
        Some(LocationFilter::Subject)
    } else if city_exists(g, t) {
        Some(LocationFilter::City)
    } else {
        None
    }
}

} // verus!
