//! A plain JSON value tree and the shape logic of the configuration
//! records: a single city, a list of city candidates, and the API key.
//!
//! The store collaborator parses and prints JSON text; the core works on
//! this tree, where numbers are kept as their decimal text so that a value
//! written back renders exactly as it was read.

use vstd::prelude::*;
use vstd::string::*;
use crate::model::{ApiKey, City, city_like};
use crate::text::str_eq;

verus! {

/// A JSON value; numbers carry their decimal text.
#[derive(Debug, PartialEq)]
pub enum Json {
    Null,
    Bool(bool),
    Num(String),
    Str(String),
    Arr(Vec<Json>),
    Obj(Vec<(String, Json)>),
}

/// The value under the first binding of `key` in an object's field list.
pub open spec fn obj_lookup(fs: Seq<(String, Json)>, key: Seq<char>) -> Option<Json>
    decreases fs.len(),
{
    if fs.len() == 0 {
        None
    } else if fs[0].0@ == key {
        Some(fs[0].1)
    } else {
        obj_lookup(fs.drop_first(), key)
    }
}

/// First-match lookup in an object's field list.
fn lookup<'a>(fs: &'a Vec<(String, Json)>, key: &str) -> (r: Option<&'a Json>)
    ensures
        match r {
            Some(j) => obj_lookup(fs@, key@) == Some(*j),
            None => obj_lookup(fs@, key@) is None,
        },
{
    let mut i: usize = 0;
    proof {
        assert(fs@.skip(0) =~= fs@);
    }
    while i < fs.len()
        invariant
            0 <= i <= fs@.len(),
            obj_lookup(fs@.skip(i as int), key@) == obj_lookup(fs@, key@),
        decreases fs@.len() - i,
    {
        proof {
            assert(fs@.skip(i as int)[0] == fs@[i as int]);
        }
        if str_eq(fs[i].0.as_str(), key) {
            return Some(&fs[i].1);
        }
        proof {
            assert(fs@.skip(i as int).drop_first() =~= fs@.skip(i as int + 1));
        }
        i += 1;
    }
    proof {
        assert(fs@.skip(fs@.len() as int) =~= Seq::<(String, Json)>::empty());
    }
    None
}

/// `j` is the canonical object form of the city `c`.
pub open spec fn is_city_json(j: Json, c: City) -> bool {
    &&& j matches Json::Obj(fs)
    &&& fs@.len() == 4
    &&& fs@[0].0@ == "name"@
    &&& fs@[0].1 matches Json::Str(s0) && s0@ == c.name@
    &&& fs@[1].0@ == "country"@
    &&& fs@[1].1 matches Json::Str(s1) && s1@ == c.country@
    &&& fs@[2].0@ == "lat"@
    &&& fs@[2].1 matches Json::Num(s2) && s2@ == c.lat@
    &&& fs@[3].0@ == "lon"@
    &&& fs@[3].1 matches Json::Num(s3) && s3@ == c.lon@
}

/// The city a JSON value denotes: an object whose `name` and `country`
/// are strings and whose `lat` and `lon` are numbers, fields found by
/// first-match lookup.
pub open spec fn city_of_json(j: Json) -> Option<City> {
    match j {
        Json::Obj(fs) => match (
            obj_lookup(fs@, "name"@),
            obj_lookup(fs@, "country"@),
            obj_lookup(fs@, "lat"@),
            obj_lookup(fs@, "lon"@),
        ) {
            (
                Some(Json::Str(name)),
                Some(Json::Str(country)),
                Some(Json::Num(lat)),
                Some(Json::Num(lon)),
            ) => Some(City { name, country, lat, lon }),
            _ => None,
        },
        _ => None,
    }
}

/// The API key a JSON value denotes: an object whose `key` is a string.
pub open spec fn key_of_json(j: Json) -> Option<ApiKey> {
    match j {
        Json::Obj(fs) => match obj_lookup(fs@, "key"@) {
            Some(Json::Str(key)) => Some(ApiKey { key }),
            _ => None,
        },
        _ => None,
    }
}

/// Reads a single city from a JSON value.
pub fn json_to_city(j: &Json) -> (r: Option<City>)
    ensures
        city_of_json(*j) matches Some(c0) ==> (r matches Some(c) && city_like(c, c0)),
        city_of_json(*j) is None ==> r is None,
{
    match j {
        Json::Obj(fs) => {
            let name = lookup(fs, "name");
            let country = lookup(fs, "country");
            let lat = lookup(fs, "lat");
            let lon = lookup(fs, "lon");
            match (name, country, lat, lon) {
                (
                    Some(Json::Str(name)),
                    Some(Json::Str(country)),
                    Some(Json::Num(lat)),
                    Some(Json::Num(lon)),
                ) => Some(
                    City {
                        name: name.clone(),
                        country: country.clone(),
                        lat: lat.clone(),
                        lon: lon.clone(),
                    },
                ),
                _ => None,
            }
        },
        _ => None,
    }
}

/// Reads the API key record from a JSON value.
pub fn json_to_api_key(j: &Json) -> (r: Option<ApiKey>)
    ensures
        key_of_json(*j) matches Some(k0) ==> (r matches Some(k) && k.key@ == k0.key@),
        key_of_json(*j) is None ==> r is None,
{
    match j {
        Json::Obj(fs) => {
            let key = lookup(fs, "key");
            match key {
                Some(Json::Str(key)) => Some(ApiKey { key: key.clone() }),
                _ => None,
            }
        },
        _ => None,
    }
}

/// `jv` denotes a city that carries the same data as `c`.
pub open spec fn denotes_city(jv: Json, c: City) -> bool {
    city_of_json(jv) matches Some(c0) && city_like(c, c0)
}

/// Every element of `items` denotes a city.
pub open spec fn all_cities(items: Seq<Json>) -> bool {
    forall|k: int| 0 <= k < items.len() ==> (#[trigger] city_of_json(items[k])) is Some
}

/// Reads the ordered candidate list from a JSON value: an array each of
/// whose elements denotes a city.
pub fn json_to_cities(j: &Json) -> (r: Option<Vec<City>>)
    ensures
        match r {
            Some(cs) => {
                &&& (*j) matches Json::Arr(items)
                &&& all_cities(items@)
                &&& cs@.len() == items@.len()
                &&& forall|k: int|
                    0 <= k < cs@.len() ==> #[trigger] denotes_city(items@[k], cs@[k])
            },
            None => !((*j) matches Json::Arr(items) && all_cities(items@)),
        },
{
    match j {
        Json::Arr(items) => {
            let mut cs: Vec<City> = Vec::new();
            let mut i: usize = 0;
            while i < items.len()
                invariant
                    *j == Json::Arr(*items),
                    0 <= i <= items@.len(),
                    cs@.len() == i,
                    forall|k: int| 0 <= k < i ==> #[trigger] denotes_city(items@[k], cs@[k]),
                decreases items@.len() - i,
            {
                let ghost prev = cs@;
                match json_to_city(&items[i]) {
                    Some(c) => {
                        proof {
                            assert(denotes_city(items@[i as int], c));
                        }
                        cs.push(c);
                        proof {
                            assert forall|k: int| 0 <= k < i + 1 implies #[trigger] denotes_city(
                                items@[k],
                                cs@[k],
                            ) by {
                                if k < i {
                                    assert(cs@[k] == prev[k]);
                                    assert(denotes_city(items@[k], prev[k]));
                                } else {
                                    assert(cs@[k] == c);
                                }
                            }
                        }
                    },
                    None => {
                        proof {
                            assert(city_of_json(items@[i as int]) is None);
                        }
                        return None;
                    },
                }
                i += 1;
            }
            proof {
                assert forall|k: int|
                    0 <= k < items@.len() implies (#[trigger] city_of_json(items@[k])) is Some by {
                    assert(denotes_city(items@[k], cs@[k]));
                }
            }
            Some(cs)
        },
        _ => None,
    }
}

/// Builds the canonical object form under which a city is persisted.
pub fn city_to_json(c: &City) -> (j: Json)
    ensures
        is_city_json(j, *c),
{
    let mut fs: Vec<(String, Json)> = Vec::new();
    fs.push(("name".to_owned(), Json::Str(c.name.clone())));
    fs.push(("country".to_owned(), Json::Str(c.country.clone())));
    fs.push(("lat".to_owned(), Json::Num(c.lat.clone())));
    fs.push(("lon".to_owned(), Json::Num(c.lon.clone())));
    Json::Obj(fs)
}

/// Round trip: a value in the canonical object form of a city reads back
/// as that city, field for field.
pub proof fn lemma_city_round_trip(j: Json, c: City)
    requires
        is_city_json(j, c),
    ensures
        city_of_json(j) matches Some(c2) && city_like(c2, c),
{
    reveal_strlit("name");
    reveal_strlit("country");
    reveal_strlit("lat");
    reveal_strlit("lon");
    match j {
        Json::Obj(fs) => {
            let t1 = fs@.drop_first();
            let t2 = t1.drop_first();
            let t3 = t2.drop_first();
            assert(t1[0] == fs@[1] && t1[1] == fs@[2] && t1[2] == fs@[3] && t1.len() == 3);
            assert(t2[0] == fs@[2] && t2[1] == fs@[3] && t2.len() == 2);
            assert(t3[0] == fs@[3] && t3.len() == 1);
            assert("name"@.len() == 4 && "country"@.len() == 7);
            assert("lat"@.len() == 3 && "lon"@.len() == 3);
            assert("lat"@[1] == 'a' && "lon"@[1] == 'o');
            assert(obj_lookup(fs@, "name"@) == Some(fs@[0].1));
            assert(obj_lookup(fs@, "country"@) == obj_lookup(t1, "country"@));
            assert(obj_lookup(t1, "country"@) == Some(fs@[1].1));
            assert(obj_lookup(fs@, "lat"@) == obj_lookup(t1, "lat"@));
            assert(obj_lookup(t1, "lat"@) == obj_lookup(t2, "lat"@));
            assert(obj_lookup(t2, "lat"@) == Some(fs@[2].1));
            assert(obj_lookup(fs@, "lon"@) == obj_lookup(t1, "lon"@));
            assert(obj_lookup(t1, "lon"@) == obj_lookup(t2, "lon"@));
            assert(obj_lookup(t2, "lon"@) == obj_lookup(t3, "lon"@));
            assert(obj_lookup(t3, "lon"@) == Some(fs@[3].1));
        },
        _ => {
            assert(false);
        },
    }
}

} // verus!
