//! The satellites service: root queries, the satellite model, the guarded
//! `life_exists` field, and the federation entity-reference protocol that
//! extends the foreign-owned planet type with a `satellites` relationship.
//!
//! Resolvers take the storage collaborator's rows as plain values: the
//! surrounding runtime loads them (a failure to reach the store is fatal to
//! the request before any resolver here runs) and hands them over in storage
//! order.
use vstd::prelude::*;

use crate::guard::{FieldError, Role, RoleGuard};
use crate::numtext::{i32_to_text, int_text_of, parse_i32, spec_parse_i32, text_eq};

verus! {

/// A calendar date as plain year, month and day.
#[derive(Clone, Copy, PartialEq, Eq, Structural, Debug)]
pub struct Date {
    pub year: i32,
    pub month: u8,
    pub day: u8,
}

/// A persisted satellite row, as the storage collaborator hands it over.
/// Each satellite belongs to exactly one planet through `planet_id`; the
/// `life_exists` enumeration is stored as text.
pub struct SatelliteEntity {
    pub id: i32,
    pub planet_id: i32,
    pub name: String,
    pub life_exists: String,
    pub first_spacecraft_landing_date: Option<Date>,
}

/// The closed enumeration of whether life exists on a satellite. Stored as
/// text; the two mappings below are the single bidirectional table for it.
#[derive(Clone, Copy, PartialEq, Eq, Structural, Debug)]
pub enum LifeExists {
    Yes,
    OpenQuestion,
    NoData,
}

/// The text each answer is stored as.
pub open spec fn spec_life_exists_text(l: LifeExists) -> Seq<char> {
    match l {
        LifeExists::Yes => "Yes"@,
        LifeExists::OpenQuestion => "OpenQuestion"@,
        LifeExists::NoData => "NoData"@,
    }
}

/// The answer a stored text denotes, if any.
pub open spec fn spec_life_exists_from(s: Seq<char>) -> Option<LifeExists> {
    if s == "Yes"@ {
        Some(LifeExists::Yes)
    } else if s == "OpenQuestion"@ {
        Some(LifeExists::OpenQuestion)
    } else if s == "NoData"@ {
        Some(LifeExists::NoData)
    } else {
        None
    }
}

impl LifeExists {
    /// Renders the answer as the text it is stored under.
    pub fn as_text(&self) -> (r: String)
        ensures
            r@ == spec_life_exists_text(*self),
    {
        match self {
            LifeExists::Yes => "Yes".to_owned(),
            LifeExists::OpenQuestion => "OpenQuestion".to_owned(),
            LifeExists::NoData => "NoData".to_owned(),
        }
    }

    /// Reads a stored text back as an answer; an unrecognized text is
    /// refused loudly (`None`), never defaulted.
    pub fn from_text(s: &str) -> (r: Option<LifeExists>)
        ensures
            r == spec_life_exists_from(s@),
    {
        if text_eq(s, "Yes") {
            Some(LifeExists::Yes)
        } else if text_eq(s, "OpenQuestion") {
            Some(LifeExists::OpenQuestion)
        } else if text_eq(s, "NoData") {
            Some(LifeExists::NoData)
        } else {
            None
        }
    }
}

/// Law (enum-text round trip): reading back the text an answer is stored
/// under yields that answer again, for every answer.
pub proof fn lemma_life_exists_text_round_trip(l: LifeExists)
    ensures
        spec_life_exists_from(spec_life_exists_text(l)) == Some(l),
{
    reveal_strlit("Yes");
    reveal_strlit("OpenQuestion");
    reveal_strlit("NoData");
    assert("Yes"@.len() == 3);
    assert("OpenQuestion"@.len() == 12);
    assert("NoData"@.len() == 6);
}

/// A satellite owned by this service. The identifier is the decimal text of
/// the storage key, per the schema's opaque-string identifier contract.
pub struct Satellite {
    pub id: String,
    pub name: String,
    /// Guarded: only a request whose context carries the Admin role may read
    /// it; see `resolve_satellite_fields`.
    pub life_exists: LifeExists,
    pub first_spacecraft_landing_date: Option<Date>,
}

/// The mathematical value of a satellite: its fields with texts as
/// character sequences.
pub ghost struct SatelliteV {
    pub id: Seq<char>,
    pub name: Seq<char>,
    pub life_exists: LifeExists,
    pub first_spacecraft_landing_date: Option<Date>,
}

impl View for Satellite {
    type V = SatelliteV;

    open spec fn view(&self) -> SatelliteV {
        SatelliteV {
            id: self.id@,
            name: self.name@,
            life_exists: self.life_exists,
            first_spacecraft_landing_date: self.first_spacecraft_landing_date,
        }
    }
}

/// Whether a stored row can be mapped at all: its `life_exists` text must be
/// recognized.
pub open spec fn spec_entity_ok(e: SatelliteEntity) -> bool {
    spec_life_exists_from(e.life_exists@) is Some
}

/// The satellite value a well-formed row maps to. The fallback arm is never
/// reached under `spec_entity_ok`.
pub open spec fn spec_satellite_of(e: SatelliteEntity) -> SatelliteV {
    SatelliteV {
        id: int_text_of(e.id as int),
        name: e.name@,
        life_exists: match spec_life_exists_from(e.life_exists@) {
            Some(l) => l,
            None => LifeExists::NoData,
        },
        first_spacecraft_landing_date: e.first_spacecraft_landing_date,
    }
}

/// Errors fatal to the operation that raised them.
#[derive(Clone, PartialEq, Eq, Debug)]
pub enum QueryError {
    /// An identifier did not parse as a storage key; carries the offending
    /// text.
    IdParse(String),
    /// A stored `life_exists` text was not recognized; carries the offending
    /// text. Raised loudly instead of defaulting.
    UnknownLifeExists(String),
}

impl Satellite {
    /// Maps a storage row into the satellite model; fails loudly on an
    /// unrecognized `life_exists` text.
    pub fn from_entity(e: &SatelliteEntity) -> (r: Result<Satellite, QueryError>)
        ensures
            r is Ok <==> spec_entity_ok(*e),
            r matches Ok(s) ==> s@ == spec_satellite_of(*e),
            r matches Err(err) ==> err == QueryError::UnknownLifeExists(e.life_exists),
    {
        match LifeExists::from_text(e.life_exists.as_str()) {
            Some(l) => Ok(
                Satellite {
                    id: i32_to_text(e.id),
                    name: e.name.clone(),
                    life_exists: l,
                    first_spacecraft_landing_date: e.first_spacecraft_landing_date,
                },
            ),
            None => Err(QueryError::UnknownLifeExists(e.life_exists.clone())),
        }
    }
}

/// The rows whose foreign key is `planet_id`, in storage order.
pub open spec fn spec_rows_for_planet(rows: Seq<SatelliteEntity>, planet_id: i32) -> Seq<
    SatelliteEntity,
>
    decreases rows.len(),
{
    if rows.len() == 0 {
        Seq::empty()
    } else {
        let rest = spec_rows_for_planet(rows.drop_last(), planet_id);
        if rows.last().planet_id == planet_id {
            rest.push(rows.last())
        } else {
            rest
        }
    }
}

/// A row with the foreign key occurs among the rows selected for it.
proof fn lemma_rows_for_planet_contains(rows: Seq<SatelliteEntity>, planet_id: i32, k: int)
    requires
        0 <= k < rows.len(),
        rows[k].planet_id == planet_id,
    ensures
        exists|j: int|
            0 <= j < spec_rows_for_planet(rows, planet_id).len() && spec_rows_for_planet(
                rows,
                planet_id,
            )[j] == rows[k],
    decreases rows.len(),
{
    let sel = spec_rows_for_planet(rows, planet_id);
    if k == rows.len() - 1 {
        assert(rows.last() == rows[k]);
        assert(sel[sel.len() - 1] == rows[k]);
    } else {
        lemma_rows_for_planet_contains(rows.drop_last(), planet_id, k);
        let sub = spec_rows_for_planet(rows.drop_last(), planet_id);
        let j = choose|j: int| 0 <= j < sub.len() && sub[j] == rows.drop_last()[k];
        assert(rows.drop_last()[k] == rows[k]);
        assert(sel[j] == rows[k]);
    }
}

/// The first row with the given key, in storage order.
pub open spec fn spec_find_row(rows: Seq<SatelliteEntity>, key: i32) -> Option<SatelliteEntity>
    decreases rows.len(),
{
    if rows.len() == 0 {
        None
    } else if rows[0].id == key {
        Some(rows[0])
    } else {
        spec_find_row(rows.drop_first(), key)
    }
}

/// Skipping rows that do not carry the key leaves the search unchanged.
proof fn lemma_find_row_skip(rows: Seq<SatelliteEntity>, key: i32, i: int)
    requires
        0 <= i <= rows.len(),
        forall|j: int| 0 <= j < i ==> (#[trigger] rows[j]).id != key,
    ensures
        spec_find_row(rows, key) == spec_find_row(rows.skip(i), key),
    decreases i,
{
    if i > 0 {
        assert(rows[0].id != key);
        assert forall|j: int| 0 <= j < i - 1 implies (#[trigger] rows.drop_first()[j]).id
            != key by {
            assert(rows.drop_first()[j] == rows[j + 1]);
        }
        lemma_find_row_skip(rows.drop_first(), key, i - 1);
        assert(rows.drop_first().skip(i - 1) =~= rows.skip(i));
    } else {
        assert(rows.skip(0) =~= rows);
    }
}

/// The local view of the foreign-owned planet type: only the federation key,
/// constructed transiently per request to host the `satellites` extension
/// field. Building it performs no store lookup; field resolution does the
/// work.
pub struct Planet {
    pub id: String,
}

impl Planet {
    /// The externally-owned key field.
    pub fn id(&self) -> (r: &String)
        ensures
            *r == self.id,
    {
        &self.id
    }

    /// Resolves the extension field: parses the stub's id into the storage
    /// key and selects the rows whose foreign key equals it, in storage
    /// order. A malformed id is a fatal parse error; an empty selection is a
    /// valid empty list, not an error.
    pub fn satellites(&self, rows: &Vec<SatelliteEntity>) -> (r: Result<
        Vec<Satellite>,
        QueryError,
    >)
        ensures
            spec_parse_i32(self.id@) is None ==> r == Result::<Vec<Satellite>, QueryError>::Err(
                QueryError::IdParse(self.id),
            ),
            spec_parse_i32(self.id@) matches Some(pid) ==> {
                let sel = spec_rows_for_planet(rows@, pid);
                &&& ((forall|j: int| 0 <= j < sel.len() ==> spec_entity_ok(#[trigger] sel[j]))
                    ==> r is Ok)
                &&& (r matches Ok(sats) ==> sats@.len() == sel.len() && (forall|j: int|
                    0 <= j < sel.len() ==> spec_entity_ok(#[trigger] sel[j]) && sats@[j]@
                        == spec_satellite_of(sel[j])))
                &&& (r matches Err(e) ==> (e matches QueryError::UnknownLifeExists(t) && exists|
                    j: int,
                |
                    0 <= j < sel.len() && !spec_entity_ok(#[trigger] sel[j]) && sel[j].life_exists
                        == t))
            },
    {
        let pid = match parse_i32(self.id.as_str()) {
            Some(pid) => pid,
            None => {
                return Err(QueryError::IdParse(self.id.clone()));
            },
        };
        let mut sats: Vec<Satellite> = Vec::new();
        let mut i: usize = 0;
        while i < rows.len()
            invariant
                0 <= i <= rows@.len(),
                spec_parse_i32(self.id@) == Some(pid),
                sats@.len() == spec_rows_for_planet(rows@.take(i as int), pid).len(),
                forall|j: int|
                    0 <= j < sats@.len() ==> spec_entity_ok(
                        #[trigger] spec_rows_for_planet(rows@.take(i as int), pid)[j],
                    ) && sats@[j]@ == spec_satellite_of(
                        spec_rows_for_planet(rows@.take(i as int), pid)[j],
                    ),
            decreases rows@.len() - i,
        {
            proof {
                assert(rows@.take(i + 1).drop_last() =~= rows@.take(i as int));
                assert(rows@.take(i + 1).last() == rows@[i as int]);
            }
            if rows[i].planet_id == pid {
                match Satellite::from_entity(&rows[i]) {
                    Ok(s) => {
                        sats.push(s);
                    },
                    Err(e) => {
                        proof {
                            lemma_rows_for_planet_contains(rows@, pid, i as int);
                        }
                        return Err(e);
                    },
                }
            }
            i = i + 1;
        }
        proof {
            assert(rows@.take(rows@.len() as int) =~= rows@);
        }
        Ok(sats)
    }
}

/// A federation entity reference as the gateway sends it: minimally, the
/// key of the foreign-owned object.
pub struct Representation {
    pub id: String,
}

/// The root query operations of the satellites service.
pub struct Query;

impl Query {
    /// Root query: every satellite, mapped from the store's rows in storage
    /// order. A row that cannot be mapped is a fatal error, never a partial
    /// list.
    pub fn satellites(&self, rows: &Vec<SatelliteEntity>) -> (r: Result<
        Vec<Satellite>,
        QueryError,
    >)
        ensures
            (forall|i: int| 0 <= i < rows@.len() ==> spec_entity_ok(#[trigger] rows@[i])) ==> r
                is Ok,
            r matches Ok(sats) ==> sats@.len() == rows@.len() && (forall|i: int|
                0 <= i < rows@.len() ==> spec_entity_ok(#[trigger] rows@[i]) && sats@[i]@
                    == spec_satellite_of(rows@[i])),
            r matches Err(e) ==> (e matches QueryError::UnknownLifeExists(t) && exists|i: int|
                0 <= i < rows@.len() && !spec_entity_ok(#[trigger] rows@[i])
                    && rows@[i].life_exists == t),
    {
        let mut sats: Vec<Satellite> = Vec::new();
        let mut i: usize = 0;
        while i < rows.len()
            invariant
                0 <= i <= rows@.len(),
                sats@.len() == i,
                forall|j: int|
                    0 <= j < i ==> spec_entity_ok(#[trigger] rows@[j]) && sats@[j]@
                        == spec_satellite_of(rows@[j]),
            decreases rows@.len() - i,
        {
            match Satellite::from_entity(&rows[i]) {
                Ok(s) => {
                    sats.push(s);
                },
                Err(e) => {
                    return Err(e);
                },
            }
            i = i + 1;
        }
        Ok(sats)
    }

    /// Root query: one satellite by id. A malformed id is a fatal parse
    /// error; a valid id that matches no row is null (`None`), not an error
    /// — the two failure classes are distinct.
    pub fn satellite(&self, rows: &Vec<SatelliteEntity>, id: String) -> (r: Result<
        Option<Satellite>,
        QueryError,
    >)
        ensures
            spec_parse_i32(id@) is None ==> r == Result::<Option<Satellite>, QueryError>::Err(
                QueryError::IdParse(id),
            ),
            spec_parse_i32(id@) matches Some(key) ==> match spec_find_row(rows@, key) {
                None => r == Result::<Option<Satellite>, QueryError>::Ok(None),
                Some(e) => {
                    &&& (spec_entity_ok(e) ==> (r matches Ok(found) && found matches Some(s)
                        && s@ == spec_satellite_of(e)))
                    &&& (!spec_entity_ok(e) ==> r == Result::<Option<Satellite>, QueryError>::Err(
                        QueryError::UnknownLifeExists(e.life_exists),
                    ))
                },
            },
    {
        let key = match parse_i32(id.as_str()) {
            Some(key) => key,
            None => {
                return Err(QueryError::IdParse(id));
            },
        };
        let mut i: usize = 0;
        while i < rows.len()
            invariant
                0 <= i <= rows@.len(),
                spec_parse_i32(id@) == Some(key),
                forall|j: int| 0 <= j < i ==> (#[trigger] rows@[j]).id != key,
            decreases rows@.len() - i,
        {
            if rows[i].id == key {
                proof {
                    lemma_find_row_skip(rows@, key, i as int);
                    assert(rows@.skip(i as int)[0] == rows@[i as int]);
                }
                return match Satellite::from_entity(&rows[i]) {
                    Ok(s) => Ok(Some(s)),
                    Err(e) => Err(e),
                };
            }
            i = i + 1;
        }
        proof {
            lemma_find_row_skip(rows@, key, rows@.len() as int);
            assert(rows@.skip(rows@.len() as int) =~= Seq::<SatelliteEntity>::empty());
        }
        Ok(None)
    }

    /// Federation stub construction: wraps the key into a local planet
    /// representation without any store lookup. Resolution is lazy; the
    /// stub's fields do the work when selected.
    pub fn get_planet_by_id(&self, id: String) -> (r: Planet)
        ensures
            r.id == id,
    {
        Planet { id }
    }

    /// The entity-resolution entry point: accepts the gateway's list of
    /// representations, each minimally carrying a key, and returns one stub
    /// per representation, in the same order — order preservation is part of
    /// the federation contract.
    pub fn resolve_entities(&self, representations: &Vec<Representation>) -> (r: Vec<Planet>)
        ensures
            r@.len() == representations@.len(),
            forall|i: int|
                0 <= i < r@.len() ==> (#[trigger] r@[i]).id == representations@[i].id,
    {
        let mut stubs: Vec<Planet> = Vec::new();
        let mut i: usize = 0;
        while i < representations.len()
            invariant
                0 <= i <= representations@.len(),
                stubs@.len() == i,
                forall|j: int|
                    0 <= j < i ==> (#[trigger] stubs@[j]).id == representations@[j].id,
            decreases representations@.len() - i,
        {
            let stub = self.get_planet_by_id(representations[i].id.clone());
            stubs.push(stub);
            i = i + 1;
        }
        stubs
    }
}

/// The response shape of one satellite object: each field resolves
/// independently, so the guarded field may fail alone while its siblings
/// still carry their values (partial-response semantics).
pub struct SatelliteResponse {
    pub id: String,
    pub name: String,
    pub life_exists: Result<LifeExists, FieldError>,
    pub first_spacecraft_landing_date: Option<Date>,
}

/// Resolves every field of one satellite for a request whose context
/// carries `ctx_role`. The guarded `life_exists` field yields its value
/// exactly for the Admin role and a field-scoped "Forbidden" error for a
/// missing or other role; the sibling fields return their values in either
/// case.
pub fn resolve_satellite_fields(sat: &Satellite, ctx_role: Option<Role>) -> (r: SatelliteResponse)
    ensures
        r.id == sat.id,
        r.name == sat.name,
        r.first_spacecraft_landing_date == sat.first_spacecraft_landing_date,
        ctx_role == Some(Role::Admin) ==> r.life_exists == Result::<LifeExists, FieldError>::Ok(
            sat.life_exists,
        ),
        ctx_role != Some(Role::Admin) ==> (r.life_exists matches Err(e) && e.message@
            == "Forbidden"@),
{
    let admin_guard = RoleGuard::new(Role::Admin);
    let life_exists = match admin_guard.check(ctx_role) {
        Ok(()) => Ok(sat.life_exists),
        Err(e) => Err(e),
    };
    SatelliteResponse {
        id: sat.id.clone(),
        name: sat.name.clone(),
        life_exists,
        first_spacecraft_landing_date: sat.first_spacecraft_landing_date,
    }
}

} // verus!
