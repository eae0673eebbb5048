use vstd::prelude::*;

use crate::model::{
    ApiErrors, ApiErrorsView, CategoriesResponse, DirectionsResponse, ExitsRequest, Failure,
    FrontalStation, TollsCost, TollsRequest,
};
use crate::orientation::Orientation;
use crate::model::{Gate, Station};
use crate::store::{gate_allowed, ReferenceStore};

verus! {

/// What validation resolves a request to: the ids and orders of its entry and exit.
#[derive(PartialEq, Eq, Structural, Clone, Copy, Debug)]
pub struct Validated {
    pub enter_id: i64,
    pub enter_order: i64,
    pub exit_id: i64,
    pub exit_order: i64,
}

/// The checks of a toll request, made in order; the first that fails decides the error.
pub open spec fn validate_spec(db: ReferenceStore, request: TollsRequest) -> Result<
    Validated,
    Failure,
> {
    match db.station_index(request.enter@) {
        None => Err(Failure::EnterNotFound),
        Some(ei) => match db.station_index(request.exit@) {
            None => Err(Failure::ExitNotFound),
            Some(xi) => {
                let en = db.stations@[ei];
                let ex = db.stations@[xi];
                let d = request.direction as i64;
                if !db.direction_exists_spec(d) {
                    Err(Failure::DirectionNotFound)
                } else if !db.category_exists_spec(request.category as i64) {
                    Err(Failure::CategoryNotFound)
                } else if !db.entry_allowed(en.id, d) {
                    Err(Failure::EnterNotValidForDirection)
                } else if !db.exit_allowed(ex.id, d) {
                    Err(Failure::ExitNotValidForDirection)
                } else if !Orientation::of_spec(request.direction).precedes_spec(
                    en.order,
                    ex.order,
                ) {
                    Err(Failure::EnterAfterExit)
                } else {
                    Ok(
                        Validated {
                            enter_id: en.id,
                            enter_order: en.order,
                            exit_id: ex.id,
                            exit_order: ex.order,
                        },
                    )
                }
            },
        },
    }
}

/// A fare segment is charged on a trip from `enter` to `exit` when the trip covers its span.
pub open spec fn selects(o: Orientation, f: FrontalStation, enter: i64, exit: i64) -> bool {
    o.contains_spec(f.between_station_1, f.between_station_2, enter, exit)
}

/// The charges of the first `n` fare segments, in table order.
pub open spec fn segments_upto(
    fs: Seq<FrontalStation>,
    n: int,
    o: Orientation,
    enter: i64,
    exit: i64,
    category: u8,
) -> Seq<(Seq<char>, i64)>
    decreases n,
{
    if n <= 0 || n > fs.len() {
        Seq::empty()
    } else {
        let prev = segments_upto(fs, n - 1, o, enter, exit, category);
        let f = fs[n - 1];
        if selects(o, f, enter, exit) {
            prev.push((f.name@, f.cost_spec(category).unwrap()))
        } else {
            prev
        }
    }
}

/// The charges of all fare segments that a trip covers.
pub open spec fn segments_spec(
    fs: Seq<FrontalStation>,
    o: Orientation,
    enter: i64,
    exit: i64,
    category: u8,
) -> Seq<(Seq<char>, i64)> {
    segments_upto(fs, fs.len() as int, o, enter, exit, category)
}

/// The charge of a gate: none where its price is zero.
pub open spec fn boundary_charge(station: Seq<char>, price: i64) -> Seq<(Seq<char>, i64)> {
    if price == 0 {
        Seq::empty()
    } else {
        seq![(station, price)]
    }
}

/// The outcome of a toll calculation: the entry charge, the covered fare segments and
/// the exit charge, or the first failed check.
pub open spec fn tolls_spec(db: ReferenceStore, request: TollsRequest) -> Result<
    Seq<(Seq<char>, i64)>,
    Failure,
> {
    match validate_spec(db, request) {
        Err(f) => Err(f),
        Ok(v) => {
            let d = request.direction as i64;
            match db.boundary_cost(v.enter_id, d, false, request.category) {
                None => Err(Failure::PriceNotFound),
                Some(pe) => match db.boundary_cost(v.exit_id, d, true, request.category) {
                    None => Err(Failure::PriceNotFound),
                    Some(px) => Ok(
                        boundary_charge(request.enter@, pe) + segments_spec(
                            db.frontal_stations@,
                            Orientation::of_spec(request.direction),
                            v.enter_order,
                            v.exit_order,
                            request.category,
                        ) + boundary_charge(request.exit@, px),
                    ),
                },
            }
        },
    }
}

/// The views of a list of charges.
pub open spec fn costs_view(v: Seq<TollsCost>) -> Seq<(Seq<char>, i64)> {
    v.map_values(|c: TollsCost| c@)
}

/// What `calculate_tolls` returns for a request against a store.
pub open spec fn calculate_tolls_post(
    db: ReferenceStore,
    request: TollsRequest,
    r: Result<Vec<TollsCost>, ApiErrors>,
) -> bool {
    match tolls_spec(db, request) {
        Ok(out) => r matches Ok(v) && costs_view(v@) == out,
        Err(f) => r matches Err(e) && e@ == ApiErrorsView::ValidationError(f.message_spec()),
    }
}

/// Runs the checks of a toll request in order and resolves its entry and exit.
pub fn validate(request: &TollsRequest, db: &ReferenceStore) -> (r: Result<Validated, Failure>)
    ensures
        r == validate_spec(*db, *request),
{
    let ei = match db.find_station_by_name(&request.enter) {
        None => return Err(Failure::EnterNotFound),
        Some(k) => k,
    };
    let xi = match db.find_station_by_name(&request.exit) {
        None => return Err(Failure::ExitNotFound),
        Some(k) => k,
    };
    let enter_id = db.stations[ei].id;
    let enter_order = db.stations[ei].order;
    let exit_id = db.stations[xi].id;
    let exit_order = db.stations[xi].order;
    let d = request.direction as i64;
    if !db.direction_exists(d) {
        return Err(Failure::DirectionNotFound);
    }
    if !db.category_exists(request.category as i64) {
        return Err(Failure::CategoryNotFound);
    }
    if !db.is_entry_allowed(enter_id, d) {
        return Err(Failure::EnterNotValidForDirection);
    }
    if !db.is_exit_allowed(exit_id, d) {
        return Err(Failure::ExitNotValidForDirection);
    }
    if !Orientation::of(request.direction).precedes(enter_order, exit_order) {
        return Err(Failure::EnterAfterExit);
    }
    Ok(Validated { enter_id, enter_order, exit_id, exit_order })
}

/// The charges of the fare segments that a trip from order `enter` to order `exit` covers,
/// in table order; segments of zero cost are kept.
pub fn select_segments(
    fs: &Vec<FrontalStation>,
    o: Orientation,
    enter: i64,
    exit: i64,
    category: u8,
) -> (r: Vec<TollsCost>)
    requires
        1 <= category <= 4,
    ensures
        costs_view(r@) == segments_spec(fs@, o, enter, exit, category),
{
    let mut out: Vec<TollsCost> = Vec::new();
    let mut i: usize = 0;
    while i < fs.len()
        invariant
            i <= fs@.len(),
            1 <= category <= 4,
            costs_view(out@) == segments_upto(fs@, i as int, o, enter, exit, category),
        decreases fs@.len() - i,
    {
        let f = &fs[i];
        if o.contains(f.between_station_1, f.between_station_2, enter, exit) {
            let cost = f.cost_for(category).unwrap();
            let ghost before = out@;
            out.push(TollsCost { station: f.name.clone(), cost });
            assert(costs_view(out@) =~= costs_view(before).push((f.name@, cost)));
        }
        i = i + 1;
    }
    out
}

/// Computes the toll of a trip: validates the request, then charges the entry gate,
/// every fare segment the trip covers and the exit gate, leaving out gates of zero price.
pub fn calculate_tolls(request: TollsRequest, db: &ReferenceStore) -> (r: Result<
    Vec<TollsCost>,
    ApiErrors,
>)
    ensures
        calculate_tolls_post(*db, request, r),
{
    let v = match validate(&request, db) {
        Err(f) => return Err(f.to_api_error()),
        Ok(v) => v,
    };
    let d = request.direction as i64;
    let entry_price = match db.boundary_price(v.enter_id, d, false) {
        None => return Err(Failure::PriceNotFound.to_api_error()),
        Some(k) => match db.prices[k].cost_for(request.category) {
            None => return Err(Failure::PriceNotFound.to_api_error()),
            Some(c) => c,
        },
    };
    let exit_price = match db.boundary_price(v.exit_id, d, true) {
        None => return Err(Failure::PriceNotFound.to_api_error()),
        Some(k) => match db.prices[k].cost_for(request.category) {
            None => return Err(Failure::PriceNotFound.to_api_error()),
            Some(c) => c,
        },
    };
    let mut tolls_cost: Vec<TollsCost> = Vec::new();
    if entry_price != 0 {
        tolls_cost.push(TollsCost { station: request.enter, cost: entry_price });
    }
    let ghost head = tolls_cost@;
    let mut segments = select_segments(
        &db.frontal_stations,
        Orientation::of(request.direction),
        v.enter_order,
        v.exit_order,
        request.category,
    );
    let ghost mid = segments@;
    tolls_cost.append(&mut segments);
    let ghost body = tolls_cost@;
    if exit_price != 0 {
        tolls_cost.push(TollsCost { station: request.exit, cost: exit_price });
    }
    proof {
        assert(costs_view(head) =~= boundary_charge(request.enter@, entry_price));
        assert(costs_view(body) =~= costs_view(head) + costs_view(mid));
        if exit_price != 0 {
            assert(costs_view(tolls_cost@) =~= costs_view(body).push((request.exit@, exit_price)));
        }
        assert(costs_view(tolls_cost@) =~= costs_view(body) + boundary_charge(
            request.exit@,
            exit_price,
        ));
    }
    Ok(tolls_cost)
}

/// A station is listed as a gate of `direction` when the relation `g` allows it there
/// and, where `from` is given, it lies strictly beyond that order in the direction.
pub open spec fn listed(g: Seq<Gate>, direction: u8, from: Option<i64>, s: Station) -> bool {
    gate_allowed(g, s.id, direction as i64) && match from {
        None => true,
        Some(o) => Orientation::of_spec(direction).beyond_spec(o, s.order),
    }
}

/// The names of the listed stations among the first `n`, in table order.
pub open spec fn names_upto(
    st: Seq<Station>,
    n: int,
    g: Seq<Gate>,
    direction: u8,
    from: Option<i64>,
) -> Seq<Seq<char>>
    decreases n,
{
    if n <= 0 || n > st.len() {
        Seq::empty()
    } else {
        let prev = names_upto(st, n - 1, g, direction, from);
        if listed(g, direction, from, st[n - 1]) {
            prev.push(st[n - 1].name@)
        } else {
            prev
        }
    }
}

pub open spec fn strings_view(v: Seq<String>) -> Seq<Seq<char>> {
    v.map_values(|s: String| s@)
}

fn list_names(stations: &Vec<Station>, g: &Vec<Gate>, direction: u8, from: Option<i64>) -> (r:
    Vec<String>)
    ensures
        strings_view(r@) == names_upto(stations@, stations@.len() as int, g@, direction, from),
{
    let o = Orientation::of(direction);
    let mut out: Vec<String> = Vec::new();
    let mut i: usize = 0;
    while i < stations.len()
        invariant
            i <= stations@.len(),
            o == Orientation::of_spec(direction),
            strings_view(out@) == names_upto(stations@, i as int, g@, direction, from),
        decreases stations@.len() - i,
    {
        let s = &stations[i];
        let mut keep = crate::store::gate_in(g, s.id, direction as i64);
        if keep {
            keep = match from {
                None => true,
                Some(b) => o.beyond(b, s.order),
            };
        }
        if keep {
            let ghost before = out@;
            out.push(s.name.clone());
            assert(strings_view(out@) =~= strings_view(before).push(s.name@));
        }
        i = i + 1;
    }
    out
}

/// The names of the stations that may serve as entry in `direction`, in station table order.
pub fn get_enters(direction: u8, db: &ReferenceStore) -> (r: Vec<String>)
    ensures
        strings_view(r@) == names_upto(
            db.stations@,
            db.stations@.len() as int,
            db.enters@,
            direction,
            None,
        ),
{
    list_names(&db.stations, &db.enters, direction, None)
}

/// The outcome of listing exits: every exit of the direction, or, given an entry
/// station, the exits strictly beyond it in the direction.
pub open spec fn exits_spec(db: ReferenceStore, request: ExitsRequest) -> Result<
    Seq<Seq<char>>,
    Failure,
> {
    let n = db.stations@.len() as int;
    match request.enter {
        None => Ok(names_upto(db.stations@, n, db.exits@, request.direction, None)),
        Some(name) => match db.station_index(name@) {
            None => Err(Failure::EnterNotFound),
            Some(k) => Ok(
                names_upto(
                    db.stations@,
                    n,
                    db.exits@,
                    request.direction,
                    Some(db.stations@[k].order),
                ),
            ),
        },
    }
}

/// Lists the exit stations of a direction, or those reachable from a given entry.
pub fn get_exits(request: ExitsRequest, db: &ReferenceStore) -> (r: Result<Vec<String>, ApiErrors>)
    requires
        request.enter is Some ==> request.direction == 1 || request.direction == 2,
    ensures
        match exits_spec(*db, request) {
            Ok(names) => r matches Ok(v) && strings_view(v@) == names,
            Err(f) => r matches Err(e) && e@ == ApiErrorsView::ValidationError(f.message_spec()),
        },
{
    match &request.enter {
        None => Ok(list_names(&db.stations, &db.exits, request.direction, None)),
        Some(name) => match db.find_station_by_name(name) {
            None => Err(Failure::EnterNotFound.to_api_error()),
            Some(k) => Ok(
                list_names(&db.stations, &db.exits, request.direction, Some(db.stations[k].order)),
            ),
        },
    }
}

pub open spec fn directions_view(v: Seq<DirectionsResponse>) -> Seq<(i64, Seq<char>)> {
    v.map_values(|d: DirectionsResponse| d@)
}

pub open spec fn categories_view(v: Seq<CategoriesResponse>) -> Seq<(i64, Seq<char>)> {
    v.map_values(|c: CategoriesResponse| c@)
}

/// The rows of the directions table.
pub fn get_directions(db: &ReferenceStore) -> (r: Vec<DirectionsResponse>)
    ensures
        directions_view(r@) == directions_view(db.directions@),
{
    let mut out: Vec<DirectionsResponse> = Vec::new();
    let mut i: usize = 0;
    while i < db.directions.len()
        invariant
            i <= db.directions@.len(),
            directions_view(out@) == directions_view(db.directions@.take(i as int)),
        decreases db.directions@.len() - i,
    {
        let d = &db.directions[i];
        let ghost before = out@;
        out.push(DirectionsResponse { id: d.id, name: d.name.clone() });
        assert(db.directions@.take(i + 1) =~= db.directions@.take(i as int).push(*d));
        assert(directions_view(out@) =~= directions_view(before).push(d@));
        assert(directions_view(db.directions@.take(i + 1)) =~= directions_view(db.directions@.take(i as int)).push(d@));
        i = i + 1;
    }
    assert(db.directions@.take(i as int) =~= db.directions@);
    out
}

/// The rows of the categories table.
pub fn get_categories(db: &ReferenceStore) -> (r: Vec<CategoriesResponse>)
    ensures
        categories_view(r@) == categories_view(db.categories@),
{
    let mut out: Vec<CategoriesResponse> = Vec::new();
    let mut i: usize = 0;
    while i < db.categories.len()
        invariant
            i <= db.categories@.len(),
            categories_view(out@) == categories_view(db.categories@.take(i as int)),
        decreases db.categories@.len() - i,
    {
        let c = &db.categories[i];
        let ghost before = out@;
        out.push(CategoriesResponse { id: c.id, name: c.name.clone() });
        assert(db.categories@.take(i + 1) =~= db.categories@.take(i as int).push(*c));
        assert(categories_view(out@) =~= categories_view(before).push(c@));
        assert(categories_view(db.categories@.take(i + 1)) =~= categories_view(db.categories@.take(i as int)).push(c@));
        i = i + 1;
    }
    assert(db.categories@.take(i as int) =~= db.categories@);
    out
}

} // verus!
