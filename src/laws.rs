use vstd::prelude::*;

use crate::db::{
    boundary_charge, calculate_tolls_post, costs_view, segments_spec, segments_upto, selects,
    tolls_spec, validate_spec,
};
use crate::model::{ApiErrors, ApiErrorsView, Failure, FrontalStation, TollsCost, TollsRequest};
use crate::orientation::Orientation;
use crate::store::ReferenceStore;

verus! {

/// A trip whose entry and exit share one order covers a fare segment whose span runs in
/// the travel direction only when that span collapses onto the very same order.
pub proof fn lemma_same_order_covers_only_collapsed_span(
    o: Orientation,
    f: FrontalStation,
    order: i64,
)
    requires
        o.precedes_spec(f.between_station_1, f.between_station_2),
        selects(o, f, order, order),
    ensures
        f.between_station_1 == order,
        f.between_station_2 == order,
{
}

proof fn lemma_no_segment_selected(
    fs: Seq<FrontalStation>,
    n: int,
    o: Orientation,
    order: i64,
    category: u8,
)
    requires
        forall|k: int|
            0 <= k < fs.len() ==> !selects(o, #[trigger] fs[k], order, order),
    ensures
        segments_upto(fs, n, o, order, order, category) == Seq::<(Seq<char>, i64)>::empty(),
    decreases n,
{
    if 0 < n <= fs.len() {
        lemma_no_segment_selected(fs, n - 1, o, order, category);
    }
}

/// A valid trip whose entry and exit share one order, on a road where every fare segment
/// spans more than one order in the travel direction, is charged the entry and exit
/// boundary prices alone (each left out where it is zero).
pub proof fn lemma_same_order_charges_only_boundaries(db: ReferenceStore, request: TollsRequest)
    requires
        tolls_spec(db, request) is Ok,
        validate_spec(db, request) matches Ok(v) && v.enter_order == v.exit_order,
        forall|k: int|
            0 <= k < db.frontal_stations@.len() ==> {
                let f = #[trigger] db.frontal_stations@[k];
                &&& Orientation::of_spec(request.direction).precedes_spec(
                    f.between_station_1,
                    f.between_station_2,
                )
                &&& f.between_station_1 != f.between_station_2
            },
    ensures
        ({
            let v = validate_spec(db, request)->Ok_0;
            let d = request.direction as i64;
            tolls_spec(db, request) == Ok::<Seq<(Seq<char>, i64)>, Failure>(
                boundary_charge(
                    request.enter@,
                    db.boundary_cost(v.enter_id, d, false, request.category)->Some_0,
                ) + boundary_charge(
                    request.exit@,
                    db.boundary_cost(v.exit_id, d, true, request.category)->Some_0,
                ),
            )
        }),
{
    let v = validate_spec(db, request)->Ok_0;
    let o = Orientation::of_spec(request.direction);
    let fs = db.frontal_stations@;
    assert forall|k: int| 0 <= k < fs.len() implies !selects(o, #[trigger] fs[k], v.enter_order, v.enter_order) by {
        if selects(o, fs[k], v.enter_order, v.enter_order) {
            lemma_same_order_covers_only_collapsed_span(o, fs[k], v.enter_order);
        }
    }
    lemma_no_segment_selected(fs, fs.len() as int, o, v.enter_order, request.category);
    let d = request.direction as i64;
    let a = boundary_charge(
        request.enter@,
        db.boundary_cost(v.enter_id, d, false, request.category)->Some_0,
    );
    let b = boundary_charge(
        request.exit@,
        db.boundary_cost(v.exit_id, d, true, request.category)->Some_0,
    );
    assert(a + Seq::<(Seq<char>, i64)>::empty() =~= a);
}

/// Unknown inputs are reported by the first check they fail: an unknown entry name, then
/// an unknown exit name, then an unknown direction, then an unknown category.
pub proof fn lemma_unknown_inputs_rejected(db: ReferenceStore, request: TollsRequest)
    ensures
        db.station_index(request.enter@) is None ==> tolls_spec(db, request) == Err::<
            Seq<(Seq<char>, i64)>,
            Failure,
        >(Failure::EnterNotFound),
        db.station_index(request.enter@) is Some && db.station_index(request.exit@) is None
            ==> tolls_spec(db, request) == Err::<Seq<(Seq<char>, i64)>, Failure>(
            Failure::ExitNotFound,
        ),
        db.station_index(request.enter@) is Some && db.station_index(request.exit@) is Some
            && !db.direction_exists_spec(request.direction as i64) ==> tolls_spec(db, request)
            == Err::<Seq<(Seq<char>, i64)>, Failure>(Failure::DirectionNotFound),
        db.station_index(request.enter@) is Some && db.station_index(request.exit@) is Some
            && db.direction_exists_spec(request.direction as i64) && !db.category_exists_spec(
            request.category as i64,
        ) ==> tolls_spec(db, request) == Err::<Seq<(Seq<char>, i64)>, Failure>(
            Failure::CategoryNotFound,
        ),
{
}

/// The messages of the four lookup failures start with the name of what was not found.
pub proof fn lemma_not_found_messages()
    ensures
        Failure::EnterNotFound.message_spec().subrange(0, 16) == "Enter not found."@,
        Failure::ExitNotFound.message_spec().subrange(0, 15) == "Exit not found."@,
        Failure::DirectionNotFound.message_spec().subrange(0, 20) == "Direction not found."@,
        Failure::CategoryNotFound.message_spec().subrange(0, 19) == "Category not found."@,
{
    reveal_strlit("Enter not found. Check enter name provided in body payload.");
    reveal_strlit("Enter not found.");
    reveal_strlit("Exit not found. Check exit name provided in body payload.");
    reveal_strlit("Exit not found.");
    reveal_strlit("Direction not found. Check direction value provided in body payload.");
    reveal_strlit("Direction not found.");
    reveal_strlit("Category not found. Check category value provided in body payload.");
    reveal_strlit("Category not found.");
    assert(Failure::EnterNotFound.message_spec().subrange(0, 16) =~= "Enter not found."@);
    assert(Failure::ExitNotFound.message_spec().subrange(0, 15) =~= "Exit not found."@);
    assert(Failure::DirectionNotFound.message_spec().subrange(0, 20) =~= "Direction not found."@);
    assert(Failure::CategoryNotFound.message_spec().subrange(0, 19) =~= "Category not found."@);
}

/// Once every other check passes, an entry that lies beyond the exit in the travel
/// direction is rejected: for direction 1 an entry of higher order, for direction 2 one
/// of lower order.
pub proof fn lemma_entry_beyond_exit_rejected(db: ReferenceStore, request: TollsRequest)
    requires
        db.station_index(request.enter@) is Some,
        db.station_index(request.exit@) is Some,
        db.direction_exists_spec(request.direction as i64),
        db.category_exists_spec(request.category as i64),
        db.entry_allowed(
            db.stations@[db.station_index(request.enter@)->Some_0].id,
            request.direction as i64,
        ),
        db.exit_allowed(
            db.stations@[db.station_index(request.exit@)->Some_0].id,
            request.direction as i64,
        ),
    ensures
        ({
            let enter_order = db.stations@[db.station_index(request.enter@)->Some_0].order;
            let exit_order = db.stations@[db.station_index(request.exit@)->Some_0].order;
            (request.direction == 1 && enter_order > exit_order) || (request.direction == 2
                && enter_order < exit_order) ==> tolls_spec(db, request) == Err::<
                Seq<(Seq<char>, i64)>,
                Failure,
            >(Failure::EnterAfterExit)
        }),
{
}

/// The mathematical value of a result of `calculate_tolls`.
pub open spec fn result_view(r: Result<Vec<TollsCost>, ApiErrors>) -> Result<
    Seq<(Seq<char>, i64)>,
    ApiErrorsView,
> {
    match r {
        Ok(v) => Ok(costs_view(v@)),
        Err(e) => Err(e@),
    }
}

/// Two calculations of one request against one unchanged store give the same result.
pub proof fn lemma_calculation_deterministic(
    db: ReferenceStore,
    request: TollsRequest,
    r1: Result<Vec<TollsCost>, ApiErrors>,
    r2: Result<Vec<TollsCost>, ApiErrors>,
)
    requires
        calculate_tolls_post(db, request, r1),
        calculate_tolls_post(db, request, r2),
    ensures
        result_view(r1) == result_view(r2),
{
}

/// A boundary price of zero is left out: with a free entry gate the charges start with
/// the fare segments, and with a free exit gate they end with them.
pub proof fn lemma_zero_boundary_omitted(db: ReferenceStore, request: TollsRequest)
    requires
        tolls_spec(db, request) is Ok,
    ensures
        ({
            let v = validate_spec(db, request)->Ok_0;
            let d = request.direction as i64;
            let pe = db.boundary_cost(v.enter_id, d, false, request.category)->Some_0;
            let px = db.boundary_cost(v.exit_id, d, true, request.category)->Some_0;
            let segs = segments_spec(
                db.frontal_stations@,
                Orientation::of_spec(request.direction),
                v.enter_order,
                v.exit_order,
                request.category,
            );
            &&& pe == 0 ==> tolls_spec(db, request)->Ok_0 == segs + boundary_charge(
                request.exit@,
                px,
            )
            &&& px == 0 ==> tolls_spec(db, request)->Ok_0 == boundary_charge(request.enter@, pe)
                + segs
        }),
{
    let v = validate_spec(db, request)->Ok_0;
    let d = request.direction as i64;
    let pe = db.boundary_cost(v.enter_id, d, false, request.category)->Some_0;
    let px = db.boundary_cost(v.exit_id, d, true, request.category)->Some_0;
    let segs = segments_spec(
        db.frontal_stations@,
        Orientation::of_spec(request.direction),
        v.enter_order,
        v.exit_order,
        request.category,
    );
    let e = Seq::<(Seq<char>, i64)>::empty();
    assert(e + segs =~= segs);
    assert(boundary_charge(request.enter@, pe) + segs + e =~= boundary_charge(request.enter@, pe)
        + segs);
}

} // verus!
