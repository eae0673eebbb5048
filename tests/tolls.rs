use tolls::db::{calculate_tolls, get_categories, get_directions, get_enters, get_exits};
use tolls::model::{
    ApiErrors, CategoriesResponse, DirectionsResponse, ExitsRequest, Failure, FrontalStation,
    Gate, Price, Station, TollsCost, TollsRequest,
};
use tolls::store::ReferenceStore;

fn station(id: i64, name: &str, order: i64) -> Station {
    Station { id, name: name.to_string(), order }
}

fn gate(station_id: i64, direction_id: i64) -> Gate {
    Gate { station_id, direction_id }
}

fn price(station_id: i64, direction_id: i64, enter_or_exit: i64, cats: [i64; 4]) -> Price {
    Price {
        station_id,
        direction_id,
        enter_or_exit,
        cat_1: cats[0],
        cat_2: cats[1],
        cat_3: cats[2],
        cat_4: cats[3],
    }
}

fn segment(id: i64, name: &str, cats: [i64; 4], first: i64, second: i64) -> FrontalStation {
    FrontalStation {
        id,
        name: name.to_string(),
        cat_1: cats[0],
        cat_2: cats[1],
        cat_3: cats[2],
        cat_4: cats[3],
        between_station_1: first,
        between_station_2: second,
    }
}

/// A(order 1) .. M(segment over 1..5) .. B(order 6) for direction 1, and
/// F(order 9) .. N(segment over 9..8) .. G(order 8) for direction 2.
fn store(entry_price_a: i64) -> ReferenceStore {
    ReferenceStore {
        stations: vec![
            station(1, "A", 1),
            station(2, "B", 6),
            station(3, "C", 3),
            station(4, "D", 7),
            station(5, "E", 4),
            station(6, "F", 9),
            station(7, "G", 8),
        ],
        directions: vec![
            DirectionsResponse { id: 1, name: "North".to_string() },
            DirectionsResponse { id: 2, name: "South".to_string() },
        ],
        categories: vec![
            CategoriesResponse { id: 1, name: "Car".to_string() },
            CategoriesResponse { id: 2, name: "Van".to_string() },
            CategoriesResponse { id: 3, name: "Truck".to_string() },
            CategoriesResponse { id: 4, name: "Bike".to_string() },
            CategoriesResponse { id: 5, name: "Bus".to_string() },
        ],
        enters: vec![gate(1, 1), gate(2, 1), gate(5, 1), gate(3, 2), gate(4, 2), gate(6, 2)],
        exits: vec![gate(2, 1), gate(1, 1), gate(5, 1), gate(4, 2), gate(3, 2), gate(7, 2)],
        frontal_stations: vec![
            segment(1, "M", [100, 0, 300, 400], 1, 5),
            segment(2, "N", [110, 220, 330, 440], 9, 8),
        ],
        prices: vec![
            price(1, 1, 0, [entry_price_a, 260, 270, 280]),
            price(2, 1, 0, [10, 10, 10, 10]),
            price(5, 1, 0, [20, 20, 20, 20]),
            price(2, 1, 1, [300, 310, 320, 330]),
            price(1, 1, 1, [50, 50, 50, 50]),
            price(5, 1, 1, [40, 40, 40, 40]),
            price(6, 2, 0, [70, 0, 70, 70]),
            price(7, 2, 1, [90, 90, 0, 90]),
        ],
    }
}

fn request(enter: &str, exit: &str, direction: u8, category: u8) -> TollsRequest {
    TollsRequest { enter: enter.to_string(), exit: exit.to_string(), direction, category }
}

fn costs(r: Result<Vec<TollsCost>, ApiErrors>) -> Vec<(String, i64)> {
    match r {
        Ok(v) => v.into_iter().map(|c| (c.station, c.cost)).collect(),
        Err(ApiErrors::ValidationError(m)) => panic!("validation error: {}", m),
        Err(ApiErrors::SqlError(m)) => panic!("store error: {}", m),
    }
}

fn validation_message(r: Result<Vec<TollsCost>, ApiErrors>) -> String {
    match r {
        Err(ApiErrors::ValidationError(m)) => m,
        Err(ApiErrors::SqlError(m)) => panic!("store error: {}", m),
        Ok(_) => panic!("expected a validation error"),
    }
}

fn pairs(v: &[(&str, i64)]) -> Vec<(String, i64)> {
    v.iter().map(|(s, c)| (s.to_string(), *c)).collect()
}

#[test]
fn full_trip_charges_entry_segment_and_exit() {
    let r = calculate_tolls(request("A", "B", 1, 1), &store(250));
    assert_eq!(costs(r), pairs(&[("A", 250), ("M", 100), ("B", 300)]));
}

#[test]
fn free_entry_gate_is_left_out() {
    let r = calculate_tolls(request("A", "B", 1, 1), &store(0));
    assert_eq!(costs(r), pairs(&[("M", 100), ("B", 300)]));
}

#[test]
fn free_entry_gate_in_direction_two_is_left_out() {
    let r = calculate_tolls(request("F", "G", 2, 2), &store(250));
    assert_eq!(costs(r), pairs(&[("N", 220), ("G", 90)]));
}

#[test]
fn free_exit_gate_is_left_out() {
    let r = calculate_tolls(request("F", "G", 2, 3), &store(250));
    assert_eq!(costs(r), pairs(&[("F", 70), ("N", 330)]));
}

#[test]
fn direction_two_with_entry_before_exit_is_rejected() {
    let r = calculate_tolls(request("C", "D", 2, 1), &store(250));
    assert_eq!(validation_message(r), "Enter is before exit.");
}

#[test]
fn direction_one_with_entry_beyond_exit_is_rejected() {
    let r = calculate_tolls(request("B", "A", 1, 1), &store(250));
    assert_eq!(validation_message(r), "Enter is before exit.");
}

#[test]
fn unknown_category_is_rejected() {
    let r = calculate_tolls(request("A", "B", 1, 9), &store(250));
    let m = validation_message(r);
    assert!(m.contains("Category not found"));
    assert_eq!(m, "Category not found. Check category value provided in body payload.");
}

#[test]
fn unknown_entry_is_rejected() {
    let r = calculate_tolls(request("Z", "B", 1, 1), &store(250));
    let m = validation_message(r);
    assert!(m.contains("Enter not found."));
    assert_eq!(m, "Enter not found. Check enter name provided in body payload.");
}

#[test]
fn unknown_entry_wins_over_later_failures() {
    let r = calculate_tolls(request("Z", "Y", 9, 9), &store(250));
    assert!(validation_message(r).starts_with("Enter not found."));
}

#[test]
fn unknown_exit_is_rejected() {
    let r = calculate_tolls(request("A", "Y", 1, 1), &store(250));
    let m = validation_message(r);
    assert!(m.contains("Exit not found."));
    assert_eq!(m, "Exit not found. Check exit name provided in body payload.");
}

#[test]
fn unknown_direction_is_rejected() {
    let r = calculate_tolls(request("A", "B", 3, 9), &store(250));
    let m = validation_message(r);
    assert!(m.contains("Direction not found."));
    assert_eq!(m, "Direction not found. Check direction value provided in body payload.");
}

#[test]
fn entry_not_allowed_for_direction_is_rejected() {
    let r = calculate_tolls(request("C", "B", 1, 1), &store(250));
    assert_eq!(validation_message(r), "Enter is not valid for specific direction.");
}

#[test]
fn exit_not_allowed_for_direction_is_rejected() {
    let r = calculate_tolls(request("A", "D", 1, 1), &store(250));
    assert_eq!(validation_message(r), "Exit is not valid for specific direction.");
}

#[test]
fn missing_price_row_is_reported() {
    let mut db = store(250);
    db.prices.retain(|p| !(p.station_id == 2 && p.enter_or_exit == 1));
    let r = calculate_tolls(request("A", "B", 1, 1), &db);
    assert_eq!(validation_message(r), "Price not found. Check DB.");
}

#[test]
fn category_without_price_column_is_reported() {
    let r = calculate_tolls(request("A", "B", 1, 5), &store(250));
    assert_eq!(validation_message(r), "Price not found. Check DB.");
}

#[test]
fn same_order_trip_charges_boundaries_only() {
    let r = calculate_tolls(request("E", "E", 1, 1), &store(250));
    assert_eq!(costs(r), pairs(&[("E", 20), ("E", 40)]));
}

#[test]
fn zero_cost_segment_is_kept() {
    let r = calculate_tolls(request("A", "B", 1, 2), &store(250));
    assert_eq!(costs(r), pairs(&[("A", 260), ("M", 0), ("B", 310)]));
}

#[test]
fn other_categories_select_their_columns() {
    let db = store(250);
    assert_eq!(
        costs(calculate_tolls(request("A", "B", 1, 3), &db)),
        pairs(&[("A", 270), ("M", 300), ("B", 320)])
    );
    assert_eq!(
        costs(calculate_tolls(request("A", "B", 1, 4), &db)),
        pairs(&[("A", 280), ("M", 400), ("B", 330)])
    );
}

#[test]
fn direction_two_charges_covered_segment() {
    let r = calculate_tolls(request("F", "G", 2, 1), &store(250));
    assert_eq!(costs(r), pairs(&[("F", 70), ("N", 110), ("G", 90)]));
}

#[test]
fn short_trip_skips_segment_it_does_not_cover() {
    // E(order 4) -> B(order 6) does not cover M's span 1..5.
    let r = calculate_tolls(request("E", "B", 1, 1), &store(250));
    assert_eq!(costs(r), pairs(&[("E", 20), ("B", 300)]));
}

#[test]
fn repeated_calculation_gives_same_result() {
    let db = store(250);
    let first = costs(calculate_tolls(request("A", "B", 1, 1), &db));
    let second = costs(calculate_tolls(request("A", "B", 1, 1), &db));
    assert_eq!(first, second);
}

#[test]
fn enters_of_a_direction_in_station_order() {
    let db = store(250);
    assert_eq!(get_enters(1, &db), vec!["A", "B", "E"]);
    assert_eq!(get_enters(2, &db), vec!["C", "D", "F"]);
    assert!(get_enters(7, &db).is_empty());
}

#[test]
fn exits_of_a_direction() {
    let db = store(250);
    let r = get_exits(ExitsRequest { direction: 1, enter: None }, &db);
    assert_eq!(names(r), vec!["A", "B", "E"]);
}

#[test]
fn exits_beyond_an_entry() {
    let db = store(250);
    let r = get_exits(ExitsRequest { direction: 1, enter: Some("A".to_string()) }, &db);
    assert_eq!(names(r), vec!["B", "E"]);
    let r = get_exits(ExitsRequest { direction: 2, enter: Some("D".to_string()) }, &db);
    assert_eq!(names(r), vec!["C"]);
    let r = get_exits(ExitsRequest { direction: 1, enter: Some("B".to_string()) }, &db);
    assert!(names(r).is_empty());
}

#[test]
fn exits_from_unknown_entry_are_rejected() {
    let db = store(250);
    let r = get_exits(ExitsRequest { direction: 1, enter: Some("Z".to_string()) }, &db);
    match r {
        Err(ApiErrors::ValidationError(m)) => {
            assert_eq!(m, "Enter not found. Check enter name provided in body payload.")
        }
        _ => panic!("expected a validation error"),
    }
}

fn names(r: Result<Vec<String>, ApiErrors>) -> Vec<String> {
    match r {
        Ok(v) => v,
        Err(_) => panic!("expected a list of names"),
    }
}

#[test]
fn directions_and_categories_are_listed() {
    let db = store(250);
    let d: Vec<(i64, String)> = get_directions(&db).into_iter().map(|d| (d.id, d.name)).collect();
    assert_eq!(d, vec![(1, "North".to_string()), (2, "South".to_string())]);
    let c: Vec<i64> = get_categories(&db).into_iter().map(|c| c.id).collect();
    assert_eq!(c, vec![1, 2, 3, 4, 5]);
    assert_eq!(get_categories(&db)[2].name, "Truck");
}

#[test]
fn failure_messages() {
    assert_eq!(Failure::EnterAfterExit.message(), "Enter is before exit.");
    assert_eq!(Failure::PriceNotFound.message(), "Price not found. Check DB.");
    match Failure::ExitNotValidForDirection.to_api_error() {
        ApiErrors::ValidationError(m) => assert_eq!(m, "Exit is not valid for specific direction."),
        ApiErrors::SqlError(_) => panic!("expected a validation error"),
    }
}
