use vstd::prelude::*;

verus! {

/// Request body for listing the entry stations of a direction.
pub struct EntersRequest {
    pub direction: u8,
}

/// Request body for listing exit stations, optionally only those reachable from `enter`.
pub struct ExitsRequest {
    pub direction: u8,
    pub enter: Option<String>,
}

/// A row of the directions table.
pub struct DirectionsResponse {
    pub id: i64,
    pub name: String,
}

impl View for DirectionsResponse {
    type V = (i64, Seq<char>);

    open spec fn view(&self) -> (i64, Seq<char>) {
        (self.id, self.name@)
    }
}

/// A row of the categories table.
pub struct CategoriesResponse {
    pub id: i64,
    pub name: String,
}

impl View for CategoriesResponse {
    type V = (i64, Seq<char>);

    open spec fn view(&self) -> (i64, Seq<char>) {
        (self.id, self.name@)
    }
}

/// A toll calculation request: entry and exit station names, direction and fare category.
pub struct TollsRequest {
    pub enter: String,
    pub exit: String,
    pub direction: u8,
    pub category: u8,
}

/// Errors handed back to the transport layer.
pub enum ApiErrors {
    /// A fault of the request (or of the reference data it resolves to).
    ValidationError(String),
    /// A fault of the reference store itself.
    SqlError(String),
}

/// The mathematical value of an `ApiErrors`.
pub enum ApiErrorsView {
    ValidationError(Seq<char>),
    SqlError(Seq<char>),
}

impl View for ApiErrors {
    type V = ApiErrorsView;

    open spec fn view(&self) -> ApiErrorsView {
        match self {
            ApiErrors::ValidationError(m) => ApiErrorsView::ValidationError(m@),
            ApiErrors::SqlError(m) => ApiErrorsView::SqlError(m@),
        }
    }
}

/// A station of the roadway; `order` is its rank along the road.
pub struct Station {
    pub id: i64,
    pub name: String,
    pub order: i64,
}

/// A row of the entry-allowed or exit-allowed relation.
pub struct Gate {
    pub station_id: i64,
    pub direction_id: i64,
}

/// A boundary price row. Costs are in hundredths of the currency unit.
/// `enter_or_exit` is 0 for the entry gate and 1 for the exit gate.
pub struct Price {
    pub station_id: i64,
    pub direction_id: i64,
    pub enter_or_exit: i64,
    pub cat_1: i64,
    pub cat_2: i64,
    pub cat_3: i64,
    pub cat_4: i64,
}

/// An intermediate fare point charged on trips whose span covers
/// `between_station_1 .. between_station_2` (station orders).
/// Costs are in hundredths of the currency unit.
pub struct FrontalStation {
    pub id: i64,
    pub name: String,
    pub cat_1: i64,
    pub cat_2: i64,
    pub cat_3: i64,
    pub cat_4: i64,
    pub between_station_1: i64,
    pub between_station_2: i64,
}

/// One charge of a toll: the station and its cost in hundredths of the currency unit.
pub struct TollsCost {
    pub station: String,
    pub cost: i64,
}

impl View for TollsCost {
    type V = (Seq<char>, i64);

    open spec fn view(&self) -> (Seq<char>, i64) {
        (self.station@, self.cost)
    }
}

/// Selects the price column of a fare category; categories other than 1 to 4 have none.
pub open spec fn column(c1: i64, c2: i64, c3: i64, c4: i64, category: u8) -> Option<i64> {
    if category == 1 {
        Some(c1)
    } else if category == 2 {
        Some(c2)
    } else if category == 3 {
        Some(c3)
    } else if category == 4 {
        Some(c4)
    } else {
        None
    }
}

fn select_column(c1: i64, c2: i64, c3: i64, c4: i64, category: u8) -> (r: Option<i64>)
    ensures
        r == column(c1, c2, c3, c4, category),
{
    match category {
        1 => Some(c1),
        2 => Some(c2),
        3 => Some(c3),
        4 => Some(c4),
        _ => None,
    }
}

impl Price {
    pub open spec fn cost_spec(&self, category: u8) -> Option<i64> {
        column(self.cat_1, self.cat_2, self.cat_3, self.cat_4, category)
    }

    /// The boundary price of this row for a fare category.
    pub fn cost_for(&self, category: u8) -> (r: Option<i64>)
        ensures
            r == self.cost_spec(category),
    {
        select_column(self.cat_1, self.cat_2, self.cat_3, self.cat_4, category)
    }
}

impl FrontalStation {
    pub open spec fn cost_spec(&self, category: u8) -> Option<i64> {
        column(self.cat_1, self.cat_2, self.cat_3, self.cat_4, category)
    }

    /// The charge of this fare point for a fare category.
    pub fn cost_for(&self, category: u8) -> (r: Option<i64>)
        ensures
            r == self.cost_spec(category),
    {
        select_column(self.cat_1, self.cat_2, self.cat_3, self.cat_4, category)
    }
}

/// The reason a toll calculation fails, in the order the checks are made.
#[derive(PartialEq, Eq, Structural, Clone, Copy, Debug)]
pub enum Failure {
    EnterNotFound,
    ExitNotFound,
    DirectionNotFound,
    CategoryNotFound,
    EnterNotValidForDirection,
    ExitNotValidForDirection,
    EnterAfterExit,
    PriceNotFound,
}

impl Failure {
    pub open spec fn message_spec(self) -> Seq<char> {
        match self {
            Failure::EnterNotFound => "Enter not found. Check enter name provided in body payload."@,
            Failure::ExitNotFound => "Exit not found. Check exit name provided in body payload."@,
            Failure::DirectionNotFound =>
                "Direction not found. Check direction value provided in body payload."@,
            Failure::CategoryNotFound =>
                "Category not found. Check category value provided in body payload."@,
            Failure::EnterNotValidForDirection => "Enter is not valid for specific direction."@,
            Failure::ExitNotValidForDirection => "Exit is not valid for specific direction."@,
            Failure::EnterAfterExit => "Enter is before exit."@,
            Failure::PriceNotFound => "Price not found. Check DB."@,
        }
    }

    /// The human-readable message that callers see for this failure.
    pub fn message(&self) -> (r: String)
        ensures
            r@ == self.message_spec(),
    {
        match self {
            Failure::EnterNotFound => String::from_str(
                "Enter not found. Check enter name provided in body payload.",
            ),
            Failure::ExitNotFound => String::from_str(
                "Exit not found. Check exit name provided in body payload.",
            ),
            Failure::DirectionNotFound => String::from_str(
                "Direction not found. Check direction value provided in body payload.",
            ),
            Failure::CategoryNotFound => String::from_str(
                "Category not found. Check category value provided in body payload.",
            ),
            Failure::EnterNotValidForDirection => String::from_str(
                "Enter is not valid for specific direction.",
            ),
            Failure::ExitNotValidForDirection => String::from_str(
                "Exit is not valid for specific direction.",
            ),
            Failure::EnterAfterExit => String::from_str("Enter is before exit."),
            Failure::PriceNotFound => String::from_str("Price not found. Check DB."),
        }
    }

    /// The failure as a validation error of the API.
    pub fn to_api_error(&self) -> (r: ApiErrors)
        ensures
            r@ == ApiErrorsView::ValidationError(self.message_spec()),
    {
        ApiErrors::ValidationError(self.message())
    }
}

} // verus!
