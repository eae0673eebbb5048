use vstd::prelude::*;

use crate::model::{CategoriesResponse, DirectionsResponse, FrontalStation, Gate, Price, Station};

verus! {

/// A snapshot of the reference tables that toll calculations read.
pub struct ReferenceStore {
    pub stations: Vec<Station>,
    pub directions: Vec<DirectionsResponse>,
    pub categories: Vec<CategoriesResponse>,
    pub enters: Vec<Gate>,
    pub exits: Vec<Gate>,
    pub frontal_stations: Vec<FrontalStation>,
    pub prices: Vec<Price>,
}

/// Index of the first station at or after `i` whose name is `name`.
pub open spec fn station_index_from(s: Seq<Station>, name: Seq<char>, i: int) -> Option<int>
    decreases s.len() - i,
{
    if i < 0 || i >= s.len() {
        None
    } else if s[i].name@ == name {
        Some(i)
    } else {
        station_index_from(s, name, i + 1)
    }
}

/// Index of the first price row at or after `i` for a gate of a station in a direction.
pub open spec fn price_index_from(
    p: Seq<Price>,
    station_id: i64,
    direction_id: i64,
    enter_or_exit: i64,
    i: int,
) -> Option<int>
    decreases p.len() - i,
{
    if i < 0 || i >= p.len() {
        None
    } else if p[i].station_id == station_id && p[i].direction_id == direction_id
        && p[i].enter_or_exit == enter_or_exit {
        Some(i)
    } else {
        price_index_from(p, station_id, direction_id, enter_or_exit, i + 1)
    }
}

/// The relation `g` lets station `station_id` serve as a gate in direction `direction_id`.
pub open spec fn gate_allowed(g: Seq<Gate>, station_id: i64, direction_id: i64) -> bool {
    exists|k: int| 0 <= k < g.len() && #[trigger] g[k].station_id == station_id
        && g[k].direction_id == direction_id
}

pub(crate) fn gate_in(g: &Vec<Gate>, station_id: i64, direction_id: i64) -> (r: bool)
    ensures
        r == gate_allowed(g@, station_id, direction_id),
{
    let mut i: usize = 0;
    while i < g.len()
        invariant
            i <= g@.len(),
            forall|k: int| 0 <= k < i ==> !(#[trigger] g@[k].station_id == station_id
                && g@[k].direction_id == direction_id),
        decreases g@.len() - i,
    {
        if g[i].station_id == station_id && g[i].direction_id == direction_id {
            return true;
        }
        i = i + 1;
    }
    false
}

impl ReferenceStore {
    pub open spec fn station_index(&self, name: Seq<char>) -> Option<int> {
        station_index_from(self.stations@, name, 0)
    }

    pub open spec fn direction_exists_spec(&self, direction_id: i64) -> bool {
        exists|k: int| 0 <= k < self.directions@.len() && #[trigger] self.directions@[k].id
            == direction_id
    }

    pub open spec fn category_exists_spec(&self, category_id: i64) -> bool {
        exists|k: int| 0 <= k < self.categories@.len() && #[trigger] self.categories@[k].id
            == category_id
    }

    pub open spec fn entry_allowed(&self, station_id: i64, direction_id: i64) -> bool {
        gate_allowed(self.enters@, station_id, direction_id)
    }

    pub open spec fn exit_allowed(&self, station_id: i64, direction_id: i64) -> bool {
        gate_allowed(self.exits@, station_id, direction_id)
    }

    pub open spec fn flag(is_exit: bool) -> i64 {
        if is_exit {
            1
        } else {
            0
        }
    }

    pub open spec fn price_index(&self, station_id: i64, direction_id: i64, is_exit: bool) -> Option<
        int,
    > {
        price_index_from(self.prices@, station_id, direction_id, Self::flag(is_exit), 0)
    }

    /// The price a gate charges for a category: `None` where no row exists for the
    /// gate or the row has no column for the category.
    pub open spec fn boundary_cost(
        &self,
        station_id: i64,
        direction_id: i64,
        is_exit: bool,
        category: u8,
    ) -> Option<i64> {
        match self.price_index(station_id, direction_id, is_exit) {
            Some(k) => self.prices@[k].cost_spec(category),
            None => None,
        }
    }

    /// Index of the first station named `name`.
    pub fn find_station_by_name(&self, name: &String) -> (r: Option<usize>)
        ensures
            r matches Some(k) ==> k < self.stations@.len() && self.stations@[k as int].name@
                == name@,
            r is Some <==> self.station_index(name@) is Some,
            r matches Some(k) ==> self.station_index(name@) == Some(k as int),
    {
        let mut i: usize = 0;
        while i < self.stations.len()
            invariant
                i <= self.stations@.len(),
                station_index_from(self.stations@, name@, 0) == station_index_from(
                    self.stations@,
                    name@,
                    i as int,
                ),
            decreases self.stations@.len() - i,
        {
            if self.stations[i].name == *name {
                return Some(i);
            }
            i = i + 1;
        }
        None
    }

    /// Whether a station may serve as entry in a direction.
    pub fn is_entry_allowed(&self, station_id: i64, direction_id: i64) -> (r: bool)
        ensures
            r == self.entry_allowed(station_id, direction_id),
    {
        gate_in(&self.enters, station_id, direction_id)
    }

    /// Whether a station may serve as exit in a direction.
    pub fn is_exit_allowed(&self, station_id: i64, direction_id: i64) -> (r: bool)
        ensures
            r == self.exit_allowed(station_id, direction_id),
    {
        gate_in(&self.exits, station_id, direction_id)
    }

    /// Whether the directions table holds `direction_id`.
    pub fn direction_exists(&self, direction_id: i64) -> (r: bool)
        ensures
            r == self.direction_exists_spec(direction_id),
    {
        let mut i: usize = 0;
        while i < self.directions.len()
            invariant
                i <= self.directions@.len(),
                forall|k: int| 0 <= k < i ==> #[trigger] self.directions@[k].id != direction_id,
            decreases self.directions@.len() - i,
        {
            if self.directions[i].id == direction_id {
                return true;
            }
            i = i + 1;
        }
        false
    }

    /// Whether the categories table holds `category_id`.
    pub fn category_exists(&self, category_id: i64) -> (r: bool)
        ensures
            r == self.category_exists_spec(category_id),
    {
        let mut i: usize = 0;
        while i < self.categories.len()
            invariant
                i <= self.categories@.len(),
                forall|k: int| 0 <= k < i ==> #[trigger] self.categories@[k].id != category_id,
            decreases self.categories@.len() - i,
        {
            if self.categories[i].id == category_id {
                return true;
            }
            i = i + 1;
        }
        false
    }

    /// Index of the first price row of the entry (or exit) gate of a station in a direction.
    pub fn boundary_price(&self, station_id: i64, direction_id: i64, is_exit: bool) -> (r: Option<
        usize,
    >)
        ensures
            r matches Some(k) ==> k < self.prices@.len(),
            r is Some <==> self.price_index(station_id, direction_id, is_exit) is Some,
            r matches Some(k) ==> self.price_index(station_id, direction_id, is_exit) == Some(
                k as int,
            ),
    {
        let flag: i64 = if is_exit {
            1
        } else {
            0
        };
        let mut i: usize = 0;
        while i < self.prices.len()
            invariant
                i <= self.prices@.len(),
                flag == Self::flag(is_exit),
                price_index_from(self.prices@, station_id, direction_id, flag, 0)
                    == price_index_from(self.prices@, station_id, direction_id, flag, i as int),
            decreases self.prices@.len() - i,
        {
            let p = &self.prices[i];
            if p.station_id == station_id && p.direction_id == direction_id && p.enter_or_exit
                == flag {
                return Some(i);
            }
            i = i + 1;
        }
        None
    }
}

} // verus!
