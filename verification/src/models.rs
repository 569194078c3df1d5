//! The values that the region routes read and return.
//!
//! A UUID is held as its 128-bit value and a point in time as the number of
//! microseconds since the Unix epoch, in UTC.

use vstd::prelude::*;

verus! {

/// A region as the admin API returns it.
pub struct ApiRegion {
    pub uuid: u128,
    pub name: String,
    pub country_code: String,
    pub city: Option<String>,
    pub visible: bool,
    pub node_uuids: Vec<u128>,
    pub created: i64,
    pub updated: i64,
}

/// A region as the database returns it: `node_uuids` is `None` where the
/// aggregate over the region's nodes gave no array.
pub struct RegionRow {
    pub uuid: u128,
    pub name: String,
    pub country_code: String,
    pub city: Option<String>,
    pub visible: bool,
    pub node_uuids: Option<Vec<u128>>,
    pub created: i64,
    pub updated: i64,
}

/// The body of a request that creates a region.
pub struct CreateRegionRequest {
    pub name: String,
    pub country_code: String,
    pub city: Option<String>,
    pub visible: Option<bool>,
    pub node_uuids: Option<Vec<u128>>,
}

/// The body of a request that changes a region; a field left `None` keeps
/// its stored value.
pub struct UpdateRegionRequest {
    pub name: Option<String>,
    pub country_code: Option<String>,
    pub city: Option<String>,
    pub visible: Option<bool>,
    pub node_uuids: Option<Vec<u128>>,
}

/// The region of a server, as a client of that server sees it.
pub struct ApiServerRegion {
    pub uuid: u128,
    pub name: String,
    pub country_code: String,
    pub city: Option<String>,
}

/// The node list of a row: the aggregated array, or no node at all.
pub open spec fn row_nodes(row: RegionRow) -> Seq<u128> {
    match row.node_uuids {
        Some(v) => v@,
        None => Seq::empty(),
    }
}

/// `api` is the region that `row` stands for: every field carried over, and a
/// missing node array read as the empty list.
pub open spec fn is_api_of_row(api: ApiRegion, row: RegionRow) -> bool {
    &&& api.uuid == row.uuid
    &&& api.name == row.name
    &&& api.country_code == row.country_code
    &&& api.city == row.city
    &&& api.visible == row.visible
    &&& api.node_uuids@ == row_nodes(row)
    &&& api.created == row.created
    &&& api.updated == row.updated
}

/// Turns a database row into the region that the API returns.
pub fn row_to_api(row: RegionRow) -> (r: ApiRegion)
    ensures
        is_api_of_row(r, row),
{
    let node_uuids = match row.node_uuids {
        Some(v) => v,
        None => Vec::new(),
    };
    ApiRegion {
        uuid: row.uuid,
        name: row.name,
        country_code: row.country_code,
        city: row.city,
        visible: row.visible,
        node_uuids,
        created: row.created,
        updated: row.updated,
    }
}

/// Turns the rows of a listing into regions, keeping their order.
pub fn rows_to_api(rows: Vec<RegionRow>) -> (r: Vec<ApiRegion>)
    ensures
        r@.len() == rows@.len(),
        forall|i: int| 0 <= i < rows@.len() ==> is_api_of_row(#[trigger] r@[i], rows@[i]),
{
    let ghost all = rows@;
    let mut out: Vec<ApiRegion> = Vec::new();
    for row in it: rows.into_iter()
        invariant
            it.seq() == all,
            out@.len() == it.index(),
            forall|i: int| 0 <= i < out@.len() ==> is_api_of_row(#[trigger] out@[i], all[i]),
    {
        out.push(row_to_api(row));
    }
    out
}

/// Turns the row of a server's region into the value that the client sees.
pub fn server_region_from_row(row: (u128, String, String, Option<String>)) -> (r: ApiServerRegion)
    ensures
        r.uuid == row.0,
        r.name == row.1,
        r.country_code == row.2,
        r.city == row.3,
{
    let (uuid, name, country_code, city) = row;
    ApiServerRegion { uuid, name, country_code, city }
}

} // verus!
