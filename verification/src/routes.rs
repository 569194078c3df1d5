//! What the region routes answer, and what they record in the admin
//! activity log.

use vstd::prelude::*;
use crate::models::{ApiRegion, CreateRegionRequest, UpdateRegionRequest};
use crate::validation::{
    create_violations, error_fields, update_violations, validate_create_request,
    validate_update_request, FieldError,
};

verus! {

/// The message of the error body that answers a request for a region that
/// does not exist.
pub const REGION_NOT_FOUND: &'static str = "Region not found.";

/// The answer of an admin route.
pub enum AdminReply {
    /// `200`, with the list of regions.
    Regions(Vec<ApiRegion>),
    /// `200`, with one region.
    Region(ApiRegion),
    /// `400`, with the rules that the request breaks.
    InvalidRequest(Vec<FieldError>),
    /// `404`, with [`REGION_NOT_FOUND`].
    RegionNotFound,
    /// `204`, with an empty body: the region was deleted.
    Deleted,
}

/// The HTTP status of each reply.
pub open spec fn reply_status(r: AdminReply) -> u16 {
    match r {
        AdminReply::Regions(_) => 200,
        AdminReply::Region(_) => 200,
        AdminReply::InvalidRequest(_) => 400,
        AdminReply::RegionNotFound => 404,
        AdminReply::Deleted => 204,
    }
}

impl AdminReply {
    /// The HTTP status of the reply.
    pub fn status_code(&self) -> (s: u16)
        ensures
            s == reply_status(*self),
    {
        match self {
            AdminReply::Regions(_) => 200,
            AdminReply::Region(_) => 200,
            AdminReply::InvalidRequest(_) => 400,
            AdminReply::RegionNotFound => 404,
            AdminReply::Deleted => 204,
        }
    }
}

/// An entry of the admin activity log.
pub enum ActivityEntry {
    RegionCreated { region_uuid: u128, name: String, country_code: String },
    RegionUpdated { region_uuid: u128, name: String },
    RegionDeleted { region_uuid: u128 },
}

/// The event name under which each entry is logged.
pub open spec fn activity_event(e: ActivityEntry) -> Seq<char> {
    match e {
        ActivityEntry::RegionCreated { .. } => "regions:region.create"@,
        ActivityEntry::RegionUpdated { .. } => "regions:region.update"@,
        ActivityEntry::RegionDeleted { .. } => "regions:region.delete"@,
    }
}

impl ActivityEntry {
    /// The event name under which the entry is logged.
    pub fn event(&self) -> (r: &'static str)
        ensures
            r@ == activity_event(*self),
    {
        match self {
            ActivityEntry::RegionCreated { .. } => "regions:region.create",
            ActivityEntry::RegionUpdated { .. } => "regions:region.update",
            ActivityEntry::RegionDeleted { .. } => "regions:region.delete",
        }
    }
}

/// Lets a creation request through, or answers it with the rules it breaks.
pub fn admit_create(req: &CreateRegionRequest) -> (r: Result<(), AdminReply>)
    ensures
        r is Ok <==> create_violations(*req).len() == 0,
        r matches Err(AdminReply::InvalidRequest(errors)) ==> error_fields(errors@)
            == create_violations(*req),
        r is Err ==> r->Err_0 is InvalidRequest,
{
    let errors = validate_create_request(req);
    if errors.len() == 0 {
        Ok(())
    } else {
        Err(AdminReply::InvalidRequest(errors))
    }
}

/// Lets an update request through, or answers it with the rules it breaks.
pub fn admit_update(req: &UpdateRegionRequest) -> (r: Result<(), AdminReply>)
    ensures
        r is Ok <==> update_violations(*req).len() == 0,
        r matches Err(AdminReply::InvalidRequest(errors)) ==> error_fields(errors@)
            == update_violations(*req),
        r is Err ==> r->Err_0 is InvalidRequest,
{
    let errors = validate_update_request(req);
    if errors.len() == 0 {
        Ok(())
    } else {
        Err(AdminReply::InvalidRequest(errors))
    }
}

/// The answer to a request for one region: the region, or `404`.
pub fn get_reply(found: Option<ApiRegion>) -> (r: AdminReply)
    ensures
        match found {
            Some(region) => r == AdminReply::Region(region),
            None => r is RegionNotFound,
        },
{
    match found {
        Some(region) => AdminReply::Region(region),
        None => AdminReply::RegionNotFound,
    }
}

/// The answer to a creation, and the entry it logs: the new region's UUID,
/// name and country code.
pub fn create_reply(region: ApiRegion) -> (r: (AdminReply, ActivityEntry))
    ensures
        r.1 == (ActivityEntry::RegionCreated {
            region_uuid: region.uuid,
            name: region.name,
            country_code: region.country_code,
        }),
        r.0 == AdminReply::Region(region),
{
    let entry = ActivityEntry::RegionCreated {
        region_uuid: region.uuid,
        name: region.name.clone(),
        country_code: region.country_code.clone(),
    };
    (AdminReply::Region(region), entry)
}

/// The answer to an update, and the entry it logs: the region and an entry
/// with its UUID and name when it exists, else `404` and no entry.
pub fn update_reply(found: Option<ApiRegion>) -> (r: (AdminReply, Option<ActivityEntry>))
    ensures
        match found {
            Some(region) => {
                &&& r.0 == AdminReply::Region(region)
                &&& r.1 == Some(
                    ActivityEntry::RegionUpdated { region_uuid: region.uuid, name: region.name },
                )
            },
            None => r.0 is RegionNotFound && r.1 is None,
        },
{
    match found {
        Some(region) => {
            let entry = ActivityEntry::RegionUpdated {
                region_uuid: region.uuid,
                name: region.name.clone(),
            };
            (AdminReply::Region(region), Some(entry))
        },
        None => (AdminReply::RegionNotFound, None),
    }
}

/// The answer to a deletion of region `uuid`, and the entry it logs: `204`
/// and an entry when a region was deleted, else `404` and no entry.
pub fn delete_reply(uuid: u128, deleted: bool) -> (r: (AdminReply, Option<ActivityEntry>))
    ensures
        deleted ==> r.0 is Deleted && r.1 == Some(ActivityEntry::RegionDeleted { region_uuid: uuid }),
        !deleted ==> r.0 is RegionNotFound && r.1 is None,
{
    if deleted {
        (AdminReply::Deleted, Some(ActivityEntry::RegionDeleted { region_uuid: uuid }))
    } else {
        (AdminReply::RegionNotFound, None)
    }
}

/// A region answers `200`, a request that breaks a rule `400`, a missing
/// region `404`, a deletion `204`; no two kinds of reply share a status.
pub proof fn lemma_reply_statuses(r: AdminReply)
    ensures
        reply_status(r) == 200 <==> (r is Region || r is Regions),
        reply_status(r) == 400 <==> r is InvalidRequest,
        reply_status(r) == 404 <==> r is RegionNotFound,
        reply_status(r) == 204 <==> r is Deleted,
{
}

/// The three kinds of entry are logged under three different event names,
/// each in the `regions:region.` namespace.
pub proof fn lemma_activity_events(e: ActivityEntry)
    ensures
        activity_event(e) == "regions:region."@ + (match e {
            ActivityEntry::RegionCreated { .. } => "create"@,
            ActivityEntry::RegionUpdated { .. } => "update"@,
            ActivityEntry::RegionDeleted { .. } => "delete"@,
        }),
{
    reveal_strlit("regions:region.create");
    reveal_strlit("regions:region.update");
    reveal_strlit("regions:region.delete");
    reveal_strlit("regions:region.");
    reveal_strlit("create");
    reveal_strlit("update");
    reveal_strlit("delete");
    assert("regions:region.create"@ =~= "regions:region."@ + "create"@);
    assert("regions:region.update"@ =~= "regions:region."@ + "update"@);
    assert("regions:region.delete"@ =~= "regions:region."@ + "delete"@);
}

} // verus!
