//! The permissions that the extension declares, and the permission that
//! each route demands.

use vstd::prelude::*;
use indexmap::IndexMap;
use crate::ExtensionStruct;

verus! {

#[verifier::external_type_specification]
#[verifier::external_body]
#[verifier::reject_recursive_types(K)]
#[verifier::reject_recursive_types(V)]
#[verifier::reject_recursive_types(S)]
pub struct ExIndexMap<K, V, S>(IndexMap<K, V, S>);

/// The entries of a map of permission names to descriptions, in the map's
/// order.
pub uninterp spec fn permission_entries(m: IndexMap<&'static str, &'static str>) -> Seq<(Seq<char>, Seq<char>)>;

/// Calls `IndexMap::from` on two pairs with different keys. An `IndexMap`
/// keeps its entries in the order in which they were inserted, and `from`
/// inserts the pairs of the array in turn, so the map holds both pairs in the
/// order of the array.
#[verifier::external_body]
fn index_map_from(pairs: [(&'static str, &'static str); 2]) -> (m: IndexMap<&'static str, &'static str>)
    requires
        pairs@[0].0@ != pairs@[1].0@,
    ensures
        permission_entries(m) == seq![
            (pairs@[0].0@, pairs@[0].1@),
            (pairs@[1].0@, pairs@[1].1@),
        ],
{
    IndexMap::from(pairs)
}

/// A group of admin permissions: every permission of the group is named by
/// the group's name, a dot, and the permission's key.
pub struct AdminPermissionGroup {
    pub name: &'static str,
    pub description: &'static str,
    /// The permissions' keys with their descriptions.
    pub permissions: IndexMap<&'static str, &'static str>,
}

/// The keys and descriptions of the region permissions, in order.
pub open spec fn region_permission_entries() -> Seq<(Seq<char>, Seq<char>)> {
    seq![
        ("view"@, "Allows viewing configured regions."@),
        ("manage"@, "Allows creating, updating, and deleting regions and node assignments."@),
    ]
}

impl ExtensionStruct {
    /// The admin permission group that the extension declares.
    pub fn admin_permission_group(&self) -> (g: AdminPermissionGroup)
        ensures
            g.name@ == "regions"@,
            g.description@ == "Permissions for managing server regions."@,
            permission_entries(g.permissions) == region_permission_entries(),
    {
        proof {
            reveal_strlit("view");
            reveal_strlit("manage");
        }
        let pairs = [
            ("view", "Allows viewing configured regions."),
            ("manage", "Allows creating, updating, and deleting regions and node assignments."),
        ];
        assert(pairs@[0].0@ == "view"@ && pairs@[1].0@ == "manage"@);
        AdminPermissionGroup {
            name: "regions",
            description: "Permissions for managing server regions.",
            permissions: index_map_from(pairs),
        }
    }
}

/// A route of the extension.
#[derive(PartialEq, Eq, Structural, Clone, Copy, Debug)]
pub enum RegionRoute {
    ListRegions,
    GetRegion,
    CreateRegion,
    UpdateRegion,
    DeleteRegion,
    /// The region of a server, asked for by a client of that server.
    ServerRegion,
}

/// Whether a route belongs to the admin API.
pub open spec fn is_admin_route(r: RegionRoute) -> bool {
    !(r is ServerRegion)
}

/// Whether a route only reads.
pub open spec fn is_read_route(r: RegionRoute) -> bool {
    r is ListRegions || r is GetRegion || r is ServerRegion
}

/// The permission that a route demands of the caller.
pub open spec fn route_permission(r: RegionRoute) -> Seq<char> {
    match r {
        RegionRoute::ListRegions => "regions.view"@,
        RegionRoute::GetRegion => "regions.view"@,
        RegionRoute::CreateRegion => "regions.manage"@,
        RegionRoute::UpdateRegion => "regions.manage"@,
        RegionRoute::DeleteRegion => "regions.manage"@,
        RegionRoute::ServerRegion => "server.read"@,
    }
}

impl RegionRoute {
    /// The permission that the route demands: the admin routes an admin
    /// permission of the region group, the client route the server's read
    /// permission.
    pub fn required_permission(&self) -> (p: &'static str)
        ensures
            p@ == route_permission(*self),
    {
        match self {
            RegionRoute::ListRegions => "regions.view",
            RegionRoute::GetRegion => "regions.view",
            RegionRoute::CreateRegion => "regions.manage",
            RegionRoute::UpdateRegion => "regions.manage",
            RegionRoute::DeleteRegion => "regions.manage",
            RegionRoute::ServerRegion => "server.read",
        }
    }
}

/// Every admin route demands a permission that the extension declares: the
/// group's name, a dot, and a key of the group; `view` for the routes that
/// read and `manage` for those that write.
pub proof fn lemma_admin_routes_use_declared_permissions(r: RegionRoute)
    requires
        is_admin_route(r),
    ensures
        route_permission(r) == "regions"@ + "."@ + (if is_read_route(r) {
            region_permission_entries()[0].0
        } else {
            region_permission_entries()[1].0
        }),
{
    reveal_strlit("regions.view");
    reveal_strlit("regions.manage");
    reveal_strlit("regions");
    reveal_strlit(".");
    reveal_strlit("view");
    reveal_strlit("manage");
    assert("regions.view"@ =~= "regions"@ + "."@ + "view"@);
    assert("regions.manage"@ =~= "regions"@ + "."@ + "manage"@);
}

} // verus!
