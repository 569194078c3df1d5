use regions::manager::{
    insert_params, region_deleted, start_create, start_update, update_params, FlowAction,
    Statement, StatementResult, WriteError, WriteOutcome, REGION_MISSING_AFTER_CREATE,
};
use regions::models::{
    row_to_api, rows_to_api, server_region_from_row, ApiRegion, CreateRegionRequest, RegionRow,
    UpdateRegionRequest,
};
use regions::permissions::RegionRoute;
use regions::routes::{
    admit_create, admit_update, create_reply, delete_reply, get_reply, update_reply,
    ActivityEntry, AdminReply, REGION_NOT_FOUND,
};
use regions::validation::{validate_create_request, validate_update_request, RegionField};
use regions::ExtensionStruct;

fn row(uuid: u128, name: &str, nodes: Option<Vec<u128>>) -> RegionRow {
    RegionRow {
        uuid,
        name: name.to_string(),
        country_code: "DE".to_string(),
        city: Some("Berlin".to_string()),
        visible: true,
        node_uuids: nodes,
        created: 1_700_000_000_000_000,
        updated: 1_700_000_000_500_000,
    }
}

fn region(uuid: u128, name: &str) -> ApiRegion {
    row_to_api(row(uuid, name, Some(vec![7])))
}

fn create_request(name: &str, country_code: &str, city: Option<&str>) -> CreateRegionRequest {
    CreateRegionRequest {
        name: name.to_string(),
        country_code: country_code.to_string(),
        city: city.map(|c| c.to_string()),
        visible: None,
        node_uuids: None,
    }
}

fn empty_update() -> UpdateRegionRequest {
    UpdateRegionRequest { name: None, country_code: None, city: None, visible: None, node_uuids: None }
}

#[test]
fn row_without_nodes_has_empty_node_list() {
    let api = row_to_api(row(1, "Frankfurt", None));
    assert!(api.node_uuids.is_empty());
    assert_eq!(api.uuid, 1);
    assert_eq!(api.name, "Frankfurt");
    assert_eq!(api.country_code, "DE");
    assert_eq!(api.city.as_deref(), Some("Berlin"));
    assert!(api.visible);
    assert_eq!(api.created, 1_700_000_000_000_000);
    assert_eq!(api.updated, 1_700_000_000_500_000);
}

#[test]
fn row_with_nodes_keeps_them_in_order() {
    let api = row_to_api(row(2, "Paris", Some(vec![30, 10, 20])));
    assert_eq!(api.node_uuids, vec![30, 10, 20]);
}

#[test]
fn listing_keeps_row_order() {
    let rows = vec![row(1, "Amsterdam", None), row(2, "Berlin", Some(vec![5])), row(3, "Chicago", None)];
    let api = rows_to_api(rows);
    let names: Vec<&str> = api.iter().map(|r| r.name.as_str()).collect();
    assert_eq!(names, vec!["Amsterdam", "Berlin", "Chicago"]);
    assert_eq!(api[1].node_uuids, vec![5]);
    assert!(rows_to_api(Vec::new()).is_empty());
}

#[test]
fn server_region_takes_the_row_fields() {
    let r = server_region_from_row((9, "Tokyo".to_string(), "JP".to_string(), None));
    assert_eq!(r.uuid, 9);
    assert_eq!(r.name, "Tokyo");
    assert_eq!(r.country_code, "JP");
    assert!(r.city.is_none());
}

#[test]
fn valid_creation_has_no_errors() {
    assert!(validate_create_request(&create_request("Frankfurt", "DE", Some("Frankfurt am Main"))).is_empty());
    assert!(validate_create_request(&create_request("F", "de", None)).is_empty());
    assert!(admit_create(&create_request("Frankfurt", "DE", None)).is_ok());
}

#[test]
fn creation_name_bounds() {
    let errors = validate_create_request(&create_request("", "DE", None));
    assert_eq!(errors.len(), 1);
    assert_eq!(errors[0].field, RegionField::Name);
    assert_eq!(errors[0].message, "length is lower than 1");
    let long = "a".repeat(100);
    assert!(validate_create_request(&create_request(&long, "DE", None)).is_empty());
    let too_long = "a".repeat(101);
    let errors = validate_create_request(&create_request(&too_long, "DE", None));
    assert_eq!(errors.len(), 1);
    assert_eq!(errors[0].field, RegionField::Name);
    assert_eq!(errors[0].message, "length is greater than 100");
}

#[test]
fn lengths_count_utf8_bytes() {
    // 'é' takes two bytes: fifty of them fill the name's bound exactly
    let fifty = "é".repeat(50);
    assert!(validate_create_request(&create_request(&fifty, "DE", None)).is_empty());
    let fifty_one = "é".repeat(51);
    let errors = validate_create_request(&create_request(&fifty_one, "DE", None));
    assert_eq!(errors.len(), 1);
    assert_eq!(errors[0].field, RegionField::Name);
    // one two-byte character is a country code of length 2
    assert!(validate_create_request(&create_request("Berlin", "ü", None)).is_empty());
}

#[test]
fn creation_country_code_and_city_bounds() {
    let errors = validate_create_request(&create_request("Berlin", "DEU", Some(&"c".repeat(101))));
    let fields: Vec<RegionField> = errors.iter().map(|e| e.field).collect();
    assert_eq!(fields, vec![RegionField::CountryCode, RegionField::City]);
    let errors = validate_create_request(&create_request("", "D", None));
    let fields: Vec<RegionField> = errors.iter().map(|e| e.field).collect();
    assert_eq!(fields, vec![RegionField::Name, RegionField::CountryCode]);
    assert!(validate_create_request(&create_request("Berlin", "DE", Some(""))).is_empty());
}

#[test]
fn update_checks_only_given_fields() {
    assert!(validate_update_request(&empty_update()).is_empty());
    let mut req = empty_update();
    req.name = Some(String::new());
    req.country_code = Some("USA".to_string());
    req.city = Some("x".repeat(100));
    let fields: Vec<RegionField> = validate_update_request(&req).iter().map(|e| e.field).collect();
    assert_eq!(fields, vec![RegionField::Name, RegionField::CountryCode]);
    assert!(admit_update(&empty_update()).is_ok());
}

#[test]
fn invalid_request_is_answered_with_400() {
    match admit_create(&create_request("", "DE", None)) {
        Err(reply) => {
            assert_eq!(reply.status_code(), 400);
            match reply {
                AdminReply::InvalidRequest(errors) => {
                    assert_eq!(errors.len(), 1);
                    assert_eq!(errors[0].field.key(), "name");
                }
                _ => panic!("expected the rules broken"),
            }
        }
        Ok(()) => panic!("an empty name is refused"),
    }
    let mut req = empty_update();
    req.country_code = Some("D".to_string());
    match admit_update(&req) {
        Err(AdminReply::InvalidRequest(errors)) => {
            assert_eq!(errors[0].field.key(), "country_code");
            assert_eq!(errors[0].message, "length is lower than 2");
        }
        _ => panic!("a one-letter country code is refused"),
    }
}

#[test]
fn field_keys() {
    assert_eq!(RegionField::Name.key(), "name");
    assert_eq!(RegionField::CountryCode.key(), "country_code");
    assert_eq!(RegionField::City.key(), "city");
}

#[test]
fn insert_uppercases_country_and_defaults_visible() {
    let p = insert_params(&create_request("Paris", "fr", Some("Paris")));
    assert_eq!(p.name, "Paris");
    assert_eq!(p.country_code, "FR");
    assert_eq!(p.city.as_deref(), Some("Paris"));
    assert!(p.visible);
    let mut req = create_request("Hidden", "De", None);
    req.visible = Some(false);
    let p = insert_params(&req);
    assert_eq!(p.country_code, "DE");
    assert!(!p.visible);
}

#[test]
fn update_replaces_city_when_named_or_country_code_empty() {
    let c = update_params(&empty_update());
    assert!(!c.replace_city);
    assert!(c.name.is_none() && c.country_code.is_none() && c.city.is_none() && c.visible.is_none());
    let mut req = empty_update();
    req.city = Some("Lyon".to_string());
    let c = update_params(&req);
    assert!(c.replace_city);
    assert_eq!(c.city.as_deref(), Some("Lyon"));
    let mut req = empty_update();
    req.country_code = Some(String::new());
    let c = update_params(&req);
    assert!(c.replace_city);
    assert!(c.city.is_none());
    let mut req = empty_update();
    req.country_code = Some("fr".to_string());
    req.visible = Some(true);
    let c = update_params(&req);
    assert!(!c.replace_city);
    // the update passes the country code on as given
    assert_eq!(c.country_code.as_deref(), Some("fr"));
    assert_eq!(c.visible, Some(true));
}

fn expect_execute(action: FlowAction) -> Statement {
    match action {
        FlowAction::Execute(s) => s,
        FlowAction::Finish(_) => panic!("expected a statement"),
    }
}

#[test]
fn creation_with_nodes_runs_every_statement_in_order() {
    let mut req = create_request("Frankfurt", "de", None);
    req.node_uuids = Some(vec![11, 12]);
    let (mut flow, first) = start_create(req);
    assert!(matches!(expect_execute(first), Statement::BeginTransaction));
    match expect_execute(flow.advance(StatementResult::Executed)) {
        Statement::InsertRegion(p) => {
            assert_eq!(p.name, "Frankfurt");
            assert_eq!(p.country_code, "DE");
            assert!(p.visible);
        }
        _ => panic!("expected the insert"),
    }
    assert!(matches!(expect_execute(flow.advance(StatementResult::RegionInserted(42))), Statement::ClearNodeAssignments(42)));
    assert!(matches!(expect_execute(flow.advance(StatementResult::Executed)), Statement::AssignNode(11, 42)));
    assert!(matches!(expect_execute(flow.advance(StatementResult::Executed)), Statement::AssignNode(12, 42)));
    assert!(matches!(expect_execute(flow.advance(StatementResult::Executed)), Statement::CommitTransaction));
    assert!(matches!(expect_execute(flow.advance(StatementResult::Executed)), Statement::FetchRegion(42)));
    assert!(!flow.is_finished());
    match flow.advance(StatementResult::RegionFetched(Some(region(42, "Frankfurt")))) {
        FlowAction::Finish(outcome) => {
            let created = outcome.into_created().ok().unwrap();
            assert_eq!(created.uuid, 42);
        }
        _ => panic!("expected the end"),
    }
    assert!(flow.is_finished());
}

#[test]
fn creation_without_nodes_commits_after_insert() {
    let (mut flow, _) = start_create(create_request("Oslo", "no", None));
    expect_execute(flow.advance(StatementResult::Executed));
    assert!(matches!(expect_execute(flow.advance(StatementResult::RegionInserted(5))), Statement::CommitTransaction));
    assert!(matches!(expect_execute(flow.advance(StatementResult::Executed)), Statement::FetchRegion(5)));
    match flow.advance(StatementResult::RegionFetched(None)) {
        FlowAction::Finish(outcome) => {
            assert_eq!(outcome.into_created().err(), Some(WriteError::RegionMissingAfterCreate));
        }
        _ => panic!("expected the end"),
    }
    assert_eq!(REGION_MISSING_AFTER_CREATE, "region not found after creation");
}

#[test]
fn creation_with_empty_node_list_still_clears_assignments() {
    let mut req = create_request("Oslo", "NO", None);
    req.node_uuids = Some(Vec::new());
    let (mut flow, _) = start_create(req);
    expect_execute(flow.advance(StatementResult::Executed));
    assert!(matches!(expect_execute(flow.advance(StatementResult::RegionInserted(8))), Statement::ClearNodeAssignments(8)));
    assert!(matches!(expect_execute(flow.advance(StatementResult::Executed)), Statement::CommitTransaction));
}

#[test]
fn failure_ends_the_write_without_commit() {
    let mut req = create_request("Rome", "it", None);
    req.node_uuids = Some(vec![1, 2, 3]);
    let (mut flow, _) = start_create(req);
    expect_execute(flow.advance(StatementResult::Executed));
    expect_execute(flow.advance(StatementResult::RegionInserted(3)));
    expect_execute(flow.advance(StatementResult::Executed));
    match flow.advance(StatementResult::Failed) {
        FlowAction::Finish(WriteOutcome::Failed) => {}
        _ => panic!("a failure ends the write"),
    }
    assert!(flow.is_finished());
    assert!(matches!(flow.advance(StatementResult::Executed), FlowAction::Finish(WriteOutcome::Failed)));
    assert_eq!(WriteOutcome::Failed.into_created().err(), Some(WriteError::Database));
}

#[test]
fn answer_out_of_turn_fails_the_write() {
    let (mut flow, _) = start_create(create_request("Rome", "IT", None));
    assert!(matches!(flow.advance(StatementResult::RegionInserted(1)), FlowAction::Finish(WriteOutcome::Failed)));
}

#[test]
fn update_of_missing_region_stops_after_update() {
    let mut req = empty_update();
    req.name = Some("Renamed".to_string());
    req.node_uuids = Some(vec![4]);
    let (mut flow, first) = start_update(77, req);
    assert!(matches!(expect_execute(first), Statement::BeginTransaction));
    match expect_execute(flow.advance(StatementResult::Executed)) {
        Statement::UpdateRegion(77, c) => assert_eq!(c.name.as_deref(), Some("Renamed")),
        _ => panic!("expected the update"),
    }
    match flow.advance(StatementResult::RegionUpdated(None)) {
        FlowAction::Finish(outcome) => assert!(outcome.into_updated().ok().unwrap().is_none()),
        _ => panic!("expected the end"),
    }
    assert!(flow.is_finished());
}

#[test]
fn update_of_existing_region_reassigns_nodes() {
    let mut req = empty_update();
    req.node_uuids = Some(vec![4]);
    let (mut flow, _) = start_update(77, req);
    expect_execute(flow.advance(StatementResult::Executed));
    assert!(matches!(expect_execute(flow.advance(StatementResult::RegionUpdated(Some(77)))), Statement::ClearNodeAssignments(77)));
    assert!(matches!(expect_execute(flow.advance(StatementResult::Executed)), Statement::AssignNode(4, 77)));
    assert!(matches!(expect_execute(flow.advance(StatementResult::Executed)), Statement::CommitTransaction));
    assert!(matches!(expect_execute(flow.advance(StatementResult::Executed)), Statement::FetchRegion(77)));
    match flow.advance(StatementResult::RegionFetched(Some(region(77, "Kept")))) {
        FlowAction::Finish(outcome) => assert_eq!(outcome.into_updated().ok().unwrap().unwrap().name, "Kept"),
        _ => panic!("expected the end"),
    }
}

#[test]
fn deletion_found_when_a_row_was_affected() {
    assert!(!region_deleted(0));
    assert!(region_deleted(1));
    assert!(region_deleted(3));
}

#[test]
fn replies_and_statuses() {
    assert_eq!(get_reply(None).status_code(), 404);
    assert!(matches!(get_reply(Some(region(1, "A"))), AdminReply::Region(r) if r.uuid == 1));
    assert_eq!(AdminReply::Regions(Vec::new()).status_code(), 200);
    assert_eq!(REGION_NOT_FOUND, "Region not found.");

    let (reply, entry) = create_reply(region(2, "Berlin"));
    assert_eq!(reply.status_code(), 200);
    assert_eq!(entry.event(), "regions:region.create");
    match entry {
        ActivityEntry::RegionCreated { region_uuid, name, country_code } => {
            assert_eq!(region_uuid, 2);
            assert_eq!(name, "Berlin");
            assert_eq!(country_code, "DE");
        }
        _ => panic!("expected a creation entry"),
    }

    let (reply, entry) = update_reply(Some(region(3, "Madrid")));
    assert_eq!(reply.status_code(), 200);
    let entry = entry.unwrap();
    assert_eq!(entry.event(), "regions:region.update");
    assert!(matches!(entry, ActivityEntry::RegionUpdated { region_uuid: 3, ref name } if name == "Madrid"));
    let (reply, entry) = update_reply(None);
    assert_eq!(reply.status_code(), 404);
    assert!(entry.is_none());

    let (reply, entry) = delete_reply(4, true);
    assert_eq!(reply.status_code(), 204);
    let entry = entry.unwrap();
    assert_eq!(entry.event(), "regions:region.delete");
    assert!(matches!(entry, ActivityEntry::RegionDeleted { region_uuid: 4 }));
    let (reply, entry) = delete_reply(4, false);
    assert_eq!(reply.status_code(), 404);
    assert!(entry.is_none());
}

#[test]
fn permission_group_declares_view_then_manage() {
    let group = ExtensionStruct::default().admin_permission_group();
    assert_eq!(group.name, "regions");
    assert_eq!(group.description, "Permissions for managing server regions.");
    let keys: Vec<&str> = group.permissions.keys().copied().collect();
    assert_eq!(keys, vec!["view", "manage"]);
    assert_eq!(group.permissions.get("view"), Some(&"Allows viewing configured regions."));
    assert_eq!(
        group.permissions.get("manage"),
        Some(&"Allows creating, updating, and deleting regions and node assignments.")
    );
}

#[test]
fn routes_demand_declared_permissions() {
    let group = ExtensionStruct.admin_permission_group();
    for route in [RegionRoute::ListRegions, RegionRoute::GetRegion] {
        assert_eq!(route.required_permission(), "regions.view");
    }
    for route in [RegionRoute::CreateRegion, RegionRoute::UpdateRegion, RegionRoute::DeleteRegion] {
        assert_eq!(route.required_permission(), "regions.manage");
    }
    for route in [
        RegionRoute::ListRegions,
        RegionRoute::GetRegion,
        RegionRoute::CreateRegion,
        RegionRoute::UpdateRegion,
        RegionRoute::DeleteRegion,
    ] {
        let permission = route.required_permission();
        let key = permission.strip_prefix("regions.").unwrap();
        assert!(group.permissions.contains_key(key));
    }
    assert_eq!(RegionRoute::ServerRegion.required_permission(), "server.read");
}
