//! What the requests become: the row of a new region, the changes of an
//! update, the errors of a request, and the region of a database row.

use vstd::prelude::*;
use vstd::utf8::encode_utf8;
use crate::manager::{is_changes_of, is_insert_of, uppercase, RegionChanges, RegionInsert};
use crate::models::{is_api_of_row, ApiRegion, CreateRegionRequest, RegionRow, UpdateRegionRequest};
use crate::validation::{create_violations, unless, update_violations, RegionField};

verus! {

/// The row of a new region takes the request's name and city as given, the
/// country code in upper case, and is hidden only when the request says
/// `visible: false`.
pub proof fn lemma_insert_keeps_request(p: RegionInsert, req: CreateRegionRequest)
    requires
        is_insert_of(p, req),
    ensures
        p.name == req.name,
        p.city == req.city,
        p.country_code@ == uppercase(req.country_code@),
        p.visible == !(req.visible == Some(false)),
        req.visible == Some(true) ==> p.visible,
        req.visible is None ==> p.visible,
{
}

/// An update changes exactly what the request names: name, country code,
/// city and visibility are passed on as given (so `visible: Some(false)`
/// hides the region), and the city is overwritten exactly when the request
/// names a city or names an empty country code, whatever the other fields.
pub proof fn lemma_update_keeps_request(c: RegionChanges, req: UpdateRegionRequest)
    requires
        is_changes_of(c, req),
    ensures
        c.name == req.name,
        c.country_code == req.country_code,
        c.city == req.city,
        c.visible == req.visible,
        c.replace_city <==> (req.city is Some || (req.country_code is Some
            && req.country_code->0@.len() == 0)),
        req.city is None && req.country_code is None ==> !c.replace_city,
        req.city is None && (req.country_code matches Some(cc) && cc@.len() > 0)
            ==> !c.replace_city,
{
}

/// Two update requests that differ only in name, visibility or nodes agree
/// on whether the city is overwritten.
pub proof fn lemma_city_rule_ignores_other_fields(
    c1: RegionChanges,
    r1: UpdateRegionRequest,
    c2: RegionChanges,
    r2: UpdateRegionRequest,
)
    requires
        is_changes_of(c1, r1),
        is_changes_of(c2, r2),
        r1.city == r2.city,
        r1.country_code == r2.country_code,
    ensures
        c1.replace_city == c2.replace_city,
{
}

/// A creation request breaks the name rule exactly when the name's UTF-8
/// encoding is not 1 to 100 bytes long, the country-code rule exactly when
/// the code is not 2 bytes long, and the city rule exactly when a city is
/// given and is longer than 100 bytes.
pub proof fn lemma_create_rules(req: CreateRegionRequest)
    ensures
        create_violations(req).contains(RegionField::Name) <==> !(1 <= encode_utf8(req.name@).len()
            <= 100),
        create_violations(req).contains(RegionField::CountryCode) <==> encode_utf8(
            req.country_code@,
        ).len() != 2,
        create_violations(req).contains(RegionField::City) <==> (req.city is Some
            && encode_utf8(req.city->0@).len() > 100),
        create_violations(req).len() == 0 <==> (1 <= encode_utf8(req.name@).len() <= 100
            && encode_utf8(req.country_code@).len() == 2 && (req.city is Some ==> encode_utf8(
            req.city->0@,
        ).len() <= 100)),
{
    lemma_three_parts(
        1 <= encode_utf8(req.name@).len() <= 100,
        encode_utf8(req.country_code@).len() == 2,
        req.city is None || encode_utf8(req.city->0@).len() <= 100,
    );
}

/// An update request breaks a rule only through a field that it gives, with
/// the same bounds as a creation: a given name of 1 to 100 bytes, a given
/// country code of 2 bytes, a given city of at most 100 bytes.
pub proof fn lemma_update_rules(req: UpdateRegionRequest)
    ensures
        update_violations(req).contains(RegionField::Name) <==> (req.name is Some && !(1
            <= encode_utf8(req.name->0@).len() <= 100)),
        update_violations(req).contains(RegionField::CountryCode) <==> (req.country_code is Some
            && encode_utf8(req.country_code->0@).len() != 2),
        update_violations(req).contains(RegionField::City) <==> (req.city is Some
            && encode_utf8(req.city->0@).len() > 100),
        update_violations(req).len() == 0 <==> ((req.name is Some ==> 1 <= encode_utf8(
            req.name->0@,
        ).len() <= 100) && (req.country_code is Some ==> encode_utf8(req.country_code->0@).len()
            == 2) && (req.city is Some ==> encode_utf8(req.city->0@).len() <= 100)),
{
    lemma_three_parts(
        req.name is None || 1 <= encode_utf8(req.name->0@).len() <= 100,
        req.country_code is None || encode_utf8(req.country_code->0@).len() == 2,
        req.city is None || encode_utf8(req.city->0@).len() <= 100,
    );
}

proof fn lemma_unless(ok: bool, f: RegionField)
    ensures
        unless(ok, f).len() == (if ok { 0int } else { 1int }),
        forall|g: RegionField| #[trigger] unless(ok, f).contains(g) <==> (!ok && g == f),
{
    if !ok {
        assert(unless(ok, f)[0] == f);
    }
}

proof fn lemma_three_parts(a: bool, b: bool, c: bool)
    ensures
        ({
            let v = unless(a, RegionField::Name) + unless(b, RegionField::CountryCode) + unless(
                c,
                RegionField::City,
            );
            &&& v.contains(RegionField::Name) <==> !a
            &&& v.contains(RegionField::CountryCode) <==> !b
            &&& v.contains(RegionField::City) <==> !c
            &&& v.len() == 0 <==> (a && b && c)
        }),
{
    let x = unless(a, RegionField::Name);
    let y = unless(b, RegionField::CountryCode);
    let z = unless(c, RegionField::City);
    lemma_unless(a, RegionField::Name);
    lemma_unless(b, RegionField::CountryCode);
    lemma_unless(c, RegionField::City);
    broadcast use vstd::seq_lib::lemma_seq_concat_contains_all_elements;
    assert((x + y).contains(RegionField::Name) <==> !a);
    assert((x + y).contains(RegionField::CountryCode) <==> !b);
    assert((x + y).contains(RegionField::City) <==> false);
}

/// The region of a row carries every field of the row unchanged, the
/// visibility among them, and reads a missing node array as no nodes.
pub proof fn lemma_row_fields_kept(api: ApiRegion, row: RegionRow)
    requires
        is_api_of_row(api, row),
    ensures
        api.uuid == row.uuid,
        api.name == row.name,
        api.country_code == row.country_code,
        api.city == row.city,
        api.visible == row.visible,
        api.created == row.created,
        api.updated == row.updated,
        row.node_uuids is None ==> api.node_uuids@.len() == 0,
        row.node_uuids is Some ==> api.node_uuids@ == row.node_uuids->0@,
{
}

} // verus!
