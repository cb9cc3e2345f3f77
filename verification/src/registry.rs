//! The fixed registry of resources: each maps a snapshot file name to the
//! SQL query that yields the snapshot's rows, one JSON text per row.
//!
//! The registry is a closed, compile-time table.  Lookup is an exact,
//! case-sensitive match on the resource name; there is no dynamic
//! registration.  Adding a resource is an edit to this table alone.

use vstd::prelude::*;
use crate::Resource;

verus! {

pub const CAMERA_SQL: &'static str = "SELECT row_to_json(r)::text FROM (\
    SELECT name, publish, location, lat, lon \
    FROM camera_view \
    ORDER BY name \
) r";

pub const DMS_SQL: &'static str = "SELECT row_to_json(r)::text FROM (\
    SELECT name, sign_config, roadway, road_dir, cross_street, \
           location, lat, lon \
    FROM dms_view \
    ORDER BY name \
) r";

pub const DMS_MSG_SQL: &'static str = "SELECT row_to_json(r)::text FROM (\
    SELECT name, msg_current, multi, sources, duration, expire_time \
    FROM dms_message_view WHERE condition = 'Active' \
    ORDER BY name \
) r";

pub const INCIDENT_SQL: &'static str = "SELECT row_to_json(r)::text FROM (\
    SELECT name, event_date, description, road, direction, lane_type, \
           impact, confirmed, camera, detail, replaces, lat, lon \
    FROM incident_view \
    WHERE cleared = false \
) r";

pub const SIGN_CONFIG_SQL: &'static str = "SELECT row_to_json(r)::text FROM (\
    SELECT name, dms_type, portable, technology, sign_access, legend, \
           beacon_type, face_width, face_height, border_horiz, \
           border_vert, pitch_horiz, pitch_vert, pixel_width, \
           pixel_height, char_width, char_height, color_scheme, \
           monochrome_foreground, monochrome_background \
    FROM sign_config_view \
) r";

pub const TPIMS_STAT_SQL: &'static str = "SELECT row_to_json(r)::text FROM (\
    SELECT site_id AS \"siteId\", to_char(time_stamp_static AT TIME ZONE 'UTC', \
           'YYYY-mm-dd\"T\"HH24:MI:SSZ') AS \"timeStamp\", \
           relevant_highway AS \"relevantHighway\", \
           reference_post AS \"referencePost\", exit_id AS \"exitId\", \
           road_dir AS \"directionOfTravel\", facility_name AS name, \
           json_build_object('latitude', lat, 'longitude', lon, \
           'streetAdr', street_adr, 'city', city, 'state', state, \
           'zip', zip, 'timeZone', time_zone) AS location, \
           ownership, capacity, \
           string_to_array(amenities, ', ') AS amenities, \
           array_remove(ARRAY[camera_image_base_url || camera_1, \
           camera_image_base_url || camera_2, \
           camera_image_base_url || camera_3], NULL) AS images, \
           ARRAY[]::text[] AS logos \
    FROM parking_area_view \
) r";

pub const TPIMS_DYN_SQL: &'static str = "SELECT row_to_json(r)::text FROM (\
    SELECT site_id AS \"siteId\", to_char(time_stamp AT TIME ZONE 'UTC', \
           'YYYY-mm-dd\"T\"HH24:MI:SSZ') AS \"timeStamp\", \
           to_char(time_stamp_static AT TIME ZONE 'UTC', \
           'YYYY-mm-dd\"T\"HH24:MI:SSZ') AS \"timeStampStatic\", \
           reported_available AS \"reportedAvailable\", \
           trend, open, trust_data AS \"trustData\", capacity \
    FROM parking_area_view \
) r";

/// The query paired with a resource name, or `None` for a name outside the
/// registry.
pub open spec fn spec_lookup(n: Seq<char>) -> Option<Seq<char>> {
    if n == "camera_pub"@ {
        Some(CAMERA_SQL@)
    } else if n == "dms_pub"@ {
        Some(DMS_SQL@)
    } else if n == "dms_message"@ {
        Some(DMS_MSG_SQL@)
    } else if n == "incident"@ {
        Some(INCIDENT_SQL@)
    } else if n == "sign_config"@ {
        Some(SIGN_CONFIG_SQL@)
    } else if n == "TPIMS_static"@ {
        Some(TPIMS_STAT_SQL@)
    } else if n == "TPIMS_dynamic"@ {
        Some(TPIMS_DYN_SQL@)
    } else {
        None
    }
}

/// The registry's names in their fixed (bootstrap) order.
pub open spec fn spec_registry_names() -> Seq<Seq<char>> {
    seq![
        "camera_pub"@,
        "dms_pub"@,
        "dms_message"@,
        "incident"@,
        "sign_config"@,
        "TPIMS_static"@,
        "TPIMS_dynamic"@,
    ]
}

/// Exact string equality, used for registry lookup.
pub fn str_eq(a: &str, b: &str) -> (r: bool)
    ensures
        r == (a@ == b@),
{
    let sa = a.to_owned();
    let sb = b.to_owned();
    sa == sb
}

/// Resolves a resource name to its registry entry.  Returns `None` exactly
/// when the name is not registered; on success the entry's name equals the
/// argument and its query is the registered one.
pub fn get_resource(n: &str) -> (r: Option<Resource>)
    ensures
        r is Some <==> spec_lookup(n@) is Some,
        r matches Some(res) ==> res.name@ == n@ && spec_lookup(n@) == Some(res.sql@),
{
    if str_eq(n, "camera_pub") {
        Some(Resource::new("camera_pub", CAMERA_SQL))
    } else if str_eq(n, "dms_pub") {
        Some(Resource::new("dms_pub", DMS_SQL))
    } else if str_eq(n, "dms_message") {
        Some(Resource::new("dms_message", DMS_MSG_SQL))
    } else if str_eq(n, "incident") {
        Some(Resource::new("incident", INCIDENT_SQL))
    } else if str_eq(n, "sign_config") {
        Some(Resource::new("sign_config", SIGN_CONFIG_SQL))
    } else if str_eq(n, "TPIMS_static") {
        Some(Resource::new("TPIMS_static", TPIMS_STAT_SQL))
    } else if str_eq(n, "TPIMS_dynamic") {
        Some(Resource::new("TPIMS_dynamic", TPIMS_DYN_SQL))
    } else {
        None
    }
}

/// The full registry in its fixed order, for the bootstrap pass: every
/// registered resource appears once, under its registered name and query.
pub fn all_resources() -> (r: Vec<Resource>)
    ensures
        r@.len() == spec_registry_names().len(),
        forall|i: int|
            0 <= i < r@.len() ==> #[trigger] r@[i].name@ == spec_registry_names()[i]
                && spec_lookup(r@[i].name@) == Some(r@[i].sql@),
{
    let mut v: Vec<Resource> = Vec::new();
    v.push(Resource::new("camera_pub", CAMERA_SQL));
    v.push(Resource::new("dms_pub", DMS_SQL));
    v.push(Resource::new("dms_message", DMS_MSG_SQL));
    v.push(Resource::new("incident", INCIDENT_SQL));
    v.push(Resource::new("sign_config", SIGN_CONFIG_SQL));
    v.push(Resource::new("TPIMS_static", TPIMS_STAT_SQL));
    v.push(Resource::new("TPIMS_dynamic", TPIMS_DYN_SQL));
    proof {
        reveal_strlit("camera_pub");
        reveal_strlit("dms_pub");
        reveal_strlit("dms_message");
        reveal_strlit("incident");
        reveal_strlit("sign_config");
        reveal_strlit("TPIMS_static");
        reveal_strlit("TPIMS_dynamic");
    }
    assert(v@.len() == 7);
    assert(v@[0].name@ == spec_registry_names()[0] && spec_lookup(v@[0].name@) == Some(v@[0].sql@));
    assert(v@[1].name@ == spec_registry_names()[1] && spec_lookup(v@[1].name@) == Some(v@[1].sql@));
    assert(v@[2].name@ == spec_registry_names()[2] && spec_lookup(v@[2].name@) == Some(v@[2].sql@));
    assert(v@[3].name@ == spec_registry_names()[3] && spec_lookup(v@[3].name@) == Some(v@[3].sql@));
    assert("sign_config"@[0] != "dms_message"@[0]);
    assert(v@[4].name@ == spec_registry_names()[4] && spec_lookup(v@[4].name@) == Some(v@[4].sql@));
    assert(v@[5].name@ == spec_registry_names()[5] && spec_lookup(v@[5].name@) == Some(v@[5].sql@));
    assert(v@[6].name@ == spec_registry_names()[6] && spec_lookup(v@[6].name@) == Some(v@[6].sql@));
    v
}

/// The registry invariant: every resource name is unique within the table.
pub proof fn lemma_registry_names_unique()
    ensures
        forall|i: int, j: int|
            0 <= i < spec_registry_names().len() && 0 <= j < spec_registry_names().len() && i != j
                ==> spec_registry_names()[i] != spec_registry_names()[j],
{
    reveal_strlit("camera_pub");
    reveal_strlit("dms_pub");
    reveal_strlit("dms_message");
    reveal_strlit("incident");
    reveal_strlit("sign_config");
    reveal_strlit("TPIMS_static");
    reveal_strlit("TPIMS_dynamic");
    let names = spec_registry_names();
    assert forall|i: int, j: int|
        0 <= i < names.len() && 0 <= j < names.len() && i != j implies names[i] != names[j] by {
        assert(names[0].len() == 10);
        assert(names[1].len() == 7);
        assert(names[2].len() == 11);
        assert(names[3].len() == 8);
        assert(names[4].len() == 11);
        assert(names[5].len() == 12);
        assert(names[6].len() == 13);
        assert(names[2][0] == 'd');
        assert(names[4][0] == 's');
    }
}

/// Every name the registry knows occurs in the fixed bootstrap order: the
/// registry table and the bootstrap list cover the same closed set of names.
pub proof fn lemma_registry_names_complete(n: Seq<char>)
    requires
        spec_lookup(n) is Some,
    ensures
        exists|i: int| 0 <= i < spec_registry_names().len() && #[trigger] spec_registry_names()[i] == n,
{
    if n == "camera_pub"@ {
        assert(spec_registry_names()[0] == n);
    } else if n == "dms_pub"@ {
        assert(spec_registry_names()[1] == n);
    } else if n == "dms_message"@ {
        assert(spec_registry_names()[2] == n);
    } else if n == "incident"@ {
        assert(spec_registry_names()[3] == n);
    } else if n == "sign_config"@ {
        assert(spec_registry_names()[4] == n);
    } else if n == "TPIMS_static"@ {
        assert(spec_registry_names()[5] == n);
    } else {
        assert(spec_registry_names()[6] == n);
    }
}

} // verus!
