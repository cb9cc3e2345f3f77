use honeybee::registry::{all_resources, get_resource};

#[test]
fn every_registered_name_resolves() {
    for name in [
        "camera_pub",
        "dms_pub",
        "dms_message",
        "incident",
        "sign_config",
        "TPIMS_static",
        "TPIMS_dynamic",
    ] {
        let res = get_resource(name).expect("registered name must resolve");
        assert_eq!(res.name, name);
        assert!(res.sql.starts_with("SELECT row_to_json(r)::text FROM ("));
    }
}

#[test]
fn unknown_name_is_rejected() {
    assert!(get_resource("nonesuch").is_none());
    assert!(get_resource("").is_none());
    assert!(get_resource("camera_pub ").is_none());
}

#[test]
fn lookup_is_case_sensitive() {
    assert!(get_resource("Camera_pub").is_none());
    assert!(get_resource("tpims_static").is_none());
    assert!(get_resource("TPIMS_STATIC").is_none());
}

#[test]
fn bootstrap_order_is_fixed_and_complete() {
    let all = all_resources();
    let names: Vec<&str> = all.iter().map(|r| r.name).collect();
    assert_eq!(
        names,
        vec![
            "camera_pub",
            "dms_pub",
            "dms_message",
            "incident",
            "sign_config",
            "TPIMS_static",
            "TPIMS_dynamic",
        ]
    );
    for r in &all {
        let looked_up = get_resource(r.name).expect("bootstrap entry must be registered");
        assert_eq!(looked_up.sql, r.sql);
    }
}

#[test]
fn distinct_resources_have_distinct_queries() {
    let all = all_resources();
    for i in 0..all.len() {
        for j in 0..all.len() {
            if i != j {
                assert_ne!(all[i].name, all[j].name);
                assert_ne!(all[i].sql, all[j].sql);
            }
        }
    }
}
