use ora_geom_gui::query::{auto_name, decimal_string, InputQuery, QuerySet, ValidationError};
use ora_geom_gui::sdo_geometry::SdoGeometry;
use ora_geom_gui::style::{stroke_for_count, Color};

fn line_record(ordinates: Vec<i64>) -> SdoGeometry {
    SdoGeometry {
        sdo_gtype: 2002,
        sdo_srid: None,
        sdo_point: None,
        sdo_elem_info: vec![1, 2, 1],
        sdo_ordinates: ordinates,
    }
}

#[test]
fn decimal_rendering() {
    assert_eq!(decimal_string(0).as_str(), "0");
    assert_eq!(decimal_string(7).as_str(), "7");
    assert_eq!(decimal_string(10).as_str(), "10");
    assert_eq!(decimal_string(907).as_str(), "907");
}

#[test]
fn auto_names_join_base_and_index() {
    assert_eq!(auto_name(&String::from("q"), 0).as_str(), "q_0");
    assert_eq!(auto_name(&String::from("roads"), 12).as_str(), "roads_12");
}

#[test]
fn submit_names_and_activates_geometries() {
    let mut qs = QuerySet::new();
    let records = vec![line_record(vec![0, 0, 1, 1]), line_record(vec![2, 2, 3, 3])];
    let r = qs.submit(String::from("roads"), String::from("SELECT GEOMETRY FROM ROADS"), records);
    assert_eq!(r, Ok(()));
    assert_eq!(qs.len(), 1);
    let q = qs.get(&String::from("roads")).expect("inserted");
    assert_eq!(q.sql.as_str(), "SELECT GEOMETRY FROM ROADS");
    assert_eq!(q.stroke, stroke_for_count(0));
    assert_eq!(q.geometries.len(), 2);
    assert_eq!(q.geometries[0].name.as_str(), "roads_0");
    assert_eq!(q.geometries[1].name.as_str(), "roads_1");
    assert!(q.geometries[0].is_active);
    assert!(q.geometries[1].is_active);
    assert_eq!(q.geometries[1].sdo_geometry.sdo_ordinates, vec![2, 2, 3, 3]);
}

#[test]
fn submit_empty_name_is_rejected_before_any_fetch() {
    let qs = QuerySet::new();
    // validation alone decides this, so the caller never has to fetch
    assert_eq!(qs.validate_name(&String::new()), Err(ValidationError::EmptyName));
    let mut qs = qs;
    let r = qs.submit(String::new(), String::from("SELECT"), vec![]);
    assert_eq!(r, Err(ValidationError::EmptyName));
    assert_eq!(qs.len(), 0);
}

#[test]
fn submit_duplicate_name_leaves_existing_query_unmodified() {
    let mut qs = QuerySet::new();
    let r = qs.submit(
        String::from("a"),
        String::from("SELECT ONE"),
        vec![line_record(vec![1, 2, 3, 4])],
    );
    assert_eq!(r, Ok(()));
    assert_eq!(qs.validate_name(&String::from("a")), Err(ValidationError::DuplicateName));
    let r = qs.submit(String::from("a"), String::from("SELECT TWO"), vec![]);
    assert_eq!(r, Err(ValidationError::DuplicateName));
    assert_eq!(qs.len(), 1);
    let q = qs.get(&String::from("a")).expect("still there");
    assert_eq!(q.sql.as_str(), "SELECT ONE");
    assert_eq!(q.geometries.len(), 1);
    assert_eq!(q.geometries[0].name.as_str(), "a_0");
}

#[test]
fn stroke_colors_cycle_with_insertion_count() {
    assert_eq!(stroke_for_count(0).color, Color { r: 255, g: 0, b: 0 });
    assert_eq!(stroke_for_count(1).color, Color { r: 0, g: 0, b: 255 });
    assert_eq!(stroke_for_count(2).color, Color { r: 0, g: 255, b: 0 });
    assert_eq!(stroke_for_count(3).color, Color { r: 255, g: 255, b: 0 });
    assert_eq!(stroke_for_count(4).color, Color { r: 255, g: 0, b: 0 });
    assert_eq!(stroke_for_count(0).width, 1);

    let mut qs = QuerySet::new();
    for i in 0..5 {
        let r = qs.submit(decimal_string(i), String::from("SELECT"), vec![]);
        assert_eq!(r, Ok(()));
    }
    assert_eq!(qs.get(&String::from("4")).expect("fifth").stroke, stroke_for_count(4));
    assert_eq!(
        qs.get(&String::from("4")).expect("fifth").stroke,
        qs.get(&String::from("0")).expect("first").stroke
    );
}

#[test]
fn remove_deletes_only_the_named_query() {
    let mut qs = QuerySet::new();
    qs.submit(String::from("a"), String::from("A"), vec![]).unwrap();
    qs.submit(String::from("b"), String::from("B"), vec![]).unwrap();
    qs.remove(&String::from("a"));
    assert_eq!(qs.len(), 1);
    assert!(qs.get(&String::from("a")).is_none());
    assert_eq!(qs.get(&String::from("b")).expect("kept").sql.as_str(), "B");
    // removing an absent name is a no-op
    qs.remove(&String::from("zzz"));
    assert_eq!(qs.len(), 1);
    // and the name becomes free again
    assert_eq!(qs.validate_name(&String::from("a")), Ok(()));
}

#[test]
fn toggle_all_visible_activates_every_geometry() {
    let mut qs = QuerySet::new();
    let records = vec![line_record(vec![0, 0]), line_record(vec![1, 1])];
    qs.submit(String::from("q"), String::from("Q"), records).unwrap();
    qs.set_visible(&String::from("q"), &String::from("q_0"), false);
    qs.set_visible(&String::from("q"), &String::from("q_1"), false);
    assert!(!qs.get(&String::from("q")).unwrap().geometries[0].is_active);
    assert!(!qs.get(&String::from("q")).unwrap().geometries[1].is_active);
    qs.toggle_all_visible(&String::from("q"));
    let q = qs.get(&String::from("q")).unwrap();
    assert!(q.geometries[0].is_active);
    assert!(q.geometries[1].is_active);
}

#[test]
fn set_visible_touches_one_geometry() {
    let mut qs = QuerySet::new();
    let records = vec![line_record(vec![0, 0]), line_record(vec![1, 1])];
    qs.submit(String::from("q"), String::from("Q"), records).unwrap();
    qs.set_visible(&String::from("q"), &String::from("q_1"), false);
    let q = qs.get(&String::from("q")).unwrap();
    assert!(q.geometries[0].is_active);
    assert!(!q.geometries[1].is_active);
    // an unknown geometry name changes nothing
    qs.set_visible(&String::from("q"), &String::from("nope"), true);
    let q = qs.get(&String::from("q")).unwrap();
    assert!(!q.geometries[1].is_active);
}

#[test]
fn input_query_default_and_clear() {
    let mut input = InputQuery::default();
    assert_eq!(
        input.sql.as_str(),
        "-- A very simple example\nSELECT\n\tGEOMETRY\nFROM\n\tBUILDINGS\n"
    );
    assert_eq!(input.name.as_str(), "");
    assert_eq!(input.message.as_str(), "");
    input.name = String::from("x");
    input.message = String::from("kept");
    input.clear();
    assert_eq!(input.sql.as_str(), "");
    assert_eq!(input.name.as_str(), "");
    assert_eq!(input.message.as_str(), "kept");
}
