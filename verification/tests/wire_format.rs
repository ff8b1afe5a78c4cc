use pipper::broadcast::Broadcaster;
use pipper::wire::Category;
use pipper::wire::FramePayload;
use pipper::wire::Landmark;
use pipper::wire::TransformationMatrix;
use pipper::wire::Vector4;
use pipper::wire::WireData;

fn category(score: &str, display_name: &str, category_name: &str) -> Category {
    Category {
        index: 0,
        score: score.to_string(),
        display_name: display_name.to_string(),
        category_name: category_name.to_string(),
    }
}

fn landmark(x: &str, y: &str, z: &str) -> Landmark {
    Landmark {
        x: x.to_string(),
        y: y.to_string(),
        z: z.to_string(),
        visibility: "0".to_string(),
        presence: "0".to_string(),
    }
}

fn rows(texts: &[&[&str]]) -> Vec<Vec<String>> {
    texts
        .iter()
        .map(|row| row.iter().map(|s| s.to_string()).collect())
        .collect()
}

#[test]
fn category_transmits_score_and_name_only() {
    let c = category("0.9", "ignored", "smile");
    let text = c.to_json();
    assert_eq!(text, "{\"score\":0.9,\"name\":\"smile\"}");

    let value: serde_json::Value = serde_json::from_str(&text).unwrap();
    let object = value.as_object().unwrap();
    assert_eq!(object.len(), 2);
    assert_eq!(object.get("score").unwrap().as_f64().unwrap(), 0.9);
    assert_eq!(object.get("name").unwrap().as_str().unwrap(), "smile");
    assert!(object.get("display_name").is_none());
    assert!(object.get("index").is_none());
}

#[test]
fn landmark_transmits_coordinates_only() {
    let l = Landmark {
        x: "1.0".to_string(),
        y: "2.0".to_string(),
        z: "3.0".to_string(),
        visibility: "0.5".to_string(),
        presence: "0.25".to_string(),
    };
    let text = l.to_json();
    assert_eq!(text, "{\"x\":1.0,\"y\":2.0,\"z\":3.0}");

    let value: serde_json::Value = serde_json::from_str(&text).unwrap();
    let object = value.as_object().unwrap();
    assert_eq!(object.len(), 3);
    assert!(object.get("visibility").is_none());
    assert!(object.get("presence").is_none());
}

#[test]
fn vector4_is_a_four_element_array() {
    let v = Vector4 {
        x: "1.5".to_string(),
        y: "2.5".to_string(),
        z: "3.5".to_string(),
        w: "4.5".to_string(),
    };
    assert_eq!(v.to_json(), "[1.5,2.5,3.5,4.5]");
}

#[test]
fn matrix_rows_become_named_top_level_fields() {
    let input = rows(&[
        &["1", "2", "3", "4"],
        &["5", "6", "7", "8"],
        &["9", "10", "11", "12"],
        &["13", "14", "15", "16"],
    ]);
    let m = TransformationMatrix::try_from_rows(&input).unwrap();
    let data = WireData::new(FramePayload::Matrix(m), vec![category("0.5", "d", "jawOpen")]);
    let text = data.to_json();

    let value: serde_json::Value = serde_json::from_str(&text).unwrap();
    let object = value.as_object().unwrap();
    assert_eq!(object.len(), 5);
    for key in ["x", "y", "z", "w", "blendshapes"] {
        assert!(object.contains_key(key));
    }
    for (key, row) in [("x", 0usize), ("y", 1), ("z", 2), ("w", 3)] {
        let numbers: Vec<f64> = object
            .get(key)
            .unwrap()
            .as_array()
            .unwrap()
            .iter()
            .map(|n| n.as_f64().unwrap())
            .collect();
        let expected: Vec<f64> = (0..4).map(|col| (row * 4 + col + 1) as f64).collect();
        assert_eq!(numbers, expected);
    }
    assert!(object.get("transformation_matrix").is_none());
}

#[test]
fn non_square_inputs_are_rejected_at_the_boundary() {
    let three_rows = rows(&[&["0", "0", "0", "0"], &["0", "0", "0", "0"], &["0", "0", "0", "0"]]);
    assert!(TransformationMatrix::try_from_rows(&three_rows).is_none());

    let short_row = rows(&[
        &["0", "0", "0", "0"],
        &["0", "0", "0"],
        &["0", "0", "0", "0"],
        &["0", "0", "0", "0"],
    ]);
    assert!(TransformationMatrix::try_from_rows(&short_row).is_none());
}

#[test]
fn end_to_end_landmark_body() {
    let broadcaster = Broadcaster::new(9000);
    let data = WireData::new(
        FramePayload::Landmarks(vec![landmark("1.0", "2.0", "3.0")]),
        vec![category("0.9", "ignored", "smile")],
    );
    let body = broadcaster.datagram(&data);
    assert_eq!(
        body,
        "{\"landmarks\":[{\"x\":1.0,\"y\":2.0,\"z\":3.0}],\"blendshapes\":[{\"score\":0.9,\"name\":\"smile\"}]}"
    );
}

#[test]
fn end_to_end_matrix_identity_body() {
    let identity = rows(&[
        &["1", "0", "0", "0"],
        &["0", "1", "0", "0"],
        &["0", "0", "1", "0"],
        &["0", "0", "0", "1"],
    ]);
    let m = TransformationMatrix::from_rows(&identity);
    let data = WireData::new(FramePayload::Matrix(m), vec![]);
    let body = Broadcaster::new(9000).datagram(&data);
    assert_eq!(
        body,
        "{\"x\":[1,0,0,0],\"y\":[0,1,0,0],\"z\":[0,0,1,0],\"w\":[0,0,0,1],\"blendshapes\":[]}"
    );
}

#[test]
fn empty_payloads_still_serialize() {
    let data = WireData::new(FramePayload::Landmarks(vec![]), vec![]);
    let body = Broadcaster::new(1).datagram(&data);
    assert_eq!(body, "{\"landmarks\":[],\"blendshapes\":[]}");
}

#[test]
fn several_items_are_comma_separated() {
    let data = WireData::new(
        FramePayload::Landmarks(vec![landmark("1", "2", "3"), landmark("4", "5", "6")]),
        vec![category("0.1", "a", "one"), category("0.2", "b", "two")],
    );
    let body = data.to_json();
    assert_eq!(
        body,
        "{\"landmarks\":[{\"x\":1,\"y\":2,\"z\":3},{\"x\":4,\"y\":5,\"z\":6}],\
         \"blendshapes\":[{\"score\":0.1,\"name\":\"one\"},{\"score\":0.2,\"name\":\"two\"}]}"
    );
}

#[test]
fn names_are_escaped_exactly_as_json_strings() {
    let tricky = [
        "plain",
        "with \"quotes\"",
        "back\\slash",
        "line\nbreak tab\t cr\r",
        "control \u{1} \u{1f} \u{8} \u{c}",
        "unicode \u{e9}\u{4e16}",
    ];
    for name in tricky {
        let c = category("0", "d", name);
        let text = c.to_json();
        let expected = format!("{{\"score\":0,\"name\":{}}}", serde_json::to_string(name).unwrap());
        assert_eq!(text, expected);

        let value: serde_json::Value = serde_json::from_str(&text).unwrap();
        assert_eq!(value.as_object().unwrap().get("name").unwrap().as_str().unwrap(), name);
    }
}

#[test]
fn distinct_ports_give_distinct_destinations() {
    let a = Broadcaster::new(9000);
    let b = Broadcaster::new(9001);
    assert_eq!(a.target_port, 9000);
    assert_eq!(b.target_port, 9001);
    assert_ne!(a.target_port, b.target_port);
}
