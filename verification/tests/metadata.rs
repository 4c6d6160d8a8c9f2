use mfek_ipc::helpers::metadata::{
    arbitrary_arguments, arbitrary_request, guidelines_request, plan_guidelines, read_answers,
    read_guidelines, Failure, Guideline, JsonGuideline,
};
use mfek_ipc::util::{Component, PathParts};
use mfek_ipc::IPCInfo;

fn relative(names: &[&str]) -> PathParts {
    PathParts { components: names.iter().map(|n| Component::Normal(n.to_string())).collect() }
}

fn bits(number: f64) -> u64 {
    number.to_bits()
}

fn bare(x: Option<u64>, y: Option<u64>, angle: Option<u64>) -> JsonGuideline {
    JsonGuideline { x, y, angle, name: None, identifier: None, color: None }
}

#[test]
fn test_arbitrary() {
    let mut info = IPCInfo::new_disconnected(relative(&["ipc"]));
    info.font = Some(relative(&["test_data", "FRBAmericanCursive-SOURCE.ufo"]));
    let keys = ["openTypeNameLicense", "openTypeNameVersion"];
    let request = arbitrary_request(&info, &keys).unwrap();
    assert_eq!(request.font, relative(&["test_data", "FRBAmericanCursive-SOURCE.ufo"]));
    assert_eq!(
        request.arguments,
        vec!["arbitrary", "-k", "openTypeNameLicense", "-k", "openTypeNameVersion"]
    );
    let output = b"GNU General Public License, version 3\nVersion 1.000\n";
    let arb = read_answers(&keys, Some(&output[..])).unwrap();
    assert!(arb.get("openTypeNameLicense").unwrap().contains("GNU"));
    assert_eq!(arb.get("openTypeNameVersion").unwrap(), "Version 1.000");
    assert_eq!(arb.len(), 2);
}

#[test]
fn test_asc_desc() {
    let keys = ["ascender", "descender"];
    let asc_desc = read_answers(&keys, Some(&b"650\n-350\n"[..])).unwrap();
    let a_d: (f32, f32) = (
        asc_desc.get("ascender").unwrap().parse().unwrap(),
        asc_desc.get("descender").unwrap().parse().unwrap(),
    );
    assert_eq!(a_d.0, 650.0);
    assert_eq!(a_d.1, -350.0);
}

#[test]
fn arguments_name_the_subcommand_and_flag_each_key() {
    assert_eq!(arbitrary_arguments(&[]), vec!["arbitrary"]);
    assert_eq!(arbitrary_arguments(&["ascender"]), vec!["arbitrary", "-k", "ascender"]);
    assert_eq!(
        arbitrary_arguments(&["a", "b", "a"]),
        vec!["arbitrary", "-k", "a", "-k", "b", "-k", "a"]
    );
}

#[test]
fn no_request_without_a_font() {
    let info = IPCInfo::new_disconnected(relative(&["ipc"]));
    assert_eq!(arbitrary_request(&info, &["ascender"]), Err(Failure::NoFont));
    assert_eq!(guidelines_request(&info), Err(Failure::NoFont));
}

#[test]
fn the_request_for_guidelines() {
    let mut info = IPCInfo::new_disconnected(relative(&["ipc"]));
    info.font = Some(relative(&["A.ufo"]));
    let request = guidelines_request(&info).unwrap();
    assert_eq!(request.font, relative(&["A.ufo"]));
    assert_eq!(request.arguments, vec!["arbitrary", "-k", "guidelines"]);
}

#[test]
fn answers_need_a_module_that_started() {
    assert_eq!(read_answers(&["a"], None).err(), Some(Failure::NotStarted));
    assert_eq!(read_guidelines(None), Err(Failure::NotStarted));
}

#[test]
fn answers_need_text() {
    assert_eq!(read_answers(&["a"], Some(&[0x66, 0xff][..])).err(), Some(Failure::NotText));
    assert_eq!(read_guidelines(Some(&[0xc0, 0x80][..])), Err(Failure::NotText));
}

#[test]
fn answers_need_a_line_for_each_key() {
    assert_eq!(
        read_answers(&["a", "b"], Some(&b"1\n"[..])).err(),
        Some(Failure::Mismatch { lines: 1, keys: 2 })
    );
    assert_eq!(
        read_answers(&["a"], Some(&b"1\n2\n"[..])).err(),
        Some(Failure::Mismatch { lines: 2, keys: 1 })
    );
    assert_eq!(
        read_answers(&[], Some(&b"1\n"[..])).err(),
        Some(Failure::Mismatch { lines: 1, keys: 0 })
    );
    assert_eq!(
        read_answers(&["a"], Some(&b""[..])).err(),
        Some(Failure::Mismatch { lines: 0, keys: 1 })
    );
}

#[test]
fn no_keys_and_no_lines_are_no_answers() {
    let answers = read_answers(&[], Some(&b""[..])).unwrap();
    assert!(answers.is_empty());
}

#[test]
fn answers_follow_the_order_of_the_keys() {
    let answers = read_answers(&["a", "b", "c"], Some(&b"1\r\n\n3 3"[..])).unwrap();
    assert_eq!(answers.get("a").unwrap(), "1");
    assert_eq!(answers.get("b").unwrap(), "");
    assert_eq!(answers.get("c").unwrap(), "3 3");
    assert!(answers.get("d").is_none());
    assert_eq!(answers.len(), 3);
}

#[test]
fn of_a_key_asked_for_twice_the_later_answer_counts() {
    let answers = read_answers(&["a", "b", "a"], Some(&b"1\n2\n3\n"[..])).unwrap();
    assert_eq!(answers.get("a").unwrap(), "3");
    assert_eq!(answers.get("b").unwrap(), "2");
    assert_eq!(answers.len(), 2);
}

#[test]
fn guidelines_are_read_from_the_first_line() {
    let output = br#"[{"x": 10, "y": 20.5, "angle": 90, "name": "cap", "identifier": "g1", "color": [1, 0.5, 0, 1]}]
[{"x": 1, "y": 2, "angle": 3}]
"#;
    assert_eq!(
        read_guidelines(Some(&output[..])),
        Ok(vec![Guideline {
            x: bits(10.0),
            y: bits(20.5),
            angle: bits(90.0),
            name: "cap".to_string(),
            identifier: Some("g1".to_string()),
            color: Some((bits(1.0), bits(0.5), bits(0.0), bits(1.0))),
        }])
    );
}

#[test]
fn guidelines_without_a_name_are_numbered() {
    let output = br#"[{"x":0,"y":0,"angle":0},{"x":1,"y":1,"angle":1,"name":"n"},{"x":2,"y":2,"angle":2,"name":7},{"y":3,"angle":3},{"x":4,"y":4,"angle":4}]"#;
    let guidelines = read_guidelines(Some(&output[..])).unwrap();
    let names: Vec<&str> = guidelines.iter().map(|g| g.name.as_str()).collect();
    assert_eq!(names, vec!["Unnamed 1", "n", "Unnamed 2", "Unnamed 3"]);
    let xs: Vec<u64> = guidelines.iter().map(|g| g.x).collect();
    assert_eq!(xs, vec![bits(0.0), bits(1.0), bits(2.0), bits(4.0)]);
}

#[test]
fn guidelines_need_three_numbers() {
    let output = br#"[{"x":"1","y":2,"angle":3},{"x":1,"y":null,"angle":3},{"x":1,"y":2},{"x":1,"y":2,"angle":[3]},{}]"#;
    assert_eq!(read_guidelines(Some(&output[..])), Ok(vec![]));
}

#[test]
fn guidelines_need_a_line() {
    assert_eq!(read_guidelines(Some(&b""[..])), Err(Failure::NoLine));
}

#[test]
fn guidelines_need_an_array_of_objects() {
    for output in [&b"\n[]"[..], b"{}", b"[1]", b"[[]]", b"not json", b"[{\"x\":1}", b"[{}] x"] {
        assert_eq!(read_guidelines(Some(output)), Err(Failure::NotJson), "{:?}", output);
    }
    assert_eq!(read_guidelines(Some(&b"[]"[..])), Ok(vec![]));
    assert_eq!(read_guidelines(Some(&b" [ ] \n"[..])), Ok(vec![]));
}

#[test]
fn a_colour_needs_four_numbers() {
    let output = br#"[{"x":0,"y":0,"angle":0,"color":[1,2,3]},{"x":0,"y":0,"angle":0,"color":[1,2,"3",4]},{"x":0,"y":0,"angle":0,"color":"red"},{"x":0,"y":0,"angle":0,"color":[1,2,3,4,"x"]}]"#;
    let guidelines = read_guidelines(Some(&output[..])).unwrap();
    let colors: Vec<Option<(u64, u64, u64, u64)>> = guidelines.iter().map(|g| g.color).collect();
    assert_eq!(
        colors,
        vec![None, None, None, Some((bits(1.0), bits(2.0), bits(3.0), bits(4.0)))]
    );
}

#[test]
fn an_identifier_needs_a_text() {
    let output = br#"[{"x":0,"y":0,"angle":0,"identifier":5},{"x":0,"y":0,"angle":0,"identifier":"five"}]"#;
    let guidelines = read_guidelines(Some(&output[..])).unwrap();
    assert_eq!(guidelines[0].identifier, None);
    assert_eq!(guidelines[1].identifier, Some("five".to_string()));
}

#[test]
fn numbers_keep_their_value() {
    let output = br#"[{"x":-350,"y":1e3,"angle":0.1}]"#;
    let guidelines = read_guidelines(Some(&output[..])).unwrap();
    assert_eq!(f64::from_bits(guidelines[0].x), -350.0);
    assert_eq!(f64::from_bits(guidelines[0].y), 1000.0);
    assert_eq!(f64::from_bits(guidelines[0].angle), 0.1);
}

#[test]
fn planning_guidelines_from_objects() {
    let records = vec![
        bare(Some(1), Some(2), Some(3)),
        bare(None, Some(2), Some(3)),
        JsonGuideline {
            x: Some(4),
            y: Some(5),
            angle: Some(6),
            name: Some("named".to_string()),
            identifier: Some("id".to_string()),
            color: Some(vec![Some(7), Some(8), Some(9), Some(10), None]),
        },
        JsonGuideline {
            x: Some(11),
            y: Some(12),
            angle: Some(13),
            name: None,
            identifier: None,
            color: Some(vec![Some(7), None, Some(9), Some(10)]),
        },
    ];
    assert_eq!(
        plan_guidelines(records),
        vec![
            Guideline {
                x: 1,
                y: 2,
                angle: 3,
                name: "Unnamed 1".to_string(),
                identifier: None,
                color: None
            },
            Guideline {
                x: 4,
                y: 5,
                angle: 6,
                name: "named".to_string(),
                identifier: Some("id".to_string()),
                color: Some((7, 8, 9, 10))
            },
            Guideline {
                x: 11,
                y: 12,
                angle: 13,
                name: "Unnamed 2".to_string(),
                identifier: None,
                color: None
            },
        ]
    );
}

#[test]
fn many_guidelines_without_a_name() {
    let records: Vec<JsonGuideline> = (0..12).map(|_| bare(Some(0), Some(0), Some(0))).collect();
    let guidelines = plan_guidelines(records);
    assert_eq!(guidelines[8].name, "Unnamed 9");
    assert_eq!(guidelines[9].name, "Unnamed 10");
    assert_eq!(guidelines[11].name, "Unnamed 12");
}
