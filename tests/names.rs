use prg_convert::model2012;
use prg_convert::model2021;

#[test]
fn model2012_name_from_part1() {
    let name_part_1 = "Test".to_string();
    let name_part_2 = String::new();
    let name_part_3 = String::new();
    let name_part_4 = String::new();
    let expected_name = "Test".to_string();
    let name = model2012::construct_full_name_from_parts(name_part_1, name_part_2, name_part_3, name_part_4);
    assert_eq!(name, expected_name);
}

#[test]
fn model2012_name_from_part1_part2() {
    let name_part_1 = "Test".to_string();
    let name_part_2 = "Test2".to_string();
    let name_part_3 = String::new();
    let name_part_4 = String::new();
    let expected_name = "Test Test2".to_string();
    let name = model2012::construct_full_name_from_parts(name_part_1, name_part_2, name_part_3, name_part_4);
    assert_eq!(name, expected_name);
}

#[test]
fn name_from_part1_part2_part3() {
    let name_part_1 = "Test".to_string();
    let name_part_2 = "Test2".to_string();
    let name_part_3 = "Test3".to_string();
    let name_part_4 = String::new();
    let expected_name = "Test Test2 Test3".to_string();
    let name = model2012::construct_full_name_from_parts(name_part_1, name_part_2, name_part_3, name_part_4);
    assert_eq!(name, expected_name);
}

#[test]
fn name_from_part1_part2_part3_part4() {
    let name_part_1 = "Test".to_string();
    let name_part_2 = "Test2".to_string();
    let name_part_3 = "Test3".to_string();
    let name_part_4 = "Test4".to_string();
    let expected_name = "Test Test2 Test3 Test4".to_string();
    let name = model2012::construct_full_name_from_parts(name_part_1, name_part_2, name_part_3, name_part_4);
    assert_eq!(name, expected_name);
}

#[test]
fn name_skips_empty_middle_parts() {
    let name = model2012::construct_full_name_from_parts(
        String::new(),
        "Jana".to_string(),
        String::new(),
        "Pawła".to_string(),
    );
    assert_eq!(name, "Jana Pawła");
    let none = model2012::construct_full_name_from_parts(String::new(), String::new(), String::new(), String::new());
    assert_eq!(none, "");
}

#[test]
fn model2021_name_from_part1() {
    let typ = "1";
    let part1 = "Test".to_string();
    let part2 = None;
    let expected_name = "Test";
    let name = model2021::construct_full_name_from_parts(&part1, &part2, &typ);
    assert_eq!(name, expected_name);
}

#[test]
fn model2021_name_from_part1_part2() {
    let typ = "1";
    let part1 = "Test".to_string();
    let part2 = Some("Test2".to_string());
    let expected_name = "Test2 Test";
    let name = model2021::construct_full_name_from_parts(&part1, &part2, &typ);
    assert_eq!(name, expected_name);
}

#[test]
fn name_from_part1_typ_3() {
    let typ = "3";
    let part1 = "Test".to_string();
    let part2 = None;
    let expected_name = "plac Test";
    let name = model2021::construct_full_name_from_parts(&part1, &part2, &typ);
    assert_eq!(name, expected_name);
}

#[test]
fn name_from_part1_part2_typ_3() {
    let typ = "3";
    let part1 = "Test".to_string();
    let part2 = Some("Test2".to_string());
    let expected_name = "plac Test2 Test";
    let name = model2021::construct_full_name_from_parts(&part1, &part2, &typ);
    assert_eq!(name, expected_name);
}

#[test]
fn name_from_part1_typ_3_prefix() {
    let typ = "3";
    let part1 = "plac Test".to_string();
    let part2 = None;
    let expected_name = "plac Test";
    let name = model2021::construct_full_name_from_parts(&part1, &part2, &typ);
    assert_eq!(name, expected_name);
}

#[test]
fn name_from_part1_typ_3_prefix_short() {
    let typ = "3";
    let part1 = "pl. Test".to_string();
    let part2 = None;
    let expected_name = "pl. Test";
    let name = model2021::construct_full_name_from_parts(&part1, &part2, &typ);
    assert_eq!(name, expected_name);
}

#[test]
fn prefix_check_ignores_letter_case() {
    let name = model2021::construct_full_name_from_parts(&"Plac Wolności".to_string(), &None, "3");
    assert_eq!(name, "Plac Wolności");
    let avenue = model2021::construct_full_name_from_parts(&"Al. Jerozolimskie".to_string(), &None, "2");
    assert_eq!(avenue, "Al. Jerozolimskie");
}

#[test]
fn other_street_types_get_their_word() {
    let name = model2021::construct_full_name_from_parts(&"Kopernika".to_string(), &None, "11");
    assert_eq!(name, "osiedle Kopernika");
    let unknown = model2021::construct_full_name_from_parts(&"Kopernika".to_string(), &None, "42");
    assert_eq!(unknown, "Kopernika");
    let catch_all = model2021::construct_full_name_from_parts(&"Kopernika".to_string(), &None, "15");
    assert_eq!(catch_all, "Kopernika");
}
