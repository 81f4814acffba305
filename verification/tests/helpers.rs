use absence::args::expand_home;
use absence::helpers::encoding::encode;
use absence::helpers::network::GeoInfo;
use absence::helpers::parsing::{parse_range, try_parse_range};
use absence::helpers::patterns::{collect_present, take_first};
use absence::helpers::text::decimal;
use absence::logger::{level_line, parse_event_name, task_line};

#[test]
fn ranges_and_single_numbers() {
    assert_eq!(parse_range("200"), vec![200]);
    assert_eq!(parse_range("1-3"), vec![1, 2, 3]);
    assert_eq!(
        parse_range("200-204,301,401-403"),
        vec![200, 201, 202, 203, 204, 301, 401, 402, 403]
    );
    assert_eq!(parse_range("7-7"), vec![7]);
    assert_eq!(parse_range("3,1,2"), vec![3, 1, 2]);
    assert_eq!(parse_range("+5,007"), vec![5, 7]);
}

#[test]
fn range_that_runs_backwards_is_empty() {
    assert_eq!(parse_range("5-3"), Vec::<usize>::new());
    assert_eq!(parse_range("5-3,9"), vec![9]);
}

#[test]
fn item_with_more_hyphens_counts_by_its_first_part() {
    assert_eq!(parse_range("1-2-3"), vec![1]);
    assert_eq!(parse_range("4--"), vec![4]);
    assert_eq!(parse_range("1-x-3,8"), vec![1, 8]);
}

#[test]
fn malformed_lists_are_refused() {
    assert_eq!(try_parse_range(""), None);
    assert_eq!(try_parse_range("1,"), None);
    assert_eq!(try_parse_range(",1"), None);
    assert_eq!(try_parse_range("a"), None);
    assert_eq!(try_parse_range("1-"), None);
    assert_eq!(try_parse_range("-1"), None);
    assert_eq!(try_parse_range("1 - 2"), None);
    assert_eq!(try_parse_range("+"), None);
    assert_eq!(try_parse_range("--5"), None);
    assert_eq!(try_parse_range("1,x,3"), None);
    assert_eq!(try_parse_range("٣"), None);
    assert_eq!(try_parse_range("99999999999999999999999999"), None);
    assert_eq!(try_parse_range("200-204"), Some(vec![200, 201, 202, 203, 204]));
}

#[test]
fn largest_number_is_accepted() {
    let text = usize::MAX.to_string();
    assert_eq!(try_parse_range(&text), Some(vec![usize::MAX]));
    let range = format!("{}-{}", usize::MAX - 1, usize::MAX);
    assert_eq!(
        try_parse_range(&range),
        Some(vec![usize::MAX - 1, usize::MAX])
    );
    let too_large = format!("{}0", usize::MAX);
    assert_eq!(try_parse_range(&too_large), None);
}

#[test]
fn numbers_in_decimal() {
    assert_eq!(decimal(0), "0");
    assert_eq!(decimal(7), "7");
    assert_eq!(decimal(10), "10");
    assert_eq!(decimal(443), "443");
    assert_eq!(decimal(25565), "25565");
    assert_eq!(decimal(usize::MAX), usize::MAX.to_string());
}

#[test]
fn home_directory_is_filled_in() {
    assert_eq!(expand_home("~/.absence", "/home/me"), "/home/me/.absence");
    assert_eq!(expand_home("~", "/home/me"), "/home/me");
    assert_eq!(expand_home("/tmp/out", "/home/me"), "/tmp/out");
    assert_eq!(expand_home("", "/home/me"), "");
    assert_eq!(expand_home("a~b", "/home/me"), "a~b");
    assert_eq!(expand_home("~é", ""), "é");
}

#[test]
fn base64_of_some_bytes() {
    assert_eq!(encode(&vec![]), Some(String::new()));
    assert_eq!(encode(&b"hello world~".to_vec()), Some(String::from("aGVsbG8gd29ybGR+")));
    assert_eq!(encode(&vec![0u8]), Some(String::from("AA==")));
    assert_eq!(encode(&vec![255u8, 254]), Some(String::from("//4=")));
}

#[test]
fn groups_that_took_part_are_kept() {
    let groups = vec![
        Some(String::from("a")),
        None,
        Some(String::from("b")),
        None,
    ];
    assert_eq!(
        collect_present(groups),
        vec![String::from("a"), String::from("b")]
    );
    assert_eq!(collect_present(vec![]), Vec::<String>::new());
    assert_eq!(take_first(None), None);
    assert_eq!(take_first(Some(vec![])), None);
    assert_eq!(take_first(Some(vec![None, Some(String::from("x"))])), None);
    assert_eq!(
        take_first(Some(vec![Some(String::from("x")), None])),
        Some(String::from("x"))
    );
}

#[test]
fn lines_of_the_log() {
    assert_eq!(parse_event_name(String::from("emit")), "(emit)");
    assert_eq!(parse_event_name(String::new()), "");
    assert_eq!(
        level_line("$[fg:red]", "error", String::from("setup"), "no file"),
        "[$[now:time]] [$[fg:red]error(setup)$[reset]] no file"
    );
    assert_eq!(
        level_line("$[fg:blue]", "info", String::new(), "done"),
        "[$[now:time]] [$[fg:blue]info$[reset]] done"
    );
    assert_eq!(
        task_line("ready", "go"),
        "[$[now:time]] [$[effect:bold]$[fg:green]ready$[reset]] go"
    );
}

#[test]
fn place_of_an_address_as_json() {
    let known = GeoInfo::new(Some(String::from("Bern")), Some(String::from("Switzerland")));
    let mut expected = serde_json::Map::new();
    expected.insert(String::from("city"), serde_json::Value::from("Bern"));
    expected.insert(String::from("country"), serde_json::Value::from("Switzerland"));
    assert_eq!(known.to_json_value(), serde_json::Value::Object(expected));

    let partly = GeoInfo::new(None, Some(String::from("Switzerland")));
    let mut expected = serde_json::Map::new();
    expected.insert(String::from("city"), serde_json::Value::Null);
    expected.insert(String::from("country"), serde_json::Value::from("Switzerland"));
    assert_eq!(partly.to_json_value(), serde_json::Value::Object(expected));
}
