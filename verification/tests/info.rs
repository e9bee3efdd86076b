use eh::eh_config::CommandConfig;
use eh::eh_error::EhError;
use eh::info::{
    format_license, handle_info, license_name, package_name_from_eval_expr, platform_summary,
    print_package_info, InfoLine, PackageMeta, StatusFlag,
};
use eh::json::Json;

fn object(members: Vec<(&str, Json)>) -> Json {
    Json::Object(members.into_iter().map(|(k, v)| (k.to_string(), v)).collect())
}

fn text(s: &str) -> Json {
    Json::Str(s.to_string())
}

fn meta(name: &str) -> PackageMeta {
    PackageMeta {
        name: name.to_string(),
        version: None,
        description: None,
        long_description: None,
        license: None,
        homepage: None,
        platforms: None,
        broken: None,
        insecure: None,
        unfree: None,
    }
}

#[test]
fn package_names_come_from_the_attribute() {
    assert_eq!(package_name_from_eval_expr("nixpkgs#hello.meta"), "hello");
    assert_eq!(package_name_from_eval_expr(".#default.meta"), "default");
    assert_eq!(package_name_from_eval_expr(".#.meta"), "default");
    assert_eq!(package_name_from_eval_expr("a#b#c.meta.meta"), "c");
    assert_eq!(package_name_from_eval_expr("plain"), "plain");
}

#[test]
fn license_names() {
    assert_eq!(license_name(&text("GPL-3.0")).as_deref(), Some("GPL-3.0"));
    let obj = object(vec![("spdxId", text("MIT")), ("fullName", text("MIT License"))]);
    assert_eq!(license_name(&obj).as_deref(), Some("MIT"));
    let short = object(vec![("shortName", text("bsd3"))]);
    assert_eq!(license_name(&short).as_deref(), Some("bsd3"));
    assert_eq!(license_name(&Json::Null), None);
}

#[test]
fn license_lines() {
    let list = Json::Array(vec![text("MIT"), Json::Bool(true), object(vec![("spdxId", text("Apache-2.0"))])]);
    assert_eq!(format_license(&list), "MIT, Apache-2.0");
    assert_eq!(format_license(&Json::Array(vec![])), "Unknown");
    assert_eq!(format_license(&Json::Number("1".into())), "Unknown");
    assert_eq!(format_license(&text("GPL-3.0")), "GPL-3.0");
}

#[test]
fn platforms_beyond_four_are_counted() {
    let few: Vec<String> = vec!["x86_64-linux".into(), "aarch64-linux".into()];
    assert_eq!(platform_summary(&few), "x86_64-linux, aarch64-linux");
    let many: Vec<String> = (0..7).map(|i| format!("p{i}")).collect();
    assert_eq!(platform_summary(&many), "p0, p1, p2, p3 + 3 more");
}

#[test]
fn the_report_lists_metadata_outputs_and_usage() {
    let mut m = meta("hello");
    m.version = Some("2.12.1".into());
    m.description = Some("A greeting program".into());
    m.long_description = Some("A greeting program".into());
    m.license = Some(text("GPL-3.0"));
    m.unfree = Some(true);
    m.broken = Some(false);
    let outputs = vec!["out".to_string(), "man".to_string()];
    let lines = print_package_info(&m, Some(&outputs), "hello");
    assert!(matches!(&lines[0], InfoLine::Blank));
    assert!(matches!(&lines[1], InfoLine::Field { label, value } if *label == "Package:" && value == "hello"));
    assert!(matches!(&lines[2], InfoLine::Field { label, value } if *label == "Version:" && value == "2.12.1"));
    assert!(matches!(&lines[3], InfoLine::Field { label, .. } if *label == "Description:"));
    // The long description repeats the description, so it is left out.
    assert!(matches!(&lines[4], InfoLine::Field { label, value } if *label == "License:" && value == "GPL-3.0"));
    assert!(matches!(&lines[5], InfoLine::Blank));
    assert!(matches!(&lines[6], InfoLine::Heading { label } if *label == "Meta:"));
    assert!(matches!(&lines[7], InfoLine::Status { flags } if flags == &vec![StatusFlag::Unfree]));
    assert!(matches!(&lines[9], InfoLine::Heading { label } if *label == "Outputs:"));
    assert!(matches!(&lines[10], InfoLine::Output { name, default } if name == "out" && *default));
    assert!(matches!(&lines[11], InfoLine::Output { name, default } if name == "man" && !*default));
    assert!(matches!(&lines[14], InfoLine::Usage { command, package, .. } if *command == "eh run" && package == "hello"));
    assert_eq!(lines.len(), 17);
}

#[test]
fn a_distinct_long_description_is_filled() {
    let mut m = meta("x");
    m.long_description = Some("word ".repeat(30));
    let lines = print_package_info(&m, None, "x");
    match &lines[3] {
        InfoLine::Paragraph { text } => {
            assert!(text.lines().count() > 1);
            assert!(text.lines().all(|l| l.chars().count() <= 70));
        },
        _ => panic!("expected the long description"),
    }
}

#[test]
fn info_evaluates_meta_and_outputs() {
    let cfg = CommandConfig::default();
    let plan = handle_info(&["--json".to_string(), "hello".to_string()], &cfg).unwrap();
    assert_eq!(plan.package, "hello");
    assert_eq!(plan.eval_arg, "nixpkgs#hello.meta");
    assert_eq!(plan.package_name, "hello");
    assert_eq!(plan.meta_command.argv(), ["nix", "eval", "--json", "nixpkgs#hello.meta"]);
    assert_eq!(plan.outputs_command.argv(), ["nix", "eval", "--json", "nixpkgs#hello.outputs"]);
    let plan = handle_info(&[], &cfg).unwrap();
    assert_eq!(plan.package, ".");
    assert_eq!(plan.eval_arg, ".#default.meta");
    assert!(matches!(handle_info(&[" ".to_string()], &cfg), Err(EhError::InvalidEvalInput)));
}

#[test]
fn the_report_follows_what_the_evaluations_gave() {
    let cfg = CommandConfig::default();
    let plan = handle_info(&["hello".to_string()], &cfg).unwrap();
    assert!(matches!(
        eh::info::info_report(&plan, eh::info::MetaOutcome::Failed, true, None),
        Err(EhError::NixCommandFailed { command }) if command == "eval"
    ));
    assert!(matches!(
        eh::info::info_report(&plan, eh::info::MetaOutcome::Unparsable { message: "bad".into() }, true, None),
        Err(EhError::Io(m)) if m == "Failed to parse package metadata: bad"
    ));
    let outputs = Some(vec!["out".to_string()]);
    let with = eh::info::info_report(&plan, eh::info::MetaOutcome::Parsed { meta: meta("hello") }, true, outputs.clone()).unwrap();
    let without = eh::info::info_report(&plan, eh::info::MetaOutcome::Parsed { meta: meta("hello") }, false, outputs).unwrap();
    assert_eq!(with.len(), without.len() + 3);
    assert!(with.iter().any(|l| matches!(l, InfoLine::Output { name, .. } if name == "out")));
}
