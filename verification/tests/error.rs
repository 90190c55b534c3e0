use bevy_verified::error::{
    render, Advice, DynamicAdvice, IntoReport, Report, RuntimeError, SetAdvice, Severity,
    SourceLocation,
};
use std::fmt::Display;

#[derive(Debug, Clone, PartialEq, Eq)]
struct Plain(u32);

impl Advice for Plain {}

#[derive(Debug, Clone, PartialEq, Eq)]
struct MissingAsset {
    path: String,
}

impl Advice for MissingAsset {
    fn severity(&self) -> Severity {
        Severity::Warning
    }

    fn code<'a>(&'a self) -> Option<Box<dyn Display + 'a>> {
        Some(Box::new("asset::missing"))
    }

    fn help<'a>(&'a self) -> Option<Box<dyn Display + 'a>> {
        Some(Box::new(format!("check that {} exists", self.path)))
    }

    fn url<'a>(&'a self) -> Option<Box<dyn Display + 'a>> {
        Some(Box::new("https://example.org/assets"))
    }
}

fn missing() -> MissingAsset {
    MissingAsset { path: "tree.png".to_string() }
}

fn here() -> SourceLocation {
    SourceLocation { file: "src/systems.rs".to_string(), line: 12, column: 5 }
}

fn text(text: &str) -> Option<String> {
    Some(text.to_string())
}

#[test]
fn an_error_gives_no_advice_unless_it_says_so() {
    let plain = Plain(1);
    assert_eq!(plain.severity(), Severity::Error);
    assert!(plain.code().is_none());
    assert!(plain.help().is_none());
    assert!(plain.url().is_none());
}

#[test]
fn render_displays_advice() {
    assert_eq!(render(None), None);
    assert_eq!(render(Some(Box::new("E7"))), text("E7"));
    assert_eq!(render(Some(Box::new(42))), text("42"));
    let owned = String::from("borrowed");
    assert_eq!(render(Some(Box::new(&owned))), text("borrowed"));
}

#[test]
fn a_runtime_error_keeps_its_message() {
    let error = RuntimeError::new("the asset is gone".to_string());
    assert_eq!(error.message(), "the asset is gone");
    assert_eq!(RuntimeError::new(String::new()).message(), "");
}

#[test]
fn from_error_starts_with_empty_advice() {
    let dynamic = DynamicAdvice::from_error(Plain(3));
    assert_eq!(dynamic.error, Plain(3));
    assert_eq!(dynamic.severity, Severity::Error);
    assert_eq!(dynamic.code, None);
    assert_eq!(dynamic.help, None);
    assert_eq!(dynamic.url, None);
}

#[test]
fn from_error_erases_the_advice_of_the_error() {
    let dynamic = DynamicAdvice::from_error(missing());
    assert_eq!(dynamic.error, missing());
    assert_eq!(dynamic.severity, Severity::Error);
    assert_eq!(dynamic.code, None);
    assert_eq!(dynamic.help, None);
    assert_eq!(dynamic.url, None);
}

#[test]
fn from_error_takes_a_runtime_error() {
    let dynamic = DynamicAdvice::from_error(RuntimeError::new("late".to_string()));
    assert_eq!(dynamic.error.message(), "late");
    assert_eq!(dynamic.severity, Severity::Error);
}

#[test]
fn from_keeps_the_advice_of_the_error() {
    let dynamic = DynamicAdvice::from(missing());
    assert_eq!(dynamic.error, missing());
    assert_eq!(dynamic.severity, Severity::Warning);
    assert_eq!(dynamic.code, text("asset::missing"));
    assert_eq!(dynamic.help, text("check that tree.png exists"));
    assert_eq!(dynamic.url, text("https://example.org/assets"));
}

#[test]
fn from_an_error_without_advice() {
    let dynamic = DynamicAdvice::from(Plain(9));
    assert_eq!(dynamic.error, Plain(9));
    assert_eq!(dynamic.severity, Severity::Error);
    assert_eq!(dynamic.code, None);
    assert_eq!(dynamic.help, None);
    assert_eq!(dynamic.url, None);
}

#[test]
fn into_converts_like_from() {
    let dynamic: DynamicAdvice<MissingAsset> = missing().into();
    assert_eq!(dynamic.severity, Severity::Warning);
    assert_eq!(dynamic.code, text("asset::missing"));
}

#[test]
fn dynamic_advice_sets_one_field_at_a_time() {
    let dynamic = DynamicAdvice::from_error(Plain(1)).with_severity(Severity::Alert);
    assert_eq!(dynamic.severity, Severity::Alert);
    assert_eq!((dynamic.code.clone(), dynamic.help.clone(), dynamic.url.clone()), (None, None, None));

    let dynamic = dynamic.with_code("E001");
    assert_eq!(dynamic.severity, Severity::Alert);
    assert_eq!(dynamic.code, text("E001"));
    assert_eq!((dynamic.help.clone(), dynamic.url.clone()), (None, None));

    let dynamic = dynamic.with_help(String::from("try again"));
    assert_eq!(dynamic.code, text("E001"));
    assert_eq!(dynamic.help, text("try again"));
    assert_eq!(dynamic.url, None);

    let dynamic = dynamic.with_url("https://example.org/E001");
    assert_eq!(dynamic.error, Plain(1));
    assert_eq!(dynamic.severity, Severity::Alert);
    assert_eq!(dynamic.code, text("E001"));
    assert_eq!(dynamic.help, text("try again"));
    assert_eq!(dynamic.url, text("https://example.org/E001"));
}

#[test]
fn setting_advice_again_replaces_it() {
    let dynamic = DynamicAdvice::from(missing())
        .with_code(17)
        .with_severity(Severity::Expected)
        .with_severity(Severity::Error);
    assert_eq!(dynamic.code, text("17"));
    assert_eq!(dynamic.severity, Severity::Error);
    assert_eq!(dynamic.help, text("check that tree.png exists"));
    assert_eq!(dynamic.url, text("https://example.org/assets"));
}

#[test]
fn dynamic_advice_can_be_edited_directly() {
    let mut dynamic = DynamicAdvice::from_error(Plain(1));
    dynamic.severity = Severity::Warning;
    dynamic.help = text("look elsewhere");
    assert_eq!(dynamic.severity, Severity::Warning);
    assert_eq!(dynamic.help, text("look elsewhere"));
}

#[test]
fn setting_advice_on_an_error_wraps_it_and_keeps_the_rest() {
    let dynamic = missing().with_severity(Severity::Expected);
    assert_eq!(dynamic.error, missing());
    assert_eq!(dynamic.severity, Severity::Expected);
    assert_eq!(dynamic.code, text("asset::missing"));
    assert_eq!(dynamic.help, text("check that tree.png exists"));
    assert_eq!(dynamic.url, text("https://example.org/assets"));

    let dynamic = missing().with_code("other");
    assert_eq!(dynamic.severity, Severity::Warning);
    assert_eq!(dynamic.code, text("other"));
    assert_eq!(dynamic.help, text("check that tree.png exists"));
    assert_eq!(dynamic.url, text("https://example.org/assets"));

    let dynamic = missing().with_help("other");
    assert_eq!(dynamic.severity, Severity::Warning);
    assert_eq!(dynamic.code, text("asset::missing"));
    assert_eq!(dynamic.help, text("other"));
    assert_eq!(dynamic.url, text("https://example.org/assets"));

    let dynamic = missing().with_url("other");
    assert_eq!(dynamic.error, missing());
    assert_eq!(dynamic.severity, Severity::Warning);
    assert_eq!(dynamic.code, text("asset::missing"));
    assert_eq!(dynamic.help, text("check that tree.png exists"));
    assert_eq!(dynamic.url, text("other"));
}

#[test]
fn setting_advice_on_an_error_without_advice() {
    let dynamic = Plain(2).with_help("restart");
    assert_eq!(dynamic.error, Plain(2));
    assert_eq!(dynamic.severity, Severity::Error);
    assert_eq!(dynamic.code, None);
    assert_eq!(dynamic.help, text("restart"));
    assert_eq!(dynamic.url, None);
}

#[test]
fn a_report_of_dynamic_advice_keeps_it() {
    let advice = DynamicAdvice::from_error(Plain(4)).with_code("E4");
    let report = Report::from_dynamic(advice, here());
    assert_eq!(report.advice().error, Plain(4));
    assert_eq!(report.advice().severity, Severity::Error);
    assert_eq!(report.advice().code, text("E4"));
    assert_eq!(report.advice().help, None);
    assert_eq!(report.advice().url, None);
    assert_eq!(report.location(), &here());
    assert_eq!(report.count(), None);
}

#[test]
fn a_report_of_an_error_keeps_the_advice_of_the_error() {
    for report in [Report::from_std(missing(), here()), Report::new(missing(), here())] {
        assert_eq!(report.advice().error, missing());
        assert_eq!(report.advice().severity, Severity::Warning);
        assert_eq!(report.advice().code, text("asset::missing"));
        assert_eq!(report.advice().help, text("check that tree.png exists"));
        assert_eq!(report.advice().url, text("https://example.org/assets"));
        assert_eq!(report.location(), &here());
        assert_eq!(report.count(), None);
    }
}

#[test]
fn a_report_sets_advice_and_stays_where_it_was_raised() {
    let report = Report::from_std(missing(), here())
        .with_severity(Severity::Alert)
        .with_code("R1")
        .with_help("R2")
        .with_url("R3");
    assert_eq!(report.advice().error, missing());
    assert_eq!(report.advice().severity, Severity::Alert);
    assert_eq!(report.advice().code, text("R1"));
    assert_eq!(report.advice().help, text("R2"));
    assert_eq!(report.advice().url, text("R3"));
    assert_eq!(report.location(), &here());
    assert_eq!(report.count(), None);
}

#[test]
fn a_report_changes_only_the_advice_that_is_set() {
    let report = Report::from_std(missing(), here()).with_help("elsewhere");
    assert_eq!(report.advice().severity, Severity::Warning);
    assert_eq!(report.advice().code, text("asset::missing"));
    assert_eq!(report.advice().help, text("elsewhere"));
    assert_eq!(report.advice().url, text("https://example.org/assets"));
}

#[test]
fn report_turns_an_error_into_a_report_without_advice() {
    let failed: Result<u8, MissingAsset> = Err(missing());
    match failed.report(here()) {
        Ok(_) => panic!("an error was reported"),
        Err(report) => {
            assert_eq!(report.advice().error, missing());
            assert_eq!(report.advice().severity, Severity::Error);
            assert_eq!(report.advice().code, None);
            assert_eq!(report.advice().help, None);
            assert_eq!(report.advice().url, None);
            assert_eq!(report.location(), &here());
            assert_eq!(report.count(), None);
        },
    }
}

#[test]
fn report_passes_a_value_through() {
    let fine: Result<u8, MissingAsset> = Ok(7);
    match fine.report(here()) {
        Ok(value) => assert_eq!(value, 7),
        Err(_) => panic!("a value was reported"),
    }
}

#[test]
fn setting_advice_on_a_result_reaches_the_error() {
    let failed: Result<u8, MissingAsset> = Err(missing());
    match failed.with_severity(Severity::Alert) {
        Ok(_) => panic!("an error was given"),
        Err(dynamic) => {
            assert_eq!(dynamic.severity, Severity::Alert);
            assert_eq!(dynamic.code, text("asset::missing"));
        },
    }

    let failed: Result<u8, DynamicAdvice<Plain>> = Err(DynamicAdvice::from_error(Plain(5)));
    match failed.with_code("C").with_help("H").with_url("U") {
        Ok(_) => panic!("an error was given"),
        Err(dynamic) => {
            assert_eq!(dynamic.error, Plain(5));
            assert_eq!(dynamic.severity, Severity::Error);
            assert_eq!(dynamic.code, text("C"));
            assert_eq!(dynamic.help, text("H"));
            assert_eq!(dynamic.url, text("U"));
        },
    }
}

#[test]
fn setting_advice_on_a_result_passes_a_value_through() {
    let fine: Result<u8, DynamicAdvice<Plain>> = Ok(3);
    let fine = fine.with_severity(Severity::Alert).with_code("C").with_help("H").with_url("U");
    match fine {
        Ok(value) => assert_eq!(value, 3),
        Err(_) => panic!("a value was given"),
    }
}

#[test]
fn setting_advice_on_a_reported_result() {
    let failed: Result<(), Plain> = Err(Plain(6));
    match failed.report(here()).with_code("late").with_severity(Severity::Warning) {
        Ok(()) => panic!("an error was given"),
        Err(report) => {
            assert_eq!(report.advice().error, Plain(6));
            assert_eq!(report.advice().code, text("late"));
            assert_eq!(report.advice().severity, Severity::Warning);
            assert_eq!(report.location(), &here());
        },
    }
}
