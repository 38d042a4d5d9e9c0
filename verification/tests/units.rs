use jiff::ToSpan;
use jiffy::{Accuracy, Error, HumanTime, Tense, TimePeriod};

const NS: i128 = 1_000_000_000;

fn rough(seconds: i128) -> String {
    HumanTime::from_nanos(seconds * NS)
        .to_text_en(Accuracy::Rough, Tense::Present)
        .unwrap()
}

#[test]
fn boundary_now_to_seconds() {
    assert_eq!("now", rough(0));
    assert_eq!("now", rough(10));
    assert_eq!("11 seconds", rough(11));
}

#[test]
fn boundary_seconds_to_minutes() {
    assert_eq!("45 seconds", rough(45));
    assert_eq!("a minute", rough(46));
    assert_eq!("a minute", rough(90));
    assert_eq!("2 minutes", rough(91));
}

#[test]
fn boundary_minutes_to_hours() {
    assert_eq!("45 minutes", rough(45 * 60));
    assert_eq!("an hour", rough(45 * 60 + 1));
    assert_eq!("an hour", rough(90 * 60));
    assert_eq!("2 hours", rough(90 * 60 + 1));
}

#[test]
fn boundary_hours_to_days() {
    assert_eq!("22 hours", rough(22 * 3600));
    assert_eq!("a day", rough(22 * 3600 + 1));
    assert_eq!("a day", rough(36 * 3600));
    assert_eq!("2 days", rough(36 * 3600 + 1));
}

#[test]
fn boundary_days_to_weeks() {
    assert_eq!("6 days", rough(6 * 86400 + 43200));
    assert_eq!("a week", rough(6 * 86400 + 43200 + 1));
    assert_eq!("a week", rough(10 * 86400 + 43200));
    assert_eq!("2 weeks", rough(10 * 86400 + 43200 + 1));
}

#[test]
fn boundary_weeks_to_months() {
    assert_eq!("4 weeks", rough(29 * 86400));
    assert_eq!("a month", rough(29 * 86400 + 1));
    assert_eq!("a month", rough(45 * 86400));
    assert_eq!("2 months", rough(45 * 86400 + 1));
}

#[test]
fn boundary_months_to_years() {
    assert_eq!("11 months", rough(345 * 86400));
    assert_eq!("a year", rough(345 * 86400 + 1));
    assert_eq!("a year", rough(547 * 86400));
    assert_eq!("2 years", rough(547 * 86400 + 1));
}

#[test]
fn precise_subsecond_chain() {
    let ht = HumanTime::from_nanos(1_002_003_004);
    let text = ht.to_text_en(Accuracy::Precise, Tense::Present).unwrap();
    assert_eq!("1 second, 2 ms, 3 µs and 4 ns", text);
}

#[test]
fn precise_single_nanosecond() {
    let ht = HumanTime::from_nanos(1);
    let text = ht.to_text_en(Accuracy::Precise, Tense::Present).unwrap();
    assert_eq!("1 ns", text);
    let past = HumanTime::from_nanos(-1).locale_en(Accuracy::Precise).unwrap();
    assert_eq!("1 ns ago", past);
}

#[test]
fn precise_keeps_tense_for_one_second() {
    let future = HumanTime::from_nanos(NS).locale_en(Accuracy::Precise).unwrap();
    assert_eq!("in 1 second", future);
    let past = HumanTime::from_nanos(-NS).locale_en(Accuracy::Precise).unwrap();
    assert_eq!("1 second ago", past);
}

#[test]
fn precise_zero_is_zero_seconds() {
    let ht = HumanTime::now();
    assert_eq!(
        "0 seconds",
        ht.to_text_en(Accuracy::Precise, Tense::Present).unwrap()
    );
    assert_eq!("0 seconds", ht.locale_en(Accuracy::Precise).unwrap());
}

#[test]
fn tenses_wrap_fifteen_seconds() {
    let ht = HumanTime::from_nanos(15 * NS);
    assert_eq!(
        "15 seconds",
        ht.to_text_en(Accuracy::Rough, Tense::Present).unwrap()
    );
    assert_eq!(
        "in 15 seconds",
        ht.to_text_en(Accuracy::Rough, Tense::Future).unwrap()
    );
    assert_eq!(
        "15 seconds ago",
        ht.to_text_en(Accuracy::Rough, Tense::Past).unwrap()
    );
}

#[test]
fn negation_keeps_text_content() {
    let samples: [i128; 6] = [0, 15 * NS, 95 * NS, 86400 * NS, 3888000 * NS, 1_002_003_004];
    for nanos in samples {
        let plus = HumanTime::from_nanos(nanos);
        let minus = HumanTime::from_nanos(-nanos);
        for accuracy in [Accuracy::Rough, Accuracy::Precise] {
            assert_eq!(
                plus.to_text_en(accuracy, Tense::Present).unwrap(),
                minus.to_text_en(accuracy, Tense::Present).unwrap()
            );
        }
    }
}

#[test]
fn formatting_is_deterministic() {
    let ht = HumanTime::from_nanos(3888000 * NS + 7);
    for accuracy in [Accuracy::Rough, Accuracy::Precise] {
        let first = ht.to_text_en(accuracy, Tense::Past).unwrap();
        let second = ht.to_text_en(accuracy, Tense::Past).unwrap();
        assert_eq!(first, second);
    }
}

#[test]
fn now_is_zero() {
    assert!(HumanTime::now().is_zero());
    assert!(HumanTime::from_nanos(0).is_zero());
    assert!(!HumanTime::from_nanos(1).is_zero());
    assert!(!HumanTime::from_nanos(-1).is_zero());
}

#[test]
fn accuracy_predicates() {
    assert!(Accuracy::Precise.is_precise());
    assert!(!Accuracy::Precise.is_rough());
    assert!(Accuracy::Rough.is_rough());
    assert!(!Accuracy::Rough.is_precise());
}

#[test]
fn period_texts_rough() {
    assert_eq!("now", TimePeriod::Now.to_text_rough());
    assert_eq!("a minute", TimePeriod::Minutes(1).to_text_rough());
    assert_eq!("an hour", TimePeriod::Hours(1).to_text_rough());
    assert_eq!("a year", TimePeriod::Years(1).to_text_rough());
    assert_eq!("3 weeks", TimePeriod::Weeks(3).to_text_rough());
    assert_eq!("7 seconds", TimePeriod::Seconds(7).to_text_rough());
    assert_eq!("eternity", TimePeriod::Eternity.to_text_rough());
}

#[test]
fn period_texts_precise() {
    assert_eq!("now", TimePeriod::Now.to_text_precise());
    assert_eq!("1 minute", TimePeriod::Minutes(1).to_text_precise());
    assert_eq!("1 hour", TimePeriod::Hours(1).to_text_precise());
    assert_eq!("0 seconds", TimePeriod::Seconds(0).to_text_precise());
    assert_eq!("1 ms", TimePeriod::Millis(1).to_text_precise());
    assert_eq!("12 µs", TimePeriod::Micros(12).to_text_precise());
    assert_eq!("345 ns", TimePeriod::Nanos(345).to_text_precise());
    assert_eq!("eternity", TimePeriod::Eternity.to_text_precise());
}

#[test]
fn period_text_dispatches_on_accuracy() {
    assert_eq!("an hour", TimePeriod::Hours(1).to_text(Accuracy::Rough));
    assert_eq!("1 hour", TimePeriod::Hours(1).to_text(Accuracy::Precise));
}

#[test]
fn error_carries_its_message() {
    let error = Error::InvalidArgument("rejected".to_string());
    assert_eq!("rejected", error.message().as_str());
    assert_eq!(
        Error::InvalidArgument("rejected".to_string()),
        Error::InvalidArgument("rejected".to_string())
    );
}

#[test]
fn large_interval_from_span_components() {
    let ht = HumanTime::from(19998.years());
    assert_eq!(
        "in 19998 years",
        ht.locale_en(Accuracy::Rough).unwrap()
    );
    assert_eq!(
        "19998 years",
        ht.to_text_en(Accuracy::Precise, Tense::Present).unwrap()
    );
}
