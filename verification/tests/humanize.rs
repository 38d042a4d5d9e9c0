use jiff::ToSpan;
use jiffy::Humanize;

#[test]
fn humanize_now() {
    let english = jiff::Span::default().humanize();
    assert_eq!("now", english);
}

#[test]
fn humanize_plus_5s() {
    let english = 5.seconds().humanize();
    assert_eq!("now", english);
}

#[test]
fn humanize_minus_5s() {
    let english = (-5).seconds().humanize();
    assert_eq!("now", english);
}

#[test]
fn humanize_plus_15s() {
    let english = 15.seconds().humanize();
    assert_eq!("in 15 seconds", english);
}

#[test]
fn humanize_minus_15s() {
    let english = (-15).seconds().humanize();
    assert_eq!("15 seconds ago", english);
}

#[test]
fn humanize_plus_95s() {
    let english = 95.seconds().humanize();
    assert_eq!("in 2 minutes", english);
}

#[test]
fn humanize_minus_95s() {
    let english = (-95).seconds().humanize();
    assert_eq!("2 minutes ago", english);
}

#[test]
fn humanize_plus_125s() {
    let english = 125.seconds().humanize();
    assert_eq!("in 2 minutes", english);
}

#[test]
fn humanize_minus_125s() {
    let english = (-125).seconds().humanize();
    assert_eq!("2 minutes ago", english);
}

#[test]
fn humanize_plus_31m() {
    let english = 31.minutes().humanize();
    assert_eq!("in 31 minutes", english);
}

#[test]
fn humanize_minus_31m() {
    let english = (-31).minutes().humanize();
    assert_eq!("31 minutes ago", english);
}

#[test]
fn humanize_plus_45m() {
    let english = 45.minutes().humanize();
    assert_eq!("in 45 minutes", english);
}

#[test]
fn humanize_minus_45m() {
    let english = (-45).minutes().humanize();
    assert_eq!("45 minutes ago", english);
}

#[test]
fn humanize_plus_46m() {
    let english = 46.minutes().humanize();
    assert_eq!("in an hour", english);
}

#[test]
fn humanize_minus_46m() {
    let english = (-46).minutes().humanize();
    assert_eq!("an hour ago", english);
}

#[test]
fn humanize_plus_1h() {
    let english = 1.hours().humanize();
    assert_eq!("in an hour", english);
}

#[test]
fn humanize_minus_1h() {
    let english = (-1).hours().humanize();
    assert_eq!("an hour ago", english);
}

#[test]
fn humanize_plus_12h() {
    let english = 12.hours().humanize();
    assert_eq!("in 12 hours", english);
}

#[test]
fn humanize_minus_12h() {
    let english = (-12).hours().humanize();
    assert_eq!("12 hours ago", english);
}

#[test]
fn humanize_plus_23h() {
    let english = 23.hours().humanize();
    assert_eq!("in a day", english);
}

#[test]
fn humanize_minus_23h() {
    let english = (-23).hours().humanize();
    assert_eq!("a day ago", english);
}

#[test]
fn humanize_plus_26h() {
    let english = 26.hours().humanize();
    assert_eq!("in a day", english);
}

#[test]
fn humanize_minus_26h() {
    let english = (-26).hours().humanize();
    assert_eq!("a day ago", english);
}

#[test]
fn humanize_plus_1d() {
    let english = 1.days().humanize();
    assert_eq!("in a day", english);
}

#[test]
fn humanize_minus_1d() {
    let english = (-1).days().humanize();
    assert_eq!("a day ago", english);
}

#[test]
fn humanize_plus_2d() {
    let english = 2.days().humanize();
    assert_eq!("in 2 days", english);
}

#[test]
fn humanize_minus_2d() {
    let english = (-2).days().humanize();
    assert_eq!("2 days ago", english);
}

#[test]
fn humanize_plus_6d_13h() {
    let english = 6.days().checked_add(13.hours()).unwrap().humanize();
    assert_eq!("in a week", english);
}

#[test]
fn humanize_minus_6d_13h() {
    let english = (-6).days().checked_add((-13).hours()).unwrap().humanize();
    assert_eq!("a week ago", english);
}

#[test]
fn humanize_plus_7d() {
    let english = 7.days().humanize();
    assert_eq!("in a week", english);
}

#[test]
fn humanize_minus_7d() {
    let english = (-7).days().humanize();
    assert_eq!("a week ago", english);
}

#[test]
fn humanize_plus_10d() {
    let english = 10.days().humanize();
    assert_eq!("in a week", english);
}

#[test]
fn humanize_minus_10d() {
    let english = (-10).days().humanize();
    assert_eq!("a week ago", english);
}

#[test]
fn humanize_plus_11d() {
    let english = 11.days().humanize();
    assert_eq!("in 2 weeks", english);
}

#[test]
fn humanize_minus_11d() {
    let english = (-11).days().humanize();
    assert_eq!("2 weeks ago", english);
}

#[test]
fn humanize_plus_4w() {
    let english = 4.weeks().humanize();
    assert_eq!("in 4 weeks", english);
}

#[test]
fn humanize_minus_4w() {
    let english = (-4).weeks().humanize();
    assert_eq!("4 weeks ago", english);
}

#[test]
fn humanize_plus_30d() {
    let english = 30.days().humanize();
    assert_eq!("in a month", english);
}

#[test]
fn humanize_minus_30d() {
    let english = (-30).days().humanize();
    assert_eq!("a month ago", english);
}

#[test]
fn humanize_plus_45d() {
    let english = 45.days().humanize();
    assert_eq!("in a month", english);
}

#[test]
fn humanize_minus_45d() {
    let english = (-45).days().humanize();
    assert_eq!("a month ago", english);
}

#[test]
fn humanize_plus_46d() {
    let english = 46.days().humanize();
    assert_eq!("in 2 months", english);
}

#[test]
fn humanize_minus_46d() {
    let english = (-46).days().humanize();
    assert_eq!("2 months ago", english);
}

#[test]
fn humanize_plus_24w() {
    let english = 24.weeks().humanize();
    assert_eq!("in 5 months", english);
}

#[test]
fn humanize_minus_24w() {
    let english = (-24).weeks().humanize();
    assert_eq!("5 months ago", english);
}

#[test]
fn humanize_plus_26w() {
    let english = 26.weeks().humanize();
    assert_eq!("in 6 months", english);
}

#[test]
fn humanize_minus_26w() {
    let english = (-26).weeks().humanize();
    assert_eq!("6 months ago", english);
}

#[test]
fn humanize_plus_50w() {
    let english = 50.weeks().humanize();
    assert_eq!("in a year", english);
}

#[test]
fn humanize_minus_50w() {
    let english = (-50).weeks().humanize();
    assert_eq!("a year ago", english);
}

#[test]
fn humanize_plus_100w() {
    let english = 100.weeks().humanize();
    assert_eq!("in 2 years", english);
}

#[test]
fn humanize_minus_100w() {
    let english = (-100).weeks().humanize();
    assert_eq!("2 years ago", english);
}

#[test]
fn humanize_plus_120w() {
    let english = 120.weeks().humanize();
    assert_eq!("in 2 years", english);
}

#[test]
fn humanize_minus_120w() {
    let english = (-120).weeks().humanize();
    assert_eq!("2 years ago", english);
}

#[test]
fn humanize_plus_200w() {
    let english = 200.weeks().humanize();
    assert_eq!("in 3 years", english);
}

#[test]
fn humanize_minus_200w() {
    let english = (-200).weeks().humanize();
    assert_eq!("3 years ago", english);
}
