use lightroom::brightness::{brightness_level_text, interpret_report, Reading};
use lightroom::command::{query_args, set_brightness_args, DISPLAY_TOOL};
use lightroom::output::find_primary_output;
use lightroom::state::{Brightness, CapturedOutput, SetupError, CONTROL_LABEL};
use lightroom::text::{chars_of, white_space};
use regex::Regex;

const VERBOSE_REPORT: &str = "Screen 0: minimum 8 x 8, current 1920 x 1080\n\
HDMI-0 connected primary 1920x1080+0+0 (0x1c0) normal\n\
\tIdentifier: 0x1bd\n\
   Brightness: 0.73\n\
   Gamma: 1.0:1.0:1.0\n";

fn level_of(r: &Reading) -> f64 {
    match r {
        Reading::Level(t) => t.parse().unwrap(),
        other => panic!("no level: {:?}", other),
    }
}

#[test]
fn error_stream_gives_failure() {
    let r = interpret_report(VERBOSE_REPORT, "xrandr: command line parsing error");
    assert!(matches!(r, Reading::Failed));
    let r = interpret_report("", "x");
    assert!(matches!(r, Reading::Failed));
}

#[test]
fn brightness_line_is_read() {
    let r = interpret_report(VERBOSE_REPORT, "");
    match &r {
        Reading::Level(t) => assert_eq!(t, "0.73"),
        other => panic!("unexpected {:?}", other),
    }
    assert_eq!(level_of(&r), 0.73);
}

#[test]
fn report_without_label_is_absent() {
    let r = interpret_report("Screen 0: minimum 8 x 8\nHDMI-0 connected primary\n   Gamma: 1.0\n", "");
    assert!(matches!(r, Reading::Absent));
    assert!(matches!(interpret_report("", ""), Reading::Absent));
}

#[test]
fn first_labelled_line_wins() {
    let t = brightness_level_text("a\n Brightness: 0.6\n Brightness: 0.9\n");
    assert_eq!(t.as_deref(), Some("0.6"));
}

#[test]
fn label_on_last_line_without_newline() {
    let t = brightness_level_text("x\n\tBrightness:\t1.0");
    assert_eq!(t.as_deref(), Some("1.0"));
}

#[test]
fn every_label_and_whitespace_is_removed() {
    let t = brightness_level_text("  Brightness: 0.8 Brightness: \u{a0}\u{3000}5 \r");
    assert_eq!(t.as_deref(), Some("0.85"));
    let t = brightness_level_text("BrightBrightness:ness:");
    assert_eq!(t.as_deref(), Some("Brightness:"));
    let t = brightness_level_text("Brightness:");
    assert_eq!(t.as_deref(), Some(""));
}

#[test]
fn label_split_over_lines_is_not_found() {
    assert_eq!(brightness_level_text("Bright\nness: 0.5"), None);
    assert_eq!(brightness_level_text("brightness: 0.5"), None);
}

#[test]
fn primary_output_is_found() {
    let out = find_primary_output("HDMI-0 connected primary 1920x1080...\nVGA-1 disconnected\n");
    assert_eq!(out.as_deref(), Some("HDMI-0"));
}

#[test]
fn listing_without_primary_is_refused() {
    let listing = "VGA-1 disconnected\nHDMI-0 connected 1920x1080\n";
    assert_eq!(find_primary_output(listing), None);
    let b = Brightness::new(&None, listing);
    assert!(matches!(b, Err(SetupError::OutputNotFound)));
}

#[test]
fn first_primary_wins() {
    let out = find_primary_output("DP-2 connected primary\nHDMI-1 connected primary\n");
    assert_eq!(out.as_deref(), Some("DP-2"));
}

#[test]
fn name_stops_at_other_characters() {
    assert_eq!(find_primary_output("eDP-1 connected primary").as_deref(), Some("DP-1"));
    assert_eq!(find_primary_output("x connected primary"), None);
    assert_eq!(find_primary_output(" connected primary"), None);
    assert_eq!(find_primary_output("HDMI-0  connected primary"), None);
    assert_eq!(find_primary_output("HDMI-0 connected primar"), None);
    assert_eq!(find_primary_output(""), None);
}

#[test]
fn resolver_agrees_with_regex() {
    let pattern = Regex::new(r"(?P<output>[0-9A-Z-]+) connected primary").unwrap();
    let listings = [
        "HDMI-0 connected primary 1920x1080...\nVGA-1 disconnected\n",
        "VGA-1 disconnected\neDP-1 connected primary 1366x768\n",
        "A connected\nB- connected primary\nC connected primary\n",
        "xHDMI-0 connected primary",
        "DP-1 connected secondary\nDP-2 connected primary",
        "-- connected primary",
        "Ü9 connected primary",
        "nothing here",
        "",
        "X connected primaryX connected primary",
    ];
    for l in listings.iter() {
        let expected = pattern
            .captures(l)
            .and_then(|c| c.name("output").map(|m| m.as_str().to_string()));
        assert_eq!(find_primary_output(l), expected, "listing {:?}", l);
    }
}

#[test]
fn state_holds_reader_and_resolver_results() {
    let listing = "Screen 0\nHDMI-0 connected primary 1920x1080...\nVGA-1 disconnected\n";
    let report = CapturedOutput { stdout: VERBOSE_REPORT.to_string(), stderr: String::new() };
    let b = Brightness::new(&Some(report.clone()), listing).unwrap();
    assert_eq!(b.term, CONTROL_LABEL);
    assert_eq!(b.term, "Brightness");
    assert_eq!(Some(b.output.clone()), find_primary_output(listing));
    assert_eq!(b.output, "HDMI-0");
    let direct = interpret_report(&report.stdout, &report.stderr);
    assert_eq!(level_of(&b.reading), level_of(&direct));
    assert_eq!(level_of(&b.reading), 0.73);
}

#[test]
fn state_records_failed_query() {
    let listing = "VGA-1 connected primary\n";
    let b = Brightness::new(&None, listing).unwrap();
    assert!(matches!(b.reading, Reading::Failed));
    assert_eq!(b.output, "VGA-1");
    let report = CapturedOutput { stdout: VERBOSE_REPORT.to_string(), stderr: "oops".to_string() };
    let b = Brightness::new(&Some(report), listing).unwrap();
    assert!(matches!(b.reading, Reading::Failed));
}

#[test]
fn command_lines() {
    assert_eq!(DISPLAY_TOOL, "xrandr");
    assert_eq!(query_args(), vec!["--verbose".to_string()]);
    assert_eq!(
        set_brightness_args("HDMI-0", "0.73"),
        vec!["--output".to_string(), "HDMI-0".to_string(), "--brightness".to_string(), "0.73".to_string()]
    );
}

#[test]
fn white_space_matches_std() {
    for u in 0u32..0x110000 {
        if let Some(c) = char::from_u32(u) {
            assert_eq!(white_space(c), c.is_whitespace(), "char {:x}", u);
        }
    }
}

#[test]
fn chars_are_kept_in_order() {
    assert_eq!(chars_of("aé\n b"), vec!['a', 'é', '\n', ' ', 'b']);
    assert_eq!(chars_of(""), Vec::<char>::new());
}
