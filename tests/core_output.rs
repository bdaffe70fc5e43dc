use waysensor::error::{IoErrorKind, SensorError};
use waysensor::human;
use waysensor::output::{IconPosition, IconStyle, Theme, WaybarOutput};

#[test]
fn test_waybar_output_builder() {
    let output = WaybarOutput::from_str("50%")
        .with_tooltip("CPU Usage: 50%")
        .with_class("normal")
        .with_percentage(50);

    assert_eq!(output.text, "50%");
    assert_eq!(output.tooltip, Some("CPU Usage: 50%".to_owned()));
    assert_eq!(output.class, Some("normal".to_owned()));
    assert_eq!(output.percentage, Some(50));
}

#[test]
fn test_icon_style_parse() {
    assert_eq!("nerdfont".parse::<IconStyle>().unwrap(), IconStyle::NerdFont);
    assert_eq!("nerd".parse::<IconStyle>().unwrap(), IconStyle::NerdFont);
    assert_eq!("nf".parse::<IconStyle>().unwrap(), IconStyle::NerdFont);
    assert_eq!("none".parse::<IconStyle>().unwrap(), IconStyle::Plain);
    assert_eq!("no".parse::<IconStyle>().unwrap(), IconStyle::Plain);
    assert_eq!("".parse::<IconStyle>().unwrap(), IconStyle::Plain);

    assert!("invalid".parse::<IconStyle>().is_err());
}

#[test]
fn icon_style_parse_ignores_ascii_case() {
    assert_eq!("NerdFont".parse::<IconStyle>().unwrap(), IconStyle::NerdFont);
    assert_eq!("NONE".parse::<IconStyle>().unwrap(), IconStyle::Plain);
    let err = "nerdfonts".parse::<IconStyle>().unwrap_err();
    assert_eq!(err.input, "nerdfonts");
    assert_eq!(err.valid_options(), vec!["nerdfont".to_string(), "none".to_string()]);
}

#[test]
fn icon_position_parse() {
    assert_eq!("before".parse::<IconPosition>().unwrap(), IconPosition::Before);
    assert_eq!("Left".parse::<IconPosition>().unwrap(), IconPosition::Before);
    assert_eq!("pre".parse::<IconPosition>().unwrap(), IconPosition::Before);
    assert_eq!("AFTER".parse::<IconPosition>().unwrap(), IconPosition::After);
    assert_eq!("post".parse::<IconPosition>().unwrap(), IconPosition::After);
    assert_eq!("right".parse::<IconPosition>().unwrap(), IconPosition::After);
    let err = "middle".parse::<IconPosition>().unwrap_err();
    assert_eq!(err.input, "middle");
    assert_eq!(IconPosition::After.name(), "after");
    assert_eq!(IconStyle::NerdFont.name(), "nerdfont");
}

#[test]
fn test_theme_builder() {
    let theme = Theme::new()
        .with_normal("my-normal")
        .with_warning("my-warning")
        .with_critical("my-critical");

    assert_eq!(theme.normal, "my-normal");
    assert_eq!(theme.warning, "my-warning");
    assert_eq!(theme.critical, "my-critical");
}

#[test]
fn theme_levels_pick_class() {
    let theme = Theme::default().with_good("ok").with_unknown("n/a");
    assert_eq!(theme.class_for_levels(50, 70, 90), "normal");
    assert_eq!(theme.class_for_levels(80, 70, 90), "warning");
    assert_eq!(theme.class_for_levels(95, 70, 90), "critical");
    assert_eq!(theme.good, "ok");
    assert_eq!(theme.unknown, "n/a");
}

#[test]
fn test_bytes_to_human() {
    assert_eq!(human::bytes_to_human(0), "0B");
    assert_eq!(human::bytes_to_human(512), "512B");
    assert_eq!(human::bytes_to_human(1024), "1.0KB");
    assert_eq!(human::bytes_to_human(1536), "1.5KB");
    assert_eq!(human::bytes_to_human(1048576), "1.0MB");
    assert_eq!(human::bytes_to_human(1073741824), "1.0GB");
}

#[test]
fn bytes_to_human_matches_float_rounding() {
    let units = ["B", "KB", "MB", "GB", "TB", "PB"];
    let mut samples: Vec<u64> = Vec::new();
    for b in 0..5000u64 {
        samples.push(b);
    }
    for k in 1..6u32 {
        let base = 1024u64.pow(k);
        for m in [1u64, 2, 3, 5, 7, 10, 100, 1000, 1023] {
            for off in [0u64, 1, base / 20, base / 10, base / 4, base / 2, base - 1] {
                samples.push(base * m + off);
            }
        }
    }
    // Below 2^53 the float conversion is exact.
    for &b in samples.iter().filter(|&&b| b < (1u64 << 53)) {
        let mut size = b as f64;
        let mut idx = 0;
        while size >= 1024.0 && idx < units.len() - 1 {
            size /= 1024.0;
            idx += 1;
        }
        let expected = if idx == 0 {
            format!("{size:.0}{}", units[idx])
        } else {
            format!("{size:.1}{}", units[idx])
        };
        assert_eq!(human::bytes_to_human(b), expected, "bytes = {b}");
    }
    assert_eq!(human::bytes_to_human(1023), "1023B");
    assert_eq!(human::bytes_to_human(1280), "1.2KB");
    assert_eq!(human::bytes_to_human(u64::MAX), "16384.0PB");
}

#[test]
fn test_rate_to_human() {
    assert_eq!(human::rate_to_human(1024), "1.0KB/s");
    assert_eq!(human::rate_to_human(1048576), "1.0MB/s");
}

#[test]
fn test_with_icon() {
    let icon = "\u{f4bc}";
    assert_eq!(human::with_icon("50%", icon, IconStyle::NerdFont, IconPosition::Before, 1), format!("{icon} 50%"));
    assert_eq!(human::with_icon("50%", icon, IconStyle::NerdFont, IconPosition::After, 1), format!("50% {icon}"));
    assert_eq!(human::with_icon("50%", icon, IconStyle::Plain, IconPosition::Before, 1), "50%");
    assert_eq!(human::with_icon("50%", "", IconStyle::NerdFont, IconPosition::Before, 1), "50%");
    assert_eq!(human::with_icon("50%", icon, IconStyle::NerdFont, IconPosition::Before, 2), format!("{icon}  50%"));
    assert_eq!(human::with_icon("50%", icon, IconStyle::NerdFont, IconPosition::After, 3), format!("50%   {icon}"));
}

#[test]
fn colored_sparkline_wraps_in_span() {
    assert_eq!(human::colored_sparkline("abc", Some("#f7768e")), "<span color=\"#f7768e\">abc</span>");
    assert_eq!(human::colored_sparkline("abc", None), "abc");
}

#[test]
fn test_sensor_error_constructors() {
    let err = SensorError::parse("Invalid format");
    assert!(matches!(err, SensorError::Parse { .. }));

    let err = SensorError::config_with_value("Invalid setting", "bad_value");
    assert!(matches!(err, SensorError::Config { .. }));

    let err = SensorError::temporarily_unavailable("Service down");
    assert!(err.is_temporary());

    let err = SensorError::unavailable("Not supported");
    assert!(!err.is_temporary());
}

#[test]
fn sensor_error_temporary_kinds() {
    assert!(SensorError::timeout(1500, "reading").is_temporary());
    assert!(SensorError::io(IoErrorKind::Interrupted, "interrupted").is_temporary());
    assert!(SensorError::io(IoErrorKind::TimedOut, "slow").is_temporary());
    assert!(!SensorError::io(IoErrorKind::NotFound, "gone").is_temporary());
    assert!(!SensorError::permission_denied("/sys").is_temporary());
    assert!(!SensorError::invalid_data("nan").is_temporary());
    assert!(!SensorError::config("bad").is_temporary());
    match SensorError::invalid_data_with_value("bad value", "-1") {
        SensorError::InvalidData { message, data } => {
            assert_eq!(message, "bad value");
            assert_eq!(data, Some("-1".to_string()));
        }
        _ => panic!("expected invalid data"),
    }
    match SensorError::parse_with_source("outer", "inner") {
        SensorError::Parse { message, source } => {
            assert_eq!(message, "outer");
            assert_eq!(source, Some("inner".to_string()));
        }
        _ => panic!("expected parse error"),
    }
}

#[test]
fn waybar_output_setters() {
    let mut out = WaybarOutput::new("x".to_string());
    out.set_tooltip("tip");
    out.set_class("warning");
    out.set_percentage(100);
    assert_eq!(out.tooltip, Some("tip".to_string()));
    assert_eq!(out.class, Some("warning".to_string()));
    assert_eq!(out.percentage, Some(100));
    assert_eq!(out.text, "x");
}

#[test]
fn icon_with_colours() {
    let icon = "\u{f08ae}";
    assert_eq!(
        human::with_icon_and_colors("50%", icon, IconStyle::NerdFont, IconPosition::Before, 1, Some("#7aa2f7"), None),
        format!("<span color=\"#7aa2f7\">{icon}</span> 50%")
    );
    assert_eq!(
        human::with_icon_and_colors("50%", icon, IconStyle::NerdFont, IconPosition::After, 2, None, Some("#c0caf5")),
        format!("<span color=\"#c0caf5\">50%</span>  {icon}")
    );
    assert_eq!(
        human::with_icon_and_colors("50%", "  ", IconStyle::NerdFont, IconPosition::Before, 1, Some("#fff"), Some("#000")),
        "<span color=\"#000\">50%</span>"
    );
    assert_eq!(human::with_icon_and_colors("50%", icon, IconStyle::Plain, IconPosition::Before, 1, None, None), "50%");
}

#[test]
fn sensor_error_text() {
    assert_eq!(SensorError::parse("bad header").to_string(), "Parse error: bad header");
    assert_eq!(SensorError::unavailable("No AMD GPU found").to_string(), "Sensor unavailable: No AMD GPU found");
    assert_eq!(SensorError::timeout(250, "reading").to_string(), "Timeout after 250ms while reading");
    assert_eq!(SensorError::io(IoErrorKind::Other, "eof").to_string(), "I/O error: eof");
    assert_eq!(SensorError::config("x").to_string(), "Configuration error: x");
    assert_eq!(SensorError::permission_denied("/sys").to_string(), "Permission denied: /sys");
    assert_eq!(SensorError::invalid_data("nan").to_string(), "Invalid data: nan");
}
