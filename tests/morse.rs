use morse_code::encoder::{encode, EncodeError, CAPACITY};
use morse_code::playback::{Light, MessageError, Phase, PlaybackController, Tone};
use morse_code::table::{code_at_index, lookup};

fn frames_of(text: &str) -> Vec<(String, Light, Tone, u64)> {
    let mut c = PlaybackController::from_text(text).unwrap();
    let mut out = Vec::new();
    while let Some(f) = c.step() {
        out.push((f.text_str().to_string(), f.light, f.tone, f.hold_ms));
        assert!(out.len() < 10_000);
    }
    out
}

#[test]
fn lookup_letters_and_digits() {
    assert_eq!(lookup('A'), Some(".-"));
    assert_eq!(lookup('S'), Some("..."));
    assert_eq!(lookup('O'), Some("---"));
    assert_eq!(lookup('Z'), Some("--.."));
    assert_eq!(lookup('0'), Some("-----"));
    assert_eq!(lookup('5'), Some("....."));
    assert_eq!(lookup('9'), Some("----."));
}

#[test]
fn lookup_unsupported_is_none() {
    assert_eq!(lookup(' '), None);
    assert_eq!(lookup('!'), None);
    assert_eq!(lookup('é'), None);
    assert_eq!(lookup('@'), None);
    assert_eq!(lookup('['), None);
}

#[test]
fn lookup_every_supported_char_is_dots_and_dashes() {
    let all = "ABCDEFGHIJKLMNOPQRSTUVWXYZ0123456789";
    for c in all.chars() {
        let s = lookup(c).unwrap();
        assert!(!s.is_empty());
        assert!(s.chars().all(|g| g == '.' || g == '-'));
    }
    for (lower, upper) in "abcdefghijklmnopqrstuvwxyz".chars().zip("ABCDEFGHIJKLMNOPQRSTUVWXYZ".chars()) {
        assert_eq!(lookup(lower), lookup(upper));
    }
    assert_eq!(code_at_index(26), "-----");
}

#[test]
fn encode_sos() {
    let m = encode("SOS").unwrap();
    assert_eq!(m.units(), &[('S', "..."), ('O', "---"), ('S', "...")]);
    assert_eq!(m.len(), 3);
    let symbols: usize = m.units().iter().map(|u| u.1.len()).sum();
    assert_eq!(symbols, 9);
    assert!(m.units().iter().all(|u| !u.1.is_empty()));
}

#[test]
fn encode_hi_5() {
    let m = encode("HI 5").unwrap();
    assert_eq!(m.units(), &[('H', "...."), ('I', ".."), (' ', ""), ('5', ".....")]);
}

#[test]
fn encode_skips_unsupported() {
    let m = encode("A!B").unwrap();
    assert_eq!(m.units(), &[('A', ".-"), ('B', "-...")]);
    assert_eq!(encode("a#b").unwrap().units(), encode("ab").unwrap().units());
    let m = encode("!?é").unwrap();
    assert!(m.is_empty());
}

#[test]
fn encode_one_unit_per_supported_char() {
    let text = "Ab 09 z";
    let m = encode(text).unwrap();
    assert_eq!(m.len(), text.chars().count());
    for (u, c) in m.units().iter().zip(text.chars()) {
        assert_eq!(u.0, c);
        if c == ' ' {
            assert_eq!(u.1, "");
        } else {
            assert_eq!(Some(u.1), lookup(c));
        }
    }
}

#[test]
fn encode_capacity_bound() {
    let full = "E".repeat(CAPACITY);
    assert_eq!(encode(&full).unwrap().len(), CAPACITY);
    let over = "E".repeat(CAPACITY + 1);
    assert_eq!(encode(&over).unwrap_err(), EncodeError::CapacityExceeded);
    let spaced = " ".repeat(CAPACITY + 1);
    assert_eq!(encode(&spaced).unwrap_err(), EncodeError::CapacityExceeded);
    let padded = format!("{}!!!", "E".repeat(CAPACITY));
    assert_eq!(encode(&padded).unwrap().len(), CAPACITY);
    assert!(PlaybackController::from_text(&over).is_err());
}

#[test]
fn encode_empty_text() {
    assert!(encode("").unwrap().is_empty());
}

#[test]
fn playback_sos_frames() {
    let frames = frames_of("SOS");
    let expected: Vec<(&str, Light, Tone, u64)> = vec![
        ("START CONVERSION", Light::Off, Tone::Silent, 1000),
        ("S = ", Light::Off, Tone::Silent, 500),
        ("S = . ", Light::DotColor, Tone::Dot, 100),
        ("S = . ", Light::Off, Tone::Silent, 0),
        ("S = . . ", Light::DotColor, Tone::Dot, 100),
        ("S = . . ", Light::Off, Tone::Silent, 0),
        ("S = . . . ", Light::DotColor, Tone::Dot, 100),
        ("S = . . . ", Light::Off, Tone::Silent, 0),
        ("", Light::Off, Tone::Silent, 500),
        ("O = ", Light::Off, Tone::Silent, 500),
        ("O = - ", Light::DashColor, Tone::Dash, 300),
        ("O = - ", Light::Off, Tone::Silent, 0),
        ("O = - - ", Light::DashColor, Tone::Dash, 300),
        ("O = - - ", Light::Off, Tone::Silent, 0),
        ("O = - - - ", Light::DashColor, Tone::Dash, 300),
        ("O = - - - ", Light::Off, Tone::Silent, 0),
        ("", Light::Off, Tone::Silent, 500),
        ("S", Light::Off, Tone::Silent, 500),
        ("S. ", Light::DotColor, Tone::Dot, 100),
        ("S. ", Light::Off, Tone::Silent, 0),
        ("S. . ", Light::DotColor, Tone::Dot, 100),
        ("S. . ", Light::Off, Tone::Silent, 0),
        ("S. . . ", Light::DotColor, Tone::Dot, 100),
        ("S. . . ", Light::Off, Tone::Silent, 0),
        ("TRANSLATION DONE", Light::DoneColor, Tone::Silent, 1000),
        ("TRANSLATION DONE", Light::Off, Tone::Silent, 0),
    ];
    assert_eq!(frames.len(), expected.len());
    for (f, e) in frames.iter().zip(expected.iter()) {
        assert_eq!((f.0.as_str(), f.1, f.2, f.3), *e);
    }
}

#[test]
fn playback_sos_symbol_order_without_overlap() {
    let frames = frames_of("SOS");
    let mut seen = Vec::new();
    for (k, f) in frames.iter().enumerate() {
        if f.2 != Tone::Silent {
            seen.push(f.2);
            let next = &frames[k + 1];
            assert_eq!((next.1, next.2), (Light::Off, Tone::Silent));
        } else if f.0.is_empty() {
            seen.push(Tone::Silent);
        }
    }
    let (dot, dash, gap) = (Tone::Dot, Tone::Dash, Tone::Silent);
    assert_eq!(seen, vec![dot, dot, dot, gap, dash, dash, dash, gap, dot, dot, dot]);
}

#[test]
fn playback_word_separator_only_gaps() {
    let frames = frames_of("HI 5");
    let k = frames.iter().position(|f| f.0 == " ").unwrap();
    assert_eq!((frames[k].1, frames[k].2, frames[k].3), (Light::Off, Tone::Silent, 500));
    assert_eq!((frames[k + 1].0.as_str(), frames[k + 1].1, frames[k + 1].2), ("", Light::Off, Tone::Silent));
    assert_eq!(frames[k + 2].0, "5");
    let active = frames.iter().filter(|f| f.2 != Tone::Silent).count();
    assert_eq!(active, 4 + 2 + 5);
}

#[test]
fn playback_ends_idle_after_failures() {
    let mut c = PlaybackController::from_text("SOS").unwrap();
    assert_eq!(c.phase(), Phase::AnnouncingStart);
    let mut n = 0;
    while let Some(f) = c.step() {
        n += 1;
        if f.is_active() {
            c.record_failure();
        }
    }
    assert!(c.is_idle());
    assert_eq!(c.channels(), (Light::Off, Tone::Silent));
    assert_eq!(c.failures(), 10);
    assert_eq!(n, 26);
    assert!(c.step().is_none());
    assert!(c.is_idle());
}

#[test]
fn playback_empty_message() {
    let frames = frames_of("");
    assert_eq!(frames.len(), 3);
    assert_eq!(frames[0].0, "START CONVERSION");
    assert_eq!((frames[1].0.as_str(), frames[1].1), ("TRANSLATION DONE", Light::DoneColor));
    assert_eq!((frames[2].1, frames[2].2), (Light::Off, Tone::Silent));
}

#[test]
fn idle_controller_yields_nothing() {
    let mut c = PlaybackController::idle();
    assert!(c.is_idle());
    assert!(c.step().is_none());
    assert_eq!(c.channels(), (Light::Off, Tone::Silent));
    assert_eq!(c.failures(), 0);
}

#[test]
fn payload_decoding() {
    let c = PlaybackController::from_payload(b"hi").unwrap();
    assert_eq!(c.phase(), Phase::AnnouncingStart);
    let frames = {
        let mut c = c;
        let mut v = Vec::new();
        while let Some(f) = c.step() {
            v.push(f.text_str().to_string());
        }
        v
    };
    assert_eq!(frames[1], "h = ");
    assert_eq!(PlaybackController::from_payload(&[0x41, 0xff]).unwrap_err(), MessageError::MalformedInput);
    let over = "9".repeat(CAPACITY + 1);
    assert_eq!(PlaybackController::from_payload(over.as_bytes()).unwrap_err(), MessageError::CapacityExceeded);
}

#[test]
fn light_and_tone_duties() {
    assert_eq!(Light::Off.duties(), (0, 0, 0));
    assert_eq!(Light::DotColor.duties(), (0x8000, 0, 0));
    assert_eq!(Light::DashColor.duties(), (0x8000, 0x8000, 0));
    assert_eq!(Light::DoneColor.duties(), (0, 0, 0x8000));
    assert_eq!(Tone::Silent.duty(), 0);
    assert_eq!(Tone::Dot.duty(), 0x3FFF);
    assert_eq!(Tone::Dash.duty(), 0x7FFF);
}
