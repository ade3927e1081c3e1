use base64::Engine;
use hmac::{Hmac, Mac};
use jwt_ui::event::{Event, Key, KeyCode, PointerEvent, PointerKind, Polled};
use jwt_ui::session::{
    dispatch, dispatch_at, handle_key_events, handle_key_events_at, handle_mouse_events, Flow,
    Mode, SessionState, Tab, Viewport,
};
use jwt_ui::theme::{
    block_style, foreground, style_bold, style_default, style_failure, style_for, style_help,
    style_highlight, style_logo, style_main_background, style_primary, style_secondary,
    style_success, style_warning, theme_styles, title_style_logo, Rgb, Styles, TextStyle,
};
use jwt_ui::validator::Validity;
use sha2::Sha256;

const UNSIGNED: &str = "eyJhbGciOiJub25lIn0.eyJzdWIiOiIxMjMifQ.";

fn viewport(height: u16) -> Viewport {
    Viewport { width: 80, height }
}

fn hs256_token(claims: &str, secret: &str) -> String {
    let engine = base64::engine::general_purpose::URL_SAFE_NO_PAD;
    let input = format!(
        "{}.{}",
        engine.encode(b"{\"alg\":\"HS256\"}"),
        engine.encode(claims.as_bytes())
    );
    let mut mac = Hmac::<Sha256>::new_from_slice(secret.as_bytes()).unwrap();
    mac.update(input.as_bytes());
    format!("{input}.{}", engine.encode(mac.finalize().into_bytes()))
}

fn type_text(state: &mut SessionState, text: &str) {
    for c in text.chars() {
        assert_eq!(dispatch_at(state, Event::KeyInput(Key::Char(c)), 0), Flow::Continue);
    }
}

fn clear_buffer(state: &mut SessionState) {
    while !state.input_buffer.is_empty() {
        handle_key_events_at(Key::Backspace, state, 0);
    }
}

#[test]
fn session_starts_viewing_the_header() {
    let empty = SessionState::new_at(String::new(), String::new(), viewport(24), 0);
    assert!(empty.result.is_none());
    assert_eq!(empty.error, "");
    assert_eq!(empty.mode, Mode::Viewing);
    assert_eq!(empty.active_tab, Tab::Header);
    assert_eq!(empty.scroll, 0);
    assert_eq!(empty.input_buffer, "");
    assert_eq!(empty.viewport, viewport(24));

    let decoded = SessionState::new(UNSIGNED.to_string(), String::new(), viewport(24));
    assert_eq!(decoded.result.as_ref().unwrap().validity, Validity::Unverified);
    assert_eq!(decoded.error, "");
    assert_eq!(decoded.token, UNSIGNED);

    let broken = SessionState::new_at("abc".to_string(), "k".to_string(), viewport(24), 0);
    assert!(broken.result.is_none());
    assert_eq!(broken.error, "malformed token: expected three segments separated by '.'");
    assert_eq!(broken.secret, "k");
}

#[test]
fn tab_cycles_through_three_tabs() {
    let mut state = SessionState::new_at(UNSIGNED.to_string(), String::new(), viewport(1), 0);
    handle_key_events_at(Key::Down, &mut state, 0);
    assert_eq!(state.scroll, 1);
    let mut seen = vec![state.active_tab];
    for _ in 0..3 {
        assert_eq!(dispatch(&mut state, Event::KeyInput(Key::Tab)), Flow::Continue);
        assert_eq!(state.scroll, 0);
        assert_eq!(state.mode, Mode::Viewing);
        seen.push(state.active_tab);
    }
    assert_eq!(seen, vec![Tab::Header, Tab::Payload, Tab::Secret, Tab::Header]);
    assert_eq!(Tab::Secret.next(), Tab::Header);
}

#[test]
fn scrolling_is_floored_and_capped() {
    // the indented claims take three lines
    let mut state = SessionState::new_at(UNSIGNED.to_string(), String::new(), viewport(1), 0);
    assert_eq!(state.content_lines(Tab::Header), 3);
    assert_eq!(state.content_lines(Tab::Payload), 3);
    assert_eq!(state.content_lines(Tab::Secret), 0);
    assert_eq!(state.max_scroll(), 2);
    handle_key_events_at(Key::Up, &mut state, 0);
    assert_eq!(state.scroll, 0);
    for expected in [1, 2, 2, 2] {
        handle_key_events(Key::Down, &mut state);
        assert_eq!(state.scroll, expected);
    }
    handle_key_events_at(Key::Up, &mut state, 0);
    assert_eq!(state.scroll, 1);
    // a taller terminal leaves nothing to scroll
    state.resize(viewport(3));
    assert_eq!(state.viewport, viewport(3));
    assert_eq!(state.max_scroll(), 0);
    handle_key_events_at(Key::Down, &mut state, 0);
    assert_eq!(state.scroll, 0);
    // nothing decoded, nothing to scroll
    let mut blank = SessionState::new_at(String::new(), String::new(), viewport(0), 0);
    handle_key_events_at(Key::Down, &mut blank, 0);
    assert_eq!(blank.scroll, 0);
    // the secret tab scrolls over the secret's lines
    let mut secret = SessionState::new_at(String::new(), "a\nb\nc".to_string(), viewport(2), 0);
    handle_key_events_at(Key::Tab, &mut secret, 0);
    handle_key_events_at(Key::Tab, &mut secret, 0);
    assert_eq!(secret.active_tab, Tab::Secret);
    assert_eq!(secret.max_scroll(), 1);
    handle_key_events_at(Key::Down, &mut secret, 0);
    handle_key_events_at(Key::Down, &mut secret, 0);
    assert_eq!(secret.scroll, 1);
}

#[test]
fn editing_the_token_and_committing_it() {
    let mut state = SessionState::new_at(String::new(), String::new(), viewport(24), 0);
    handle_key_events_at(Key::Char('t'), &mut state, 0);
    assert_eq!(state.mode, Mode::EditingToken);
    assert_eq!(state.input_buffer, "");
    type_text(&mut state, UNSIGNED);
    type_text(&mut state, "te");
    assert_eq!(state.input_buffer, format!("{UNSIGNED}te"));
    assert_eq!(state.mode, Mode::EditingToken);
    handle_key_events_at(Key::Backspace, &mut state, 0);
    handle_key_events_at(Key::Backspace, &mut state, 0);
    assert_eq!(state.input_buffer, UNSIGNED);
    assert!(state.result.is_none());
    assert_eq!(dispatch_at(&mut state, Event::KeyInput(Key::Enter), 0), Flow::Continue);
    assert_eq!(state.mode, Mode::Viewing);
    assert_eq!(state.token, UNSIGNED);
    assert_eq!(state.input_buffer, "");
    assert_eq!(state.error, "");
    let result = state.result.as_ref().unwrap();
    assert_eq!(result.validity, Validity::Unverified);
    assert_eq!(result.claims["sub"], "123");
}

#[test]
fn failed_commit_sets_the_error_and_keeps_the_result() {
    let mut state = SessionState::new_at(UNSIGNED.to_string(), String::new(), viewport(1), 0);
    handle_key_events_at(Key::Down, &mut state, 0);
    let before = state.result.clone().unwrap();
    handle_key_events_at(Key::Char('t'), &mut state, 0);
    assert_eq!(state.input_buffer, UNSIGNED);
    clear_buffer(&mut state);
    handle_key_events_at(Key::Backspace, &mut state, 0);
    assert_eq!(state.input_buffer, "");
    type_text(&mut state, "e30.!!.");
    handle_key_events_at(Key::Enter, &mut state, 0);
    assert_eq!(state.mode, Mode::Viewing);
    assert_eq!(state.error, "invalid base64url encoding in the payload segment");
    assert_eq!(state.token, "e30.!!.");
    let after = state.result.as_ref().unwrap();
    assert_eq!(after.header, before.header);
    assert_eq!(after.claims, before.claims);
    assert_eq!(after.signature_raw, before.signature_raw);
    assert_eq!(after.algorithm, before.algorithm);
    assert_eq!(after.validity, before.validity);
    assert_eq!(state.scroll, 1);
    // the next success clears the error and resets the scroll offset
    handle_key_events_at(Key::Char('t'), &mut state, 0);
    clear_buffer(&mut state);
    type_text(&mut state, "e30.e30.");
    handle_key_events_at(Key::Enter, &mut state, 0);
    assert_eq!(state.error, "");
    assert_eq!(state.scroll, 0);
    assert_eq!(state.result.as_ref().unwrap().claims, serde_json::Value::Object(Default::default()));
}

#[test]
fn editing_the_secret_needs_the_secret_tab() {
    let token = hs256_token("{\"exp\":100}", "key");
    let mut state = SessionState::new_at(token, String::new(), viewport(24), 50);
    assert_eq!(state.result.as_ref().unwrap().validity, Validity::Unverified);
    handle_key_events_at(Key::Char('e'), &mut state, 50);
    assert_eq!(state.mode, Mode::Viewing);
    handle_key_events_at(Key::Tab, &mut state, 50);
    handle_key_events_at(Key::Char('e'), &mut state, 50);
    assert_eq!(state.mode, Mode::Viewing);
    handle_key_events_at(Key::Tab, &mut state, 50);
    handle_key_events_at(Key::Char('e'), &mut state, 50);
    assert_eq!(state.mode, Mode::EditingSecret);
    type_text(&mut state, "kez");
    handle_key_events_at(Key::Enter, &mut state, 50);
    assert_eq!(state.secret, "kez");
    assert_eq!(state.result.as_ref().unwrap().validity, Validity::InvalidSignature);
    handle_key_events_at(Key::Char('e'), &mut state, 50);
    assert_eq!(state.input_buffer, "kez");
    handle_key_events_at(Key::Backspace, &mut state, 50);
    type_text(&mut state, "y");
    handle_key_events_at(Key::Enter, &mut state, 50);
    assert_eq!(state.result.as_ref().unwrap().validity, Validity::Valid);
    assert_eq!(state.active_tab, Tab::Secret);
    // the same secret, a later clock
    handle_key_events_at(Key::Char('e'), &mut state, 50);
    handle_key_events_at(Key::Enter, &mut state, 101);
    assert_eq!(state.result.as_ref().unwrap().validity, Validity::Expired);
}

#[test]
fn escape_discards_the_edit() {
    let mut state = SessionState::new_at(UNSIGNED.to_string(), "s".to_string(), viewport(24), 0);
    handle_key_events_at(Key::Char('t'), &mut state, 0);
    type_text(&mut state, "garbage");
    handle_key_events_at(Key::Esc, &mut state, 0);
    assert_eq!(state.mode, Mode::Viewing);
    assert_eq!(state.input_buffer, "");
    assert_eq!(state.token, UNSIGNED);
    assert_eq!(state.secret, "s");
    assert_eq!(state.error, "");
    assert!(state.result.is_some());
}

#[test]
fn control_c_quits_in_every_mode() {
    let mut state = SessionState::new_at(UNSIGNED.to_string(), String::new(), viewport(24), 0);
    assert_eq!(dispatch(&mut state, Event::KeyInput(Key::Ctrl('c'))), Flow::Quit);
    assert_eq!(state.mode, Mode::Viewing);
    handle_key_events_at(Key::Char('t'), &mut state, 0);
    assert_eq!(dispatch_at(&mut state, Event::KeyInput(Key::Ctrl('c')), 0), Flow::Quit);
    assert_eq!(state.mode, Mode::EditingToken);
    assert_eq!(state.input_buffer, UNSIGNED);
    assert_eq!(dispatch_at(&mut state, Event::KeyInput(Key::Ctrl('d')), 0), Flow::Continue);
    assert_eq!(dispatch_at(&mut state, Event::KeyInput(Key::Char('c')), 0), Flow::Continue);
    assert!(Key::Ctrl('c').is_interrupt());
    assert!(!Key::Char('c').is_interrupt());
    assert!(!Key::Ctrl('C').is_interrupt());
}

#[test]
fn other_events_change_nothing() {
    let mut state = SessionState::new_at(UNSIGNED.to_string(), "s".to_string(), viewport(2), 0);
    handle_key_events_at(Key::Down, &mut state, 0);
    let pointer = PointerEvent { kind: PointerKind::ScrollDown, column: 3, row: 4 };
    let quiet = [
        Event::Tick,
        Event::PointerInput(pointer),
        Event::KeyInput(Key::Left),
        Event::KeyInput(Key::Enter),
        Event::KeyInput(Key::Esc),
        Event::KeyInput(Key::Backspace),
        Event::KeyInput(Key::Char('x')),
        Event::KeyInput(Key::Char('e')),
        Event::KeyInput(Key::Alt('t')),
        Event::KeyInput(Key::Unknown),
    ];
    for event in quiet {
        assert_eq!(dispatch(&mut state, event), Flow::Continue);
        assert_eq!(state.mode, Mode::Viewing, "{event:?}");
        assert_eq!(state.active_tab, Tab::Header);
        assert_eq!(state.scroll, 1);
        assert_eq!(state.input_buffer, "");
        assert_eq!(state.token, UNSIGNED);
        assert_eq!(state.error, "");
    }
    state.on_tick();
    handle_mouse_events(pointer, &mut state);
    assert_eq!(state.scroll, 1);
    // while editing, keys without a meaning are ignored too
    handle_key_events_at(Key::Char('t'), &mut state, 0);
    for key in [Key::Tab, Key::Up, Key::Down, Key::Delete, Key::Ctrl('x'), Key::Unknown] {
        handle_key_events_at(key, &mut state, 0);
        assert_eq!(state.mode, Mode::EditingToken);
        assert_eq!(state.input_buffer, UNSIGNED);
        assert_eq!(state.scroll, 1);
    }
}

#[test]
fn polled_input_becomes_one_event() {
    let key = |code, control, alt| Polled::Key { code, control, alt };
    assert_eq!(
        Event::from_polled(key(KeyCode::Char('c'), true, false)),
        Some(Event::KeyInput(Key::Ctrl('c')))
    );
    assert_eq!(
        Event::from_polled(key(KeyCode::Char('c'), false, true)),
        Some(Event::KeyInput(Key::Alt('c')))
    );
    assert_eq!(
        Event::from_polled(key(KeyCode::Char('c'), true, true)),
        Some(Event::KeyInput(Key::Alt('c')))
    );
    assert_eq!(
        Event::from_polled(key(KeyCode::Char('C'), false, false)),
        Some(Event::KeyInput(Key::Char('C')))
    );
    assert_eq!(
        Event::from_polled(key(KeyCode::Tab, true, false)),
        Some(Event::KeyInput(Key::Tab))
    );
    assert_eq!(
        Event::from_polled(key(KeyCode::Other, false, false)),
        Some(Event::KeyInput(Key::Unknown))
    );
    let pointer = PointerEvent { kind: PointerKind::Press, column: 1, row: 2 };
    assert_eq!(Event::from_polled(Polled::Pointer(pointer)), Some(Event::PointerInput(pointer)));
    assert_eq!(Event::from_polled(Polled::TimedOut), Some(Event::Tick));
    assert_eq!(Event::from_polled(Polled::Ignored), None);
    assert_eq!(Key::from_code(KeyCode::Enter, false, false), Key::Enter);
    assert_eq!(Key::from_code(KeyCode::PageDown, false, true), Key::PageDown);
}

#[test]
fn themes_give_each_use_its_colours() {
    let dark = theme_styles(false);
    let light = theme_styles(true);
    assert_eq!(dark.len(), 9);
    assert_eq!(light.len(), 9);
    let uses: Vec<Styles> = dark.iter().map(|entry| entry.0).collect();
    let mut sorted = uses.clone();
    sorted.sort();
    assert_eq!(uses, sorted);
    assert_eq!(uses[0], Styles::Default);
    assert_eq!(uses[8], Styles::Background);
    for (use_, style) in dark.iter().chain(light.iter()) {
        assert!(!style.bold && !style.italic && !style.reversed);
        assert_eq!(style.background.is_some(), *use_ == Styles::Background);
    }
    assert_eq!(style_default(false).foreground, Some(Rgb::new(255, 255, 255)));
    assert_eq!(style_default(true).foreground, Some(Rgb::new(91, 87, 87)));
    assert_eq!(style_logo(false).foreground, Some(Rgb::new(72, 213, 150)));
    assert_eq!(style_logo(true).foreground, Some(Rgb::new(20, 97, 73)));
    assert_eq!(style_failure(false).foreground, Some(Rgb::new(249, 167, 164)));
    assert_eq!(style_failure(true).foreground, Some(Rgb::new(173, 25, 20)));
    assert_eq!(style_warning(false).foreground, Some(Rgb::new(255, 170, 66)));
    assert_eq!(style_warning(true).foreground, Some(Rgb::new(184, 49, 15)));
    assert_eq!(style_success(false), style_for(Styles::Success, false));
    assert_eq!(style_success(true).foreground, Some(Rgb::new(20, 97, 73)));
    assert_eq!(style_primary(false).foreground, Some(Rgb::new(0, 230, 230)));
    assert_eq!(style_primary(true).foreground, Some(Rgb::new(0, 82, 163)));
    assert_eq!(style_secondary(false).foreground, Some(Rgb::new(249, 229, 113)));
    assert_eq!(style_secondary(true).foreground, Some(Rgb::new(139, 0, 139)));
    assert_eq!(style_help(false).foreground, Some(Rgb::new(138, 196, 255)));
    assert_eq!(style_help(true).foreground, Some(Rgb::new(0, 82, 163)));
    assert_eq!(
        style_main_background(false),
        TextStyle {
            foreground: Some(Rgb::new(255, 255, 255)),
            background: Some(Rgb::new(35, 50, 55)),
            ..TextStyle::plain()
        }
    );
    assert_eq!(
        style_main_background(true),
        TextStyle {
            foreground: Some(Rgb::new(91, 87, 87)),
            background: Some(Rgb::new(255, 255, 255)),
            ..TextStyle::plain()
        }
    );
    assert_eq!(foreground(Styles::Help, true), Rgb { red: 0, green: 82, blue: 163 });
    assert_eq!(dark[5], (Styles::Primary, style_primary(false)));
    assert_eq!(light[3], (Styles::Warning, style_warning(true)));
}

#[test]
fn emphasis_is_set_apart_from_colour() {
    assert_eq!(style_bold(), TextStyle { bold: true, ..TextStyle::plain() });
    assert_eq!(style_highlight(), TextStyle { reversed: true, ..TextStyle::plain() });
    assert_eq!(TextStyle::plain().foreground, None);
    assert_eq!(
        title_style_logo(true),
        TextStyle { bold: true, italic: true, ..style_logo(true) }
    );
    assert_eq!(block_style(false, true), style_secondary(false));
    assert_eq!(block_style(false, false), style_default(false));
    assert_eq!(block_style(true, true), style_secondary(true));
}
