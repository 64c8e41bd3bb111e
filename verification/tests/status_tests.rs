use status_float::anim::{anim_source, frame_index, reload_needed, AnimSource};
use status_float::dot::{dot_rgba, icon_rgba};
use status_float::files::is_state_file;
use status_float::fonts::prepend_fonts;
use status_float::frame::{plan_frame, Plan};
use status_float::status::{color_of, lead_index, priority, shows, working, Session};
use status_float::text::{same_text, push_decimal, push_signed_decimal};
use status_float::timer::elapsed;
use status_float::tray_memo::TrayMemo;

fn session(state: &str, label: &str, ts_rank: i64) -> Session {
    Session { state: state.to_string(), label: label.to_string(), ts_rank }
}

#[test]
fn priority_orders_error_permission_working_rest() {
    assert_eq!(priority("error"), 3);
    assert_eq!(priority("permission"), 2);
    assert_eq!(priority("thinking"), 1);
    assert_eq!(priority("tool"), 1);
    assert_eq!(priority("done"), 0);
    assert_eq!(priority("idle"), 0);
    assert_eq!(priority(""), 0);
    assert_eq!(priority("Error"), 0);
}

#[test]
fn colors_follow_the_traffic_light() {
    assert_eq!(color_of("error"), (229, 57, 53));
    assert_eq!(color_of("permission"), (242, 186, 46));
    assert_eq!(color_of("thinking"), (217, 119, 87));
    assert_eq!(color_of("tool"), (217, 119, 87));
    assert_eq!(color_of("done"), (76, 175, 80));
    assert_eq!(color_of("idle"), (76, 175, 80));
    assert_eq!(color_of("whatever"), (76, 175, 80));
}

#[test]
fn working_states() {
    assert!(working("thinking"));
    assert!(working("tool"));
    assert!(!working("permission"));
    assert!(!working("toolx"));
}

#[test]
fn same_text_compares_content() {
    assert!(same_text("abc", "abc"));
    assert!(!same_text("abc", "abd"));
    assert!(!same_text("ab", "abc"));
    assert!(same_text("空闲", "空闲"));
}

#[test]
fn decimal_writing() {
    let mut s = String::from("x=");
    push_decimal(&mut s, 0);
    assert_eq!(s, "x=0");
    let mut s = String::new();
    push_decimal(&mut s, u64::MAX);
    assert_eq!(s, u64::MAX.to_string());
    let mut s = String::new();
    push_signed_decimal(&mut s, -42);
    assert_eq!(s, "-42");
    let mut s = String::new();
    push_signed_decimal(&mut s, i64::MIN);
    assert_eq!(s, i64::MIN.to_string());
}

#[test]
fn elapsed_formats_minutes_and_seconds() {
    assert_eq!(elapsed(83), "1m 23s");
    assert_eq!(elapsed(127), "2m 7s");
    assert_eq!(elapsed(45), "45s");
    assert_eq!(elapsed(0), "0s");
    assert_eq!(elapsed(59), "59s");
    assert_eq!(elapsed(60), "1m 0s");
    assert_eq!(elapsed(3600), "60m 0s");
    assert_eq!(elapsed(-5), "-5s");
    assert_eq!(elapsed(i64::MIN), "-9223372036854775808s");
    assert_eq!(elapsed(i64::MAX), "153722867280912930m 7s");
}

#[test]
fn no_sessions_no_lead() {
    assert_eq!(lead_index(&vec![]), None);
}

#[test]
fn lead_prefers_rank_then_recency_then_last() {
    let ss = vec![
        session("thinking", "a", 10),
        session("error", "b", 1),
        session("permission", "c", 99),
    ];
    assert_eq!(lead_index(&ss), Some(1));

    let ss = vec![session("tool", "a", 5), session("thinking", "b", 7), session("done", "c", 100)];
    assert_eq!(lead_index(&ss), Some(1));

    let ss = vec![session("error", "a", 3), session("error", "b", 3), session("idle", "c", 9)];
    assert_eq!(lead_index(&ss), Some(1));

    let ss = vec![session("error", "a", 4), session("error", "b", 3)];
    assert_eq!(lead_index(&ss), Some(0));
}

#[test]
fn lead_rank_does_not_depend_on_listing_order() {
    let a = vec![session("done", "x", 1), session("tool", "y", 2), session("permission", "z", 0)];
    let b = vec![session("permission", "z", 0), session("done", "x", 1), session("tool", "y", 2)];
    let la = &a[lead_index(&a).unwrap()];
    let lb = &b[lead_index(&b).unwrap()];
    assert_eq!(la.label, lb.label);
}

#[test]
fn done_shows_only_while_recent_and_idle_never() {
    assert!(shows("done", true));
    assert!(!shows("done", false));
    assert!(!shows("idle", true));
    assert!(!shows("idle", false));
    assert!(shows("thinking", false));
    assert!(shows("error", false));
    assert!(shows("unknown", false));
}

#[test]
fn frame_closes_when_switched_off() {
    assert!(matches!(plan_frame(None, false, "web", false, None), Plan::Close));
    let s = session("error", "boom", 1);
    assert!(matches!(plan_frame(Some(&s), false, "crab", true, Some(3)), Plan::Close));
}

#[test]
fn frame_without_lead_is_idle() {
    match plan_frame(None, true, "web", false, None) {
        Plan::Draw(sc) => {
            assert_eq!(sc.state, "idle");
            assert_eq!(sc.text, "空闲 (－ω－)");
            assert_eq!(sc.tint, (76, 175, 80));
            assert!(!sc.animating);
            assert_eq!(sc.timer, "");
            assert!(!sc.want_sprite);
            assert_eq!(sc.repaint_ms, 500);
        }
        Plan::Close => panic!("window should stay open"),
    }
}

#[test]
fn working_frame_animates_and_shows_timer() {
    let s = session("tool", "编辑文件", 1);
    match plan_frame(Some(&s), true, "web", false, Some(83)) {
        Plan::Draw(sc) => {
            assert_eq!(sc.state, "tool");
            assert_eq!(sc.text, "编辑文件");
            assert_eq!(sc.tint, (217, 119, 87));
            assert!(sc.animating);
            assert_eq!(sc.timer, "1m 23s");
            assert!(!sc.want_sprite);
            assert_eq!(sc.repaint_ms, 33);
        }
        Plan::Close => panic!("window should stay open"),
    }
    match plan_frame(Some(&s), true, "crab", false, None) {
        Plan::Draw(sc) => assert!(sc.want_sprite),
        Plan::Close => panic!("window should stay open"),
    }
    match plan_frame(Some(&s), true, "web", true, None) {
        Plan::Draw(sc) => assert!(sc.want_sprite),
        Plan::Close => panic!("window should stay open"),
    }
}

#[test]
fn waiting_frame_keeps_timer_but_no_sprite() {
    let s = session("permission", "等待授权", 1);
    match plan_frame(Some(&s), true, "crab", true, Some(45)) {
        Plan::Draw(sc) => {
            assert_eq!(sc.tint, (242, 186, 46));
            assert!(!sc.animating);
            assert!(!sc.want_sprite);
            assert_eq!(sc.timer, "45s");
            assert_eq!(sc.repaint_ms, 500);
        }
        Plan::Close => panic!("window should stay open"),
    }
}

#[test]
fn dot_layout_places_colour_and_alpha() {
    let alphas = vec![0u8, 45, 165, 255, 7];
    let buf = dot_rgba(&alphas, (1, 2, 3));
    assert_eq!(buf.len(), 20);
    for (p, a) in alphas.iter().enumerate() {
        assert_eq!(&buf[p * 4..p * 4 + 4], &[1, 2, 3, *a]);
    }
    assert!(dot_rgba(&[], (9, 9, 9)).is_empty());
    assert_eq!(dot_rgba(&[255], (9, 8, 7)), vec![9, 8, 7, 255]);
}

#[test]
fn tray_icon_uses_the_state_colour() {
    let alphas = vec![200u8; 1024];
    let buf = icon_rgba("error", &alphas);
    assert_eq!(buf.len(), 4096);
    assert_eq!(&buf[16 * 32 * 4 + 16 * 4..16 * 32 * 4 + 16 * 4 + 4], &[229, 57, 53, 200]);
    assert_eq!(icon_rgba("tool", &alphas), dot_rgba(&alphas, color_of("thinking")));
    assert_eq!(icon_rgba("idle", &alphas), dot_rgba(&alphas, (76, 175, 80)));
    assert_eq!(icon_rgba("permission", &[0, 1]), vec![242, 186, 46, 0, 242, 186, 46, 1]);
}

#[test]
fn tray_refreshes_only_on_state_change() {
    let mut m = TrayMemo::new("Status Bar");
    assert_eq!(m.last_state, "idle");
    assert_eq!(m.app_name, "Status Bar");
    assert_eq!(m.sync("idle", "whatever"), None);
    assert_eq!(m.sync("error", ""), Some("Status Bar".to_string()));
    assert_eq!(m.last_state, "error");
    assert_eq!(m.sync("error", "again"), None);
    assert_eq!(m.sync("thinking", "摸鱼中…"), Some("摸鱼中…".to_string()));
    assert_eq!(m.last_state, "thinking");
}

#[test]
fn frames_loop() {
    assert_eq!(frame_index(7, 3), Some(1));
    assert_eq!(frame_index(10, 3), Some(1));
    assert_eq!(frame_index(0, 4), Some(0));
    assert_eq!(frame_index(5, 0), None);
    assert_eq!(frame_index(usize::MAX, 1), Some(0));
}

#[test]
fn reload_when_missing_or_gif_changed() {
    assert!(reload_needed(false, true));
    assert!(reload_needed(true, false));
    assert!(reload_needed(false, false));
    assert!(!reload_needed(true, true));
}

#[test]
fn loaded_fonts_go_first_in_order() {
    let mut fam = vec!["default".to_string(), "emoji".to_string()];
    let loaded = vec!["cjk".to_string(), "sym".to_string()];
    prepend_fonts(&mut fam, &loaded);
    assert_eq!(fam, vec!["cjk", "sym", "default", "emoji"]);
    let mut fam2 = vec!["a".to_string()];
    prepend_fonts(&mut fam2, &vec![]);
    assert_eq!(fam2, vec!["a"]);
}

#[test]
fn state_files_are_json() {
    assert!(is_state_file("abc123.json"));
    assert!(is_state_file("..json"));
    assert!(is_state_file("会话.json"));
    assert!(!is_state_file(".json"));
    assert!(!is_state_file("json"));
    assert!(!is_state_file("a.json.bak"));
    assert!(!is_state_file("a.JSON"));
    assert!(!is_state_file("a.jsonl"));
    assert!(!is_state_file("config"));
}

#[test]
fn custom_gif_is_preferred() {
    assert!(matches!(anim_source(true), AnimSource::CustomGif));
    assert!(matches!(anim_source(false), AnimSource::BuiltIn));
}

#[test]
fn timer_reads_back_on_concrete_values() {
    let texts: Vec<String> = (-70..200).map(elapsed).collect();
    for i in 0..texts.len() {
        for j in 0..texts.len() {
            assert_eq!(texts[i] == texts[j], i == j);
        }
    }
    assert_eq!(elapsed(61), "1m 1s");
    assert_eq!(elapsed(119), "1m 59s");
}
