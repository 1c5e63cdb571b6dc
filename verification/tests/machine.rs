use antisupport::browser::open_url;
use antisupport::expiry::{check_expiry, show_expiry_dialog, Day};
use antisupport::fonts::{prefer_font, setup_fonts, FontStep};
use antisupport::process_mgr::{
    count_killed, is_target, names_target, spawn_all_processes, target_processes,
    terminate_old_processes, HETCUU_DIR,
};

fn strings(texts: &[&str]) -> Vec<String> {
    texts.iter().map(|t| t.to_string()).collect()
}

#[test]
fn target_names() {
    assert_eq!(target_processes(), strings(&["client32.exe", "runplugin.exe", "runplugin64.exe"]));
    assert!(names_target(&"runplugin.exe".to_string()));
    assert!(!names_target(&"RunPlugin.exe".to_string()));
    assert!(!names_target(&"".to_string()));
}

#[test]
fn case_does_not_matter() {
    assert!(is_target("client32.exe"));
    assert!(is_target("CLIENT32.EXE"));
    assert!(is_target("RunPlugin64.exe"));
    assert!(!is_target("client32.exe "));
    assert!(!is_target("client3.exe"));
    assert!(!is_target("cl\u{130}ent32.exe"));
}

#[test]
fn every_target_is_picked_once() {
    let names = strings(&["a.exe", "Client32.exe", "b", "client32.exe", "RUNPLUGIN.EXE", ""]);
    assert_eq!(terminate_old_processes(&names), vec![1, 3, 4]);
    assert_eq!(terminate_old_processes(&vec![]), Vec::<usize>::new());
}

#[test]
fn only_successes_are_counted() {
    assert_eq!(count_killed(&vec![true, false, true]), 2);
    assert_eq!(count_killed(&vec![]), 0);
    assert_eq!(count_killed(&vec![false]), 0);
}

#[test]
fn launched_programs_are_targets() {
    let launches = spawn_all_processes(HETCUU_DIR);
    let programs: Vec<String> = launches.iter().map(|l| l.program.clone()).collect();
    assert_eq!(programs, strings(&["client32.exe", "runplugin.exe", "runplugin64.exe"]));
    for launch in &launches {
        assert_eq!(launch.dir, "C:\\Program Files (x86)\\NetSupport\\NetSupport School");
        assert!(is_target(&launch.program));
    }
}

#[test]
fn pages_open_in_a_hidden_shell() {
    let command = open_url("https://hetcuu.com/antisupport");
    assert_eq!(command.program, "cmd");
    assert_eq!(command.args, strings(&["/C", "start", "", "https://hetcuu.com/antisupport"]));
    assert_eq!(command.creation_flags, 0x0800_0000);
}

#[test]
fn first_readable_font_wins() {
    assert!(
        matches!(setup_fonts(0, false), FontStep::Read { path } if path == "C:/Windows/Fonts/segoeui.ttf")
    );
    assert!(
        matches!(setup_fonts(1, false), FontStep::Read { path } if path == "C:/Windows/Fonts/arial.ttf")
    );
    assert!(matches!(setup_fonts(2, false), FontStep::GiveUp));
    assert!(matches!(setup_fonts(1, true), FontStep::Install));
    assert!(matches!(setup_fonts(2, true), FontStep::Install));
}

#[test]
fn found_font_comes_first() {
    let mut family = strings(&["Hack", "Emoji"]);
    prefer_font(&mut family);
    assert_eq!(family, strings(&["system_ui", "Hack", "Emoji"]));
}

fn day(year: i32, month: u32, day: u32) -> Day {
    Day::from_ymd_opt(year, month, day).unwrap()
}

#[test]
fn version_expires_after_its_last_day() {
    assert!(!check_expiry(day(2027, 6, 30)));
    assert!(check_expiry(day(2027, 7, 1)));
    assert!(check_expiry(day(2028, 1, 1)));
    assert!(!check_expiry(day(2027, 5, 31)));
    assert!(!check_expiry(day(2026, 12, 31)));
}

#[test]
fn only_days_of_the_calendar() {
    assert!(Day::from_ymd_opt(2023, 4, 31).is_none());
    assert!(Day::from_ymd_opt(2023, 2, 29).is_none());
    assert!(Day::from_ymd_opt(1900, 2, 29).is_none());
    assert!(Day::from_ymd_opt(2000, 2, 29).is_some());
    assert!(Day::from_ymd_opt(-4, 2, 29).is_some());
    assert!(Day::from_ymd_opt(2023, 0, 1).is_none());
    assert!(Day::from_ymd_opt(2023, 13, 1).is_none());
    assert!(Day::from_ymd_opt(2023, 12, 0).is_none());
    assert!(Day::from_ymd_opt(2023, 12, 31).is_some());
    assert!(Day::from_ymd_opt(2023, 12, 32).is_none());
    assert!(Day::from_ymd_opt(262142, 12, 31).is_some());
    assert!(Day::from_ymd_opt(262143, 1, 1).is_none());
    assert!(Day::from_ymd_opt(-262143, 1, 1).is_some());
    assert!(Day::from_ymd_opt(-262144, 12, 31).is_none());
}

#[test]
fn every_date_of_four_centuries_agrees() {
    for year in 1999..2402 {
        let leap = year % 4 == 0 && (year % 100 != 0 || year % 400 == 0);
        for month in 0..14u32 {
            let days = match month {
                0 | 13 => 0,
                2 => 28 + leap as u32,
                4 | 6 | 9 | 11 => 30,
                _ => 31,
            };
            for d in 0..33u32 {
                assert_eq!(Day::from_ymd_opt(year, month, d).is_some(), 1 <= d && d <= days);
            }
        }
    }
}

#[test]
fn days_are_in_order() {
    assert!(day(2027, 7, 1).is_after(&day(2027, 6, 30)));
    assert!(!day(2027, 6, 30).is_after(&day(2027, 6, 30)));
    assert!(!day(2026, 12, 31).is_after(&day(2027, 1, 1)));
}

#[test]
fn expired_users_are_told() {
    let dialog = show_expiry_dialog();
    let mut message: Vec<u16> =
        "Phien ban nay da het han.\n\nVui long tai phien ban moi tai hetcuu.com/antisupport"
            .encode_utf16()
            .collect();
    message.push(0);
    let mut caption: Vec<u16> = "AntiSupport - Het han".encode_utf16().collect();
    caption.push(0);
    assert_eq!(dialog.message, message);
    assert_eq!(dialog.caption, caption);
}
