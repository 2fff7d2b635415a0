use bystep_launcher::state::{format_play_time, is_save_tick, LauncherSettings, PlayTimeStats};
use bystep_launcher::version::{GameVersion, ShaderQuality};

#[test]
fn default_settings() {
    let s = LauncherSettings::default();
    assert_eq!(s.nickname, "");
    assert_eq!(s.ram_gb, 4);
    assert_eq!(s.selected_version, GameVersion::Fabric1_21_1);
    assert_eq!(s.shader_quality, ShaderQuality::High);
}

#[test]
fn play_time_is_recorded_per_day() {
    let mut st = PlayTimeStats::new();
    st.record_second("2024-01-01");
    st.record_second("2024-01-01");
    st.record_second("2024-01-02");
    assert_eq!(st.total_seconds, 3);
    assert_eq!(st.daily, vec![("2024-01-01".to_string(), 2), ("2024-01-02".to_string(), 1)]);
    let mut full = PlayTimeStats { daily: vec![("d".to_string(), u64::MAX)], total_seconds: u64::MAX };
    full.record_second("d");
    assert_eq!(full.total_seconds, u64::MAX);
    assert_eq!(full.daily[0].1, u64::MAX);
}

#[test]
fn play_time_text() {
    assert_eq!(format_play_time(0), "0м");
    assert_eq!(format_play_time(59), "0м");
    assert_eq!(format_play_time(3599), "59м");
    assert_eq!(format_play_time(3600), "1ч 0м");
    assert_eq!(format_play_time(7380), "2ч 3м");
    assert!(is_save_tick(120));
    assert!(!is_save_tick(61));
}
