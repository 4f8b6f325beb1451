use apod_wallpaper::acquire::{
    explicit_date_result, plan_date_span, plan_explicit_date, random_plan, single_plan,
    FetchOutcome, RangeAction, RangeRun, SinglePlan,
};
use apod_wallpaper::backend::{
    judge_attempts, judge_notify, select_backend, BackendKind, WallpaperTools,
};
use apod_wallpaper::config::{default_theme, WallpaperConfig};
use apod_wallpaper::date::{range_dates, Date};
use apod_wallpaper::hyprland::HyprlandManager;
use apod_wallpaper::plasma::PlasmaManager;
use apod_wallpaper::Error;

fn d(year: u32, month: u32, day: u32) -> Date {
    Date { year, month, day }
}

fn strings(items: &[&str]) -> Vec<String> {
    items.iter().map(|s| s.to_string()).collect()
}

#[test]
fn a_cached_date_is_resolved_locally() {
    let entries = strings(&["2024-01-10.jpg", "2024-01-09.png"]);
    assert_eq!(single_plan(&entries, &d(2024, 1, 10)), SinglePlan::UseLocal(0));
    assert_eq!(single_plan(&entries, &d(2024, 1, 9)), SinglePlan::UseLocal(1));
}

#[test]
fn an_uncached_date_is_fetched() {
    let entries = strings(&["2024-01-10.jpg"]);
    assert_eq!(single_plan(&entries, &d(2024, 1, 8)), SinglePlan::FetchRemote);
    assert_eq!(single_plan(&Vec::new(), &d(2024, 1, 10)), SinglePlan::FetchRemote);
}

#[test]
fn a_random_request_samples_the_cache_first() {
    assert_eq!(random_plan(&strings(&["x.jpg"])), SinglePlan::UseLocal(0));
    assert_eq!(random_plan(&strings(&["x.txt"])), SinglePlan::FetchRemote);
    assert_eq!(random_plan(&Vec::new()), SinglePlan::FetchRemote);
}

#[test]
fn explicit_dates_are_parsed_or_refused() {
    assert_eq!(plan_explicit_date("2024-01-10"), Ok(d(2024, 1, 10)));
    assert_eq!(plan_explicit_date("2024-1-10"), Err(Error::InvalidDate));
}

#[test]
fn a_span_visits_every_date_ascending() {
    let dates = plan_date_span("2024-01-10", "2024-01-12").unwrap();
    assert_eq!(dates, vec![d(2024, 1, 10), d(2024, 1, 11), d(2024, 1, 12)]);
    let one = plan_date_span("2024-01-10", "2024-01-10").unwrap();
    assert_eq!(one, vec![d(2024, 1, 10)]);
}

#[test]
fn a_reversed_span_is_refused_before_any_work() {
    assert_eq!(plan_date_span("2024-01-12", "2024-01-10"), Err(Error::InvalidRange));
}

#[test]
fn a_malformed_span_date_is_refused() {
    assert_eq!(plan_date_span("2024-01-10", "soon"), Err(Error::InvalidDate));
    assert_eq!(plan_date_span("soon", "2024-01-10"), Err(Error::InvalidDate));
}

#[test]
fn an_empty_folder_range_walk_attempts_newest_first() {
    // Anchor 2024-01-10, three days, nothing cached: the walk asks for
    // the tenth, ninth and eighth, in that order, and counts only what
    // was downloaded.
    let dates = range_dates(&d(2024, 1, 10), 3);
    let mut run = RangeRun::begin(Vec::new(), dates);
    assert_eq!(run.next(), RangeAction::Fetch(d(2024, 1, 10)));
    run.record(FetchOutcome::Downloaded("2024-01-10.jpg".to_string()));
    assert_eq!(run.next(), RangeAction::Fetch(d(2024, 1, 9)));
    run.record(FetchOutcome::NoImage);
    assert_eq!(run.next(), RangeAction::Fetch(d(2024, 1, 8)));
    run.record(FetchOutcome::Failed(Error::RateLimited));
    assert_eq!(run.next(), RangeAction::Done(1));
}

#[test]
fn an_explicit_fetch_failure_is_propagated() {
    assert_eq!(
        explicit_date_result(Some(FetchOutcome::Failed(Error::RateLimited))),
        Err(Error::RateLimited)
    );
    assert_eq!(
        explicit_date_result(Some(FetchOutcome::Failed(Error::RemoteError(500)))),
        Err(Error::RemoteError(500))
    );
}

#[test]
fn an_explicit_date_counts_its_one_download() {
    assert_eq!(explicit_date_result(None), Ok(0));
    assert_eq!(
        explicit_date_result(Some(FetchOutcome::Downloaded("2024-01-10.jpg".to_string()))),
        Ok(1)
    );
    assert_eq!(explicit_date_result(Some(FetchOutcome::NoImage)), Ok(0));
}

#[test]
fn notification_falls_back_to_the_generic_notifier() {
    // The dialog carried it: nothing more runs.
    assert_eq!(judge_notify(Some(true), None), Ok(()));
    // No dialog planned, or it failed: the generic notifier decides.
    assert_eq!(judge_notify(None, Some(true)), Ok(()));
    assert_eq!(judge_notify(Some(false), Some(true)), Ok(()));
    assert_eq!(judge_notify(Some(false), Some(false)), Err(Error::BackendFailure));
    assert_eq!(judge_notify(None, Some(false)), Err(Error::BackendFailure));
}

#[test]
fn a_range_walk_skips_cached_dates() {
    let dates = range_dates(&d(2024, 1, 10), 3);
    let entries = strings(&["2024-01-09.jpg"]);
    let mut run = RangeRun::begin(entries, dates);
    assert_eq!(run.next(), RangeAction::Fetch(d(2024, 1, 10)));
    run.record(FetchOutcome::Downloaded("2024-01-10.jpg".to_string()));
    // The ninth is cached and never asked for.
    assert_eq!(run.next(), RangeAction::Fetch(d(2024, 1, 8)));
    run.record(FetchOutcome::Downloaded("2024-01-08.jpg".to_string()));
    assert_eq!(run.next(), RangeAction::Done(2));
}

#[test]
fn a_fully_cached_range_downloads_nothing() {
    let dates = range_dates(&d(2024, 1, 10), 2);
    let entries = strings(&["2024-01-10.jpg", "2024-01-09.jpg"]);
    let mut run = RangeRun::begin(entries, dates);
    assert_eq!(run.next(), RangeAction::Done(0));
}

#[test]
fn a_freshly_downloaded_date_counts_once() {
    // The walk learns the new file's name: were the same date listed
    // again, it would be skipped as cached.
    let dates = vec![d(2024, 1, 10), d(2024, 1, 10)];
    let mut run = RangeRun::begin(Vec::new(), dates);
    assert_eq!(run.next(), RangeAction::Fetch(d(2024, 1, 10)));
    run.record(FetchOutcome::Downloaded("2024-01-10.jpg".to_string()));
    assert_eq!(run.next(), RangeAction::Done(1));
}

#[test]
fn an_explicit_cached_date_counts_zero() {
    let entries = strings(&["2024-01-10.jpg"]);
    let mut run = RangeRun::begin(entries, vec![d(2024, 1, 10)]);
    assert_eq!(run.next(), RangeAction::Done(0));
}

#[test]
fn an_explicit_uncached_date_counts_one() {
    let mut run = RangeRun::begin(Vec::new(), vec![d(2024, 1, 10)]);
    assert_eq!(run.next(), RangeAction::Fetch(d(2024, 1, 10)));
    run.record(FetchOutcome::Downloaded("2024-01-10.png".to_string()));
    assert_eq!(run.next(), RangeAction::Done(1));
}

#[test]
fn recognized_desktop_hints_pick_their_backend() {
    assert_eq!(select_backend("Hyprland", false, false), Ok(BackendKind::Hyprland));
    assert_eq!(select_backend("hyprland", false, false), Ok(BackendKind::Hyprland));
    assert_eq!(select_backend("KDE", false, false), Ok(BackendKind::Plasma));
    assert_eq!(select_backend("plasma", false, false), Ok(BackendKind::Plasma));
}

#[test]
fn an_unrecognized_hint_falls_through_the_probes() {
    assert_eq!(select_backend("gnome", true, false), Ok(BackendKind::Hyprland));
    assert_eq!(select_backend("gnome", true, true), Ok(BackendKind::Hyprland));
    assert_eq!(select_backend("", false, true), Ok(BackendKind::Plasma));
}

#[test]
fn with_nothing_available_no_desktop_is_supported() {
    assert_eq!(select_backend("gnome", false, false), Err(Error::NoSupportedDesktop));
    assert_eq!(select_backend("", false, false), Err(Error::NoSupportedDesktop));
}

#[test]
fn the_first_successful_attempt_carries() {
    assert_eq!(judge_attempts(&vec![true, false]), Ok(0));
    assert_eq!(judge_attempts(&vec![false, true]), Ok(1));
    assert_eq!(judge_attempts(&vec![false, false, true]), Ok(2));
}

#[test]
fn only_total_failure_fails_the_backend() {
    assert_eq!(judge_attempts(&vec![false, false]), Err(Error::BackendFailure));
    assert_eq!(judge_attempts(&Vec::new()), Err(Error::BackendFailure));
}

#[test]
fn probed_tools_are_remembered() {
    let tools = WallpaperTools::new(false, true, false);
    assert!(tools.has_any());
    assert!(!tools.has_hyprpaper);
    assert!(tools.has_swww);
    assert!(!tools.has_swaybg);
}

#[test]
fn hyprland_attempts_follow_the_priority_order() {
    let manager = HyprlandManager::new(WallpaperTools::new(true, true, true));
    let path = "/tmp/a.jpg".to_string();
    let screen = "DP-1".to_string();
    let attempts = manager.set_attempts(&path, Some(&screen));
    assert_eq!(attempts.len(), 3);
    assert_eq!(attempts[0].commands.len(), 2);
    assert_eq!(attempts[0].commands[0].argv, vec!["hyprpaper", "preload", "/tmp/a.jpg"]);
    assert_eq!(
        attempts[0].commands[1].argv,
        vec!["hyprctl", "hyprpaper", "wallpaper", "DP-1,/tmp/a.jpg"]
    );
    assert_eq!(
        attempts[1].commands[0].argv,
        vec!["swww", "img", "/tmp/a.jpg", "-o", "DP-1", "-t", "grow"]
    );
    assert_eq!(attempts[2].commands[0].argv, vec!["swaybg", "-i", "/tmp/a.jpg"]);
}

#[test]
fn absent_tools_are_not_attempted() {
    let manager = HyprlandManager::new(WallpaperTools::new(false, true, false));
    let path = "/tmp/a.jpg".to_string();
    let attempts = manager.set_attempts(&path, None);
    assert_eq!(attempts.len(), 1);
    assert_eq!(attempts[0].commands[0].argv, vec!["swww", "img", "/tmp/a.jpg", "-t", "grow"]);
}

#[test]
fn hyprland_queries_follow_the_tools() {
    let manager = HyprlandManager::new(WallpaperTools::new(true, true, false));
    let queries = manager.query_invocations();
    assert_eq!(queries.len(), 2);
    assert_eq!(queries[0].argv, vec!["hyprctl", "hyprpaper", "wallpaper"]);
    assert_eq!(queries[1].argv, vec!["swww", "query"]);
}

#[test]
fn hyprpaper_output_is_trimmed_to_a_path() {
    let manager = HyprlandManager::new(WallpaperTools::new(true, false, false));
    assert_eq!(
        manager.hyprpaper_wallpaper_path(&"  /w/a.jpg\n".to_string()),
        Some("/w/a.jpg".to_string())
    );
    assert_eq!(manager.hyprpaper_wallpaper_path(&"  \n".to_string()), None);
}

#[test]
fn swww_reports_are_read_per_screen() {
    let manager = HyprlandManager::new(WallpaperTools::new(false, true, false));
    let out = "DP-1: image: /w/one.jpg\nHDMI-1: image: /w/two.jpg\n".to_string();
    assert_eq!(
        manager.swww_wallpaper_path(&out, None),
        Some("/w/one.jpg".to_string())
    );
    let screen = "hdmi-1".to_string();
    assert_eq!(
        manager.swww_wallpaper_path(&out, Some(&screen)),
        Some("/w/two.jpg".to_string())
    );
    let other = "DP-2".to_string();
    assert_eq!(manager.swww_wallpaper_path(&out, Some(&other)), None);
    assert_eq!(manager.swww_wallpaper_path(&"no marker here".to_string(), None), None);
}

#[test]
fn an_exhausted_hyprland_query_depends_on_swaybg() {
    let with = HyprlandManager::new(WallpaperTools::new(false, false, true));
    assert_eq!(with.query_fallback_result(), Ok(None));
    let without = HyprlandManager::new(WallpaperTools::new(true, false, false));
    assert_eq!(without.query_fallback_result(), Err(Error::BackendFailure));
}

#[test]
fn hyprland_screens_come_from_the_monitor_listing() {
    let manager = HyprlandManager::new(WallpaperTools::new(true, false, false));
    assert_eq!(manager.screens_invocation().argv, vec!["hyprctl", "monitors", "-j"]);
    let body = r#"[{"name":"DP-1"},{"name":"HDMI-1"},{"model":"nameless"}]"#.to_string();
    assert_eq!(manager.screens_from_json(Some(&body)), vec!["DP-1", "HDMI-1"]);
    assert_eq!(manager.screens_from_json(Some(&"not json".to_string())), vec!["default"]);
    assert_eq!(manager.screens_from_json(Some(&"{}".to_string())), vec!["default"]);
    assert_eq!(manager.screens_from_json(None), vec!["default"]);
}

#[test]
fn plasma_sets_through_the_scripting_interface() {
    let manager = PlasmaManager::new(true);
    let call = manager.set_invocation(&"/w/a.jpg".to_string());
    assert_eq!(call.argv[0], "qdbus");
    assert_eq!(call.argv[1], "org.kde.plasmashell");
    assert_eq!(call.argv[2], "/PlasmaShell");
    assert_eq!(call.argv[3], "org.kde.PlasmaShell.evaluateScript");
    assert!(call.argv[4].contains("file:///w/a.jpg"));
    assert!(call.argv[4].contains("wallpaperPlugin"));
}

#[test]
fn plasma_readback_strips_the_file_scheme() {
    let manager = PlasmaManager::new(true);
    assert_eq!(
        manager.wallpaper_from_script_output(&"file:///w/a.jpg\n".to_string()),
        Some("/w/a.jpg".to_string())
    );
    assert_eq!(
        manager.wallpaper_from_script_output(&" /w/b.png ".to_string()),
        Some("/w/b.png".to_string())
    );
    assert_eq!(manager.wallpaper_from_script_output(&"undefined\n".to_string()), None);
    assert_eq!(manager.wallpaper_from_script_output(&"  ".to_string()), None);
}

#[test]
fn plasma_notifies_through_kdialog_when_present() {
    let manager = PlasmaManager::new(true);
    let title = "Wallpaper".to_string();
    let message = "Updated".to_string();
    let icon = "/w/icon.svg".to_string();
    let call = manager.notify_invocation(true, &title, &message, Some(&icon)).unwrap();
    assert_eq!(
        call.argv,
        vec!["kdialog", "--title", "Wallpaper", "--passivepopup", "Updated", "5", "--icon", "/w/icon.svg"]
    );
    let bare = manager.notify_invocation(true, &title, &message, None).unwrap();
    assert_eq!(bare.argv.len(), 6);
    assert!(manager.notify_invocation(false, &title, &message, None).is_none());
}

#[test]
fn plasma_screens_are_the_default_target() {
    let manager = PlasmaManager::new(true);
    assert_eq!(manager.screen_targets(), vec!["default"]);
}

#[test]
fn the_default_configuration_is_quiet() {
    assert_eq!(default_theme(), "Dark");
    let config = WallpaperConfig::default();
    assert_eq!(config.save_folder, "");
    assert!(!config.multi_monitor);
    assert!(!config.random);
    assert!(!config.pywal);
    assert!(!config.wallust);
    assert_eq!(config.theme, "Dark");
}
