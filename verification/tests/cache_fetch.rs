use apod_wallpaper::cache::{find_for_date, is_image_entry, pick_random_local};
use apod_wallpaper::date::Date;
use apod_wallpaper::fetch::{
    classify_status, exiftool_args, parse_metadata, plan_asset, query_url, ApodMetadata,
    MetadataOutcome,
};
use apod_wallpaper::Error;

fn d(year: u32, month: u32, day: u32) -> Date {
    Date { year, month, day }
}

fn strings(items: &[&str]) -> Vec<String> {
    items.iter().map(|s| s.to_string()).collect()
}

#[test]
fn find_for_date_matches_the_name_prefix() {
    let entries = strings(&["2024-01-09.png", "2024-01-10.jpg", "other.txt"]);
    assert_eq!(find_for_date(&entries, &d(2024, 1, 10)), Some(1));
    assert_eq!(find_for_date(&entries, &d(2024, 1, 9)), Some(0));
    assert_eq!(find_for_date(&entries, &d(2024, 1, 8)), None);
}

#[test]
fn find_for_date_takes_the_first_match() {
    let entries = strings(&["2024-01-10.jpg", "2024-01-10.png"]);
    assert_eq!(find_for_date(&entries, &d(2024, 1, 10)), Some(0));
}

#[test]
fn find_for_date_reads_names_beyond_ascii() {
    let entries = strings(&["héllo wörld.png", "2024-01-10 sküy.jpg"]);
    assert_eq!(find_for_date(&entries, &d(2024, 1, 10)), Some(1));
    assert_eq!(find_for_date(&entries, &d(2024, 1, 9)), None);
}

#[test]
fn find_for_date_in_an_empty_folder_finds_nothing() {
    assert_eq!(find_for_date(&Vec::new(), &d(2024, 1, 10)), None);
}

#[test]
fn image_entries_follow_the_extension_allow_list() {
    assert!(is_image_entry(&"a.jpg".to_string()));
    assert!(is_image_entry(&"a.JPG".to_string()));
    assert!(is_image_entry(&"b.jpeg".to_string()));
    assert!(is_image_entry(&"c.png".to_string()));
    assert!(is_image_entry(&"c.PnG".to_string()));
    assert!(!is_image_entry(&"d.txt".to_string()));
    assert!(!is_image_entry(&"d.gif".to_string()));
    assert!(!is_image_entry(&".jpg".to_string()));
    assert!(!is_image_entry(&"noext".to_string()));
    assert!(!is_image_entry(&"trailing.".to_string()));
}

#[test]
fn pick_random_local_prefers_any_image_entry() {
    assert_eq!(pick_random_local(&Vec::new()), None);
    assert_eq!(pick_random_local(&strings(&["a.txt", "b.mp4"])), None);
    // One candidate: the pick is forced, whatever the dice say.
    assert_eq!(pick_random_local(&strings(&["a.txt", "b.png"])), Some(1));
    // Many candidates: the pick is one of them.
    let entries = strings(&["a.jpg", "b.txt", "c.png", "d.jpeg"]);
    let picked = pick_random_local(&entries).unwrap();
    assert!(picked == 0 || picked == 2 || picked == 3);
}

#[test]
fn query_url_embeds_key_and_date() {
    let url = query_url(&None, &Some(d(2024, 1, 10)), false);
    assert_eq!(url, "https://api.nasa.gov/planetary/apod?api_key=DEMO_KEY&date=2024-01-10");
    let url = query_url(&Some("k1".to_string()), &Some(d(2024, 1, 10)), true);
    assert_eq!(url, "https://api.nasa.gov/planetary/apod?api_key=k1&count=1");
    let url = query_url(&Some("k1".to_string()), &None, false);
    assert_eq!(url, "https://api.nasa.gov/planetary/apod?api_key=k1");
}

#[test]
fn status_classes_cover_every_code() {
    assert_eq!(classify_status(200), Ok(()));
    assert_eq!(classify_status(299), Ok(()));
    assert_eq!(classify_status(403), Err(Error::RateLimited));
    assert_eq!(classify_status(404), Err(Error::NotFound));
    assert_eq!(classify_status(500), Err(Error::RemoteError(500)));
    assert_eq!(classify_status(301), Err(Error::RemoteError(301)));
}

fn fields_of(r: MetadataOutcome) -> ApodMetadata {
    match r {
        MetadataOutcome::Fields(m) => m,
        other => panic!("expected fields, got {:?}", other),
    }
}

#[test]
fn parse_metadata_reads_a_single_object() {
    let body = r#"{"date":"2024-01-10","explanation":"About the sky.","hdurl":"https://example.org/i/big.png","url":"https://example.org/i/small.jpg","title":"Sky","media_type":"image"}"#;
    let m = fields_of(parse_metadata(body, false));
    assert_eq!(m.date, "2024-01-10");
    assert_eq!(m.title, "Sky");
    assert_eq!(m.explanation, "About the sky.");
    assert_eq!(m.media_type, "image");
    assert_eq!(m.hd_url.as_deref(), Some("https://example.org/i/big.png"));
    assert_eq!(m.url.as_deref(), Some("https://example.org/i/small.jpg"));
}

#[test]
fn parse_metadata_reads_the_random_array_form() {
    let body = r#"[{"date":"2020-05-01","explanation":"E","url":"https://example.org/a.jpg","title":"T","media_type":"image"}]"#;
    let m = fields_of(parse_metadata(body, true));
    assert_eq!(m.date, "2020-05-01");
    assert_eq!(m.hd_url, None);
    assert_eq!(m.url.as_deref(), Some("https://example.org/a.jpg"));
}

#[test]
fn an_empty_random_listing_is_a_soft_miss() {
    assert!(matches!(parse_metadata("[]", true), MetadataOutcome::NoEntry));
    assert!(matches!(parse_metadata("[ ]", true), MetadataOutcome::NoEntry));
}

#[test]
fn parse_metadata_rejects_broken_bodies() {
    assert!(matches!(parse_metadata("not json", false), MetadataOutcome::Malformed));
    assert!(matches!(parse_metadata("[]", false), MetadataOutcome::Malformed));
    assert!(matches!(parse_metadata("{}", true), MetadataOutcome::Malformed));
    assert!(matches!(
        parse_metadata(r#"{"date":"2024-01-10"}"#, false),
        MetadataOutcome::Malformed
    ));
    assert!(matches!(
        parse_metadata(r#"{"date":"2024-01-10","title":"T","media_type":"image"}"#, false),
        MetadataOutcome::Malformed
    ));
}

fn image_metadata(date: &str, hd: Option<&str>, url: Option<&str>) -> ApodMetadata {
    ApodMetadata {
        date: date.to_string(),
        title: "T".to_string(),
        explanation: "E".to_string(),
        media_type: "image".to_string(),
        hd_url: hd.map(|s| s.to_string()),
        url: url.map(|s| s.to_string()),
    }
}

#[test]
fn a_non_image_day_plans_nothing() {
    let mut m = image_metadata("2024-01-10", None, Some("https://example.org/a.mp4"));
    m.media_type = "video".to_string();
    let planned = plan_asset(&m).unwrap();
    assert!(planned.is_none());
}

#[test]
fn the_high_resolution_url_is_preferred() {
    let m = image_metadata(
        "2024-01-10",
        Some("https://example.org/i/big.PNG"),
        Some("https://example.org/i/small.jpg"),
    );
    let plan = plan_asset(&m).unwrap().unwrap();
    assert_eq!(plan.url, "https://example.org/i/big.PNG");
    assert_eq!(plan.file_name, "2024-01-10.png");
    assert_eq!(plan.date, d(2024, 1, 10));
    assert_eq!(plan.title, "T");
}

#[test]
fn a_url_without_extension_defaults_to_jpg() {
    let m = image_metadata("2024-01-10", None, Some("https://example.org/image"));
    let plan = plan_asset(&m).unwrap().unwrap();
    assert_eq!(plan.file_name, "2024-01-10.jpg");
}

#[test]
fn an_unlisted_extension_is_refused() {
    let m = image_metadata("2024-01-10", None, Some("https://example.org/a.gif"));
    assert_eq!(plan_asset(&m).unwrap_err(), Error::UnsupportedFormat);
}

#[test]
fn a_missing_url_is_a_soft_miss() {
    let m = image_metadata("2024-01-10", None, None);
    assert_eq!(plan_asset(&m).unwrap_err(), Error::NotFound);
}

#[test]
fn a_malformed_remote_date_is_refused() {
    let m = image_metadata("tomorrow", None, Some("https://example.org/a.jpg"));
    assert_eq!(plan_asset(&m).unwrap_err(), Error::InvalidDate);
}

#[test]
fn the_planned_file_is_found_on_the_next_lookup() {
    let m = image_metadata("2024-01-10", None, Some("https://example.org/i/pic.JPEG"));
    let plan = plan_asset(&m).unwrap().unwrap();
    let mut entries = strings(&["2024-01-09.jpg"]);
    assert_eq!(find_for_date(&entries, &plan.date), None);
    entries.push(plan.file_name.clone());
    assert_eq!(find_for_date(&entries, &plan.date), Some(1));
}

#[test]
fn exiftool_arguments_carry_title_and_description() {
    let args = exiftool_args(
        &"/tmp/2024-01-10.jpg".to_string(),
        &"Sky".to_string(),
        &"About the sky.".to_string(),
    );
    assert_eq!(
        args,
        vec![
            "-overwrite_original".to_string(),
            "-ifd0:all=".to_string(),
            "-Title=Sky".to_string(),
            "-Description=About the sky.".to_string(),
            "/tmp/2024-01-10.jpg".to_string(),
        ]
    );
}
