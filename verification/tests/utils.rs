use wallrus::config::{default_image_quality, default_slideshow_interval, Config};
use wallrus::errors::WallrusError;
use wallrus::slideshow::{is_slideshow_image, Slideshow};
use wallrus::unsplash::{authorization, downloaded_after, search_url};
use wallrus::utils::{filename_at, generate_unique_filename, is_valid_file, str_option_to_slice};
use wallrus::wallpaper::{plan_wallpaper, WallpaperType};

#[test]
fn test_str_option_to_slice() {
    let some_string = Some(String::from("test"));
    assert_eq!(str_option_to_slice(&some_string), Some("test"));

    let none_string: Option<String> = None;
    assert_eq!(str_option_to_slice(&none_string), None);
}

#[test]
fn test_generate_unique_filename() {
    let result = generate_unique_filename("/tmp/", "jpg");
    assert!(result.starts_with("/tmp/Wallrus-"));
    assert!(result.ends_with(".jpg"));
}

#[test]
fn test_is_valid_file() {
    let dir = tempfile::tempdir().unwrap();
    let file = tempfile::Builder::new().prefix("test").suffix(".txt").tempfile_in(dir.path()).unwrap();

    assert!(is_valid_file(file.path().to_str().unwrap()));
    assert!(!is_valid_file("/nonexistent/file.txt"));
    assert!(!is_valid_file(dir.path().to_str().unwrap()));
}

#[test]
fn unique_filename_carries_a_time_stamp() {
    let result = generate_unique_filename("/tmp", "png");
    assert!(result.starts_with("/tmp/Wallrus-"));
    assert!(result.ends_with(".png"));
    let stamp = &result["/tmp/Wallrus-".len()..result.len() - ".png".len()];
    assert_eq!(stamp.len(), 14);
    assert!(stamp.chars().all(|c| c.is_ascii_digit()));
}

#[test]
fn filename_gets_a_slash_where_it_lacks_one() {
    assert_eq!(filename_at("/tmp/", "20240102030405", "jpg"), "/tmp/Wallrus-20240102030405.jpg");
    assert_eq!(filename_at("/tmp", "20240102030405", "jpg"), "/tmp/Wallrus-20240102030405.jpg");
    assert_eq!(filename_at("", "1", "png"), "/Wallrus-1.png");
    assert_eq!(filename_at("/", "1", ""), "/Wallrus-1.");
    assert_eq!(filename_at("bilder/ö", "7", "jpg"), "bilder/ö/Wallrus-7.jpg");
}

fn config(key: &str, quality: u8) -> Config {
    Config {
        unsplash_access_key: key.to_string(),
        image_path: "/nonexistent/images".to_string(),
        image_quality: quality,
        slideshow_interval: 5,
    }
}

#[test]
fn defaults_are_eighty_and_five() {
    assert_eq!(default_image_quality(), 80);
    assert_eq!(default_slideshow_interval(), 5);
}

#[test]
fn settings_are_checked_in_order() {
    assert_eq!(config("key", 80).validate_with(true), Ok(()));
    assert_eq!(config("key", 100).validate_with(true), Ok(()));
    assert_eq!(config("key", 0).validate_with(true), Ok(()));
    assert_eq!(
        config("", 101).validate_with(false),
        Err(WallrusError::Config("Unsplash access key is empty".to_string()))
    );
    assert_eq!(
        config("key", 101).validate_with(false),
        Err(WallrusError::Config("Image path does not exist".to_string()))
    );
    assert_eq!(
        config("key", 101).validate_with(true),
        Err(WallrusError::Config("Image quality must be between 0 and 100".to_string()))
    );
}

#[test]
fn validate_asks_the_file_system() {
    assert_eq!(
        config("key", 80).validate(),
        Err(WallrusError::Config("Image path does not exist".to_string()))
    );
    assert_eq!(
        config("", 80).validate(),
        Err(WallrusError::Config("Unsplash access key is empty".to_string()))
    );
    let dir = tempfile::tempdir().unwrap();
    let mut settings = config("key", 80);
    settings.image_path = dir.path().to_str().unwrap().to_string();
    assert_eq!(settings.validate(), Ok(()));
    settings.image_quality = 200;
    assert_eq!(
        settings.validate(),
        Err(WallrusError::Config("Image quality must be between 0 and 100".to_string()))
    );
}

#[test]
fn settings_come_from_two_values() {
    let loaded =
        Config::from_values(Some("key".to_string()), Some("/images".to_string()), true).unwrap();
    assert_eq!(loaded.unsplash_access_key, "key");
    assert_eq!(loaded.image_path, "/images");
    assert_eq!(loaded.image_quality, 80);
    assert_eq!(loaded.slideshow_interval, 5);
    assert_eq!(
        Config::from_values(None, None, true).unwrap_err(),
        WallrusError::Config("UNSPLASH_ACCESS_KEY not found in environment".to_string())
    );
    assert_eq!(
        Config::from_values(Some("key".to_string()), None, true).unwrap_err(),
        WallrusError::Config("IMAGE_PATH not found in environment".to_string())
    );
    assert_eq!(
        Config::from_values(Some("".to_string()), Some("/images".to_string()), true).unwrap_err(),
        WallrusError::Config("Unsplash access key is empty".to_string())
    );
    assert_eq!(
        Config::from_values(Some("key".to_string()), Some("/images".to_string()), false)
            .unwrap_err(),
        WallrusError::Config("Image path does not exist".to_string())
    );
    assert_eq!(
        Config::from_environment(Some("key".to_string()), Some("/nonexistent/images".to_string()))
            .unwrap_err(),
        WallrusError::Config("Image path does not exist".to_string())
    );
}

#[test]
fn rolls_stand_for_kinds() {
    assert_eq!(WallpaperType::from_roll(0), WallpaperType::Gradient);
    assert_eq!(WallpaperType::from_roll(1), WallpaperType::RandomPlot);
    assert_eq!(WallpaperType::from_roll(2), WallpaperType::RandomWalk);
    assert_eq!(WallpaperType::from_roll(77), WallpaperType::RandomWalk);
}

#[test]
fn every_kind_is_drawn_sooner_or_later() {
    let mut seen = [false; 3];
    for _ in 0..2000 {
        match WallpaperType::random() {
            WallpaperType::Gradient => seen[0] = true,
            WallpaperType::RandomPlot => seen[1] = true,
            WallpaperType::RandomWalk => seen[2] = true,
        }
    }
    assert_eq!(seen, [true, true, true]);
}

#[test]
fn plan_names_a_jpg_under_the_directory() {
    let plan = plan_wallpaper("/tmp/walls");
    assert!(plan.file_path.starts_with("/tmp/walls/Wallrus-"));
    assert!(plan.file_path.ends_with(".jpg"));
}

#[test]
fn only_jpg_and_png_are_shown() {
    assert!(is_slideshow_image(Some("jpg")));
    assert!(is_slideshow_image(Some("png")));
    assert!(!is_slideshow_image(Some("JPG")));
    assert!(!is_slideshow_image(Some("jpeg")));
    assert!(!is_slideshow_image(Some("")));
    assert!(!is_slideshow_image(None));
}

#[test]
fn slideshow_goes_round() {
    assert_eq!(
        Slideshow::new(0).unwrap_err(),
        WallrusError::Config("No valid images found in directory".to_string())
    );
    let mut show = Slideshow::new(3).unwrap();
    assert_eq!(show.count(), 3);
    let shown: Vec<usize> = (0..7).map(|_| show.advance()).collect();
    assert_eq!(shown, vec![0, 1, 2, 0, 1, 2, 0]);
    let mut single = Slideshow::new(1).unwrap();
    assert_eq!(single.advance(), 0);
    assert_eq!(single.advance(), 0);
}

#[test]
fn search_url_names_what_is_given() {
    assert_eq!(
        search_url(None, None, None),
        "https://api.unsplash.com/search/photos?query=nature"
    );
    assert_eq!(
        search_url(Some("sea"), Some("42"), Some("ansel")),
        "https://api.unsplash.com/search/photos?query=sea&collections=42&username=ansel"
    );
    assert_eq!(
        search_url(Some("sea"), Some(""), Some("ansel")),
        "https://api.unsplash.com/search/photos?query=sea&username=ansel"
    );
    assert_eq!(
        search_url(Some(""), Some("42"), Some("")),
        "https://api.unsplash.com/search/photos?query=&collections=42"
    );
    assert_eq!(authorization("abc"), "Client-ID abc");
}

#[test]
fn download_progress_is_capped() {
    assert_eq!(downloaded_after(0, 10, 100), 10);
    assert_eq!(downloaded_after(95, 10, 100), 100);
    assert_eq!(downloaded_after(90, 10, 100), 100);
    assert_eq!(downloaded_after(0, 10, 0), 0);
    assert_eq!(downloaded_after(u64::MAX, u64::MAX, u64::MAX), u64::MAX);
    assert_eq!(downloaded_after(200, 1, 100), 100);
}
