use yad::config::Config;
use yad::files::{
    elapsed, get_destination_path, get_file_type, DownloadStatus, File, FileType,
};
use yad::storage::DownloadRecord;

fn config_with(download_dir: &str) -> Config {
    Config {
        os: String::from("Linux"),
        user: String::from("tester"),
        download_dir: String::from(download_dir),
        config_dir: String::from("/tmp/config"),
        tmp_dir: String::from("/tmp"),
        db_name: String::from("Yad.db"),
    }
}

fn sample_record() -> DownloadRecord {
    DownloadRecord {
        id: 7,
        file_url: String::from("https://example.com/a/song.mp3"),
        file_name: String::from("song.mp3"),
        file_type: String::from("Audio"),
        extension: String::from("mp3"),
        destination_dir: String::from("/tmp/root/Audio"),
        destination_path: String::from("/tmp/root/Audio/song.mp3"),
        file_size: 4096,
        download_start_time: 1_700_000_000,
        download_stop_time: 1_700_000_042,
        download_status: String::from("Finished"),
    }
}

#[test]
fn download_status_names() {
    assert_eq!(DownloadStatus::Pending.to_string(), "Pending");
    assert_eq!(DownloadStatus::InProgress.to_string(), "InProgress");
    assert_eq!(DownloadStatus::Failed.to_string(), "Failed");
    assert_eq!(DownloadStatus::Finished.to_string(), "Finished");
    assert_eq!(DownloadStatus::Cancelled.to_string(), "Cancelled");
}

#[test]
fn download_status_round_trip() {
    let all = [
        DownloadStatus::Pending,
        DownloadStatus::InProgress,
        DownloadStatus::Failed,
        DownloadStatus::Finished,
        DownloadStatus::Cancelled,
    ];
    for status in all {
        assert_eq!(DownloadStatus::from_string(&status.to_string()), status);
    }
}

#[test]
fn download_status_of_an_unknown_name_is_pending() {
    assert_eq!(DownloadStatus::from_string(""), DownloadStatus::Pending);
    assert_eq!(DownloadStatus::from_string("finished"), DownloadStatus::Pending);
    assert_eq!(DownloadStatus::from_string("Finished "), DownloadStatus::Pending);
    assert_eq!(DownloadStatus::from_string("Done"), DownloadStatus::Pending);
}

#[test]
fn file_type_names() {
    assert_eq!(FileType::Compressed.to_string(), "Compressed");
    assert_eq!(FileType::Videos.to_string(), "Videos");
    assert_eq!(FileType::Audio.to_string(), "Audio");
    assert_eq!(FileType::Documents.to_string(), "Documents");
    assert_eq!(FileType::Programs.to_string(), "Programs");
    assert_eq!(FileType::Images.to_string(), "Images");
    assert_eq!(FileType::Others.to_string(), "Others");
}

#[test]
fn file_type_round_trip() {
    let all = [
        FileType::Compressed,
        FileType::Videos,
        FileType::Audio,
        FileType::Documents,
        FileType::Programs,
        FileType::Images,
        FileType::Others,
    ];
    for file_type in all {
        assert_eq!(FileType::from_string(&file_type.to_string()), file_type);
    }
}

#[test]
fn file_type_of_an_unknown_name_is_others() {
    assert_eq!(FileType::from_string(""), FileType::Others);
    assert_eq!(FileType::from_string("videos"), FileType::Others);
    assert_eq!(FileType::from_string("Video"), FileType::Others);
    assert_eq!(FileType::from_string("Pending"), FileType::Others);
}

#[test]
fn every_extension_of_the_tables_has_its_category() {
    let videos = ["mp4", "mkv", "avi", "mov", "flv", "webm", "wmv", "mpeg", "mpg", "3gp"];
    let compressed = ["zip", "rar", "7z", "tar", "gz", "targz", "tarbz2", "tarxz", "iso", "xz"];
    let audio = ["mp3", "flac", "wav", "aac", "ogg", "m4a", "wma", "alac", "opus", "amr"];
    let documents = [
        "pdf", "docx", "doc", "txt", "xlsx", "pptx", "ppt", "odt", "html", "epub", "csv", "xml",
    ];
    let programs = ["exe", "msi", "bat", "apk", "dmg", "bin", "deb", "rpm"];
    let images = ["jpg", "jpeg", "png", "gif", "bmp", "tiff", "webp", "svg", "ico"];
    for e in videos {
        assert_eq!(get_file_type(e), FileType::Videos, "{}", e);
    }
    for e in compressed {
        assert_eq!(get_file_type(e), FileType::Compressed, "{}", e);
    }
    for e in audio {
        assert_eq!(get_file_type(e), FileType::Audio, "{}", e);
    }
    for e in documents {
        assert_eq!(get_file_type(e), FileType::Documents, "{}", e);
    }
    for e in programs {
        assert_eq!(get_file_type(e), FileType::Programs, "{}", e);
    }
    for e in images {
        assert_eq!(get_file_type(e), FileType::Images, "{}", e);
    }
}

#[test]
fn unknown_and_upper_case_extensions_are_others() {
    assert_eq!(get_file_type(""), FileType::Others);
    assert_eq!(get_file_type("_"), FileType::Others);
    assert_eq!(get_file_type("ZIP"), FileType::Others);
    assert_eq!(get_file_type("Mp4"), FileType::Others);
    assert_eq!(get_file_type("zipx"), FileType::Others);
    assert_eq!(get_file_type("tar.gz"), FileType::Others);
    assert_eq!(get_file_type("rs"), FileType::Others);
}

#[test]
fn destination_is_directory_of_the_category_and_file_name() {
    let cfg = config_with("/tmp/root");
    let (dir, path) = get_destination_path("archive.zip", &cfg, &FileType::Compressed);
    assert_eq!(dir, "/tmp/root/Compressed");
    assert_eq!(path, "/tmp/root/Compressed/archive.zip");
    let (dir, path) = get_destination_path("", &cfg, &FileType::Others);
    assert_eq!(dir, "/tmp/root/Others");
    assert_eq!(path, "/tmp/root/Others/");
}

#[test]
fn destination_below_a_download_dir_with_a_trailing_separator() {
    let cfg = config_with("/tmp/root/");
    let (dir, path) = get_destination_path("clip.mp4", &cfg, &FileType::Videos);
    assert_eq!(dir, "/tmp/root/Videos");
    assert_eq!(path, "/tmp/root/Videos/clip.mp4");
}

#[test]
fn new_file_for_an_archive() {
    let cfg = config_with("/tmp/root");
    let file = File::new("https://example.com/archive.zip", &cfg);
    assert_eq!(file.id, 0);
    assert_eq!(file.file_url, "https://example.com/archive.zip");
    assert_eq!(file.file_name, "archive.zip");
    assert_eq!(file.extension, "zip");
    assert_eq!(file.file_type, FileType::Compressed);
    assert_eq!(file.destination_dir, "/tmp/root/Compressed");
    assert_eq!(file.destination_path, "/tmp/root/Compressed/archive.zip");
    assert_eq!(file.file_size, 0);
    assert_eq!(file.download_start_time, 0);
    assert_eq!(file.download_stop_time, 0);
    assert_eq!(file.download_duration, 0);
    assert_eq!(file.download_status, DownloadStatus::Pending);
    let record = DownloadRecord::from(file);
    assert_eq!(record.file_type, "Compressed");
}

#[test]
fn new_file_is_the_same_each_time() {
    let cfg = config_with("/tmp/root");
    let a = File::new("https://example.com/a/b/photo.jpeg", &cfg);
    let b = File::new("https://example.com/a/b/photo.jpeg", &cfg);
    assert_eq!(a.file_name, b.file_name);
    assert_eq!(a.extension, b.extension);
    assert_eq!(a.file_type, b.file_type);
    assert_eq!(a.destination_dir, b.destination_dir);
    assert_eq!(a.destination_path, b.destination_path);
    assert_eq!(a.destination_path, "/tmp/root/Images/photo.jpeg");
}

#[test]
fn new_file_without_a_dot_in_the_last_segment() {
    let cfg = config_with("/tmp/root");
    let file = File::new("https://example.com/v1.2/download", &cfg);
    assert_eq!(file.file_name, "download");
    assert_eq!(file.extension, "_");
    assert_eq!(file.file_type, FileType::Others);
    assert_eq!(file.destination_path, "/tmp/root/Others/download");
}

#[test]
fn new_file_whose_last_segment_is_an_extension_of_the_tables() {
    let cfg = config_with("/tmp/root");
    let file = File::new("https://example.com/zip", &cfg);
    assert_eq!(file.file_name, "zip");
    assert_eq!(file.extension, "_");
    assert_eq!(file.file_type, FileType::Others);
}

#[test]
fn new_file_for_a_url_that_ends_with_a_separator() {
    let cfg = config_with("/tmp/root");
    let file = File::new("https://example.com/dir/", &cfg);
    assert_eq!(file.file_name, "");
    assert_eq!(file.extension, "_");
    assert_eq!(file.file_type, FileType::Others);
    assert_eq!(file.destination_dir, "/tmp/root/Others");
    assert_eq!(file.destination_path, "/tmp/root/Others/");
}

#[test]
fn new_file_for_a_text_without_a_separator() {
    let cfg = config_with("/tmp/root");
    let file = File::new("archive.zip", &cfg);
    assert_eq!(file.file_url, "archive.zip");
    assert_eq!(file.file_name, "");
    assert_eq!(file.extension, "_");
    assert_eq!(file.file_type, FileType::Others);
    let file = File::new("", &cfg);
    assert_eq!(file.file_name, "");
    assert_eq!(file.extension, "_");
}

#[test]
fn new_file_with_an_upper_case_extension() {
    let cfg = config_with("/tmp/root");
    let file = File::new("https://example.com/ARCHIVE.ZIP", &cfg);
    assert_eq!(file.extension, "ZIP");
    assert_eq!(file.file_type, FileType::Others);
    assert_eq!(file.destination_path, "/tmp/root/Others/ARCHIVE.ZIP");
}

#[test]
fn new_file_takes_the_text_behind_the_last_dot() {
    let cfg = config_with("/tmp/root");
    let file = File::new("https://example.com/backup.tar.gz", &cfg);
    assert_eq!(file.file_name, "backup.tar.gz");
    assert_eq!(file.extension, "gz");
    assert_eq!(file.file_type, FileType::Compressed);
    let file = File::new("https://example.com/name.", &cfg);
    assert_eq!(file.extension, "");
    assert_eq!(file.file_type, FileType::Others);
}

#[test]
fn survey_csv_is_a_document() {
    let cfg = config_with("/home/u/Downloads/Yad");
    let file_url = "https://www.stats.govt.nz/assets/Uploads/Annual-enterprise-survey/Annual-enterprise-survey-2023-financial-year-provisional/Download-data/annual-enterprise-survey-2023-financial-year-provisional-size-bands.csv";
    let file = File::new(file_url, &cfg);
    assert_eq!(
        file.file_name,
        "annual-enterprise-survey-2023-financial-year-provisional-size-bands.csv"
    );
    assert_eq!(file.extension, "csv");
    assert_eq!(file.file_type, FileType::Documents);
    assert_eq!(file.destination_dir, "/home/u/Downloads/Yad/Documents");
}

#[test]
fn vlc_image_is_a_program() {
    let cfg = config_with("/home/u/Downloads/Yad");
    let file_url =
        "https://veronanetworks.mm.fcix.net/videolan-ftp/vlc/3.0.21/macosx/vlc-3.0.21-arm64.dmg";
    let file = File::new(file_url, &cfg);
    assert_eq!(file.file_name, "vlc-3.0.21-arm64.dmg");
    assert_eq!(file.extension, "dmg");
    assert_eq!(file.file_type, FileType::Programs);
    assert_eq!(file.destination_path, "/home/u/Downloads/Yad/Programs/vlc-3.0.21-arm64.dmg");
}

#[test]
fn elapsed_is_stop_minus_start() {
    assert_eq!(elapsed(1_700_000_000, 1_700_000_042), 42);
    assert_eq!(elapsed(10, 3), -7);
    assert_eq!(elapsed(0, 0), 0);
    assert_eq!(elapsed(i64::MIN, i64::MIN), 0);
}

#[test]
fn elapsed_stays_in_range() {
    assert_eq!(elapsed(i64::MIN, i64::MAX), i64::MAX);
    assert_eq!(elapsed(-1, i64::MAX), i64::MAX);
    assert_eq!(elapsed(i64::MAX, i64::MIN), i64::MIN);
    assert_eq!(elapsed(1, i64::MIN), i64::MIN);
    assert_eq!(elapsed(0, i64::MAX), i64::MAX);
    assert_eq!(elapsed(0, i64::MIN), i64::MIN);
    assert_eq!(elapsed(-1, i64::MIN), i64::MIN + 1);
}

#[test]
fn file_from_record() {
    let file = File::from(sample_record());
    assert_eq!(file.id, 7);
    assert_eq!(file.file_url, "https://example.com/a/song.mp3");
    assert_eq!(file.file_name, "song.mp3");
    assert_eq!(file.file_type, FileType::Audio);
    assert_eq!(file.extension, "mp3");
    assert_eq!(file.destination_dir, "/tmp/root/Audio");
    assert_eq!(file.destination_path, "/tmp/root/Audio/song.mp3");
    assert_eq!(file.file_size, 4096);
    assert_eq!(file.download_start_time, 1_700_000_000);
    assert_eq!(file.download_stop_time, 1_700_000_042);
    assert_eq!(file.download_duration, 42);
    assert_eq!(file.download_status, DownloadStatus::Finished);
}

#[test]
fn file_from_record_with_unknown_names() {
    let mut record = sample_record();
    record.file_type = String::from("Music");
    record.download_status = String::from("Done");
    let file = File::from(record);
    assert_eq!(file.file_type, FileType::Others);
    assert_eq!(file.download_status, DownloadStatus::Pending);
}

#[test]
fn record_from_file() {
    let cfg = config_with("/tmp/root");
    let mut file = File::new("https://example.com/clip.mkv", &cfg);
    file.id = 99;
    file.file_size = 12;
    file.download_start_time = 5;
    file.download_stop_time = 9;
    file.download_duration = 4;
    file.download_status = DownloadStatus::InProgress;
    let record = DownloadRecord::from(file);
    assert_eq!(record.id, 0);
    assert_eq!(record.file_url, "https://example.com/clip.mkv");
    assert_eq!(record.file_name, "clip.mkv");
    assert_eq!(record.file_type, "Videos");
    assert_eq!(record.extension, "mkv");
    assert_eq!(record.destination_dir, "/tmp/root/Videos");
    assert_eq!(record.destination_path, "/tmp/root/Videos/clip.mkv");
    assert_eq!(record.file_size, 12);
    assert_eq!(record.download_start_time, 5);
    assert_eq!(record.download_stop_time, 9);
    assert_eq!(record.download_status, "InProgress");
}

#[test]
fn file_and_record_can_be_cloned() {
    let record = sample_record();
    let copy = record.clone();
    assert_eq!(copy.id, record.id);
    assert_eq!(copy.file_url, record.file_url);
    assert_eq!(copy.download_status, record.download_status);
    let file = File::from(record);
    let twin = file.clone();
    assert_eq!(twin.destination_path, file.destination_path);
    assert_eq!(twin.file_type, file.file_type);
    assert_eq!(twin.download_duration, file.download_duration);
}

#[test]
fn config_for_linux() {
    let cfg = Config::for_home("ada", "Linux", "/home/ada");
    assert_eq!(cfg.user, "ada");
    assert_eq!(cfg.os, "Linux");
    assert_eq!(cfg.download_dir, "/home/ada/Downloads/Yad");
    assert_eq!(cfg.config_dir, "/home/ada/.config/Yad");
    assert_eq!(cfg.tmp_dir, "/tmp");
    assert_eq!(cfg.db_name, "Yad.db");
}

#[test]
fn config_for_darwin() {
    let cfg = Config::for_home("ada", "Darwin", "/Users/ada");
    assert_eq!(cfg.download_dir, "/Users/ada/Downloads/Yad");
    assert_eq!(cfg.config_dir, "/Users/ada/Library/Application Support/Yad");
    assert_eq!(cfg.tmp_dir, "/tmp");
}

#[test]
fn config_for_windows() {
    let cfg = Config::for_home("ada", "Windows", "C:/Users/ada");
    assert_eq!(cfg.download_dir, "C:/Users/ada/Downloads/Yad");
    assert_eq!(cfg.config_dir, "C:/Users/ada/AppData/Local/Yad");
    assert_eq!(cfg.tmp_dir, "C:/Users/ada/AppData/Local/Temp");
}

#[test]
fn config_for_an_unknown_system() {
    let cfg = Config::for_home("", "FreeBSD", "/home/ada/");
    assert_eq!(cfg.user, "");
    assert_eq!(cfg.os, "FreeBSD");
    assert_eq!(cfg.download_dir, "/home/ada/Downloads/Yad");
    assert_eq!(cfg.config_dir, "~/");
    assert_eq!(cfg.tmp_dir, "/tmp");
    let cfg = Config::for_home("ada", "linux", "/home/ada");
    assert_eq!(cfg.config_dir, "~/");
}
