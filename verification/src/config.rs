//! The configuration that every operation takes: who runs the program, on
//! which system, and the directories that follow from the home directory.

use crate::text::{join_path, joined, same_text};
use vstd::prelude::*;

verus! {

/// The directories and names that the downloader works with.
#[derive(Debug)]
pub struct Config {
    pub os: String,
    pub user: String,
    pub download_dir: String,
    pub config_dir: String,
    pub tmp_dir: String,
    pub db_name: String,
}

/// `Config` with each text field as a sequence of characters.
pub struct ConfigView {
    pub os: Seq<char>,
    pub user: Seq<char>,
    pub download_dir: Seq<char>,
    pub config_dir: Seq<char>,
    pub tmp_dir: Seq<char>,
    pub db_name: Seq<char>,
}

impl View for Config {
    type V = ConfigView;

    open spec fn view(&self) -> ConfigView {
        ConfigView {
            os: self.os@,
            user: self.user@,
            download_dir: self.download_dir@,
            config_dir: self.config_dir@,
            tmp_dir: self.tmp_dir@,
            db_name: self.db_name@,
        }
    }
}

/// Where downloads go: `Downloads/Yad` under the home directory.
pub open spec fn download_dir_under(home: Seq<char>) -> Seq<char> {
    joined(joined(home, "Downloads"@), "Yad"@)
}

/// Where the program keeps its own files, by operating system. A system that
/// is none of the three known ones gets `~/`.
pub open spec fn config_dir_under(os: Seq<char>, home: Seq<char>) -> Seq<char> {
    if os == "Windows"@ {
        joined(joined(joined(home, "AppData"@), "Local"@), "Yad"@)
    } else if os == "Darwin"@ {
        joined(joined(joined(home, "Library"@), "Application Support"@), "Yad"@)
    } else if os == "Linux"@ {
        joined(joined(home, ".config"@), "Yad"@)
    } else {
        "~/"@
    }
}

/// Where temporary files go: below the home directory on Windows, `/tmp`
/// everywhere else.
pub open spec fn tmp_dir_under(os: Seq<char>, home: Seq<char>) -> Seq<char> {
    if os == "Windows"@ {
        joined(joined(joined(home, "AppData"@), "Local"@), "Temp"@)
    } else {
        "/tmp"@
    }
}

/// The configuration that follows from a user name, the name of the operating
/// system and the home directory.
pub open spec fn config_for(user: Seq<char>, os: Seq<char>, home: Seq<char>) -> ConfigView {
    ConfigView {
        os,
        user,
        download_dir: download_dir_under(home),
        config_dir: config_dir_under(os, home),
        tmp_dir: tmp_dir_under(os, home),
        db_name: "Yad.db"@,
    }
}

impl Config {
    /// Builds the configuration for `user` on the system `os`, whose home
    /// directory is `home_dir`.
    pub fn for_home(user: &str, os: &str, home_dir: &str) -> (cfg: Config)
        ensures
            cfg@ == config_for(user@, os@, home_dir@),
    {
        let windows = same_text(os, "Windows");
        let config_dir = if windows {
            let app_data = join_path(home_dir, "AppData");
            let local = join_path(app_data.as_str(), "Local");
            join_path(local.as_str(), "Yad")
        } else if same_text(os, "Darwin") {
            let library = join_path(home_dir, "Library");
            let support = join_path(library.as_str(), "Application Support");
            join_path(support.as_str(), "Yad")
        } else if same_text(os, "Linux") {
            let dot_config = join_path(home_dir, ".config");
            join_path(dot_config.as_str(), "Yad")
        } else {
            String::from_str("~/")
        };
        let tmp_dir = if windows {
            let app_data = join_path(home_dir, "AppData");
            let local = join_path(app_data.as_str(), "Local");
            join_path(local.as_str(), "Temp")
        } else {
            String::from_str("/tmp")
        };
        let downloads = join_path(home_dir, "Downloads");
        Config {
            os: String::from_str(os),
            user: String::from_str(user),
            download_dir: join_path(downloads.as_str(), "Yad"),
            config_dir,
            tmp_dir,
            db_name: String::from_str("Yad.db"),
        }
    }
}

} // verus!
