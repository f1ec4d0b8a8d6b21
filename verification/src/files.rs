//! The classifier: from a URL and a configuration to a file name, an
//! extension, a category and the place where the download is kept.

use crate::config::Config;
use crate::storage::{DownloadRecord, RecordView};
use crate::text::{
    after_last, join_path, joined, lemma_after_last_is_free, same_text, text_after_last,
};
use vstd::prelude::*;

verus! {

/// How far a download has come.
#[derive(Debug, Clone, Copy, PartialEq, Eq, Structural)]
pub enum DownloadStatus {
    Pending,
    InProgress,
    Failed,
    Finished,
    Cancelled,
}

impl DownloadStatus {
    /// The name under which a value is stored: the variant's own name.
    pub open spec fn name(self) -> Seq<char> {
        match self {
            DownloadStatus::Pending => "Pending"@,
            DownloadStatus::InProgress => "InProgress"@,
            DownloadStatus::Failed => "Failed"@,
            DownloadStatus::Finished => "Finished"@,
            DownloadStatus::Cancelled => "Cancelled"@,
        }
    }

    /// The value that a stored name stands for; a text that is no variant's
    /// name stands for `Pending`.
    pub open spec fn parse(s: Seq<char>) -> DownloadStatus {
        if s == "Pending"@ {
            DownloadStatus::Pending
        } else if s == "InProgress"@ {
            DownloadStatus::InProgress
        } else if s == "Failed"@ {
            DownloadStatus::Failed
        } else if s == "Finished"@ {
            DownloadStatus::Finished
        } else if s == "Cancelled"@ {
            DownloadStatus::Cancelled
        } else {
            DownloadStatus::Pending
        }
    }

    /// The variant's name as a string.
    pub fn to_string(&self) -> (r: String)
        ensures
            r@ == self.name(),
    {
        match self {
            DownloadStatus::Pending => String::from_str("Pending"),
            DownloadStatus::InProgress => String::from_str("InProgress"),
            DownloadStatus::Failed => String::from_str("Failed"),
            DownloadStatus::Finished => String::from_str("Finished"),
            DownloadStatus::Cancelled => String::from_str("Cancelled"),
        }
    }

    /// Reads a value back from its name, with `Pending` for any other text.
    pub fn from_string(status: &str) -> (r: Self)
        ensures
            r == Self::parse(status@),
    {
        if same_text(status, "Pending") {
            DownloadStatus::Pending
        } else if same_text(status, "InProgress") {
            DownloadStatus::InProgress
        } else if same_text(status, "Failed") {
            DownloadStatus::Failed
        } else if same_text(status, "Finished") {
            DownloadStatus::Finished
        } else if same_text(status, "Cancelled") {
            DownloadStatus::Cancelled
        } else {
            DownloadStatus::Pending
        }
    }
}

/// The category of a file, which names the directory it is kept in.
#[derive(Debug, Clone, Copy, PartialEq, Eq, Structural)]
pub enum FileType {
    Compressed,
    Videos,
    Audio,
    Documents,
    Programs,
    Images,
    Others,
}

impl FileType {
    /// The name under which a value is stored: the variant's own name.
    pub open spec fn name(self) -> Seq<char> {
        match self {
            FileType::Compressed => "Compressed"@,
            FileType::Videos => "Videos"@,
            FileType::Audio => "Audio"@,
            FileType::Documents => "Documents"@,
            FileType::Programs => "Programs"@,
            FileType::Images => "Images"@,
            FileType::Others => "Others"@,
        }
    }

    /// The value that a stored name stands for; a text that is no variant's
    /// name stands for `Others`.
    pub open spec fn parse(s: Seq<char>) -> FileType {
        if s == "Compressed"@ {
            FileType::Compressed
        } else if s == "Videos"@ {
            FileType::Videos
        } else if s == "Audio"@ {
            FileType::Audio
        } else if s == "Documents"@ {
            FileType::Documents
        } else if s == "Programs"@ {
            FileType::Programs
        } else if s == "Images"@ {
            FileType::Images
        } else {
            FileType::Others
        }
    }

    /// The variant's name as a string.
    pub fn to_string(&self) -> (r: String)
        ensures
            r@ == self.name(),
    {
        match self {
            FileType::Compressed => String::from_str("Compressed"),
            FileType::Videos => String::from_str("Videos"),
            FileType::Audio => String::from_str("Audio"),
            FileType::Documents => String::from_str("Documents"),
            FileType::Programs => String::from_str("Programs"),
            FileType::Images => String::from_str("Images"),
            FileType::Others => String::from_str("Others"),
        }
    }

    /// Reads a value back from its name, with `Others` for any other text.
    pub fn from_string(file_type: &str) -> (r: Self)
        ensures
            r == Self::parse(file_type@),
    {
        if same_text(file_type, "Compressed") {
            FileType::Compressed
        } else if same_text(file_type, "Videos") {
            FileType::Videos
        } else if same_text(file_type, "Audio") {
            FileType::Audio
        } else if same_text(file_type, "Documents") {
            FileType::Documents
        } else if same_text(file_type, "Programs") {
            FileType::Programs
        } else if same_text(file_type, "Images") {
            FileType::Images
        } else {
            FileType::Others
        }
    }
}

/// Whether `e` is one of the extensions that mark a video.
pub open spec fn is_video_extension(e: Seq<char>) -> bool {
    ||| e == "mp4"@
    ||| e == "mkv"@
    ||| e == "avi"@
    ||| e == "mov"@
    ||| e == "flv"@
    ||| e == "webm"@
    ||| e == "wmv"@
    ||| e == "mpeg"@
    ||| e == "mpg"@
    ||| e == "3gp"@
}

/// Whether `e` is one of the extensions that mark an archive or a compressed file.
pub open spec fn is_compressed_extension(e: Seq<char>) -> bool {
    ||| e == "zip"@
    ||| e == "rar"@
    ||| e == "7z"@
    ||| e == "tar"@
    ||| e == "gz"@
    ||| e == "targz"@
    ||| e == "tarbz2"@
    ||| e == "tarxz"@
    ||| e == "iso"@
    ||| e == "xz"@
}

/// Whether `e` is one of the extensions that mark a sound file.
pub open spec fn is_audio_extension(e: Seq<char>) -> bool {
    ||| e == "mp3"@
    ||| e == "flac"@
    ||| e == "wav"@
    ||| e == "aac"@
    ||| e == "ogg"@
    ||| e == "m4a"@
    ||| e == "wma"@
    ||| e == "alac"@
    ||| e == "opus"@
    ||| e == "amr"@
}

/// Whether `e` is one of the extensions that mark a document.
pub open spec fn is_document_extension(e: Seq<char>) -> bool {
    ||| e == "pdf"@
    ||| e == "docx"@
    ||| e == "doc"@
    ||| e == "txt"@
    ||| e == "xlsx"@
    ||| e == "pptx"@
    ||| e == "ppt"@
    ||| e == "odt"@
    ||| e == "html"@
    ||| e == "epub"@
    ||| e == "csv"@
    ||| e == "xml"@
}

/// Whether `e` is one of the extensions that mark a program or an installer.
pub open spec fn is_program_extension(e: Seq<char>) -> bool {
    ||| e == "exe"@
    ||| e == "msi"@
    ||| e == "bat"@
    ||| e == "apk"@
    ||| e == "dmg"@
    ||| e == "bin"@
    ||| e == "deb"@
    ||| e == "rpm"@
}

/// Whether `e` is one of the extensions that mark a picture.
pub open spec fn is_image_extension(e: Seq<char>) -> bool {
    ||| e == "jpg"@
    ||| e == "jpeg"@
    ||| e == "png"@
    ||| e == "gif"@
    ||| e == "bmp"@
    ||| e == "tiff"@
    ||| e == "webp"@
    ||| e == "svg"@
    ||| e == "ico"@
}

/// The category of a file with the extension `e`. Only the lower-case
/// extensions of the six tables are recognised; everything else is `Others`.
pub open spec fn file_type_of(e: Seq<char>) -> FileType {
    if is_video_extension(e) {
        FileType::Videos
    } else if is_compressed_extension(e) {
        FileType::Compressed
    } else if is_audio_extension(e) {
        FileType::Audio
    } else if is_document_extension(e) {
        FileType::Documents
    } else if is_program_extension(e) {
        FileType::Programs
    } else if is_image_extension(e) {
        FileType::Images
    } else {
        FileType::Others
    }
}

fn has_video_extension(e: &str) -> (r: bool)
    ensures
        r == is_video_extension(e@),
{
    same_text(e, "mp4")
        || same_text(e, "mkv")
        || same_text(e, "avi")
        || same_text(e, "mov")
        || same_text(e, "flv")
        || same_text(e, "webm")
        || same_text(e, "wmv")
        || same_text(e, "mpeg")
        || same_text(e, "mpg")
        || same_text(e, "3gp")
}

fn has_compressed_extension(e: &str) -> (r: bool)
    ensures
        r == is_compressed_extension(e@),
{
    same_text(e, "zip")
        || same_text(e, "rar")
        || same_text(e, "7z")
        || same_text(e, "tar")
        || same_text(e, "gz")
        || same_text(e, "targz")
        || same_text(e, "tarbz2")
        || same_text(e, "tarxz")
        || same_text(e, "iso")
        || same_text(e, "xz")
}

fn has_audio_extension(e: &str) -> (r: bool)
    ensures
        r == is_audio_extension(e@),
{
    same_text(e, "mp3")
        || same_text(e, "flac")
        || same_text(e, "wav")
        || same_text(e, "aac")
        || same_text(e, "ogg")
        || same_text(e, "m4a")
        || same_text(e, "wma")
        || same_text(e, "alac")
        || same_text(e, "opus")
        || same_text(e, "amr")
}

fn has_document_extension(e: &str) -> (r: bool)
    ensures
        r == is_document_extension(e@),
{
    same_text(e, "pdf")
        || same_text(e, "docx")
        || same_text(e, "doc")
        || same_text(e, "txt")
        || same_text(e, "xlsx")
        || same_text(e, "pptx")
        || same_text(e, "ppt")
        || same_text(e, "odt")
        || same_text(e, "html")
        || same_text(e, "epub")
        || same_text(e, "csv")
        || same_text(e, "xml")
}

fn has_program_extension(e: &str) -> (r: bool)
    ensures
        r == is_program_extension(e@),
{
    same_text(e, "exe")
        || same_text(e, "msi")
        || same_text(e, "bat")
        || same_text(e, "apk")
        || same_text(e, "dmg")
        || same_text(e, "bin")
        || same_text(e, "deb")
        || same_text(e, "rpm")
}

fn has_image_extension(e: &str) -> (r: bool)
    ensures
        r == is_image_extension(e@),
{
    same_text(e, "jpg")
        || same_text(e, "jpeg")
        || same_text(e, "png")
        || same_text(e, "gif")
        || same_text(e, "bmp")
        || same_text(e, "tiff")
        || same_text(e, "webp")
        || same_text(e, "svg")
        || same_text(e, "ico")
}

/// The category of a file, by its extension.
pub fn get_file_type(extension: &str) -> (r: FileType)
    ensures
        r == file_type_of(extension@),
{
    if has_video_extension(extension) {
        FileType::Videos
    } else if has_compressed_extension(extension) {
        FileType::Compressed
    } else if has_audio_extension(extension) {
        FileType::Audio
    } else if has_document_extension(extension) {
        FileType::Documents
    } else if has_program_extension(extension) {
        FileType::Programs
    } else if has_image_extension(extension) {
        FileType::Images
    } else {
        FileType::Others
    }
}

/// A download as the program works on it.
#[derive(Debug)]
pub struct File {
    pub id: u64,
    pub file_url: String,
    pub file_name: String,
    pub file_type: FileType,
    pub extension: String,
    pub destination_dir: String,
    pub destination_path: String,
    pub file_size: u64,
    pub download_start_time: i64,
    pub download_stop_time: i64,
    pub download_duration: i64,
    pub download_status: DownloadStatus,
}

/// `File` with each text field as a sequence of characters.
pub struct FileView {
    pub id: u64,
    pub file_url: Seq<char>,
    pub file_name: Seq<char>,
    pub file_type: FileType,
    pub extension: Seq<char>,
    pub destination_dir: Seq<char>,
    pub destination_path: Seq<char>,
    pub file_size: u64,
    pub download_start_time: i64,
    pub download_stop_time: i64,
    pub download_duration: i64,
    pub download_status: DownloadStatus,
}

impl View for File {
    type V = FileView;

    open spec fn view(&self) -> FileView {
        FileView {
            id: self.id,
            file_url: self.file_url@,
            file_name: self.file_name@,
            file_type: self.file_type,
            extension: self.extension@,
            destination_dir: self.destination_dir@,
            destination_path: self.destination_path@,
            file_size: self.file_size,
            download_start_time: self.download_start_time,
            download_stop_time: self.download_stop_time,
            download_duration: self.download_duration,
            download_status: self.download_status,
        }
    }
}

impl Clone for File {
    fn clone(&self) -> (r: File)
        ensures
            r == *self,
    {
        File {
            id: self.id,
            file_url: self.file_url.clone(),
            file_name: self.file_name.clone(),
            file_type: self.file_type,
            extension: self.extension.clone(),
            destination_dir: self.destination_dir.clone(),
            destination_path: self.destination_path.clone(),
            file_size: self.file_size,
            download_start_time: self.download_start_time,
            download_stop_time: self.download_stop_time,
            download_duration: self.download_duration,
            download_status: self.download_status,
        }
    }
}

/// The file name that a URL gives: what stands behind its last `/`, and
/// nothing where the URL holds no `/`.
pub open spec fn file_name_of(url: Seq<char>) -> Seq<char> {
    match after_last(url, '/') {
        Some(name) => name,
        None => Seq::empty(),
    }
}

/// The extension of a file name: what stands behind its last `.`, and the
/// placeholder `_` where the name holds no `.`.
pub open spec fn extension_of(file_name: Seq<char>) -> Seq<char> {
    match after_last(file_name, '.') {
        Some(extension) => extension,
        None => "_"@,
    }
}

/// The directory in which files of the category `file_type` are kept below
/// `download_dir`.
pub open spec fn destination_dir_of(download_dir: Seq<char>, file_type: FileType) -> Seq<char> {
    joined(download_dir, file_type.name())
}

/// The path at which the file `file_name` of the category `file_type` is kept
/// below `download_dir`.
pub open spec fn destination_path_of(
    download_dir: Seq<char>,
    file_type: FileType,
    file_name: Seq<char>,
) -> Seq<char> {
    joined(destination_dir_of(download_dir, file_type), file_name)
}

/// The download that stands for `url` before anything is known of it but
/// where it will go below `download_dir`.
pub open spec fn new_file(url: Seq<char>, download_dir: Seq<char>) -> FileView {
    let file_name = file_name_of(url);
    let extension = extension_of(file_name);
    let file_type = file_type_of(extension);
    FileView {
        id: 0,
        file_url: url,
        file_name,
        file_type,
        extension,
        destination_dir: destination_dir_of(download_dir, file_type),
        destination_path: destination_path_of(download_dir, file_type, file_name),
        file_size: 0,
        download_start_time: 0,
        download_stop_time: 0,
        download_duration: 0,
        download_status: DownloadStatus::Pending,
    }
}

/// The time from `start` to `stop`, held to the range of `i64`.
pub open spec fn elapsed_between(start: i64, stop: i64) -> i64 {
    if stop - start > i64::MAX {
        i64::MAX
    } else if stop - start < i64::MIN {
        i64::MIN
    } else {
        (stop - start) as i64
    }
}

/// The download that a stored record stands for. The duration is not
/// stored: it is the time between the record's two timestamps.
pub open spec fn file_of_record(r: RecordView) -> FileView {
    FileView {
        id: r.id,
        file_url: r.file_url,
        file_name: r.file_name,
        file_type: FileType::parse(r.file_type),
        extension: r.extension,
        destination_dir: r.destination_dir,
        destination_path: r.destination_path,
        file_size: r.file_size,
        download_start_time: r.download_start_time,
        download_stop_time: r.download_stop_time,
        download_duration: elapsed_between(r.download_start_time, r.download_stop_time),
        download_status: DownloadStatus::parse(r.download_status),
    }
}

/// The time from `start` to `stop`; where the difference does not fit, the
/// nearest value that does.
pub fn elapsed(start: i64, stop: i64) -> (r: i64)
    ensures
        r == elapsed_between(start, stop),
{
    match stop.checked_sub(start) {
        Some(d) => d,
        None => if stop >= start {
            i64::MAX
        } else {
            i64::MIN
        },
    }
}

/// The directory and the path for the file `file_name` of the category
/// `file_type`, below the download directory of `cfg`.
pub fn get_destination_path(file_name: &str, cfg: &Config, file_type: &FileType) -> (r: (
    String,
    String,
))
    ensures
        r.0@ == destination_dir_of(cfg.download_dir@, *file_type),
        r.1@ == destination_path_of(cfg.download_dir@, *file_type, file_name@),
{
    let category = file_type.to_string();
    let dir = join_path(cfg.download_dir.as_str(), category.as_str());
    let path = join_path(dir.as_str(), file_name);
    (dir, path)
}

impl File {
    /// Derives the download for `file_url`: its name, extension and category,
    /// and its place below the download directory of `cfg`.
    pub fn new(file_url: &str, cfg: &Config) -> (f: File)
        ensures
            f@ == new_file(file_url@, cfg.download_dir@),
    {
        let file_name: &str = match text_after_last(file_url, '/') {
            Some(name) => name,
            None => "",
        };
        let extension: &str = match text_after_last(file_name, '.') {
            Some(extension) => extension,
            None => "_",
        };
        proof {
            reveal_strlit("");
            assert(""@ =~= Seq::<char>::empty());
        }
        let file_type = get_file_type(extension);
        let (destination_dir, destination_path) = get_destination_path(file_name, cfg, &file_type);
        File {
            id: 0,
            file_url: String::from_str(file_url),
            file_name: String::from_str(file_name),
            file_type,
            extension: String::from_str(extension),
            destination_dir,
            destination_path,
            file_size: 0,
            download_start_time: 0,
            download_stop_time: 0,
            download_duration: 0,
            download_status: DownloadStatus::Pending,
        }
    }

    /// Turns a stored record back into a download.
    pub fn from(dr: DownloadRecord) -> (f: File)
        ensures
            f@ == file_of_record(dr@),
    {
        let file_type = FileType::from_string(dr.file_type.as_str());
        let download_status = DownloadStatus::from_string(dr.download_status.as_str());
        File {
            id: dr.id,
            file_url: dr.file_url,
            file_name: dr.file_name,
            file_type,
            extension: dr.extension,
            destination_dir: dr.destination_dir,
            destination_path: dr.destination_path,
            file_size: dr.file_size,
            download_start_time: dr.download_start_time,
            download_stop_time: dr.download_stop_time,
            download_duration: elapsed(dr.download_start_time, dr.download_stop_time),
            download_status,
        }
    }
}

/// The names of the categories, made known to the solver.
pub proof fn lemma_file_type_names()
    ensures
        forall|t: FileType| #![auto] t.name().len() >= 5 && t.name()[0] != '/' && t.name().last() != '/',
        forall|t: FileType, u: FileType| #![auto] t.name() == u.name() ==> t == u,
{
    reveal_strlit("Compressed");
    reveal_strlit("Videos");
    reveal_strlit("Audio");
    reveal_strlit("Documents");
    reveal_strlit("Programs");
    reveal_strlit("Images");
    reveal_strlit("Others");
    assert forall|t: FileType| #![auto]
        t.name().len() >= 5 && t.name()[0] != '/' && t.name().last() != '/' by {
        match t {
            FileType::Compressed => {},
            FileType::Videos => {},
            FileType::Audio => {},
            FileType::Documents => {},
            FileType::Programs => {},
            FileType::Images => {},
            FileType::Others => {},
        }
    }
    assert forall|t: FileType, u: FileType| #![auto] t.name() == u.name() implies t == u by {
        if t != u {
            assert(t.name()[0] != u.name()[0]);
        }
    }
}

/// A category written out as its name and read back is the same category.
pub proof fn lemma_file_type_round_trip(t: FileType)
    ensures
        FileType::parse(t.name()) == t,
{
    lemma_file_type_names();
    assert(forall|u: FileType| #![auto] t.name() == u.name() ==> t == u);
    assert(FileType::Compressed.name() == "Compressed"@);
    assert(FileType::Videos.name() == "Videos"@);
    assert(FileType::Audio.name() == "Audio"@);
    assert(FileType::Documents.name() == "Documents"@);
    assert(FileType::Programs.name() == "Programs"@);
    assert(FileType::Images.name() == "Images"@);
}

/// A text that is the name of no category is read as `Others`.
pub proof fn lemma_file_type_unknown_name(s: Seq<char>)
    requires
        forall|t: FileType| s != #[trigger] t.name(),
    ensures
        FileType::parse(s) == FileType::Others,
{
    assert(s != FileType::Compressed.name());
    assert(s != FileType::Videos.name());
    assert(s != FileType::Audio.name());
    assert(s != FileType::Documents.name());
    assert(s != FileType::Programs.name());
    assert(s != FileType::Images.name());
}

/// The names of the states of a download are five different texts.
pub proof fn lemma_download_status_names()
    ensures
        forall|t: DownloadStatus, u: DownloadStatus| #![auto] t.name() == u.name() ==> t == u,
{
    reveal_strlit("Pending");
    reveal_strlit("InProgress");
    reveal_strlit("Failed");
    reveal_strlit("Finished");
    reveal_strlit("Cancelled");
    assert forall|t: DownloadStatus, u: DownloadStatus| #![auto]
        t.name() == u.name() implies t == u by {
        if t != u {
            assert(t.name()[0] != u.name()[0] || t.name()[1] != u.name()[1]);
        }
    }
}

/// A state written out as its name and read back is the same state.
pub proof fn lemma_download_status_round_trip(t: DownloadStatus)
    ensures
        DownloadStatus::parse(t.name()) == t,
{
    lemma_download_status_names();
    assert(forall|u: DownloadStatus| #![auto] t.name() == u.name() ==> t == u);
    assert(DownloadStatus::Pending.name() == "Pending"@);
    assert(DownloadStatus::InProgress.name() == "InProgress"@);
    assert(DownloadStatus::Failed.name() == "Failed"@);
    assert(DownloadStatus::Finished.name() == "Finished"@);
    assert(DownloadStatus::Cancelled.name() == "Cancelled"@);
}

/// A text that is the name of no state is read as `Pending`.
pub proof fn lemma_download_status_unknown_name(s: Seq<char>)
    requires
        forall|t: DownloadStatus| s != #[trigger] t.name(),
    ensures
        DownloadStatus::parse(s) == DownloadStatus::Pending,
{
    assert(s != DownloadStatus::InProgress.name());
    assert(s != DownloadStatus::Failed.name());
    assert(s != DownloadStatus::Finished.name());
    assert(s != DownloadStatus::Cancelled.name());
}

/// The placeholder `_` is no extension of the six tables: it falls under
/// `Others`.
pub proof fn lemma_placeholder_is_unrecognised()
    ensures
        file_type_of("_"@) == FileType::Others,
{
    reveal_strlit("_");
    reveal_strlit("mp4");
    reveal_strlit("mkv");
    reveal_strlit("avi");
    reveal_strlit("mov");
    reveal_strlit("flv");
    reveal_strlit("webm");
    reveal_strlit("wmv");
    reveal_strlit("mpeg");
    reveal_strlit("mpg");
    reveal_strlit("3gp");
    reveal_strlit("zip");
    reveal_strlit("rar");
    reveal_strlit("7z");
    reveal_strlit("tar");
    reveal_strlit("gz");
    reveal_strlit("targz");
    reveal_strlit("tarbz2");
    reveal_strlit("tarxz");
    reveal_strlit("iso");
    reveal_strlit("xz");
    reveal_strlit("mp3");
    reveal_strlit("flac");
    reveal_strlit("wav");
    reveal_strlit("aac");
    reveal_strlit("ogg");
    reveal_strlit("m4a");
    reveal_strlit("wma");
    reveal_strlit("alac");
    reveal_strlit("opus");
    reveal_strlit("amr");
    reveal_strlit("pdf");
    reveal_strlit("docx");
    reveal_strlit("doc");
    reveal_strlit("txt");
    reveal_strlit("xlsx");
    reveal_strlit("pptx");
    reveal_strlit("ppt");
    reveal_strlit("odt");
    reveal_strlit("html");
    reveal_strlit("epub");
    reveal_strlit("csv");
    reveal_strlit("xml");
    reveal_strlit("exe");
    reveal_strlit("msi");
    reveal_strlit("bat");
    reveal_strlit("apk");
    reveal_strlit("dmg");
    reveal_strlit("bin");
    reveal_strlit("deb");
    reveal_strlit("rpm");
    reveal_strlit("jpg");
    reveal_strlit("jpeg");
    reveal_strlit("png");
    reveal_strlit("gif");
    reveal_strlit("bmp");
    reveal_strlit("tiff");
    reveal_strlit("webp");
    reveal_strlit("svg");
    reveal_strlit("ico");
    assert("_"@.len() == 1);
    assert("mp4"@.len() == 3);
    assert("mkv"@.len() == 3);
    assert("avi"@.len() == 3);
    assert("mov"@.len() == 3);
    assert("flv"@.len() == 3);
    assert("webm"@.len() == 4);
    assert("wmv"@.len() == 3);
    assert("mpeg"@.len() == 4);
    assert("mpg"@.len() == 3);
    assert("3gp"@.len() == 3);
    assert("zip"@.len() == 3);
    assert("rar"@.len() == 3);
    assert("7z"@.len() == 2);
    assert("tar"@.len() == 3);
    assert("gz"@.len() == 2);
    assert("targz"@.len() == 5);
    assert("tarbz2"@.len() == 6);
    assert("tarxz"@.len() == 5);
    assert("iso"@.len() == 3);
    assert("xz"@.len() == 2);
    assert("mp3"@.len() == 3);
    assert("flac"@.len() == 4);
    assert("wav"@.len() == 3);
    assert("aac"@.len() == 3);
    assert("ogg"@.len() == 3);
    assert("m4a"@.len() == 3);
    assert("wma"@.len() == 3);
    assert("alac"@.len() == 4);
    assert("opus"@.len() == 4);
    assert("amr"@.len() == 3);
    assert("pdf"@.len() == 3);
    assert("docx"@.len() == 4);
    assert("doc"@.len() == 3);
    assert("txt"@.len() == 3);
    assert("xlsx"@.len() == 4);
    assert("pptx"@.len() == 4);
    assert("ppt"@.len() == 3);
    assert("odt"@.len() == 3);
    assert("html"@.len() == 4);
    assert("epub"@.len() == 4);
    assert("csv"@.len() == 3);
    assert("xml"@.len() == 3);
    assert("exe"@.len() == 3);
    assert("msi"@.len() == 3);
    assert("bat"@.len() == 3);
    assert("apk"@.len() == 3);
    assert("dmg"@.len() == 3);
    assert("bin"@.len() == 3);
    assert("deb"@.len() == 3);
    assert("rpm"@.len() == 3);
    assert("jpg"@.len() == 3);
    assert("jpeg"@.len() == 4);
    assert("png"@.len() == 3);
    assert("gif"@.len() == 3);
    assert("bmp"@.len() == 3);
    assert("tiff"@.len() == 4);
    assert("webp"@.len() == 4);
    assert("svg"@.len() == 3);
    assert("ico"@.len() == 3);
}

/// A URL whose last segment holds no `.` gets the placeholder as its
/// extension and falls under `Others`. So does a URL that holds no `/`.
pub proof fn lemma_no_dot_is_others(url: Seq<char>, download_dir: Seq<char>)
    requires
        !file_name_of(url).contains('.'),
    ensures
        new_file(url, download_dir).extension == "_"@,
        new_file(url, download_dir).file_type == FileType::Others,
{
    lemma_after_last_is_free(file_name_of(url), '.');
    lemma_placeholder_is_unrecognised();
}

/// The file name of a URL holds no `/`. Where the file name holds a `.`, its
/// extension holds none.
pub proof fn lemma_file_name_has_no_separator(url: Seq<char>)
    ensures
        !file_name_of(url).contains('/'),
        file_name_of(url).contains('.') ==> !extension_of(file_name_of(url)).contains('.'),
{
    lemma_after_last_is_free(url, '/');
    lemma_after_last_is_free(file_name_of(url), '.');
    if after_last(url, '/') is None {
        assert(!Seq::<char>::empty().contains('/'));
    }
}

/// Whatever the URL, the download is kept below the download directory, in
/// the directory named after its category, under its file name. Where the
/// download directory is not empty and does not end with `/`, the path is
/// the directory, `/`, the category's name, `/` and the file name.
pub proof fn lemma_destination_below_download_dir(url: Seq<char>, download_dir: Seq<char>)
    ensures
        ({
            let f = new_file(url, download_dir);
            &&& f.destination_dir == joined(download_dir, f.file_type.name())
            &&& f.destination_path == joined(f.destination_dir, f.file_name)
            &&& download_dir.is_prefix_of(f.destination_dir)
            &&& f.destination_dir.is_prefix_of(f.destination_path)
            &&& f.destination_path == f.destination_dir + seq!['/'] + f.file_name
            &&& download_dir.len() > 0 && download_dir.last() != '/' ==> f.destination_path
                == download_dir + seq!['/'] + f.file_type.name() + seq!['/'] + f.file_name
        }),
{
    let f = new_file(url, download_dir);
    lemma_file_type_names();
    lemma_file_name_has_no_separator(url);
    let name = f.file_type.name();
    assert(name.len() >= 5 && name[0] != '/' && name.last() != '/');
    if f.file_name.len() > 0 && f.file_name[0] == '/' {
        assert(f.file_name.contains('/'));
    }
    assert(f.destination_dir.last() == name.last());
}

/// Deriving a download twice from one URL and one download directory gives
/// the same download.
pub proof fn lemma_new_is_a_function(a: File, b: File, url: Seq<char>, download_dir: Seq<char>)
    requires
        a@ == new_file(url, download_dir),
        b@ == new_file(url, download_dir),
    ensures
        a@ == b@,
{
}

} // verus!
