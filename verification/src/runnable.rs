use vstd::prelude::*;

pub mod minecraft;
pub mod paper;

use crate::objects::opt_view;

verus! {

/// One file to fetch before the server starts.
#[derive(Debug, Clone, PartialEq, Eq)]
pub struct Download {
    /// Where to put the file, relative to the server root.
    pub path: String,
    /// Where to fetch it from.
    pub url: String,
    /// Expected digest of the file, when one is known.
    pub sha256: Option<String>,
    /// Fetch even when the file already exists.
    pub force: bool,
}

pub struct DownloadView {
    pub path: Seq<char>,
    pub url: Seq<char>,
    pub sha256: Option<Seq<char>>,
    pub force: bool,
}

impl View for Download {
    type V = DownloadView;

    open spec fn view(&self) -> DownloadView {
        DownloadView {
            path: self.path@,
            url: self.url@,
            sha256: opt_view(self.sha256),
            force: self.force,
        }
    }
}

/// What a server kind offers.
#[derive(Debug, Clone, Copy, PartialEq, Eq, Structural)]
pub struct Features {
    /// Whether the server speaks the Velocity forwarding protocol.
    pub velocity: bool,
}

/// What to write into a file that does not exist yet. The default
/// configuration texts are assets of the runner image, resolved by whoever
/// executes the plan.
#[derive(Debug, Clone, PartialEq, Eq)]
pub enum FileContent {
    /// Exactly this text.
    Literal(String),
    /// The bundled default Paper configuration.
    DefaultPaperConfig,
    /// The bundled default server.properties.
    DefaultServerProperties,
}

pub enum FileContentView {
    Literal(Seq<char>),
    DefaultPaperConfig,
    DefaultServerProperties,
}

impl View for FileContent {
    type V = FileContentView;

    open spec fn view(&self) -> FileContentView {
        match self {
            FileContent::Literal(s) => FileContentView::Literal(s@),
            FileContent::DefaultPaperConfig => FileContentView::DefaultPaperConfig,
            FileContent::DefaultServerProperties => FileContentView::DefaultServerProperties,
        }
    }
}

/// One file to create under the server root when it is absent.
#[derive(Debug, Clone, PartialEq, Eq)]
pub struct FileInit {
    /// Path relative to the server root.
    pub path: String,
    /// What to write when the file does not exist.
    pub content: FileContent,
}

pub struct FileInitView {
    pub path: Seq<char>,
    pub content: FileContentView,
}

impl View for FileInit {
    type V = FileInitView;

    open spec fn view(&self) -> FileInitView {
        FileInitView { path: self.path@, content: self.content@ }
    }
}

pub open spec fn download_views(v: Seq<Download>) -> Seq<DownloadView> {
    v.map_values(|d: Download| d@)
}

pub open spec fn file_init_views(v: Seq<FileInit>) -> Seq<FileInitView> {
    v.map_values(|f: FileInit| f@)
}

pub open spec fn str_views(v: Seq<String>) -> Seq<Seq<char>> {
    v.map_values(|s: String| s@)
}

/// Some kind of game server. Each method computes a plan — features,
/// downloads, files to seed, the argument list of the server process — and
/// whoever runs the server carries the plan out.
pub trait Runnable {
    /// The features this kind offers.
    spec fn spec_features(&self) -> Features;

    /// The downloads to assert before configuring, or nothing when this
    /// kind cannot be downloaded.
    spec fn spec_downloads(&self) -> Option<Seq<DownloadView>>;

    /// The files to seed under the server root.
    spec fn spec_files(&self) -> Seq<FileInitView>;

    /// The argument list of the server process, given the space-separated
    /// JVM options.
    spec fn spec_start_args(&self, jvm_opts: Seq<char>) -> Seq<Seq<char>>;

    /// Any initial initialization work; reports the features available.
    fn initialize(&self) -> (r: Result<Features, crate::Error>)
        ensures
            r is Ok,
            r->Ok_0 == self.spec_features(),
    ;

    /// The downloads to be asserted before running configure.
    fn download(&self) -> (r: Result<Vec<Download>, crate::Error>)
        ensures
            r is Ok <==> self.spec_downloads() is Some,
            r is Ok ==> download_views(r->Ok_0@) == self.spec_downloads()->0,
    ;

    /// The configuration files to create (when absent) under the server
    /// root.
    fn configure(&self) -> (r: Result<Vec<FileInit>, crate::Error>)
        ensures
            r is Ok,
            file_init_views(r->Ok_0@) == self.spec_files(),
    ;

    /// The argument list of the process that runs the server.
    fn start(&self, jvm_opts: &str) -> (r: Vec<String>)
        ensures
            str_views(r@) == self.spec_start_args(jvm_opts@),
    ;
}

} // verus!
