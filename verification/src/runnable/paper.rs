use vstd::prelude::*;
use vstd::string::StringExecFns;

use crate::helpers::jarapi::{download_url_of, get_download_url};
use crate::runnable::minecraft::{Minecraft, MinecraftView};
use crate::runnable::{
    download_views, file_init_views, Download, DownloadView, Features, FileContent,
    FileContentView, FileInit, FileInitView, Runnable,
};
use crate::Error;

verus! {

/// A Paper server: a Minecraft server patched to speak the Velocity
/// forwarding protocol, downloadable from the PaperMC API.
#[derive(Debug, Clone, PartialEq, Eq)]
pub struct Paper {
    pub minecraft: Minecraft,
    pub version: String,
    pub build: String,
}

pub struct PaperView {
    pub minecraft: MinecraftView,
    pub version: Seq<char>,
    pub build: Seq<char>,
}

impl View for Paper {
    type V = PaperView;

    open spec fn view(&self) -> PaperView {
        PaperView { minecraft: self.minecraft@, version: self.version@, build: self.build@ }
    }
}

impl Default for Paper {
    fn default() -> (r: Paper)
        ensures
            r@.minecraft.jar is None,
            r@.version == "1.19.3"@,
            r@.build == "latest"@,
    {
        let mut version = String::new();
        version.append("1.19.3");
        let mut build = String::new();
        build.append("latest");
        Paper { minecraft: Minecraft::default(), version, build }
    }
}

impl Paper {
    /// A Paper server of this version and build, run from `paper.jar`.
    pub fn new(version: &str, build: &str) -> (r: Paper)
        ensures
            r@.minecraft.jar == Some("paper.jar"@),
            r@.version == version@,
            r@.build == build@,
    {
        let mut jar = String::new();
        jar.append("paper.jar");
        let mut version_s = String::new();
        version_s.append(version);
        let mut build_s = String::new();
        build_s.append(build);
        Paper { minecraft: Minecraft { jar: Some(jar) }, version: version_s, build: build_s }
    }
}

impl Runnable for Paper {
    open spec fn spec_features(&self) -> Features {
        Features { velocity: true }
    }

    open spec fn spec_downloads(&self) -> Option<Seq<DownloadView>> {
        Some(
            seq![
                (DownloadView {
                    path: "paper.jar"@,
                    url: download_url_of("paper"@, self@.version, self@.build),
                    sha256: None,
                    force: false,
                }),
            ],
        )
    }

    open spec fn spec_files(&self) -> Seq<FileInitView> {
        self.minecraft.spec_files() + seq![
            (FileInitView { path: "paper.yml"@, content: FileContentView::DefaultPaperConfig }),
            (FileInitView { path: "eula.txt"@, content: FileContentView::Literal("eula=true\n"@) }),
        ]
    }

    open spec fn spec_start_args(&self, jvm_opts: Seq<char>) -> Seq<Seq<char>> {
        self.minecraft.spec_start_args(jvm_opts)
    }

    fn initialize(&self) -> (r: Result<Features, Error>) {
        Ok(Features { velocity: true })
    }

    fn download(&self) -> (r: Result<Vec<Download>, Error>) {
        let mut path = String::new();
        path.append("paper.jar");
        let url = get_download_url("paper", self.version.as_str(), self.build.as_str());
        let mut downloads: Vec<Download> = Vec::new();
        downloads.push(Download { path, url, sha256: None, force: false });
        proof {
            assert(download_views(downloads@) =~= self.spec_downloads()->0);
        }
        Ok(downloads)
    }

    fn configure(&self) -> (r: Result<Vec<FileInit>, Error>) {
        let mut files = match self.minecraft.configure() {
            Ok(f) => f,
            Err(e) => {
                return Err(e);
            },
        };
        let mut paper_path = String::new();
        paper_path.append("paper.yml");
        files.push(FileInit { path: paper_path, content: FileContent::DefaultPaperConfig });
        let mut eula_path = String::new();
        eula_path.append("eula.txt");
        let mut eula_text = String::new();
        eula_text.append("eula=true\n");
        files.push(FileInit { path: eula_path, content: FileContent::Literal(eula_text) });
        proof {
            assert(file_init_views(files@) =~= self.spec_files());
        }
        Ok(files)
    }

    fn start(&self, jvm_opts: &str) -> (r: Vec<String>) {
        self.minecraft.start(jvm_opts)
    }
}

} // verus!
