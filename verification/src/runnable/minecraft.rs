use vstd::prelude::*;
use vstd::string::StringExecFns;

use crate::runnable::{
    file_init_views, str_views, Download, DownloadView, Features, FileContent, FileContentView,
    FileInit, FileInitView, Runnable,
};
use crate::text::split_terminated;
use crate::text::split_terminator_char;
use crate::Error;

verus! {

/// A vanilla Minecraft server, or the common behaviour under a modified
/// one: seed `server.properties` and fork the JVM on the server jar.
#[derive(Debug, Clone, PartialEq, Eq)]
pub struct Minecraft {
    /// The jar to run; `server.jar` when absent.
    pub jar: Option<String>,
}

pub struct MinecraftView {
    pub jar: Option<Seq<char>>,
}

impl View for Minecraft {
    type V = MinecraftView;

    open spec fn view(&self) -> MinecraftView {
        MinecraftView { jar: crate::objects::opt_view(self.jar) }
    }
}

impl Default for Minecraft {
    fn default() -> (r: Minecraft)
        ensures
            r.jar is None,
    {
        Minecraft { jar: None }
    }
}

/// The argument list of the server process: the space-separated JVM options
/// taken apart, the DNS-caching switch, and the jar to run.
pub open spec fn start_args_of(jar: Option<Seq<char>>, jvm_opts: Seq<char>) -> Seq<Seq<char>> {
    split_terminated(jvm_opts, ' ') + seq![
        "-Dsun.net.inetaddr.ttl=0"@,
        "-jar"@,
        match jar {
            Some(j) => j,
            None => "server.jar"@,
        },
    ]
}

impl Runnable for Minecraft {
    open spec fn spec_features(&self) -> Features {
        Features { velocity: false }
    }

    open spec fn spec_downloads(&self) -> Option<Seq<DownloadView>> {
        None
    }

    open spec fn spec_files(&self) -> Seq<FileInitView> {
        seq![
            (FileInitView {
                path: "server.properties"@,
                content: FileContentView::DefaultServerProperties,
            }),
        ]
    }

    open spec fn spec_start_args(&self, jvm_opts: Seq<char>) -> Seq<Seq<char>> {
        start_args_of(self@.jar, jvm_opts)
    }

    fn initialize(&self) -> (r: Result<Features, Error>) {
        Ok(Features { velocity: false })
    }

    /// The vanilla server has no download source wired up.
    fn download(&self) -> (r: Result<Vec<Download>, Error>) {
        let mut m = String::new();
        m.append("the vanilla Minecraft server is not supported");
        Err(Error::MyceliumError(m))
    }

    fn configure(&self) -> (r: Result<Vec<FileInit>, Error>) {
        let mut path = String::new();
        path.append("server.properties");
        let mut files: Vec<FileInit> = Vec::new();
        files.push(FileInit { path, content: FileContent::DefaultServerProperties });
        proof {
            assert(file_init_views(files@) =~= self.spec_files());
        }
        Ok(files)
    }

    fn start(&self, jvm_opts: &str) -> (r: Vec<String>) {
        let mut args = split_terminator_char(jvm_opts, ' ');
        let mut ttl = String::new();
        ttl.append("-Dsun.net.inetaddr.ttl=0");
        args.push(ttl);
        let mut jar_flag = String::new();
        jar_flag.append("-jar");
        args.push(jar_flag);
        let jar = match &self.jar {
            Some(j) => j.clone(),
            None => {
                let mut d = String::new();
                d.append("server.jar");
                d
            },
        };
        args.push(jar);
        proof {
            assert(str_views(args@) =~= start_args_of(self@.jar, jvm_opts@));
        }
        args
    }
}

} // verus!
