use mycelium::runnable::minecraft::Minecraft;
use mycelium::runnable::paper::Paper;
use mycelium::runnable::{FileContent, Runnable};

#[test]
fn paper_offers_velocity_forwarding() {
    let paper = Paper::new("1.19.3", "123");
    assert!(paper.initialize().expect("features").velocity);
    let minecraft = Minecraft::default();
    assert!(!minecraft.initialize().expect("features").velocity);
}

#[test]
fn paper_downloads_its_jar_from_papermc() {
    let paper = Paper::new("1.19.3", "123");
    let downloads = paper.download().expect("downloads");
    assert_eq!(downloads.len(), 1);
    assert_eq!(downloads[0].path, "paper.jar");
    assert_eq!(
        downloads[0].url,
        "https://papermc.io/api/v2/projects/paper/versions/1.19.3/builds/123/downloads/paper-1.19.3-123.jar"
    );
    assert_eq!(downloads[0].sha256, None);
    assert!(!downloads[0].force);
}

#[test]
fn vanilla_download_is_unsupported() {
    let minecraft = Minecraft::default();
    let err = minecraft.download().expect_err("vanilla must fail");
    assert_eq!(
        err.message(),
        "the vanilla Minecraft server is not supported"
    );
}

#[test]
fn paper_seeds_properties_config_and_eula() {
    let paper = Paper::new("1.19.3", "123");
    let files = paper.configure().expect("files");
    assert_eq!(files.len(), 3);
    assert_eq!(files[0].path, "server.properties");
    assert_eq!(files[0].content, FileContent::DefaultServerProperties);
    assert_eq!(files[1].path, "paper.yml");
    assert_eq!(files[1].content, FileContent::DefaultPaperConfig);
    assert_eq!(files[2].path, "eula.txt");
    assert_eq!(files[2].content, FileContent::Literal("eula=true\n".to_string()));
}

#[test]
fn start_args_split_jvm_options() {
    let paper = Paper::new("1.19.3", "123");
    assert_eq!(
        paper.start("-Xmx2G -Xms1G"),
        vec![
            "-Xmx2G".to_string(),
            "-Xms1G".to_string(),
            "-Dsun.net.inetaddr.ttl=0".to_string(),
            "-jar".to_string(),
            "paper.jar".to_string(),
        ]
    );
}

#[test]
fn start_args_without_jvm_options_fall_back_to_defaults() {
    let minecraft = Minecraft::default();
    assert_eq!(
        minecraft.start(""),
        vec![
            "-Dsun.net.inetaddr.ttl=0".to_string(),
            "-jar".to_string(),
            "server.jar".to_string(),
        ]
    );
}

#[test]
fn paper_defaults_to_latest_1_19_3() {
    let paper = Paper::default();
    assert_eq!(paper.version, "1.19.3");
    assert_eq!(paper.build, "latest");
    assert_eq!(paper.minecraft.jar, None);
}
