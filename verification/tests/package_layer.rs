use plum::architecture::Architecture;
use plum::block::BlockError;
use plum::channel::Channel;
use plum::elf::Elf;
use plum::package::Package;
use plum::plpm::{PlpmFile, PlpmPackage};
use plum::repository::{Repository, RepositoryManager};
use plum::HalError;

#[test]
fn architecture_names() {
    assert_eq!(Architecture::X86_64.as_str(), "x86_64");
    assert_eq!(Architecture::AArch64.as_str(), "aarch64");
    assert_eq!(Architecture::RiscV64.as_str(), "riscv64");
    assert_eq!(Architecture::Prum64.as_str(), "prum64");
    assert_eq!(
        Architecture::supported_architectures(),
        vec![
            Architecture::X86_64,
            Architecture::AArch64,
            Architecture::RiscV64,
            Architecture::Prum64
        ]
    );
}

#[test]
fn channel_names_and_glyphs() {
    assert_eq!(Channel::Stable.name(), "stable");
    assert_eq!(Channel::Dev.name(), "dev");
    assert_eq!(Channel::Stable.emoji(), "🍑");
    assert_eq!(Channel::Testing.emoji(), "🌸");
    assert_eq!(Channel::Unstable.display_name(), "Seed (Unstable)");
    assert_eq!(Channel::Dev.display_name(), "Development");
    assert_eq!(
        Channel::all_channels(),
        vec![Channel::Stable, Channel::Testing, Channel::Unstable, Channel::Dev]
    );
}

fn sample_package() -> Package {
    Package {
        name: "coreutils".to_string(),
        version: "9.4".to_string(),
        description: Some("basic tools".to_string()),
        author: None,
        license: Some("MIT".to_string()),
        dependencies: vec!["libc".to_string()],
        architecture: Architecture::AArch64,
        channel: Channel::Testing,
        file: "coreutils-9.4.plpm".to_string(),
        checksum: "00".to_string(),
        signature: Some("sig".to_string()),
        size: 1000,
        install_size: 2000,
    }
}

#[test]
fn plpm_container_wraps_a_package() {
    let files = vec![PlpmFile {
        path: "/bin/true".to_string(),
        data: vec![1, 2, 3],
        permissions: 0o755,
        checksum: "aa".to_string(),
    }];
    let pkg = sample_package();
    let container = PlpmPackage::new(pkg, files);
    assert_eq!(&container.header.magic, b"PLPM");
    assert_eq!(container.header.version, 1);
    assert_eq!(container.header.architecture, Architecture::AArch64);
    assert_eq!(container.header.channel, Channel::Testing);
    assert!(container.header.compressed);
    assert_eq!(container.metadata.name, "coreutils");
    assert_eq!(container.metadata.version, "9.4");
    assert_eq!(container.metadata.architectures, vec![Architecture::AArch64]);
    assert_eq!(container.metadata.channels, vec![Channel::Testing]);
    assert!(container.metadata.build_script.is_none());
    assert!(container.metadata.sandbox_config.is_none());
    assert_eq!(container.files.len(), 1);
    assert_eq!(container.files[0].data, vec![1, 2, 3]);
    assert!(container.scripts.is_none());
    assert_eq!(container.signature, Some("sig".to_string()));
}

#[test]
fn repository_lookup_is_a_stub() {
    let repo = Repository::new(
        "https://pkgs.example/stable".to_string(),
        "main".to_string(),
        Channel::Stable,
        vec![Architecture::X86_64, Architecture::AArch64],
    );
    assert_eq!(repo.url, "https://pkgs.example/stable");
    assert_eq!(repo.name, "main");
    assert_eq!(repo.channel, Channel::Stable);
    assert_eq!(repo.supported_architectures().len(), 2);
    assert!(repo.find_package("coreutils", None).unwrap().is_none());

    let mut manager = RepositoryManager::new();
    assert!(manager.get_repositories().is_empty());
    manager.add_repository(repo);
    assert_eq!(manager.get_repositories().len(), 1);
    assert!(manager.find_package_across_repos("coreutils", Some("9.4")).unwrap().is_none());
}

#[test]
fn canonical_names_parse_back() {
    assert_eq!("x86_64".parse::<Architecture>(), Ok(Architecture::X86_64));
    assert_eq!("aarch64".parse::<Architecture>(), Ok(Architecture::AArch64));
    assert_eq!("riscv64".parse::<Architecture>(), Ok(Architecture::RiscV64));
    assert_eq!("prum64".parse::<Architecture>(), Ok(Architecture::Prum64));
    assert_eq!(
        "sparc".parse::<Architecture>(),
        Err("Unknown architecture: sparc".to_string())
    );
    assert_eq!("stable".parse::<Channel>(), Ok(Channel::Stable));
    assert_eq!("testing".parse::<Channel>(), Ok(Channel::Testing));
    assert_eq!("unstable".parse::<Channel>(), Ok(Channel::Unstable));
    assert_eq!("dev".parse::<Channel>(), Ok(Channel::Dev));
    assert_eq!("nightly".parse::<Channel>(), Err("Unknown channel: nightly".to_string()));
}

#[test]
fn fetched_index_is_empty_and_stamped() {
    let repo = Repository::new(
        "https://pkgs.example/testing".to_string(),
        "aux".to_string(),
        Channel::Testing,
        vec![Architecture::X86_64],
    );
    let index = repo.fetch_index("1700000000".to_string());
    assert!(index.packages.is_empty());
    assert_eq!(index.generated, "1700000000");
    assert_eq!(index.channel, Channel::Testing);
}

#[test]
fn elf_loader_is_a_placeholder() {
    let elf = Elf::load(&[0x7F, b'E', b'L', b'F']).unwrap();
    assert_eq!(elf.entry_offset, 0);
}

#[test]
fn block_errors_map_onto_hal_errors() {
    assert_eq!(HalError::from(BlockError::DeviceError), HalError::DeviceNotFound);
    assert_eq!(HalError::from(BlockError::Timeout), HalError::Timeout);
    assert_eq!(HalError::from(BlockError::InvalidParameter), HalError::InvalidParameter);
    assert_eq!(HalError::from(BlockError::NotSupported), HalError::NotSupported);
    assert_eq!(HalError::from(BlockError::IoError), HalError::IoError);
    assert_eq!(HalError::from("anything"), HalError::IoError);
    assert_eq!(BlockError::from("anything"), BlockError::IoError);
}

#[test]
fn default_uart_bring_up_succeeds() {
    assert_eq!(plum::uart::init_default_uart(), Ok(()));
}
