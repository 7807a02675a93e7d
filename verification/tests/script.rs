use versioninfo::{
    CargoEnv, CharacterSet, FileFlagMask, FileFlags, FileInfo, FileOS, FileType, Language,
    LinkState, RCString, SubTypeDriver, Version, VersionInfo,
};

fn no_flags() -> FileFlags {
    FileFlags {
        debug: false,
        patched: false,
        prerelease: false,
        privatebuild: false,
        infoinferred: false,
        specialbuild: false,
    }
}

fn sample_info(comment: Option<&str>) -> FileInfo {
    FileInfo {
        lang: Language::German,
        charset: CharacterSet::Unicode,
        comment: comment.map(|c| c.into()),
        company_name: "Acme".into(),
        file_description: "Tool".into(),
        file_version: "1.2.3".into(),
        internal_name: "tool".into(),
        legal_copyright: Some("(c) Acme".into()),
        legal_trademarks: None,
        original_filename: "tool.exe".into(),
        product_name: "Tool".into(),
        product_version: "1.2.3".into(),
        private_build: None,
        special_build: Some("special".into()),
    }
}

fn env(profile: &str) -> CargoEnv {
    CargoEnv {
        version_major: "1".to_string(),
        version_minor: "22".to_string(),
        version_patch: "333".to_string(),
        version_pre: "beta".to_string(),
        profile: profile.to_string(),
        description: "A tool".to_string(),
        version: "1.22.333-beta".to_string(),
        name: "tool".to_string(),
    }
}

#[test]
fn script_without_languages() {
    let info = VersionInfo {
        file_version: Version(1, 0, 0, 0),
        product_version: Version(2, 0, 0, 1),
        file_flag_mask: FileFlagMask::Win16,
        file_flags: no_flags(),
        file_os: FileOS::Windows32,
        file_type: FileType::Driver(SubTypeDriver::Printer),
        file_info: Vec::new(),
    };
    let expected = "// This resource script was autogenerated\n// Do not change manually!!!\n\
#include<winver.h>\n\
VS_VERSION_INFO VERSIONINFO\n\
FILEVERSION     1, 0, 0, 0\n\
PRODUCTVERSION  2, 0, 0, 1\n\
FILEFLAGSMASK   VS_FFI_FILEFLAGSMASK\n\
FILEFLAGS       0\n\
FILEOS          VOS__WINDOWS32\n\
FILETYPE        VFT_DRV\n\
FILESUBTYPE     VFT2_DRV_PRINTER\n\
END\n";
    let script = info.to_string();
    assert_eq!(script, expected);
    for word in ["BEGIN", "BLOCK", "VALUE", "StringFileInfo", "VarFileInfo"] {
        assert!(!script.contains(word));
    }
    assert!(script.ends_with("\nFILESUBTYPE     VFT2_DRV_PRINTER\nEND\n"));
}

#[test]
fn script_with_two_languages() {
    let mut second = sample_info(Some("note"));
    second.lang = Language::USEnglish;
    second.charset = CharacterSet::Multilingual;
    let info = VersionInfo {
        file_version: Version(1, 2, 3, 0),
        product_version: Version(1, 2, 3, 0),
        file_flag_mask: FileFlagMask::Custom(63),
        file_flags: FileFlags { debug: true, ..no_flags() },
        file_os: FileOS::NTWindows32,
        file_type: FileType::App,
        file_info: vec![sample_info(None), second],
    };
    let block = |name: &str, comment: Option<&str>| {
        let mut b = format!("  BLOCK \"{}\"\n  BEGIN\n", name);
        b += "   VALUE \"CompanyName\", \"Acme\\0\"\n";
        b += "   VALUE \"FileDescription\", \"Tool\\0\"\n";
        b += "   VALUE \"FileVersion\", \"1.2.3\\0\"\n";
        b += "   VALUE \"InternalName\", \"tool\\0\"\n";
        b += "   VALUE \"OriginalFilename\", \"tool.exe\\0\"\n";
        b += "   VALUE \"ProductName\", \"Tool\\0\"\n";
        b += "   VALUE \"ProductVersion\", \"1.2.3\\0\"\n";
        if let Some(c) = comment {
            b += &format!("   VALUE \"Comments\", \"{}\\0\"\n", c);
        }
        b += "   VALUE \"LegalCopyright\", \"(c) Acme\\0\"\n";
        b += "   VALUE \"SpecialBuild\", \"special\\0\"\n";
        b += "  END\n";
        b
    };
    let mut expected = String::from(
        "// This resource script was autogenerated\n// Do not change manually!!!\n\
#include<winver.h>\n\
VS_VERSION_INFO VERSIONINFO\n\
FILEVERSION     1, 2, 3, 0\n\
PRODUCTVERSION  1, 2, 3, 0\n\
FILEFLAGSMASK   63\n\
FILEFLAGS       VS_FF_DEBUG\n\
FILEOS          VOS_NT_WINDOWS32\n\
FILETYPE        VFT_APP\n\
FILESUBTYPE     0\n\
BEGIN\n BLOCK \"StringFileInfo\"\n BEGIN\n",
    );
    expected += &block("040704B0", None);
    expected += &block("040904E4", Some("note"));
    expected += " END\n\n BLOCK \"VarFileInfo\"\n BEGIN\n";
    expected += "  VALUE \"Translation\", 0x0407, 1200, 0x0409, 1252\n END\n";
    expected += "END\n";
    assert_eq!(info.to_string(), expected);
}

#[test]
fn from_cargo_env_fields() {
    let info = VersionInfo::from_cargo_env(&env("debug"));
    assert_eq!(info.file_version.to_string(), "1, 22, 333, 0");
    assert_eq!(info.product_version.to_string(), "1, 22, 333, 0");
    assert!(matches!(info.file_flag_mask, FileFlagMask::Win16));
    assert!(info.file_flags.debug);
    assert!(!info.file_flags.patched && !info.file_flags.prerelease);
    assert!(!info.file_flags.privatebuild && !info.file_flags.infoinferred);
    assert!(!info.file_flags.specialbuild);
    assert!(matches!(info.file_os, FileOS::Windows32));
    assert!(matches!(info.file_type, FileType::App));
    assert_eq!(info.file_info.len(), 1);
    let fi = &info.file_info[0];
    assert!(matches!(fi.lang, Language::USEnglish));
    assert!(matches!(fi.charset, CharacterSet::Multilingual));
    assert!(fi.comment.is_none());
    assert_eq!(fi.company_name.as_str(), "");
    assert_eq!(fi.file_description.as_str(), "A tool");
    assert_eq!(fi.file_version.as_str(), "1.22.333-beta");
    assert_eq!(fi.internal_name.as_str(), "tool");
    assert!(fi.legal_copyright.is_none());
    assert!(fi.legal_trademarks.is_none());
    assert_eq!(fi.original_filename.as_str(), "tool.exe");
    assert_eq!(fi.product_name.as_str(), "tool");
    assert_eq!(fi.product_version.as_str(), "1.22.333-beta");
    assert!(fi.private_build.is_none());
    assert!(fi.special_build.is_none());
}

#[test]
fn from_cargo_env_release_is_not_debug() {
    let info = VersionInfo::from_cargo_env(&env("release"));
    assert!(!info.file_flags.debug);
    let empty = CargoEnv {
        version_major: String::new(),
        version_minor: String::new(),
        version_patch: String::new(),
        version_pre: String::new(),
        profile: String::new(),
        description: String::new(),
        version: String::new(),
        name: String::new(),
    };
    let info = VersionInfo::from_cargo_env(&empty);
    assert!(info.file_flags.debug);
    assert_eq!(info.file_version.to_string(), "0, 0, 0, 0");
    assert_eq!(info.file_info[0].original_filename.as_str(), ".exe");
}

#[test]
fn from_cargo_env_ex_optional_strings() {
    let info = VersionInfo::from_cargo_env_ex(
        &env("release"),
        Some("a comment"),
        Some("Acme"),
        Some("(c) Acme"),
        Some("Acme TM"),
    );
    let fi = &info.file_info[0];
    assert_eq!(fi.comment.as_ref().unwrap().as_str(), "a comment");
    assert_eq!(fi.company_name.as_str(), "Acme");
    assert_eq!(fi.legal_copyright.as_ref().unwrap().as_str(), "(c) Acme");
    assert_eq!(fi.legal_trademarks.as_ref().unwrap().as_str(), "Acme TM");
    let script = info.to_string();
    assert!(script.contains("   VALUE \"Comments\", \"a comment\\0\"\n"));
    assert!(script.contains("  VALUE \"Translation\", 0x0409, 1252\n"));
}

#[test]
fn only_one_link() {
    let mut state = LinkState::new();
    assert_eq!(state.begin(), Ok(()));
    state.finish();
    assert_eq!(state.begin(), Err("Only one versioninfo can be linked"));
    state.finish();
    assert_eq!(state.begin(), Err("Only one versioninfo can be linked"));
}
