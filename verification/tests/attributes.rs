use versioninfo::{
    FileFlagMask, FileFlags, FileOS, FileType, RCString, SubTypeDriver, SubTypeFont, Version,
};

fn flags(
    debug: bool,
    patched: bool,
    prerelease: bool,
    privatebuild: bool,
    infoinferred: bool,
    specialbuild: bool,
) -> FileFlags {
    FileFlags { debug, patched, prerelease, privatebuild, infoinferred, specialbuild }
}

#[test]
fn rc_string_is_quoted_with_null() {
    let s: RCString = "Acme".into();
    assert_eq!(s.to_string(), "\"Acme\\0\"");
    let t: RCString = String::from("").into();
    assert_eq!(t.to_string(), "\"\\0\"");
    assert_eq!(RCString::new("a b").as_str(), "a b");
}

#[test]
fn rc_string_escapes_quotes_and_backslashes() {
    let s: RCString = "a\"b".into();
    assert_eq!(s.as_str(), "a\"b");
    assert_eq!(s.to_string(), "\"a\"\"b\\0\"");
    let t: RCString = String::from("C:\\dir\\x").into();
    assert_eq!(t.to_string(), "\"C:\\\\dir\\\\x\\0\"");
    let u = RCString::new("\"\\\"");
    assert_eq!(u.to_string(), "\"\"\"\\\\\"\"\\0\"");
    let v: RCString = "ünï\"".into();
    assert_eq!(v.to_string(), "\"ünï\"\"\\0\"");
}

#[test]
fn version_is_four_numbers() {
    assert_eq!(Version(1, 2, 3, 4).to_string(), "1, 2, 3, 4");
    assert_eq!(Version(0, 0, 0, 0).to_string(), "0, 0, 0, 0");
    assert_eq!(Version(65535, 10, 100, 7).to_string(), "65535, 10, 100, 7");
}

#[test]
fn flag_mask_text() {
    assert_eq!(FileFlagMask::Win16.to_string(), "VS_FFI_FILEFLAGSMASK");
    assert_eq!(FileFlagMask::Custom(63).to_string(), "63");
}

#[test]
fn no_flag_is_zero() {
    assert_eq!(flags(false, false, false, false, false, false).to_string(), "0");
}

#[test]
fn flags_are_joined_in_order() {
    assert_eq!(flags(true, false, false, false, false, false).to_string(), "VS_FF_DEBUG");
    assert_eq!(flags(false, true, false, false, false, false).to_string(), "VS_FF_PATCHED");
    assert_eq!(flags(false, false, true, false, false, false).to_string(), "VS_FF_PRERELEASE");
    assert_eq!(
        flags(true, false, false, false, false, true).to_string(),
        "VS_FF_DEBUG | VS_FF_SPECIALBUILD"
    );
    assert_eq!(
        flags(true, true, true, true, true, true).to_string(),
        "VS_FF_DEBUG | VS_FF_PATCHED | VS_FF_PRERELEASE | VS_FF_PRIVATEBUILD | VS_FF_INFOINFERRED | VS_FF_SPECIALBUILD"
    );
}

#[test]
fn file_os_text() {
    assert_eq!(FileOS::Windows32.to_string(), "VOS__WINDOWS32");
    assert_eq!(FileOS::NTWindows32.get_value(), "VOS_NT_WINDOWS32");
    assert_eq!(FileOS::Unknown.to_string(), "VOS_UNKNOWN");
    assert_eq!(FileOS::Custom(262148).to_string(), "262148");
}

#[test]
fn file_type_text_and_subtype() {
    assert_eq!(FileType::App.to_string(), "VFT_APP");
    assert_eq!(FileType::App.get_subvalue(), "0");
    assert_eq!(FileType::StaticLibrary.get_value(), "VFT_STATIC_LIB");
    let d = FileType::Driver(SubTypeDriver::Keyboard);
    assert_eq!(d.to_string(), "VFT_DRV");
    assert_eq!(d.get_subvalue(), "VFT2_DRV_KEYBOARD");
    let f = FileType::Font(SubTypeFont::TrueTypeFont);
    assert_eq!(f.get_value(), "VFT_FONT");
    assert_eq!(f.get_subvalue(), "VFT2_FONT_TRUETYPE");
    let c = FileType::Custom(9, 12);
    assert_eq!(c.to_string(), "9");
    assert_eq!(c.get_subvalue(), "12");
    assert_eq!(FileType::Driver(SubTypeDriver::Custom(44)).get_subvalue(), "44");
    assert_eq!(SubTypeDriver::VersionedPrinter.to_string(), "VFT2_DRV_VERSIONED_PRINTER");
    assert_eq!(SubTypeFont::Custom(5).to_string(), "5");
}

#[test]
fn os_names_are_distinct() {
    let all = vec![
        FileOS::Unknown,
        FileOS::Dos,
        FileOS::OS216Bit,
        FileOS::OS232Bit,
        FileOS::NT,
        FileOS::WinCE,
        FileOS::Base,
        FileOS::Windows16,
        FileOS::PM16,
        FileOS::PM32,
        FileOS::Windows32,
        FileOS::DosWindows16,
        FileOS::DosWindows32,
        FileOS::OS216BitPM16,
        FileOS::OS232BitPM32,
        FileOS::NTWindows32,
    ];
    let mut seen = std::collections::HashSet::new();
    for os in all {
        let v = os.get_value();
        assert!(v.starts_with("VOS_"));
        assert!(seen.insert(v));
    }
    assert_eq!(seen.len(), 16);
}

#[test]
fn driver_names_are_distinct() {
    let all = vec![
        SubTypeDriver::Unknown,
        SubTypeDriver::Printer,
        SubTypeDriver::Keyboard,
        SubTypeDriver::Language,
        SubTypeDriver::Display,
        SubTypeDriver::Mouse,
        SubTypeDriver::Network,
        SubTypeDriver::System,
        SubTypeDriver::Installable,
        SubTypeDriver::Sound,
        SubTypeDriver::Comm,
        SubTypeDriver::InputMethod,
        SubTypeDriver::VersionedPrinter,
    ];
    let mut seen = std::collections::HashSet::new();
    for d in all {
        let unknown = matches!(d, SubTypeDriver::Unknown);
        let v = d.get_value();
        if unknown {
            assert_eq!(v, "VFT2_UNKNOWN");
        } else {
            assert!(v.starts_with("VFT2_DRV_"));
        }
        assert!(seen.insert(v));
    }
    assert_eq!(seen.len(), 13);
}
