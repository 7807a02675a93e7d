//! The version information of an executable and its resource script.
use vstd::prelude::*;

pub use crate::attributes::{
    FileFlagMask, FileFlags, FileOS, FileType, RCString, SubTypeDriver, SubTypeFont,
    Version,
};
pub use crate::codes::{CharacterSet, Language};
use crate::decimal::{
    all_digits, decimal, digits_value, lemma_parse_decimal, lemma_parse_refuses,
    lemma_parse_refuses_large, parse_u16, parsed_u16, unreadable,
};

verus! {

/// The StringFileInfo block of one language. A version information may hold
/// several of them, one for each language.
pub struct FileInfo {
    pub lang: Language,
    pub charset: CharacterSet,
    ///Additional information that should be displayed for diagnostic purposes.
    pub comment: Option<RCString>,
    ///Company that produced the file—for example, "Microsoft Corporation" or "Standard Microsystems Corporation, Inc." This string is required.
    pub company_name: RCString,
    ///File description to be presented to users. This string may be displayed in a list box when the user is choosing files to install—for example, "Keyboard Driver for AT-Style Keyboards". This string is required.
    pub file_description: RCString,
    ///Version number of the file—for example, "3.10" or "5.00.RC2". This string is required.
    pub file_version: RCString,
    ///Internal name of the file, if one exists—for example, a module name if the file is a dynamic-link library. If the file has no internal name, this string should be the original filename, without extension. This string is required.
    pub internal_name: RCString,
    ///Copyright notices that apply to the file. This should include the full text of all notices, legal symbols, copyright dates, and so on. This string is optional.
    pub legal_copyright: Option<RCString>,
    ///Trademarks and registered trademarks that apply to the file. This should include the full text of all notices, legal symbols, trademark numbers, and so on. This string is optional.
    pub legal_trademarks: Option<RCString>,
    ///Original name of the file, not including a path. This information enables an application to determine whether a file has been renamed by a user. The format of the name depends on the file system for which the file was created. This string is required.
    pub original_filename: RCString,
    ///Name of the product with which the file is distributed. This string is required.
    pub product_name: RCString,
    ///Version of the product with which the file is distributed—for example, "3.10" or "5.00.RC2". This string is required.
    pub product_version: RCString,
    ///Information about a private version of the file—for example, "Built by TESTER1 on \TESTBED". This string should be present only if VS_FF_PRIVATEBUILD is specified in the fileflags parameter of the root block.
    pub private_build: Option<RCString>,
    ///Text that specifies how this version of the file differs from the standard version—for example, "Private build for TESTER1 solving mouse problems on M250 and M250E computers". This string should be present only if VS_FF_SPECIALBUILD is specified in the fileflags parameter of the root block.
    pub special_build: Option<RCString>,
}

/// The line of a value: its name, then its quoted string.
pub open spec fn value_line(name: Seq<char>, value: RCString) -> Seq<char> {
    "   VALUE \""@ + name + "\", "@ + value.quoted() + "\n"@
}

/// The line of an optional value, or nothing where it is absent.
pub open spec fn optional_line(name: Seq<char>, value: Option<RCString>) -> Seq<char> {
    match value {
        Some(t) => value_line(name, t),
        None => Seq::empty(),
    }
}

/// Appends the line of a value.
fn push_value_line(s: &mut String, name: &str, value: &RCString)
    ensures
        final(s)@ == old(s)@ + value_line(name@, *value),
{
    let ghost start = s@;
    s.append("   VALUE \"");
    s.append(name);
    s.append("\", ");
    let q = value.to_string();
    s.append(q.as_str());
    s.append("\n");
    assert(s@ =~= start + value_line(name@, *value));
}

/// Appends the line of an optional value, where it is present.
fn push_optional_line(s: &mut String, name: &str, value: &Option<RCString>)
    ensures
        final(s)@ == old(s)@ + optional_line(name@, *value),
{
    match value {
        Some(t) => push_value_line(s, name, t),
        None => {
            assert(s@ =~= s@ + Seq::<char>::empty());
        },
    }
}

impl FileInfo {
    /// The name of the block: the language and the code page, in hexadecimal.
    pub open spec fn block_name(self) -> Seq<char> {
        self.lang.hex_code() + self.charset.hex_code()
    }

    /// The block of strings of this language in the resource script.
    pub open spec fn string_block(self) -> Seq<char> {
        "  BLOCK \""@ + self.block_name() + "\"\n  BEGIN\n"@
            + value_line("CompanyName"@, self.company_name)
            + value_line("FileDescription"@, self.file_description)
            + value_line("FileVersion"@, self.file_version)
            + value_line("InternalName"@, self.internal_name)
            + value_line("OriginalFilename"@, self.original_filename)
            + value_line("ProductName"@, self.product_name)
            + value_line("ProductVersion"@, self.product_version)
            + optional_line("Comments"@, self.comment)
            + optional_line("LegalCopyright"@, self.legal_copyright)
            + optional_line("LegalTrademarks"@, self.legal_trademarks)
            + optional_line("PrivateBuild"@, self.private_build)
            + optional_line("SpecialBuild"@, self.special_build) + "  END\n"@
    }

    /// The entry of this language in the translation table: the language in
    /// hexadecimal and the code page in decimal.
    pub open spec fn translation(self) -> Seq<char> {
        ", 0x"@ + self.lang.hex_code() + ", "@ + self.charset.decimal_code()
    }

    /// Appends the block of strings of this language.
    pub fn push_string_block(&self, s: &mut String)
        ensures
            final(s)@ == old(s)@ + self.string_block(),
    {
        let mut b = String::from_str("  BLOCK \"");
        b.append(self.lang.hex_str());
        b.append(self.charset.hex_str());
        b.append("\"\n  BEGIN\n");
        assert(b@ =~= "  BLOCK \""@ + self.block_name() + "\"\n  BEGIN\n"@);
        push_value_line(&mut b, "CompanyName", &self.company_name);
        push_value_line(&mut b, "FileDescription", &self.file_description);
        push_value_line(&mut b, "FileVersion", &self.file_version);
        push_value_line(&mut b, "InternalName", &self.internal_name);
        push_value_line(&mut b, "OriginalFilename", &self.original_filename);
        push_value_line(&mut b, "ProductName", &self.product_name);
        push_value_line(&mut b, "ProductVersion", &self.product_version);
        push_optional_line(&mut b, "Comments", &self.comment);
        push_optional_line(&mut b, "LegalCopyright", &self.legal_copyright);
        push_optional_line(&mut b, "LegalTrademarks", &self.legal_trademarks);
        push_optional_line(&mut b, "PrivateBuild", &self.private_build);
        push_optional_line(&mut b, "SpecialBuild", &self.special_build);
        b.append("  END\n");
        assert(b@ == self.string_block());
        s.append(b.as_str());
    }

    /// Appends the entry of this language in the translation table.
    pub fn push_translation(&self, s: &mut String)
        ensures
            final(s)@ == old(s)@ + self.translation(),
    {
        let ghost start = s@;
        s.append(", 0x");
        s.append(self.lang.hex_str());
        s.append(", ");
        s.append(self.charset.decimal_str());
        assert(s@ =~= start + self.translation());
    }
}

/// The blocks of strings of all the languages, in order.
pub open spec fn string_blocks(infos: Seq<FileInfo>) -> Seq<char>
    decreases infos.len(),
{
    if infos.len() == 0 {
        Seq::empty()
    } else {
        string_blocks(infos.drop_last()) + infos.last().string_block()
    }
}

/// The entries of all the languages in the translation table, in order.
pub open spec fn translations(infos: Seq<FileInfo>) -> Seq<char>
    decreases infos.len(),
{
    if infos.len() == 0 {
        Seq::empty()
    } else {
        translations(infos.drop_last()) + infos.last().translation()
    }
}

/// The version information of an executable, which is written as a
/// resource script. Only one of them can be linked into an executable.
pub struct VersionInfo {
    pub file_version: Version,
    pub product_version: Version,
    pub file_flag_mask: FileFlagMask,
    pub file_flags: FileFlags,
    pub file_os: FileOS,
    pub file_type: FileType,
    pub file_info: Vec<FileInfo>,
}

/// The two comment lines that open a resource script.
pub open spec fn script_banner() -> Seq<char> {
    "// This resource script was autogenerated\n// Do not change manually!!!\n"@
}

impl VersionInfo {
    /// The fixed part of the resource script: everything up to the line of
    /// the file subtype.
    pub open spec fn fixed_part(self) -> Seq<char> {
        script_banner() + "#include<winver.h>\n"@ + "VS_VERSION_INFO VERSIONINFO\n"@
            + "FILEVERSION     "@ + self.file_version.rendered() + "\n"@
            + "PRODUCTVERSION  "@ + self.product_version.rendered() + "\n"@
            + "FILEFLAGSMASK   "@ + self.file_flag_mask.rendered() + "\n"@
            + "FILEFLAGS       "@ + self.file_flags.rendered() + "\n"@
            + "FILEOS          "@ + self.file_os.value_text() + "\n"@
            + "FILETYPE        "@ + self.file_type.value_text() + "\n"@
            + "FILESUBTYPE     "@ + self.file_type.subvalue_text() + "\n"@
    }

    /// The blocks of the languages: the StringFileInfo block with one block
    /// of strings for each language, then the VarFileInfo block with the
    /// translation table. Where there is no language, there is nothing.
    pub open spec fn language_part(self) -> Seq<char> {
        if self.file_info@.len() > 0 {
            "BEGIN\n BLOCK \"StringFileInfo\"\n BEGIN\n"@ + string_blocks(self.file_info@)
                + " END\n\n"@ + " BLOCK \"VarFileInfo\"\n BEGIN\n"@ + "  VALUE \"Translation\""@
                + translations(self.file_info@) + "\n END\n"@
        } else {
            Seq::empty()
        }
    }

    /// The whole resource script.
    pub open spec fn rc_script(self) -> Seq<char> {
        self.fixed_part() + self.language_part() + "END\n"@
    }

    /// Appends the fixed part of the resource script.
    fn push_fixed_part(&self, s: &mut String)
        ensures
            final(s)@ == old(s)@ + self.fixed_part(),
    {
        let mut b = String::from_str(
            "// This resource script was autogenerated\n// Do not change manually!!!\n",
        );
        b.append("#include<winver.h>\n");
        b.append("VS_VERSION_INFO VERSIONINFO\n");
        b.append("FILEVERSION     ");
        b.append(self.file_version.to_string().as_str());
        b.append("\n");
        b.append("PRODUCTVERSION  ");
        b.append(self.product_version.to_string().as_str());
        b.append("\n");
        b.append("FILEFLAGSMASK   ");
        b.append(self.file_flag_mask.to_string().as_str());
        b.append("\n");
        b.append("FILEFLAGS       ");
        b.append(self.file_flags.to_string().as_str());
        b.append("\n");
        b.append("FILEOS          ");
        b.append(self.file_os.to_string().as_str());
        b.append("\n");
        b.append("FILETYPE        ");
        b.append(self.file_type.to_string().as_str());
        b.append("\n");
        b.append("FILESUBTYPE     ");
        b.append(self.file_type.get_subvalue().as_str());
        b.append("\n");
        assert(b@ == self.fixed_part());
        s.append(b.as_str());
    }

    /// Appends the blocks of the languages.
    fn push_language_part(&self, s: &mut String)
        ensures
            final(s)@ == old(s)@ + self.language_part(),
    {
        let ghost start = s@;
        let ghost infos = self.file_info@;
        let n = self.file_info.len();
        if n == 0 {
            assert(s@ =~= start + self.language_part());
            return;
        }
        s.append("BEGIN\n BLOCK \"StringFileInfo\"\n BEGIN\n");
        let ghost head = s@;
        let mut i: usize = 0;
        assert(infos.take(0) =~= Seq::<FileInfo>::empty());
        assert(head =~= head + string_blocks(infos.take(0)));
        while i < n
            invariant
                0 <= i <= n,
                n == infos.len(),
                infos == self.file_info@,
                s@ == head + string_blocks(infos.take(i as int)),
            decreases n - i,
        {
            let ghost before = s@;
            self.file_info[i].push_string_block(s);
            assert(infos.take(i + 1).drop_last() =~= infos.take(i as int));
            assert(s@ =~= head + string_blocks(infos.take(i + 1)));
            i = i + 1;
        }
        assert(infos.take(n as int) =~= infos);
        s.append(" END\n\n");
        s.append(" BLOCK \"VarFileInfo\"\n BEGIN\n");
        s.append("  VALUE \"Translation\"");
        let ghost mid = s@;
        let mut j: usize = 0;
        assert(mid =~= mid + translations(infos.take(0)));
        while j < n
            invariant
                0 <= j <= n,
                n == infos.len(),
                infos == self.file_info@,
                s@ == mid + translations(infos.take(j as int)),
            decreases n - j,
        {
            self.file_info[j].push_translation(s);
            assert(infos.take(j + 1).drop_last() =~= infos.take(j as int));
            assert(s@ =~= mid + translations(infos.take(j + 1)));
            j = j + 1;
        }
        s.append("\n END\n");
        assert(s@ =~= start + self.language_part());
    }

    /// The resource script of this version information.
    pub fn to_string(&self) -> (res: String)
        ensures
            res@ == self.rc_script(),
    {
        let mut res = String::new();
        self.push_fixed_part(&mut res);
        self.push_language_part(&mut res);
        res.append("END\n");
        assert(res@ =~= self.rc_script());
        res
    }
}

/// The values of the environment variables that cargo sets for a build,
/// from which a version information is made. A variable that is not set
/// reads as the empty string.
pub struct CargoEnv {
    /// `CARGO_PKG_VERSION_MAJOR`
    pub version_major: String,
    /// `CARGO_PKG_VERSION_MINOR`
    pub version_minor: String,
    /// `CARGO_PKG_VERSION_PATCH`
    pub version_patch: String,
    /// `CARGO_PKG_VERSION_PRE`
    pub version_pre: String,
    /// `PROFILE`
    pub profile: String,
    /// `CARGO_PKG_DESCRIPTION`
    pub description: String,
    /// `CARGO_PKG_VERSION`
    pub version: String,
    /// `CARGO_PKG_NAME`
    pub name: String,
}

/// A version component read from text: its value where the text is a
/// `u16`, else zero.
pub open spec fn component(text: Seq<char>) -> u16 {
    match parsed_u16(text) {
        Some(v) => v,
        None => 0,
    }
}

/// The text of an optional string.
pub open spec fn rc_text(o: Option<RCString>) -> Option<Seq<char>> {
    match o {
        Some(t) => Some(t@),
        None => None,
    }
}

/// The text of an optional string slice.
pub open spec fn str_text(o: Option<&str>) -> Option<Seq<char>> {
    match o {
        Some(t) => Some(t@),
        None => None,
    }
}

impl CargoEnv {
    /// The version that the four version variables give.
    pub open spec fn package_version(self) -> Version {
        Version(
            component(self.version_major@),
            component(self.version_minor@),
            component(self.version_patch@),
            component(self.version_pre@),
        )
    }

    /// Whether the build is a debug build: any profile but `release`.
    pub open spec fn is_debug(self) -> bool {
        self.profile@ != "release"@
    }
}

/// Reads a version component from text.
fn read_component(text: &String) -> (res: u16)
    ensures
        res == component(text@),
{
    match parse_u16(text.as_str()) {
        Some(v) => v,
        None => 0,
    }
}

/// An optional string made from an optional string slice.
fn optional_rc(o: Option<&str>) -> (res: Option<RCString>)
    ensures
        rc_text(res) == str_text(o),
{
    match o {
        Some(t) => Some(RCString::new(t)),
        None => None,
    }
}

impl VersionInfo {
    /// Whether this version information is the one that cargo's environment
    /// `env` gives, with the optional strings `comment`, `company_name`,
    /// `legal_copyright` and `legal_trademarks`: the package version as file
    /// and product version, the standard flag mask, the debug flag for any
    /// profile but `release` and no other flag, a Windows application, and one
    /// block of strings in US English with the multilingual code page.
    pub open spec fn made_from_cargo_env(
        self,
        env: CargoEnv,
        comment: Option<&str>,
        company_name: Option<&str>,
        legal_copyright: Option<&str>,
        legal_trademarks: Option<&str>,
    ) -> bool {
        &&& self.file_version == env.package_version()
        &&& self.product_version == env.package_version()
        &&& self.file_flag_mask is Win16
        &&& self.file_flags == (FileFlags {
            debug: env.is_debug(),
            patched: false,
            prerelease: false,
            privatebuild: false,
            infoinferred: false,
            specialbuild: false,
        })
        &&& self.file_os is Windows32
        &&& self.file_type is App
        &&& self.file_info@.len() == 1
        &&& {
            let fi = self.file_info@[0];
            &&& fi.lang is USEnglish
            &&& fi.charset is Multilingual
            &&& rc_text(fi.comment) == str_text(comment)
            &&& fi.company_name@ == match company_name {
                Some(c) => c@,
                None => Seq::<char>::empty(),
            }
            &&& fi.file_description@ == env.description@
            &&& fi.file_version@ == env.version@
            &&& fi.internal_name@ == env.name@
            &&& rc_text(fi.legal_copyright) == str_text(legal_copyright)
            &&& rc_text(fi.legal_trademarks) == str_text(legal_trademarks)
            &&& fi.original_filename@ == env.name@ + ".exe"@
            &&& fi.product_name@ == env.name@
            &&& fi.product_version@ == env.version@
            &&& fi.private_build is None
            &&& fi.special_build is None
        }
    }

    /// Makes the version information from cargo's environment, with the
    /// optional strings `comment`, `company_name`, `legal_copyright` and
    /// `legal_trademarks`. The language is US English.
    pub fn from_cargo_env_ex(
        env: &CargoEnv,
        comment: Option<&str>,
        company_name: Option<&str>,
        legal_copyright: Option<&str>,
        legal_trademarks: Option<&str>,
    ) -> (res: Self)
        ensures
            res.made_from_cargo_env(
                *env,
                comment,
                company_name,
                legal_copyright,
                legal_trademarks,
            ),
    {
        let company = match company_name {
            Some(c) => RCString::new(c),
            None => {
                proof {
                    reveal_strlit("");
                }
                assert(""@ =~= Seq::<char>::empty());
                RCString::new("")
            },
        };
        let version = Version(
            read_component(&env.version_major),
            read_component(&env.version_minor),
            read_component(&env.version_patch),
            read_component(&env.version_pre),
        );
        let release = String::from_str("release");
        let debug = !(env.profile == release);
        let mut file_name = env.name.clone();
        file_name.append(".exe");
        let info = FileInfo {
            lang: Language::USEnglish,
            charset: CharacterSet::Multilingual,
            comment: optional_rc(comment),
            company_name: company,
            file_description: RCString::new(env.description.as_str()),
            file_version: RCString::new(env.version.as_str()),
            internal_name: RCString::new(env.name.as_str()),
            legal_copyright: optional_rc(legal_copyright),
            legal_trademarks: optional_rc(legal_trademarks),
            original_filename: RCString::new(file_name.as_str()),
            product_name: RCString::new(env.name.as_str()),
            product_version: RCString::new(env.version.as_str()),
            private_build: None,
            special_build: None,
        };
        let mut file_info: Vec<FileInfo> = Vec::new();
        file_info.push(info);
        VersionInfo {
            file_version: version,
            product_version: version,
            file_flag_mask: FileFlagMask::Win16,
            file_flags: FileFlags {
                debug: debug,
                patched: false,
                prerelease: false,
                privatebuild: false,
                infoinferred: false,
                specialbuild: false,
            },
            file_os: FileOS::Windows32,
            file_type: FileType::App,
            file_info: file_info,
        }
    }

    /// Makes the version information from cargo's environment, in US English
    /// and without the optional strings: no comment, legal copyright or legal
    /// trademarks, and an empty company name.
    pub fn from_cargo_env(env: &CargoEnv) -> (res: Self)
        ensures
            res.made_from_cargo_env(*env, None, None, None, None),
    {
        Self::from_cargo_env_ex(env, None, None, None, None)
    }
}

/// A package version that cargo's environment holds in decimal is read back
/// as itself, so the script states the version of the package.
pub proof fn lemma_package_version_read_back(env: CargoEnv, v: Version)
    requires
        env.version_major@ == decimal(v.0 as nat),
        env.version_minor@ == decimal(v.1 as nat),
        env.version_patch@ == decimal(v.2 as nat),
        env.version_pre@ == decimal(v.3 as nat),
    ensures
        env.package_version() == v,
{
    lemma_parse_decimal(v.0);
    lemma_parse_decimal(v.1);
    lemma_parse_decimal(v.2);
    lemma_parse_decimal(v.3);
}

/// A version component reads the number that its text writes, and is zero
/// where the text cannot be read as a number, or writes one too large for
/// 16 bits.
pub proof fn lemma_component(text: Seq<char>, n: u16)
    ensures
        component(decimal(n as nat)) == n,
        unreadable(text) ==> component(text) == 0,
        all_digits(text) && digits_value(text) > u16::MAX ==> component(text) == 0,
{
    lemma_parse_decimal(n);
    if unreadable(text) {
        lemma_parse_refuses(text);
    }
    if all_digits(text) && digits_value(text) > u16::MAX {
        lemma_parse_refuses_large(text);
    }
}

/// Each number of the package version that cargo's environment does not
/// write readably is zero; for instance a pre-release text such as
/// `alpha.1` gives a build number of zero.
pub proof fn lemma_unreadable_version_is_zero(env: CargoEnv)
    ensures
        unreadable(env.version_major@) ==> env.package_version().0 == 0,
        unreadable(env.version_minor@) ==> env.package_version().1 == 0,
        unreadable(env.version_patch@) ==> env.package_version().2 == 0,
        unreadable(env.version_pre@) ==> env.package_version().3 == 0,
{
    lemma_component(env.version_major@, 0);
    lemma_component(env.version_minor@, 0);
    lemma_component(env.version_patch@, 0);
    lemma_component(env.version_pre@, 0);
}

} // verus!
