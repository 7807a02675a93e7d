use vstd::prelude::*;

use crate::decimal::{
    all_digits, decimal, decimal_string, digits_value, is_digit, lemma_decimal_digits, push_decimal,
};
use crate::text::{
    begins_with, has_word, lemma_contains_concat, lemma_pieces_append, lemma_pieces_single, pieces,
};

verus! {

/// A string of the resource script. It is written as a quoted string that
/// ends in a null character, with its double quotes and backslashes escaped.
pub struct RCString(String);

/// How a character is written inside a quoted string of the resource
/// script: a double quote is doubled, a backslash is escaped by a backslash,
/// and every other character stands for itself.
pub open spec fn escaped_char(c: char) -> Seq<char> {
    if c == '"' {
        seq!['"', '"']
    } else if c == '\\' {
        seq!['\\', '\\']
    } else {
        seq![c]
    }
}

/// The text `s` as it is written inside a quoted string of the resource
/// script, character by character.
pub open spec fn escaped(s: Seq<char>) -> Seq<char>
    decreases s.len(),
{
    if s.len() == 0 {
        Seq::empty()
    } else {
        escaped(s.drop_last()) + escaped_char(s.last())
    }
}

impl View for RCString {
    type V = Seq<char>;

    closed spec fn view(&self) -> Seq<char> {
        self.0@
    }
}

impl RCString {
    /// The text of the string in the resource script.
    pub open spec fn quoted(self) -> Seq<char> {
        "\""@ + escaped(self@) + "\\0\""@
    }

    /// A string with the text `s`.
    pub fn new(s: &str) -> (res: Self)
        ensures
            res@ == s@,
    {
        RCString(String::from_str(s))
    }

    /// The text of the string in the resource script: a quote, the string
    /// with its double quotes and backslashes escaped, a backslash, the digit
    /// zero and a quote.
    pub fn to_string(&self) -> (res: String)
        ensures
            res@ == self.quoted(),
    {
        let mut res = String::from_str("\"");
        let text = self.0.as_str();
        let len = text.unicode_len();
        let mut i: usize = 0;
        assert(text@.take(0) =~= Seq::<char>::empty());
        while i < len
            invariant
                i <= len,
                len == text@.len(),
                text@ == self@,
                res@ == "\""@ + escaped(text@.take(i as int)),
            decreases len - i,
        {
            let c = text.get_char(i);
            assert(text@.take(i + 1).drop_last() =~= text@.take(i as int));
            assert(text@.take(i + 1).last() == c);
            let ghost before = res@;
            assert(escaped(text@.take(i + 1)) == escaped(text@.take(i as int)) + escaped_char(c));
            if c == '"' {
                res.append("\"\"");
                proof {
                    reveal_strlit("\"\"");
                }
                assert("\"\""@ =~= escaped_char(c));
            } else if c == '\\' {
                res.append("\\\\");
                proof {
                    reveal_strlit("\\\\");
                }
                assert("\\\\"@ =~= escaped_char(c));
            } else {
                res.append(text.substring_char(i, i + 1));
                assert(text@.subrange(i as int, i + 1) =~= seq![c]);
            }
            assert(res@ =~= "\""@ + escaped(text@.take(i + 1)));
            i = i + 1;
        }
        assert(text@.take(len as int) =~= text@);
        res.append("\\0\"");
        res
    }

    /// The string itself.
    pub fn as_str(&self) -> (res: &str)
        ensures
            res@ == self@,
    {
        self.0.as_str()
    }
}

impl From<String> for RCString {
    fn from(value: String) -> (res: Self)
        ensures
            res@ == value@,
    {
        RCString(value)
    }
}

impl vstd::std_specs::convert::FromSpecImpl<String> for RCString {
    open spec fn obeys_from_spec() -> bool {
        true
    }

    closed spec fn from_spec(v: String) -> Self {
        RCString(v)
    }
}

impl<'a> From<&'a str> for RCString {
    fn from(value: &'a str) -> (res: Self)
        ensures
            res@ == value@,
    {
        RCString::new(value)
    }
}

/// A specification can only hold a `String` that it was handed, so the
/// trait's own specification of the conversion from a string slice claims
/// nothing; the `ensures` of `from` itself states that the text is kept.
impl<'a> vstd::std_specs::convert::FromSpecImpl<&'a str> for RCString {
    open spec fn obeys_from_spec() -> bool {
        false
    }

    closed spec fn from_spec(v: &'a str) -> Self {
        vstd::pervasive::arbitrary()
    }
}

/// A version number: major, minor, patch, build.
#[derive(Clone, Copy)]
pub struct Version(pub u16, pub u16, pub u16, pub u16);

impl Version {
    /// The four numbers in decimal, separated by a comma and a space.
    pub open spec fn rendered(self) -> Seq<char> {
        decimal(self.0 as nat) + ", "@ + decimal(self.1 as nat) + ", "@ + decimal(self.2 as nat)
            + ", "@ + decimal(self.3 as nat)
    }

    /// The four numbers in decimal, separated by a comma and a space.
    pub fn to_string(&self) -> (res: String)
        ensures
            res@ == self.rendered(),
    {
        let mut res = decimal_string(self.0 as u32);
        res.append(", ");
        push_decimal(&mut res, self.1 as u32);
        res.append(", ");
        push_decimal(&mut res, self.2 as u32);
        res.append(", ");
        push_decimal(&mut res, self.3 as u32);
        res
    }
}

/// The mask of the valid file flags.
pub enum FileFlagMask {
    /// The standard mask, `0x3f`.
    Win16,
    /// A mask given by its number.
    Custom(u32),
}

impl FileFlagMask {
    /// The text of the mask in the resource script.
    pub open spec fn rendered(self) -> Seq<char> {
        match self {
            FileFlagMask::Win16 => "VS_FFI_FILEFLAGSMASK"@,
            FileFlagMask::Custom(i) => decimal(i as nat),
        }
    }

    /// The text of the mask in the resource script.
    pub fn to_string(&self) -> (res: String)
        ensures
            res@ == self.rendered(),
    {
        match self {
            FileFlagMask::Win16 => String::from_str("VS_FFI_FILEFLAGSMASK"),
            FileFlagMask::Custom(i) => decimal_string(*i),
        }
    }
}

/// Pieces joined with a separator between each two neighbours.
pub open spec fn joined(parts: Seq<Seq<char>>, sep: Seq<char>) -> Seq<char>
    decreases parts.len(),
{
    if parts.len() == 0 {
        Seq::empty()
    } else if parts.len() == 1 {
        parts[0]
    } else {
        joined(parts.drop_last(), sep) + sep + parts.last()
    }
}

/// The pieces that a flag adds to a list: its name if it is set.
pub open spec fn flag_name(set: bool, name: Seq<char>) -> Seq<Seq<char>> {
    if set {
        seq![name]
    } else {
        Seq::empty()
    }
}

/// Flags that describe the file.
pub struct FileFlags {
    /// File contains debugging information or is compiled with debugging features enabled.
    pub debug: bool,
    /// File has been modified and is not identical to the original shipping file of the same version number.
    pub patched: bool,
    /// File is a development version, not a commercially released product.
    pub prerelease: bool,
    /// File was not built using standard release procedures. If this value is given, the StringFileInfo block must contain a PrivateBuild string.
    pub privatebuild: bool,
    /// Information in the file was inferred (the `VS_FF_INFOINFERRED` flag).
    pub infoinferred: bool,
    /// File was built by the original company using standard release procedures but is a variation of the standard file of the same version number. If this value is given, the StringFileInfo block block must contain a SpecialBuild string.
    pub specialbuild: bool,
}

impl FileFlags {
    /// The names of the flags that are set, in a fixed order.
    pub open spec fn names(self) -> Seq<Seq<char>> {
        flag_name(self.debug, "VS_FF_DEBUG"@) + flag_name(self.patched, "VS_FF_PATCHED"@)
            + flag_name(self.prerelease, "VS_FF_PRERELEASE"@) + flag_name(
            self.privatebuild,
            "VS_FF_PRIVATEBUILD"@,
        ) + flag_name(self.infoinferred, "VS_FF_INFOINFERRED"@) + flag_name(
            self.specialbuild,
            "VS_FF_SPECIALBUILD"@,
        )
    }

    /// The text of the flags in the resource script: `0` where none is set,
    /// else the names of those that are, joined with ` | `.
    pub open spec fn rendered(self) -> Seq<char> {
        if self.names().len() == 0 {
            "0"@
        } else {
            joined(self.names(), " | "@)
        }
    }

    /// The text of the flags in the resource script.
    pub fn to_string(&self) -> (res: String)
        ensures
            res@ == self.rendered(),
    {
        let mut names: Vec<&'static str> = Vec::new();
        if self.debug {
            names.push("VS_FF_DEBUG");
        }
        if self.patched {
            names.push("VS_FF_PATCHED");
        }
        if self.prerelease {
            names.push("VS_FF_PRERELEASE");
        }
        if self.privatebuild {
            names.push("VS_FF_PRIVATEBUILD");
        }
        if self.infoinferred {
            names.push("VS_FF_INFOINFERRED");
        }
        if self.specialbuild {
            names.push("VS_FF_SPECIALBUILD");
        }
        let ghost parts = names@.map_values(|n: &'static str| n@);
        assert(parts =~= self.names());
        if names.len() == 0 {
            return String::from_str("0");
        }
        let mut res = String::from_str(names[0]);
        let mut i: usize = 1;
        assert(parts.take(1).drop_last() =~= Seq::<Seq<char>>::empty());
        assert(res@ == joined(parts.take(1), " | "@));
        while i < names.len()
            invariant
                1 <= i <= names.len(),
                parts == names@.map_values(|n: &'static str| n@),
                res@ == joined(parts.take(i as int), " | "@),
            decreases names.len() - i,
        {
            res.append(" | ");
            res.append(names[i]);
            assert(parts.take(i + 1).drop_last() =~= parts.take(i as int));
            i = i + 1;
        }
        assert(parts.take(names.len() as int) =~= parts);
        res
    }
}

/// The operating system that the file is meant for.
pub enum FileOS {
    Unknown,
    Dos,
    OS216Bit,
    OS232Bit,
    NT,
    WinCE,
    Base,
    Windows16,
    PM16,
    PM32,
    Windows32,
    DosWindows16,
    DosWindows32,
    OS216BitPM16,
    OS232BitPM32,
    NTWindows32,
    /// Use a non defined id
    Custom(u32),
}

impl FileOS {
    /// The text of the value in the resource script.
    pub open spec fn value_text(self) -> Seq<char> {
        match self {
            FileOS::Unknown => "VOS_UNKNOWN"@,
            FileOS::Dos => "VOS_DOS"@,
            FileOS::OS216Bit => "VOS_OS216"@,
            FileOS::OS232Bit => "VOS_OS232"@,
            FileOS::NT => "VOS_NT"@,
            FileOS::WinCE => "VOS_WINCE"@,
            FileOS::Base => "VOS__BASE"@,
            FileOS::Windows16 => "VOS__WINDOWS16"@,
            FileOS::PM16 => "VOS__PM16"@,
            FileOS::PM32 => "VOS__PM32"@,
            FileOS::Windows32 => "VOS__WINDOWS32"@,
            FileOS::DosWindows16 => "VOS_DOS_WINDOWS16"@,
            FileOS::DosWindows32 => "VOS_DOS_WINDOWS32"@,
            FileOS::OS216BitPM16 => "VOS_OS216_PM16"@,
            FileOS::OS232BitPM32 => "VOS_OS232_PM32"@,
            FileOS::NTWindows32 => "VOS_NT_WINDOWS32"@,
            FileOS::Custom(i) => decimal(i as nat),
        }
    }

    /// The symbolic name of the value, or the number of a custom one.
    pub fn get_value(&self) -> (res: String)
        ensures
            res@ == self.value_text(),
    {
        match self {
            FileOS::Unknown => String::from_str("VOS_UNKNOWN"),
            FileOS::Dos => String::from_str("VOS_DOS"),
            FileOS::OS216Bit => String::from_str("VOS_OS216"),
            FileOS::OS232Bit => String::from_str("VOS_OS232"),
            FileOS::NT => String::from_str("VOS_NT"),
            FileOS::WinCE => String::from_str("VOS_WINCE"),
            FileOS::Base => String::from_str("VOS__BASE"),
            FileOS::Windows16 => String::from_str("VOS__WINDOWS16"),
            FileOS::PM16 => String::from_str("VOS__PM16"),
            FileOS::PM32 => String::from_str("VOS__PM32"),
            FileOS::Windows32 => String::from_str("VOS__WINDOWS32"),
            FileOS::DosWindows16 => String::from_str("VOS_DOS_WINDOWS16"),
            FileOS::DosWindows32 => String::from_str("VOS_DOS_WINDOWS32"),
            FileOS::OS216BitPM16 => String::from_str("VOS_OS216_PM16"),
            FileOS::OS232BitPM32 => String::from_str("VOS_OS232_PM32"),
            FileOS::NTWindows32 => String::from_str("VOS_NT_WINDOWS32"),
            FileOS::Custom(i) => decimal_string(*i),
        }
    }

    /// The text of the value in the resource script.
    pub fn to_string(&self) -> (res: String)
        ensures
            res@ == self.value_text(),
    {
        self.get_value()
    }
}

/// The type of the file.
pub enum FileType {
    Unknown,
    App,
    Dll,
    Driver(SubTypeDriver),
    Font(SubTypeFont),
    VXD,
    StaticLibrary,
    /// A type and a subtype given by their numbers.
    Custom(u32, u32),
}

impl FileType {
    /// The text of the type in the resource script.
    pub open spec fn value_text(self) -> Seq<char> {
        match self {
            FileType::Unknown => "VFT_UNKNOWN"@,
            FileType::App => "VFT_APP"@,
            FileType::Dll => "VFT_DLL"@,
            FileType::Driver(_) => "VFT_DRV"@,
            FileType::Font(_) => "VFT_FONT"@,
            FileType::VXD => "VFT_VXD"@,
            FileType::StaticLibrary => "VFT_STATIC_LIB"@,
            FileType::Custom(i, _) => decimal(i as nat),
        }
    }

    /// The text of the subtype in the resource script: that of a driver or
    /// font subtype, the number of a custom one, else `0`.
    pub open spec fn subvalue_text(self) -> Seq<char> {
        match self {
            FileType::Driver(t) => t.value_text(),
            FileType::Font(t) => t.value_text(),
            FileType::Custom(_, i) => decimal(i as nat),
            _ => "0"@,
        }
    }

    /// The symbolic name of the type, or the number of a custom one.
    pub fn get_value(&self) -> (res: String)
        ensures
            res@ == self.value_text(),
    {
        match self {
            FileType::Unknown => String::from_str("VFT_UNKNOWN"),
            FileType::App => String::from_str("VFT_APP"),
            FileType::Dll => String::from_str("VFT_DLL"),
            FileType::Driver(_) => String::from_str("VFT_DRV"),
            FileType::Font(_) => String::from_str("VFT_FONT"),
            FileType::VXD => String::from_str("VFT_VXD"),
            FileType::StaticLibrary => String::from_str("VFT_STATIC_LIB"),
            FileType::Custom(i, _) => decimal_string(*i),
        }
    }

    /// The subtype's text.
    pub fn get_subvalue(&self) -> (res: String)
        ensures
            res@ == self.subvalue_text(),
    {
        match self {
            FileType::Driver(t) => t.get_value(),
            FileType::Font(t) => t.get_value(),
            FileType::Custom(_, i) => decimal_string(*i),
            _ => String::from_str("0"),
        }
    }

    /// The text of the type in the resource script.
    pub fn to_string(&self) -> (res: String)
        ensures
            res@ == self.value_text(),
    {
        self.get_value()
    }
}

/// The subtype of a driver.
pub enum SubTypeDriver {
    Unknown,
    Printer,
    Keyboard,
    Language,
    Display,
    Mouse,
    Network,
    System,
    Installable,
    Sound,
    Comm,
    InputMethod,
    VersionedPrinter,
    /// A subtype given by its number.
    Custom(u32),
}

impl SubTypeDriver {
    /// The text of the value in the resource script.
    pub open spec fn value_text(self) -> Seq<char> {
        match self {
            SubTypeDriver::Unknown => "VFT2_UNKNOWN"@,
            SubTypeDriver::Printer => "VFT2_DRV_PRINTER"@,
            SubTypeDriver::Keyboard => "VFT2_DRV_KEYBOARD"@,
            SubTypeDriver::Language => "VFT2_DRV_LANGUAGE"@,
            SubTypeDriver::Display => "VFT2_DRV_DISPLAY"@,
            SubTypeDriver::Mouse => "VFT2_DRV_MOUSE"@,
            SubTypeDriver::Network => "VFT2_DRV_NETWORK"@,
            SubTypeDriver::System => "VFT2_DRV_SYSTEM"@,
            SubTypeDriver::Installable => "VFT2_DRV_INSTALLABLE"@,
            SubTypeDriver::Sound => "VFT2_DRV_SOUND"@,
            SubTypeDriver::Comm => "VFT2_DRV_COMM"@,
            SubTypeDriver::InputMethod => "VFT2_DRV_INPUTMETHOD"@,
            SubTypeDriver::VersionedPrinter => "VFT2_DRV_VERSIONED_PRINTER"@,
            SubTypeDriver::Custom(i) => decimal(i as nat),
        }
    }

    /// The symbolic name of the value, or the number of a custom one.
    pub fn get_value(&self) -> (res: String)
        ensures
            res@ == self.value_text(),
    {
        match self {
            SubTypeDriver::Unknown => String::from_str("VFT2_UNKNOWN"),
            SubTypeDriver::Printer => String::from_str("VFT2_DRV_PRINTER"),
            SubTypeDriver::Keyboard => String::from_str("VFT2_DRV_KEYBOARD"),
            SubTypeDriver::Language => String::from_str("VFT2_DRV_LANGUAGE"),
            SubTypeDriver::Display => String::from_str("VFT2_DRV_DISPLAY"),
            SubTypeDriver::Mouse => String::from_str("VFT2_DRV_MOUSE"),
            SubTypeDriver::Network => String::from_str("VFT2_DRV_NETWORK"),
            SubTypeDriver::System => String::from_str("VFT2_DRV_SYSTEM"),
            SubTypeDriver::Installable => String::from_str("VFT2_DRV_INSTALLABLE"),
            SubTypeDriver::Sound => String::from_str("VFT2_DRV_SOUND"),
            SubTypeDriver::Comm => String::from_str("VFT2_DRV_COMM"),
            SubTypeDriver::InputMethod => String::from_str("VFT2_DRV_INPUTMETHOD"),
            SubTypeDriver::VersionedPrinter => String::from_str("VFT2_DRV_VERSIONED_PRINTER"),
            SubTypeDriver::Custom(i) => decimal_string(*i),
        }
    }

    /// The text of the value in the resource script.
    pub fn to_string(&self) -> (res: String)
        ensures
            res@ == self.value_text(),
    {
        self.get_value()
    }
}

/// The subtype of a font.
pub enum SubTypeFont {
    RasterFont,
    VectorFont,
    TrueTypeFont,
    /// A subtype given by its number.
    Custom(u32),
}

impl SubTypeFont {
    /// The text of the value in the resource script.
    pub open spec fn value_text(self) -> Seq<char> {
        match self {
            SubTypeFont::RasterFont => "VFT2_FONT_RASTER"@,
            SubTypeFont::VectorFont => "VFT2_FONT_VECTOR"@,
            SubTypeFont::TrueTypeFont => "VFT2_FONT_TRUETYPE"@,
            SubTypeFont::Custom(i) => decimal(i as nat),
        }
    }

    /// The symbolic name of the value, or the number of a custom one.
    pub fn get_value(&self) -> (res: String)
        ensures
            res@ == self.value_text(),
    {
        match self {
            SubTypeFont::RasterFont => String::from_str("VFT2_FONT_RASTER"),
            SubTypeFont::VectorFont => String::from_str("VFT2_FONT_VECTOR"),
            SubTypeFont::TrueTypeFont => String::from_str("VFT2_FONT_TRUETYPE"),
            SubTypeFont::Custom(i) => decimal_string(*i),
        }
    }

    /// The text of the value in the resource script.
    pub fn to_string(&self) -> (res: String)
        ensures
            res@ == self.value_text(),
    {
        self.get_value()
    }
}

/// Joining pieces keeps at least the first of them.
proof fn lemma_joined_len(parts: Seq<Seq<char>>, sep: Seq<char>)
    requires
        parts.len() > 0,
    ensures
        joined(parts, sep).len() >= parts[0].len(),
    decreases parts.len(),
{
    if parts.len() > 1 {
        lemma_joined_len(parts.drop_last(), sep);
    }
}

/// The flags are written as `0` exactly when none of them is set.
#[verifier::rlimit(40)]
pub proof fn lemma_flags_zero(f: FileFlags)
    ensures
        f.rendered() == "0"@ <==> !(f.debug || f.patched || f.prerelease || f.privatebuild
            || f.infoinferred || f.specialbuild),
{
    reveal_strlit("0");
    reveal_strlit("VS_FF_DEBUG");
    reveal_strlit("VS_FF_PATCHED");
    reveal_strlit("VS_FF_PRERELEASE");
    reveal_strlit("VS_FF_PRIVATEBUILD");
    reveal_strlit("VS_FF_INFOINFERRED");
    reveal_strlit("VS_FF_SPECIALBUILD");
    let names = f.names();
    if names.len() > 0 {
        lemma_joined_len(names, " | "@);
        assert(names[0].len() > 1);
    }
}

/// The named operating system whose text is `s`, if there is one.
pub open spec fn file_os_named(s: Seq<char>) -> Option<FileOS> {
    if s == "VOS_UNKNOWN"@ {
        Some(FileOS::Unknown)
    } else if s == "VOS_DOS"@ {
        Some(FileOS::Dos)
    } else if s == "VOS_OS216"@ {
        Some(FileOS::OS216Bit)
    } else if s == "VOS_OS232"@ {
        Some(FileOS::OS232Bit)
    } else if s == "VOS_NT"@ {
        Some(FileOS::NT)
    } else if s == "VOS_WINCE"@ {
        Some(FileOS::WinCE)
    } else if s == "VOS__BASE"@ {
        Some(FileOS::Base)
    } else if s == "VOS__WINDOWS16"@ {
        Some(FileOS::Windows16)
    } else if s == "VOS__PM16"@ {
        Some(FileOS::PM16)
    } else if s == "VOS__PM32"@ {
        Some(FileOS::PM32)
    } else if s == "VOS__WINDOWS32"@ {
        Some(FileOS::Windows32)
    } else if s == "VOS_DOS_WINDOWS16"@ {
        Some(FileOS::DosWindows16)
    } else if s == "VOS_DOS_WINDOWS32"@ {
        Some(FileOS::DosWindows32)
    } else if s == "VOS_OS216_PM16"@ {
        Some(FileOS::OS216BitPM16)
    } else if s == "VOS_OS232_PM32"@ {
        Some(FileOS::OS232BitPM32)
    } else if s == "VOS_NT_WINDOWS32"@ {
        Some(FileOS::NTWindows32)
    } else {
        None
    }
}

/// The text of a named operating system begins with `VOS_`; it names that value
/// alone, and is never the number of a custom one.
pub proof fn lemma_file_os_text(a: FileOS, n: nat)
    requires
        a !is Custom,
    ensures
        begins_with(a.value_text(), "VOS_"@),
        file_os_named(a.value_text()) == Some(a),
        a.value_text() != decimal(n),
{
    reveal_strlit("VOS_");
    reveal_strlit("VOS_UNKNOWN");
    reveal_strlit("VOS_DOS");
    reveal_strlit("VOS_OS216");
    reveal_strlit("VOS_OS232");
    reveal_strlit("VOS_NT");
    reveal_strlit("VOS_WINCE");
    reveal_strlit("VOS__BASE");
    reveal_strlit("VOS__WINDOWS16");
    reveal_strlit("VOS__PM16");
    reveal_strlit("VOS__PM32");
    reveal_strlit("VOS__WINDOWS32");
    reveal_strlit("VOS_DOS_WINDOWS16");
    reveal_strlit("VOS_DOS_WINDOWS32");
    reveal_strlit("VOS_OS216_PM16");
    reveal_strlit("VOS_OS232_PM32");
    reveal_strlit("VOS_NT_WINDOWS32");
    lemma_decimal_digits(n);
    assert(is_digit(decimal(n)[0]));
    match a {
        FileOS::Unknown => {
            assert(a.value_text().take(4) =~= "VOS_"@);
        },
        FileOS::Dos => {
            assert(a.value_text().take(4) =~= "VOS_"@);
            assert("VOS_DOS"@.len() != "VOS_UNKNOWN"@.len());
        },
        FileOS::OS216Bit => {
            assert(a.value_text().take(4) =~= "VOS_"@);
            assert("VOS_OS216"@.len() != "VOS_UNKNOWN"@.len());
            assert("VOS_OS216"@.len() != "VOS_DOS"@.len());
        },
        FileOS::OS232Bit => {
            assert(a.value_text().take(4) =~= "VOS_"@);
            assert("VOS_OS232"@.len() != "VOS_UNKNOWN"@.len());
            assert("VOS_OS232"@.len() != "VOS_DOS"@.len());
            assert("VOS_OS232"@[7] != "VOS_OS216"@[7]);
        },
        FileOS::NT => {
            assert(a.value_text().take(4) =~= "VOS_"@);
            assert("VOS_NT"@.len() != "VOS_UNKNOWN"@.len());
            assert("VOS_NT"@.len() != "VOS_DOS"@.len());
            assert("VOS_NT"@.len() != "VOS_OS216"@.len());
            assert("VOS_NT"@.len() != "VOS_OS232"@.len());
        },
        FileOS::WinCE => {
            assert(a.value_text().take(4) =~= "VOS_"@);
            assert("VOS_WINCE"@.len() != "VOS_UNKNOWN"@.len());
            assert("VOS_WINCE"@.len() != "VOS_DOS"@.len());
            assert("VOS_WINCE"@[4] != "VOS_OS216"@[4]);
            assert("VOS_WINCE"@[4] != "VOS_OS232"@[4]);
            assert("VOS_WINCE"@.len() != "VOS_NT"@.len());
        },
        FileOS::Base => {
            assert(a.value_text().take(4) =~= "VOS_"@);
            assert("VOS__BASE"@.len() != "VOS_UNKNOWN"@.len());
            assert("VOS__BASE"@.len() != "VOS_DOS"@.len());
            assert("VOS__BASE"@[4] != "VOS_OS216"@[4]);
            assert("VOS__BASE"@[4] != "VOS_OS232"@[4]);
            assert("VOS__BASE"@.len() != "VOS_NT"@.len());
            assert("VOS__BASE"@[4] != "VOS_WINCE"@[4]);
        },
        FileOS::Windows16 => {
            assert(a.value_text().take(4) =~= "VOS_"@);
            assert("VOS__WINDOWS16"@.len() != "VOS_UNKNOWN"@.len());
            assert("VOS__WINDOWS16"@.len() != "VOS_DOS"@.len());
            assert("VOS__WINDOWS16"@.len() != "VOS_OS216"@.len());
            assert("VOS__WINDOWS16"@.len() != "VOS_OS232"@.len());
            assert("VOS__WINDOWS16"@.len() != "VOS_NT"@.len());
            assert("VOS__WINDOWS16"@.len() != "VOS_WINCE"@.len());
            assert("VOS__WINDOWS16"@.len() != "VOS__BASE"@.len());
        },
        FileOS::PM16 => {
            assert(a.value_text().take(4) =~= "VOS_"@);
            assert("VOS__PM16"@.len() != "VOS_UNKNOWN"@.len());
            assert("VOS__PM16"@.len() != "VOS_DOS"@.len());
            assert("VOS__PM16"@[4] != "VOS_OS216"@[4]);
            assert("VOS__PM16"@[4] != "VOS_OS232"@[4]);
            assert("VOS__PM16"@.len() != "VOS_NT"@.len());
            assert("VOS__PM16"@[4] != "VOS_WINCE"@[4]);
            assert("VOS__PM16"@[5] != "VOS__BASE"@[5]);
            assert("VOS__PM16"@.len() != "VOS__WINDOWS16"@.len());
        },
        FileOS::PM32 => {
            assert(a.value_text().take(4) =~= "VOS_"@);
            assert("VOS__PM32"@.len() != "VOS_UNKNOWN"@.len());
            assert("VOS__PM32"@.len() != "VOS_DOS"@.len());
            assert("VOS__PM32"@[4] != "VOS_OS216"@[4]);
            assert("VOS__PM32"@[4] != "VOS_OS232"@[4]);
            assert("VOS__PM32"@.len() != "VOS_NT"@.len());
            assert("VOS__PM32"@[4] != "VOS_WINCE"@[4]);
            assert("VOS__PM32"@[5] != "VOS__BASE"@[5]);
            assert("VOS__PM32"@.len() != "VOS__WINDOWS16"@.len());
            assert("VOS__PM32"@[7] != "VOS__PM16"@[7]);
        },
        FileOS::Windows32 => {
            assert(a.value_text().take(4) =~= "VOS_"@);
            assert("VOS__WINDOWS32"@.len() != "VOS_UNKNOWN"@.len());
            assert("VOS__WINDOWS32"@.len() != "VOS_DOS"@.len());
            assert("VOS__WINDOWS32"@.len() != "VOS_OS216"@.len());
            assert("VOS__WINDOWS32"@.len() != "VOS_OS232"@.len());
            assert("VOS__WINDOWS32"@.len() != "VOS_NT"@.len());
            assert("VOS__WINDOWS32"@.len() != "VOS_WINCE"@.len());
            assert("VOS__WINDOWS32"@.len() != "VOS__BASE"@.len());
            assert("VOS__WINDOWS32"@[12] != "VOS__WINDOWS16"@[12]);
            assert("VOS__WINDOWS32"@.len() != "VOS__PM16"@.len());
            assert("VOS__WINDOWS32"@.len() != "VOS__PM32"@.len());
        },
        FileOS::DosWindows16 => {
            assert(a.value_text().take(4) =~= "VOS_"@);
            assert("VOS_DOS_WINDOWS16"@.len() != "VOS_UNKNOWN"@.len());
            assert("VOS_DOS_WINDOWS16"@.len() != "VOS_DOS"@.len());
            assert("VOS_DOS_WINDOWS16"@.len() != "VOS_OS216"@.len());
            assert("VOS_DOS_WINDOWS16"@.len() != "VOS_OS232"@.len());
            assert("VOS_DOS_WINDOWS16"@.len() != "VOS_NT"@.len());
            assert("VOS_DOS_WINDOWS16"@.len() != "VOS_WINCE"@.len());
            assert("VOS_DOS_WINDOWS16"@.len() != "VOS__BASE"@.len());
            assert("VOS_DOS_WINDOWS16"@.len() != "VOS__WINDOWS16"@.len());
            assert("VOS_DOS_WINDOWS16"@.len() != "VOS__PM16"@.len());
            assert("VOS_DOS_WINDOWS16"@.len() != "VOS__PM32"@.len());
            assert("VOS_DOS_WINDOWS16"@.len() != "VOS__WINDOWS32"@.len());
        },
        FileOS::DosWindows32 => {
            assert(a.value_text().take(4) =~= "VOS_"@);
            assert("VOS_DOS_WINDOWS32"@.len() != "VOS_UNKNOWN"@.len());
            assert("VOS_DOS_WINDOWS32"@.len() != "VOS_DOS"@.len());
            assert("VOS_DOS_WINDOWS32"@.len() != "VOS_OS216"@.len());
            assert("VOS_DOS_WINDOWS32"@.len() != "VOS_OS232"@.len());
            assert("VOS_DOS_WINDOWS32"@.len() != "VOS_NT"@.len());
            assert("VOS_DOS_WINDOWS32"@.len() != "VOS_WINCE"@.len());
            assert("VOS_DOS_WINDOWS32"@.len() != "VOS__BASE"@.len());
            assert("VOS_DOS_WINDOWS32"@.len() != "VOS__WINDOWS16"@.len());
            assert("VOS_DOS_WINDOWS32"@.len() != "VOS__PM16"@.len());
            assert("VOS_DOS_WINDOWS32"@.len() != "VOS__PM32"@.len());
            assert("VOS_DOS_WINDOWS32"@.len() != "VOS__WINDOWS32"@.len());
            assert("VOS_DOS_WINDOWS32"@[15] != "VOS_DOS_WINDOWS16"@[15]);
        },
        FileOS::OS216BitPM16 => {
            assert(a.value_text().take(4) =~= "VOS_"@);
            assert("VOS_OS216_PM16"@.len() != "VOS_UNKNOWN"@.len());
            assert("VOS_OS216_PM16"@.len() != "VOS_DOS"@.len());
            assert("VOS_OS216_PM16"@.len() != "VOS_OS216"@.len());
            assert("VOS_OS216_PM16"@.len() != "VOS_OS232"@.len());
            assert("VOS_OS216_PM16"@.len() != "VOS_NT"@.len());
            assert("VOS_OS216_PM16"@.len() != "VOS_WINCE"@.len());
            assert("VOS_OS216_PM16"@.len() != "VOS__BASE"@.len());
            assert("VOS_OS216_PM16"@[4] != "VOS__WINDOWS16"@[4]);
            assert("VOS_OS216_PM16"@.len() != "VOS__PM16"@.len());
            assert("VOS_OS216_PM16"@.len() != "VOS__PM32"@.len());
            assert("VOS_OS216_PM16"@[4] != "VOS__WINDOWS32"@[4]);
            assert("VOS_OS216_PM16"@.len() != "VOS_DOS_WINDOWS16"@.len());
            assert("VOS_OS216_PM16"@.len() != "VOS_DOS_WINDOWS32"@.len());
        },
        FileOS::OS232BitPM32 => {
            assert(a.value_text().take(4) =~= "VOS_"@);
            assert("VOS_OS232_PM32"@.len() != "VOS_UNKNOWN"@.len());
            assert("VOS_OS232_PM32"@.len() != "VOS_DOS"@.len());
            assert("VOS_OS232_PM32"@.len() != "VOS_OS216"@.len());
            assert("VOS_OS232_PM32"@.len() != "VOS_OS232"@.len());
            assert("VOS_OS232_PM32"@.len() != "VOS_NT"@.len());
            assert("VOS_OS232_PM32"@.len() != "VOS_WINCE"@.len());
            assert("VOS_OS232_PM32"@.len() != "VOS__BASE"@.len());
            assert("VOS_OS232_PM32"@[4] != "VOS__WINDOWS16"@[4]);
            assert("VOS_OS232_PM32"@.len() != "VOS__PM16"@.len());
            assert("VOS_OS232_PM32"@.len() != "VOS__PM32"@.len());
            assert("VOS_OS232_PM32"@[4] != "VOS__WINDOWS32"@[4]);
            assert("VOS_OS232_PM32"@.len() != "VOS_DOS_WINDOWS16"@.len());
            assert("VOS_OS232_PM32"@.len() != "VOS_DOS_WINDOWS32"@.len());
            assert("VOS_OS232_PM32"@[7] != "VOS_OS216_PM16"@[7]);
        },
        FileOS::NTWindows32 => {
            assert(a.value_text().take(4) =~= "VOS_"@);
            assert("VOS_NT_WINDOWS32"@.len() != "VOS_UNKNOWN"@.len());
            assert("VOS_NT_WINDOWS32"@.len() != "VOS_DOS"@.len());
            assert("VOS_NT_WINDOWS32"@.len() != "VOS_OS216"@.len());
            assert("VOS_NT_WINDOWS32"@.len() != "VOS_OS232"@.len());
            assert("VOS_NT_WINDOWS32"@.len() != "VOS_NT"@.len());
            assert("VOS_NT_WINDOWS32"@.len() != "VOS_WINCE"@.len());
            assert("VOS_NT_WINDOWS32"@.len() != "VOS__BASE"@.len());
            assert("VOS_NT_WINDOWS32"@.len() != "VOS__WINDOWS16"@.len());
            assert("VOS_NT_WINDOWS32"@.len() != "VOS__PM16"@.len());
            assert("VOS_NT_WINDOWS32"@.len() != "VOS__PM32"@.len());
            assert("VOS_NT_WINDOWS32"@.len() != "VOS__WINDOWS32"@.len());
            assert("VOS_NT_WINDOWS32"@.len() != "VOS_DOS_WINDOWS16"@.len());
            assert("VOS_NT_WINDOWS32"@.len() != "VOS_DOS_WINDOWS32"@.len());
            assert("VOS_NT_WINDOWS32"@.len() != "VOS_OS216_PM16"@.len());
            assert("VOS_NT_WINDOWS32"@.len() != "VOS_OS232_PM32"@.len());
        },
        _ => {},
    }
}

/// Different named values have different texts.
pub proof fn lemma_file_os_texts_distinct(a: FileOS, b: FileOS)
    requires
        a !is Custom,
        b !is Custom,
        a != b,
    ensures
        a.value_text() != b.value_text(),
{
    lemma_file_os_text(a, 0);
    lemma_file_os_text(b, 0);
}

/// The named driver subtype whose text is `s`, if there is one.
pub open spec fn driver_named(s: Seq<char>) -> Option<SubTypeDriver> {
    if s == "VFT2_UNKNOWN"@ {
        Some(SubTypeDriver::Unknown)
    } else if s == "VFT2_DRV_PRINTER"@ {
        Some(SubTypeDriver::Printer)
    } else if s == "VFT2_DRV_KEYBOARD"@ {
        Some(SubTypeDriver::Keyboard)
    } else if s == "VFT2_DRV_LANGUAGE"@ {
        Some(SubTypeDriver::Language)
    } else if s == "VFT2_DRV_DISPLAY"@ {
        Some(SubTypeDriver::Display)
    } else if s == "VFT2_DRV_MOUSE"@ {
        Some(SubTypeDriver::Mouse)
    } else if s == "VFT2_DRV_NETWORK"@ {
        Some(SubTypeDriver::Network)
    } else if s == "VFT2_DRV_SYSTEM"@ {
        Some(SubTypeDriver::System)
    } else if s == "VFT2_DRV_INSTALLABLE"@ {
        Some(SubTypeDriver::Installable)
    } else if s == "VFT2_DRV_SOUND"@ {
        Some(SubTypeDriver::Sound)
    } else if s == "VFT2_DRV_COMM"@ {
        Some(SubTypeDriver::Comm)
    } else if s == "VFT2_DRV_INPUTMETHOD"@ {
        Some(SubTypeDriver::InputMethod)
    } else if s == "VFT2_DRV_VERSIONED_PRINTER"@ {
        Some(SubTypeDriver::VersionedPrinter)
    } else {
        None
    }
}

/// The text of a named driver subtype is `VFT2_UNKNOWN` or begins with `VFT2_DRV_`; it names that value
/// alone, and is never the number of a custom one.
pub proof fn lemma_driver_text(a: SubTypeDriver, n: nat)
    requires
        a !is Custom,
    ensures
        a is Unknown ==> a.value_text() == "VFT2_UNKNOWN"@,
        a !is Unknown ==> begins_with(a.value_text(), "VFT2_DRV_"@),
        driver_named(a.value_text()) == Some(a),
        a.value_text() != decimal(n),
{
    reveal_strlit("VFT2_DRV_");
    reveal_strlit("VFT2_UNKNOWN");
    reveal_strlit("VFT2_DRV_PRINTER");
    reveal_strlit("VFT2_DRV_KEYBOARD");
    reveal_strlit("VFT2_DRV_LANGUAGE");
    reveal_strlit("VFT2_DRV_DISPLAY");
    reveal_strlit("VFT2_DRV_MOUSE");
    reveal_strlit("VFT2_DRV_NETWORK");
    reveal_strlit("VFT2_DRV_SYSTEM");
    reveal_strlit("VFT2_DRV_INSTALLABLE");
    reveal_strlit("VFT2_DRV_SOUND");
    reveal_strlit("VFT2_DRV_COMM");
    reveal_strlit("VFT2_DRV_INPUTMETHOD");
    reveal_strlit("VFT2_DRV_VERSIONED_PRINTER");
    lemma_decimal_digits(n);
    assert(is_digit(decimal(n)[0]));
    match a {
        SubTypeDriver::Unknown => {
        },
        SubTypeDriver::Printer => {
            assert(a.value_text().take(9) =~= "VFT2_DRV_"@);
            assert("VFT2_DRV_PRINTER"@.len() != "VFT2_UNKNOWN"@.len());
        },
        SubTypeDriver::Keyboard => {
            assert(a.value_text().take(9) =~= "VFT2_DRV_"@);
            assert("VFT2_DRV_KEYBOARD"@.len() != "VFT2_UNKNOWN"@.len());
            assert("VFT2_DRV_KEYBOARD"@.len() != "VFT2_DRV_PRINTER"@.len());
        },
        SubTypeDriver::Language => {
            assert(a.value_text().take(9) =~= "VFT2_DRV_"@);
            assert("VFT2_DRV_LANGUAGE"@.len() != "VFT2_UNKNOWN"@.len());
            assert("VFT2_DRV_LANGUAGE"@.len() != "VFT2_DRV_PRINTER"@.len());
            assert("VFT2_DRV_LANGUAGE"@[9] != "VFT2_DRV_KEYBOARD"@[9]);
        },
        SubTypeDriver::Display => {
            assert(a.value_text().take(9) =~= "VFT2_DRV_"@);
            assert("VFT2_DRV_DISPLAY"@.len() != "VFT2_UNKNOWN"@.len());
            assert("VFT2_DRV_DISPLAY"@[9] != "VFT2_DRV_PRINTER"@[9]);
            assert("VFT2_DRV_DISPLAY"@.len() != "VFT2_DRV_KEYBOARD"@.len());
            assert("VFT2_DRV_DISPLAY"@.len() != "VFT2_DRV_LANGUAGE"@.len());
        },
        SubTypeDriver::Mouse => {
            assert(a.value_text().take(9) =~= "VFT2_DRV_"@);
            assert("VFT2_DRV_MOUSE"@.len() != "VFT2_UNKNOWN"@.len());
            assert("VFT2_DRV_MOUSE"@.len() != "VFT2_DRV_PRINTER"@.len());
            assert("VFT2_DRV_MOUSE"@.len() != "VFT2_DRV_KEYBOARD"@.len());
            assert("VFT2_DRV_MOUSE"@.len() != "VFT2_DRV_LANGUAGE"@.len());
            assert("VFT2_DRV_MOUSE"@.len() != "VFT2_DRV_DISPLAY"@.len());
        },
        SubTypeDriver::Network => {
            assert(a.value_text().take(9) =~= "VFT2_DRV_"@);
            assert("VFT2_DRV_NETWORK"@.len() != "VFT2_UNKNOWN"@.len());
            assert("VFT2_DRV_NETWORK"@[9] != "VFT2_DRV_PRINTER"@[9]);
            assert("VFT2_DRV_NETWORK"@.len() != "VFT2_DRV_KEYBOARD"@.len());
            assert("VFT2_DRV_NETWORK"@.len() != "VFT2_DRV_LANGUAGE"@.len());
            assert("VFT2_DRV_NETWORK"@[9] != "VFT2_DRV_DISPLAY"@[9]);
            assert("VFT2_DRV_NETWORK"@.len() != "VFT2_DRV_MOUSE"@.len());
        },
        SubTypeDriver::System => {
            assert(a.value_text().take(9) =~= "VFT2_DRV_"@);
            assert("VFT2_DRV_SYSTEM"@.len() != "VFT2_UNKNOWN"@.len());
            assert("VFT2_DRV_SYSTEM"@.len() != "VFT2_DRV_PRINTER"@.len());
            assert("VFT2_DRV_SYSTEM"@.len() != "VFT2_DRV_KEYBOARD"@.len());
            assert("VFT2_DRV_SYSTEM"@.len() != "VFT2_DRV_LANGUAGE"@.len());
            assert("VFT2_DRV_SYSTEM"@.len() != "VFT2_DRV_DISPLAY"@.len());
            assert("VFT2_DRV_SYSTEM"@.len() != "VFT2_DRV_MOUSE"@.len());
            assert("VFT2_DRV_SYSTEM"@.len() != "VFT2_DRV_NETWORK"@.len());
        },
        SubTypeDriver::Installable => {
            assert(a.value_text().take(9) =~= "VFT2_DRV_"@);
            assert("VFT2_DRV_INSTALLABLE"@.len() != "VFT2_UNKNOWN"@.len());
            assert("VFT2_DRV_INSTALLABLE"@.len() != "VFT2_DRV_PRINTER"@.len());
            assert("VFT2_DRV_INSTALLABLE"@.len() != "VFT2_DRV_KEYBOARD"@.len());
            assert("VFT2_DRV_INSTALLABLE"@.len() != "VFT2_DRV_LANGUAGE"@.len());
            assert("VFT2_DRV_INSTALLABLE"@.len() != "VFT2_DRV_DISPLAY"@.len());
            assert("VFT2_DRV_INSTALLABLE"@.len() != "VFT2_DRV_MOUSE"@.len());
            assert("VFT2_DRV_INSTALLABLE"@.len() != "VFT2_DRV_NETWORK"@.len());
            assert("VFT2_DRV_INSTALLABLE"@.len() != "VFT2_DRV_SYSTEM"@.len());
        },
        SubTypeDriver::Sound => {
            assert(a.value_text().take(9) =~= "VFT2_DRV_"@);
            assert("VFT2_DRV_SOUND"@.len() != "VFT2_UNKNOWN"@.len());
            assert("VFT2_DRV_SOUND"@.len() != "VFT2_DRV_PRINTER"@.len());
            assert("VFT2_DRV_SOUND"@.len() != "VFT2_DRV_KEYBOARD"@.len());
            assert("VFT2_DRV_SOUND"@.len() != "VFT2_DRV_LANGUAGE"@.len());
            assert("VFT2_DRV_SOUND"@.len() != "VFT2_DRV_DISPLAY"@.len());
            assert("VFT2_DRV_SOUND"@[9] != "VFT2_DRV_MOUSE"@[9]);
            assert("VFT2_DRV_SOUND"@.len() != "VFT2_DRV_NETWORK"@.len());
            assert("VFT2_DRV_SOUND"@.len() != "VFT2_DRV_SYSTEM"@.len());
            assert("VFT2_DRV_SOUND"@.len() != "VFT2_DRV_INSTALLABLE"@.len());
        },
        SubTypeDriver::Comm => {
            assert(a.value_text().take(9) =~= "VFT2_DRV_"@);
            assert("VFT2_DRV_COMM"@.len() != "VFT2_UNKNOWN"@.len());
            assert("VFT2_DRV_COMM"@.len() != "VFT2_DRV_PRINTER"@.len());
            assert("VFT2_DRV_COMM"@.len() != "VFT2_DRV_KEYBOARD"@.len());
            assert("VFT2_DRV_COMM"@.len() != "VFT2_DRV_LANGUAGE"@.len());
            assert("VFT2_DRV_COMM"@.len() != "VFT2_DRV_DISPLAY"@.len());
            assert("VFT2_DRV_COMM"@.len() != "VFT2_DRV_MOUSE"@.len());
            assert("VFT2_DRV_COMM"@.len() != "VFT2_DRV_NETWORK"@.len());
            assert("VFT2_DRV_COMM"@.len() != "VFT2_DRV_SYSTEM"@.len());
            assert("VFT2_DRV_COMM"@.len() != "VFT2_DRV_INSTALLABLE"@.len());
            assert("VFT2_DRV_COMM"@.len() != "VFT2_DRV_SOUND"@.len());
        },
        SubTypeDriver::InputMethod => {
            assert(a.value_text().take(9) =~= "VFT2_DRV_"@);
            assert("VFT2_DRV_INPUTMETHOD"@.len() != "VFT2_UNKNOWN"@.len());
            assert("VFT2_DRV_INPUTMETHOD"@.len() != "VFT2_DRV_PRINTER"@.len());
            assert("VFT2_DRV_INPUTMETHOD"@.len() != "VFT2_DRV_KEYBOARD"@.len());
            assert("VFT2_DRV_INPUTMETHOD"@.len() != "VFT2_DRV_LANGUAGE"@.len());
            assert("VFT2_DRV_INPUTMETHOD"@.len() != "VFT2_DRV_DISPLAY"@.len());
            assert("VFT2_DRV_INPUTMETHOD"@.len() != "VFT2_DRV_MOUSE"@.len());
            assert("VFT2_DRV_INPUTMETHOD"@.len() != "VFT2_DRV_NETWORK"@.len());
            assert("VFT2_DRV_INPUTMETHOD"@.len() != "VFT2_DRV_SYSTEM"@.len());
            assert("VFT2_DRV_INPUTMETHOD"@[11] != "VFT2_DRV_INSTALLABLE"@[11]);
            assert("VFT2_DRV_INPUTMETHOD"@.len() != "VFT2_DRV_SOUND"@.len());
            assert("VFT2_DRV_INPUTMETHOD"@.len() != "VFT2_DRV_COMM"@.len());
        },
        SubTypeDriver::VersionedPrinter => {
            assert(a.value_text().take(9) =~= "VFT2_DRV_"@);
            assert("VFT2_DRV_VERSIONED_PRINTER"@.len() != "VFT2_UNKNOWN"@.len());
            assert("VFT2_DRV_VERSIONED_PRINTER"@.len() != "VFT2_DRV_PRINTER"@.len());
            assert("VFT2_DRV_VERSIONED_PRINTER"@.len() != "VFT2_DRV_KEYBOARD"@.len());
            assert("VFT2_DRV_VERSIONED_PRINTER"@.len() != "VFT2_DRV_LANGUAGE"@.len());
            assert("VFT2_DRV_VERSIONED_PRINTER"@.len() != "VFT2_DRV_DISPLAY"@.len());
            assert("VFT2_DRV_VERSIONED_PRINTER"@.len() != "VFT2_DRV_MOUSE"@.len());
            assert("VFT2_DRV_VERSIONED_PRINTER"@.len() != "VFT2_DRV_NETWORK"@.len());
            assert("VFT2_DRV_VERSIONED_PRINTER"@.len() != "VFT2_DRV_SYSTEM"@.len());
            assert("VFT2_DRV_VERSIONED_PRINTER"@.len() != "VFT2_DRV_INSTALLABLE"@.len());
            assert("VFT2_DRV_VERSIONED_PRINTER"@.len() != "VFT2_DRV_SOUND"@.len());
            assert("VFT2_DRV_VERSIONED_PRINTER"@.len() != "VFT2_DRV_COMM"@.len());
            assert("VFT2_DRV_VERSIONED_PRINTER"@.len() != "VFT2_DRV_INPUTMETHOD"@.len());
        },
        _ => {},
    }
}

/// Different named values have different texts.
pub proof fn lemma_driver_texts_distinct(a: SubTypeDriver, b: SubTypeDriver)
    requires
        a !is Custom,
        b !is Custom,
        a != b,
    ensures
        a.value_text() != b.value_text(),
{
    lemma_driver_text(a, 0);
    lemma_driver_text(b, 0);
}

/// The named font subtype whose text is `s`, if there is one.
pub open spec fn font_named(s: Seq<char>) -> Option<SubTypeFont> {
    if s == "VFT2_FONT_RASTER"@ {
        Some(SubTypeFont::RasterFont)
    } else if s == "VFT2_FONT_VECTOR"@ {
        Some(SubTypeFont::VectorFont)
    } else if s == "VFT2_FONT_TRUETYPE"@ {
        Some(SubTypeFont::TrueTypeFont)
    } else {
        None
    }
}

/// The text of a named font subtype begins with `VFT2_FONT_`; it names that value
/// alone, and is never the number of a custom one.
pub proof fn lemma_font_text(a: SubTypeFont, n: nat)
    requires
        a !is Custom,
    ensures
        begins_with(a.value_text(), "VFT2_FONT_"@),
        font_named(a.value_text()) == Some(a),
        a.value_text() != decimal(n),
{
    reveal_strlit("VFT2_FONT_");
    reveal_strlit("VFT2_FONT_RASTER");
    reveal_strlit("VFT2_FONT_VECTOR");
    reveal_strlit("VFT2_FONT_TRUETYPE");
    lemma_decimal_digits(n);
    assert(is_digit(decimal(n)[0]));
    match a {
        SubTypeFont::RasterFont => {
            assert(a.value_text().take(10) =~= "VFT2_FONT_"@);
        },
        SubTypeFont::VectorFont => {
            assert(a.value_text().take(10) =~= "VFT2_FONT_"@);
            assert("VFT2_FONT_VECTOR"@[10] != "VFT2_FONT_RASTER"@[10]);
        },
        SubTypeFont::TrueTypeFont => {
            assert(a.value_text().take(10) =~= "VFT2_FONT_"@);
            assert("VFT2_FONT_TRUETYPE"@.len() != "VFT2_FONT_RASTER"@.len());
            assert("VFT2_FONT_TRUETYPE"@.len() != "VFT2_FONT_VECTOR"@.len());
        },
        _ => {},
    }
}

/// Different named values have different texts.
pub proof fn lemma_font_texts_distinct(a: SubTypeFont, b: SubTypeFont)
    requires
        a !is Custom,
        b !is Custom,
        a != b,
    ensures
        a.value_text() != b.value_text(),
{
    lemma_font_text(a, 0);
    lemma_font_text(b, 0);
}

/// Escaping works character by character: the text of two pieces is the
/// text of the first followed by that of the second.
pub proof fn lemma_escaped_concat(a: Seq<char>, b: Seq<char>)
    ensures
        escaped(a + b) == escaped(a) + escaped(b),
    decreases b.len(),
{
    if b.len() == 0 {
        assert(a + b =~= a);
        assert(escaped(a) + escaped(b) =~= escaped(a));
    } else {
        lemma_escaped_concat(a, b.drop_last());
        assert((a + b).drop_last() =~= a + b.drop_last());
        assert((a + b).last() == b.last());
        assert(escaped(a) + escaped(b) =~= escaped(a) + escaped(b.drop_last()) + escaped_char(
            b.last(),
        ));
    }
}

/// How each single character is written inside a quoted string: a double
/// quote as two double quotes, a backslash as two backslashes, and any other
/// character as itself.
pub proof fn lemma_escaped_single(c: char)
    ensures
        escaped(seq![c]) == (if c == '"' {
            seq!['"', '"']
        } else if c == '\\' {
            seq!['\\', '\\']
        } else {
            seq![c]
        }),
{
    let one = seq![c];
    assert(one.drop_last() =~= Seq::<char>::empty());
    assert(escaped(Seq::<char>::empty()) == Seq::<char>::empty());
    assert(one.last() == c);
    assert(escaped(one) == escaped(one.drop_last()) + escaped_char(c));
    assert(escaped(one) =~= escaped_char(c));
}

/// Text without double quotes and backslashes is written as it is.
pub proof fn lemma_escaped_plain(s: Seq<char>)
    requires
        forall|i: int| 0 <= i < s.len() ==> s[i] != '"' && s[i] != '\\',
    ensures
        escaped(s) == s,
    decreases s.len(),
{
    if s.len() > 0 {
        let init = s.drop_last();
        assert forall|i: int| 0 <= i < init.len() implies init[i] != '"' && init[i] != '\\' by {
            assert(init[i] == s[i]);
        }
        lemma_escaped_plain(init);
        assert(s.last() == s[s.len() - 1]);
        assert(init.push(s.last()) =~= s);
    } else {
        assert(s =~= Seq::<char>::empty());
    }
}

/// A string without double quotes and backslashes is written between
/// quotes exactly as it is, followed by a backslash, the digit zero and the
/// closing quote.
pub proof fn lemma_quoted_plain(r: RCString)
    requires
        forall|i: int| 0 <= i < r@.len() ==> r@[i] != '"' && r@[i] != '\\',
    ensures
        r.quoted() == "\""@ + r@ + "\\0\""@,
{
    lemma_escaped_plain(r@);
}

impl FileType {
    /// The number of the type in `winver.h`; a custom type has its own.
    pub open spec fn type_number(self) -> nat {
        match self {
            FileType::Unknown => 0,
            FileType::App => 1,
            FileType::Dll => 2,
            FileType::Driver(_) => 3,
            FileType::Font(_) => 4,
            FileType::VXD => 5,
            FileType::StaticLibrary => 7,
            FileType::Custom(i, _) => i as nat,
        }
    }
}

/// The number in `winver.h` of the named file type whose text is `s`, if
/// there is one.
pub open spec fn file_type_number_named(s: Seq<char>) -> Option<nat> {
    if s == "VFT_UNKNOWN"@ {
        Some(0)
    } else if s == "VFT_APP"@ {
        Some(1)
    } else if s == "VFT_DLL"@ {
        Some(2)
    } else if s == "VFT_DRV"@ {
        Some(3)
    } else if s == "VFT_FONT"@ {
        Some(4)
    } else if s == "VFT_VXD"@ {
        Some(5)
    } else if s == "VFT_STATIC_LIB"@ {
        Some(7)
    } else {
        None
    }
}

/// The text of a named file type is its own `winver.h` name, which names its
/// number alone, and is never the number of a custom type.
pub proof fn lemma_file_type_text(t: FileType, n: nat)
    requires
        t !is Custom,
    ensures
        file_type_number_named(t.value_text()) == Some(t.type_number()),
        begins_with(t.value_text(), "VFT_"@),
        t.value_text() != decimal(n),
{
    reveal_strlit("VFT_");
    reveal_strlit("VFT_UNKNOWN");
    reveal_strlit("VFT_APP");
    reveal_strlit("VFT_DLL");
    reveal_strlit("VFT_DRV");
    reveal_strlit("VFT_FONT");
    reveal_strlit("VFT_VXD");
    reveal_strlit("VFT_STATIC_LIB");
    lemma_decimal_digits(n);
    assert(is_digit(decimal(n)[0]));
    match t {
        FileType::Unknown => {
            assert(t.value_text().take(4) =~= "VFT_"@);
        },
        FileType::App => {
            assert(t.value_text().take(4) =~= "VFT_"@);
            assert("VFT_APP"@.len() != "VFT_UNKNOWN"@.len());
        },
        FileType::Dll => {
            assert(t.value_text().take(4) =~= "VFT_"@);
            assert("VFT_DLL"@.len() != "VFT_UNKNOWN"@.len());
            assert("VFT_DLL"@[4] != "VFT_APP"@[4]);
        },
        FileType::Driver(_) => {
            assert(t.value_text().take(4) =~= "VFT_"@);
            assert("VFT_DRV"@.len() != "VFT_UNKNOWN"@.len());
            assert("VFT_DRV"@[4] != "VFT_APP"@[4]);
            assert("VFT_DRV"@[5] != "VFT_DLL"@[5]);
        },
        FileType::Font(_) => {
            assert(t.value_text().take(4) =~= "VFT_"@);
            assert("VFT_FONT"@.len() != "VFT_UNKNOWN"@.len());
            assert("VFT_FONT"@.len() != "VFT_APP"@.len());
            assert("VFT_FONT"@.len() != "VFT_DLL"@.len());
            assert("VFT_FONT"@.len() != "VFT_DRV"@.len());
        },
        FileType::VXD => {
            assert(t.value_text().take(4) =~= "VFT_"@);
            assert("VFT_VXD"@.len() != "VFT_UNKNOWN"@.len());
            assert("VFT_VXD"@[4] != "VFT_APP"@[4]);
            assert("VFT_VXD"@[4] != "VFT_DLL"@[4]);
            assert("VFT_VXD"@[4] != "VFT_DRV"@[4]);
            assert("VFT_VXD"@.len() != "VFT_FONT"@.len());
        },
        FileType::StaticLibrary => {
            assert(t.value_text().take(4) =~= "VFT_"@);
            assert("VFT_STATIC_LIB"@.len() != "VFT_UNKNOWN"@.len());
            assert("VFT_STATIC_LIB"@.len() != "VFT_APP"@.len());
            assert("VFT_STATIC_LIB"@.len() != "VFT_DLL"@.len());
            assert("VFT_STATIC_LIB"@.len() != "VFT_DRV"@.len());
            assert("VFT_STATIC_LIB"@.len() != "VFT_FONT"@.len());
            assert("VFT_STATIC_LIB"@.len() != "VFT_VXD"@.len());
        },
        _ => {},
    }
}

/// Named file types of different numbers have different texts.
pub proof fn lemma_file_type_texts_distinct(a: FileType, b: FileType)
    requires
        a !is Custom,
        b !is Custom,
        a.type_number() != b.type_number(),
    ensures
        a.value_text() != b.value_text(),
{
    lemma_file_type_text(a, 0);
    lemma_file_type_text(b, 0);
}

/// The words of names joined with ` | `, split at spaces: the names, and the
/// bars between them.
proof fn lemma_joined_pieces(parts: Seq<Seq<char>>)
    requires
        parts.len() > 1,
        forall|k: int| 0 <= k < parts.len() ==> !(#[trigger] parts[k]).contains(' '),
    ensures
        pieces(joined(parts, " | "@), ' ') == pieces(joined(parts.drop_last(), " | "@), ' ') + seq![
            seq!['|'],
            parts.last(),
        ],
{
    reveal_strlit(" | ");
    let j = joined(parts.drop_last(), " | "@);
    let bar = seq!['|'];
    let last = parts.last();
    assert(!last.contains(' ')) by {
        assert(last == parts[parts.len() - 1]);
    }
    assert(!bar.contains(' ')) by {
        if bar.contains(' ') {
            let k = choose|k: int| 0 <= k < bar.len() && bar[k] == ' ';
        }
    }
    assert(joined(parts, " | "@) =~= j.push(' ') + (bar.push(' ') + last));
    lemma_pieces_append(j, bar.push(' ') + last, ' ');
    lemma_pieces_append(bar, last, ' ');
    lemma_pieces_single(bar, ' ');
    lemma_pieces_single(last, ' ');
    assert(seq![bar] + seq![last] =~= seq![bar, last]);
}

/// The words of names without spaces joined with ` | ` are the names and,
/// between two or more of them, the bar.
proof fn lemma_joined_words(parts: Seq<Seq<char>>, w: Seq<char>)
    requires
        parts.len() > 0,
        forall|k: int| 0 <= k < parts.len() ==> !(#[trigger] parts[k]).contains(' '),
    ensures
        has_word(joined(parts, " | "@), w) <==> parts.contains(w) || (parts.len() > 1 && w
            == seq!['|']),
    decreases parts.len(),
{
    if parts.len() == 1 {
        lemma_pieces_single(parts[0], ' ');
        if w == parts[0] {
            assert(parts[0] == w);
        }
        if parts.contains(w) {
            let i = choose|i: int| 0 <= i < parts.len() && parts[i] == w;
        }
        if pieces(parts[0], ' ').contains(w) {
            let i = choose|i: int| 0 <= i < 1 && pieces(parts[0], ' ')[i] == w;
        }
        assert(seq![parts[0]][0] == parts[0]);
    } else {
        let init = parts.drop_last();
        assert forall|k: int| 0 <= k < init.len() implies !(#[trigger] init[k]).contains(' ') by {
            assert(init[k] == parts[k]);
        }
        lemma_joined_words(init, w);
        lemma_joined_pieces(parts);
        let tail = seq![seq!['|'], parts.last()];
        lemma_contains_concat(pieces(joined(init, " | "@), ' '), tail, w);
        assert(parts =~= init + seq![parts.last()]);
        lemma_contains_concat(init, seq![parts.last()], w);
        if tail.contains(w) {
            let i = choose|i: int| 0 <= i < tail.len() && tail[i] == w;
        }
        if w == parts.last() {
            assert(tail[1] == w);
            assert(seq![parts.last()][0] == w);
        }
        if w == seq!['|'] {
            assert(tail[0] == w);
        }
        if seq![parts.last()].contains(w) {
            let i = choose|i: int| 0 <= i < 1 && seq![parts.last()][i] == w;
        }
    }
}

/// What a flag adds to the list of names holds its name exactly when it is
/// set.
proof fn lemma_flag_name_contains(set: bool, name: Seq<char>, w: Seq<char>)
    ensures
        flag_name(set, name).contains(w) <==> set && w == name,
{
    if set {
        assert(flag_name(set, name)[0] == name);
    }
    if flag_name(set, name).contains(w) {
        let i = choose|i: int| 0 <= i < flag_name(set, name).len() && flag_name(set, name)[i] == w;
    }
}

/// Each flag is written with its own name: the words of the flags' text are
/// `VS_FF_DEBUG` exactly when `debug` is set, `VS_FF_PATCHED` exactly when
/// `patched` is, and so on for `prerelease`, `privatebuild`, `infoinferred`
/// and `specialbuild`; the word `0` stands exactly when no flag is set.
pub proof fn lemma_flag_words(f: FileFlags)
    ensures
        has_word(f.rendered(), "VS_FF_DEBUG"@) <==> f.debug,
        has_word(f.rendered(), "VS_FF_PATCHED"@) <==> f.patched,
        has_word(f.rendered(), "VS_FF_PRERELEASE"@) <==> f.prerelease,
        has_word(f.rendered(), "VS_FF_PRIVATEBUILD"@) <==> f.privatebuild,
        has_word(f.rendered(), "VS_FF_INFOINFERRED"@) <==> f.infoinferred,
        has_word(f.rendered(), "VS_FF_SPECIALBUILD"@) <==> f.specialbuild,
        has_word(f.rendered(), "0"@) <==> !(f.debug || f.patched || f.prerelease || f.privatebuild
            || f.infoinferred || f.specialbuild),
{
    reveal_strlit("0");
    reveal_strlit("VS_FF_DEBUG");
    reveal_strlit("VS_FF_PATCHED");
    reveal_strlit("VS_FF_PRERELEASE");
    reveal_strlit("VS_FF_PRIVATEBUILD");
    reveal_strlit("VS_FF_INFOINFERRED");
    reveal_strlit("VS_FF_SPECIALBUILD");
    assert("VS_FF_PATCHED"@.len() != "VS_FF_DEBUG"@.len());
    assert("VS_FF_PRERELEASE"@.len() != "VS_FF_DEBUG"@.len());
    assert("VS_FF_PRERELEASE"@.len() != "VS_FF_PATCHED"@.len());
    assert("VS_FF_PRIVATEBUILD"@.len() != "VS_FF_DEBUG"@.len());
    assert("VS_FF_PRIVATEBUILD"@.len() != "VS_FF_PATCHED"@.len());
    assert("VS_FF_PRIVATEBUILD"@.len() != "VS_FF_PRERELEASE"@.len());
    assert("VS_FF_INFOINFERRED"@.len() != "VS_FF_DEBUG"@.len());
    assert("VS_FF_INFOINFERRED"@.len() != "VS_FF_PATCHED"@.len());
    assert("VS_FF_INFOINFERRED"@.len() != "VS_FF_PRERELEASE"@.len());
    assert("VS_FF_INFOINFERRED"@[6] != "VS_FF_PRIVATEBUILD"@[6]);
    assert("VS_FF_SPECIALBUILD"@.len() != "VS_FF_DEBUG"@.len());
    assert("VS_FF_SPECIALBUILD"@.len() != "VS_FF_PATCHED"@.len());
    assert("VS_FF_SPECIALBUILD"@.len() != "VS_FF_PRERELEASE"@.len());
    assert("VS_FF_SPECIALBUILD"@[6] != "VS_FF_PRIVATEBUILD"@[6]);
    assert("VS_FF_SPECIALBUILD"@[6] != "VS_FF_INFOINFERRED"@[6]);
    assert("VS_FF_DEBUG"@.len() != "0"@.len());
    assert("VS_FF_DEBUG"@.len() != 1);
    assert("VS_FF_PATCHED"@.len() != "0"@.len());
    assert("VS_FF_PATCHED"@.len() != 1);
    assert("VS_FF_PRERELEASE"@.len() != "0"@.len());
    assert("VS_FF_PRERELEASE"@.len() != 1);
    assert("VS_FF_PRIVATEBUILD"@.len() != "0"@.len());
    assert("VS_FF_PRIVATEBUILD"@.len() != 1);
    assert("VS_FF_INFOINFERRED"@.len() != "0"@.len());
    assert("VS_FF_INFOINFERRED"@.len() != 1);
    assert("VS_FF_SPECIALBUILD"@.len() != "0"@.len());
    assert("VS_FF_SPECIALBUILD"@.len() != 1);
    let names = f.names();
    let words: Seq<Seq<char>> = seq!["VS_FF_DEBUG"@, "VS_FF_PATCHED"@, "VS_FF_PRERELEASE"@, "VS_FF_PRIVATEBUILD"@, "VS_FF_INFOINFERRED"@, "VS_FF_SPECIALBUILD"@, "0"@];
    let f1 = flag_name(f.debug, "VS_FF_DEBUG"@);
    let f2 = flag_name(f.patched, "VS_FF_PATCHED"@);
    let f3 = flag_name(f.prerelease, "VS_FF_PRERELEASE"@);
    let f4 = flag_name(f.privatebuild, "VS_FF_PRIVATEBUILD"@);
    let f5 = flag_name(f.infoinferred, "VS_FF_INFOINFERRED"@);
    let f6 = flag_name(f.specialbuild, "VS_FF_SPECIALBUILD"@);
    assert forall|w: Seq<char>| #[trigger] names.contains(w) <==> (f.debug && w == "VS_FF_DEBUG"@) || (
        f.patched && w == "VS_FF_PATCHED"@) || (f.prerelease && w == "VS_FF_PRERELEASE"@) || (
        f.privatebuild && w == "VS_FF_PRIVATEBUILD"@) || (f.infoinferred && w
        == "VS_FF_INFOINFERRED"@) || (f.specialbuild && w == "VS_FF_SPECIALBUILD"@) by {
        lemma_contains_concat(f1, f2, w);
        lemma_contains_concat(f1 + f2, f3, w);
        lemma_contains_concat(f1 + f2 + f3, f4, w);
        lemma_contains_concat(f1 + f2 + f3 + f4, f5, w);
        lemma_contains_concat(f1 + f2 + f3 + f4 + f5, f6, w);
        lemma_flag_name_contains(f.debug, "VS_FF_DEBUG"@, w);
        lemma_flag_name_contains(f.patched, "VS_FF_PATCHED"@, w);
        lemma_flag_name_contains(f.prerelease, "VS_FF_PRERELEASE"@, w);
        lemma_flag_name_contains(f.privatebuild, "VS_FF_PRIVATEBUILD"@, w);
        lemma_flag_name_contains(f.infoinferred, "VS_FF_INFOINFERRED"@, w);
        lemma_flag_name_contains(f.specialbuild, "VS_FF_SPECIALBUILD"@, w);
    }
    if names.len() == 0 {
        assert(!names.contains("VS_FF_DEBUG"@));
        assert(f.rendered() == "0"@);
        let zero = "0"@;
        assert(!zero.contains(' ')) by {
            if zero.contains(' ') {
                let k = choose|k: int| 0 <= k < zero.len() && zero[k] == ' ';
            }
        }
        lemma_pieces_single(zero, ' ');
        assert forall|w: Seq<char>| #[trigger] has_word(f.rendered(), w) <==> w == zero by {
            if pieces(zero, ' ').contains(w) {
                let i = choose|i: int| 0 <= i < 1 && pieces(zero, ' ')[i] == w;
            }
            if w == zero {
                assert(pieces(zero, ' ')[0] == w);
            }
        }
        assert(has_word(f.rendered(), "VS_FF_DEBUG"@) <==> f.debug);
        assert(has_word(f.rendered(), "VS_FF_PATCHED"@) <==> f.patched);
        assert(has_word(f.rendered(), "VS_FF_PRERELEASE"@) <==> f.prerelease);
        assert(has_word(f.rendered(), "VS_FF_PRIVATEBUILD"@) <==> f.privatebuild);
        assert(has_word(f.rendered(), "VS_FF_INFOINFERRED"@) <==> f.infoinferred);
        assert(has_word(f.rendered(), "VS_FF_SPECIALBUILD"@) <==> f.specialbuild);
    } else {
        assert forall|k: int| 0 <= k < names.len() implies !(#[trigger] names[k]).contains(' ') by {
            assert(names.contains(names[k]));
            let nk = names[k];
            if nk.contains(' ') {
                let i = choose|i: int| 0 <= i < nk.len() && nk[i] == ' ';
            }
        }
        assert forall|w: Seq<char>| #[trigger] has_word(f.rendered(), w) <==> names.contains(w) || (
            names.len() > 1 && w == seq!['|']) by {
            lemma_joined_words(names, w);
        }
        assert("VS_FF_DEBUG"@ != seq!['|']) by { assert("VS_FF_DEBUG"@.len() != 1); }
        assert("VS_FF_PATCHED"@ != seq!['|']) by { assert("VS_FF_PATCHED"@.len() != 1); }
        assert("VS_FF_PRERELEASE"@ != seq!['|']) by { assert("VS_FF_PRERELEASE"@.len() != 1); }
        assert("VS_FF_PRIVATEBUILD"@ != seq!['|']) by { assert("VS_FF_PRIVATEBUILD"@.len() != 1); }
        assert("VS_FF_INFOINFERRED"@ != seq!['|']) by { assert("VS_FF_INFOINFERRED"@.len() != 1); }
        assert("VS_FF_SPECIALBUILD"@ != seq!['|']) by { assert("VS_FF_SPECIALBUILD"@.len() != 1); }
        assert("0"@ != seq!['|']) by { assert("0"@[0] != seq!['|'][0]); }
    }
}

/// A decimal number holds no space, so it is a single word.
proof fn lemma_decimal_word(n: nat)
    ensures
        !decimal(n).contains(' '),
        !decimal(n).contains(','),
{
    lemma_decimal_digits(n);
    if decimal(n).contains(' ') {
        let k = choose|k: int| 0 <= k < decimal(n).len() && decimal(n)[k] == ' ';
        assert(is_digit(decimal(n)[k]));
    }
    if decimal(n).contains(',') {
        let k = choose|k: int| 0 <= k < decimal(n).len() && decimal(n)[k] == ',';
        assert(is_digit(decimal(n)[k]));
    }
}

/// A version is written as its four numbers in order, separated by a comma
/// and a space: split at the spaces, its words are the major, minor, patch
/// and build numbers in decimal, the first three followed by a comma.
pub proof fn lemma_version_words(v: Version)
    ensures
        pieces(v.rendered(), ' ') == seq![
            decimal(v.0 as nat).push(','),
            decimal(v.1 as nat).push(','),
            decimal(v.2 as nat).push(','),
            decimal(v.3 as nat),
        ],
{
    reveal_strlit(", ");
    let d0 = decimal(v.0 as nat);
    let d1 = decimal(v.1 as nat);
    let d2 = decimal(v.2 as nat);
    let d3 = decimal(v.3 as nat);
    lemma_decimal_word(v.0 as nat);
    lemma_decimal_word(v.1 as nat);
    lemma_decimal_word(v.2 as nat);
    lemma_decimal_word(v.3 as nat);
    let w0 = d0.push(',');
    let w1 = d1.push(',');
    let w2 = d2.push(',');
    assert forall|d: Seq<char>| !d.contains(' ') implies !#[trigger] d.push(',').contains(' ') by {
        if d.push(',').contains(' ') {
            let k = choose|k: int| 0 <= k < d.push(',').len() && d.push(',')[k] == ' ';
            assert(d[k] == ' ');
        }
    }
    lemma_pieces_single(w0, ' ');
    lemma_pieces_single(w1, ' ');
    lemma_pieces_single(w2, ' ');
    lemma_pieces_single(d3, ' ');
    let a = w0.push(' ') + w1;
    let b = a.push(' ') + w2;
    let c = b.push(' ') + d3;
    lemma_pieces_append(w0, w1, ' ');
    lemma_pieces_append(a, w2, ' ');
    lemma_pieces_append(b, d3, ' ');
    assert(v.rendered() =~= c);
    assert(pieces(c, ' ') =~= seq![w0, w1, w2, d3]);
}

/// A custom value is written as its number: the text is all digits and
/// reads back as the number given, for masks, operating systems, file types
/// and their subtypes alike.
pub proof fn lemma_custom_numbers(n: u32, m: u32)
    ensures
        all_digits(FileFlagMask::Custom(n).rendered()),
        digits_value(FileFlagMask::Custom(n).rendered()) == n,
        all_digits(FileOS::Custom(n).value_text()),
        digits_value(FileOS::Custom(n).value_text()) == n,
        all_digits(FileType::Custom(n, m).value_text()),
        digits_value(FileType::Custom(n, m).value_text()) == n,
        all_digits(FileType::Custom(n, m).subvalue_text()),
        digits_value(FileType::Custom(n, m).subvalue_text()) == m,
        all_digits(SubTypeDriver::Custom(n).value_text()),
        digits_value(SubTypeDriver::Custom(n).value_text()) == n,
        all_digits(SubTypeFont::Custom(n).value_text()),
        digits_value(SubTypeFont::Custom(n).value_text()) == n,
{
    lemma_decimal_digits(n as nat);
    lemma_decimal_digits(m as nat);
}

/// The subtype of a file names the driver or font subtype it carries, is the
/// number of a custom subtype, and is `0` for every other type.
pub proof fn lemma_file_subtype(t: FileType)
    ensures
        t matches FileType::Driver(d) ==> (d !is Custom ==> driver_named(t.subvalue_text()) == Some(d)),
        t matches FileType::Font(f) ==> (f !is Custom ==> font_named(t.subvalue_text()) == Some(f)),
        t matches FileType::Driver(SubTypeDriver::Custom(j)) ==> digits_value(t.subvalue_text())
            == j,
        t matches FileType::Font(SubTypeFont::Custom(j)) ==> digits_value(t.subvalue_text()) == j,
        t matches FileType::Custom(_, j) ==> digits_value(t.subvalue_text()) == j,
        (t is Unknown || t is App || t is Dll || t is VXD || t is StaticLibrary) ==> t.subvalue_text()
            == seq!['0'],
{
    reveal_strlit("0");
    match t {
        FileType::Driver(d) => {
            match d {
                SubTypeDriver::Custom(j) => {
                    lemma_decimal_digits(j as nat);
                },
                _ => {
                    lemma_driver_text(d, 0);
                },
            }
        },
        FileType::Font(f) => {
            match f {
                SubTypeFont::Custom(j) => {
                    lemma_decimal_digits(j as nat);
                },
                _ => {
                    lemma_font_text(f, 0);
                },
            }
        },
        FileType::Custom(_, j) => {
            lemma_decimal_digits(j as nat);
        },
        _ => {
            assert("0"@ =~= seq!['0']);
        },
    }
}

} // verus!
