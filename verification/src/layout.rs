//! What the resource script of a version information holds, and where.
use vstd::prelude::*;

use crate::attributes::{escaped, joined, FileFlagMask, FileFlags, FileOS, FileType, SubTypeDriver, SubTypeFont, Version};
use crate::decimal::{decimal, is_digit, lemma_decimal_digits};
use crate::versioninfo::{
    optional_line, script_banner, CargoEnv, string_blocks, translations, value_line, FileInfo, VersionInfo,
};

verus! {

/// Whether the characters `a`, `b` begin one of the words `BEGIN`,
/// `StringFileInfo` and `VarFileInfo`.
pub open spec fn bad_pair(a: char, b: char) -> bool {
    (a == 'B' && b == 'E') || (a == 'S' && b == 't') || (a == 'V' && b == 'a')
}

/// Whether the characters `a`, `b`, `c` begin one of the words `BLOCK` and
/// `VALUE`.
pub open spec fn bad_triple(a: char, b: char, c: char) -> bool {
    (a == 'B' && b == 'L' && c == 'O') || (a == 'V' && b == 'A' && c == 'L')
}

/// Whether one of the words that only the blocks of the languages hold
/// (`BEGIN`, `BLOCK`, `VALUE`, `StringFileInfo`, `VarFileInfo`) could begin
/// at `i` in `s`, judged by its first two or three characters.
pub open spec fn pair_at(s: Seq<char>, i: int) -> bool {
    (i + 1 < s.len() && bad_pair(s[i], s[i + 1])) || (i + 2 < s.len() && bad_triple(
        s[i],
        s[i + 1],
        s[i + 2],
    ))
}

/// Whether none of those words can begin anywhere in `s`.
pub open spec fn pair_free(s: Seq<char>) -> bool {
    forall|i: int| 0 <= i < s.len() ==> !#[trigger] pair_at(s, i)
}

/// Whether the word `w` occurs in `s`.
pub open spec fn occurs(s: Seq<char>, w: Seq<char>) -> bool {
    exists|i: int| 0 <= i && i + w.len() <= s.len() && #[trigger] s.subrange(i, i + w.len()) == w
}

/// Whether `c` can begin one of the words.
spec fn pair_starter(c: char) -> bool {
    c == 'B' || c == 'V' || c == 'S'
}

/// Whether no window that crosses the end of a text ending in `c` can begin
/// one of the words.
spec fn safe_end(c: char) -> bool {
    !pair_starter(c) && c != 'L' && c != 'A'
}

/// Whether no window that crosses the start of a text beginning with `c`
/// can begin one of the words.
spec fn safe_start(c: char) -> bool {
    c != 'E' && c != 't' && c != 'a' && c != 'L' && c != 'O' && c != 'A'
}

/// Two texts in which none of the words can begin, joined where none can
/// begin across the join.
proof fn lemma_append_free(a: Seq<char>, b: Seq<char>)
    requires
        pair_free(a),
        pair_free(b),
        a.len() == 0 || b.len() == 0 || safe_end(a.last()) || safe_start(b[0]),
    ensures
        pair_free(a + b),
{
    let s = a + b;
    assert forall|i: int| 0 <= i < s.len() implies !#[trigger] pair_at(s, i) by {
        if i + 2 < a.len() {
            assert(pair_at(s, i) == pair_at(a, i));
        } else if i < a.len() {
            assert(!pair_at(a, i));
            if i + 1 < a.len() {
                assert(s[i] == a[i]);
                assert(s[i + 1] == a.last());
            } else {
                assert(s[i] == a.last());
            }
            if i + 1 < s.len() && i + 1 >= a.len() {
                assert(s[i + 1] == b[0]);
            }
            if i + 2 < s.len() && i + 2 == a.len() {
                assert(s[i + 2] == b[0]);
            }
            if i + 2 < s.len() && i + 2 > a.len() {
                assert(s[i + 1] == b[0]);
            }
        } else {
            assert(pair_at(s, i) == pair_at(b, i - a.len()));
        }
    }
}

/// A text that no character of which can begin such a pair has none.
proof fn lemma_no_starter_free(s: Seq<char>)
    requires
        forall|i: int| 0 <= i < s.len() ==> !pair_starter(#[trigger] s[i]),
    ensures
        pair_free(s),
{
    assert forall|i: int| 0 <= i < s.len() implies !#[trigger] pair_at(s, i) by {
        assert(!pair_starter(s[i]));
    }
}

/// Numbers in decimal hold no such pair.
proof fn lemma_decimal_free(n: nat)
    ensures
        pair_free(decimal(n)),
        decimal(n).len() > 0,
{
    lemma_decimal_digits(n);
    assert forall|i: int| 0 <= i < decimal(n).len() implies !pair_starter(#[trigger] decimal(n)[i]) by {
        assert(is_digit(decimal(n)[i]));
    }
    lemma_no_starter_free(decimal(n));
}

/// Names joined with ` | ` hold no such pair where the names hold none.
proof fn lemma_joined_free(parts: Seq<Seq<char>>)
    requires
        forall|k: int| 0 <= k < parts.len() ==> pair_free(#[trigger] parts[k]),
    ensures
        pair_free(joined(parts, " | "@)),
    decreases parts.len(),
{
    reveal_strlit(" | ");
    assert(pair_free(" | "@));
    if parts.len() == 0 {
        assert(pair_free(Seq::<char>::empty()));
    } else if parts.len() > 1 {
        let init = parts.drop_last();
        assert forall|k: int| 0 <= k < init.len() implies pair_free(#[trigger] init[k]) by {
            assert(init[k] == parts[k]);
        }
        lemma_joined_free(init);
        let j = joined(init, " | "@);
        lemma_append_free(j, " | "@);
        assert(pair_free(parts[parts.len() - 1]));
        lemma_append_free(j + " | "@, parts.last());
    }
}

/// The texts of the versions, flags, operating systems and file types hold
/// no such pair.
proof fn lemma_values_free(info: VersionInfo)
    ensures
        pair_free(info.file_version.rendered()),
        pair_free(info.product_version.rendered()),
        pair_free(info.file_flag_mask.rendered()),
        pair_free(info.file_flags.rendered()),
        pair_free(info.file_os.value_text()),
        pair_free(info.file_type.value_text()),
        pair_free(info.file_type.subvalue_text()),
{
    lemma_version_free(info.file_version);
    lemma_version_free(info.product_version);
    lemma_mask_free(info.file_flag_mask);
    lemma_flags_free(info.file_flags);
    lemma_os_free(info.file_os);
    lemma_type_free(info.file_type);
}

proof fn lemma_version_free(v: Version)
    ensures
        pair_free(v.rendered()),
{
    reveal_strlit(", ");
    assert(pair_free(", "@));
    lemma_decimal_free(v.0 as nat);
    lemma_decimal_free(v.1 as nat);
    lemma_decimal_free(v.2 as nat);
    lemma_decimal_free(v.3 as nat);
    let sep = ", "@;
    let a = decimal(v.0 as nat);
    lemma_append_free(a, sep);
    lemma_append_free(a + sep, decimal(v.1 as nat));
    let b = a + sep + decimal(v.1 as nat);
    lemma_append_free(b, sep);
    lemma_append_free(b + sep, decimal(v.2 as nat));
    let c = b + sep + decimal(v.2 as nat);
    lemma_append_free(c, sep);
    lemma_append_free(c + sep, decimal(v.3 as nat));
}

proof fn lemma_mask_free(m: FileFlagMask)
    ensures
        pair_free(m.rendered()),
{
    reveal_strlit("VS_FFI_FILEFLAGSMASK");
    assert(pair_free("VS_FFI_FILEFLAGSMASK"@));
    if let FileFlagMask::Custom(i) = m {
        lemma_decimal_free(i as nat);
    }
}

proof fn lemma_flags_free(f: FileFlags)
    ensures
        pair_free(f.rendered()),
{
    reveal_strlit("0");
    assert(pair_free("0"@));
    reveal_strlit("VS_FF_DEBUG");
    reveal_strlit("VS_FF_PATCHED");
    reveal_strlit("VS_FF_PRERELEASE");
    reveal_strlit("VS_FF_PRIVATEBUILD");
    reveal_strlit("VS_FF_INFOINFERRED");
    reveal_strlit("VS_FF_SPECIALBUILD");
    assert(pair_free("VS_FF_DEBUG"@));
    assert(pair_free("VS_FF_PATCHED"@));
    assert(pair_free("VS_FF_PRERELEASE"@));
    assert(pair_free("VS_FF_PRIVATEBUILD"@));
    assert(pair_free("VS_FF_INFOINFERRED"@));
    assert(pair_free("VS_FF_SPECIALBUILD"@));
    let names = f.names();
    assert forall|k: int| 0 <= k < names.len() implies pair_free(#[trigger] names[k]) by {
    }
    lemma_joined_free(names);
}

proof fn lemma_os_free(os: FileOS)
    ensures
        pair_free(os.value_text()),
{
    match os {
        FileOS::Custom(i) => {
            lemma_decimal_free(i as nat);
        },
        _ => {
            reveal_strlit("VOS_UNKNOWN");
            reveal_strlit("VOS_DOS");
            reveal_strlit("VOS_OS216");
            reveal_strlit("VOS_OS232");
            reveal_strlit("VOS_NT");
            reveal_strlit("VOS_WINCE");
            reveal_strlit("VOS__BASE");
            reveal_strlit("VOS__WINDOWS16");
            reveal_strlit("VOS__PM16");
            reveal_strlit("VOS__PM32");
            reveal_strlit("VOS__WINDOWS32");
            reveal_strlit("VOS_DOS_WINDOWS16");
            reveal_strlit("VOS_DOS_WINDOWS32");
            reveal_strlit("VOS_OS216_PM16");
            reveal_strlit("VOS_OS232_PM32");
            reveal_strlit("VOS_NT_WINDOWS32");
            assert(pair_free("VOS_UNKNOWN"@));
            assert(pair_free("VOS_DOS"@));
            assert(pair_free("VOS_OS216"@));
            assert(pair_free("VOS_OS232"@));
            assert(pair_free("VOS_NT"@));
            assert(pair_free("VOS_WINCE"@));
            assert(pair_free("VOS__BASE"@));
            assert(pair_free("VOS__WINDOWS16"@));
            assert(pair_free("VOS__PM16"@));
            assert(pair_free("VOS__PM32"@));
            assert(pair_free("VOS__WINDOWS32"@));
            assert(pair_free("VOS_DOS_WINDOWS16"@));
            assert(pair_free("VOS_DOS_WINDOWS32"@));
            assert(pair_free("VOS_OS216_PM16"@));
            assert(pair_free("VOS_OS232_PM32"@));
            assert(pair_free("VOS_NT_WINDOWS32"@));
        },
    }
}

proof fn lemma_driver_free(t: SubTypeDriver)
    ensures
        pair_free(t.value_text()),
{
    match t {
        SubTypeDriver::Custom(i) => {
            lemma_decimal_free(i as nat);
        },
        _ => {
            reveal_strlit("VFT2_UNKNOWN");
            reveal_strlit("VFT2_DRV_PRINTER");
            reveal_strlit("VFT2_DRV_KEYBOARD");
            reveal_strlit("VFT2_DRV_LANGUAGE");
            reveal_strlit("VFT2_DRV_DISPLAY");
            reveal_strlit("VFT2_DRV_MOUSE");
            reveal_strlit("VFT2_DRV_NETWORK");
            reveal_strlit("VFT2_DRV_SYSTEM");
            reveal_strlit("VFT2_DRV_INSTALLABLE");
            reveal_strlit("VFT2_DRV_SOUND");
            reveal_strlit("VFT2_DRV_COMM");
            reveal_strlit("VFT2_DRV_INPUTMETHOD");
            reveal_strlit("VFT2_DRV_VERSIONED_PRINTER");
            assert(pair_free("VFT2_UNKNOWN"@));
            assert(pair_free("VFT2_DRV_PRINTER"@));
            assert(pair_free("VFT2_DRV_KEYBOARD"@));
            assert(pair_free("VFT2_DRV_LANGUAGE"@));
            assert(pair_free("VFT2_DRV_DISPLAY"@));
            assert(pair_free("VFT2_DRV_MOUSE"@));
            assert(pair_free("VFT2_DRV_NETWORK"@));
            assert(pair_free("VFT2_DRV_SYSTEM"@));
            assert(pair_free("VFT2_DRV_INSTALLABLE"@));
            assert(pair_free("VFT2_DRV_SOUND"@));
            assert(pair_free("VFT2_DRV_COMM"@));
            assert(pair_free("VFT2_DRV_INPUTMETHOD"@));
            assert(pair_free("VFT2_DRV_VERSIONED_PRINTER"@));
        },
    }
}

proof fn lemma_font_free(t: SubTypeFont)
    ensures
        pair_free(t.value_text()),
{
    match t {
        SubTypeFont::Custom(i) => {
            lemma_decimal_free(i as nat);
        },
        _ => {
            reveal_strlit("VFT2_FONT_RASTER");
            reveal_strlit("VFT2_FONT_VECTOR");
            reveal_strlit("VFT2_FONT_TRUETYPE");
            assert(pair_free("VFT2_FONT_RASTER"@));
            assert(pair_free("VFT2_FONT_VECTOR"@));
            assert(pair_free("VFT2_FONT_TRUETYPE"@));
        },
    }
}

proof fn lemma_type_free(t: FileType)
    ensures
        pair_free(t.value_text()),
        pair_free(t.subvalue_text()),
{
    reveal_strlit("0");
    assert(pair_free("0"@));
    reveal_strlit("VFT_UNKNOWN");
    reveal_strlit("VFT_APP");
    reveal_strlit("VFT_DLL");
    reveal_strlit("VFT_DRV");
    reveal_strlit("VFT_FONT");
    reveal_strlit("VFT_VXD");
    reveal_strlit("VFT_STATIC_LIB");
    assert(pair_free("VFT_UNKNOWN"@));
    assert(pair_free("VFT_APP"@));
    assert(pair_free("VFT_DLL"@));
    assert(pair_free("VFT_DRV"@));
    assert(pair_free("VFT_FONT"@));
    assert(pair_free("VFT_VXD"@));
    assert(pair_free("VFT_STATIC_LIB"@));
    match t {
        FileType::Custom(i, j) => {
            lemma_decimal_free(i as nat);
            lemma_decimal_free(j as nat);
        },
        FileType::Driver(d) => {
            lemma_driver_free(d);
        },
        FileType::Font(f) => {
            lemma_font_free(f);
        },
        _ => {},
    }
}

/// A word that begins with such a pair does not occur in a text without one.
proof fn lemma_word_absent(s: Seq<char>, w: Seq<char>)
    requires
        pair_free(s),
        w.len() >= 3,
        pair_at(w, 0),
    ensures
        !occurs(s, w),
{
    if occurs(s, w) {
        let i = choose|i: int| 0 <= i && i + w.len() <= s.len() && #[trigger] s.subrange(i, i + w.len()) == w;
        assert(s.subrange(i, i + w.len())[0] == s[i]);
        assert(s.subrange(i, i + w.len())[1] == s[i + 1]);
        assert(s.subrange(i, i + w.len())[2] == s[i + 2]);
        assert(pair_at(s, i));
    }
}

/// The resource script of a version information without languages has no
/// language blocks: it holds none of the words `BEGIN`, `BLOCK`, `VALUE`,
/// `StringFileInfo` and `VarFileInfo`, and it ends with the line of the file
/// subtype and the closing `END`.
pub proof fn lemma_script_without_languages(info: VersionInfo)
    requires
        info.file_info@.len() == 0,
    ensures
        ("\nFILESUBTYPE     "@ + info.file_type.subvalue_text() + "\nEND\n"@).is_suffix_of(
            info.rc_script(),
        ),
        !occurs(info.rc_script(), "BEGIN"@),
        !occurs(info.rc_script(), "BLOCK"@),
        !occurs(info.rc_script(), "VALUE"@),
        !occurs(info.rc_script(), "StringFileInfo"@),
        !occurs(info.rc_script(), "VarFileInfo"@),
{
    reveal_strlit("// This resource script was autogenerated\n// Do not change manually!!!\n");
    reveal_strlit("#include<winver.h>\n");
    reveal_strlit("VS_VERSION_INFO VERSIONINFO\n");
    reveal_strlit("FILEVERSION     ");
    reveal_strlit("PRODUCTVERSION  ");
    reveal_strlit("FILEFLAGSMASK   ");
    reveal_strlit("FILEFLAGS       ");
    reveal_strlit("FILEOS          ");
    reveal_strlit("FILETYPE        ");
    reveal_strlit("FILESUBTYPE     ");
    reveal_strlit("\n");
    reveal_strlit("END\n");
    reveal_strlit("\nFILESUBTYPE     ");
    reveal_strlit("\nEND\n");
    reveal_strlit("BEGIN");
    reveal_strlit("BLOCK");
    reveal_strlit("VALUE");
    reveal_strlit("StringFileInfo");
    reveal_strlit("VarFileInfo");
    assert(pair_free(script_banner()));
    assert(pair_free("#include<winver.h>\n"@));
    assert(pair_free("VS_VERSION_INFO VERSIONINFO\n"@));
    assert(pair_free("FILEVERSION     "@));
    assert(pair_free("PRODUCTVERSION  "@));
    assert(pair_free("FILEFLAGSMASK   "@));
    assert(pair_free("FILEFLAGS       "@));
    assert(pair_free("FILEOS          "@));
    assert(pair_free("FILETYPE        "@));
    assert(pair_free("FILESUBTYPE     "@));
    assert(pair_free("\n"@));
    assert(pair_free("END\n"@));
    lemma_values_free(info);
    let pieces: Seq<Seq<char>> = seq![
        script_banner(),
        "#include<winver.h>\n"@,
        "VS_VERSION_INFO VERSIONINFO\n"@,
        "FILEVERSION     "@,
        info.file_version.rendered(),
        "\n"@,
        "PRODUCTVERSION  "@,
        info.product_version.rendered(),
        "\n"@,
        "FILEFLAGSMASK   "@,
        info.file_flag_mask.rendered(),
        "\n"@,
        "FILEFLAGS       "@,
        info.file_flags.rendered(),
        "\n"@,
        "FILEOS          "@,
        info.file_os.value_text(),
        "\n"@,
        "FILETYPE        "@,
        info.file_type.value_text(),
        "\n"@,
        "FILESUBTYPE     "@,
        info.file_type.subvalue_text(),
        "\n"@,
        "END\n"@,
    ];
    let acc0 = pieces[0];
    lemma_append_free(acc0, pieces[1]);
    let acc1 = acc0 + pieces[1];
    lemma_append_free(acc1, pieces[2]);
    let acc2 = acc1 + pieces[2];
    lemma_append_free(acc2, pieces[3]);
    let acc3 = acc2 + pieces[3];
    lemma_append_free(acc3, pieces[4]);
    let acc4 = acc3 + pieces[4];
    lemma_append_free(acc4, pieces[5]);
    let acc5 = acc4 + pieces[5];
    lemma_append_free(acc5, pieces[6]);
    let acc6 = acc5 + pieces[6];
    lemma_append_free(acc6, pieces[7]);
    let acc7 = acc6 + pieces[7];
    lemma_append_free(acc7, pieces[8]);
    let acc8 = acc7 + pieces[8];
    lemma_append_free(acc8, pieces[9]);
    let acc9 = acc8 + pieces[9];
    lemma_append_free(acc9, pieces[10]);
    let acc10 = acc9 + pieces[10];
    lemma_append_free(acc10, pieces[11]);
    let acc11 = acc10 + pieces[11];
    lemma_append_free(acc11, pieces[12]);
    let acc12 = acc11 + pieces[12];
    lemma_append_free(acc12, pieces[13]);
    let acc13 = acc12 + pieces[13];
    lemma_append_free(acc13, pieces[14]);
    let acc14 = acc13 + pieces[14];
    lemma_append_free(acc14, pieces[15]);
    let acc15 = acc14 + pieces[15];
    lemma_append_free(acc15, pieces[16]);
    let acc16 = acc15 + pieces[16];
    lemma_append_free(acc16, pieces[17]);
    let acc17 = acc16 + pieces[17];
    lemma_append_free(acc17, pieces[18]);
    let acc18 = acc17 + pieces[18];
    lemma_append_free(acc18, pieces[19]);
    let acc19 = acc18 + pieces[19];
    lemma_append_free(acc19, pieces[20]);
    let acc20 = acc19 + pieces[20];
    lemma_append_free(acc20, pieces[21]);
    let acc21 = acc20 + pieces[21];
    lemma_append_free(acc21, pieces[22]);
    let acc22 = acc21 + pieces[22];
    lemma_append_free(acc22, pieces[23]);
    let acc23 = acc22 + pieces[23];
    lemma_append_free(acc23, pieces[24]);
    let acc24 = acc23 + pieces[24];
    let script = info.rc_script();
    assert(info.language_part() =~= Seq::<char>::empty());
    assert(script =~= acc24);
    lemma_word_absent(script, "BEGIN"@);
    lemma_word_absent(script, "BLOCK"@);
    lemma_word_absent(script, "VALUE"@);
    lemma_word_absent(script, "StringFileInfo"@);
    lemma_word_absent(script, "VarFileInfo"@);
    let tail = "\nFILESUBTYPE     "@ + info.file_type.subvalue_text() + "\nEND\n"@;
    assert(tail =~= script.subrange(script.len() - tail.len(), script.len() as int));
}

/// A word in a text is in every text that holds it.
proof fn lemma_occurs_append(x: Seq<char>, y: Seq<char>, w: Seq<char>)
    ensures
        occurs(x, w) ==> occurs(x + y, w),
        occurs(y, w) ==> occurs(x + y, w),
{
    if occurs(x, w) {
        let i = choose|i: int| 0 <= i && i + w.len() <= x.len() && #[trigger] x.subrange(i, i + w.len()) == w;
        assert((x + y).subrange(i, i + w.len()) =~= x.subrange(i, i + w.len()));
    }
    if occurs(y, w) {
        let i = choose|i: int| 0 <= i && i + w.len() <= y.len() && #[trigger] y.subrange(i, i + w.len()) == w;
        assert((x + y).subrange(x.len() + i, x.len() + i + w.len()) =~= y.subrange(i, i + w.len()));
    }
}

/// Every text holds itself.
proof fn lemma_occurs_self(w: Seq<char>)
    ensures
        occurs(w, w),
{
    let z: int = 0;
    assert(w.subrange(z, z + w.len()) =~= w);
}

/// What the block of strings of one language holds is in the blocks of all.
proof fn lemma_blocks_hold(infos: Seq<FileInfo>, k: int, w: Seq<char>)
    requires
        0 <= k < infos.len(),
        occurs(infos[k].string_block(), w),
    ensures
        occurs(string_blocks(infos), w),
    decreases infos.len(),
{
    let init = infos.drop_last();
    if k == infos.len() - 1 {
        lemma_occurs_append(string_blocks(init), infos.last().string_block(), w);
    } else {
        assert(init[k] == infos[k]);
        lemma_blocks_hold(init, k, w);
        lemma_occurs_append(string_blocks(init), infos.last().string_block(), w);
    }
}

/// What the translation entry of one language holds is in the table.
proof fn lemma_translations_hold(infos: Seq<FileInfo>, k: int, w: Seq<char>)
    requires
        0 <= k < infos.len(),
        occurs(infos[k].translation(), w),
    ensures
        occurs(translations(infos), w),
    decreases infos.len(),
{
    let init = infos.drop_last();
    if k == infos.len() - 1 {
        lemma_occurs_append(translations(init), infos.last().translation(), w);
    } else {
        assert(init[k] == infos[k]);
        lemma_translations_hold(init, k, w);
        lemma_occurs_append(translations(init), infos.last().translation(), w);
    }
}

/// What the block of strings or the translation entry of a language holds
/// is in the script.
proof fn lemma_script_holds(info: VersionInfo, k: int, w: Seq<char>)
    requires
        0 <= k < info.file_info@.len(),
        occurs(info.file_info@[k].string_block(), w) || occurs(info.file_info@[k].translation(), w),
    ensures
        occurs(info.rc_script(), w),
{
    let infos = info.file_info@;
    if occurs(infos[k].string_block(), w) {
        lemma_blocks_hold(infos, k, w);
    } else {
        lemma_translations_hold(infos, k, w);
    }
    let a = "BEGIN\n BLOCK \"StringFileInfo\"\n BEGIN\n"@;
    let b = string_blocks(infos);
    let c = " END\n\n"@;
    let d = " BLOCK \"VarFileInfo\"\n BEGIN\n"@;
    let e = "  VALUE \"Translation\""@;
    let f = translations(infos);
    let g = "\n END\n"@;
    lemma_occurs_append(a, b, w);
    lemma_occurs_append(a + b, c, w);
    lemma_occurs_append(a + b + c, d, w);
    lemma_occurs_append(a + b + c + d, e, w);
    lemma_occurs_append(a + b + c + d + e, f, w);
    lemma_occurs_append(a + b + c + d + e + f, g, w);
    assert(info.language_part() == a + b + c + d + e + f + g);
    lemma_occurs_append(info.fixed_part(), info.language_part(), w);
    lemma_occurs_append(info.fixed_part() + info.language_part(), "END\n"@, w);
}

/// The block of strings of a language holds each piece of it.
proof fn lemma_block_holds_pieces(fi: FileInfo, w: Seq<char>)
    requires
        occurs("  BLOCK \""@ + fi.block_name() + "\"\n  BEGIN\n"@, w) || occurs(value_line("CompanyName"@, fi.company_name), w) || occurs(value_line("FileDescription"@, fi.file_description), w) || occurs(value_line("FileVersion"@, fi.file_version), w) || occurs(value_line("InternalName"@, fi.internal_name), w) || occurs(value_line("OriginalFilename"@, fi.original_filename), w) || occurs(value_line("ProductName"@, fi.product_name), w) || occurs(value_line("ProductVersion"@, fi.product_version), w) || occurs(optional_line("Comments"@, fi.comment), w) || occurs(optional_line("LegalCopyright"@, fi.legal_copyright), w) || occurs(optional_line("LegalTrademarks"@, fi.legal_trademarks), w) || occurs(optional_line("PrivateBuild"@, fi.private_build), w) || occurs(optional_line("SpecialBuild"@, fi.special_build), w) || occurs("  END\n"@, w),
    ensures
        occurs(fi.string_block(), w),
{
    let p0 = "  BLOCK \""@ + fi.block_name() + "\"\n  BEGIN\n"@;
    lemma_occurs_append(p0, value_line("CompanyName"@, fi.company_name), w);
    let p1 = p0 + value_line("CompanyName"@, fi.company_name);
    lemma_occurs_append(p1, value_line("FileDescription"@, fi.file_description), w);
    let p2 = p1 + value_line("FileDescription"@, fi.file_description);
    lemma_occurs_append(p2, value_line("FileVersion"@, fi.file_version), w);
    let p3 = p2 + value_line("FileVersion"@, fi.file_version);
    lemma_occurs_append(p3, value_line("InternalName"@, fi.internal_name), w);
    let p4 = p3 + value_line("InternalName"@, fi.internal_name);
    lemma_occurs_append(p4, value_line("OriginalFilename"@, fi.original_filename), w);
    let p5 = p4 + value_line("OriginalFilename"@, fi.original_filename);
    lemma_occurs_append(p5, value_line("ProductName"@, fi.product_name), w);
    let p6 = p5 + value_line("ProductName"@, fi.product_name);
    lemma_occurs_append(p6, value_line("ProductVersion"@, fi.product_version), w);
    let p7 = p6 + value_line("ProductVersion"@, fi.product_version);
    lemma_occurs_append(p7, optional_line("Comments"@, fi.comment), w);
    let p8 = p7 + optional_line("Comments"@, fi.comment);
    lemma_occurs_append(p8, optional_line("LegalCopyright"@, fi.legal_copyright), w);
    let p9 = p8 + optional_line("LegalCopyright"@, fi.legal_copyright);
    lemma_occurs_append(p9, optional_line("LegalTrademarks"@, fi.legal_trademarks), w);
    let p10 = p9 + optional_line("LegalTrademarks"@, fi.legal_trademarks);
    lemma_occurs_append(p10, optional_line("PrivateBuild"@, fi.private_build), w);
    let p11 = p10 + optional_line("PrivateBuild"@, fi.private_build);
    lemma_occurs_append(p11, optional_line("SpecialBuild"@, fi.special_build), w);
    let p12 = p11 + optional_line("SpecialBuild"@, fi.special_build);
    lemma_occurs_append(p12, "  END\n"@, w);
    let p13 = p12 + "  END\n"@;
    assert(fi.string_block() == p13);
}

/// The script holds the line `FILEVERSION` with its value.
proof fn lemma_fixed_line_version(info: VersionInfo)
    ensures
        occurs(info.rc_script(), "\nFILEVERSION     "@ + info.file_version.rendered() + "\n"@),
{
    reveal_strlit("\nFILEVERSION     ");
    reveal_strlit("FILEVERSION     ");
    reveal_strlit("\n");
    let w = "\nFILEVERSION     "@ + info.file_version.rendered() + "\n"@;
    let q0 = script_banner();
    let q1 = q0 + "#include<winver.h>\n"@;
    let q2 = q1 + "VS_VERSION_INFO VERSIONINFO\n"@;
    let q3 = q2 + "FILEVERSION     "@;
    let q4 = q3 + info.file_version.rendered();
    let q5 = q4 + "\n"@;
    let q6 = q5 + "PRODUCTVERSION  "@;
    let q7 = q6 + info.product_version.rendered();
    let q8 = q7 + "\n"@;
    let q9 = q8 + "FILEFLAGSMASK   "@;
    let q10 = q9 + info.file_flag_mask.rendered();
    let q11 = q10 + "\n"@;
    let q12 = q11 + "FILEFLAGS       "@;
    let q13 = q12 + info.file_flags.rendered();
    let q14 = q13 + "\n"@;
    let q15 = q14 + "FILEOS          "@;
    let q16 = q15 + info.file_os.value_text();
    let q17 = q16 + "\n"@;
    let q18 = q17 + "FILETYPE        "@;
    let q19 = q18 + info.file_type.value_text();
    let q20 = q19 + "\n"@;
    let q21 = q20 + "FILESUBTYPE     "@;
    let q22 = q21 + info.file_type.subvalue_text();
    let q23 = q22 + "\n"@;
    assert(info.fixed_part() == q23);
    let head = script_banner() + "#include<winver.h>\n"@ + "VS_VERSION_INFO VERSIONINFO"@;
    reveal_strlit("VS_VERSION_INFO VERSIONINFO\n");
    reveal_strlit("VS_VERSION_INFO VERSIONINFO");
    assert(q5 =~= head + w);
    lemma_occurs_self(w);
    lemma_occurs_append(head, w, w);
    lemma_occurs_append(q5, "PRODUCTVERSION  "@, w);
    lemma_occurs_append(q6, info.product_version.rendered(), w);
    lemma_occurs_append(q7, "\n"@, w);
    lemma_occurs_append(q8, "FILEFLAGSMASK   "@, w);
    lemma_occurs_append(q9, info.file_flag_mask.rendered(), w);
    lemma_occurs_append(q10, "\n"@, w);
    lemma_occurs_append(q11, "FILEFLAGS       "@, w);
    lemma_occurs_append(q12, info.file_flags.rendered(), w);
    lemma_occurs_append(q13, "\n"@, w);
    lemma_occurs_append(q14, "FILEOS          "@, w);
    lemma_occurs_append(q15, info.file_os.value_text(), w);
    lemma_occurs_append(q16, "\n"@, w);
    lemma_occurs_append(q17, "FILETYPE        "@, w);
    lemma_occurs_append(q18, info.file_type.value_text(), w);
    lemma_occurs_append(q19, "\n"@, w);
    lemma_occurs_append(q20, "FILESUBTYPE     "@, w);
    lemma_occurs_append(q21, info.file_type.subvalue_text(), w);
    lemma_occurs_append(q22, "\n"@, w);
    lemma_occurs_append(info.fixed_part(), info.language_part(), w);
    lemma_occurs_append(info.fixed_part() + info.language_part(), "END\n"@, w);
}

/// The script holds the line `PRODUCTVERSION` with its value.
proof fn lemma_fixed_line_product_version(info: VersionInfo)
    ensures
        occurs(info.rc_script(), "\nPRODUCTVERSION  "@ + info.product_version.rendered() + "\n"@),
{
    reveal_strlit("\nPRODUCTVERSION  ");
    reveal_strlit("PRODUCTVERSION  ");
    reveal_strlit("\n");
    let w = "\nPRODUCTVERSION  "@ + info.product_version.rendered() + "\n"@;
    let q0 = script_banner();
    let q1 = q0 + "#include<winver.h>\n"@;
    let q2 = q1 + "VS_VERSION_INFO VERSIONINFO\n"@;
    let q3 = q2 + "FILEVERSION     "@;
    let q4 = q3 + info.file_version.rendered();
    let q5 = q4 + "\n"@;
    let q6 = q5 + "PRODUCTVERSION  "@;
    let q7 = q6 + info.product_version.rendered();
    let q8 = q7 + "\n"@;
    let q9 = q8 + "FILEFLAGSMASK   "@;
    let q10 = q9 + info.file_flag_mask.rendered();
    let q11 = q10 + "\n"@;
    let q12 = q11 + "FILEFLAGS       "@;
    let q13 = q12 + info.file_flags.rendered();
    let q14 = q13 + "\n"@;
    let q15 = q14 + "FILEOS          "@;
    let q16 = q15 + info.file_os.value_text();
    let q17 = q16 + "\n"@;
    let q18 = q17 + "FILETYPE        "@;
    let q19 = q18 + info.file_type.value_text();
    let q20 = q19 + "\n"@;
    let q21 = q20 + "FILESUBTYPE     "@;
    let q22 = q21 + info.file_type.subvalue_text();
    let q23 = q22 + "\n"@;
    assert(info.fixed_part() == q23);
    assert(q8 =~= q4 + w);
    let head = q4;
    lemma_occurs_self(w);
    lemma_occurs_append(head, w, w);
    lemma_occurs_append(q8, "FILEFLAGSMASK   "@, w);
    lemma_occurs_append(q9, info.file_flag_mask.rendered(), w);
    lemma_occurs_append(q10, "\n"@, w);
    lemma_occurs_append(q11, "FILEFLAGS       "@, w);
    lemma_occurs_append(q12, info.file_flags.rendered(), w);
    lemma_occurs_append(q13, "\n"@, w);
    lemma_occurs_append(q14, "FILEOS          "@, w);
    lemma_occurs_append(q15, info.file_os.value_text(), w);
    lemma_occurs_append(q16, "\n"@, w);
    lemma_occurs_append(q17, "FILETYPE        "@, w);
    lemma_occurs_append(q18, info.file_type.value_text(), w);
    lemma_occurs_append(q19, "\n"@, w);
    lemma_occurs_append(q20, "FILESUBTYPE     "@, w);
    lemma_occurs_append(q21, info.file_type.subvalue_text(), w);
    lemma_occurs_append(q22, "\n"@, w);
    lemma_occurs_append(info.fixed_part(), info.language_part(), w);
    lemma_occurs_append(info.fixed_part() + info.language_part(), "END\n"@, w);
}

/// The script holds the line `FILEFLAGSMASK` with its value.
proof fn lemma_fixed_line_mask(info: VersionInfo)
    ensures
        occurs(info.rc_script(), "\nFILEFLAGSMASK   "@ + info.file_flag_mask.rendered() + "\n"@),
{
    reveal_strlit("\nFILEFLAGSMASK   ");
    reveal_strlit("FILEFLAGSMASK   ");
    reveal_strlit("\n");
    let w = "\nFILEFLAGSMASK   "@ + info.file_flag_mask.rendered() + "\n"@;
    let q0 = script_banner();
    let q1 = q0 + "#include<winver.h>\n"@;
    let q2 = q1 + "VS_VERSION_INFO VERSIONINFO\n"@;
    let q3 = q2 + "FILEVERSION     "@;
    let q4 = q3 + info.file_version.rendered();
    let q5 = q4 + "\n"@;
    let q6 = q5 + "PRODUCTVERSION  "@;
    let q7 = q6 + info.product_version.rendered();
    let q8 = q7 + "\n"@;
    let q9 = q8 + "FILEFLAGSMASK   "@;
    let q10 = q9 + info.file_flag_mask.rendered();
    let q11 = q10 + "\n"@;
    let q12 = q11 + "FILEFLAGS       "@;
    let q13 = q12 + info.file_flags.rendered();
    let q14 = q13 + "\n"@;
    let q15 = q14 + "FILEOS          "@;
    let q16 = q15 + info.file_os.value_text();
    let q17 = q16 + "\n"@;
    let q18 = q17 + "FILETYPE        "@;
    let q19 = q18 + info.file_type.value_text();
    let q20 = q19 + "\n"@;
    let q21 = q20 + "FILESUBTYPE     "@;
    let q22 = q21 + info.file_type.subvalue_text();
    let q23 = q22 + "\n"@;
    assert(info.fixed_part() == q23);
    assert(q11 =~= q7 + w);
    let head = q7;
    lemma_occurs_self(w);
    lemma_occurs_append(head, w, w);
    lemma_occurs_append(q11, "FILEFLAGS       "@, w);
    lemma_occurs_append(q12, info.file_flags.rendered(), w);
    lemma_occurs_append(q13, "\n"@, w);
    lemma_occurs_append(q14, "FILEOS          "@, w);
    lemma_occurs_append(q15, info.file_os.value_text(), w);
    lemma_occurs_append(q16, "\n"@, w);
    lemma_occurs_append(q17, "FILETYPE        "@, w);
    lemma_occurs_append(q18, info.file_type.value_text(), w);
    lemma_occurs_append(q19, "\n"@, w);
    lemma_occurs_append(q20, "FILESUBTYPE     "@, w);
    lemma_occurs_append(q21, info.file_type.subvalue_text(), w);
    lemma_occurs_append(q22, "\n"@, w);
    lemma_occurs_append(info.fixed_part(), info.language_part(), w);
    lemma_occurs_append(info.fixed_part() + info.language_part(), "END\n"@, w);
}

/// The script holds the line `FILEFLAGS` with its value.
proof fn lemma_fixed_line_flags(info: VersionInfo)
    ensures
        occurs(info.rc_script(), "\nFILEFLAGS       "@ + info.file_flags.rendered() + "\n"@),
{
    reveal_strlit("\nFILEFLAGS       ");
    reveal_strlit("FILEFLAGS       ");
    reveal_strlit("\n");
    let w = "\nFILEFLAGS       "@ + info.file_flags.rendered() + "\n"@;
    let q0 = script_banner();
    let q1 = q0 + "#include<winver.h>\n"@;
    let q2 = q1 + "VS_VERSION_INFO VERSIONINFO\n"@;
    let q3 = q2 + "FILEVERSION     "@;
    let q4 = q3 + info.file_version.rendered();
    let q5 = q4 + "\n"@;
    let q6 = q5 + "PRODUCTVERSION  "@;
    let q7 = q6 + info.product_version.rendered();
    let q8 = q7 + "\n"@;
    let q9 = q8 + "FILEFLAGSMASK   "@;
    let q10 = q9 + info.file_flag_mask.rendered();
    let q11 = q10 + "\n"@;
    let q12 = q11 + "FILEFLAGS       "@;
    let q13 = q12 + info.file_flags.rendered();
    let q14 = q13 + "\n"@;
    let q15 = q14 + "FILEOS          "@;
    let q16 = q15 + info.file_os.value_text();
    let q17 = q16 + "\n"@;
    let q18 = q17 + "FILETYPE        "@;
    let q19 = q18 + info.file_type.value_text();
    let q20 = q19 + "\n"@;
    let q21 = q20 + "FILESUBTYPE     "@;
    let q22 = q21 + info.file_type.subvalue_text();
    let q23 = q22 + "\n"@;
    assert(info.fixed_part() == q23);
    assert(q14 =~= q10 + w);
    let head = q10;
    lemma_occurs_self(w);
    lemma_occurs_append(head, w, w);
    lemma_occurs_append(q14, "FILEOS          "@, w);
    lemma_occurs_append(q15, info.file_os.value_text(), w);
    lemma_occurs_append(q16, "\n"@, w);
    lemma_occurs_append(q17, "FILETYPE        "@, w);
    lemma_occurs_append(q18, info.file_type.value_text(), w);
    lemma_occurs_append(q19, "\n"@, w);
    lemma_occurs_append(q20, "FILESUBTYPE     "@, w);
    lemma_occurs_append(q21, info.file_type.subvalue_text(), w);
    lemma_occurs_append(q22, "\n"@, w);
    lemma_occurs_append(info.fixed_part(), info.language_part(), w);
    lemma_occurs_append(info.fixed_part() + info.language_part(), "END\n"@, w);
}

/// The script holds the line `FILEOS` with its value.
proof fn lemma_fixed_line_os(info: VersionInfo)
    ensures
        occurs(info.rc_script(), "\nFILEOS          "@ + info.file_os.value_text() + "\n"@),
{
    reveal_strlit("\nFILEOS          ");
    reveal_strlit("FILEOS          ");
    reveal_strlit("\n");
    let w = "\nFILEOS          "@ + info.file_os.value_text() + "\n"@;
    let q0 = script_banner();
    let q1 = q0 + "#include<winver.h>\n"@;
    let q2 = q1 + "VS_VERSION_INFO VERSIONINFO\n"@;
    let q3 = q2 + "FILEVERSION     "@;
    let q4 = q3 + info.file_version.rendered();
    let q5 = q4 + "\n"@;
    let q6 = q5 + "PRODUCTVERSION  "@;
    let q7 = q6 + info.product_version.rendered();
    let q8 = q7 + "\n"@;
    let q9 = q8 + "FILEFLAGSMASK   "@;
    let q10 = q9 + info.file_flag_mask.rendered();
    let q11 = q10 + "\n"@;
    let q12 = q11 + "FILEFLAGS       "@;
    let q13 = q12 + info.file_flags.rendered();
    let q14 = q13 + "\n"@;
    let q15 = q14 + "FILEOS          "@;
    let q16 = q15 + info.file_os.value_text();
    let q17 = q16 + "\n"@;
    let q18 = q17 + "FILETYPE        "@;
    let q19 = q18 + info.file_type.value_text();
    let q20 = q19 + "\n"@;
    let q21 = q20 + "FILESUBTYPE     "@;
    let q22 = q21 + info.file_type.subvalue_text();
    let q23 = q22 + "\n"@;
    assert(info.fixed_part() == q23);
    assert(q17 =~= q13 + w);
    let head = q13;
    lemma_occurs_self(w);
    lemma_occurs_append(head, w, w);
    lemma_occurs_append(q17, "FILETYPE        "@, w);
    lemma_occurs_append(q18, info.file_type.value_text(), w);
    lemma_occurs_append(q19, "\n"@, w);
    lemma_occurs_append(q20, "FILESUBTYPE     "@, w);
    lemma_occurs_append(q21, info.file_type.subvalue_text(), w);
    lemma_occurs_append(q22, "\n"@, w);
    lemma_occurs_append(info.fixed_part(), info.language_part(), w);
    lemma_occurs_append(info.fixed_part() + info.language_part(), "END\n"@, w);
}

/// The script holds the line `FILETYPE` with its value.
proof fn lemma_fixed_line_type(info: VersionInfo)
    ensures
        occurs(info.rc_script(), "\nFILETYPE        "@ + info.file_type.value_text() + "\n"@),
{
    reveal_strlit("\nFILETYPE        ");
    reveal_strlit("FILETYPE        ");
    reveal_strlit("\n");
    let w = "\nFILETYPE        "@ + info.file_type.value_text() + "\n"@;
    let q0 = script_banner();
    let q1 = q0 + "#include<winver.h>\n"@;
    let q2 = q1 + "VS_VERSION_INFO VERSIONINFO\n"@;
    let q3 = q2 + "FILEVERSION     "@;
    let q4 = q3 + info.file_version.rendered();
    let q5 = q4 + "\n"@;
    let q6 = q5 + "PRODUCTVERSION  "@;
    let q7 = q6 + info.product_version.rendered();
    let q8 = q7 + "\n"@;
    let q9 = q8 + "FILEFLAGSMASK   "@;
    let q10 = q9 + info.file_flag_mask.rendered();
    let q11 = q10 + "\n"@;
    let q12 = q11 + "FILEFLAGS       "@;
    let q13 = q12 + info.file_flags.rendered();
    let q14 = q13 + "\n"@;
    let q15 = q14 + "FILEOS          "@;
    let q16 = q15 + info.file_os.value_text();
    let q17 = q16 + "\n"@;
    let q18 = q17 + "FILETYPE        "@;
    let q19 = q18 + info.file_type.value_text();
    let q20 = q19 + "\n"@;
    let q21 = q20 + "FILESUBTYPE     "@;
    let q22 = q21 + info.file_type.subvalue_text();
    let q23 = q22 + "\n"@;
    assert(info.fixed_part() == q23);
    assert(q20 =~= q16 + w);
    let head = q16;
    lemma_occurs_self(w);
    lemma_occurs_append(head, w, w);
    lemma_occurs_append(q20, "FILESUBTYPE     "@, w);
    lemma_occurs_append(q21, info.file_type.subvalue_text(), w);
    lemma_occurs_append(q22, "\n"@, w);
    lemma_occurs_append(info.fixed_part(), info.language_part(), w);
    lemma_occurs_append(info.fixed_part() + info.language_part(), "END\n"@, w);
}

/// The script holds the line `FILESUBTYPE` with its value.
proof fn lemma_fixed_line_subtype(info: VersionInfo)
    ensures
        occurs(info.rc_script(), "\nFILESUBTYPE     "@ + info.file_type.subvalue_text() + "\n"@),
{
    reveal_strlit("\nFILESUBTYPE     ");
    reveal_strlit("FILESUBTYPE     ");
    reveal_strlit("\n");
    let w = "\nFILESUBTYPE     "@ + info.file_type.subvalue_text() + "\n"@;
    let q0 = script_banner();
    let q1 = q0 + "#include<winver.h>\n"@;
    let q2 = q1 + "VS_VERSION_INFO VERSIONINFO\n"@;
    let q3 = q2 + "FILEVERSION     "@;
    let q4 = q3 + info.file_version.rendered();
    let q5 = q4 + "\n"@;
    let q6 = q5 + "PRODUCTVERSION  "@;
    let q7 = q6 + info.product_version.rendered();
    let q8 = q7 + "\n"@;
    let q9 = q8 + "FILEFLAGSMASK   "@;
    let q10 = q9 + info.file_flag_mask.rendered();
    let q11 = q10 + "\n"@;
    let q12 = q11 + "FILEFLAGS       "@;
    let q13 = q12 + info.file_flags.rendered();
    let q14 = q13 + "\n"@;
    let q15 = q14 + "FILEOS          "@;
    let q16 = q15 + info.file_os.value_text();
    let q17 = q16 + "\n"@;
    let q18 = q17 + "FILETYPE        "@;
    let q19 = q18 + info.file_type.value_text();
    let q20 = q19 + "\n"@;
    let q21 = q20 + "FILESUBTYPE     "@;
    let q22 = q21 + info.file_type.subvalue_text();
    let q23 = q22 + "\n"@;
    assert(info.fixed_part() == q23);
    assert(q23 =~= q19 + w);
    let head = q19;
    lemma_occurs_self(w);
    lemma_occurs_append(head, w, w);
    lemma_occurs_append(info.fixed_part(), info.language_part(), w);
    lemma_occurs_append(info.fixed_part() + info.language_part(), "END\n"@, w);
}

/// The script holds each line of the fixed part: the file and product
/// versions, the flag mask, the flags, the operating system, the file type
/// and its subtype, each on a line of its own after its keyword.
pub proof fn lemma_script_holds_fixed_lines(info: VersionInfo)
    ensures
        occurs(info.rc_script(), "\nFILEVERSION     "@ + info.file_version.rendered() + "\n"@),
        occurs(info.rc_script(), "\nPRODUCTVERSION  "@ + info.product_version.rendered() + "\n"@),
        occurs(info.rc_script(), "\nFILEFLAGSMASK   "@ + info.file_flag_mask.rendered() + "\n"@),
        occurs(info.rc_script(), "\nFILEFLAGS       "@ + info.file_flags.rendered() + "\n"@),
        occurs(info.rc_script(), "\nFILEOS          "@ + info.file_os.value_text() + "\n"@),
        occurs(info.rc_script(), "\nFILETYPE        "@ + info.file_type.value_text() + "\n"@),
        occurs(info.rc_script(), "\nFILESUBTYPE     "@ + info.file_type.subvalue_text() + "\n"@),
{
    lemma_fixed_line_version(info);
    lemma_fixed_line_product_version(info);
    lemma_fixed_line_mask(info);
    lemma_fixed_line_flags(info);
    lemma_fixed_line_os(info);
    lemma_fixed_line_type(info);
    lemma_fixed_line_subtype(info);
}

/// The script holds, for each language, the name of its block, each of its
/// strings on a line of its own named after the field (an optional one where
/// it is present), and its entry in the translation table.
pub proof fn lemma_script_holds_strings(info: VersionInfo, k: int)
    requires
        0 <= k < info.file_info@.len(),
    ensures
        ({
            let fi = info.file_info@[k];
            let s = info.rc_script();
            &&& occurs(s, "  BLOCK \""@ + fi.lang.hex_code() + fi.charset.hex_code() + "\"\n"@)
            &&& occurs(s, "   VALUE \"CompanyName\", "@ + fi.company_name.quoted() + "\n"@)
            &&& occurs(s, "   VALUE \"FileDescription\", "@ + fi.file_description.quoted() + "\n"@)
            &&& occurs(s, "   VALUE \"FileVersion\", "@ + fi.file_version.quoted() + "\n"@)
            &&& occurs(s, "   VALUE \"InternalName\", "@ + fi.internal_name.quoted() + "\n"@)
            &&& occurs(s, "   VALUE \"OriginalFilename\", "@ + fi.original_filename.quoted() + "\n"@)
            &&& occurs(s, "   VALUE \"ProductName\", "@ + fi.product_name.quoted() + "\n"@)
            &&& occurs(s, "   VALUE \"ProductVersion\", "@ + fi.product_version.quoted() + "\n"@)
            &&& fi.comment matches Some(t) ==> occurs(s, "   VALUE \"Comments\", "@ + t.quoted() + "\n"@)
            &&& fi.legal_copyright matches Some(t) ==> occurs(s, "   VALUE \"LegalCopyright\", "@ + t.quoted() + "\n"@)
            &&& fi.legal_trademarks matches Some(t) ==> occurs(s, "   VALUE \"LegalTrademarks\", "@ + t.quoted() + "\n"@)
            &&& fi.private_build matches Some(t) ==> occurs(s, "   VALUE \"PrivateBuild\", "@ + t.quoted() + "\n"@)
            &&& fi.special_build matches Some(t) ==> occurs(s, "   VALUE \"SpecialBuild\", "@ + t.quoted() + "\n"@)
            &&& occurs(s, ", 0x"@ + fi.lang.hex_code() + ", "@ + fi.charset.decimal_code())
        }),
{
    let fi = info.file_info@[k];
    lemma_block_name_held(info, k);
    lemma_line_held_company_name(info, k);
    lemma_line_held_file_description(info, k);
    lemma_line_held_file_version(info, k);
    lemma_line_held_internal_name(info, k);
    lemma_line_held_original_filename(info, k);
    lemma_line_held_product_name(info, k);
    lemma_line_held_product_version(info, k);
    lemma_line_held_comment(info, k);
    lemma_line_held_legal_copyright(info, k);
    lemma_line_held_legal_trademarks(info, k);
    lemma_line_held_private_build(info, k);
    lemma_line_held_special_build(info, k);
    let entry = ", 0x"@ + fi.lang.hex_code() + ", "@ + fi.charset.decimal_code();
    lemma_occurs_self(entry);
    lemma_script_holds(info, k, entry);
}

/// The script holds the name of the block of each language.
proof fn lemma_block_name_held(info: VersionInfo, k: int)
    requires
        0 <= k < info.file_info@.len(),
    ensures
        occurs(info.rc_script(), "  BLOCK \""@ + info.file_info@[k].lang.hex_code() + info.file_info@[k].charset.hex_code() + "\"\n"@),
{
    let fi = info.file_info@[k];
    reveal_strlit("\"\n  BEGIN\n");
    reveal_strlit("\"\n");
    reveal_strlit("  BEGIN\n");
    let name_line = "  BLOCK \""@ + fi.lang.hex_code() + fi.charset.hex_code() + "\"\n"@;
    let first = "  BLOCK \""@ + fi.block_name() + "\"\n  BEGIN\n"@;
    assert(first =~= name_line + "  BEGIN\n"@);
    lemma_occurs_self(name_line);
    lemma_occurs_append(name_line, "  BEGIN\n"@, name_line);
    lemma_block_holds_pieces(fi, name_line);
    lemma_script_holds(info, k, name_line);
}

/// The script holds the line of the field `company_name` of each language.
proof fn lemma_line_held_company_name(info: VersionInfo, k: int)
    requires
        0 <= k < info.file_info@.len(),
    ensures
        occurs(info.rc_script(), "   VALUE \"CompanyName\", "@ + info.file_info@[k].company_name.quoted() + "\n"@),
{
    let fi = info.file_info@[k];
    reveal_strlit("   VALUE \"");
    reveal_strlit("\", ");
    reveal_strlit("CompanyName");
    reveal_strlit("   VALUE \"CompanyName\", ");
    let line = "   VALUE \"CompanyName\", "@ + fi.company_name.quoted() + "\n"@;
    assert(line =~= value_line("CompanyName"@, fi.company_name));
    lemma_occurs_self(line);
    lemma_block_holds_pieces(fi, line);
    lemma_script_holds(info, k, line);
}

/// The script holds the line of the field `file_description` of each language.
proof fn lemma_line_held_file_description(info: VersionInfo, k: int)
    requires
        0 <= k < info.file_info@.len(),
    ensures
        occurs(info.rc_script(), "   VALUE \"FileDescription\", "@ + info.file_info@[k].file_description.quoted() + "\n"@),
{
    let fi = info.file_info@[k];
    reveal_strlit("   VALUE \"");
    reveal_strlit("\", ");
    reveal_strlit("FileDescription");
    reveal_strlit("   VALUE \"FileDescription\", ");
    let line = "   VALUE \"FileDescription\", "@ + fi.file_description.quoted() + "\n"@;
    assert(line =~= value_line("FileDescription"@, fi.file_description));
    lemma_occurs_self(line);
    lemma_block_holds_pieces(fi, line);
    lemma_script_holds(info, k, line);
}

/// The script holds the line of the field `file_version` of each language.
proof fn lemma_line_held_file_version(info: VersionInfo, k: int)
    requires
        0 <= k < info.file_info@.len(),
    ensures
        occurs(info.rc_script(), "   VALUE \"FileVersion\", "@ + info.file_info@[k].file_version.quoted() + "\n"@),
{
    let fi = info.file_info@[k];
    reveal_strlit("   VALUE \"");
    reveal_strlit("\", ");
    reveal_strlit("FileVersion");
    reveal_strlit("   VALUE \"FileVersion\", ");
    let line = "   VALUE \"FileVersion\", "@ + fi.file_version.quoted() + "\n"@;
    assert(line =~= value_line("FileVersion"@, fi.file_version));
    lemma_occurs_self(line);
    lemma_block_holds_pieces(fi, line);
    lemma_script_holds(info, k, line);
}

/// The script holds the line of the field `internal_name` of each language.
proof fn lemma_line_held_internal_name(info: VersionInfo, k: int)
    requires
        0 <= k < info.file_info@.len(),
    ensures
        occurs(info.rc_script(), "   VALUE \"InternalName\", "@ + info.file_info@[k].internal_name.quoted() + "\n"@),
{
    let fi = info.file_info@[k];
    reveal_strlit("   VALUE \"");
    reveal_strlit("\", ");
    reveal_strlit("InternalName");
    reveal_strlit("   VALUE \"InternalName\", ");
    let line = "   VALUE \"InternalName\", "@ + fi.internal_name.quoted() + "\n"@;
    assert(line =~= value_line("InternalName"@, fi.internal_name));
    lemma_occurs_self(line);
    lemma_block_holds_pieces(fi, line);
    lemma_script_holds(info, k, line);
}

/// The script holds the line of the field `original_filename` of each language.
proof fn lemma_line_held_original_filename(info: VersionInfo, k: int)
    requires
        0 <= k < info.file_info@.len(),
    ensures
        occurs(info.rc_script(), "   VALUE \"OriginalFilename\", "@ + info.file_info@[k].original_filename.quoted() + "\n"@),
{
    let fi = info.file_info@[k];
    reveal_strlit("   VALUE \"");
    reveal_strlit("\", ");
    reveal_strlit("OriginalFilename");
    reveal_strlit("   VALUE \"OriginalFilename\", ");
    let line = "   VALUE \"OriginalFilename\", "@ + fi.original_filename.quoted() + "\n"@;
    assert(line =~= value_line("OriginalFilename"@, fi.original_filename));
    lemma_occurs_self(line);
    lemma_block_holds_pieces(fi, line);
    lemma_script_holds(info, k, line);
}

/// The script holds the line of the field `product_name` of each language.
proof fn lemma_line_held_product_name(info: VersionInfo, k: int)
    requires
        0 <= k < info.file_info@.len(),
    ensures
        occurs(info.rc_script(), "   VALUE \"ProductName\", "@ + info.file_info@[k].product_name.quoted() + "\n"@),
{
    let fi = info.file_info@[k];
    reveal_strlit("   VALUE \"");
    reveal_strlit("\", ");
    reveal_strlit("ProductName");
    reveal_strlit("   VALUE \"ProductName\", ");
    let line = "   VALUE \"ProductName\", "@ + fi.product_name.quoted() + "\n"@;
    assert(line =~= value_line("ProductName"@, fi.product_name));
    lemma_occurs_self(line);
    lemma_block_holds_pieces(fi, line);
    lemma_script_holds(info, k, line);
}

/// The script holds the line of the field `product_version` of each language.
proof fn lemma_line_held_product_version(info: VersionInfo, k: int)
    requires
        0 <= k < info.file_info@.len(),
    ensures
        occurs(info.rc_script(), "   VALUE \"ProductVersion\", "@ + info.file_info@[k].product_version.quoted() + "\n"@),
{
    let fi = info.file_info@[k];
    reveal_strlit("   VALUE \"");
    reveal_strlit("\", ");
    reveal_strlit("ProductVersion");
    reveal_strlit("   VALUE \"ProductVersion\", ");
    let line = "   VALUE \"ProductVersion\", "@ + fi.product_version.quoted() + "\n"@;
    assert(line =~= value_line("ProductVersion"@, fi.product_version));
    lemma_occurs_self(line);
    lemma_block_holds_pieces(fi, line);
    lemma_script_holds(info, k, line);
}

/// The script holds the line of the field `comment` of each language where it is present.
proof fn lemma_line_held_comment(info: VersionInfo, k: int)
    requires
        0 <= k < info.file_info@.len(),
    ensures
        info.file_info@[k].comment matches Some(t) ==> occurs(info.rc_script(), "   VALUE \"Comments\", "@ + t.quoted() + "\n"@),
{
    let fi = info.file_info@[k];
    reveal_strlit("   VALUE \"");
    reveal_strlit("\", ");
    reveal_strlit("Comments");
    reveal_strlit("   VALUE \"Comments\", ");
    if let Some(t) = fi.comment {
        let line = "   VALUE \"Comments\", "@ + t.quoted() + "\n"@;
        assert(line =~= value_line("Comments"@, t));
        lemma_occurs_self(line);
        lemma_block_holds_pieces(fi, line);
        lemma_script_holds(info, k, line);
    }
}

/// The script holds the line of the field `legal_copyright` of each language where it is present.
proof fn lemma_line_held_legal_copyright(info: VersionInfo, k: int)
    requires
        0 <= k < info.file_info@.len(),
    ensures
        info.file_info@[k].legal_copyright matches Some(t) ==> occurs(info.rc_script(), "   VALUE \"LegalCopyright\", "@ + t.quoted() + "\n"@),
{
    let fi = info.file_info@[k];
    reveal_strlit("   VALUE \"");
    reveal_strlit("\", ");
    reveal_strlit("LegalCopyright");
    reveal_strlit("   VALUE \"LegalCopyright\", ");
    if let Some(t) = fi.legal_copyright {
        let line = "   VALUE \"LegalCopyright\", "@ + t.quoted() + "\n"@;
        assert(line =~= value_line("LegalCopyright"@, t));
        lemma_occurs_self(line);
        lemma_block_holds_pieces(fi, line);
        lemma_script_holds(info, k, line);
    }
}

/// The script holds the line of the field `legal_trademarks` of each language where it is present.
proof fn lemma_line_held_legal_trademarks(info: VersionInfo, k: int)
    requires
        0 <= k < info.file_info@.len(),
    ensures
        info.file_info@[k].legal_trademarks matches Some(t) ==> occurs(info.rc_script(), "   VALUE \"LegalTrademarks\", "@ + t.quoted() + "\n"@),
{
    let fi = info.file_info@[k];
    reveal_strlit("   VALUE \"");
    reveal_strlit("\", ");
    reveal_strlit("LegalTrademarks");
    reveal_strlit("   VALUE \"LegalTrademarks\", ");
    if let Some(t) = fi.legal_trademarks {
        let line = "   VALUE \"LegalTrademarks\", "@ + t.quoted() + "\n"@;
        assert(line =~= value_line("LegalTrademarks"@, t));
        lemma_occurs_self(line);
        lemma_block_holds_pieces(fi, line);
        lemma_script_holds(info, k, line);
    }
}

/// The script holds the line of the field `private_build` of each language where it is present.
proof fn lemma_line_held_private_build(info: VersionInfo, k: int)
    requires
        0 <= k < info.file_info@.len(),
    ensures
        info.file_info@[k].private_build matches Some(t) ==> occurs(info.rc_script(), "   VALUE \"PrivateBuild\", "@ + t.quoted() + "\n"@),
{
    let fi = info.file_info@[k];
    reveal_strlit("   VALUE \"");
    reveal_strlit("\", ");
    reveal_strlit("PrivateBuild");
    reveal_strlit("   VALUE \"PrivateBuild\", ");
    if let Some(t) = fi.private_build {
        let line = "   VALUE \"PrivateBuild\", "@ + t.quoted() + "\n"@;
        assert(line =~= value_line("PrivateBuild"@, t));
        lemma_occurs_self(line);
        lemma_block_holds_pieces(fi, line);
        lemma_script_holds(info, k, line);
    }
}

/// The script holds the line of the field `special_build` of each language where it is present.
proof fn lemma_line_held_special_build(info: VersionInfo, k: int)
    requires
        0 <= k < info.file_info@.len(),
    ensures
        info.file_info@[k].special_build matches Some(t) ==> occurs(info.rc_script(), "   VALUE \"SpecialBuild\", "@ + t.quoted() + "\n"@),
{
    let fi = info.file_info@[k];
    reveal_strlit("   VALUE \"");
    reveal_strlit("\", ");
    reveal_strlit("SpecialBuild");
    reveal_strlit("   VALUE \"SpecialBuild\", ");
    if let Some(t) = fi.special_build {
        let line = "   VALUE \"SpecialBuild\", "@ + t.quoted() + "\n"@;
        assert(line =~= value_line("SpecialBuild"@, t));
        lemma_occurs_self(line);
        lemma_block_holds_pieces(fi, line);
        lemma_script_holds(info, k, line);
    }
}

/// The script of a version information made from cargo's environment names
/// the package: its description, version and name on the lines of those
/// strings, the name with `.exe` as the original file name, the company name
/// given (or an empty one), each optional string given on its own line, the
/// version numbers read from the environment, `VS_FF_DEBUG` as the flags of
/// any profile but `release` and `0` for `release`, a 32-bit Windows
/// application, and US English with the multilingual code page.
pub proof fn lemma_cargo_script(
    info: VersionInfo,
    env: CargoEnv,
    comment: Option<&str>,
    company_name: Option<&str>,
    legal_copyright: Option<&str>,
    legal_trademarks: Option<&str>,
)
    requires
        info.made_from_cargo_env(env, comment, company_name, legal_copyright, legal_trademarks),
    ensures
        ({
            let s = info.rc_script();
            &&& occurs(s, "   VALUE \"CompanyName\", "@ + ("\""@ + escaped(match company_name { Some(c) => c@, None => Seq::<char>::empty() }) + "\\0\""@) + "\n"@)
            &&& occurs(s, "   VALUE \"FileDescription\", "@ + ("\""@ + escaped(env.description@) + "\\0\""@) + "\n"@)
            &&& occurs(s, "   VALUE \"FileVersion\", "@ + ("\""@ + escaped(env.version@) + "\\0\""@) + "\n"@)
            &&& occurs(s, "   VALUE \"InternalName\", "@ + ("\""@ + escaped(env.name@) + "\\0\""@) + "\n"@)
            &&& occurs(s, "   VALUE \"OriginalFilename\", "@ + ("\""@ + escaped(env.name@ + ".exe"@) + "\\0\""@) + "\n"@)
            &&& occurs(s, "   VALUE \"ProductName\", "@ + ("\""@ + escaped(env.name@) + "\\0\""@) + "\n"@)
            &&& occurs(s, "   VALUE \"ProductVersion\", "@ + ("\""@ + escaped(env.version@) + "\\0\""@) + "\n"@)
            &&& comment matches Some(t) ==> occurs(s, "   VALUE \"Comments\", "@ + ("\""@ + escaped(t@) + "\\0\""@) + "\n"@)
            &&& legal_copyright matches Some(t) ==> occurs(s, "   VALUE \"LegalCopyright\", "@ + ("\""@ + escaped(t@) + "\\0\""@) + "\n"@)
            &&& legal_trademarks matches Some(t) ==> occurs(s, "   VALUE \"LegalTrademarks\", "@ + ("\""@ + escaped(t@) + "\\0\""@) + "\n"@)
            &&& occurs(s, "\nFILEVERSION     "@ + env.package_version().rendered() + "\n"@)
            &&& occurs(s, "\nPRODUCTVERSION  "@ + env.package_version().rendered() + "\n"@)
            &&& occurs(s, "\nFILEFLAGS       "@ + (if env.profile@ == "release"@ { "0"@ } else { "VS_FF_DEBUG"@ }) + "\n"@)
            &&& occurs(s, "\nFILEOS          "@ + "VOS__WINDOWS32"@ + "\n"@)
            &&& occurs(s, "\nFILETYPE        "@ + "VFT_APP"@ + "\n"@)
            &&& occurs(s, "  BLOCK \""@ + "0409"@ + "04E4"@ + "\"\n"@)
            &&& occurs(s, ", 0x"@ + "0409"@ + ", "@ + "1252"@)
        }),
{
    lemma_script_holds_strings(info, 0);
    lemma_script_holds_fixed_lines(info);
    let f = info.file_flags;
    let names = f.names();
    assert(Seq::<Seq<char>>::empty() + Seq::<Seq<char>>::empty() =~= Seq::<Seq<char>>::empty());
    if f.debug {
        assert(names =~= seq!["VS_FF_DEBUG"@]);
        assert(f.rendered() == "VS_FF_DEBUG"@);
    } else {
        assert(names =~= Seq::<Seq<char>>::empty());
    }
}

} // verus!
