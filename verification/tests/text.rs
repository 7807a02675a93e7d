use versioninfo::link::{resource_object_path, windres_args, windres_target_args};
use versioninfo::text::{replace, split};

#[test]
fn replace_matches_std() {
    let cases = [
        ("", "ab", "x"),
        ("ab", "ab", "x"),
        ("aaa", "aa", "b"),
        ("xabyabz", "ab", ""),
        ("abab", "ab", "abab"),
        ("[INPUT] and [INPUT]", "[INPUT]", "in"),
        ("no match", "zz", "q"),
        ("äöü-äö", "äö", "ae"),
    ];
    for (s, p, r) in cases {
        assert_eq!(replace(s, p, r), s.replace(p, r), "{:?}", (s, p, r));
    }
}

#[test]
fn split_matches_std() {
    let cases = ["", " ", "a", "a b", " a  b ", "-i x -O coff", "äb c"];
    for s in cases {
        let expected: Vec<String> = s.split(' ').map(|p| p.to_string()).collect();
        assert_eq!(split(s, ' '), expected, "{:?}", s);
    }
}

#[test]
fn windres_arguments_for_plain_path() {
    assert_eq!(resource_object_path("out/info.rc"), "out/info.rc.a");
    assert_eq!(
        windres_args("out/info.rc"),
        vec!["-i", "out/info.rc", "-O", "coff", "-o", "out/info.rc.a", "-v"]
    );
}

#[test]
fn windres_arguments_for_path_with_space() {
    assert_eq!(
        windres_args("my dir/info.rc"),
        vec!["-i", "my", "dir/info.rc", "-O", "coff", "-o", "my", "dir/info.rc.a", "-v"]
    );
}

#[test]
fn windres_arguments_for_path_with_placeholder() {
    let path = "x[OUTPUT]";
    let expected: Vec<String> = "-i [INPUT] -O coff -o [OUTPUT] -v"
        .replace("[INPUT]", path)
        .replace("[OUTPUT]", &(path.to_string() + ".a"))
        .split(' ')
        .map(|s| s.to_string())
        .collect();
    assert_eq!(windres_args(path), expected);
}

#[test]
fn windres_arguments_for_target() {
    assert_eq!(
        windres_target_args("out/info.rc", true),
        vec!["-i", "out/info.rc", "-O", "coff", "-F", "pe-x86-64", "-o", "out/info.rc.a", "-v"]
    );
    assert_eq!(
        windres_target_args("out/info.rc", false),
        vec!["-i", "out/info.rc", "-O", "coff", "-F", "pe-i386", "-o", "out/info.rc.a", "-v"]
    );
}
