//! The decisions of linking a version information into an executable.
use vstd::prelude::*;

use crate::text::{
    begins_with, lemma_pieces_append, lemma_pieces_single, lemma_replaced_keeps_prefix,
    lemma_replaced_nothing, lemma_replaced_occurrence, pieces, replace, replaced, split,
};

verus! {

/// The answer to a second attempt at linking.
pub open spec fn already_linked_message() -> Seq<char> {
    "Only one versioninfo can be linked"@
}

/// Whether a version information has been linked into the executable being
/// built. Only one can be.
pub struct LinkState {
    linked: bool,
}

impl LinkState {
    /// Whether a version information has been linked.
    pub closed spec fn is_linked(self) -> bool {
        self.linked
    }

    /// Whether a version information may be linked in this state.
    pub open spec fn may_link(self) -> bool {
        !self.is_linked()
    }

    /// The state after a version information has been linked.
    pub closed spec fn linked(self) -> Self {
        LinkState { linked: true }
    }

    /// The state of a build in which nothing has been linked.
    pub fn new() -> (res: Self)
        ensures
            !res.is_linked(),
    {
        LinkState { linked: false }
    }

    /// Whether a version information may be linked now: it may unless one
    /// has been linked already, in which case the answer says so.
    pub fn begin(&self) -> (res: Result<(), &'static str>)
        ensures
            res is Ok <==> self.may_link(),
            res matches Err(e) ==> e@ == already_linked_message(),
    {
        if self.linked {
            Err("Only one versioninfo can be linked")
        } else {
            Ok(())
        }
    }

    /// Records that a version information has been linked.
    pub fn finish(&mut self)
        ensures
            *final(self) == old(self).linked(),
            final(self).is_linked(),
    {
        self.linked = true;
    }
}

/// Only one version information can be linked: once one has been, every
/// further attempt is refused.
pub proof fn lemma_link_at_most_once(state: LinkState)
    ensures
        !state.linked().may_link(),
        state.linked().linked() == state.linked(),
{
}

/// The arguments of the resource compiler `windres`, with the places of the
/// input and the output.
pub open spec fn windres_template() -> Seq<char> {
    "-i [INPUT] -O coff -o [OUTPUT] -v"@
}

/// The object file that the resource script at `resource_path` compiles to.
pub open spec fn resource_object(resource_path: Seq<char>) -> Seq<char> {
    resource_path + ".a"@
}

/// The arguments of `windres` that compile the resource script at
/// `resource_path`: the template with the input and then the output put in
/// their places, split at each space.
pub open spec fn windres_arguments(resource_path: Seq<char>) -> Seq<Seq<char>> {
    pieces(
        replaced(
            replaced(windres_template(), "[INPUT]"@, resource_path),
            "[OUTPUT]"@,
            resource_object(resource_path),
        ),
        ' ',
    )
}

/// The object file that the resource script at `resource_path` compiles to.
pub fn resource_object_path(resource_path: &str) -> (res: String)
    ensures
        res@ == resource_object(resource_path@),
{
    let mut res = String::from_str(resource_path);
    res.append(".a");
    res
}

/// The arguments of `windres` that compile the resource script at
/// `resource_path` into the object file next to it.
pub fn windres_args(resource_path: &str) -> (res: Vec<String>)
    ensures
        res@.map_values(|a: String| a@) == windres_arguments(resource_path@),
{
    let output = resource_object_path(resource_path);
    proof {
        reveal_strlit("[INPUT]");
        reveal_strlit("[OUTPUT]");
    }
    let with_input = replace("-i [INPUT] -O coff -o [OUTPUT] -v", "[INPUT]", resource_path);
    let args = replace(with_input.as_str(), "[OUTPUT]", output.as_str());
    split(args.as_str(), ' ')
}

/// The arguments of `windres` that also name the output format of the
/// target, with the places of the input, the output and the format.
pub open spec fn windres_template_with_format() -> Seq<char> {
    "-i [INPUT] -O coff -F [ARCH] -o [OUTPUT] -v"@
}

/// The object format for a Windows target: 64-bit or 32-bit.
pub open spec fn windres_format(pointer_width_64: bool) -> Seq<char> {
    if pointer_width_64 {
        "pe-x86-64"@
    } else {
        "pe-i386"@
    }
}

/// The arguments of `windres` that compile the resource script at
/// `resource_path` for a Windows target: the input, then the output, then
/// the object format put in their places, split at each space.
pub open spec fn windres_target_arguments(resource_path: Seq<char>, pointer_width_64: bool) -> Seq<
    Seq<char>,
> {
    pieces(
        replaced(
            replaced(
                replaced(windres_template_with_format(), "[INPUT]"@, resource_path),
                "[OUTPUT]"@,
                resource_object(resource_path),
            ),
            "[ARCH]"@,
            windres_format(pointer_width_64),
        ),
        ' ',
    )
}

/// The arguments of `windres` that compile the resource script at
/// `resource_path` for a Windows target whose pointers are 64 bits wide
/// where `pointer_width_64` holds, else 32 bits wide.
pub fn windres_target_args(resource_path: &str, pointer_width_64: bool) -> (res: Vec<String>)
    ensures
        res@.map_values(|a: String| a@) == windres_target_arguments(
            resource_path@,
            pointer_width_64,
        ),
{
    let output = resource_object_path(resource_path);
    proof {
        reveal_strlit("[INPUT]");
        reveal_strlit("[OUTPUT]");
        reveal_strlit("[ARCH]");
    }
    let with_input = replace("-i [INPUT] -O coff -F [ARCH] -o [OUTPUT] -v", "[INPUT]", resource_path);
    let with_output = replace(with_input.as_str(), "[OUTPUT]", output.as_str());
    let format = if pointer_width_64 {
        "pe-x86-64"
    } else {
        "pe-i386"
    };
    let args = replace(with_output.as_str(), "[ARCH]", format);
    split(args.as_str(), ' ')
}

/// A word without spaces is a single piece when split at spaces.
proof fn lemma_word_is_one_piece(w: Seq<char>)
    requires
        forall|i: int| 0 <= i < w.len() ==> w[i] != ' ',
    ensures
        pieces(w, ' ') == seq![w],
{
    assert(!w.contains(' '));
    lemma_pieces_single(w, ' ');
}

/// For a resource script whose path holds no space and no `[OUTPUT]`,
/// `windres` gets seven arguments: `-i`, the path, `-O`, `coff`, `-o`, the
/// object file and `-v`.
pub proof fn lemma_windres_arguments(path: Seq<char>)
    requires
        !path.contains(' '),
        forall|i: int| 0 <= i < path.len() ==> !begins_with(#[trigger] path.skip(i), "[OUTPUT]"@),
    ensures
        windres_arguments(path) == seq![
            "-i"@,
            path,
            "-O"@,
            "coff"@,
            "-o"@,
            resource_object(path),
            "-v"@,
        ],
{
    reveal_strlit("-i [INPUT] -O coff -o [OUTPUT] -v");
    reveal_strlit("[INPUT]");
    reveal_strlit("[OUTPUT]");
    reveal_strlit(".a");
    reveal_strlit("-i");
    reveal_strlit("-O");
    reveal_strlit("coff");
    reveal_strlit("-o");
    reveal_strlit("-v");
    let input_pat = "[INPUT]"@;
    let output_pat = "[OUTPUT]"@;
    let a = seq!['-', 'i', ' '];
    let b = seq![' ', '-', 'O', ' ', 'c', 'o', 'f', 'f', ' ', '-', 'o', ' '] + output_pat + seq![' ', '-', 'v'];
    assert(windres_template() =~= a + (input_pat + b));
    // The input takes the place of `[INPUT]`.
    assert forall|i: int| 0 <= i < a.len() implies !begins_with(#[trigger] (a + (input_pat + b)).skip(i), input_pat) by {
        assert((a + (input_pat + b)).skip(i).take(7)[0] == a[i]);
    }
    lemma_replaced_keeps_prefix(a, input_pat + b, input_pat, path);
    lemma_replaced_occurrence(b, input_pat, path);
    assert forall|i: int| 0 <= i < b.len() implies !begins_with(#[trigger] b.skip(i), input_pat) by {
        if i + 7 <= b.len() {
            if i == 12 {
                assert(b.skip(i).take(7)[1] != input_pat[1]);
            } else {
                assert(b.skip(i).take(7)[0] != input_pat[0]);
            }
        }
    }
    lemma_replaced_nothing(b, input_pat, path);
    let r1 = replaced(windres_template(), input_pat, path);
    assert(r1 == a + (path + b));
    // The object file takes the place of `[OUTPUT]`.
    let q = resource_object(path);
    let c1 = seq![' ', '-', 'O', ' ', 'c', 'o', 'f', 'f', ' ', '-', 'o', ' '];
    let d = seq![' ', '-', 'v'];
    let x = a + path + c1;
    let y = output_pat + d;
    assert(r1 =~= x + y);
    assert forall|i: int| 0 <= i < x.len() implies !begins_with(#[trigger] (x + y).skip(i), output_pat) by {
        let xy = x + y;
        if begins_with(xy.skip(i), output_pat) {
            assert(xy.skip(i).take(8)[0] == xy[i]);
            if i < 3 {
                assert(xy[i] == a[i]);
            } else if i < 3 + path.len() {
                if i + 8 <= 3 + path.len() {
                    assert(path.skip(i - 3).take(8) =~= xy.skip(i).take(8));
                    assert(begins_with(path.skip(i - 3), output_pat));
                } else {
                    let k = 3 + path.len() - i;
                    assert(xy[3 + path.len() as int] == ' ');
                    assert(xy.skip(i).take(8)[k] == xy[3 + path.len() as int]);
                }
            } else {
                assert(xy[i] == c1[i - 3 - path.len()]);
            }
        }
    }
    lemma_replaced_keeps_prefix(x, y, output_pat, q);
    lemma_replaced_occurrence(d, output_pat, q);
    assert forall|i: int| 0 <= i < d.len() implies !begins_with(#[trigger] d.skip(i), output_pat) by {
    }
    lemma_replaced_nothing(d, output_pat, q);
    let r2 = replaced(r1, output_pat, q);
    assert(r2 =~= a + path + c1 + q + d);
    // Splitting at the spaces.
    assert(!q.contains(' ')) by {
        if q.contains(' ') {
            let k = choose|k: int| 0 <= k < q.len() && q[k] == ' ';
            if k < path.len() {
                assert(path[k] == ' ');
            }
        }
    }
    let w0 = "-i"@;
    let w2 = "-O"@;
    let w3 = "coff"@;
    let w4 = "-o"@;
    let w6 = "-v"@;
    lemma_word_is_one_piece(w0);
    lemma_word_is_one_piece(w2);
    lemma_word_is_one_piece(w3);
    lemma_word_is_one_piece(w4);
    lemma_word_is_one_piece(w6);
    lemma_pieces_single(path, ' ');
    lemma_pieces_single(q, ' ');
    let s1 = w0.push(' ') + path;
    let s2 = s1.push(' ') + w2;
    let s3 = s2.push(' ') + w3;
    let s4 = s3.push(' ') + w4;
    let s5 = s4.push(' ') + q;
    let s6 = s5.push(' ') + w6;
    lemma_pieces_append(w0, path, ' ');
    lemma_pieces_append(s1, w2, ' ');
    lemma_pieces_append(s2, w3, ' ');
    lemma_pieces_append(s3, w4, ' ');
    lemma_pieces_append(s4, q, ' ');
    lemma_pieces_append(s5, w6, ' ');
    assert(r2 =~= s6);
    assert(pieces(s6, ' ') =~= seq![w0, path, w2, w3, w4, q, w6]);
}

} // verus!
