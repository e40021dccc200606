//! Output naming: a name is sanitized into a filesystem-safe stem, and the
//! stem determines the output file's path inside the output directory.

use vstd::prelude::*;
use vstd::string::StringExecFns;

verus! {

/// Characters unsafe for a path component are substituted with `_`.
pub open spec fn sanitize_char(c: char) -> char {
    if c == ' ' || c == '/' || c == '\\' {
        '_'
    } else {
        c
    }
}

/// The filesystem-safe stem derived from a name.
pub open spec fn sanitized(s: Seq<char>) -> Seq<char> {
    s.map_values(|c: char| sanitize_char(c))
}

/// The output path for a name: `dir/certificate_<stem>.png`.
pub open spec fn certificate_path_spec(dir: Seq<char>, name: Seq<char>) -> Seq<char> {
    dir + "/certificate_"@ + sanitized(name) + ".png"@
}

/// Relies on String's FromIterator over char: the collected string holds
/// exactly the characters of the vector, in order.
#[verifier::external_body]
fn chars_to_string(cs: Vec<char>) -> (r: String)
    ensures
        r@ == cs@,
{
    cs.into_iter().collect()
}

/// Substitute the characters unsafe for a filename (`/`, `\`, space) before
/// the name is used as a path component.
pub fn sanitize_stem(name: &str) -> (r: String)
    ensures
        r@ == sanitized(name@),
{
    let n = name.unicode_len();
    let mut out: Vec<char> = Vec::new();
    for i in 0..n
        invariant
            n == name@.len(),
            out@ == name@.take(i as int).map_values(|c: char| sanitize_char(c)),
    {
        let c = name.get_char(i);
        if c == ' ' || c == '/' || c == '\\' {
            out.push('_');
        } else {
            out.push(c);
        }
        proof {
            assert(name@.take(i + 1).drop_last() =~= name@.take(i as int));
            assert(name@.take(i + 1).map_values(|c: char| sanitize_char(c)).drop_last()
                =~= name@.take(i as int).map_values(|c: char| sanitize_char(c)));
            assert(out@ =~= name@.take(i + 1).map_values(|c: char| sanitize_char(c)));
        }
    }
    proof {
        assert(name@.take(n as int) =~= name@);
    }
    chars_to_string(out)
}

/// Build the output path `output_dir/certificate_<stem>.png` for a name.
pub fn certificate_file_name(output_dir: &str, name: &str) -> (r: String)
    ensures
        r@ == certificate_path_spec(output_dir@, name@),
{
    let mut s = output_dir.to_owned();
    s.append("/certificate_");
    let stem = sanitize_stem(name);
    s.append(stem.as_str());
    s.append(".png");
    s
}

/// Names that sanitize to the same stem are written to the same output path,
/// so the later of the two overwrites the earlier.
pub proof fn lemma_stem_collision(dir: Seq<char>, a: Seq<char>, b: Seq<char>)
    requires
        sanitized(a) == sanitized(b),
    ensures
        certificate_path_spec(dir, a) == certificate_path_spec(dir, b),
{
}

} // verus!
