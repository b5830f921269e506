//! Where the artifacts of a run live: one directory per model, named after
//! its short name, holding the full-precision file, the importance matrix
//! and one file per quantization level.
use vstd::prelude::*;
use crate::quant::{lemma_file_tags_are_distinct, Precision, QuantLevel};
use crate::text::{catenate, lowercase_of, to_lower};

verus! {

/// `<name>/<lower-case name>`: what every artifact path of a model starts with.
pub open spec fn stem_of(name: Seq<char>) -> Seq<char> {
    name + "/"@ + lowercase_of(name)
}

/// `<name>/<lower-case name>.<precision>.gguf`
pub open spec fn full_precision_path_of(name: Seq<char>, precision: Precision) -> Seq<char> {
    stem_of(name) + "."@ + precision.label_of() + ".gguf"@
}

/// `<name>/<lower-case name>.imatrix`
pub open spec fn imatrix_path_of(name: Seq<char>) -> Seq<char> {
    stem_of(name) + ".imatrix"@
}

/// `<name>/<lower-case name>.<TAG>.gguf`
pub open spec fn quant_path_of(name: Seq<char>, q: QuantLevel) -> Seq<char> {
    stem_of(name) + "."@ + q.file_tag_of() + ".gguf"@
}

/// The name a quantized file carries while the quantizer is still writing it.
pub open spec fn pending_path_of(path: Seq<char>) -> Seq<char> {
    path + ".pending"@
}

/// `./<name>`: the download directory as the download client is given it.
pub open spec fn local_dir_of(name: Seq<char>) -> Seq<char> {
    "./"@ + name
}

/// `<user>/<name>-GGUF`: the remote repository that receives the artifacts.
pub open spec fn repo_id_of(user: Seq<char>, name: Seq<char>) -> Seq<char> {
    user + "/"@ + name + "-GGUF"@
}

fn stem(model_name: &str) -> (r: String)
    ensures
        r@ == stem_of(model_name@),
{
    let lower = to_lower(model_name);
    let dir = catenate(model_name, "/");
    catenate(dir.as_str(), lower.as_str())
}

/// The path of the full-precision file of a model.
pub fn full_precision_path(model_name: &str, precision: Precision) -> (r: String)
    ensures
        r@ == full_precision_path_of(model_name@, precision),
{
    let stem = stem(model_name);
    let dotted = catenate(stem.as_str(), ".");
    let labelled = catenate(dotted.as_str(), precision.label());
    catenate(labelled.as_str(), ".gguf")
}

/// The path of the importance matrix of a model.
pub fn imatrix_path(model_name: &str) -> (r: String)
    ensures
        r@ == imatrix_path_of(model_name@),
{
    let stem = stem(model_name);
    catenate(stem.as_str(), ".imatrix")
}

/// The final path of the file of one level.
pub fn quant_path(model_name: &str, q: QuantLevel) -> (r: String)
    ensures
        r@ == quant_path_of(model_name@, q),
{
    let stem = stem(model_name);
    let dotted = catenate(stem.as_str(), ".");
    let tagged = catenate(dotted.as_str(), q.file_tag());
    catenate(tagged.as_str(), ".gguf")
}

/// The path a file is written to before it gets its final name.
pub fn pending_path(path: &str) -> (r: String)
    ensures
        r@ == pending_path_of(path@),
{
    catenate(path, ".pending")
}

/// The download directory of a model.
pub fn local_dir(model_name: &str) -> (r: String)
    ensures
        r@ == local_dir_of(model_name@),
{
    catenate("./", model_name)
}

/// The remote repository of a model.
pub fn repo_id(hf_user: &str, model_name: &str) -> (r: String)
    ensures
        r@ == repo_id_of(hf_user@, model_name@),
{
    let owner = catenate(hf_user, "/");
    let named = catenate(owner.as_str(), model_name);
    catenate(named.as_str(), "-GGUF")
}

/// Every level has a file of its own: two levels of one model never share
/// a path, neither the final one nor the pending one.
pub proof fn lemma_quant_paths_are_distinct(name: Seq<char>, a: QuantLevel, b: QuantLevel)
    requires
        quant_path_of(name, a) == quant_path_of(name, b) || pending_path_of(
            quant_path_of(name, a),
        ) == pending_path_of(quant_path_of(name, b)),
    ensures
        a == b,
{
    let head = stem_of(name) + "."@;
    let tail = ".gguf"@;
    let pa = quant_path_of(name, a);
    let pb = quant_path_of(name, b);
    if pa != pb {
        let more = ".pending"@;
        assert((pa + more).subrange(0, pa.len() as int) =~= pa);
        assert((pb + more).subrange(0, pb.len() as int) =~= pb);
        assert((pa + more).len() == pa.len() + more.len());
        assert((pb + more).len() == pb.len() + more.len());
    }
    let ta = a.file_tag_of();
    let tb = b.file_tag_of();
    assert(pa.len() == head.len() + ta.len() + tail.len());
    assert(pb.len() == head.len() + tb.len() + tail.len());
    assert(pa.subrange(head.len() as int, (head.len() + ta.len()) as int) =~= ta);
    assert(pb.subrange(head.len() as int, (head.len() + tb.len()) as int) =~= tb);
    lemma_file_tags_are_distinct(a, b);
}

} // verus!
