//! Text as a sequence of grapheme clusters: the units that a reader takes for
//! single characters. A cursor position counts clusters, never bytes or
//! code points.

use crate::text::{contains_char, join, same_text};
use unicode_segmentation::UnicodeSegmentation;
use vstd::prelude::*;

verus! {

/// The extended grapheme clusters of `text`, in order, as the Unicode
/// segmentation rules delimit them.
pub uninterp spec fn grapheme_clusters(text: Seq<char>) -> Seq<Seq<char>>;

/// The clusters of `text` are consecutive pieces of it: concatenated they
/// give `text` back. The segmentation affirms this of every text that it is
/// given; `clusters_of` and `length_in_clusters` pass it on.
pub open spec fn clusters_cover(text: Seq<char>) -> bool {
    grapheme_clusters(text).flatten() == text
}

/// Calls `UnicodeSegmentation::graphemes` with the extended rules and copies
/// each cluster out. The contract says that the clusters come in the order
/// of `grapheme_clusters` and that they are consecutive slices which together
/// span the whole of `text`, as the crate's iterator hands them out.
#[verifier::external_body]
fn graphemes(text: &str) -> (clusters: Vec<String>)
    ensures
        clusters.deep_view() == grapheme_clusters(text@),
        clusters.deep_view().flatten() == text@,
{
    UnicodeSegmentation::graphemes(text, true).map(|cluster| cluster.to_string()).collect()
}

/// The smaller of a requested position and the number of clusters.
pub open spec fn clamp(at: nat, len: nat) -> nat {
    if at > len {
        len
    } else {
        at
    }
}

/// The text and cursor after `cluster` is inserted before the cluster at
/// position `at` (clamped to the number of clusters). A cluster that holds a
/// line feed is not inserted.
pub open spec fn inserted(text: Seq<char>, at: nat, cluster: Seq<char>) -> (Seq<char>, nat) {
    let clusters = grapheme_clusters(text);
    let p = clamp(at, clusters.len());
    if cluster.contains('\n') {
        (text, p)
    } else {
        (clusters.insert(p as int, cluster).flatten(), p + 1)
    }
}

/// The text and cursor after the cluster before position `at` (clamped to
/// the number of clusters) is removed. At position 0 nothing is removed.
pub open spec fn deleted_before(text: Seq<char>, at: nat) -> (Seq<char>, nat) {
    let clusters = grapheme_clusters(text);
    let p = clamp(at, clusters.len());
    if p == 0 {
        (text, 0)
    } else {
        (clusters.remove(p - 1).flatten(), (p - 1) as nat)
    }
}

/// The grapheme clusters of `text`, in order.
pub fn clusters_of(text: &str) -> (clusters: Vec<String>)
    ensures
        clusters.deep_view() == grapheme_clusters(text@),
        clusters.deep_view().flatten() == text@,
{
    graphemes(text)
}

/// The number of grapheme clusters of `text`.
pub fn length_in_clusters(text: &str) -> (n: usize)
    ensures
        n == grapheme_clusters(text@).len(),
        clusters_cover(text@),
{
    let clusters = clusters_of(text);
    clusters.len()
}

/// Whether two lists hold the same texts in the same order.
pub fn same_clusters(a: &Vec<String>, b: &Vec<String>) -> (same: bool)
    ensures
        same == (a.deep_view() == b.deep_view()),
{
    if a.len() != b.len() {
        assert(a.deep_view().len() != b.deep_view().len());
        return false;
    }
    let mut i: usize = 0;
    while i < a.len()
        invariant
            i <= a.len(),
            a.len() == b.len(),
            forall|k: int| 0 <= k < i ==> a.deep_view()[k] == b.deep_view()[k],
        decreases a.len() - i,
    {
        if !same_text(a[i].as_str(), b[i].as_str()) {
            assert(a.deep_view()[i as int] != b.deep_view()[i as int]);
            return false;
        }
        i += 1;
    }
    assert(a.deep_view() =~= b.deep_view());
    true
}

/// Inserts `cluster` at cluster position `at` and returns the new text with
/// the cursor behind the inserted cluster.
pub fn insert(text: &str, at: usize, cluster: &str) -> (r: (String, usize))
    ensures
        r.0@ == inserted(text@, at as nat, cluster@).0,
        r.1 == inserted(text@, at as nat, cluster@).1,
{
    let mut clusters = graphemes(text);
    let p = if at > clusters.len() { clusters.len() } else { at };
    if contains_char(cluster, '\n') {
        return (text.to_string(), p);
    }
    let ghost before = clusters.deep_view();
    clusters.insert(p, cluster.to_string());
    assert(clusters.deep_view() =~= before.insert(p as int, cluster@));
    (join(&clusters), p + 1)
}

/// Removes the cluster before cluster position `at` and returns the new text
/// with the cursor where the cluster was.
pub fn delete_before(text: &str, at: usize) -> (r: (String, usize))
    ensures
        r.0@ == deleted_before(text@, at as nat).0,
        r.1 == deleted_before(text@, at as nat).1,
{
    let mut clusters = graphemes(text);
    let p = if at > clusters.len() { clusters.len() } else { at };
    if p == 0 {
        return (text.to_string(), 0);
    }
    let ghost before = clusters.deep_view();
    clusters.remove(p - 1);
    assert(clusters.deep_view() =~= before.remove(p - 1));
    (join(&clusters), p - 1)
}

/// Inserting a cluster and then deleting before the position behind it gives
/// the cursor back, and the text as its clusters spell it, which is the text
/// itself. This holds wherever the cluster is inserted at all and stays a
/// cluster of its own in the new text; a combining mark typed behind a letter
/// does not.
pub proof fn lemma_insert_then_delete(text: Seq<char>, at: nat, cluster: Seq<char>)
    requires
        !cluster.contains('\n'),
        grapheme_clusters(inserted(text, at, cluster).0) == grapheme_clusters(text).insert(
            clamp(at, grapheme_clusters(text).len()) as int,
            cluster,
        ),
    ensures
        deleted_before(inserted(text, at, cluster).0, at + 1) == (
            grapheme_clusters(text).flatten(),
            clamp(at, grapheme_clusters(text).len()),
        ),
        clusters_cover(text) ==> deleted_before(inserted(text, at, cluster).0, at + 1).0 == text,
{
    let clusters = grapheme_clusters(text);
    let p = clamp(at, clusters.len()) as int;
    assert(clusters.insert(p, cluster).remove(p) =~= clusters);
}

/// Whether `cluster`, inserted into `text` at position `at`, stays a cluster
/// of its own and leaves the clusters around it as they were. Where it
/// does, deleting before the position behind it gives `text` back.
pub fn inserts_apart(text: &str, at: usize, cluster: &str) -> (apart: bool)
    ensures
        apart == (!cluster@.contains('\n') && grapheme_clusters(
            inserted(text@, at as nat, cluster@).0,
        ) == grapheme_clusters(text@).insert(
            clamp(at as nat, grapheme_clusters(text@).len()) as int,
            cluster@,
        )),
        apart ==> deleted_before(inserted(text@, at as nat, cluster@).0, at as nat + 1) == (
            text@,
            clamp(at as nat, grapheme_clusters(text@).len()),
        ),
{
    if contains_char(cluster, '\n') {
        return false;
    }
    let mut expected = clusters_of(text);
    let p = if at > expected.len() { expected.len() } else { at };
    let ghost before = expected.deep_view();
    expected.insert(p, cluster.to_string());
    assert(expected.deep_view() =~= before.insert(p as int, cluster@));
    let (longer, _) = insert(text, at, cluster);
    let actual = clusters_of(longer.as_str());
    let apart = same_clusters(&actual, &expected);
    proof {
        if apart {
            lemma_insert_then_delete(text@, at as nat, cluster@);
        }
    }
    apart
}

} // verus!
