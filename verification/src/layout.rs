//! Names of a job's artifacts. Every name is the job's identifier between a
//! prefix and a suffix, so two jobs never share one.

use vstd::prelude::*;
use crate::ident::{is_id_text, JobId};

verus! {

/// Where the primary document of job `id` is staged.
pub open spec fn staged_html_path(dir: Seq<char>, id: Seq<char>) -> Seq<char> {
    dir + id + ".html"@
}

/// Where the footer of job `id` is staged.
pub open spec fn staged_footer_path(dir: Seq<char>, id: Seq<char>) -> Seq<char> {
    dir + id + "-footer.html"@
}

/// Where the renderer writes the PDF of job `id`.
pub open spec fn output_pdf_path(dir: Seq<char>, id: Seq<char>) -> Seq<char> {
    dir + id + ".pdf"@
}

/// The address at which the PDF of job `id` is delivered.
pub open spec fn delivery_url(base: Seq<char>, id: Seq<char>) -> Seq<char> {
    base + id + ".pdf"@
}

/// Every path that job `id` writes to.
pub open spec fn artifact_paths(dir: Seq<char>, id: Seq<char>) -> Set<Seq<char>> {
    set![staged_html_path(dir, id), staged_footer_path(dir, id), output_pdf_path(dir, id)]
}

/// The three texts, one after the other.
pub fn join3(a: &str, b: &str, c: &str) -> (joined: String)
    ensures
        joined@ == a@ + b@ + c@,
{
    let mut joined = String::from_str(a);
    joined.append(b);
    joined.append(c);
    joined
}

/// The path at which the primary document of job `id` is staged.
pub fn html_path_of(dir: &str, id: &JobId) -> (path: String)
    ensures
        path@ == staged_html_path(dir@, id@),
{
    join3(dir, id.as_str(), ".html")
}

/// The path at which the footer of job `id` is staged.
pub fn footer_path_of(dir: &str, id: &JobId) -> (path: String)
    ensures
        path@ == staged_footer_path(dir@, id@),
{
    join3(dir, id.as_str(), "-footer.html")
}

/// The path to which the renderer writes the PDF of job `id`.
pub fn pdf_path_of(dir: &str, id: &JobId) -> (path: String)
    ensures
        path@ == output_pdf_path(dir@, id@),
{
    join3(dir, id.as_str(), ".pdf")
}

/// The address at which the PDF of job `id` is delivered.
pub fn url_of(base: &str, id: &JobId) -> (url: String)
    ensures
        url@ == delivery_url(base@, id@),
{
    join3(base, id.as_str(), ".pdf")
}

/// Texts of equal length between the same prefix and the same suffix give
/// the same whole only if they are the same text.
pub proof fn lemma_framed_text_is_injective(
    prefix: Seq<char>,
    a: Seq<char>,
    b: Seq<char>,
    suffix: Seq<char>,
)
    requires
        a.len() == b.len(),
        prefix + a + suffix == prefix + b + suffix,
    ensures
        a == b,
{
    assert forall|i: int| 0 <= i < a.len() implies a[i] == b[i] by {
        assert((prefix + a + suffix)[prefix.len() + i] == a[i]);
        assert((prefix + b + suffix)[prefix.len() + i] == b[i]);
    }
    assert(a =~= b);
}

/// Two jobs with different identifiers write to no common path: neither
/// stages a document where the other stages one, and neither's PDF is
/// written over an artifact of the other.
pub proof fn lemma_jobs_write_apart(dir: Seq<char>, id1: Seq<char>, id2: Seq<char>)
    requires
        is_id_text(id1),
        is_id_text(id2),
        id1 != id2,
    ensures
        artifact_paths(dir, id1).disjoint(artifact_paths(dir, id2)),
{
    reveal_strlit(".html");
    reveal_strlit("-footer.html");
    reveal_strlit(".pdf");
    if staged_html_path(dir, id1) == staged_html_path(dir, id2) {
        lemma_framed_text_is_injective(dir, id1, id2, ".html"@);
    }
    if staged_footer_path(dir, id1) == staged_footer_path(dir, id2) {
        lemma_framed_text_is_injective(dir, id1, id2, "-footer.html"@);
    }
    if output_pdf_path(dir, id1) == output_pdf_path(dir, id2) {
        lemma_framed_text_is_injective(dir, id1, id2, ".pdf"@);
    }
    assert(staged_html_path(dir, id1).len() == dir.len() + 41);
    assert(staged_html_path(dir, id2).len() == dir.len() + 41);
    assert(staged_footer_path(dir, id1).len() == dir.len() + 48);
    assert(staged_footer_path(dir, id2).len() == dir.len() + 48);
    assert(output_pdf_path(dir, id1).len() == dir.len() + 40);
    assert(output_pdf_path(dir, id2).len() == dir.len() + 40);
}

/// The three artifacts of one job have three different paths.
pub proof fn lemma_artifacts_of_a_job_differ(dir: Seq<char>, id: Seq<char>)
    ensures
        staged_html_path(dir, id) != staged_footer_path(dir, id),
        staged_html_path(dir, id) != output_pdf_path(dir, id),
        staged_footer_path(dir, id) != output_pdf_path(dir, id),
{
    reveal_strlit(".html");
    reveal_strlit("-footer.html");
    reveal_strlit(".pdf");
    assert(staged_html_path(dir, id).len() == dir.len() + id.len() + 5);
    assert(staged_footer_path(dir, id).len() == dir.len() + id.len() + 12);
    assert(output_pdf_path(dir, id).len() == dir.len() + id.len() + 4);
}

/// Two jobs with different identifiers are delivered at different
/// addresses: no job's response names the PDF of another.
pub proof fn lemma_jobs_deliver_apart(base: Seq<char>, id1: Seq<char>, id2: Seq<char>)
    requires
        is_id_text(id1),
        is_id_text(id2),
        id1 != id2,
    ensures
        delivery_url(base, id1) != delivery_url(base, id2),
{
    if delivery_url(base, id1) == delivery_url(base, id2) {
        lemma_framed_text_is_injective(base, id1, id2, ".pdf"@);
    }
}

} // verus!
