//! Passing requests for a tenant on to the pageserver that holds its shard zero.

use vstd::prelude::*;

use crate::controller::status::{invalid_status, is_status, map_reqwest_hyper_status, StatusCode};
use crate::error::{ApiError, ApiErrorView};
use crate::ids::{NodeId, TenantId, TenantShardId};
use crate::seqs::{lemma_filter_empty, lemma_filter_take};
use crate::text::{decimal_string, decimal_text, join, join_text, replace_all, replace_text, split, split_text, texts};

verus! {

/// A request on its way to a pageserver.
#[derive(Debug)]
pub struct Proxied {
    /// The path to ask for.
    pub path: String,
    /// Under which pageserver the request is counted.
    pub pageserver_id: String,
    /// Under which path the request is counted.
    pub path_label: String,
}

/// What becomes of a pageserver's response.
#[derive(Debug)]
pub struct Relayed {
    /// Whether the response is counted as an error.
    pub counts_as_error: bool,
    /// The status to respond with.
    pub status: Result<StatusCode, ApiError>,
}

/// Callers will always pass an unsharded tenant ID.  Before proxying, we must rewrite this
/// to a shard-aware shard zero ID.
pub open spec fn rewritten_path(
    path: Seq<char>,
    tenant_id: TenantId,
    tenant_shard_id: TenantShardId,
) -> Seq<char> {
    replace_all(path, tenant_id.text(), tenant_shard_id.text())
}

/// The words of a path without the shard: the pieces between slashes that are not empty.
pub open spec fn path_words(path: Seq<char>, tenant_shard_id: TenantShardId) -> Seq<Seq<char>> {
    split(replace_all(path, tenant_shard_id.text(), Seq::empty()), '/').filter(
        |word: Seq<char>| word.len() > 0,
    )
}

/// The label of a path: its words, joined by underscores.
pub open spec fn path_label(path: Seq<char>, tenant_shard_id: TenantShardId) -> Seq<char> {
    join(path_words(path, tenant_shard_id), "_"@)
}

fn nonempty_words(words: &Vec<String>) -> (r: Vec<String>)
    ensures
        texts(r@) == texts(words@).filter(|word: Seq<char>| word.len() > 0),
{
    let ghost keep = |word: Seq<char>| word.len() > 0;
    let mut out: Vec<String> = Vec::new();
    proof {
        lemma_filter_empty(texts(words@).take(0), keep);
        assert(texts(out@) =~= Seq::empty());
    }
    for i in 0..words.len()
        invariant
            keep == (|word: Seq<char>| word.len() > 0),
            texts(out@) == texts(words@).take(i as int).filter(keep),
    {
        proof {
            lemma_filter_take(texts(words@), keep, i as int);
        }
        let chars = crate::text::chars_of(words[i].as_str());
        let ghost before = texts(out@);
        if chars.len() > 0 {
            let word = words[i].clone();
            out.push(word);
            assert(texts(out@) =~= before.push(word@));
        }
    }
    assert(texts(words@).take(words.len() as int) =~= texts(words@));
    out
}

fn label_of(path: &str, tenant_shard_str: &str) -> (r: String)
    requires
        tenant_shard_str@.len() > 0,
    ensures
        r@ == join(
            split(replace_all(path@, tenant_shard_str@, Seq::empty()), '/').filter(
                |word: Seq<char>| word.len() > 0,
            ),
            "_"@,
        ),
{
    proof {
        reveal_strlit("");
        assert(""@ =~= Seq::empty());
    }
    let just_path = replace_text(path, tenant_shard_str, "");
    let words = split_text(just_path.as_str(), '/');
    let words = nonempty_words(&words);
    join_text(&words, "_")
}

/// How to pass a request for `path`, about `tenant_id`, on to the node that holds shard
/// zero.
pub fn proxy(path: &str, tenant_id: TenantId, node_id: NodeId, tenant_shard_id: TenantShardId) -> (r:
    Proxied)
    ensures
        r.path@ == rewritten_path(path@, tenant_id, tenant_shard_id),
        r.pageserver_id@ == decimal_text(node_id.value as int),
        r.path_label@ == path_label(r.path@, tenant_shard_id),
{
    proof {
        crate::ids::law_id_text_len(tenant_id.value);
        crate::ids::law_shard_text_begins_with_tenant(tenant_shard_id);
    }
    let tenant_str = tenant_id.to_string();
    let tenant_shard_str = tenant_shard_id.to_string();
    let path = replace_text(path, tenant_str.as_str(), tenant_shard_str.as_str());
    // This is a bit awkward. We remove the param from the request
    // and join the words by '_' to get a label for the request.
    let path_label = label_of(path.as_str(), tenant_shard_str.as_str());
    Proxied { path, pageserver_id: decimal_string(node_id.value), path_label }
}

/// How to pass a request on, once it is known which node holds shard zero.
pub fn handle_tenant_timeline_passthrough(
    path: &str,
    tenant_id: TenantId,
    shard_zero: Result<(NodeId, TenantShardId), ApiError>,
) -> (r: Result<Proxied, ApiError>)
    ensures
        match shard_zero {
            Err(e) => r == Err::<Proxied, ApiError>(e),
            Ok((node_id, tenant_shard_id)) => {
                &&& r is Ok
                &&& r->Ok_0.path@ == rewritten_path(path@, tenant_id, tenant_shard_id)
                &&& r->Ok_0.pageserver_id@ == decimal_text(node_id.value as int)
                &&& r->Ok_0.path_label@ == path_label(r->Ok_0.path@, tenant_shard_id)
            },
        },
{
    match shard_zero {
        Err(e) => Err(e),
        Ok((node_id, tenant_shard_id)) => Ok(proxy(path, tenant_id, node_id, tenant_shard_id)),
    }
}

/// Whether a pageserver's response is counted as an error: unless it is a success.
pub open spec fn counts_as_error(status: u16) -> bool {
    !(200 <= status < 300)
}

/// What becomes of a pageserver's response. `None` stands for a pageserver that could not be
/// reached: we return 503 then because if we can't successfully send a request to the
/// pageserver, we aren't available.
pub fn relay(status: Option<u16>) -> (r: Relayed)
    ensures
        match status {
            None => !r.counts_as_error && r.status is Err && r.status->Err_0@
                == ApiErrorView::ShuttingDown,
            Some(status) => {
                &&& r.counts_as_error <==> !(200 <= status < 300)
                &&& r.counts_as_error == counts_as_error(status)
                &&& r.status is Ok <==> is_status(status)
                &&& r.status matches Ok(code) ==> code.spec_code() == status
                &&& r.status matches Err(e) ==> e@ == invalid_status()
            },
        },
{
    match status {
        None => Relayed { counts_as_error: false, status: Err(ApiError::ShuttingDown) },
        Some(status) => Relayed {
            counts_as_error: !(200 <= status && status < 300),
            status: map_reqwest_hyper_status(status),
        },
    }
}

// ---------------------------------------------------------------------------
// Laws
// ---------------------------------------------------------------------------

/// A request about a tenant that was never sharded is passed on unchanged.
pub proof fn law_unsharded_path_is_kept(path: Seq<char>, tenant_id: TenantId, id: TenantShardId)
    requires
        id.tenant_id == tenant_id,
        id.shard_count == 0,
    ensures
        rewritten_path(path, tenant_id, id) == path,
{
    crate::text::lemma_replace_by_itself(path, tenant_id.text());
}

/// In a request for something about a tenant, the tenant in the path becomes its shard zero,
/// and what stands before it is kept.
pub proof fn law_tenant_becomes_shard(tenant_id: TenantId, id: TenantShardId, rest: Seq<char>)
    ensures
        rewritten_path("/v1/tenant/"@ + tenant_id.text() + rest, tenant_id, id) == "/v1/tenant/"@
            + id.text() + rewritten_path(rest, tenant_id, id),
{
    reveal_strlit("/v1/tenant/");
    let before = "/v1/tenant/"@;
    let pattern = tenant_id.text();
    let whole = before + pattern + rest;
    crate::ids::law_id_text_len(tenant_id.value);
    crate::text::lemma_hex_text_digits(tenant_id.value as int, 32);
    assert forall|i: int| 0 <= i < before.len() implies !crate::text::occurs_at(
        whole,
        pattern,
        i,
    ) by {
        if crate::text::occurs_at(whole, pattern, i) {
            assert(whole[10] == '/');
            assert(whole.subrange(i, i + 32)[10 - i] == pattern[10 - i]);
        }
    }
    crate::text::lemma_replace_first(before, pattern, rest, id.text());
}

/// Where the tenant is named only once, nothing else in the path changes.
pub proof fn law_rest_of_path_is_kept(tenant_id: TenantId, id: TenantShardId, rest: Seq<char>)
    requires
        forall|i: int|
            0 <= i < rest.len() ==> !crate::text::occurs_at(rest, tenant_id.text(), i),
    ensures
        rewritten_path("/v1/tenant/"@ + tenant_id.text() + rest, tenant_id, id) == "/v1/tenant/"@
            + id.text() + rest,
{
    law_tenant_becomes_shard(tenant_id, id, rest);
    crate::text::lemma_replace_absent(rest, tenant_id.text(), id.text());
}

/// A label holds no slash.
pub proof fn law_label_has_no_slash(path: Seq<char>, id: TenantShardId)
    ensures
        !path_label(path, id).contains('/'),
{
    reveal_strlit("_");
    let keep = |word: Seq<char>| word.len() > 0;
    let all = split(replace_all(path, id.text(), Seq::empty()), '/');
    let words = path_words(path, id);
    crate::text::lemma_split_pieces(replace_all(path, id.text(), Seq::empty()), '/');
    assert forall|i: int| 0 <= i < words.len() implies !(#[trigger] words[i]).contains('/') by {
        crate::seqs::lemma_filter_member(all, keep, i);
        let k = choose|k: int| 0 <= k < all.len() && all[k] == words[i];
        assert(!all[k].contains('/'));
    }
    crate::text::lemma_join_avoids(words, "_"@, '/');
}

proof fn lemma_join_with_empty(words: Seq<Seq<char>>, sep: Seq<char>)
    requires
        words.len() > 0,
    ensures
        join(seq![Seq::<char>::empty()] + words, sep) == sep + join(words, sep),
    decreases words.len(),
{
    let all = seq![Seq::<char>::empty()] + words;
    if words.len() == 1 {
        reveal_with_fuel(join, 2);
        assert(all.drop_last() =~= seq![Seq::<char>::empty()]);
        assert(all.last() == words[0]);
        assert(join(all, sep) =~= sep + words[0]);
    } else {
        lemma_join_with_empty(words.drop_last(), sep);
        assert(all.drop_last() =~= seq![Seq::<char>::empty()] + words.drop_last());
        assert(all.last() == words.last());
        assert(join(all, sep) =~= sep + join(words, sep));
    }
}

/// The label of a path is made of its words: where the shard is not named, the words behind
/// slashes become the same words with underscores between them.
pub proof fn law_label_of_words(words: Seq<Seq<char>>, id: TenantShardId)
    requires
        words.len() > 0,
        forall|i: int|
            0 <= i < words.len() ==> (#[trigger] words[i]).len() > 0 && !words[i].contains('/'),
        forall|i: int|
            0 <= i && i + id.text().len() <= (seq!['/'] + join(words, seq!['/'])).len()
                ==> #[trigger] (seq!['/'] + join(words, seq!['/'])).subrange(
                i,
                i + id.text().len(),
            ) != id.text(),
    ensures
        path_label(seq!['/'] + join(words, seq!['/']), id) == join(words, seq!['_']),
{
    reveal_strlit("_");
    assert("_"@ =~= seq!['_']);
    let path = seq!['/'] + join(words, seq!['/']);
    let keep = |word: Seq<char>| word.len() > 0;
    let none = seq![Seq::<char>::empty()];
    crate::ids::law_shard_text_begins_with_tenant(id);
    crate::text::law_nothing_to_replace(path, id.text(), Seq::empty());
    lemma_join_with_empty(words, seq!['/']);
    let pieces = none + words;
    assert forall|i: int| 0 <= i < pieces.len() implies !(#[trigger] pieces[i]).contains('/') by {
        if i > 0 {
            assert(pieces[i] == words[i - 1]);
        }
    }
    crate::text::law_split_finds_parts(pieces, '/');
    Seq::filter_distributes_over_add(none, words, keep);
    lemma_filter_empty(Seq::<Seq<char>>::empty(), keep);
    crate::seqs::lemma_filter_push(Seq::<Seq<char>>::empty(), keep, Seq::empty());
    assert(Seq::<Seq<char>>::empty().push(Seq::empty()) =~= none);
    crate::seqs::lemma_filter_all(words, keep);
    assert(path_words(path, id) =~= words);
}

/// The shard is left out of the label: a path that names it once is labelled like the path
/// without it.
pub proof fn law_label_leaves_shard_out(before: Seq<char>, after: Seq<char>, id: TenantShardId)
    requires
        forall|i: int|
            0 <= i < before.len() ==> #[trigger] (before + id.text() + after).subrange(
                i,
                i + id.text().len(),
            ) != id.text(),
        forall|i: int|
            0 <= i && i + id.text().len() <= after.len() ==> #[trigger] after.subrange(
                i,
                i + id.text().len(),
            ) != id.text(),
        forall|i: int|
            0 <= i && i + id.text().len() <= (before + after).len() ==> #[trigger] (before
                + after).subrange(i, i + id.text().len()) != id.text(),
    ensures
        path_label(before + id.text() + after, id) == path_label(before + after, id),
{
    crate::ids::law_shard_text_begins_with_tenant(id);
    crate::text::law_first_is_replaced(before, id.text(), after, Seq::empty());
    crate::text::law_nothing_to_replace(after, id.text(), Seq::empty());
    crate::text::law_nothing_to_replace(before + after, id.text(), Seq::empty());
    assert(before + Seq::<char>::empty() + after =~= before + after);
}

/// Of all responses, exactly those from 200 to 299 are no errors.
pub proof fn law_counted_errors(status: u16)
    ensures
        !counts_as_error(status) <==> status / 100 == 2,
{
}

} // verus!
