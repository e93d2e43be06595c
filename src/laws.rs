//! Facts about the target URLs that hold for every referrer and identifier.
use vstd::prelude::*;
use crate::request_id::is_request_id;
use crate::url::{
    base_url_spec,
    contains_spec,
    create_suffix,
    create_url_spec,
    database_prefix,
    ends_with_spec,
    referrer_query,
};

verus! {

/// Both target URLs carry the referrer verbatim: each contains
/// `referrer=` followed by the referrer's text.
pub proof fn lemma_url_carries_referrer(referrer: Seq<char>, request_id: Seq<char>)
    ensures
        contains_spec(base_url_spec(referrer, request_id), "referrer="@ + referrer),
        contains_spec(create_url_spec(referrer, request_id), "referrer="@ + referrer),
{
    reveal_strlit("?referrer=");
    reveal_strlit("referrer=");
    let tag = "referrer="@ + referrer;
    let base = base_url_spec(referrer, request_id);
    let create = create_url_spec(referrer, request_id);
    let start = (database_prefix().len() + request_id.len() + 1) as int;
    assert(base.subrange(start, start + tag.len() as int) =~= tag);
    assert(create.subrange(start, start + tag.len() as int) =~= tag);
}

/// Requests minted under distinct identifiers target distinct URLs, for the
/// same referrer and for both kinds of target.
pub proof fn lemma_distinct_ids_give_distinct_urls(
    referrer: Seq<char>,
    first_id: Seq<char>,
    second_id: Seq<char>,
)
    requires
        is_request_id(first_id),
        is_request_id(second_id),
        first_id != second_id,
    ensures
        base_url_spec(referrer, first_id) != base_url_spec(referrer, second_id),
        create_url_spec(referrer, first_id) != create_url_spec(referrer, second_id),
{
    let first = base_url_spec(referrer, first_id);
    let second = base_url_spec(referrer, second_id);
    let start = database_prefix().len() as int;
    assert(first.subrange(start, start + 36) =~= first_id);
    assert(second.subrange(start, start + 36) =~= second_id);
    if create_url_spec(referrer, first_id) == create_url_spec(referrer, second_id) {
        assert(create_url_spec(referrer, first_id).subrange(0, first.len() as int) =~= first);
        assert(create_url_spec(referrer, second_id).subrange(0, second.len() as int) =~= second);
    }
}

/// The typed operations' target is the per-request URL followed by
/// `/create`, so it ends in `/create`; the raw operation's target, the
/// per-request URL itself, does not, unless the referrer itself ends so.
pub proof fn lemma_create_and_raw_targets(referrer: Seq<char>, request_id: Seq<char>)
    requires
        !ends_with_spec(referrer, create_suffix()),
    ensures
        create_url_spec(referrer, request_id) == base_url_spec(referrer, request_id)
            + create_suffix(),
        ends_with_spec(create_url_spec(referrer, request_id), create_suffix()),
        !ends_with_spec(base_url_spec(referrer, request_id), create_suffix()),
{
    reveal_strlit("?referrer=");
    reveal_strlit("/create");
    let base = base_url_spec(referrer, request_id);
    let create = create_url_spec(referrer, request_id);
    let n = base.len() as int;
    assert(create.subrange(n, n + 7) =~= create_suffix());
    if referrer.len() >= 7 {
        let tail = base.subrange(n - 7, n);
        assert(tail =~= referrer.subrange(referrer.len() - 7, referrer.len() as int));
    } else {
        let at = n - 7;
        let q_start = (database_prefix().len() + request_id.len()) as int;
        assert(base[at] == referrer_query()[at - q_start]);
        assert(base.subrange(n - 7, n)[0] == base[at]);
    }
}

} // verus!
