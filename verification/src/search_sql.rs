//! The parts of the offering queries that are built in code: the filter
//! clauses of a marketplace search with their numbered placeholders, the
//! paging of its results, and the placeholder lists of bulk updates.

use vstd::prelude::*;
use crate::text::{owned, decimal, u64_to_string, join};

verus! {

/// A numbered SQL placeholder, `$n`.
pub open spec fn placeholder(n: nat) -> Seq<char> {
    seq!['$'] + decimal(n)
}

/// Appends the placeholder `$idx`.
fn push_placeholder(m: &mut String, idx: u64)
    ensures
        final(m)@ == old(m)@ + placeholder(idx as nat),
{
    let n = u64_to_string(idx);
    m.append("$");
    m.append(n.as_str());
    proof {
        reveal_strlit("$");
    }
    assert(m@ =~= old(m)@ + placeholder(idx as nat));
}

/// Which optional filters a marketplace search uses.
pub struct SearchFilters {
    /// A product type to match exactly.
    pub product_type: bool,
    /// A datacenter country to match exactly.
    pub country: bool,
    /// Only offerings in stock.
    pub in_stock_only: bool,
    /// Only offerings with a post-provision script.
    pub has_recipe: bool,
    /// A text to look for in name, description and product type.
    pub text_search: bool,
    /// A lowest monthly price.
    pub min_price: bool,
    /// A highest monthly price.
    pub max_price: bool,
}

/// The next placeholder number after `i` when a filter is `on`.
pub open spec fn bump(i: int, on: bool) -> int {
    if on { i + 1 } else { i }
}

/// The clause of a filter with one placeholder: `prefix` and `$idx` when
/// the filter is used, nothing otherwise.
pub open spec fn filter_piece(on: bool, prefix: Seq<char>, idx: int) -> Seq<char> {
    if on { prefix + placeholder(idx as nat) } else { Seq::empty() }
}

/// The clause of the text filter, which matches one placeholder against
/// three columns.
pub open spec fn text_piece(on: bool, idx: int) -> Seq<char> {
    if on {
        " AND (o.offer_name ILIKE "@ + placeholder(idx as nat) + " OR o.description ILIKE "@
            + placeholder(idx as nat) + " OR o.product_type ILIKE "@ + placeholder(idx as nat) + ")"@
    } else {
        Seq::empty()
    }
}

/// The clause of the recipe filter, which binds no value.
pub open spec fn recipe_piece(on: bool) -> Seq<char> {
    if on { " AND o.post_provision_script IS NOT NULL"@ } else { Seq::empty() }
}

/// The ordering of search results.
pub open spec fn search_order() -> Seq<char> {
    " ORDER BY p.reliability_score DESC NULLS LAST, p.trust_score DESC NULLS LAST, o.monthly_price ASC, o.id ASC LIMIT "@
}

/// The number of the last placeholder the filters bind; `$1` and `$2` are
/// taken by the example provider's key and the heartbeat cutoff.
pub open spec fn last_filter_index(f: SearchFilters) -> int {
    bump(bump(bump(bump(bump(bump(2, f.product_type), f.country), f.in_stock_only), f.text_search), f.min_price), f.max_price)
}

/// The clauses of the filters with one placeholder each that come first:
/// product type, country and stock.
pub open spec fn leading_filters(f: SearchFilters) -> Seq<char> {
    let i1 = bump(2, f.product_type);
    let i2 = bump(i1, f.country);
    let i3 = bump(i2, f.in_stock_only);
    filter_piece(f.product_type, " AND o.product_type = "@, i1)
        + filter_piece(f.country, " AND o.datacenter_country = "@, i2)
        + filter_piece(f.in_stock_only, " AND o.stock_status = "@, i3)
}

/// The clauses of the used filters, each in a fixed order and numbered from
/// `$3` on in that order.
pub open spec fn search_filters_text(f: SearchFilters) -> Seq<char> {
    let i3 = bump(bump(bump(2, f.product_type), f.country), f.in_stock_only);
    let i4 = bump(i3, f.text_search);
    let i5 = bump(i4, f.min_price);
    let i6 = bump(i5, f.max_price);
    leading_filters(f)
        + recipe_piece(f.has_recipe)
        + text_piece(f.text_search, i4)
        + filter_piece(f.min_price, " AND o.monthly_price >= "@, i5)
        + filter_piece(f.max_price, " AND o.monthly_price <= "@, i6)
}

/// The text a search appends to its base query: the filter clauses, then
/// the ordering and the limit and offset placeholders after the last filter
/// placeholder.
pub open spec fn search_tail(f: SearchFilters) -> Seq<char> {
    let last = last_filter_index(f);
    search_filters_text(f) + search_order() + placeholder((last + 1) as nat) + " OFFSET "@
        + placeholder((last + 2) as nat)
}

/// Appends a one-placeholder filter clause when the filter is used, and
/// advances the placeholder number.
fn push_filter(m: &mut String, idx: &mut u64, on: bool, prefix: &str)
    requires
        *old(idx) < 100,
    ensures
        *final(idx) == bump(*old(idx) as int, on),
        final(m)@ == old(m)@ + filter_piece(on, prefix@, *final(idx) as int),
{
    if on {
        *idx = *idx + 1;
        m.append(prefix);
        push_placeholder(m, *idx);
        assert(m@ =~= old(m)@ + filter_piece(on, prefix@, *idx as int));
    } else {
        assert(m@ =~= old(m)@ + filter_piece(on, prefix@, *idx as int));
    }
}

/// Appends the product type, country and stock clauses.
fn push_leading_filters(m: &mut String, idx: &mut u64, f: &SearchFilters)
    requires
        *old(idx) == 2,
    ensures
        *final(idx) == bump(bump(bump(2, f.product_type), f.country), f.in_stock_only),
        final(m)@ == old(m)@ + leading_filters(*f),
{
    push_filter(m, idx, f.product_type, " AND o.product_type = ");
    let ghost s1 = m@;
    push_filter(m, idx, f.country, " AND o.datacenter_country = ");
    let ghost s2 = m@;
    push_filter(m, idx, f.in_stock_only, " AND o.stock_status = ");
    assert(m@ =~= old(m)@ + leading_filters(*f));
}

/// Appends the text filter's clause when it is used.
fn push_text_filter(m: &mut String, idx: &mut u64, on: bool)
    requires
        *old(idx) < 100,
    ensures
        *final(idx) == bump(*old(idx) as int, on),
        final(m)@ == old(m)@ + text_piece(on, *final(idx) as int),
{
    if on {
        *idx = *idx + 1;
        m.append(" AND (o.offer_name ILIKE ");
        push_placeholder(m, *idx);
        m.append(" OR o.description ILIKE ");
        push_placeholder(m, *idx);
        m.append(" OR o.product_type ILIKE ");
        push_placeholder(m, *idx);
        m.append(")");
    }
    assert(m@ =~= old(m)@ + text_piece(on, *idx as int));
}

/// The clauses of the used filters, and the number of the last filter
/// placeholder.
pub fn search_filter_clauses(f: &SearchFilters) -> (r: (String, u64))
    ensures
        r.0@ == search_filters_text(*f),
        r.1 == last_filter_index(*f),
{
    let mut m = owned("");
    let mut idx: u64 = 2;
    push_leading_filters(&mut m, &mut idx, f);
    let ghost s3 = m@;
    if f.has_recipe {
        m.append(" AND o.post_provision_script IS NOT NULL");
    }
    assert(m@ =~= s3 + recipe_piece(f.has_recipe));
    let ghost s4 = m@;
    push_text_filter(&mut m, &mut idx, f.text_search);
    let ghost s5 = m@;
    push_filter(&mut m, &mut idx, f.min_price, " AND o.monthly_price >= ");
    let ghost s6 = m@;
    push_filter(&mut m, &mut idx, f.max_price, " AND o.monthly_price <= ");
    proof {
        reveal_strlit("");
        assert(m@ =~= search_filters_text(*f));
    }
    (m, idx)
}

/// The filter clauses, ordering and paging placeholders of a marketplace
/// search, and the number of the last filter placeholder.
pub fn search_filter_sql(f: &SearchFilters) -> (r: (String, u64))
    ensures
        r.0@ == search_tail(*f),
        r.1 == last_filter_index(*f),
{
    let (mut m, last) = search_filter_clauses(f);
    let ghost s = m@;
    m.append(" ORDER BY p.reliability_score DESC NULLS LAST, p.trust_score DESC NULLS LAST, o.monthly_price ASC, o.id ASC LIMIT ");
    push_placeholder(&mut m, last + 1);
    m.append(" OFFSET ");
    push_placeholder(&mut m, last + 2);
    assert(m@ =~= search_tail(*f));
    (m, last)
}

/// The LIKE pattern of a text search: the text anywhere.
pub fn text_search_pattern(text: &str) -> (r: String)
    ensures
        r@ == seq!['%'] + text@ + seq!['%'],
{
    let mut m = owned("%");
    m.append(text);
    m.append("%");
    proof {
        reveal_strlit("%");
    }
    assert(m@ =~= seq!['%'] + text@ + seq!['%']);
    m
}

/// How many rows a search fetches for a page of `limit`: three times as
/// many, since offerings without a usable agent pool are dropped after the
/// query.
pub fn search_fetch_limit(limit: i64) -> (r: i64)
    requires
        i64::MIN <= limit * 3 <= i64::MAX,
    ensures
        r == limit * 3,
{
    limit * 3
}

/// The positions at which `listed` holds, in order.
pub open spec fn listed_positions(listed: Seq<bool>) -> Seq<int>
    decreases listed.len(),
{
    if listed.len() == 0 {
        Seq::empty()
    } else if listed.last() {
        listed_positions(listed.drop_last()).push(listed.len() - 1)
    } else {
        listed_positions(listed.drop_last())
    }
}

/// The first `n` entries of `s`, or all of them when it is shorter.
pub open spec fn first_n<A>(s: Seq<A>, n: int) -> Seq<A> {
    if s.len() <= n { s } else { s.take(n) }
}

/// The positions kept for listing are exactly the listed ones, each once, in
/// increasing order.
pub proof fn lemma_listed_positions(listed: Seq<bool>)
    ensures
        forall|k: int| 0 <= k < listed_positions(listed).len()
            ==> 0 <= #[trigger] listed_positions(listed)[k] < listed.len() && listed[listed_positions(listed)[k]],
        forall|j: int, k: int| 0 <= j < k < listed_positions(listed).len()
            ==> listed_positions(listed)[j] < listed_positions(listed)[k],
        forall|p: int| 0 <= p < listed.len() && listed[p] ==> #[trigger] listed_positions(listed).contains(p),
    decreases listed.len(),
{
    if listed.len() > 0 {
        let rest = listed.drop_last();
        lemma_listed_positions(rest);
        let pr = listed_positions(rest);
        let n = listed.len() - 1;
        assert forall|p: int| 0 <= p < listed.len() && listed[p] implies #[trigger] listed_positions(listed).contains(p) by {
            if p < n {
                assert(rest[p] == listed[p]);
                assert(pr.contains(p));
                let i = choose|i: int| 0 <= i < pr.len() && pr[i] == p;
                if listed.last() {
                    assert(listed_positions(listed)[i] == p);
                }
            } else {
                assert(listed_positions(listed)[pr.len() as int] == p);
            }
        }
        assert forall|k: int| 0 <= k < listed_positions(listed).len()
            implies 0 <= #[trigger] listed_positions(listed)[k] < listed.len() && listed[listed_positions(listed)[k]] by {
            if k < pr.len() {
                assert(listed_positions(listed)[k] == pr[k]);
                assert(rest[pr[k]] == listed[pr[k]]);
            }
        }
    }
}

/// A search page lists only offerings that may be listed, each once and in
/// the order fetched, never more than `limit`; a page shorter than `limit`
/// holds every listed offering.
pub proof fn lemma_page_lists_only_listed(listed: Seq<bool>, limit: nat)
    ensures
        first_n(listed_positions(listed), limit as int).len() <= limit,
        forall|k: int| 0 <= k < first_n(listed_positions(listed), limit as int).len()
            ==> listed[#[trigger] first_n(listed_positions(listed), limit as int)[k]],
        forall|j: int, k: int| 0 <= j < k < first_n(listed_positions(listed), limit as int).len()
            ==> first_n(listed_positions(listed), limit as int)[j] < first_n(listed_positions(listed), limit as int)[k],
        first_n(listed_positions(listed), limit as int).len() < limit
            ==> forall|p: int| 0 <= p < listed.len() && listed[p]
                ==> #[trigger] first_n(listed_positions(listed), limit as int).contains(p),
{
    lemma_listed_positions(listed);
    let all = listed_positions(listed);
    let page = first_n(all, limit as int);
    assert forall|k: int| 0 <= k < page.len() implies listed[#[trigger] page[k]] by {
        assert(page[k] == all[k]);
    }
    assert forall|j: int, k: int| 0 <= j < k < page.len() implies page[j] < page[k] by {
        assert(page[j] == all[j]);
        assert(page[k] == all[k]);
    }
    if page.len() < limit {
        assert(page == all);
    }
}

/// The page of a search: the positions of the fetched offerings that may be
/// listed, in the order fetched, at most `limit` of them.
pub fn listed_page(listed: &[bool], limit: usize) -> (r: Vec<usize>)
    ensures
        r@.map_values(|i: usize| i as int) == first_n(listed_positions(listed@), limit as int),
{
    let mut out: Vec<usize> = Vec::new();
    let mut i: usize = 0;
    while i < listed.len()
        invariant
            i <= listed@.len(),
            out@.map_values(|k: usize| k as int) == first_n(listed_positions(listed@.take(i as int)), limit as int),
        decreases listed@.len() - i,
    {
        let ghost before = listed@.take(i as int);
        let ghost after = listed@.take(i + 1);
        assert(after.drop_last() =~= before);
        assert(after.last() == listed@[i as int]);
        let ghost prev = listed_positions(before);
        let ghost next = listed_positions(after);
        assert(listed@[i as int] ==> next == prev.push(i as int));
        assert(!listed@[i as int] ==> next == prev);
        if listed[i] && out.len() < limit {
            let ghost old_map = out@.map_values(|k: usize| k as int);
            assert(old_map.len() == out@.len());
            assert(prev.len() < limit);
            assert(old_map == prev);
            out.push(i);
            assert(out@.map_values(|k: usize| k as int) =~= old_map.push(i as int));
            assert(out@.map_values(|k: usize| k as int) =~= first_n(next, limit as int));
        } else {
            if listed[i] {
                assert(first_n(next, limit as int) =~= first_n(prev, limit as int));
            }
        }
        i = i + 1;
    }
    assert(listed@.take(listed@.len() as int) =~= listed@);
    out
}

/// The placeholders `$first`, `$first+1`, ... for `count` values, joined
/// by commas.
pub open spec fn placeholder_seq(first: nat, count: nat) -> Seq<Seq<char>> {
    Seq::new(count, |k: int| placeholder((first + k) as nat))
}

/// The comma-separated placeholders for `count` values numbered from
/// `first`.
pub fn placeholder_list(first: u64, count: u64) -> (r: String)
    requires
        first + count <= u64::MAX,
    ensures
        r@ == join(placeholder_seq(first as nat, count as nat), ","@),
{
    let mut m = owned("");
    let mut k: u64 = 0;
    proof {
        reveal_strlit("");
        assert(placeholder_seq(first as nat, 0) =~= Seq::<Seq<char>>::empty());
    }
    while k < count
        invariant
            k <= count,
            first + count <= u64::MAX,
            m@ == join(placeholder_seq(first as nat, k as nat), ","@),
        decreases count - k,
    {
        let ghost before = m@;
        assert(placeholder_seq(first as nat, (k + 1) as nat).drop_last() =~= placeholder_seq(first as nat, k as nat));
        if k > 0 {
            m.append(",");
        }
        push_placeholder(&mut m, first + k);
        proof {
            reveal_strlit(",");
            if k == 0 {
                assert(placeholder_seq(first as nat, 0) =~= Seq::<Seq<char>>::empty());
                assert(m@ =~= join(placeholder_seq(first as nat, 1), ","@));
            } else {
                assert(m@ =~= join(placeholder_seq(first as nat, (k + 1) as nat), ","@));
            }
        }
        k = k + 1;
    }
    m
}

/// The ordering and paging placeholders after `bound` values bound past the
/// first two placeholders.
pub open spec fn page_tail(bound: nat) -> Seq<char> {
    search_order() + placeholder(bound + 3) + " OFFSET "@ + placeholder(bound + 4)
}

/// The ordering and the limit and offset placeholders of a search whose
/// parsed query binds `bound` values after the first two placeholders.
pub fn page_placeholders(bound: u64) -> (r: String)
    requires
        bound + 4 <= u64::MAX,
    ensures
        r@ == page_tail(bound as nat),
{
    let mut m = owned(" ORDER BY p.reliability_score DESC NULLS LAST, p.trust_score DESC NULLS LAST, o.monthly_price ASC, o.id ASC LIMIT ");
    push_placeholder(&mut m, bound + 3);
    m.append(" OFFSET ");
    push_placeholder(&mut m, bound + 4);
    assert(m@ =~= page_tail(bound as nat));
    m
}

/// The condition every marketplace search starts from: public offerings
/// that are no drafts.
pub open spec fn public_condition() -> Seq<char> {
    "WHERE LOWER(o.visibility) = 'public' AND o.is_draft = FALSE"@
}

/// The WHERE clause of a search with a parsed query's condition: the public
/// condition alone when the query gives none, else both joined.
pub open spec fn query_where(condition: Seq<char>) -> Seq<char> {
    if condition.len() == 0 {
        public_condition()
    } else {
        public_condition() + " AND ("@ + condition + ")"@
    }
}

/// Builds the WHERE clause for a parsed query's condition.
pub fn query_where_clause(condition: &str) -> (r: String)
    ensures
        r@ == query_where(condition@),
{
    let mut m = owned("WHERE LOWER(o.visibility) = 'public' AND o.is_draft = FALSE");
    if condition.unicode_len() == 0 {
        m
    } else {
        m.append(" AND (");
        m.append(condition);
        m.append(")");
        assert(m@ =~= query_where(condition@));
        m
    }
}

/// A query over offerings named by id: `prefix`, the placeholders `$1` to
/// `$n` for the ids, and the owner's key as placeholder `$n+1`.
pub open spec fn owned_ids_query(prefix: Seq<char>, n: nat) -> Seq<char> {
    prefix + join(placeholder_seq(1, n), ","@) + ") AND pubkey = "@ + placeholder(n + 1)
}

/// Builds a query over `n` offerings named by id that belong to one owner.
pub fn owned_ids_sql(prefix: &str, n: u64) -> (r: String)
    requires
        n + 1 <= u64::MAX,
    ensures
        r@ == owned_ids_query(prefix@, n as nat),
{
    let mut m = owned(prefix);
    let list = placeholder_list(1, n);
    m.append(list.as_str());
    m.append(") AND pubkey = ");
    push_placeholder(&mut m, n + 1);
    assert(m@ =~= owned_ids_query(prefix@, n as nat));
    m
}

/// The stock status update for `n` offerings: the status as `$1`, the ids
/// as `$2` to `$n+1`.
pub open spec fn stock_update_query(n: nat) -> Seq<char> {
    "UPDATE provider_offerings SET stock_status = $1 WHERE id IN ("@ + join(placeholder_seq(2, n), ","@) + ")"@
}

/// Builds the stock status update for `n` offerings.
pub fn stock_update_sql(n: u64) -> (r: String)
    requires
        n + 2 <= u64::MAX,
    ensures
        r@ == stock_update_query(n as nat),
{
    let mut m = owned("UPDATE provider_offerings SET stock_status = $1 WHERE id IN (");
    let list = placeholder_list(2, n);
    m.append(list.as_str());
    m.append(")");
    assert(m@ =~= stock_update_query(n as nat));
    m
}

/// The error when some named offerings are not the provider's or do not
/// exist.
pub open spec fn not_all_owned_text() -> Seq<char> {
    "Not all offerings belong to this provider or some IDs are invalid"@
}

/// Checks that the ownership query found every requested offering.
pub fn check_all_owned(found: i64, requested: i64) -> (r: Result<(), String>)
    ensures
        found == requested ==> r is Ok,
        found != requested ==> (r matches Err(e) && e@ == not_all_owned_text()),
{
    if found == requested {
        Ok(())
    } else {
        Err(owned("Not all offerings belong to this provider or some IDs are invalid"))
    }
}

/// Placeholder numbering of a search: the filters bind one value each,
/// except the recipe filter, which binds none; their placeholders follow
/// the two fixed ones, so the limit and offset come right after the last
/// used filter. With no filter, no clause is added. Searches list public
/// offerings that are no drafts.
pub proof fn lemma_search_placeholders(f: SearchFilters)
    ensures
        last_filter_index(f) == 2 + (if f.product_type { 1int } else { 0int }) + (if f.country { 1int } else { 0int })
            + (if f.in_stock_only { 1int } else { 0int }) + (if f.text_search { 1int } else { 0int })
            + (if f.min_price { 1int } else { 0int }) + (if f.max_price { 1int } else { 0int }),
        !f.product_type && !f.country && !f.in_stock_only && !f.has_recipe && !f.text_search && !f.min_price
            && !f.max_price ==> search_filters_text(f) == Seq::<char>::empty(),
        public_condition() == "WHERE LOWER(o.visibility) = 'public' AND o.is_draft = FALSE"@,
        query_where(Seq::empty()) == public_condition(),
{
    if !f.product_type && !f.country && !f.in_stock_only && !f.has_recipe && !f.text_search && !f.min_price
        && !f.max_price {
        assert(leading_filters(f) =~= Seq::<char>::empty());
        assert(search_filters_text(f) =~= Seq::<char>::empty());
    }
}

} // verus!
