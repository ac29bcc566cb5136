use vstd::prelude::*;

verus! {

/// Does `xs` hold a string whose text is `x`?
pub open spec fn holds_text(xs: Seq<String>, x: Seq<char>) -> bool {
    exists|j: int| 0 <= j < xs.len() && #[trigger] xs[j]@ == x
}

/// Every member of `subset` occurs (by text) in `superset`.
pub open spec fn spec_is_subset(subset: Seq<String>, superset: Seq<String>) -> bool {
    forall|i: int| 0 <= i < subset.len() ==> holds_text(superset, #[trigger] subset[i]@)
}

/// Does `superset` hold a string equal to `member`?
fn holds(superset: &[String], member: &String) -> (r: bool)
    ensures
        r == holds_text(superset@, member@),
{
    let mut j: usize = 0;
    while j < superset.len()
        invariant
            j <= superset@.len(),
            forall|k: int| 0 <= k < j ==> superset@[k]@ != member@,
        decreases superset@.len() - j,
    {
        if superset[j] == *member {
            assert(superset@[j as int]@ == member@);
            return true;
        }
        j = j + 1;
    }
    false
}

/// Is the provided subset a subset of the provided superset?
///
/// # Arguments
/// * `subset` - The provided subset.
/// * `superset` - The provided superset.
pub fn is_subset(subset: &[String], superset: &[String]) -> (r: bool)
    ensures
        r == spec_is_subset(subset@, superset@),
{
    let mut i: usize = 0;
    while i < subset.len()
        invariant
            i <= subset@.len(),
            forall|k: int| 0 <= k < i ==> holds_text(superset@, #[trigger] subset@[k]@),
        decreases subset@.len() - i,
    {
        if !holds(superset, &subset[i]) {
            return false;
        }
        i = i + 1;
    }
    true
}

} // verus!

verus! {

/// How a provider can be reached for an entity: the protocol, the operations
/// it supports, its URI and a protocol-specific context.
#[derive(Debug)]
pub struct EndpointInfo {
    pub protocol: String,
    pub operations: Vec<String>,
    pub uri: String,
    pub context: String,
}

/// An entity as registered with the in-vehicle digital twin service.
#[derive(Debug)]
pub struct EntityAccessInfo {
    pub name: String,
    pub id: String,
    pub description: String,
    pub endpoint_info_list: Vec<EndpointInfo>,
}

/// The endpoint speaks `protocol` and supports every operation in `operations`.
pub open spec fn endpoint_satisfies(
    endpoint: EndpointInfo,
    protocol: Seq<char>,
    operations: Seq<String>,
) -> bool {
    endpoint.protocol@ == protocol && spec_is_subset(operations, endpoint.operations@)
}

/// `i` is the first position of `list` whose endpoint satisfies the requirements.
pub open spec fn is_first_satisfying(
    list: Seq<EndpointInfo>,
    i: int,
    protocol: Seq<char>,
    operations: Seq<String>,
) -> bool {
    &&& 0 <= i < list.len()
    &&& endpoint_satisfies(list[i], protocol, operations)
    &&& forall|k: int| 0 <= k < i ==> !endpoint_satisfies(#[trigger] list[k], protocol, operations)
}

/// Some endpoint of `list` satisfies the requirements.
pub open spec fn any_satisfying(list: Seq<EndpointInfo>, protocol: Seq<char>, operations: Seq<String>) -> bool {
    exists|i: int| 0 <= i < list.len() && endpoint_satisfies(#[trigger] list[i], protocol, operations)
}

/// The two endpoints have the same protocol, operations and context, and
/// URIs with the same text.
pub open spec fn endpoints_agree(a: EndpointInfo, b: EndpointInfo) -> bool {
    &&& a.protocol == b.protocol
    &&& a.operations == b.operations
    &&& a.uri@ == b.uri@
    &&& a.context == b.context
}

/// The message given when no endpoint meets the requirements.
pub open spec fn no_matching_endpoint_message() -> Seq<char> {
    "Did not find an endpoint that met our requirements"@
}

/// The message given when the entity itself is unknown.
pub open spec fn entity_not_found_message() -> Seq<char> {
    "Did not find the entity"@
}

/// Take the first endpoint of `endpoint_info_list` that uses `protocol` and
/// supports all of `operations`.
///
/// # Arguments
/// * `endpoint_info_list` - The candidate endpoints, in the order the service listed them.
/// * `protocol` - The required protocol.
/// * `operations` - The required operations.
pub fn select_endpoint(
    endpoint_info_list: Vec<EndpointInfo>,
    protocol: &str,
    operations: &[String],
) -> (r: Option<EndpointInfo>)
    ensures
        r is None <==> !any_satisfying(endpoint_info_list@, protocol@, operations@),
        r matches Some(e) ==> exists|i: int|
            is_first_satisfying(endpoint_info_list@, i, protocol@, operations@)
                && #[trigger] endpoint_info_list@[i] == e,
{
    let mut list = endpoint_info_list;
    let wanted = String::from_str(protocol);
    let mut i: usize = 0;
    while i < list.len()
        invariant
            list@ == endpoint_info_list@,
            wanted@ == protocol@,
            i <= list@.len(),
            forall|k: int| 0 <= k < i ==> !endpoint_satisfies(#[trigger] list@[k], protocol@, operations@),
        decreases list@.len() - i,
    {
        let satisfied = list[i].protocol == wanted && is_subset(operations, list[i].operations.as_slice());
        if satisfied {
            assert(is_first_satisfying(endpoint_info_list@, i as int, protocol@, operations@));
            let e = list.remove(i);
            return Some(e);
        }
        i = i + 1;
    }
    None
}

/// Take the first endpoint that meets the requirements, or report that none does.
///
/// # Arguments
/// * `endpoint_info_list` - The candidate endpoints.
/// * `protocol` - The required protocol.
/// * `operations` - The required operations.
pub fn select_endpoint_or_error(
    endpoint_info_list: Vec<EndpointInfo>,
    protocol: &str,
    operations: &[String],
) -> (r: Result<EndpointInfo, String>)
    ensures
        r is Err <==> !any_satisfying(endpoint_info_list@, protocol@, operations@),
        r matches Err(m) ==> m@ == no_matching_endpoint_message(),
        r matches Ok(e) ==> exists|i: int|
            is_first_satisfying(endpoint_info_list@, i, protocol@, operations@)
                && #[trigger] endpoint_info_list@[i] == e,
{
    match select_endpoint(endpoint_info_list, protocol, operations) {
        Some(e) => Ok(e),
        None => Err(String::from_str("Did not find an endpoint that met our requirements")),
    }
}

/// One required member that the superset does not offer, by its text, makes
/// the list no subset.
pub proof fn lemma_missing_member_breaks_subset(subset: Seq<String>, superset: Seq<String>, i: int)
    requires
        0 <= i < subset.len(),
        forall|j: int| 0 <= j < superset.len() ==> (#[trigger] superset[j])@ != subset[i]@,
    ensures
        !spec_is_subset(subset, superset),
{
    if spec_is_subset(subset, superset) {
        assert(holds_text(superset, subset[i]@));
        let j = choose|j: int| 0 <= j < superset.len() && #[trigger] superset[j]@ == subset[i]@;
        assert(superset[j]@ != subset[i]@);
    }
}

/// When the superset offers every required member, by its text, the list is
/// a subset.
pub proof fn lemma_offered_members_make_subset(subset: Seq<String>, superset: Seq<String>, witness: spec_fn(int) -> int)
    requires
        forall|i: int| 0 <= i < subset.len() ==> 0 <= #[trigger] witness(i) < superset.len()
            && superset[witness(i)]@ == subset[i]@,
    ensures
        spec_is_subset(subset, superset),
{
    assert forall|i: int| 0 <= i < subset.len() implies holds_text(superset, #[trigger] subset[i]@) by {
        let j = witness(i);
        assert(superset[j]@ == subset[i]@);
    }
}

/// Requiring nothing is always met: the empty set is a subset of every set.
pub proof fn lemma_empty_is_subset(superset: Seq<String>)
    ensures
        spec_is_subset(Seq::empty(), superset),
{
}

/// Every set is a subset of itself.
pub proof fn lemma_subset_reflexive(set: Seq<String>)
    ensures
        spec_is_subset(set, set),
{
    assert forall|i: int| 0 <= i < set.len() implies holds_text(set, #[trigger] set[i]@) by {
        assert(set[i]@ == set[i]@);
    }
}

/// Subsets compose: a subset of a subset is a subset.
pub proof fn lemma_subset_transitive(a: Seq<String>, b: Seq<String>, c: Seq<String>)
    requires
        spec_is_subset(a, b),
        spec_is_subset(b, c),
    ensures
        spec_is_subset(a, c),
{
    assert forall|i: int| 0 <= i < a.len() implies holds_text(c, #[trigger] a[i]@) by {
        assert(holds_text(b, a[i]@));
        let j = choose|j: int| 0 <= j < b.len() && #[trigger] b[j]@ == a[i]@;
        assert(holds_text(c, b[j]@));
    }
}

/// Whether a subset holds depends only on which texts the sets hold, not on
/// their order or repetitions.
pub proof fn lemma_subset_depends_on_texts_only(a1: Seq<String>, a2: Seq<String>, b1: Seq<String>, b2: Seq<String>)
    requires
        forall|x: Seq<char>| holds_text(a1, x) <==> holds_text(a2, x),
        forall|x: Seq<char>| holds_text(b1, x) <==> holds_text(b2, x),
    ensures
        spec_is_subset(a1, b1) <==> spec_is_subset(a2, b2),
{
    if spec_is_subset(a1, b1) {
        assert forall|i: int| 0 <= i < a2.len() implies holds_text(b2, #[trigger] a2[i]@) by {
            assert(holds_text(a2, a2[i]@));
            assert(holds_text(a1, a2[i]@));
            let j = choose|j: int| 0 <= j < a1.len() && #[trigger] a1[j]@ == a2[i]@;
            assert(holds_text(b1, a1[j]@));
        }
    }
    if spec_is_subset(a2, b2) {
        assert forall|i: int| 0 <= i < a1.len() implies holds_text(b1, #[trigger] a1[i]@) by {
            assert(holds_text(a1, a1[i]@));
            assert(holds_text(a2, a1[i]@));
            let j = choose|j: int| 0 <= j < a2.len() && #[trigger] a2[j]@ == a1[i]@;
            assert(holds_text(b2, a2[j]@));
        }
    }
}

/// Offering more never loses a match: a subset stays a subset when more
/// members are appended to the superset.
pub proof fn lemma_subset_of_extended_superset(a: Seq<String>, b: Seq<String>, c: Seq<String>)
    requires
        spec_is_subset(a, b),
    ensures
        spec_is_subset(a, b + c),
{
    assert forall|i: int| 0 <= i < a.len() implies holds_text(b + c, #[trigger] a[i]@) by {
        assert(holds_text(b, a[i]@));
        let j = choose|j: int| 0 <= j < b.len() && #[trigger] b[j]@ == a[i]@;
        assert((b + c)[j] == b[j]);
    }
}

/// Requiring less never loses a match: every prefix of a subset is a subset.
pub proof fn lemma_prefix_of_subset(a: Seq<String>, b: Seq<String>, k: int)
    requires
        spec_is_subset(a, b),
        0 <= k <= a.len(),
    ensures
        spec_is_subset(a.take(k), b),
{
    assert forall|i: int| 0 <= i < a.take(k).len() implies holds_text(b, #[trigger] a.take(k)[i]@) by {
        assert(a.take(k)[i] == a[i]);
    }
}

/// A consumer that asks for an entity's endpoint with the protocol and the
/// operations (or fewer) that a provider registered finds an endpoint: the
/// registered one or one listed before it that also meets the requirements.
pub proof fn lemma_registered_endpoint_is_found(
    list: Seq<EndpointInfo>,
    k: int,
    operations: Seq<String>,
)
    requires
        0 <= k < list.len(),
        spec_is_subset(operations, list[k].operations@),
    ensures
        any_satisfying(list, list[k].protocol@, operations),
        exists|i: int| i <= k && is_first_satisfying(list, i, list[k].protocol@, operations),
{
    let p = list[k].protocol@;
    assert(endpoint_satisfies(list[k], p, operations));
    lemma_first_satisfying_exists(list, k, p, operations);
}

/// When some endpoint meets the requirements, a first one does.
proof fn lemma_first_satisfying_exists(list: Seq<EndpointInfo>, k: int, protocol: Seq<char>, operations: Seq<String>)
    requires
        0 <= k < list.len(),
        endpoint_satisfies(list[k], protocol, operations),
    ensures
        exists|i: int| i <= k && is_first_satisfying(list, i, protocol, operations),
    decreases k,
{
    if forall|j: int| 0 <= j < k ==> !endpoint_satisfies(#[trigger] list[j], protocol, operations) {
        assert(is_first_satisfying(list, k, protocol, operations));
    } else {
        let j = choose|j: int| 0 <= j < k && endpoint_satisfies(#[trigger] list[j], protocol, operations);
        lemma_first_satisfying_exists(list, j, protocol, operations);
    }
}

} // verus!
