//! Resolution of a resource against the node's communities, and the laws
//! that resolution obeys.
use vstd::prelude::*;

use crate::document::{
    activity_json_type, community_url, discovery_document, html_type, profile_page_rel, self_rel,
    webfinger_document, Community, DiscoveryDocument, DocumentView,
};
use crate::pattern::{
    group_resource, is_community_name, is_name_char, lemma_group_resource_injective,
    matches_group_resource, ResourcePattern,
};

verus! {

/// Why the community store gave no community for a name.
#[derive(PartialEq, Eq, Structural, Clone, Copy, Debug)]
pub enum LookupFailure {
    /// No community of that name exists.
    NoSuchEntity,
    /// The store could not be read.
    StorageFault,
}

/// Why a resource was not resolved.  All three reach a remote caller as the
/// same "not found" answer; they are kept apart for the node's own use.
#[derive(PartialEq, Eq, Structural, Clone, Copy, Debug)]
pub enum ResolveError {
    /// The resource is not `group:<name>@<hostname>` for this node.
    MalformedInput,
    /// No community of that name exists on this node.
    NotFoundLocally,
    /// The community store failed.
    LookupFault,
}

/// What the community store answered, with a community reduced to its name.
pub open spec fn lookup_view(lookup: Result<Community, LookupFailure>) -> Result<
    Seq<char>,
    LookupFailure,
> {
    match lookup {
        Ok(c) => Ok(c.name@),
        Err(e) => Err(e),
    }
}

/// A resolution outcome, with the document seen through its view.
pub open spec fn outcome_view(r: Result<DiscoveryDocument, ResolveError>) -> Result<
    DocumentView,
    ResolveError,
> {
    match r {
        Ok(d) => Ok(d@),
        Err(e) => Err(e),
    }
}

/// The outcome of resolving `resource` on node `host` when the community
/// store answers `lookup` for the name in it.
pub open spec fn resolution(
    host: Seq<char>,
    resource: Seq<char>,
    lookup: Result<Seq<char>, LookupFailure>,
) -> Result<DocumentView, ResolveError> {
    if !matches_group_resource(resource, host) {
        Err(ResolveError::MalformedInput)
    } else {
        match lookup {
            Ok(name) => Ok(discovery_document(resource, community_url(name, host))),
            Err(LookupFailure::NoSuchEntity) => Err(ResolveError::NotFoundLocally),
            Err(LookupFailure::StorageFault) => Err(ResolveError::LookupFault),
        }
    }
}

impl ResourcePattern {
    /// Resolves `resource`, given what the community store answered for the
    /// name in it.  A resource of the wrong shape is refused whatever the
    /// store answered; otherwise a store failure of either kind is refused,
    /// and a community found yields the document that points at its
    /// canonical URL, with `resource` as its subject.
    pub fn resolve(&self, resource: &str, lookup: Result<Community, LookupFailure>) -> (r: Result<
        DiscoveryDocument,
        ResolveError,
    >)
        ensures
            outcome_view(r) == resolution(self@, resource@, lookup_view(lookup)),
    {
        match self.community_name(resource) {
            None => Err(ResolveError::MalformedInput),
            Some(_) => match lookup {
                Ok(community) => {
                    let url = community.get_url(self.hostname());
                    Ok(webfinger_document(resource, url.as_str()))
                },
                Err(LookupFailure::NoSuchEntity) => Err(ResolveError::NotFoundLocally),
                Err(LookupFailure::StorageFault) => Err(ResolveError::LookupFault),
            },
        }
    }
}

/// A resource that is not exactly `group:<name>@<host>`, with a valid name,
/// is refused as malformed, whatever the community store holds.
pub proof fn lemma_malformed_never_resolves(
    host: Seq<char>,
    resource: Seq<char>,
    lookup: Result<Seq<char>, LookupFailure>,
)
    requires
        !matches_group_resource(resource, host),
    ensures
        resolution(host, resource, lookup) == Err::<DocumentView, ResolveError>(
            ResolveError::MalformedInput,
        ),
{
}

/// A well-formed resource whose community the store does not give is
/// refused.
pub proof fn lemma_unknown_community_not_found(
    host: Seq<char>,
    name: Seq<char>,
    failure: LookupFailure,
)
    requires
        is_community_name(name),
    ensures
        resolution(host, group_resource(name, host), Err(failure)) is Err,
        failure == LookupFailure::NoSuchEntity ==> resolution(
            host,
            group_resource(name, host),
            Err(failure),
        ) == Err::<DocumentView, ResolveError>(ResolveError::NotFoundLocally),
{
}

/// A well-formed resource whose community exists resolves, and the
/// document's subject is the resource exactly as given.
pub proof fn lemma_known_community_resolves(host: Seq<char>, name: Seq<char>, found: Seq<char>)
    requires
        is_community_name(name),
    ensures
        resolution(host, group_resource(name, host), Ok(found)) is Ok,
        resolution(host, group_resource(name, host), Ok(found))->Ok_0.subject == group_resource(
            name,
            host,
        ),
{
}

/// In a resolved document the one alias and both links point at the
/// community's canonical URL, which depends on its name and the host alone.
pub proof fn lemma_document_points_at_community(
    host: Seq<char>,
    resource: Seq<char>,
    found: Seq<char>,
)
    requires
        resolution(host, resource, Ok(found)) is Ok,
    ensures
        ({
            let d = resolution(host, resource, Ok(found))->Ok_0;
            &&& d.aliases.len() == 1
            &&& d.links.len() == 2
            &&& d.aliases[0] == community_url(found, host)
            &&& d.links[0].href == community_url(found, host)
            &&& d.links[1].href == community_url(found, host)
        }),
{
}

/// In a resolved document the first link is the HTML profile page and the
/// second the ActivityPub actor.
pub proof fn lemma_document_link_types(host: Seq<char>, resource: Seq<char>, found: Seq<char>)
    requires
        resolution(host, resource, Ok(found)) is Ok,
    ensures
        ({
            let d = resolution(host, resource, Ok(found))->Ok_0;
            &&& d.links[0].rel == profile_page_rel()
            &&& d.links[0].media_type == html_type()
            &&& d.links[1].rel == self_rel()
            &&& d.links[1].media_type == activity_json_type()
        }),
{
}

/// Resolving the same resource twice against a store that gives the same
/// answer yields the same outcome, document for document.
pub proof fn lemma_resolution_idempotent(
    host: Seq<char>,
    resource: Seq<char>,
    first: Result<Seq<char>, LookupFailure>,
    second: Result<Seq<char>, LookupFailure>,
)
    requires
        first == second,
    ensures
        resolution(host, resource, first) == resolution(host, resource, second),
{
}

/// A name of valid characters matches exactly when it has 3 to 20 of them.
pub proof fn lemma_name_length_bounds(name: Seq<char>, host: Seq<char>)
    requires
        forall|i: int| 0 <= i < name.len() ==> #[trigger] is_name_char(name[i]),
    ensures
        matches_group_resource(group_resource(name, host), host) <==> 3 <= name.len() <= 20,
{
    if matches_group_resource(group_resource(name, host), host) {
        let other = choose|other: Seq<char>|
            is_community_name(other) && group_resource(name, host) == #[trigger] group_resource(
                other,
                host,
            );
        lemma_group_resource_injective(name, other, host);
    }
}

/// A name with an upper-case letter anywhere never matches.
pub proof fn lemma_uppercase_rejected(name: Seq<char>, host: Seq<char>, i: int)
    requires
        0 <= i < name.len(),
        'A' <= name[i] && name[i] <= 'Z',
    ensures
        !matches_group_resource(group_resource(name, host), host),
{
    if matches_group_resource(group_resource(name, host), host) {
        let other = choose|other: Seq<char>|
            is_community_name(other) && group_resource(name, host) == #[trigger] group_resource(
                other,
                host,
            );
        lemma_group_resource_injective(name, other, host);
        assert(is_name_char(other[i]));
    }
}

} // verus!
