//! The shape of a community resource identifier, and the matcher that
//! extracts the community name from one.
use vstd::prelude::*;

verus! {

/// The fixed prefix of a community resource: `group:`.
pub open spec fn group_prefix() -> Seq<char> {
    seq!['g', 'r', 'o', 'u', 'p', ':']
}

/// A character allowed in a community name: `[a-z0-9_]`.
pub open spec fn is_name_char(c: char) -> bool {
    ('a' <= c && c <= 'z') || ('0' <= c && c <= '9') || c == '_'
}

/// A community name: 3 to 20 characters, each of `[a-z0-9_]`.
pub open spec fn is_community_name(name: Seq<char>) -> bool {
    &&& 3 <= name.len() <= 20
    &&& forall|i: int| 0 <= i < name.len() ==> #[trigger] is_name_char(name[i])
}

/// The resource that names community `name` on node `host`:
/// `group:<name>@<host>`.
pub open spec fn group_resource(name: Seq<char>, host: Seq<char>) -> Seq<char> {
    group_prefix() + name + seq!['@'] + host
}

/// `resource` is exactly `group:<name>@<host>` for some community name.
pub open spec fn matches_group_resource(resource: Seq<char>, host: Seq<char>) -> bool {
    exists|name: Seq<char>| is_community_name(name) && resource == #[trigger] group_resource(name, host)
}

/// Position-wise description of a matching resource, with the name's length
/// fixed by the lengths of the resource and of the host.
spec fn well_shaped(resource: Seq<char>, host: Seq<char>) -> bool {
    let name_len = resource.len() - 7 - host.len();
    &&& resource.len() >= 7 + host.len()
    &&& 3 <= name_len <= 20
    &&& resource.subrange(0, 6) == group_prefix()
    &&& forall|j: int| 6 <= j < 6 + name_len ==> #[trigger] is_name_char(resource[j])
    &&& resource[6 + name_len] == '@'
    &&& resource.subrange(7 + name_len, resource.len() as int) == host
}

proof fn lemma_group_resource_parts(name: Seq<char>, host: Seq<char>)
    ensures
        ({
            let r = group_resource(name, host);
            &&& r.len() == 7 + name.len() + host.len()
            &&& r.subrange(0, 6) == group_prefix()
            &&& r.subrange(6, 6 + name.len() as int) == name
            &&& r[6 + name.len() as int] == '@'
            &&& r.subrange(7 + name.len() as int, r.len() as int) == host
        }),
{
    let r = group_resource(name, host);
    assert(r.subrange(0, 6) =~= group_prefix());
    assert(r.subrange(6, 6 + name.len() as int) =~= name);
    assert(r.subrange(7 + name.len() as int, r.len() as int) =~= host);
}

proof fn lemma_match_iff_well_shaped(resource: Seq<char>, host: Seq<char>)
    ensures
        matches_group_resource(resource, host) <==> well_shaped(resource, host),
{
    if matches_group_resource(resource, host) {
        let name = choose|name: Seq<char>|
            is_community_name(name) && resource == #[trigger] group_resource(name, host);
        lemma_group_resource_parts(name, host);
        assert forall|j: int| 6 <= j < 6 + name.len() implies #[trigger] is_name_char(
            resource[j],
        ) by {
            assert(resource[j] == name[j - 6]);
        }
    }
    if well_shaped(resource, host) {
        let name_len = resource.len() - 7 - host.len();
        let name = resource.subrange(6, 6 + name_len);
        assert forall|i: int| 0 <= i < name.len() implies #[trigger] is_name_char(name[i]) by {
            assert(is_name_char(resource[6 + i]));
        }
        assert(resource =~= group_resource(name, host));
    }
}

/// Two resources for the same host are equal only when their names are.
pub proof fn lemma_group_resource_injective(a: Seq<char>, b: Seq<char>, host: Seq<char>)
    requires
        group_resource(a, host) == group_resource(b, host),
    ensures
        a == b,
{
    lemma_group_resource_parts(a, host);
    lemma_group_resource_parts(b, host);
}

/// The matcher for the community resources of one node, built from the
/// node's hostname.  It is a plain value: a node that reloads its hostname
/// builds a new one.
#[derive(Clone, Debug)]
pub struct ResourcePattern {
    hostname: String,
}

impl View for ResourcePattern {
    type V = Seq<char>;

    /// The hostname that resources must end with.
    closed spec fn view(&self) -> Seq<char> {
        self.hostname@
    }
}

impl ResourcePattern {
    /// The matcher for resources of the node named `hostname`.
    pub fn new(hostname: &str) -> (p: ResourcePattern)
        ensures
            p@ == hostname@,
    {
        ResourcePattern { hostname: hostname.to_owned() }
    }

    /// The hostname this matcher was built from.
    pub fn hostname(&self) -> (h: &str)
        ensures
            h@ == self@,
    {
        self.hostname.as_str()
    }

    /// The community name in `resource`, when `resource` is exactly
    /// `group:<name>@<hostname>` with `<name>` of `[a-z0-9_]{3,20}`; `None`
    /// otherwise.  Matching is case-sensitive and anchored at both ends.
    pub fn community_name(&self, resource: &str) -> (r: Option<String>)
        ensures
            match r {
                Some(name) => is_community_name(name@) && resource@ == group_resource(
                    name@,
                    self@,
                ),
                None => !matches_group_resource(resource@, self@),
            },
    {
        proof {
            lemma_match_iff_well_shaped(resource@, self@);
        }
        let host = self.hostname.as_str();
        let total = resource.unicode_len();
        let host_len = host.unicode_len();
        if total < 7 || total - 7 < host_len {
            return None;
        }
        let name_len: usize = total - 7 - host_len;
        if name_len < 3 || name_len > 20 {
            return None;
        }
        let prefix = "group:";
        proof {
            reveal_strlit("group:");
            assert(prefix@ == group_prefix());
        }
        let mut i: usize = 0;
        while i < 6
            invariant
                i <= 6,
                total == resource@.len(),
                total >= 10,
                prefix@ == group_prefix(),
                forall|j: int| 0 <= j < i ==> resource@[j] == group_prefix()[j],
            decreases 6 - i,
        {
            if resource.get_char(i) != prefix.get_char(i) {
                return None;
            }
            i += 1;
        }
        assert(resource@.subrange(0, 6) =~= group_prefix());
        let name_end: usize = 6 + name_len;
        while i < name_end
            invariant
                6 <= i <= name_end,
                name_end == 6 + name_len,
                total == resource@.len(),
                name_end < total,
                host_len == self@.len(),
                name_len == total - 7 - host_len,
                resource@.subrange(0, 6) == group_prefix(),
                forall|j: int| 6 <= j < i ==> #[trigger] is_name_char(resource@[j]),
            decreases name_end - i,
        {
            let c = resource.get_char(i);
            if !(('a' <= c && c <= 'z') || ('0' <= c && c <= '9') || c == '_') {
                assert(!is_name_char(resource@[i as int]));
                return None;
            }
            i += 1;
        }
        if resource.get_char(name_end) != '@' {
            return None;
        }
        let mut k: usize = 0;
        while k < host_len
            invariant
                k <= host_len,
                host_len == self@.len(),
                host@ == self@,
                total == resource@.len(),
                total == name_end + 1 + host_len,
                name_end == 6 + name_len,
                3 <= name_len <= 20,
                resource@.subrange(0, 6) == group_prefix(),
                forall|j: int| 6 <= j < name_end ==> #[trigger] is_name_char(resource@[j]),
                resource@[name_end as int] == '@',
                forall|j: int| 0 <= j < k ==> resource@[name_end + 1 + j] == self@[j],
            decreases host_len - k,
        {
            if resource.get_char(name_end + 1 + k) != host.get_char(k) {
                return None;
            }
            k += 1;
        }
        assert(resource@.subrange(name_end + 1, total as int) =~= self@);
        let name = resource.substring_char(6, name_end).to_owned();
        proof {
            lemma_group_resource_parts(name@, self@);
            assert(resource@ =~= group_resource(name@, self@));
        }
        Some(name)
    }
}

} // verus!
