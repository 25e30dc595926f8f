//! Communities, their canonical URLs, and the discovery document that
//! describes one.
use vstd::prelude::*;

verus! {

/// The canonical URL of community `name` on node `host`:
/// `https://<host>/c/<name>`.
pub open spec fn community_url(name: Seq<char>, host: Seq<char>) -> Seq<char> {
    "https://"@ + host + "/c/"@ + name
}

/// The link relation of a profile page.
pub open spec fn profile_page_rel() -> Seq<char> {
    "http://webfinger.net/rel/profile-page"@
}

/// The link relation of the entity's own ActivityPub actor.
pub open spec fn self_rel() -> Seq<char> {
    "self"@
}

/// The media type of a profile page.
pub open spec fn html_type() -> Seq<char> {
    "text/html"@
}

/// The media type of an ActivityPub actor.
pub open spec fn activity_json_type() -> Seq<char> {
    "application/activity+json"@
}

/// A community hosted on this node, as the community store returns it.
#[derive(Clone, Debug, PartialEq, Eq)]
pub struct Community {
    pub name: String,
}

impl Community {
    /// The community's canonical URL on the node named `hostname`.
    pub fn get_url(&self, hostname: &str) -> (r: String)
        ensures
            r@ == community_url(self.name@, hostname@),
    {
        let mut url = String::from_str("https://");
        url.append(hostname);
        url.append("/c/");
        url.append(self.name.as_str());
        url
    }
}

/// A typed link of a discovery document.
#[derive(Clone, Debug, PartialEq, Eq)]
pub struct Link {
    pub rel: String,
    pub media_type: String,
    pub href: String,
}

pub struct LinkView {
    pub rel: Seq<char>,
    pub media_type: Seq<char>,
    pub href: Seq<char>,
}

impl View for Link {
    type V = LinkView;

    open spec fn view(&self) -> LinkView {
        LinkView { rel: self.rel@, media_type: self.media_type@, href: self.href@ }
    }
}

/// The answer to a resolved query: the queried resource, the entity's
/// aliases, and its links.
#[derive(Clone, Debug, PartialEq, Eq)]
pub struct DiscoveryDocument {
    pub subject: String,
    pub aliases: Vec<String>,
    pub links: Vec<Link>,
}

pub struct DocumentView {
    pub subject: Seq<char>,
    pub aliases: Seq<Seq<char>>,
    pub links: Seq<LinkView>,
}

impl View for DiscoveryDocument {
    type V = DocumentView;

    open spec fn view(&self) -> DocumentView {
        DocumentView {
            subject: self.subject@,
            aliases: self.aliases@.map_values(|a: String| a@),
            links: self.links@.map_values(|l: Link| l@),
        }
    }
}

/// The document for `subject` whose entity lives at `url`: that URL as the
/// one alias, a profile-page link and a self link, both to that URL.
pub open spec fn discovery_document(subject: Seq<char>, url: Seq<char>) -> DocumentView {
    DocumentView {
        subject,
        aliases: seq![url],
        links: seq![
            LinkView { rel: profile_page_rel(), media_type: html_type(), href: url },
            LinkView { rel: self_rel(), media_type: activity_json_type(), href: url },
        ],
    }
}

/// Builds the discovery document that answers `resource` for the entity
/// whose canonical URL is `url`.
pub fn webfinger_document(resource: &str, url: &str) -> (d: DiscoveryDocument)
    ensures
        d@ == discovery_document(resource@, url@),
{
    let mut aliases: Vec<String> = Vec::new();
    aliases.push(String::from_str(url));
    let mut links: Vec<Link> = Vec::new();
    links.push(
        Link {
            rel: String::from_str("http://webfinger.net/rel/profile-page"),
            media_type: String::from_str("text/html"),
            href: String::from_str(url),
        },
    );
    links.push(
        Link {
            rel: String::from_str("self"),
            media_type: String::from_str("application/activity+json"),
            href: String::from_str(url),
        },
    );
    let d = DiscoveryDocument { subject: String::from_str(resource), aliases, links };
    assert(d@.aliases =~= seq![url@]);
    assert(d@.links =~= discovery_document(resource@, url@).links);
    d
}

} // verus!
