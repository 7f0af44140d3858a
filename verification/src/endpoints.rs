//! The resource kinds of the API and their names.
use crate::error::{Failure, MMCError, MMCResult};
use crate::text::same_text;
use vstd::prelude::*;

verus! {

/// The Media Manager endpoints that a [`Client`](crate::client::Client) can
/// address.
#[derive(Clone, Copy, Debug, PartialEq, Eq, Structural)]
pub enum Endpoints {
    /// The assets endpoint.
    Asset,
    /// The changelog endpoint.
    Changelog,
    /// The collections endpoint.
    Collection,
    /// The episodes endpoint.
    Episode,
    /// The franchises endpoint.
    Franchise,
    /// The seasons endpoint.
    Season,
    /// The shows endpoint.
    Show,
    /// The specials endpoint.
    Special,
}

impl Endpoints {
    /// The name that tags a resource of this kind in a move request.
    pub open spec fn singular_name(self) -> Seq<char> {
        match self {
            Endpoints::Asset => "asset"@,
            Endpoints::Changelog => "changelog"@,
            Endpoints::Collection => "collection"@,
            Endpoints::Episode => "episode"@,
            Endpoints::Franchise => "franchise"@,
            Endpoints::Season => "season"@,
            Endpoints::Show => "show"@,
            Endpoints::Special => "special"@,
        }
    }

    /// The name of this kind as a path segment.
    pub open spec fn plural_name(self) -> Seq<char> {
        match self {
            Endpoints::Asset => "assets"@,
            Endpoints::Changelog => "changelog"@,
            Endpoints::Collection => "collections"@,
            Endpoints::Episode => "episodes"@,
            Endpoints::Franchise => "franchises"@,
            Endpoints::Season => "seasons"@,
            Endpoints::Show => "shows"@,
            Endpoints::Special => "specials"@,
        }
    }

    /// Whether `text` is one of the two names of this kind.
    pub open spec fn is_named(self, text: Seq<char>) -> bool {
        text == self.singular_name() || text == self.plural_name()
    }

    /// The kind that `text` names, if it names one.
    pub open spec fn named(text: Seq<char>) -> Option<Endpoints> {
        if Endpoints::Asset.is_named(text) {
            Some(Endpoints::Asset)
        } else if Endpoints::Changelog.is_named(text) {
            Some(Endpoints::Changelog)
        } else if Endpoints::Collection.is_named(text) {
            Some(Endpoints::Collection)
        } else if Endpoints::Episode.is_named(text) {
            Some(Endpoints::Episode)
        } else if Endpoints::Franchise.is_named(text) {
            Some(Endpoints::Franchise)
        } else if Endpoints::Season.is_named(text) {
            Some(Endpoints::Season)
        } else if Endpoints::Show.is_named(text) {
            Some(Endpoints::Show)
        } else if Endpoints::Special.is_named(text) {
            Some(Endpoints::Special)
        } else {
            None
        }
    }

    /// The singular name, as a move request's `type` holds it.
    pub fn singular(&self) -> (name: String)
        ensures
            name@ == self.singular_name(),
    {
        String::from_str(
            match *self {
                Endpoints::Asset => "asset",
                Endpoints::Changelog => "changelog",
                Endpoints::Collection => "collection",
                Endpoints::Episode => "episode",
                Endpoints::Franchise => "franchise",
                Endpoints::Season => "season",
                Endpoints::Show => "show",
                Endpoints::Special => "special",
            },
        )
    }

    /// The plural name, as a URL's path holds it.
    pub fn to_string(&self) -> (name: String)
        ensures
            name@ == self.plural_name(),
    {
        String::from_str(
            match *self {
                Endpoints::Asset => "assets",
                Endpoints::Changelog => "changelog",
                Endpoints::Collection => "collections",
                Endpoints::Episode => "episodes",
                Endpoints::Franchise => "franchises",
                Endpoints::Season => "seasons",
                Endpoints::Show => "shows",
                Endpoints::Special => "specials",
            },
        )
    }

    /// Reads an endpoint from either of its names. Any other text is
    /// refused, and the error holds that text.
    pub fn from_str(s: &str) -> (parsed: MMCResult<Endpoints>)
        ensures
            match parsed {
                Ok(endpoint) => Endpoints::named(s@) == Some(endpoint),
                Err(error) => Endpoints::named(s@) is None && error@ == Failure::UnknownEndpoint(
                    s@,
                ),
            },
    {
        if same_text(s, "asset") || same_text(s, "assets") {
            Ok(Endpoints::Asset)
        } else if same_text(s, "changelog") {
            Ok(Endpoints::Changelog)
        } else if same_text(s, "collection") || same_text(s, "collections") {
            Ok(Endpoints::Collection)
        } else if same_text(s, "episode") || same_text(s, "episodes") {
            Ok(Endpoints::Episode)
        } else if same_text(s, "franchise") || same_text(s, "franchises") {
            Ok(Endpoints::Franchise)
        } else if same_text(s, "season") || same_text(s, "seasons") {
            Ok(Endpoints::Season)
        } else if same_text(s, "show") || same_text(s, "shows") {
            Ok(Endpoints::Show)
        } else if same_text(s, "special") || same_text(s, "specials") {
            Ok(Endpoints::Special)
        } else {
            Err(MMCError::UnknownEndpoint(String::from_str(s)))
        }
    }
}

/// Makes known what each name of an endpoint holds.
pub proof fn lemma_names_revealed()
    ensures
        "asset"@ == seq!['a', 's', 's', 'e', 't'],
        "assets"@ == seq!['a', 's', 's', 'e', 't', 's'],
        "changelog"@ == seq!['c', 'h', 'a', 'n', 'g', 'e', 'l', 'o', 'g'],
        "collection"@ == seq!['c', 'o', 'l', 'l', 'e', 'c', 't', 'i', 'o', 'n'],
        "collections"@ == seq!['c', 'o', 'l', 'l', 'e', 'c', 't', 'i', 'o', 'n', 's'],
        "episode"@ == seq!['e', 'p', 'i', 's', 'o', 'd', 'e'],
        "episodes"@ == seq!['e', 'p', 'i', 's', 'o', 'd', 'e', 's'],
        "franchise"@ == seq!['f', 'r', 'a', 'n', 'c', 'h', 'i', 's', 'e'],
        "franchises"@ == seq!['f', 'r', 'a', 'n', 'c', 'h', 'i', 's', 'e', 's'],
        "season"@ == seq!['s', 'e', 'a', 's', 'o', 'n'],
        "seasons"@ == seq!['s', 'e', 'a', 's', 'o', 'n', 's'],
        "show"@ == seq!['s', 'h', 'o', 'w'],
        "shows"@ == seq!['s', 'h', 'o', 'w', 's'],
        "special"@ == seq!['s', 'p', 'e', 'c', 'i', 'a', 'l'],
        "specials"@ == seq!['s', 'p', 'e', 'c', 'i', 'a', 'l', 's'],
{
    reveal_strlit("asset");
    reveal_strlit("assets");
    reveal_strlit("changelog");
    reveal_strlit("collection");
    reveal_strlit("collections");
    reveal_strlit("episode");
    reveal_strlit("episodes");
    reveal_strlit("franchise");
    reveal_strlit("franchises");
    reveal_strlit("season");
    reveal_strlit("seasons");
    reveal_strlit("show");
    reveal_strlit("shows");
    reveal_strlit("special");
    reveal_strlit("specials");
    assert("asset"@ =~= seq!['a', 's', 's', 'e', 't']);
    assert("assets"@ =~= seq!['a', 's', 's', 'e', 't', 's']);
    assert("changelog"@ =~= seq!['c', 'h', 'a', 'n', 'g', 'e', 'l', 'o', 'g']);
    assert("collection"@ =~= seq!['c', 'o', 'l', 'l', 'e', 'c', 't', 'i', 'o', 'n']);
    assert("collections"@ =~= seq!['c', 'o', 'l', 'l', 'e', 'c', 't', 'i', 'o', 'n', 's']);
    assert("episode"@ =~= seq!['e', 'p', 'i', 's', 'o', 'd', 'e']);
    assert("episodes"@ =~= seq!['e', 'p', 'i', 's', 'o', 'd', 'e', 's']);
    assert("franchise"@ =~= seq!['f', 'r', 'a', 'n', 'c', 'h', 'i', 's', 'e']);
    assert("franchises"@ =~= seq!['f', 'r', 'a', 'n', 'c', 'h', 'i', 's', 'e', 's']);
    assert("season"@ =~= seq!['s', 'e', 'a', 's', 'o', 'n']);
    assert("seasons"@ =~= seq!['s', 'e', 'a', 's', 'o', 'n', 's']);
    assert("show"@ =~= seq!['s', 'h', 'o', 'w']);
    assert("shows"@ =~= seq!['s', 'h', 'o', 'w', 's']);
    assert("special"@ =~= seq!['s', 'p', 'e', 'c', 'i', 'a', 'l']);
    assert("specials"@ =~= seq!['s', 'p', 'e', 'c', 'i', 'a', 'l', 's']);
}

/// No text names two endpoints.
pub proof fn lemma_name_fixes_endpoint(text: Seq<char>, first: Endpoints, second: Endpoints)
    requires
        first.is_named(text),
        second.is_named(text),
    ensures
        first == second,
{
    lemma_names_revealed();
}

/// Each of the two names of an endpoint reads back as that endpoint, and a
/// text reads as an endpoint only if it is one of that endpoint's names.
pub proof fn lemma_names_read_back(endpoint: Endpoints)
    ensures
        Endpoints::named(endpoint.singular_name()) == Some(endpoint),
        Endpoints::named(endpoint.plural_name()) == Some(endpoint),
        forall|text: Seq<char>| #[trigger]
            Endpoints::named(text) == Some(endpoint) <==> endpoint.is_named(text),
{
    assert forall|text: Seq<char>| #[trigger]
        Endpoints::named(text) == Some(endpoint) <==> endpoint.is_named(text) by {
        if endpoint.is_named(text) {
            match Endpoints::named(text) {
                Some(other) => {
                    lemma_name_fixes_endpoint(text, endpoint, other);
                },
                None => {},
            }
        }
    }
}

} // verus!
