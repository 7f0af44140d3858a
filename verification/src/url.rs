//! How the URL of a request is put together.
use crate::client::Client;
use crate::endpoints::Endpoints;
use vstd::prelude::*;

verus! {

/// Query parameters, as pairs of a name and a value, in the order in which
/// they are to appear.
pub type Params<'a> = Vec<(&'a str, &'a str)>;

/// The resource under which another one is addressed: its kind and its id.
pub type ParentEndpoint<'a> = (Endpoints, &'a str);

/// One parameter as the query string holds it.
pub open spec fn pair_text(pair: (Seq<char>, Seq<char>)) -> Seq<char> {
    pair.0 + "="@ + pair.1
}

/// The parameters in their order, each as [`pair_text`] gives it, with `&`
/// between one and the next.
pub open spec fn joined_pairs(params: Seq<(Seq<char>, Seq<char>)>) -> Seq<char>
    decreases params.len(),
{
    if params.len() == 0 {
        Seq::empty()
    } else if params.len() == 1 {
        pair_text(params[0])
    } else {
        joined_pairs(params.drop_last()) + "&"@ + pair_text(params.last())
    }
}

/// The query string: nothing where there is no parameter, else `?` and the
/// joined parameters.
pub open spec fn query_text(params: Seq<(Seq<char>, Seq<char>)>) -> Seq<char> {
    if params.len() == 0 {
        Seq::empty()
    } else {
        "?"@ + joined_pairs(params)
    }
}

/// A parent by its kind and the characters of its id.
pub open spec fn parent_view(parent: Option<ParentEndpoint>) -> Option<(Endpoints, Seq<char>)> {
    match parent {
        Some(given) => Some((given.0, given.1@)),
        None => None,
    }
}

/// An id by its characters.
pub open spec fn id_view(id: Option<&str>) -> Option<Seq<char>> {
    match id {
        Some(given) => Some(given@),
        None => None,
    }
}

/// The two path segments of a parent, each closed by a slash; nothing where
/// there is no parent.
pub open spec fn parent_text(parent: Option<(Endpoints, Seq<char>)>) -> Seq<char> {
    match parent {
        Some((kind, id)) => kind.plural_name() + "/"@ + id + "/"@,
        None => Seq::empty(),
    }
}

/// The path segment of an id, closed by a slash; nothing where there is no
/// id.
pub open spec fn id_text(id: Option<Seq<char>>) -> Seq<char> {
    match id {
        Some(given) => given + "/"@,
        None => Seq::empty(),
    }
}

/// The URL up to its query string: the base, a slash, the parent's segments,
/// the endpoint's segment and the id's segment.
pub open spec fn path_text(
    base: Seq<char>,
    parent: Option<(Endpoints, Seq<char>)>,
    endpoint: Endpoints,
    id: Option<Seq<char>>,
) -> Seq<char> {
    base + "/"@ + parent_text(parent) + endpoint.plural_name() + "/"@ + id_text(id)
}

/// The URL of a resource or of a list of resources.
pub open spec fn url_text(
    base: Seq<char>,
    parent: Option<(Endpoints, Seq<char>)>,
    endpoint: Endpoints,
    id: Option<Seq<char>>,
    params: Seq<(Seq<char>, Seq<char>)>,
) -> Seq<char> {
    path_text(base, parent, endpoint, id) + query_text(params)
}

/// The URL of the editable form of a resource: the segment `edit/` stands
/// between the path and the query string.
pub open spec fn edit_url_text(
    base: Seq<char>,
    parent: Option<(Endpoints, Seq<char>)>,
    endpoint: Endpoints,
    id: Option<Seq<char>>,
    params: Seq<(Seq<char>, Seq<char>)>,
) -> Seq<char> {
    path_text(base, parent, endpoint, id) + "edit/"@ + query_text(params)
}

impl Client {
    /// Writes the query string of `params`. Names and values go in as they
    /// are: nothing is percent-encoded.
    pub fn format_params(params: Params) -> (query: String)
        ensures
            query@ == query_text(params.deep_view()),
    {
        let ghost all = params.deep_view();
        let mut query = String::new();
        let mut i: usize = 0;
        while i < params.len()
            invariant
                i <= params.len(),
                all == params.deep_view(),
                query@ == query_text(all.take(i as int)),
            decreases params.len() - i,
        {
            let pair = &params[i];
            let ghost before = query@;
            if i == 0 {
                query.append("?");
            } else {
                query.append("&");
            }
            query.append(pair.0);
            query.append("=");
            query.append(pair.1);
            proof {
                let shorter = all.take(i as int);
                let longer = all.take(i + 1);
                assert(longer.drop_last() =~= shorter);
                assert(longer.last() == (pair.0@, pair.1@));
                if i == 0 {
                    assert(query@ =~= "?"@ + pair_text(longer[0]));
                } else {
                    assert(query@ =~= "?"@ + (joined_pairs(shorter) + "&"@ + pair_text(
                        longer.last(),
                    )));
                }
            }
            i += 1;
        }
        proof {
            assert(all.take(params.len() as int) =~= all);
        }
        query
    }

    /// Writes the URL up to its query string.
    fn build_path(
        base_url: &str,
        parent: Option<ParentEndpoint>,
        endpoint: Endpoints,
        id: Option<&str>,
    ) -> (path: String)
        ensures
            path@ == path_text(base_url@, parent_view(parent), endpoint, id_view(id)),
    {
        let mut path = String::from_str(base_url);
        path.append("/");
        if let Some(above) = parent {
            path.append(above.0.to_string().as_str());
            path.append("/");
            path.append(above.1);
            path.append("/");
        }
        path.append(endpoint.to_string().as_str());
        path.append("/");
        if let Some(given) = id {
            path.append(given);
            path.append("/");
        }
        proof {
            assert(path@ =~= path_text(base_url@, parent_view(parent), endpoint, id_view(id)));
        }
        path
    }

    /// Writes the URL of a resource, or of a list of resources where `id` is
    /// `None`, under `parent` where one is given.
    pub fn build_url(
        base_url: &str,
        parent: Option<ParentEndpoint>,
        endpoint: Endpoints,
        id: Option<&str>,
        params: Params,
    ) -> (url: String)
        ensures
            url@ == url_text(
                base_url@,
                parent_view(parent),
                endpoint,
                id_view(id),
                params.deep_view(),
            ),
    {
        let mut url = Client::build_path(base_url, parent, endpoint, id);
        url.append(Client::format_params(params).as_str());
        url
    }

    /// Writes the URL of the editable form of a resource.
    pub fn build_edit_url(
        base_url: &str,
        parent: Option<ParentEndpoint>,
        endpoint: Endpoints,
        id: Option<&str>,
        params: Params,
    ) -> (url: String)
        ensures
            url@ == edit_url_text(
                base_url@,
                parent_view(parent),
                endpoint,
                id_view(id),
                params.deep_view(),
            ),
    {
        let mut url = Client::build_path(base_url, parent, endpoint, id);
        url.append("edit/");
        url.append(Client::format_params(params).as_str());
        url
    }
}

/// Joining keeps the order of the parameters: the parameters of `first`
/// followed by those of `second` are joined as `first` is, then `&`, then as
/// `second` is.
pub proof fn lemma_joined_pairs_in_order(
    first: Seq<(Seq<char>, Seq<char>)>,
    second: Seq<(Seq<char>, Seq<char>)>,
)
    requires
        first.len() > 0,
        second.len() > 0,
    ensures
        joined_pairs(first + second) == joined_pairs(first) + "&"@ + joined_pairs(second),
    decreases second.len(),
{
    let whole = first + second;
    assert(whole.last() == second.last());
    if second.len() == 1 {
        assert(whole.drop_last() =~= first);
    } else {
        assert(whole.drop_last() =~= first + second.drop_last());
        lemma_joined_pairs_in_order(first, second.drop_last());
        assert(joined_pairs(whole) =~= joined_pairs(first) + "&"@ + joined_pairs(second));
    }
}

/// The URL of the editable form is the plain URL without parameters, then
/// `edit/`, then the query string. Without parameters it is the plain URL
/// followed by `edit/`.
pub proof fn lemma_edit_url_extends_url(
    base: Seq<char>,
    parent: Option<(Endpoints, Seq<char>)>,
    endpoint: Endpoints,
    id: Option<Seq<char>>,
    params: Seq<(Seq<char>, Seq<char>)>,
)
    ensures
        edit_url_text(base, parent, endpoint, id, params) == url_text(
            base,
            parent,
            endpoint,
            id,
            Seq::empty(),
        ) + "edit/"@ + query_text(params),
        edit_url_text(base, parent, endpoint, id, Seq::empty()) == url_text(
            base,
            parent,
            endpoint,
            id,
            Seq::empty(),
        ) + "edit/"@,
{
    let path = path_text(base, parent, endpoint, id);
    let none = Seq::<(Seq<char>, Seq<char>)>::empty();
    assert(path + query_text(none) =~= path);
    assert(path + "edit/"@ + query_text(none) =~= path + "edit/"@);
}

/// Every path ends with a slash: each of its segments is closed by one.
pub proof fn lemma_path_ends_with_slash(
    base: Seq<char>,
    parent: Option<(Endpoints, Seq<char>)>,
    endpoint: Endpoints,
    id: Option<Seq<char>>,
)
    ensures
        path_text(base, parent, endpoint, id).len() > 0,
        path_text(base, parent, endpoint, id).last() == '/',
        url_text(base, parent, endpoint, id, Seq::empty()).last() == '/',
        edit_url_text(base, parent, endpoint, id, Seq::empty()).last() == '/',
{
    reveal_strlit("/");
    reveal_strlit("edit/");
    let path = path_text(base, parent, endpoint, id);
    let none = Seq::<(Seq<char>, Seq<char>)>::empty();
    assert(path + query_text(none) =~= path);
    assert(path + "edit/"@ + query_text(none) =~= path + "edit/"@);
}

} // verus!
