//! The request body that moves a resource under a new parent.
use crate::endpoints::Endpoints;
use crate::error::{Failure, MMCError, MMCResult};
use crate::endpoints::lemma_names_revealed;
use crate::json::{
    escaped_text, is_plain, json_string, json_string_text, lemma_plain_text_is_quoted,
};
use vstd::prelude::*;

verus! {

/// The new parent of a moved resource: a show or a season, by its id.
#[derive(Debug, PartialEq, Eq)]
pub struct MoveTarget {
    pub show: Option<String>,
    pub season: Option<String>,
}

/// The resource that moves, and where it moves to.
#[derive(Debug, PartialEq, Eq)]
pub struct Move {
    /// The singular name of the resource's kind; the member `type` of the
    /// JSON object.
    pub kind: String,
    /// The id of the resource.
    pub id: String,
    /// The new parent.
    pub attributes: MoveTarget,
}

/// The body of a move request.
#[derive(Debug, PartialEq, Eq)]
pub struct MoveRequest {
    pub data: Move,
}

/// A [`MoveTarget`] as a mathematical value.
pub struct MoveTargetView {
    pub show: Option<Seq<char>>,
    pub season: Option<Seq<char>>,
}

/// A [`Move`] as a mathematical value.
pub struct MoveView {
    pub kind: Seq<char>,
    pub id: Seq<char>,
    pub attributes: MoveTargetView,
}

/// A [`MoveRequest`] as a mathematical value.
pub struct MoveRequestView {
    pub data: MoveView,
}

impl View for MoveTarget {
    type V = MoveTargetView;

    open spec fn view(&self) -> MoveTargetView {
        MoveTargetView {
            show: match self.show {
                Some(id) => Some(id@),
                None => None,
            },
            season: match self.season {
                Some(id) => Some(id@),
                None => None,
            },
        }
    }
}

impl View for Move {
    type V = MoveView;

    open spec fn view(&self) -> MoveView {
        MoveView { kind: self.kind@, id: self.id@, attributes: self.attributes@ }
    }
}

impl View for MoveRequest {
    type V = MoveRequestView;

    open spec fn view(&self) -> MoveRequestView {
        MoveRequestView { data: self.data@ }
    }
}

impl MoveTargetView {
    /// The target of a move under a parent of kind `endpoint` with the id
    /// `id`: a season or a show takes the id, and any other kind is refused
    /// with its plural name.
    pub open spec fn for_parent(endpoint: Endpoints, id: Seq<char>) -> Result<
        MoveTargetView,
        Failure,
    > {
        match endpoint {
            Endpoints::Season => Ok(MoveTargetView { show: None, season: Some(id) }),
            Endpoints::Show => Ok(MoveTargetView { show: Some(id), season: None }),
            _ => Err(Failure::UnsupportedMoveParent(endpoint.plural_name())),
        }
    }

    /// Exactly one of the two parents is given.
    pub open spec fn well_formed(self) -> bool {
        self.show is Some != self.season is Some
    }

    /// The JSON object of the target: a member for each parent that is
    /// given, `show` before `season`, and none for one that is not.
    pub open spec fn json_text(self) -> Seq<char> {
        match (self.show, self.season) {
            (Some(show), Some(season)) => "{\"show\":"@ + json_string_text(show)
                + ",\"season\":"@ + json_string_text(season) + "}"@,
            (Some(show), None) => "{\"show\":"@ + json_string_text(show) + "}"@,
            (None, Some(season)) => "{\"season\":"@ + json_string_text(season) + "}"@,
            (None, None) => "{}"@,
        }
    }
}

impl MoveView {
    /// The JSON object of the move: `type`, `id` and `attributes`, in this
    /// order.
    pub open spec fn json_text(self) -> Seq<char> {
        "{\"type\":"@ + json_string_text(self.kind) + ",\"id\":"@ + json_string_text(self.id)
            + ",\"attributes\":"@ + self.attributes.json_text() + "}"@
    }
}

impl MoveRequestView {
    /// The JSON text of the request body: an object whose one member, `data`,
    /// is the move.
    pub open spec fn json_text(self) -> Seq<char> {
        "{\"data\":"@ + self.data.json_text() + "}"@
    }

    /// The body that moves the resource `child_id` of kind `child` under the
    /// parent `parent_id` of kind `parent`, where that parent can take it.
    pub open spec fn relocating(
        parent: Endpoints,
        parent_id: Seq<char>,
        child: Endpoints,
        child_id: Seq<char>,
    ) -> Result<MoveRequestView, Failure> {
        match MoveTargetView::for_parent(parent, parent_id) {
            Ok(attributes) => Ok(
                MoveRequestView {
                    data: MoveView { kind: child.singular_name(), id: child_id, attributes },
                },
            ),
            Err(failure) => Err(failure),
        }
    }
}

/// The result of building a target as a mathematical value.
pub open spec fn target_view(built: MMCResult<MoveTarget>) -> Result<MoveTargetView, Failure> {
    match built {
        Ok(target) => Ok(target@),
        Err(error) => Err(error@),
    }
}

/// The result of building a request body as a mathematical value.
pub open spec fn move_request_view(built: MMCResult<MoveRequest>) -> Result<
    MoveRequestView,
    Failure,
> {
    match built {
        Ok(request) => Ok(request@),
        Err(error) => Err(error@),
    }
}

impl MoveTarget {
    /// The target of a move under the parent `id` of kind `endpoint`. Only a
    /// season and a show can take a moved resource.
    pub fn for_endpoint(endpoint: &Endpoints, id: &str) -> (built: MMCResult<MoveTarget>)
        ensures
            target_view(built) == MoveTargetView::for_parent(*endpoint, id@),
    {
        match *endpoint {
            Endpoints::Season => Ok(MoveTarget { show: None, season: Some(String::from_str(id)) }),
            Endpoints::Show => Ok(MoveTarget { show: Some(String::from_str(id)), season: None }),
            _ => Err(MMCError::UnsupportedMoveParent(endpoint.to_string())),
        }
    }

    /// Writes the target as JSON.
    pub fn to_json(&self) -> (json: String)
        ensures
            json@ == self@.json_text(),
    {
        let mut json = String::new();
        match &self.show {
            Some(show) => {
                json.append("{\"show\":");
                json.append(json_string(show.as_str()).unwrap().as_str());
                match &self.season {
                    Some(season) => {
                        json.append(",\"season\":");
                        json.append(json_string(season.as_str()).unwrap().as_str());
                        json.append("}");
                    },
                    None => {
                        json.append("}");
                    },
                }
            },
            None => match &self.season {
                Some(season) => {
                    json.append("{\"season\":");
                    json.append(json_string(season.as_str()).unwrap().as_str());
                    json.append("}");
                },
                None => {
                    json.append("{}");
                },
            },
        }
        proof {
            assert(json@ =~= self@.json_text());
        }
        json
    }
}

impl Move {
    /// Writes the move as JSON.
    pub fn to_json(&self) -> (json: String)
        ensures
            json@ == self@.json_text(),
    {
        let mut json = String::from_str("{\"type\":");
        json.append(json_string(self.kind.as_str()).unwrap().as_str());
        json.append(",\"id\":");
        json.append(json_string(self.id.as_str()).unwrap().as_str());
        json.append(",\"attributes\":");
        json.append(self.attributes.to_json().as_str());
        json.append("}");
        proof {
            assert(json@ =~= self@.json_text());
        }
        json
    }
}

impl MoveRequest {
    /// The body that moves the resource `child_id` of kind `child_endpoint`
    /// under the parent `parent_id` of kind `parent_endpoint`.
    pub fn new(
        parent_endpoint: &Endpoints,
        parent_id: &str,
        child_endpoint: &Endpoints,
        child_id: &str,
    ) -> (built: MMCResult<MoveRequest>)
        ensures
            move_request_view(built) == MoveRequestView::relocating(
                *parent_endpoint,
                parent_id@,
                *child_endpoint,
                child_id@,
            ),
    {
        match MoveTarget::for_endpoint(parent_endpoint, parent_id) {
            Ok(attributes) => Ok(
                MoveRequest {
                    data: Move {
                        kind: child_endpoint.singular(),
                        id: String::from_str(child_id),
                        attributes,
                    },
                },
            ),
            Err(error) => Err(error),
        }
    }

    /// Writes the request body as JSON.
    pub fn to_json(&self) -> (json: String)
        ensures
            json@ == self@.json_text(),
    {
        let mut json = String::from_str("{\"data\":");
        json.append(self.data.to_json().as_str());
        json.append("}");
        json
    }
}

/// A target that [`MoveTargetView::for_parent`] gives names exactly one
/// parent: the show for a show, the season for a season; and it gives one
/// exactly for these two kinds.
pub proof fn lemma_target_names_one_parent(endpoint: Endpoints, id: Seq<char>)
    ensures
        MoveTargetView::for_parent(endpoint, id) is Ok <==> endpoint == Endpoints::Season
            || endpoint == Endpoints::Show,
        MoveTargetView::for_parent(endpoint, id) matches Ok(target) ==> target.well_formed() && (
        endpoint == Endpoints::Show ==> target.show == Some(id)) && (endpoint
            == Endpoints::Season ==> target.season == Some(id)),
{
}

/// The singular name of every kind is made of characters that stand for
/// themselves in JSON.
pub proof fn lemma_singular_names_are_plain(kind: Endpoints)
    ensures
        forall|i: int| 0 <= i < kind.singular_name().len() ==> is_plain(
            #[trigger] kind.singular_name()[i],
        ),
{
    lemma_names_revealed();
}

/// How the fixed parts of a move's body are put together.
proof fn lemma_frames()
    ensures
        "{\"data\":{\"type\":\""@ == "{\"data\":"@ + "{\"type\":"@ + "\""@,
        "\",\"id\":\""@ == "\""@ + ",\"id\":"@ + "\""@,
        "\",\"attributes\":{\""@ + "season"@ + "\":\""@ == "\""@ + ",\"attributes\":"@
            + "{\"season\":"@ + "\""@,
        "\",\"attributes\":{\""@ + "show"@ + "\":\""@ == "\""@ + ",\"attributes\":"@
            + "{\"show\":"@ + "\""@,
        "\"}}}"@ == "\""@ + "}"@ + "}"@ + "}"@,
{
    reveal_strlit("{\"data\":");
    reveal_strlit("}");
    reveal_strlit("{\"type\":");
    reveal_strlit(",\"id\":");
    reveal_strlit(",\"attributes\":");
    reveal_strlit("{\"show\":");
    reveal_strlit("{\"season\":");
    reveal_strlit("\"");
    reveal_strlit("season");
    reveal_strlit("show");
    reveal_strlit("{\"data\":{\"type\":\"");
    reveal_strlit("\",\"id\":\"");
    reveal_strlit("\",\"attributes\":{\"");
    reveal_strlit("\":\"");
    reveal_strlit("\"}}}");
    assert("{\"data\":{\"type\":\""@ =~= "{\"data\":"@ + "{\"type\":"@ + "\""@);
    assert("\",\"id\":\""@ =~= "\""@ + ",\"id\":"@ + "\""@);
    assert("\",\"attributes\":{\""@ + "season"@ + "\":\""@ =~= "\""@ + ",\"attributes\":"@
        + "{\"season\":"@ + "\""@);
    assert("\",\"attributes\":{\""@ + "show"@ + "\":\""@ =~= "\""@ + ",\"attributes\":"@
        + "{\"show\":"@ + "\""@);
    assert("\"}}}"@ =~= "\""@ + "}"@ + "}"@ + "}"@);
}

/// The parts of a move's body, grouped by the object they belong to, are
/// the same text as the parts grouped around the four texts that vary.
proof fn lemma_regrouped(
    data: Seq<char>,
    kind_member: Seq<char>,
    quote: Seq<char>,
    kind: Seq<char>,
    id_member: Seq<char>,
    id: Seq<char>,
    attributes_member: Seq<char>,
    parent_member: Seq<char>,
    parent_id: Seq<char>,
    end: Seq<char>,
)
    ensures
        data + (kind_member + (quote + kind + quote) + id_member + (quote + id + quote)
            + attributes_member + (parent_member + (quote + parent_id + quote) + end) + end) + end
            == (data + kind_member + quote) + kind + (quote + id_member + quote) + id + (quote
            + attributes_member + parent_member + quote) + parent_id + (quote + end + end + end),
{
    let first = data + kind_member + quote;
    let second = first + kind + quote + id_member + quote;
    let third = second + id + quote + attributes_member + parent_member + quote;
    let target = (data + kind_member + quote) + kind + (quote + id_member + quote) + id + (quote
        + attributes_member + parent_member + quote) + parent_id + (quote + end + end + end);
    let target_second = first + kind + (quote + id_member + quote);
    assert(target_second =~= second);
    let target_third = target_second + id + (quote + attributes_member + parent_member + quote);
    assert(target_third =~= third);
    assert(target =~= third + parent_id + quote + end + end + end);
    let target_whole = third + parent_id + quote + end + end + end;
    let inner = parent_member + (quote + parent_id + quote) + end;
    assert(inner =~= parent_member + quote + parent_id + quote + end);
    let middle = kind_member + (quote + kind + quote) + id_member + (quote + id + quote)
        + attributes_member + inner + end;
    assert(kind_member + (quote + kind + quote) =~= kind_member + quote + kind + quote);
    assert(kind_member + quote + kind + quote + id_member + (quote + id + quote) =~= kind_member
        + quote + kind + quote + id_member + quote + id + quote);
    assert(middle =~= kind_member + quote + kind + quote + id_member + quote + id + quote
        + attributes_member + parent_member + quote + parent_id + quote + end + end);
    assert(data + middle + end =~= target_whole);
}

/// The body of a move, where the two ids are made of characters that stand
/// for themselves in JSON: the kind and the id of the moved resource, and
/// under `attributes` one member, named after the parent's kind, that holds
/// the parent's id.
pub proof fn lemma_move_body_of_plain_ids(
    parent: Endpoints,
    parent_id: Seq<char>,
    child: Endpoints,
    child_id: Seq<char>,
)
    requires
        parent == Endpoints::Season || parent == Endpoints::Show,
        forall|i: int| 0 <= i < parent_id.len() ==> is_plain(#[trigger] parent_id[i]),
        forall|i: int| 0 <= i < child_id.len() ==> is_plain(#[trigger] child_id[i]),
    ensures
        MoveRequestView::relocating(parent, parent_id, child, child_id) matches Ok(body)
            && body.json_text() == "{\"data\":{\"type\":\""@ + child.singular_name()
            + "\",\"id\":\""@ + child_id + "\",\"attributes\":{\""@ + parent.singular_name()
            + "\":\""@ + parent_id + "\"}}}"@,
{
    let quote = "\""@;
    let kind = child.singular_name();
    let member = if parent == Endpoints::Season {
        "{\"season\":"@
    } else {
        "{\"show\":"@
    };
    assert(escaped_text(kind) == kind) by {
        lemma_singular_names_are_plain(child);
        lemma_plain_text_is_quoted(kind);
    }
    assert(escaped_text(child_id) == child_id) by {
        lemma_plain_text_is_quoted(child_id);
    }
    assert(escaped_text(parent_id) == parent_id) by {
        lemma_plain_text_is_quoted(parent_id);
    }
    lemma_frames();
    lemma_regrouped(
        "{\"data\":"@,
        "{\"type\":"@,
        quote,
        kind,
        ",\"id\":"@,
        child_id,
        ",\"attributes\":"@,
        member,
        parent_id,
        "}"@,
    );
}

} // verus!
