//! The pages of the route reference.
use crate::models::RouteAuthType;
use crate::text::str_eq;
use vstd::prelude::*;
use vstd::string::*;

verus! {

/// A documented route, its parameter and body sections already written.
#[derive(Clone, Debug, PartialEq, Eq, Default)]
pub struct Route {
    pub title: String,
    pub method: String,
    pub path: String,
    pub path_params: String,
    pub query_params: String,
    pub description: String,
    pub request_body: String,
    pub response_body: String,
    pub auth_types: Vec<RouteAuthType>,
}

/// The reference link of a kind of token.
pub open spec fn auth_link(a: RouteAuthType) -> Seq<char> {
    match a {
        RouteAuthType::Bot => "[Bot](#authorization)"@,
        RouteAuthType::User => "[User](#authorization)"@,
        RouteAuthType::Server => "[Server](#authorization)"@,
    }
}

/// The links of the kinds of token, separated by `, `.
pub open spec fn auth_links(types: Seq<RouteAuthType>) -> Seq<char>
    decreases types.len(),
{
    if types.len() == 0 {
        Seq::empty()
    } else if types.len() == 1 {
        auth_link(types[0])
    } else {
        auth_links(types.drop_last()) + ", "@ + auth_link(types.last())
    }
}

/// Which tokens a route accepts, `None` when it needs none.
pub open spec fn auth_text(types: Seq<RouteAuthType>) -> Seq<char> {
    if types.len() == 0 {
        "None"@
    } else {
        auth_links(types)
    }
}

fn link_of(a: RouteAuthType) -> (r: &'static str)
    ensures
        r@ == auth_link(a),
{
    match a {
        RouteAuthType::Bot => "[Bot](#authorization)",
        RouteAuthType::User => "[User](#authorization)",
        RouteAuthType::Server => "[Server](#authorization)",
    }
}

/// The tokens a route accepts (see `auth_text`).
pub fn auth_needed(types: &Vec<RouteAuthType>) -> (r: String)
    ensures
        r@ == auth_text(types@),
{
    if types.len() == 0 {
        return String::from_str("None");
    }
    let mut s = String::new();
    let n = types.len();
    let mut i: usize = 0;
    while i < n
        invariant
            n == types@.len(),
            n > 0,
            i <= n,
            s@ == auth_links(types@.subrange(0, i as int)),
        decreases n - i,
    {
        let ghost p = types@.subrange(0, i + 1);
        proof {
            assert(p.drop_last() =~= types@.subrange(0, i as int));
            assert(p.last() == types@[i as int]);
        }
        if i > 0 {
            s.append(", ");
        } else {
            proof {
                assert(p =~= seq![types@[0]]);
                assert(s@ =~= Seq::<char>::empty());
            }
        }
        let ghost before = s@;
        s.append(link_of(types[i]));
        proof {
            if i == 0 {
                assert(s@ =~= auth_link(types@[0]));
            }
        }
        i = i + 1;
    }
    proof {
        assert(types@.subrange(0, n as int) =~= types@);
    }
    s
}

/// The section of a route page on parameters or a body: parameters are
/// described; bodies are described and shown as an example.
pub open spec fn body_text(typ: Seq<char>, desc: Seq<char>, example: Seq<char>) -> Seq<char> {
    if typ == "Path Parameters"@ || typ == "Query Parameters"@ {
        "\n\n**"@ + typ + "**\n\n"@ + desc + "\n\n"@
    } else {
        "\n\n**"@ + typ + "**\n\n"@ + desc + "\n\n**"@ + typ + " Example**\n\n```json\n"@ + example + "\n```\n\n"@
    }
}

/// Writes a parameter or body section (see `body_text`).
pub fn body(typ: &str, desc: &str, example: &str) -> (r: String)
    ensures
        r@ == body_text(typ@, desc@, example@),
{
    let mut s = String::from_str("\n\n**");
    s.append(typ);
    s.append("**\n\n");
    s.append(desc);
    if str_eq(typ, "Path Parameters") || str_eq(typ, "Query Parameters") {
        s.append("\n\n");
        return s;
    }
    s.append("\n\n**");
    s.append(typ);
    s.append(" Example**\n\n```json\n");
    s.append(example);
    s.append("\n```\n\n");
    s
}

/// The part of a page on one route.
pub open spec fn route_text(r: Route) -> Seq<char> {
    "## "@ + r.title@ + "\n### "@ + r.method@ + " "@ + "`https://api.fateslist.xyz`"@ + r.path@ + "\n"@ + r.query_params@
        + "\n"@ + r.path_params@ + "\n"@ + r.request_body@ + "\n"@ + r.response_body@ + "\n**Authorization Needed** | "@
        + auth_text(r.auth_types@) + "\n\n\n"@
}

/// Writes the part of a page on one route (see `route_text`).
pub fn route_doc(route: &Route) -> (r: String)
    ensures
        r@ == route_text(*route),
{
    let mut s = String::from_str("## ");
    s.append(route.title.as_str());
    s.append("\n### ");
    s.append(route.method.as_str());
    s.append(" ");
    s.append("`https://api.fateslist.xyz`");
    s.append(route.path.as_str());
    s.append("\n");
    s.append(route.query_params.as_str());
    s.append("\n");
    s.append(route.path_params.as_str());
    s.append("\n");
    s.append(route.request_body.as_str());
    s.append("\n");
    s.append(route.response_body.as_str());
    s.append("\n**Authorization Needed** | ");
    s.append(auth_needed(&route.auth_types).as_str());
    s.append("\n\n\n");
    s
}

/// The parts of a page on its routes, in order.
pub open spec fn routes_text(routes: Seq<Route>) -> Seq<char>
    decreases routes.len(),
{
    if routes.len() == 0 {
        Seq::empty()
    } else {
        routes_text(routes.drop_last()) + route_text(routes.last())
    }
}

/// The routes of one page of the reference, and the file it is written to.
#[derive(Clone, Debug, PartialEq, Eq, Default)]
pub struct RouteList {
    pub file_name: String,
    pub routes: Vec<Route>,
}

/// A written page: its file name and its text.
#[derive(Clone, Debug, PartialEq, Eq, Default)]
pub struct DocPage {
    pub file_name: String,
    pub text: String,
}

/// The text of a page of the route reference: the common introduction, then
/// each route.
pub open spec fn page_text(basic_api: Seq<char>, routes: Seq<Route>) -> Seq<char> {
    basic_api + "\n"@ + routes_text(routes)
}

/// Writes a page of the route reference (see `page_text`).
pub fn new_doc_file(basic_api: &str, list: &RouteList) -> (r: String)
    ensures
        r@ == page_text(basic_api@, list.routes@),
{
    let routes = &list.routes;
    let mut s = String::from_str(basic_api);
    s.append("\n");
    let mut i: usize = 0;
    while i < routes.len()
        invariant
            i <= routes@.len(),
            s@ == basic_api@ + "\n"@ + routes_text(routes@.subrange(0, i as int)),
        decreases routes.len() - i,
    {
        proof {
            assert(routes@.subrange(0, i + 1).drop_last() =~= routes@.subrange(0, i as int));
        }
        s.append(route_doc(&routes[i]).as_str());
        i = i + 1;
    }
    proof {
        assert(routes@.subrange(0, routes@.len() as int) =~= routes@);
    }
    s
}

/// Writes every page of the route reference, one per list, in order.
pub fn doc(basic_api: &str, lists: &Vec<RouteList>) -> (r: Vec<DocPage>)
    ensures
        r@.len() == lists@.len(),
        forall|i: int| 0 <= i < lists@.len() ==> (#[trigger] r@[i]).file_name == lists@[i].file_name
            && r@[i].text@ == page_text(basic_api@, lists@[i].routes@),
{
    let mut pages: Vec<DocPage> = Vec::new();
    let mut i: usize = 0;
    while i < lists.len()
        invariant
            i <= lists@.len(),
            pages@.len() == i,
            forall|k: int| 0 <= k < i ==> (#[trigger] pages@[k]).file_name == lists@[k].file_name
                && pages@[k].text@ == page_text(basic_api@, lists@[k].routes@),
        decreases lists.len() - i,
    {
        let text = new_doc_file(basic_api, &lists[i]);
        pages.push(DocPage { file_name: lists[i].file_name.clone(), text });
        i = i + 1;
    }
    pages
}

} // verus!
