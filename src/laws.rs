//! What holds of every projection: the order of the document is kept, a
//! missing required field fails the whole load and names its site, optional
//! fields never fail, and projecting is deterministic.
use crate::collect::{
    collect, lemma_collect_err_at, lemma_collect_err_from, lemma_collect_first_err,
    lemma_collect_ok,
};
use crate::config::{
    msg_bad_server, msg_bad_view, msg_server_no_value, msg_server_table, project_spec, projects_to, server_spec,
    site_body_spec, site_spec, sites_table, view_spec, Config, ConfigError, ServerModel, SiteModel,
    ViewModel,
};
use crate::tree::{int_of, spec_get, spec_resolve, table_of, text_of, Entry, Node, Object};
use vstd::prelude::*;
use vstd::view::View as _;

verus! {

/// The key of a table entry, as text.
pub open spec fn key_of(e: Entry) -> Option<Seq<char>> {
    match e.key {
        Some(k) => Some(k@),
        None => None,
    }
}

/// The keys of table entries, in order.
pub open spec fn keys(es: Seq<Entry>) -> Seq<Option<Seq<char>>> {
    es.map_values(|e: Entry| key_of(e))
}

/// Whether message `m` names `k`: `k` occurs in it.
pub open spec fn names(m: Seq<char>, k: Seq<char>) -> bool {
    exists|a: Seq<char>, b: Seq<char>| #[trigger] (a + k + b) == m
}

/// Whether site `s` was built from entry `e`: its key, and the keys of its
/// servers and views, are those of the entry's tables in their order, and each
/// server and view is what its own entry describes.
pub open spec fn site_matches_entry(e: Entry, s: SiteModel) -> bool {
    &&& key_of(e) == Some(s.key)
    &&& e.value matches Some(Node::Object(o))
    &&& table_of(spec_resolve(o, "servers"@)) matches Some(ses)
    &&& keys(ses) == s.servers.map_values(|v: ServerModel| Some(v.key))
    &&& forall|j: int| 0 <= j < ses.len() ==> server_spec(s.key, #[trigger] ses[j]) == Ok::<ServerModel, Seq<char>>(s.servers[j])
    &&& table_of(spec_resolve(o, "views"@)) matches Some(ves)
    &&& keys(ves) == s.views.map_values(|v: ViewModel| Some(v.key))
    &&& forall|j: int| 0 <= j < ves.len() ==> view_spec(s.key, #[trigger] ves[j]) == Ok::<ViewModel, Seq<char>>(s.views[j])
}

proof fn lemma_names(a: Seq<char>, k: Seq<char>, b: Seq<char>)
    ensures
        names(a + k + b, k),
{
    assert(a + k + b == a + k + b);
}

proof fn lemma_site_matches(e: Entry, s: SiteModel)
    requires
        site_spec(e) == Ok::<SiteModel, Seq<char>>(s),
    ensures
        site_matches_entry(e, s),
{
    let k = e.key->Some_0@;
    let o = e.value->Some_0->Object_0;
    let ses = table_of(spec_resolve(o, "servers"@))->Some_0;
    let ves = table_of(spec_resolve(o, "views"@))->Some_0;
    let srs = ses.map_values(|x: Entry| server_spec(k, x));
    let vrs = ves.map_values(|x: Entry| view_spec(k, x));
    lemma_collect_ok(srs, s.servers);
    lemma_collect_ok(vrs, s.views);
    assert forall|j: int| 0 <= j < ses.len() implies server_spec(s.key, #[trigger] ses[j]) == Ok::<ServerModel, Seq<char>>(s.servers[j]) by {
        assert(srs[j] == server_spec(k, ses[j]));
    }
    assert forall|j: int| 0 <= j < ves.len() implies view_spec(s.key, #[trigger] ves[j]) == Ok::<ViewModel, Seq<char>>(s.views[j]) by {
        assert(vrs[j] == view_spec(k, ves[j]));
    }
    assert(keys(ses) =~= s.servers.map_values(|v: ServerModel| Some(v.key)));
    assert(keys(ves) =~= s.views.map_values(|v: ViewModel| Some(v.key)));
}

/// A successful projection has at least one site, one site per entry of the sites table, in the
/// document's order, and within each site one server per entry of its servers
/// table and one view per entry of its views table, in their order.
pub proof fn lemma_project_follows_document(root: Object, sites: Seq<SiteModel>)
    requires
        project_spec(root) == Ok::<Seq<SiteModel>, Seq<char>>(sites),
    ensures
        sites.len() > 0,
        sites_table(root) matches Some(es) && {
            &&& keys(es) == sites.map_values(|s: SiteModel| Some(s.key))
            &&& forall|i: int| 0 <= i < es.len() ==> site_matches_entry(#[trigger] es[i], sites[i])
        },
{
    let es = sites_table(root)->Some_0;
    let rs = es.map_values(|e: Entry| site_spec(e));
    lemma_collect_ok(rs, sites);
    assert forall|i: int| 0 <= i < es.len() implies site_matches_entry(#[trigger] es[i], sites[i]) by {
        assert(rs[i] == site_spec(es[i]));
        lemma_site_matches(es[i], sites[i]);
    }
    assert(keys(es) =~= sites.map_values(|s: SiteModel| Some(s.key)));
}

proof fn lemma_server_error_names_site(k: Seq<char>, e: Entry)
    requires
        server_spec(k, e) is Err,
    ensures
        names(server_spec(k, e)->Err_0, k),
{
    let m = server_spec(k, e)->Err_0;
    if m == msg_bad_server(k) {
        lemma_names("Error: mis-defined server for "@, k, Seq::empty());
        assert(m =~= "Error: mis-defined server for "@ + k + Seq::<char>::empty());
    } else {
        let sk = e.key->Some_0@;
        if m == msg_server_no_value(k, sk) {
            let b = " server "@ + sk + " has no value"@;
            lemma_names("Error: "@, k, b);
            assert(m =~= "Error: "@ + k + b);
        } else if m == msg_server_table(k, sk) {
            let b = " server "@ + sk + " is a table, not an object"@;
            lemma_names("Error: "@, k, b);
            assert(m =~= "Error: "@ + k + b);
        } else {
            let b = " server "@ + sk + " has no `addr`"@;
            lemma_names("Error: "@, k, b);
            assert(m =~= "Error: "@ + k + b);
        }
    }
}

proof fn lemma_view_error_names_site(k: Seq<char>, e: Entry)
    requires
        view_spec(k, e) is Err,
    ensures
        names(view_spec(k, e)->Err_0, k),
{
    let m = view_spec(k, e)->Err_0;
    if m == msg_bad_view(k) {
        lemma_names("Error: mis-defined view for "@, k, Seq::empty());
        assert(m =~= "Error: mis-defined view for "@ + k + Seq::<char>::empty());
    } else {
        let b = " view "@ + e.key->Some_0@ + " is a table, not an object"@;
        lemma_names("Error: "@, k, b);
        assert(m =~= "Error: "@ + k + b);
    }
}

proof fn lemma_site_error_names_site(k: Seq<char>, o: Object)
    requires
        site_body_spec(k, o) is Err,
    ensures
        names(site_body_spec(k, o)->Err_0, k),
{
    let m = site_body_spec(k, o)->Err_0;
    if text_of(spec_get(o, "title"@)) is None {
        lemma_names("Error: "@, k, " has no site title"@);
    } else if text_of(spec_get(o, "title"@))->Some_0.len() == 0 {
        lemma_names("Error: "@, k, " has an empty site title"@);
    } else if text_of(spec_get(o, "subtitle"@)) is None {
        lemma_names("Error: "@, k, " has no site subtitle"@);
    } else if table_of(spec_resolve(o, "servers"@)) is None {
        lemma_names("Error: "@, k, " has no server table"@);
    } else {
        let ses = table_of(spec_resolve(o, "servers"@))->Some_0;
        let srs = ses.map_values(|x: Entry| server_spec(k, x));
        if collect(srs) is Err {
            lemma_collect_err_from(srs, m);
            let j = choose|j: int| 0 <= j < srs.len() && #[trigger] srs[j] == Err::<ServerModel, Seq<char>>(m);
            lemma_server_error_names_site(k, ses[j]);
        } else if table_of(spec_resolve(o, "views"@)) is None {
            lemma_names("Error: "@, k, " has no views table"@);
        } else {
            let ves = table_of(spec_resolve(o, "views"@))->Some_0;
            let vrs = ves.map_values(|x: Entry| view_spec(k, x));
            lemma_collect_err_from(vrs, m);
            let j = choose|j: int| 0 <= j < vrs.len() && #[trigger] vrs[j] == Err::<ViewModel, Seq<char>>(m);
            lemma_view_error_names_site(k, ves[j]);
        }
    }
}

/// A site without a string `title`, with an empty `title`, without a string
/// `subtitle`, or without a servers table or a views table makes the
/// projection fail; where every earlier site is valid, the failure is the
/// message of that site, and the message names the site's key.
pub proof fn lemma_missing_required_field_rejects(root: Object, i: int)
    requires
        sites_table(root) matches Some(es) && 0 <= i < es.len() && es[i].key is Some && (
        es[i].value matches Some(Node::Object(o)) && {
            ||| text_of(spec_get(o, "title"@)) is None
            ||| text_of(spec_get(o, "title"@)) == Some(Seq::<char>::empty())
            ||| text_of(spec_get(o, "subtitle"@)) is None
            ||| table_of(spec_resolve(o, "servers"@)) is None
            ||| table_of(spec_resolve(o, "views"@)) is None
        }),
    ensures
        project_spec(root) is Err,
        (forall|j: int| 0 <= j < i ==> #[trigger] site_spec(sites_table(root)->Some_0[j]) is Ok) ==> names(
            project_spec(root)->Err_0,
            sites_table(root)->Some_0[i].key->Some_0@,
        ),
{
    let es = sites_table(root)->Some_0;
    let rs = es.map_values(|e: Entry| site_spec(e));
    let k = es[i].key->Some_0@;
    let o = es[i].value->Some_0->Object_0;
    assert(rs[i] == site_spec(es[i]));
    lemma_collect_err_at(rs, i);
    if forall|j: int| 0 <= j < i ==> #[trigger] site_spec(es[j]) is Ok {
        assert forall|j: int| 0 <= j < i implies #[trigger] rs[j] is Ok by {
            assert(rs[j] == site_spec(es[j]));
        }
        lemma_collect_first_err(rs, i);
        lemma_site_error_names_site(k, o);
    }
}

/// A server without a string `addr` makes the projection fail.
pub proof fn lemma_missing_addr_rejects(root: Object, i: int, j: int)
    requires
        sites_table(root) matches Some(es) && 0 <= i < es.len() && es[i].key is Some && (
        es[i].value matches Some(Node::Object(o)) && (
        table_of(spec_resolve(o, "servers"@)) matches Some(ses) && 0 <= j < ses.len() && ses[j].key is Some && (
        ses[j].value matches Some(Node::Object(so)) && text_of(spec_get(so, "addr"@)) is None))),
    ensures
        project_spec(root) is Err,
{
    let es = sites_table(root)->Some_0;
    let rs = es.map_values(|e: Entry| site_spec(e));
    let k = es[i].key->Some_0@;
    let o = es[i].value->Some_0->Object_0;
    let ses = table_of(spec_resolve(o, "servers"@))->Some_0;
    let srs = ses.map_values(|x: Entry| server_spec(k, x));
    assert(srs[j] == server_spec(k, ses[j]));
    lemma_collect_err_at(srs, j);
    assert(rs[i] == site_spec(es[i]));
    lemma_collect_err_at(rs, i);
}

/// A server with a string `addr` is accepted whatever its `port`; a `port`
/// that is absent or not an integer becomes no port.
pub proof fn lemma_port_is_optional(site: Seq<char>, e: Entry)
    requires
        e.key is Some,
        e.value matches Some(Node::Object(o)) && text_of(spec_get(o, "addr"@)) is Some,
    ensures
        server_spec(site, e) matches Ok(s) && s.port == int_of(spec_get(e.value->Some_0->Object_0, "port"@)),
        int_of(spec_get(e.value->Some_0->Object_0, "port"@)) is None ==> (server_spec(site, e) matches Ok(s) && s.port is None),
{
}

/// A view entry with a key and no value is accepted, with no mount.
pub proof fn lemma_view_without_value_accepted(site: Seq<char>, e: Entry)
    requires
        e.key is Some,
        e.value is None,
    ensures
        view_spec(site, e) == Ok::<ViewModel, Seq<char>>(ViewModel { key: e.key->Some_0@, mount: None }),
{
}

/// Projecting the same document twice gives equal results.
pub proof fn lemma_project_idempotent(root: Object, r1: Result<Config, ConfigError>, r2: Result<Config, ConfigError>)
    requires
        projects_to(root, r1),
        projects_to(root, r2),
    ensures
        r1 is Ok <==> r2 is Ok,
        r1 matches Ok(c1) ==> (r2 matches Ok(c2) && c1@ == c2@),
        r1 matches Err(ConfigError::Logical(m1)) ==> (r2 matches Err(ConfigError::Logical(m2)) && m1@ == m2@),
{
}

} // verus!
