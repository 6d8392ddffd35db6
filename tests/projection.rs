use sunstede::config::{Config, ConfigError, Server, Site, View};
use sunstede::tree::{Child, Entry, Node, Object, Prop, Value};

fn text(name: &str, s: &str) -> Prop {
    Prop { name: name.to_string(), value: Value::Str(s.to_string()) }
}

fn integer(name: &str, n: i64) -> Prop {
    Prop { name: name.to_string(), value: Value::Int(n) }
}

fn child(name: &str, node: Node) -> Child {
    Child { name: name.to_string(), node }
}

fn entry(key: &str, value: Node) -> Entry {
    Entry { key: Some(key.to_string()), value: Some(value) }
}

fn object(props: Vec<Prop>, children: Vec<Child>) -> Node {
    Node::Object(Object { props, children })
}

fn table(entries: Vec<Entry>) -> Node {
    Node::Table(entries)
}

fn server(props: Vec<Prop>) -> Node {
    object(props, vec![])
}

/// A site object with the given title, subtitle, servers and views tables.
fn site_node(title: &str, subtitle: &str, servers: Vec<Entry>, views: Vec<Entry>) -> Node {
    object(
        vec![text("title", title), text("subtitle", subtitle)],
        vec![child("servers", table(servers)), child("views", table(views))],
    )
}

fn root(sites: Vec<Entry>) -> Object {
    Object { props: vec![], children: vec![child("sites", table(sites))] }
}

fn logical(r: Result<Config, ConfigError>) -> String {
    match r {
        Err(ConfigError::Logical(m)) => m,
        Err(_) => panic!("expected a logical error, got another kind"),
        Ok(c) => panic!("expected a logical error, got {:?}", c),
    }
}

#[test]
fn scenario_single_site() {
    let doc = root(vec![entry(
        "blog",
        site_node(
            "Blog",
            "",
            vec![entry("local", server(vec![text("addr", "127.0.0.1")]))],
            vec![Entry { key: Some("home".to_string()), value: None }],
        ),
    )]);
    let expected = Config {
        sites: vec![Site {
            key: "blog".to_string(),
            title: "Blog".to_string(),
            subtitle: "".to_string(),
            servers: vec![Server { key: "local".to_string(), addr: "127.0.0.1".to_string(), port: None }],
            views: vec![View { key: "home".to_string(), mount: None }],
        }],
    };
    assert_eq!(Config::project(&doc), Ok(expected));
}

#[test]
fn scenario_missing_server_table() {
    let site = object(
        vec![text("title", "Blog"), text("subtitle", "")],
        vec![child("views", table(vec![]))],
    );
    let doc = root(vec![entry("blog", site)]);
    assert_eq!(logical(Config::project(&doc)), "Error: blog has no server table");
}

#[test]
fn scenario_unreadable_source() {
    let e = ConfigError::unreadable("No such file or directory (os error 2)");
    assert_eq!(
        e,
        ConfigError::Filesystem("Could not read config file: No such file or directory (os error 2)".to_string())
    );
    assert_eq!(e.message(), "Could not read config file: No such file or directory (os error 2)");
}

#[test]
fn scenario_malformed_document() {
    let diag = "line 3: expected `=`".to_string();
    let e = ConfigError::malformed(diag.clone());
    assert_eq!(e, ConfigError::Jacl(diag.clone()));
    assert_eq!(e.message(), &diag);
}

#[test]
fn counts_and_order_follow_document() {
    let doc = root(vec![
        entry(
            "b",
            site_node(
                "B",
                "sub b",
                vec![
                    entry("s2", server(vec![text("addr", "10.0.0.2"), integer("port", 8080)])),
                    entry("s1", server(vec![text("addr", "10.0.0.1")])),
                ],
                vec![],
            ),
        ),
        entry(
            "a",
            site_node(
                "A",
                "sub a",
                vec![],
                vec![
                    entry("v2", object(vec![text("mount", "/two")], vec![])),
                    Entry { key: Some("v1".to_string()), value: None },
                    entry("v3", object(vec![], vec![])),
                ],
            ),
        ),
    ]);
    let c = Config::project(&doc).ok().unwrap();
    let keys: Vec<&str> = c.sites.iter().map(|s| s.key.as_str()).collect();
    assert_eq!(keys, vec!["b", "a"]);
    assert_eq!(
        c.sites[0].servers,
        vec![
            Server { key: "s2".to_string(), addr: "10.0.0.2".to_string(), port: Some(8080) },
            Server { key: "s1".to_string(), addr: "10.0.0.1".to_string(), port: None },
        ]
    );
    assert!(c.sites[0].views.is_empty());
    assert!(c.sites[1].servers.is_empty());
    assert_eq!(
        c.sites[1].views,
        vec![
            View { key: "v2".to_string(), mount: Some("/two".to_string()) },
            View { key: "v1".to_string(), mount: None },
            View { key: "v3".to_string(), mount: None },
        ]
    );
    assert_eq!(c.sites[1].title, "A");
    assert_eq!(c.sites[1].subtitle, "sub a");
}

#[test]
fn missing_title_names_site() {
    let site = object(
        vec![text("subtitle", "")],
        vec![child("servers", table(vec![])), child("views", table(vec![]))],
    );
    let doc = root(vec![entry("blog", site)]);
    assert_eq!(logical(Config::project(&doc)), "Error: blog has no site title");
}

#[test]
fn title_of_wrong_type_is_missing() {
    let site = object(
        vec![integer("title", 3), text("subtitle", "")],
        vec![child("servers", table(vec![])), child("views", table(vec![]))],
    );
    let doc = root(vec![entry("blog", site)]);
    assert_eq!(logical(Config::project(&doc)), "Error: blog has no site title");
}

#[test]
fn empty_title_is_rejected() {
    let doc = root(vec![entry(
        "blog",
        site_node(
            "",
            "",
            vec![entry("local", server(vec![text("addr", "127.0.0.1")]))],
            vec![Entry { key: Some("home".to_string()), value: None }],
        ),
    )]);
    assert_eq!(logical(Config::project(&doc)), "Error: blog has an empty site title");
}

#[test]
fn missing_subtitle_names_site() {
    let site = object(
        vec![text("title", "Blog")],
        vec![child("servers", table(vec![])), child("views", table(vec![]))],
    );
    let doc = root(vec![entry("blog", site)]);
    assert_eq!(logical(Config::project(&doc)), "Error: blog has no site subtitle");
}

#[test]
fn missing_views_table_names_site() {
    let site = object(
        vec![text("title", "Blog"), text("subtitle", "")],
        vec![child("servers", table(vec![]))],
    );
    let doc = root(vec![entry("blog", site)]);
    assert_eq!(logical(Config::project(&doc)), "Error: blog has no views table");
}

#[test]
fn views_as_object_is_not_a_table() {
    let site = object(
        vec![text("title", "Blog"), text("subtitle", "")],
        vec![child("servers", table(vec![])), child("views", object(vec![], vec![]))],
    );
    let doc = root(vec![entry("blog", site)]);
    assert_eq!(logical(Config::project(&doc)), "Error: blog has no views table");
}

#[test]
fn server_without_addr_is_rejected() {
    let doc = root(vec![entry("blog", site_node("Blog", "", vec![entry("s", server(vec![integer("port", 80)]))], vec![]))]);
    assert_eq!(logical(Config::project(&doc)), "Error: blog server s has no `addr`");
}

#[test]
fn server_with_mistyped_port_has_no_port() {
    let doc = root(vec![entry(
        "blog",
        site_node("Blog", "", vec![entry("s", server(vec![text("addr", "h"), text("port", "80")]))], vec![]),
    )]);
    let c = Config::project(&doc).ok().unwrap();
    assert_eq!(c.sites[0].servers[0].port, None);
}

#[test]
fn server_that_is_a_table_is_rejected() {
    let doc = root(vec![entry("blog", site_node("Blog", "", vec![entry("s", table(vec![]))], vec![]))]);
    assert_eq!(logical(Config::project(&doc)), "Error: blog server s is a table, not an object");
}

#[test]
fn server_without_key_or_value_is_rejected() {
    let no_key = root(vec![entry(
        "blog",
        site_node("Blog", "", vec![Entry { key: None, value: Some(server(vec![text("addr", "h")])) }], vec![]),
    )]);
    assert_eq!(logical(Config::project(&no_key)), "Error: mis-defined server for blog");
    let no_value = root(vec![entry("blog", site_node("Blog", "", vec![Entry { key: Some("s".to_string()), value: None }], vec![]))]);
    assert_eq!(logical(Config::project(&no_value)), "Error: blog server s has no value");
}

#[test]
fn view_without_value_has_no_mount() {
    let doc = root(vec![entry("blog", site_node("Blog", "", vec![], vec![Entry { key: Some("home".to_string()), value: None }]))]);
    let c = Config::project(&doc).ok().unwrap();
    assert_eq!(c.sites[0].views, vec![View { key: "home".to_string(), mount: None }]);
}

#[test]
fn view_with_mistyped_mount_has_no_mount() {
    let doc = root(vec![entry("blog", site_node("Blog", "", vec![], vec![entry("home", object(vec![integer("mount", 1)], vec![]))]))]);
    let c = Config::project(&doc).ok().unwrap();
    assert_eq!(c.sites[0].views[0].mount, None);
}

#[test]
fn view_that_is_a_table_is_rejected() {
    let doc = root(vec![entry("blog", site_node("Blog", "", vec![], vec![entry("home", table(vec![]))]))]);
    assert_eq!(logical(Config::project(&doc)), "Error: blog view home is a table, not an object");
}

#[test]
fn view_without_key_is_rejected() {
    let doc = root(vec![entry("blog", site_node("Blog", "", vec![], vec![Entry { key: None, value: None }]))]);
    assert_eq!(logical(Config::project(&doc)), "Error: mis-defined view for blog");
}

#[test]
fn missing_sites_table_is_rejected() {
    let doc = Object { props: vec![], children: vec![] };
    assert_eq!(logical(Config::project(&doc)), "Error: No sites structure in config");
    let as_object = Object { props: vec![], children: vec![child("sites", object(vec![], vec![]))] };
    assert_eq!(logical(Config::project(&as_object)), "Error: No sites structure in config");
}

#[test]
fn empty_sites_table_is_rejected() {
    let doc = root(vec![]);
    assert_eq!(logical(Config::project(&doc)), "Error: the sites table has no entry");
}

#[test]
fn site_entry_that_is_not_an_object_is_rejected() {
    let as_table = root(vec![entry("blog", table(vec![]))]);
    assert_eq!(logical(Config::project(&as_table)), "Error: mis-specified site");
    let no_key = root(vec![Entry { key: None, value: Some(site_node("Blog", "", vec![], vec![])) }]);
    assert_eq!(logical(Config::project(&no_key)), "Error: mis-specified site");
    let no_value = root(vec![Entry { key: Some("blog".to_string()), value: None }]);
    assert_eq!(logical(Config::project(&no_value)), "Error: mis-specified site");
}

#[test]
fn first_bad_site_wins() {
    let doc = root(vec![
        entry("good", site_node("G", "", vec![], vec![])),
        entry("first", object(vec![text("subtitle", "")], vec![])),
        entry("second", object(vec![], vec![])),
    ]);
    assert_eq!(logical(Config::project(&doc)), "Error: first has no site title");
}

#[test]
fn projecting_twice_gives_equal_configs() {
    let doc = root(vec![entry(
        "blog",
        site_node("Blog", "x", vec![entry("s", server(vec![text("addr", "h"), integer("port", 1)]))], vec![]),
    )]);
    let a = Config::project(&doc);
    let b = Config::project(&doc);
    assert!(a.is_ok());
    assert_eq!(a, b);
    let bad = root(vec![]);
    assert_eq!(Config::project(&bad), Config::project(&bad));
}

#[test]
fn lookups_take_the_first_field_of_a_name() {
    let o = Object {
        props: vec![text("a", "one"), integer("a", 2), integer("b", 3)],
        children: vec![child("t", table(vec![])), child("t", object(vec![], vec![]))],
    };
    assert_eq!(o.get(&"a".to_string()), Some(&Value::Str("one".to_string())));
    assert_eq!(o.get(&"b".to_string()), Some(&Value::Int(3)));
    assert_eq!(o.get(&"c".to_string()), None);
    assert_eq!(o.resolve(&"t".to_string()), Some(&Node::Table(vec![])));
    assert_eq!(o.resolve(&"a".to_string()), None);
}
