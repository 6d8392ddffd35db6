//! The domain model of a site configuration, and its projection from a
//! document tree under a fixed schema.
use crate::collect::{collect, lemma_collect_err_sticks, lemma_collect_step};
use crate::tree::{
    int_of, spec_get, spec_resolve, table_of, text_of, Entry, Node, Object, Value,
};
use vstd::prelude::*;
use vstd::view::View as _;

verus! {

/// A named backend endpoint of a site.
#[derive(Debug, Clone, PartialEq, Eq)]
pub struct Server {
    pub key: String,
    pub addr: String,
    pub port: Option<i64>,
}

/// A named route of a site, optionally bound to a mount path.
#[derive(Debug, Clone, PartialEq, Eq)]
pub struct View {
    pub key: String,
    pub mount: Option<String>,
}

/// A deployable site: its title, subtitle, servers and views.
#[derive(Debug, Clone, PartialEq, Eq)]
pub struct Site {
    pub key: String,
    pub title: String,
    pub subtitle: String,
    pub servers: Vec<Server>,
    pub views: Vec<View>,
}

/// The validated configuration: its sites, in document order.
#[derive(Debug, Clone, PartialEq, Eq)]
pub struct Config {
    pub sites: Vec<Site>,
}

/// Why a configuration could not be loaded; each carries a rendered message.
#[derive(Debug, Clone, PartialEq, Eq)]
pub enum ConfigError {
    /// The configuration source could not be read.
    Filesystem(String),
    /// The document's syntax could not be parsed; the parser's diagnostic.
    Jacl(String),
    /// The document does not satisfy the schema.
    Logical(String),
}

/// The mathematical value of a `Server`.
pub struct ServerModel {
    pub key: Seq<char>,
    pub addr: Seq<char>,
    pub port: Option<i64>,
}

/// The mathematical value of a `View`.
pub struct ViewModel {
    pub key: Seq<char>,
    pub mount: Option<Seq<char>>,
}

/// The mathematical value of a `Site`.
pub struct SiteModel {
    pub key: Seq<char>,
    pub title: Seq<char>,
    pub subtitle: Seq<char>,
    pub servers: Seq<ServerModel>,
    pub views: Seq<ViewModel>,
}

impl vstd::view::View for Server {
    type V = ServerModel;

    open spec fn view(&self) -> ServerModel {
        ServerModel { key: self.key@, addr: self.addr@, port: self.port }
    }
}

impl vstd::view::View for View {
    type V = ViewModel;

    open spec fn view(&self) -> ViewModel {
        ViewModel {
            key: self.key@,
            mount: match self.mount {
                Some(m) => Some(m@),
                None => None,
            },
        }
    }
}

impl vstd::view::View for Site {
    type V = SiteModel;

    open spec fn view(&self) -> SiteModel {
        SiteModel {
            key: self.key@,
            title: self.title@,
            subtitle: self.subtitle@,
            servers: self.servers@.map_values(|s: Server| s@),
            views: self.views@.map_values(|v: View| v@),
        }
    }
}

impl vstd::view::View for Config {
    type V = Seq<SiteModel>;

    open spec fn view(&self) -> Seq<SiteModel> {
        self.sites@.map_values(|s: Site| s@)
    }
}

/// The messages of the `Logical` errors, one per broken rule.
pub open spec fn msg_no_sites() -> Seq<char> {
    "Error: No sites structure in config"@
}

pub open spec fn msg_empty_sites() -> Seq<char> {
    "Error: the sites table has no entry"@
}

pub open spec fn msg_bad_site() -> Seq<char> {
    "Error: mis-specified site"@
}

pub open spec fn msg_no_title(site: Seq<char>) -> Seq<char> {
    "Error: "@ + site + " has no site title"@
}

pub open spec fn msg_empty_title(site: Seq<char>) -> Seq<char> {
    "Error: "@ + site + " has an empty site title"@
}

pub open spec fn msg_no_subtitle(site: Seq<char>) -> Seq<char> {
    "Error: "@ + site + " has no site subtitle"@
}

pub open spec fn msg_no_server_table(site: Seq<char>) -> Seq<char> {
    "Error: "@ + site + " has no server table"@
}

pub open spec fn msg_bad_server(site: Seq<char>) -> Seq<char> {
    "Error: mis-defined server for "@ + site
}

pub open spec fn msg_server_no_value(site: Seq<char>, server: Seq<char>) -> Seq<char> {
    "Error: "@ + site + " server "@ + server + " has no value"@
}

pub open spec fn msg_no_addr(site: Seq<char>, server: Seq<char>) -> Seq<char> {
    "Error: "@ + site + " server "@ + server + " has no `addr`"@
}

pub open spec fn msg_server_table(site: Seq<char>, server: Seq<char>) -> Seq<char> {
    "Error: "@ + site + " server "@ + server + " is a table, not an object"@
}

pub open spec fn msg_no_view_table(site: Seq<char>) -> Seq<char> {
    "Error: "@ + site + " has no views table"@
}

pub open spec fn msg_view_table(site: Seq<char>, view: Seq<char>) -> Seq<char> {
    "Error: "@ + site + " view "@ + view + " is a table, not an object"@
}

pub open spec fn msg_bad_view(site: Seq<char>) -> Seq<char> {
    "Error: mis-defined view for "@ + site
}

/// The server that entry `e` of the servers table of site `site` describes,
/// or the message of why it is rejected.
pub open spec fn server_spec(site: Seq<char>, e: Entry) -> Result<ServerModel, Seq<char>> {
    match e.key {
        None => Err(msg_bad_server(site)),
        Some(k) => match e.value {
            None => Err(msg_server_no_value(site, k@)),
            Some(Node::Table(_)) => Err(msg_server_table(site, k@)),
            Some(Node::Object(o)) => match text_of(spec_get(o, "addr"@)) {
                None => Err(msg_no_addr(site, k@)),
                Some(a) => Ok(ServerModel { key: k@, addr: a, port: int_of(spec_get(o, "port"@)) }),
            },
        },
    }
}

/// The view that entry `e` of the views table of site `site` describes, or
/// the message of why it is rejected.
pub open spec fn view_spec(site: Seq<char>, e: Entry) -> Result<ViewModel, Seq<char>> {
    match e.key {
        None => Err(msg_bad_view(site)),
        Some(k) => match e.value {
            None => Ok(ViewModel { key: k@, mount: None }),
            Some(Node::Table(_)) => Err(msg_view_table(site, k@)),
            Some(Node::Object(o)) => Ok(ViewModel { key: k@, mount: text_of(spec_get(o, "mount"@)) }),
        },
    }
}

/// The servers of site `site` from the entries of its servers table.
pub open spec fn servers_spec(site: Seq<char>, es: Seq<Entry>) -> Result<Seq<ServerModel>, Seq<char>> {
    collect(es.map_values(|e: Entry| server_spec(site, e)))
}

/// The views of site `site` from the entries of its views table.
pub open spec fn views_spec(site: Seq<char>, es: Seq<Entry>) -> Result<Seq<ViewModel>, Seq<char>> {
    collect(es.map_values(|e: Entry| view_spec(site, e)))
}

/// The site named `key` that object `o` describes, or the message of the
/// first rule it breaks.
pub open spec fn site_body_spec(key: Seq<char>, o: Object) -> Result<SiteModel, Seq<char>> {
    match text_of(spec_get(o, "title"@)) {
        None => Err(msg_no_title(key)),
        Some(title) => if title.len() == 0 {
            Err(msg_empty_title(key))
        } else {
            match text_of(spec_get(o, "subtitle"@)) {
                None => Err(msg_no_subtitle(key)),
                Some(subtitle) => match table_of(spec_resolve(o, "servers"@)) {
                    None => Err(msg_no_server_table(key)),
                    Some(ses) => match servers_spec(key, ses) {
                        Err(m) => Err(m),
                        Ok(servers) => match table_of(spec_resolve(o, "views"@)) {
                            None => Err(msg_no_view_table(key)),
                            Some(ves) => match views_spec(key, ves) {
                                Err(m) => Err(m),
                                Ok(views) => Ok(SiteModel { key, title, subtitle, servers, views }),
                            },
                        },
                    },
                },
            }
        },
    }
}

/// The site that entry `e` of the sites table describes, or the message of
/// why it is rejected.
pub open spec fn site_spec(e: Entry) -> Result<SiteModel, Seq<char>> {
    match e.key {
        Some(k) => match e.value {
            Some(Node::Object(o)) => site_body_spec(k@, o),
            _ => Err(msg_bad_site()),
        },
        None => Err(msg_bad_site()),
    }
}

/// The entries of the sites table of the document rooted at `root`.
pub open spec fn sites_table(root: Object) -> Option<Seq<Entry>> {
    table_of(spec_resolve(root, "sites"@))
}

/// The sites that the document rooted at `root` describes, in document
/// order, or the message of the first schema rule that it breaks.
pub open spec fn project_spec(root: Object) -> Result<Seq<SiteModel>, Seq<char>> {
    match sites_table(root) {
        None => Err(msg_no_sites()),
        Some(es) => if es.len() == 0 {
            Err(msg_empty_sites())
        } else {
            collect(es.map_values(|e: Entry| site_spec(e)))
        },
    }
}

/// Whether `r` is what projecting the document rooted at `root` gives: its
/// sites, or a `Logical` error with the message of the first broken rule.
pub open spec fn projects_to(root: Object, r: Result<Config, ConfigError>) -> bool {
    match project_spec(root) {
        Ok(sites) => r matches Ok(c) && c@ == sites,
        Err(m) => r matches Err(ConfigError::Logical(msg)) && msg@ == m,
    }
}

/// Whether an executable result `r` is the modelled result `s`.
pub open spec fn agrees<T: vstd::view::View>(r: Result<T, String>, s: Result<T::V, Seq<char>>) -> bool {
    match r {
        Ok(x) => s == Ok::<T::V, Seq<char>>(x@),
        Err(m) => s == Err::<T::V, Seq<char>>(m@),
    }
}

fn join2(a: &str, b: &String) -> (r: String)
    ensures
        r@ == a@ + b@,
{
    String::from_str(a).concat(b.as_str())
}

fn join3(a: &str, b: &String, c: &str) -> (r: String)
    ensures
        r@ == a@ + b@ + c@,
{
    String::from_str(a).concat(b.as_str()).concat(c)
}

fn join5(a: &str, b: &String, c: &str, d: &String, e: &str) -> (r: String)
    ensures
        r@ == a@ + b@ + c@ + d@ + e@,
{
    String::from_str(a).concat(b.as_str()).concat(c).concat(d.as_str()).concat(e)
}

/// The string of the field of `o` named `name`, if it is a string.
fn text_field(o: &Object, name: &String) -> (r: Option<String>)
    ensures
        match r {
            Some(s) => text_of(spec_get(*o, name@)) == Some(s@),
            None => text_of(spec_get(*o, name@)) is None,
        },
{
    match o.get(name) {
        Some(Value::Str(s)) => Some(s.clone()),
        _ => None,
    }
}

fn project_server(site: &String, e: &Entry) -> (r: Result<Server, String>)
    ensures
        agrees(r, server_spec(site@, *e)),
{
    match &e.key {
        None => Err(join2("Error: mis-defined server for ", site)),
        Some(k) => match &e.value {
            None => Err(join5("Error: ", site, " server ", k, " has no value")),
            Some(Node::Table(_)) => Err(join5("Error: ", site, " server ", k, " is a table, not an object")),
            Some(Node::Object(o)) => {
                let addr_name = String::from_str("addr");
                let port_name = String::from_str("port");
                match text_field(o, &addr_name) {
                    None => Err(join5("Error: ", site, " server ", k, " has no `addr`")),
                    Some(addr) => {
                        let port = match o.get(&port_name) {
                            Some(Value::Int(n)) => Some(*n),
                            _ => None,
                        };
                        Ok(Server { key: k.clone(), addr, port })
                    },
                }
            },
        },
    }
}

fn project_view(site: &String, e: &Entry) -> (r: Result<View, String>)
    ensures
        agrees(r, view_spec(site@, *e)),
{
    match &e.key {
        None => Err(join2("Error: mis-defined view for ", site)),
        Some(k) => match &e.value {
            None => Ok(View { key: k.clone(), mount: None }),
            Some(Node::Table(_)) => Err(join5("Error: ", site, " view ", k, " is a table, not an object")),
            Some(Node::Object(o)) => {
                let mount_name = String::from_str("mount");
                let mount = text_field(o, &mount_name);
                Ok(View { key: k.clone(), mount })
            },
        },
    }
}

fn project_servers(site: &String, es: &Vec<Entry>) -> (r: Result<Vec<Server>, String>)
    ensures
        match r {
            Ok(v) => servers_spec(site@, es@) == Ok::<Seq<ServerModel>, Seq<char>>(v@.map_values(|s: Server| s@)),
            Err(m) => servers_spec(site@, es@) == Err::<Seq<ServerModel>, Seq<char>>(m@),
        },
{
    let ghost rs = es@.map_values(|e: Entry| server_spec(site@, e));
    let mut out: Vec<Server> = Vec::new();
    let mut i: usize = 0;
    assert(out@.map_values(|s: Server| s@) =~= Seq::empty());
    while i < es.len()
        invariant
            i <= es@.len(),
            rs == es@.map_values(|e: Entry| server_spec(site@, e)),
            collect(rs.take(i as int)) == Ok::<Seq<ServerModel>, Seq<char>>(out@.map_values(|s: Server| s@)),
        decreases es@.len() - i,
    {
        proof {
            lemma_collect_step(rs, i as int);
        }
        match project_server(site, &es[i]) {
            Err(m) => {
                proof {
                    lemma_collect_err_sticks(rs, i + 1);
                }
                return Err(m);
            },
            Ok(s) => {
                let ghost before = out@;
                out.push(s);
                assert(out@.map_values(|s: Server| s@) =~= before.map_values(|s: Server| s@).push(s@));
            },
        }
        i = i + 1;
    }
    assert(rs.take(i as int) =~= rs);
    Ok(out)
}

fn project_views(site: &String, es: &Vec<Entry>) -> (r: Result<Vec<View>, String>)
    ensures
        match r {
            Ok(v) => views_spec(site@, es@) == Ok::<Seq<ViewModel>, Seq<char>>(v@.map_values(|v: View| v@)),
            Err(m) => views_spec(site@, es@) == Err::<Seq<ViewModel>, Seq<char>>(m@),
        },
{
    let ghost rs = es@.map_values(|e: Entry| view_spec(site@, e));
    let mut out: Vec<View> = Vec::new();
    let mut i: usize = 0;
    assert(out@.map_values(|v: View| v@) =~= Seq::empty());
    while i < es.len()
        invariant
            i <= es@.len(),
            rs == es@.map_values(|e: Entry| view_spec(site@, e)),
            collect(rs.take(i as int)) == Ok::<Seq<ViewModel>, Seq<char>>(out@.map_values(|v: View| v@)),
        decreases es@.len() - i,
    {
        proof {
            lemma_collect_step(rs, i as int);
        }
        match project_view(site, &es[i]) {
            Err(m) => {
                proof {
                    lemma_collect_err_sticks(rs, i + 1);
                }
                return Err(m);
            },
            Ok(v) => {
                let ghost before = out@;
                out.push(v);
                assert(out@.map_values(|v: View| v@) =~= before.map_values(|v: View| v@).push(v@));
            },
        }
        i = i + 1;
    }
    assert(rs.take(i as int) =~= rs);
    Ok(out)
}

fn project_site(e: &Entry) -> (r: Result<Site, String>)
    ensures
        agrees(r, site_spec(*e)),
{
    let (key, o) = match (&e.key, &e.value) {
        (Some(k), Some(Node::Object(o))) => (k, o),
        _ => {
            return Err(String::from_str("Error: mis-specified site"));
        },
    };
    let title = match text_field(o, &String::from_str("title")) {
        Some(t) => t,
        None => {
            return Err(join3("Error: ", key, " has no site title"));
        },
    };
    if title.as_str().is_empty() {
        return Err(join3("Error: ", key, " has an empty site title"));
    }
    let subtitle = match text_field(o, &String::from_str("subtitle")) {
        Some(t) => t,
        None => {
            return Err(join3("Error: ", key, " has no site subtitle"));
        },
    };
    let servers = match o.resolve(&String::from_str("servers")) {
        Some(Node::Table(es)) => project_servers(key, es)?,
        _ => {
            return Err(join3("Error: ", key, " has no server table"));
        },
    };
    let views = match o.resolve(&String::from_str("views")) {
        Some(Node::Table(es)) => project_views(key, es)?,
        _ => {
            return Err(join3("Error: ", key, " has no views table"));
        },
    };
    Ok(Site { key: key.clone(), title, subtitle, servers, views })
}

impl Config {
    /// Projects the document rooted at `root` onto the domain model: its
    /// sites in document order, or a `Logical` error for the first schema
    /// rule that the document breaks.
    pub fn project(root: &Object) -> (r: Result<Config, ConfigError>)
        ensures
            projects_to(*root, r),
    {
        let es = match root.resolve(&String::from_str("sites")) {
            Some(Node::Table(es)) => es,
            _ => {
                return Err(ConfigError::Logical(String::from_str("Error: No sites structure in config")));
            },
        };
        if es.len() == 0 {
            return Err(ConfigError::Logical(String::from_str("Error: the sites table has no entry")));
        }
        let ghost rs = es@.map_values(|e: Entry| site_spec(e));
        let mut sites: Vec<Site> = Vec::new();
        let mut i: usize = 0;
        assert(sites@.map_values(|s: Site| s@) =~= Seq::empty());
        while i < es.len()
            invariant
                i <= es@.len(),
                sites_table(*root) == Some(es@),
                rs == es@.map_values(|e: Entry| site_spec(e)),
                collect(rs.take(i as int)) == Ok::<Seq<SiteModel>, Seq<char>>(sites@.map_values(|s: Site| s@)),
            decreases es@.len() - i,
        {
            proof {
                lemma_collect_step(rs, i as int);
            }
            match project_site(&es[i]) {
                Err(m) => {
                    proof {
                        lemma_collect_err_sticks(rs, i + 1);
                    }
                    return Err(ConfigError::Logical(m));
                },
                Ok(site) => {
                    let ghost before = sites@;
                    sites.push(site);
                    assert(sites@.map_values(|s: Site| s@) =~= before.map_values(|s: Site| s@).push(site@));
                },
            }
            i = i + 1;
        }
        assert(rs.take(i as int) =~= rs);
        Ok(Config { sites })
    }
}

impl ConfigError {
    /// The error for a configuration source that could not be read, for the
    /// reason `cause`.
    pub fn unreadable(cause: &str) -> (r: ConfigError)
        ensures
            r matches ConfigError::Filesystem(msg) && msg@ == "Could not read config file: "@ + cause@,
    {
        ConfigError::Filesystem(String::from_str("Could not read config file: ").concat(cause))
    }

    /// The error for a document that could not be parsed, carrying the
    /// parser's rendered diagnostic.
    pub fn malformed(diagnostic: String) -> (r: ConfigError)
        ensures
            r matches ConfigError::Jacl(msg) && msg@ == diagnostic@,
    {
        ConfigError::Jacl(diagnostic)
    }

    /// The rendered message of the error, whatever its kind.
    pub fn message(&self) -> (r: &String)
        ensures
            match self {
                ConfigError::Filesystem(m) => r == m,
                ConfigError::Jacl(m) => r == m,
                ConfigError::Logical(m) => r == m,
            },
    {
        match self {
            ConfigError::Filesystem(m) => m,
            ConfigError::Jacl(m) => m,
            ConfigError::Logical(m) => m,
        }
    }
}

} // verus!
