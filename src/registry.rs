//! The plugin registry: the aggregate command schema of every registered
//! plugin and the routing of each command name to the plugin that owns it.
use vstd::prelude::*;
use crate::schema::{command_names, command_schemas, PluginManager, PluginModel};
use crate::text::{chars_of, lemma_prefix_step, lemma_texts_push, texts};

verus! {

/// Why a command could not be invoked.
#[derive(Clone, Copy, Debug, PartialEq, Eq, Structural)]
pub enum InvokeError {
    /// No registered plugin exposes a command of that name.
    CommandNotFound,
    /// The owning plugin advertised the command but does not export it.
    MissingExport,
    /// The call's arguments are not a JSON object.
    InvalidArguments,
}

/// The model of the registry.
pub struct RegistryModel {
    /// Identifiers of the registered plugins, in registration order.
    pub ids: Seq<Seq<char>>,
    /// JSON descriptors of every registered command, in registration order.
    pub schemas: Seq<Seq<char>>,
    /// `(command name, plugin id)` pairs, in registration order.
    pub routes: Seq<(Seq<char>, Seq<char>)>,
}

/// The empty registry.
pub open spec fn empty_registry() -> RegistryModel {
    RegistryModel { ids: Seq::empty(), schemas: Seq::empty(), routes: Seq::empty() }
}

/// The routes a plugin adds: each of its command names to its identifier.
pub open spec fn plugin_routes(p: PluginModel) -> Seq<(Seq<char>, Seq<char>)> {
    command_names(p.commands).map_values(|n: Seq<char>| (n, p.id))
}

/// The registry after registering `p`.
pub open spec fn with_plugin(r: RegistryModel, p: PluginModel) -> RegistryModel {
    RegistryModel {
        ids: r.ids.push(p.id),
        schemas: r.schemas + command_schemas(p.commands),
        routes: r.routes + plugin_routes(p),
    }
}

/// The registry after registering the plugins of `ps` in order on an empty one.
pub open spec fn registered(ps: Seq<PluginModel>) -> RegistryModel
    decreases ps.len(),
{
    if ps.len() == 0 {
        empty_registry()
    } else {
        with_plugin(registered(ps.drop_last()), ps.last())
    }
}

/// The number of commands the plugins of `ps` declare together.
pub open spec fn command_total(ps: Seq<PluginModel>) -> nat
    decreases ps.len(),
{
    if ps.len() == 0 {
        0
    } else {
        command_total(ps.drop_last()) + ps.last().commands.len()
    }
}

/// The plugin a command name routes to: the owner of the most recently
/// registered route of that name.
pub open spec fn route_of(routes: Seq<(Seq<char>, Seq<char>)>, name: Seq<char>) -> Option<
    Seq<char>,
>
    decreases routes.len(),
{
    if routes.len() == 0 {
        None
    } else if routes.last().0 == name {
        Some(routes.last().1)
    } else {
        route_of(routes.drop_last(), name)
    }
}

/// The text views of routing entries.
pub open spec fn routes_view(v: Seq<(String, String)>) -> Seq<(Seq<char>, Seq<char>)> {
    v.map_values(|e: (String, String)| (e.0@, e.1@))
}

/// Owns the command schemas and command routing of every loaded plugin.
pub struct PluginCore {
    plugin_ids: Vec<String>,
    plugin_info: Vec<String>,
    routes: Vec<(String, String)>,
}

impl View for PluginCore {
    type V = RegistryModel;

    closed spec fn view(&self) -> RegistryModel {
        RegistryModel {
            ids: texts(self.plugin_ids@),
            schemas: texts(self.plugin_info@),
            routes: routes_view(self.routes@),
        }
    }
}

impl PluginCore {
    /// A registry with no plugin.
    pub fn new() -> (r: Self)
        ensures
            r@ == empty_registry(),
    {
        let r = PluginCore { plugin_ids: Vec::new(), plugin_info: Vec::new(), routes: Vec::new() };
        assert(r@.ids =~= Seq::empty());
        assert(r@.schemas =~= Seq::empty());
        assert(r@.routes =~= Seq::empty());
        r
    }

    /// Registers a plugin: its commands join the aggregate schema and each
    /// of its command names now routes to it.
    pub fn add_plugin(&mut self, plugin: &PluginManager)
        ensures
            final(self)@ == with_plugin(old(self)@, plugin@),
    {
        let id = plugin.get_id();
        let (schemas, names) = plugin.get_commands();
        let ghost r0 = self@;
        self.plugin_ids.push(id.clone());
        assert(texts(self.plugin_ids@) =~= r0.ids.push(id@));
        let mut i: usize = 0;
        while i < schemas.len()
            invariant
                i <= schemas.len(),
                texts(self.plugin_ids@) == r0.ids.push(id@),
                routes_view(self.routes@) == r0.routes,
                texts(self.plugin_info@) == r0.schemas + texts(schemas@).subrange(0, i as int),
            decreases schemas.len() - i,
        {
            let ghost prev = self.plugin_info@;
            self.plugin_info.push(schemas[i].clone());
            proof {
                lemma_texts_push(prev, schemas@[i as int]);
                lemma_prefix_step(texts(schemas@), i as int);
                assert(texts(self.plugin_info@) =~= r0.schemas + texts(schemas@).subrange(0, i + 1));
            }
            i = i + 1;
        }
        assert(texts(schemas@).subrange(0, schemas.len() as int) =~= texts(schemas@));
        let mut k: usize = 0;
        while k < names.len()
            invariant
                k <= names.len(),
                texts(self.plugin_ids@) == r0.ids.push(id@),
                texts(self.plugin_info@) == r0.schemas + texts(schemas@),
                routes_view(self.routes@) == r0.routes + texts(names@).subrange(0, k as int).map_values(
                    |n: Seq<char>| (n, id@),
                ),
            decreases names.len() - k,
        {
            let ghost prev = self.routes@;
            self.routes.push((names[k].clone(), id.clone()));
            proof {
                lemma_prefix_step(texts(names@), k as int);
                assert(routes_view(self.routes@) =~= routes_view(prev).push((names@[k as int]@, id@)));
            }
            assert(routes_view(self.routes@) =~= r0.routes + texts(names@).subrange(0, k + 1).map_values(
                |n: Seq<char>| (n, id@),
            ));
            k = k + 1;
        }
        assert(texts(names@).subrange(0, names.len() as int) =~= texts(names@));
        assert(routes_view(self.routes@) =~= r0.routes + plugin_routes(plugin@));
    }

    /// The JSON descriptors of every registered command, in registration order.
    pub fn get_plugin_info(&self) -> (r: Vec<String>)
        ensures
            texts(r@) == self@.schemas,
    {
        let mut out: Vec<String> = Vec::new();
        let mut i: usize = 0;
        while i < self.plugin_info.len()
            invariant
                i <= self.plugin_info.len(),
                texts(out@) == texts(self.plugin_info@).subrange(0, i as int),
            decreases self.plugin_info.len() - i,
        {
            let ghost prev = out@;
            out.push(self.plugin_info[i].clone());
            proof {
                lemma_texts_push(prev, self.plugin_info@[i as int]);
                lemma_prefix_step(texts(self.plugin_info@), i as int);
            }
            assert(texts(out@) =~= texts(self.plugin_info@).subrange(0, i + 1));
            i = i + 1;
        }
        assert(texts(self.plugin_info@).subrange(0, i as int) =~= texts(self.plugin_info@));
        out
    }

    /// The plugin that owns a command: the most recently registered plugin
    /// that declares a command of that exact name. The registry is left as
    /// it was either way.
    pub fn resolve(&self, name: &str) -> (r: Result<String, InvokeError>)
        ensures
            route_of(self@.routes, name@) is None <==> r is Err,
            r is Err ==> r->Err_0 == InvokeError::CommandNotFound,
            r matches Ok(id) ==> route_of(self@.routes, name@) == Some(id@),
    {
        let target = String::from_str(name);
        let mut i: usize = self.routes.len();
        assert(routes_view(self.routes@).subrange(0, i as int) =~= routes_view(self.routes@));
        while i > 0
            invariant
                i <= self.routes.len(),
                target@ == name@,
                route_of(routes_view(self.routes@), name@) == route_of(
                    routes_view(self.routes@).subrange(0, i as int),
                    name@,
                ),
            decreases i,
        {
            let ghost pre = routes_view(self.routes@).subrange(0, i as int);
            assert(pre.drop_last() =~= routes_view(self.routes@).subrange(0, i - 1));
            assert(pre.last() == (self.routes@[i - 1].0@, self.routes@[i - 1].1@));
            let entry = &self.routes[i - 1];
            let same = entry.0.eq(&target);
            if same {
                assert(route_of(pre, name@) == Some(self.routes@[i - 1].1@));
                assert(self@.routes == routes_view(self.routes@));
                return Ok(self.routes[i - 1].1.clone());
            }
            i = i - 1;
        }
        assert(routes_view(self.routes@).subrange(0, 0) =~= Seq::empty());
        Err(InvokeError::CommandNotFound)
    }
}

/// Routing over two runs of routes: a name routed by the later run stays
/// there, any other name is routed by the earlier one.
pub proof fn lemma_route_concat(
    a: Seq<(Seq<char>, Seq<char>)>,
    b: Seq<(Seq<char>, Seq<char>)>,
    name: Seq<char>,
)
    ensures
        route_of(a + b, name) == (if route_of(b, name) is Some {
            route_of(b, name)
        } else {
            route_of(a, name)
        }),
    decreases b.len(),
{
    if b.len() == 0 {
        assert(a + b =~= a);
    } else {
        assert((a + b).drop_last() =~= a + b.drop_last());
        assert((a + b).last() == b.last());
        lemma_route_concat(a, b.drop_last(), name);
    }
}

/// A plugin's own routes send each of its command names to it.
pub proof fn lemma_route_in_plugin(p: PluginModel, name: Seq<char>)
    requires
        command_names(p.commands).contains(name),
    ensures
        route_of(plugin_routes(p), name) == Some(p.id),
    decreases p.commands.len(),
{
    let rs = plugin_routes(p);
    if rs.last().0 != name {
        let q = PluginModel { id: p.id, commands: p.commands.drop_last() };
        assert(rs.drop_last() =~= plugin_routes(q));
        let j = choose|j: int| 0 <= j < command_names(p.commands).len() && command_names(
            p.commands,
        )[j] == name;
        assert(j < p.commands.len() - 1);
        assert(command_names(q.commands)[j] == name);
        lemma_route_in_plugin(q, name);
    }
}

/// Once a plugin declaring a command is registered, the command routes to
/// that plugin, whatever was registered before: of two plugins sharing a
/// command name, the one registered last receives the invocations.
pub proof fn lemma_last_registered_wins(r: RegistryModel, p: PluginModel, name: Seq<char>)
    requires
        command_names(p.commands).contains(name),
    ensures
        route_of(with_plugin(r, p).routes, name) == Some(p.id),
{
    lemma_route_in_plugin(p, name);
    lemma_route_concat(r.routes, plugin_routes(p), name);
}

/// Of two plugins registered one after the other that both declare a
/// command, the command routes to the second.
pub proof fn lemma_shared_command_routes_to_later(
    r: RegistryModel,
    first: PluginModel,
    second: PluginModel,
    name: Seq<char>,
)
    requires
        command_names(first.commands).contains(name),
        command_names(second.commands).contains(name),
    ensures
        route_of(with_plugin(with_plugin(r, first), second).routes, name) == Some(second.id),
{
    lemma_last_registered_wins(with_plugin(r, first), second, name);
}

/// Registering plugins one after another on an empty registry lists exactly
/// as many command descriptors as the plugins declare together.
pub proof fn lemma_schema_len_is_command_total(ps: Seq<PluginModel>)
    ensures
        registered(ps).schemas.len() == command_total(ps),
    decreases ps.len(),
{
    if ps.len() > 0 {
        lemma_schema_len_is_command_total(ps.drop_last());
    }
}

/// With plugins whose command names are pairwise distinct, every command
/// routes to the plugin that declares it.
pub proof fn lemma_disjoint_commands_route_to_owner(ps: Seq<PluginModel>, k: int, name: Seq<char>)
    requires
        0 <= k < ps.len(),
        command_names(ps[k].commands).contains(name),
        forall|j: int|
            0 <= j < ps.len() && j != k ==> !(#[trigger] command_names(ps[j].commands)).contains(
                name,
            ),
    ensures
        route_of(registered(ps).routes, name) == Some(ps[k].id),
    decreases ps.len(),
{
    if k == ps.len() - 1 {
        lemma_last_registered_wins(registered(ps.drop_last()), ps.last(), name);
    } else {
        let rest = ps.drop_last();
        assert forall|j: int| 0 <= j < rest.len() && j != k implies !(#[trigger] command_names(
            rest[j].commands,
        )).contains(name) by {
            assert(rest[j] == ps[j]);
        }
        lemma_disjoint_commands_route_to_owner(rest, k, name);
        lemma_route_concat(registered(rest).routes, plugin_routes(ps.last()), name);
        lemma_route_absent(ps.last(), name);
    }
}

/// A plugin's routes do not route a name it does not declare.
pub proof fn lemma_route_absent(p: PluginModel, name: Seq<char>)
    requires
        !command_names(p.commands).contains(name),
    ensures
        route_of(plugin_routes(p), name) is None,
    decreases p.commands.len(),
{
    let rs = plugin_routes(p);
    if rs.len() > 0 {
        let q = PluginModel { id: p.id, commands: p.commands.drop_last() };
        assert(rs.drop_last() =~= plugin_routes(q));
        assert(command_names(p.commands)[p.commands.len() - 1] == rs.last().0);
        if command_names(q.commands).contains(name) {
            let j = choose|j: int| 0 <= j < command_names(q.commands).len() && command_names(
                q.commands,
            )[j] == name;
            assert(command_names(p.commands)[j] == name);
        }
        lemma_route_absent(q, name);
    }
}

/// The native-library suffix of an operating system family; empty for a
/// family that has none.
pub open spec fn plugin_suffix(os: Seq<char>) -> Seq<char> {
    if os == "windows"@ {
        ".dll"@
    } else if os == "macos"@ {
        ".dylib"@
    } else if os == "linux"@ {
        ".so"@
    } else {
        Seq::empty()
    }
}

/// The native-library suffix for the operating system named `os`.
pub fn get_plugin_file_ext(os: &str) -> (r: String)
    ensures
        r@ == plugin_suffix(os@),
{
    let os = String::from_str(os);
    if os == String::from_str("windows") {
        String::from_str(".dll")
    } else if os == String::from_str("macos") {
        String::from_str(".dylib")
    } else if os == String::from_str("linux") {
        String::from_str(".so")
    } else {
        String::new()
    }
}

/// A file is a plugin candidate when the suffix is not empty and ends its name.
pub open spec fn is_plugin_file_name(name: Seq<char>, suffix: Seq<char>) -> bool {
    suffix.len() > 0 && suffix.len() <= name.len() && name.subrange(
        name.len() - suffix.len(),
        name.len() as int,
    ) == suffix
}

/// Whether a file of that name is to be loaded as a plugin: its name ends
/// with the platform's non-empty native-library suffix.
pub fn is_plugin_file(name: &str, suffix: &str) -> (r: bool)
    ensures
        r == is_plugin_file_name(name@, suffix@),
{
    let n = chars_of(name);
    let x = chars_of(suffix);
    if x.len() == 0 || x.len() > n.len() {
        return false;
    }
    let start = n.len() - x.len();
    let mut i: usize = 0;
    while i < x.len()
        invariant
            n@ == name@,
            x@ == suffix@,
            start == n.len() - x.len(),
            x.len() <= n.len(),
            i <= x.len(),
            forall|j: int| 0 <= j < i ==> n@[start + j] == x@[j],
        decreases x.len() - i,
    {
        if n[start + i] != x[i] {
            assert(name@.subrange(start as int, name@.len() as int)[i as int] != suffix@[i as int]);
            return false;
        }
        i = i + 1;
    }
    assert(name@.subrange(start as int, name@.len() as int) =~= suffix@);
    true
}

} // verus!
