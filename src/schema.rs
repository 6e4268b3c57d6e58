//! Command schemas that plugins declare: parameters, commands and the plugin
//! descriptor, with their JSON function descriptors.
use vstd::prelude::*;
use crate::text::{chars_of, lemma_prefix_step, lemma_texts_push, json_quote, json_string_of, join, join_strings, texts};

verus! {

/// Why a schema value could not be built.
#[derive(Clone, Copy, Debug, PartialEq, Eq, Structural)]
pub enum SchemaError {
    /// The parameter type tag is not one of the six JSON types.
    InvalidType,
    /// The plugin identifier is empty or holds a character outside `[A-Za-z0-9_]`.
    InvalidPluginId,
}

/// The type tags a parameter may carry.
pub open spec fn is_param_type(t: Seq<char>) -> bool {
    t == "array"@ || t == "boolean"@ || t == "integer"@ || t == "number"@ || t == "object"@
        || t == "string"@
}

/// A character allowed in a plugin identifier.
pub open spec fn is_id_char(c: char) -> bool {
    ('a' <= c && c <= 'z') || ('A' <= c && c <= 'Z') || ('0' <= c && c <= '9') || c == '_'
}

/// A plugin identifier: one or more characters of `[A-Za-z0-9_]`.
pub open spec fn is_valid_plugin_id(id: Seq<char>) -> bool {
    id.len() > 0 && forall|i: int| 0 <= i < id.len() ==> is_id_char(#[trigger] id[i])
}

/// Relies on `regex::Regex::is_match` with the anchored pattern
/// `^[a-zA-Z0-9_]+$`: true exactly when the whole text is a non-empty run of
/// ASCII letters, digits and underscores. The pattern is valid, so
/// `Regex::new` succeeds.
#[verifier::external_body]
fn plugin_id_matches(id: &str) -> (r: bool)
    ensures
        r == is_valid_plugin_id(id@),
{
    match regex::Regex::new(r"^[a-zA-Z0-9_]+$") {
        Ok(re) => re.is_match(id),
        Err(_) => false,
    }
}

/// The model of a parameter.
pub struct ParamModel {
    pub type_tag: Seq<char>,
    pub description: Seq<char>,
    pub name: Seq<char>,
    pub required: bool,
}

/// One parameter of a command: its JSON type, name, description and whether
/// the caller must supply it.
#[derive(Clone, Debug)]
pub struct ArgsInfo {
    type_input: String,
    description: String,
    name: String,
    required: bool,
}

impl View for ArgsInfo {
    type V = ParamModel;

    closed spec fn view(&self) -> ParamModel {
        ParamModel {
            type_tag: self.type_input@,
            description: self.description@,
            name: self.name@,
            required: self.required,
        }
    }
}

/// The entry `"name":{"description":..,"type":..}` of a parameter in the
/// `properties` object.
pub open spec fn param_property_json(p: ParamModel) -> Seq<char> {
    json_string_of(p.name) + ":{\"description\":"@ + json_string_of(p.description)
        + ",\"type\":"@ + json_string_of(p.type_tag) + "}"@
}

/// Whether `t` is one of the six accepted type tags.
fn is_param_type_exec(t: &str) -> (r: bool)
    ensures
        r == is_param_type(t@),
{
    let t = String::from_str(t);
    t == String::from_str("array") || t == String::from_str("boolean") || t == String::from_str(
        "integer",
    ) || t == String::from_str("number") || t == String::from_str("object") || t
        == String::from_str("string")
}

impl ArgsInfo {
    /// A parameter; rejected unless the type tag is one of array, boolean,
    /// integer, number, object or string.
    pub fn new(type_input: &str, name: &str, description: &str, required: bool) -> (r: Result<
        Self,
        SchemaError,
    >)
        ensures
            is_param_type(type_input@) <==> r is Ok,
            r is Err ==> r->Err_0 == SchemaError::InvalidType,
            r matches Ok(a) ==> a@ == (ParamModel {
                type_tag: type_input@,
                description: description@,
                name: name@,
                required,
            }),
    {
        if !is_param_type_exec(type_input) {
            return Err(SchemaError::InvalidType);
        }
        Ok(
            ArgsInfo {
                type_input: String::from_str(type_input),
                description: String::from_str(description),
                name: String::from_str(name),
                required,
            },
        )
    }

    /// The parameter's name.
    pub fn get_name(&self) -> (r: String)
        ensures
            r@ == self@.name,
    {
        self.name.clone()
    }

    /// Whether the parameter is required.
    pub fn is_required(&self) -> (r: bool)
        ensures
            r == self@.required,
    {
        self.required
    }

    /// The parameter's entry in the `properties` object of a descriptor.
    pub fn to_value(&self) -> (r: String)
        ensures
            r@ == param_property_json(self@),
    {
        let mut out = json_quote(self.name.as_str());
        out.append(":{\"description\":");
        let d = json_quote(self.description.as_str());
        out.append(d.as_str());
        out.append(",\"type\":");
        let t = json_quote(self.type_input.as_str());
        out.append(t.as_str());
        out.append("}");
        out
    }
}

/// The model of a command.
pub struct FunctionModel {
    pub name: Seq<char>,
    pub description: Seq<char>,
    pub parameters: Seq<ParamModel>,
}

/// One command a plugin exposes: its name, description and ordered parameters.
#[derive(Clone, Debug)]
pub struct Function {
    name: String,
    description: String,
    parameters: Vec<ArgsInfo>,
}

/// The models of a sequence of parameters.
pub open spec fn param_models(ps: Seq<ArgsInfo>) -> Seq<ParamModel> {
    ps.map_values(|a: ArgsInfo| a@)
}

impl View for Function {
    type V = FunctionModel;

    closed spec fn view(&self) -> FunctionModel {
        FunctionModel {
            name: self.name@,
            description: self.description@,
            parameters: param_models(self.parameters@),
        }
    }
}

/// The `properties` entries of the parameters, in order.
pub open spec fn property_entries(ps: Seq<ParamModel>) -> Seq<Seq<char>> {
    ps.map_values(|p: ParamModel| param_property_json(p))
}

/// Strict order of names: by character code, a proper prefix first. On
/// UTF-8 text this is the byte order in which `String`s compare.
pub open spec fn name_lt(a: Seq<char>, b: Seq<char>) -> bool
    decreases a.len(),
{
    if a.len() == 0 {
        b.len() > 0
    } else if b.len() == 0 {
        false
    } else if a[0] != b[0] {
        (a[0] as u32) < (b[0] as u32)
    } else {
        name_lt(a.drop_first(), b.drop_first())
    }
}

/// `p` put into the by-name ordered `s`: after the names below its own, in
/// place of a parameter of the same name, else before the first name above.
pub open spec fn sorted_insert(s: Seq<ParamModel>, p: ParamModel) -> Seq<ParamModel>
    decreases s.len(),
{
    if s.len() == 0 {
        seq![p]
    } else if name_lt(s[0].name, p.name) {
        seq![s[0]] + sorted_insert(s.drop_first(), p)
    } else if s[0].name == p.name {
        seq![p] + s.drop_first()
    } else {
        seq![p] + s
    }
}

/// The parameters as a JSON object lists them: one per name, the last of
/// that name, ordered by name.
pub open spec fn sorted_properties(ps: Seq<ParamModel>) -> Seq<ParamModel>
    decreases ps.len(),
{
    if ps.len() == 0 {
        Seq::empty()
    } else {
        sorted_insert(sorted_properties(ps.drop_last()), ps.last())
    }
}

/// Putting `p` into `s` at the first position whose name is not below
/// `p`'s: it replaces a parameter of the same name there, else is inserted.
pub proof fn lemma_sorted_insert_at(s: Seq<ParamModel>, p: ParamModel, j: int)
    requires
        0 <= j <= s.len(),
        forall|k: int| 0 <= k < j ==> name_lt(#[trigger] s[k].name, p.name),
        j == s.len() || !name_lt(s[j].name, p.name),
    ensures
        sorted_insert(s, p) == (if j < s.len() && s[j].name == p.name {
            s.update(j, p)
        } else {
            s.insert(j, p)
        }),
    decreases j,
{
    if j == 0 {
        if s.len() == 0 {
            assert(s.insert(0, p) =~= seq![p]);
        } else if s[0].name == p.name {
            assert(s.update(0, p) =~= seq![p] + s.drop_first());
        } else {
            assert(s.insert(0, p) =~= seq![p] + s);
        }
    } else {
        let t = s.drop_first();
        assert(name_lt(s[0].name, p.name));
        assert forall|k: int| 0 <= k < j - 1 implies name_lt(#[trigger] t[k].name, p.name) by {
            assert(t[k] == s[k + 1]);
        }
        lemma_sorted_insert_at(t, p, j - 1);
        if j < s.len() && s[j].name == p.name {
            assert(s.update(j, p) =~= seq![s[0]] + t.update(j - 1, p));
        } else {
            assert(s.insert(j, p) =~= seq![s[0]] + t.insert(j - 1, p));
        }
    }
}

/// Whether name `a` orders before name `b`.
fn text_lt(a: &Vec<char>, b: &Vec<char>) -> (r: bool)
    ensures
        r == name_lt(a@, b@),
{
    let mut i: usize = 0;
    assert(a@.skip(0) =~= a@);
    assert(b@.skip(0) =~= b@);
    while i < a.len() && i < b.len() && a[i] == b[i]
        invariant
            i <= a.len(),
            i <= b.len(),
            name_lt(a@, b@) == name_lt(a@.skip(i as int), b@.skip(i as int)),
        decreases a.len() - i,
    {
        assert(a@.skip(i as int).drop_first() =~= a@.skip(i + 1));
        assert(b@.skip(i as int).drop_first() =~= b@.skip(i + 1));
        i = i + 1;
    }
    if i == a.len() {
        i < b.len()
    } else if i == b.len() {
        false
    } else {
        assert(a@.skip(i as int)[0] == a@[i as int]);
        assert(b@.skip(i as int)[0] == b@[i as int]);
        (a[i] as u32) < (b[i] as u32)
    }
}

/// The quoted names of the required parameters, in order.
pub open spec fn required_names(ps: Seq<ParamModel>) -> Seq<Seq<char>>
    decreases ps.len(),
{
    if ps.len() == 0 {
        Seq::empty()
    } else if ps.last().required {
        required_names(ps.drop_last()).push(json_string_of(ps.last().name))
    } else {
        required_names(ps.drop_last())
    }
}

/// The JSON function descriptor of a command, keys in sorted order:
/// `{"function":{"description":..,"name":..,"parameters":{"properties":{..},
/// "required":[..],"type":"object"}},"type":"function"}`.
pub open spec fn function_json(f: FunctionModel) -> Seq<char> {
    "{\"function\":{\"description\":"@ + json_string_of(f.description) + ",\"name\":"@
        + json_string_of(f.name) + ",\"parameters\":{\"properties\":{"@ + join(
        property_entries(sorted_properties(f.parameters)),
        ","@,
    ) + "},\"required\":["@ + join(required_names(f.parameters), ","@)
        + "],\"type\":\"object\"}},\"type\":\"function\"}"@
}

impl Function {
    /// A command with the given name, description and parameters.
    pub fn new(name: &str, description: &str, parameters: Vec<ArgsInfo>) -> (r: Self)
        ensures
            r@ == (FunctionModel {
                name: name@,
                description: description@,
                parameters: param_models(parameters@),
            }),
    {
        Function {
            name: String::from_str(name),
            description: String::from_str(description),
            parameters,
        }
    }

    /// The command's name.
    pub fn get_name(&self) -> (r: String)
        ensures
            r@ == self@.name,
    {
        self.name.clone()
    }

    /// Positions of the parameters in the order the JSON object lists
    /// them: one per name, the last of that name, ordered by name.
    fn property_order(&self) -> (r: Vec<usize>)
        ensures
            forall|j: int| 0 <= j < r@.len() ==> #[trigger] r@[j] < self.parameters@.len(),
            r@.map_values(|k: usize| param_models(self.parameters@)[k as int]) == sorted_properties(
                param_models(self.parameters@),
            ),
    {
        let ghost pm = param_models(self.parameters@);
        let mut names: Vec<Vec<char>> = Vec::new();
        let mut n: usize = 0;
        while n < self.parameters.len()
            invariant
                n <= self.parameters.len(),
                names@.len() == n,
                forall|k: int| 0 <= k < n ==> (#[trigger] names@[k])@ == self.parameters@[k].name@,
            decreases self.parameters.len() - n,
        {
            names.push(chars_of(self.parameters[n].name.as_str()));
            n = n + 1;
        }
        let mut order: Vec<usize> = Vec::new();
        let mut i: usize = 0;
        assert(pm.subrange(0, 0) =~= Seq::<ParamModel>::empty());
        assert(order@.map_values(|k: usize| pm[k as int]) =~= Seq::<ParamModel>::empty());
        while i < self.parameters.len()
            invariant
                i <= self.parameters.len(),
                pm == param_models(self.parameters@),
                names@.len() == self.parameters.len(),
                forall|k: int|
                    0 <= k < self.parameters.len() ==> (#[trigger] names@[k])@
                        == self.parameters@[k].name@,
                forall|j: int| 0 <= j < order@.len() ==> #[trigger] order@[j] < i,
                order@.map_values(|k: usize| pm[k as int]) == sorted_properties(
                    pm.subrange(0, i as int),
                ),
            decreases self.parameters.len() - i,
        {
            let ghost s0 = order@.map_values(|k: usize| pm[k as int]);
            let mut j: usize = 0;
            while j < order.len() && text_lt(&names[order[j]], &names[i])
                invariant
                    j <= order.len(),
                    i < self.parameters.len(),
                    names@.len() == self.parameters.len(),
                    forall|k: int|
                        0 <= k < self.parameters.len() ==> (#[trigger] names@[k])@
                            == self.parameters@[k].name@,
                    forall|k: int| 0 <= k < order@.len() ==> #[trigger] order@[k] < i,
                    s0 == order@.map_values(|k: usize| pm[k as int]),
                    pm == param_models(self.parameters@),
                    forall|k: int| 0 <= k < j ==> name_lt(#[trigger] s0[k].name, pm[i as int].name),
                decreases order.len() - j,
            {
                j = j + 1;
            }
            proof {
                lemma_sorted_insert_at(s0, pm[i as int], j as int);
                let post = pm.subrange(0, i + 1);
                assert(post.drop_last() =~= pm.subrange(0, i as int));
            }
            if j < order.len() && self.parameters[order[j]].name == self.parameters[i].name {
                order.set(j, i);
                assert(order@.map_values(|k: usize| pm[k as int]) =~= s0.update(j as int, pm[i as int]));
            } else {
                order.insert(j, i);
                assert(order@.map_values(|k: usize| pm[k as int]) =~= s0.insert(j as int, pm[i as int]));
            }
            i = i + 1;
        }
        assert(pm.subrange(0, i as int) =~= pm);
        order
    }

    /// The command's JSON function descriptor.
    pub fn to_value(&self) -> (r: String)
        ensures
            r@ == function_json(self@),
    {
        let order = self.property_order();
        let ghost sorted = sorted_properties(param_models(self.parameters@));
        let mut props: Vec<String> = Vec::new();
        let mut m: usize = 0;
        while m < order.len()
            invariant
                m <= order.len(),
                forall|j: int| 0 <= j < order@.len() ==> #[trigger] order@[j] < self.parameters@.len(),
                order@.map_values(|k: usize| param_models(self.parameters@)[k as int]) == sorted,
                texts(props@) == property_entries(sorted.subrange(0, m as int)),
            decreases order.len() - m,
        {
            let ghost prev = props@;
            let entry = self.parameters[order[m]].to_value();
            props.push(entry);
            proof {
                assert(sorted[m as int] == self.parameters@[order@[m as int] as int]@);
                lemma_texts_push(prev, props@.last());
                lemma_prefix_step(sorted, m as int);
                assert(property_entries(sorted.subrange(0, m as int).push(sorted[m as int]))
                    =~= property_entries(sorted.subrange(0, m as int)).push(
                    param_property_json(sorted[m as int]),
                ));
            }
            m = m + 1;
        }
        assert(sorted.subrange(0, m as int) =~= sorted);
        let mut required: Vec<String> = Vec::new();
        let mut i: usize = 0;
        while i < self.parameters.len()
            invariant
                i <= self.parameters.len(),
                texts(required@) == required_names(param_models(self.parameters@.subrange(0, i as int))),
            decreases self.parameters.len() - i,
        {
            let arg = &self.parameters[i];
            if arg.is_required() {
                let n = arg.get_name();
                required.push(json_quote(n.as_str()));
            }
            proof {
                let pre = param_models(self.parameters@.subrange(0, i as int));
                let post = param_models(self.parameters@.subrange(0, i + 1));
                assert(post.drop_last() =~= pre);
                assert(post.last() == arg@);
            }
            i = i + 1;
        }
        assert(self.parameters@.subrange(0, self.parameters.len() as int) =~= self.parameters@);
        let mut out = String::from_str("{\"function\":{\"description\":");
        let d = json_quote(self.description.as_str());
        out.append(d.as_str());
        out.append(",\"name\":");
        let n = json_quote(self.name.as_str());
        out.append(n.as_str());
        out.append(",\"parameters\":{\"properties\":{");
        let p = join_strings(&props, ",");
        out.append(p.as_str());
        out.append("},\"required\":[");
        let q = join_strings(&required, ",");
        out.append(q.as_str());
        out.append("],\"type\":\"object\"}},\"type\":\"function\"}");
        out
    }
}

/// The model of a plugin descriptor.
pub struct PluginModel {
    pub id: Seq<char>,
    pub commands: Seq<FunctionModel>,
}

/// The descriptor a plugin reports when loaded: its identifier and the
/// commands it exposes, in declaration order.
#[derive(Clone, Debug)]
pub struct PluginManager {
    pub id: String,
    commands: Vec<Function>,
}

/// The models of a sequence of commands.
pub open spec fn function_models(fs: Seq<Function>) -> Seq<FunctionModel> {
    fs.map_values(|f: Function| f@)
}

impl View for PluginManager {
    type V = PluginModel;

    closed spec fn view(&self) -> PluginModel {
        PluginModel { id: self.id@, commands: function_models(self.commands@) }
    }
}

/// The JSON descriptors of the commands, in order.
pub open spec fn command_schemas(cs: Seq<FunctionModel>) -> Seq<Seq<char>> {
    cs.map_values(|f: FunctionModel| function_json(f))
}

/// The names of the commands, in order.
pub open spec fn command_names(cs: Seq<FunctionModel>) -> Seq<Seq<char>> {
    cs.map_values(|f: FunctionModel| f.name)
}

impl PluginManager {
    /// A plugin with no commands yet; rejected unless the identifier matches
    /// `^[A-Za-z0-9_]+$`.
    pub fn new(id: &str) -> (r: Result<Self, SchemaError>)
        ensures
            is_valid_plugin_id(id@) <==> r is Ok,
            r is Err ==> r->Err_0 == SchemaError::InvalidPluginId,
            r matches Ok(p) ==> p@ == (PluginModel { id: id@, commands: Seq::empty() }),
    {
        if !plugin_id_matches(id) {
            return Err(SchemaError::InvalidPluginId);
        }
        let p = PluginManager { id: String::from_str(id), commands: Vec::new() };
        assert(function_models(p.commands@) =~= Seq::empty());
        Ok(p)
    }

    /// The plugin's identifier.
    pub fn get_id(&self) -> (r: String)
        ensures
            r@ == self@.id,
    {
        self.id.clone()
    }

    /// Appends a command to the plugin's list.
    pub fn add_command(&mut self, command: Function)
        ensures
            final(self)@ == (PluginModel {
                id: old(self)@.id,
                commands: old(self)@.commands.push(command@),
            }),
    {
        self.commands.push(command);
        assert(function_models(self.commands@) =~= function_models(old(self).commands@).push(
            command@,
        ));
    }

    /// The JSON descriptors of the plugin's commands and, beside them, the
    /// commands' names, both in declaration order.
    pub fn get_commands(&self) -> (r: (Vec<String>, Vec<String>))
        ensures
            texts(r.0@) == command_schemas(self@.commands),
            texts(r.1@) == command_names(self@.commands),
    {
        let mut schemas: Vec<String> = Vec::new();
        let mut names: Vec<String> = Vec::new();
        let mut i: usize = 0;
        while i < self.commands.len()
            invariant
                i <= self.commands.len(),
                texts(schemas@) == command_schemas(function_models(self.commands@.subrange(0, i as int))),
                texts(names@) == command_names(function_models(self.commands@.subrange(0, i as int))),
            decreases self.commands.len() - i,
        {
            let f = &self.commands[i];
            let ghost old_schemas = schemas@;
            let ghost old_names = names@;
            schemas.push(f.to_value());
            names.push(f.get_name());
            proof {
                let pre = function_models(self.commands@.subrange(0, i as int));
                let post = function_models(self.commands@.subrange(0, i + 1));
                assert(post.drop_last() =~= pre);
                assert(post.last() == f@);
                assert(texts(schemas@).drop_last() =~= texts(old_schemas));
                assert(texts(names@).drop_last() =~= texts(old_names));
                assert(command_schemas(post).drop_last() =~= command_schemas(pre));
                assert(command_names(post).drop_last() =~= command_names(pre));
                assert forall|j: int| 0 <= j < post.len() implies texts(schemas@)[j]
                    == command_schemas(post)[j] && texts(names@)[j] == command_names(post)[j] by {
                    if j < post.len() - 1 {
                        assert(texts(schemas@).drop_last()[j] == texts(schemas@)[j]);
                        assert(texts(names@).drop_last()[j] == texts(names@)[j]);
                        assert(command_schemas(pre)[j] == command_schemas(post)[j]);
                        assert(command_names(pre)[j] == command_names(post)[j]);
                    }
                }
                assert(texts(schemas@) =~= command_schemas(post));
                assert(texts(names@) =~= command_names(post));
            }
            i = i + 1;
        }
        assert(self.commands@.subrange(0, self.commands.len() as int) =~= self.commands@);
        (schemas, names)
    }
}

/// The name and identifier a plugin author declares for a plugin.
#[derive(Clone, Debug)]
pub struct PluginHelper {
    name: String,
    id: String,
}

impl View for PluginHelper {
    /// The name and the identifier.
    type V = (Seq<char>, Seq<char>);

    closed spec fn view(&self) -> (Seq<char>, Seq<char>) {
        (self.name@, self.id@)
    }
}

impl PluginHelper {
    /// A helper; rejected with "Invalid ID" unless the identifier matches
    /// `^[A-Za-z0-9_]+$`.
    pub fn new(name: &str, id: &str) -> (r: Result<Self, &'static str>)
        ensures
            is_valid_plugin_id(id@) <==> r is Ok,
            r is Err ==> r->Err_0@ == "Invalid ID"@,
            r matches Ok(h) ==> h@ == (name@, id@),
    {
        if !plugin_id_matches(id) {
            return Err("Invalid ID");
        }
        Ok(PluginHelper { name: String::from_str(name), id: String::from_str(id) })
    }

    /// The helper's name.
    pub fn get_name(&self) -> (r: String)
        ensures
            r@ == self@.0,
    {
        self.name.clone()
    }

    /// The helper's identifier.
    pub fn get_id(&self) -> (r: String)
        ensures
            r@ == self@.1,
    {
        self.id.clone()
    }
}

/// A value a plugin command hands back, held as its JSON text.
#[derive(Clone, Debug)]
pub struct ResultValue {
    value: String,
}

impl View for ResultValue {
    /// The JSON text held.
    type V = Seq<char>;

    closed spec fn view(&self) -> Seq<char> {
        self.value@
    }
}

impl ResultValue {
    /// A result holding the JSON text of a value.
    pub fn from_json(value: String) -> (r: Self)
        ensures
            r@ == value@,
    {
        ResultValue { value }
    }

    /// The JSON text of the result.
    pub fn json(&self) -> (r: String)
        ensures
            r@ == self@,
    {
        self.value.clone()
    }

    /// The result as a JSON string value: its JSON text, quoted.
    pub fn to_value(&self) -> (r: String)
        ensures
            r@ == json_string_of(self@),
    {
        json_quote(self.value.as_str())
    }
}

} // verus!
