//! What the server reads of the modules in an apcore registry.

use crate::json::{self, Json, JsonObject};
use crate::text;
use crate::value;
use vstd::prelude::*;

verus! {

/// The outside type `apcore::registry::Registry`. Its contents change while it is shared, so two
/// reads of one registry may differ.
#[verifier::external_type_specification]
#[verifier::external_body]
pub struct ExRegistry(apcore::registry::Registry);

/// What a module says of its own behaviour.
#[derive(Debug)]
pub struct ModuleAnnotations {
    pub readonly: bool,
    pub destructive: bool,
    pub idempotent: bool,
    pub requires_approval: bool,
    pub open_world: bool,
    pub streaming: bool,
    /// What other packages add, by key.
    pub extra: JsonObject,
}

impl Default for ModuleAnnotations {
    fn default() -> (annotations: ModuleAnnotations)
        ensures
            !annotations.readonly,
            !annotations.destructive,
            !annotations.idempotent,
            !annotations.requires_approval,
            annotations.open_world,
            !annotations.streaming,
            annotations.extra@ == json::no_entries(),
    {
        ModuleAnnotations {
            readonly: false,
            destructive: false,
            idempotent: false,
            requires_approval: false,
            open_world: true,
            streaming: false,
            extra: JsonObject::new(),
        }
    }
}

/// A module as it was registered.
#[derive(Debug)]
pub struct ModuleDescriptor {
    pub module_id: String,
    pub description: String,
    pub documentation: Option<String>,
    pub input_schema: Json,
    pub output_schema: Json,
    pub version: String,
    pub tags: Vec<String>,
    pub annotations: Option<ModuleAnnotations>,
    pub metadata: JsonObject,
    pub display: Option<Json>,
}

/// The annotations of a module as apcore hands them out.
pub(crate) struct RawAnnotations {
    pub(crate) readonly: bool,
    pub(crate) destructive: bool,
    pub(crate) idempotent: bool,
    pub(crate) requires_approval: bool,
    pub(crate) open_world: bool,
    pub(crate) streaming: bool,
    pub(crate) extra: Vec<(String, serde_json::Value)>,
}

/// A module as apcore hands it out.
pub(crate) struct RawDescriptor {
    pub(crate) module_id: String,
    pub(crate) description: String,
    pub(crate) documentation: Option<String>,
    pub(crate) input_schema: serde_json::Value,
    pub(crate) output_schema: serde_json::Value,
    pub(crate) version: String,
    pub(crate) tags: Vec<String>,
    pub(crate) annotations: Option<RawAnnotations>,
    pub(crate) metadata: Vec<(String, serde_json::Value)>,
    pub(crate) display: Option<serde_json::Value>,
}

impl RawDescriptor {
    /// No map has a key twice.
    pub(crate) open spec fn keys_once(self) -> bool {
        &&& json::unique_keys(value::entries_json(self.metadata@))
        &&& self.annotations matches Some(annotations) ==> json::unique_keys(
            value::entries_json(annotations.extra@),
        )
    }
}

/// `apcore::registry::Registry::get_definition`: the descriptor of the module that is registered
/// under `name` at the moment; nothing where there is none or the lookup fails, as it does for an
/// empty name. The entries of its maps come in any order, each key once.
#[verifier::external_body]
fn get_definition(registry: &apcore::registry::Registry, name: &str) -> (r: Option<RawDescriptor>)
    ensures
        name@.len() == 0 ==> r is None,
        r matches Some(raw) ==> raw.keys_once(),
{
    let d = registry.get_definition(name).ok()??;
    let annotations = d.annotations.map(|a| RawAnnotations {
        readonly: a.readonly, destructive: a.destructive, idempotent: a.idempotent,
        requires_approval: a.requires_approval, open_world: a.open_world, streaming: a.streaming,
        extra: a.extra.into_iter().collect(),
    });
    Some(RawDescriptor {
        module_id: d.module_id, description: d.description, documentation: d.documentation,
        input_schema: d.input_schema, output_schema: d.output_schema, version: d.version,
        tags: d.tags, annotations, metadata: d.metadata.into_iter().collect(), display: d.display,
    })
}

/// The ids stand in the order of strings, each once.
pub open spec fn ids_ascend(ids: Seq<String>) -> bool {
    forall|i: int, j: int|
        0 <= i < j < ids.len() ==> text::precedes((#[trigger] ids[i])@, (#[trigger] ids[j])@)
}

/// Each id begins with the prefix that was asked for.
pub open spec fn ids_prefixed(ids: Seq<String>, prefix: Option<Seq<char>>) -> bool {
    prefix matches Some(p) ==> forall|i: int|
        0 <= i < ids.len() ==> text::has_prefix((#[trigger] ids[i])@, p)
}

/// `apcore::registry::Registry::list` for the public modules: the ids of those that are registered
/// at the moment, carry all the tags and begin with the prefix, sorted, each once.
#[verifier::external_body]
fn list_modules(
    registry: &apcore::registry::Registry,
    tags: Option<&[&str]>,
    prefix: Option<&str>,
) -> (ids: Vec<String>)
    ensures
        ids_ascend(ids@),
        ids_prefixed(ids@, text::ref_view(prefix)),
{
    registry.list(tags, prefix, None)
}

/// `ids` are the modules that `registry` can list for these tags and this prefix, as its modules
/// come and go.
pub closed spec fn listed(
    registry: &apcore::registry::Registry,
    tags: Option<&[&str]>,
    prefix: Option<&str>,
    ids: Seq<String>,
) -> bool {
    exists|list: Vec<String>| #[trigger]
        call_ensures(list_modules, (registry, tags, prefix), list) && list@ == ids
}

/// The ids of the modules that are registered at the moment, carry all the tags and begin with the
/// prefix, sorted, each once.
pub fn list(
    registry: &apcore::registry::Registry,
    tags: Option<&[&str]>,
    prefix: Option<&str>,
) -> (ids: Vec<String>)
    ensures
        ids_ascend(ids@),
        ids_prefixed(ids@, text::ref_view(prefix)),
        listed(registry, tags, prefix, ids@),
{
    let ids = list_modules(registry, tags, prefix);
    assert(call_ensures(list_modules, (registry, tags, prefix), ids));
    ids
}

/// The object whose entries `entries` are.
fn to_object(entries: Vec<(String, serde_json::Value)>) -> (object: JsonObject)
    requires
        json::unique_keys(value::entries_json(entries@)),
    ensures
        object@ == value::entries_json(entries@),
{
    let ghost all = entries@;
    let mut object = JsonObject::new();
    for entry in it: entries
        invariant
            it.seq() == all,
            json::unique_keys(value::entries_json(all)),
            object@ == value::entries_json(all).take(it.index() as int),
    {
        let ghost i = it.index() as int;
        assert(value::entries_json(all)[i] == (entry.0@, value::value_json(entry.1)));
        assert(!json::has_key(object@, entry.0@));
        object.insert(entry.0.as_str(), value::from_value(entry.1));
        assert(object@ =~= value::entries_json(all).take(i + 1));
    }
    assert(value::entries_json(all).take(all.len() as int) =~= value::entries_json(all));
    object
}

/// `annotations` say what `raw` says.
pub(crate) open spec fn same_annotations(
    annotations: ModuleAnnotations,
    raw: RawAnnotations,
) -> bool {
    &&& annotations.readonly == raw.readonly
    &&& annotations.destructive == raw.destructive
    &&& annotations.idempotent == raw.idempotent
    &&& annotations.requires_approval == raw.requires_approval
    &&& annotations.open_world == raw.open_world
    &&& annotations.streaming == raw.streaming
    &&& annotations.extra@ == value::entries_json(raw.extra@)
}

fn to_annotations(raw: RawAnnotations) -> (annotations: ModuleAnnotations)
    requires
        json::unique_keys(value::entries_json(raw.extra@)),
    ensures
        same_annotations(annotations, raw),
{
    ModuleAnnotations {
        readonly: raw.readonly,
        destructive: raw.destructive,
        idempotent: raw.idempotent,
        requires_approval: raw.requires_approval,
        open_world: raw.open_world,
        streaming: raw.streaming,
        extra: to_object(raw.extra),
    }
}

/// `d` says what `raw` says.
pub(crate) open spec fn same_descriptor(d: ModuleDescriptor, raw: RawDescriptor) -> bool {
    &&& d.module_id@ == raw.module_id@
    &&& d.description@ == raw.description@
    &&& text::opt_view(d.documentation) == text::opt_view(raw.documentation)
    &&& d.input_schema@ == value::value_json(raw.input_schema)
    &&& d.output_schema@ == value::value_json(raw.output_schema)
    &&& d.version@ == raw.version@
    &&& d.tags == raw.tags
    &&& match (d.annotations, raw.annotations) {
        (Some(a), Some(r)) => same_annotations(a, r),
        (None, None) => true,
        _ => false,
    }
    &&& d.metadata@ == value::entries_json(raw.metadata@)
    &&& json::opt_view(d.display) == value::opt_value_json(raw.display)
}

/// `r` is the module that a lookup of `name` in `registry` can give, as the registry's modules come
/// and go, or nothing where the lookup can give nothing.
pub closed spec fn looked_up(
    registry: &apcore::registry::Registry,
    name: Seq<char>,
    r: Option<ModuleDescriptor>,
) -> bool {
    exists|id: &str, raw: Option<RawDescriptor>| #[trigger]
        call_ensures(get_definition, (registry, id), raw) && id@ == name && match (r, raw) {
            (Some(d), Some(found)) => same_descriptor(d, found),
            (None, None) => true,
            _ => false,
        }
}

/// The descriptor that apcore's stands for.
fn to_descriptor(raw: RawDescriptor) -> (d: ModuleDescriptor)
    requires
        raw.keys_once(),
    ensures
        same_descriptor(d, raw),
{
    ModuleDescriptor {
        module_id: raw.module_id,
        description: raw.description,
        documentation: raw.documentation,
        input_schema: value::from_value(raw.input_schema),
        output_schema: value::from_value(raw.output_schema),
        version: raw.version,
        tags: raw.tags,
        annotations: match raw.annotations {
            Some(annotations) => Some(to_annotations(annotations)),
            None => None,
        },
        metadata: to_object(raw.metadata),
        display: match raw.display {
            Some(display) => Some(value::from_value(display)),
            None => None,
        },
    }
}

/// The module that is registered under `name` at the moment.
pub fn definition(registry: &apcore::registry::Registry, name: &str) -> (r: Option<
    ModuleDescriptor,
>)
    ensures
        name@.len() == 0 ==> r is None,
        looked_up(registry, name@, r),
{
    let found = get_definition(registry, name);
    assert(call_ensures(get_definition, (registry, name), found));
    match found {
        Some(raw) => Some(to_descriptor(raw)),
        None => None,
    }
}

/// A module that says nothing of its behaviour is taken to do no harm, to need no approval and to
/// reach the outside world.
pub proof fn law_default_annotations(annotations: ModuleAnnotations)
    requires
        call_ensures(<ModuleAnnotations as Default>::default, (), annotations),
    ensures
        !annotations.readonly,
        !annotations.destructive,
        !annotations.idempotent,
        !annotations.requires_approval,
        annotations.open_world,
        !annotations.streaming,
        annotations.extra@.len() == 0,
{
}

/// A module is taken over from the registry with each of its members as apcore has it.
proof fn law_modules_are_taken_over(raw: RawDescriptor, d: ModuleDescriptor)
    requires
        call_ensures(to_descriptor, (raw,), d),
    ensures
        d.module_id@ == raw.module_id@,
        d.description@ == raw.description@,
        text::opt_view(d.documentation) == text::opt_view(raw.documentation),
        d.input_schema@ == value::value_json(raw.input_schema),
        d.output_schema@ == value::value_json(raw.output_schema),
        d.version@ == raw.version@,
        d.tags == raw.tags,
        d.annotations is Some == raw.annotations is Some,
        raw.annotations matches Some(from) ==> (d.annotations matches Some(to) && to.readonly
            == from.readonly && to.destructive == from.destructive && to.idempotent
            == from.idempotent && to.requires_approval == from.requires_approval && to.open_world
            == from.open_world && to.streaming == from.streaming && to.extra@
            == value::entries_json(from.extra@)),
        d.metadata@ == value::entries_json(raw.metadata@),
        json::opt_view(d.display) == value::opt_value_json(raw.display),
{
}

/// The modules that are listed are those that the registry gave for the same tags and prefix, and
/// the module that is looked up is the one that it gave for the same name.
proof fn law_registries_are_asked_for_the_same(
    registry: &apcore::registry::Registry,
    tags: Option<&[&str]>,
    prefix: Option<&str>,
    ids: Vec<String>,
    name: &str,
    found: Option<ModuleDescriptor>,
)
    requires
        call_ensures(list, (registry, tags, prefix), ids),
        call_ensures(definition, (registry, name), found),
    ensures
        exists|given: Vec<String>| #[trigger]
            call_ensures(list_modules, (registry, tags, prefix), given) && given@ == ids@,
        exists|id: &str, raw: Option<RawDescriptor>| #[trigger]
            call_ensures(get_definition, (registry, id), raw) && id@ == name@ && found is Some
                == raw is Some && (raw matches Some(r) ==> (found matches Some(d) && d.module_id@
                == r.module_id@ && d.description@ == r.description@ && d.input_schema@
                == value::value_json(r.input_schema) && d.metadata@ == value::entries_json(
                r.metadata@,
            ))),
        name@.len() == 0 ==> found is None,
        forall|i: int, j: int|
            0 <= i < j < ids@.len() ==> text::precedes(
                (#[trigger] ids@[i])@,
                (#[trigger] ids@[j])@,
            ),
        prefix matches Some(p) ==> forall|i: int|
            0 <= i < ids@.len() ==> text::has_prefix((#[trigger] ids@[i])@, p@),
{
    assert(listed(registry, tags, prefix, ids@));
    assert(looked_up(registry, name@, found));
    let (id, raw) = choose|id: &str, raw: Option<RawDescriptor>| #[trigger]
        call_ensures(get_definition, (registry, id), raw) && id@ == name@ && match (found, raw) {
            (Some(d), Some(given)) => same_descriptor(d, given),
            (None, None) => true,
            _ => false,
        };
    assert(call_ensures(get_definition, (registry, id), raw));
}

/// What is listed or looked up is what the registry gave when it was asked for the same.
proof fn law_what_is_listed_was_given(
    registry: &apcore::registry::Registry,
    tags: Option<&[&str]>,
    prefix: Option<&str>,
    ids: Seq<String>,
    name: Seq<char>,
    found: Option<ModuleDescriptor>,
)
    requires
        listed(registry, tags, prefix, ids),
        looked_up(registry, name, found),
    ensures
        exists|given: Vec<String>| #[trigger]
            call_ensures(list_modules, (registry, tags, prefix), given) && given@ == ids,
        exists|id: &str, raw: Option<RawDescriptor>| #[trigger]
            call_ensures(get_definition, (registry, id), raw) && id@ == name && found is Some
                == raw is Some && (raw matches Some(r) ==> (found matches Some(d) && d.module_id@
                == r.module_id@)),
{
}

} // verus!
